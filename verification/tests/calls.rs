use item_client::calls::{delete_item, get_item, ping, post_item, set_item, settle, RpcFailure, Settled};
use item_client::messages::{
    DeleteItemRequest, DeleteItemResponse, GetItemRequest, GetItemResponse, Kv, Operation,
    PingRequest, PingResponse, PostItemRequest, PostItemResponse, Request, Response,
    SetItemRequest, SetItemResponse,
};

fn text(s: &str) -> String {
    String::from(s)
}

fn unreachable_service() -> RpcFailure {
    RpcFailure { detail: text("Transport(connection refused)") }
}

#[test]
fn get_item_builds_the_get_request() {
    assert_eq!(get_item(text("key")), Request::GetItem(GetItemRequest { key: text("key") }));
    assert_eq!(get_item(text("")), Request::GetItem(GetItemRequest { key: text("") }));
}

#[test]
fn set_item_builds_the_pair() {
    assert_eq!(
        set_item(text("key"), text("value")),
        Request::SetItem(SetItemRequest { kv: Kv { key: text("key"), value: text("value") } })
    );
    assert_ne!(
        set_item(text("key"), text("value")),
        Request::SetItem(SetItemRequest { kv: Kv { key: text("value"), value: text("key") } })
    );
}

#[test]
fn delete_item_keeps_the_keys_in_order() {
    assert_eq!(
        delete_item(vec![text("b"), text("a"), text("b")]),
        Request::DeleteItem(DeleteItemRequest { keys: vec![text("b"), text("a"), text("b")] })
    );
    assert_eq!(delete_item(vec![]), Request::DeleteItem(DeleteItemRequest { keys: vec![] }));
}

#[test]
fn ping_tells_no_message_from_an_empty_one() {
    assert_eq!(ping(None), Request::Ping(PingRequest { message: None }));
    assert_eq!(ping(Some(text(""))), Request::Ping(PingRequest { message: Some(text("")) }));
    assert_eq!(
        ping(Some(text("ping 0"))),
        Request::Ping(PingRequest { message: Some(text("ping 0")) })
    );
    assert_ne!(ping(None), ping(Some(text(""))));
}

#[test]
fn post_item_builds_the_post() {
    assert_eq!(post_item(text("ddd")), Request::PostItem(PostItemRequest { name: text("ddd") }));
}

#[test]
fn requests_know_their_operation() {
    assert_eq!(get_item(text("k")).operation(), Operation::GetItem);
    assert_eq!(set_item(text("k"), text("v")).operation(), Operation::SetItem);
    assert_eq!(delete_item(vec![text("k")]).operation(), Operation::DeleteItem);
    assert_eq!(ping(None).operation(), Operation::Ping);
    assert_eq!(post_item(text("n")).operation(), Operation::PostItem);
}

#[test]
fn responses_know_their_operation() {
    assert_eq!(Response::GetItem(GetItemResponse::default()).operation(), Operation::GetItem);
    assert_eq!(Response::SetItem(SetItemResponse::default()).operation(), Operation::SetItem);
    assert_eq!(
        Response::DeleteItem(DeleteItemResponse::default()).operation(),
        Operation::DeleteItem
    );
    assert_eq!(Response::Ping(PingResponse::default()).operation(), Operation::Ping);
    assert_eq!(Response::PostItem(PostItemResponse::default()).operation(), Operation::PostItem);
}

#[test]
fn defaults_are_zero_valued() {
    assert_eq!(GetItemResponse::default(), GetItemResponse { value: text("") });
    assert_eq!(SetItemResponse::default(), SetItemResponse { message: text("") });
    assert_eq!(DeleteItemResponse::default(), DeleteItemResponse { count: 0 });
    assert_eq!(PingResponse::default(), PingResponse { message: text("") });
    assert_eq!(PostItemResponse::default(), PostItemResponse { detail: text("") });
}

#[test]
fn zero_is_the_default_of_each_operation() {
    assert_eq!(Response::zero(Operation::GetItem), Response::GetItem(GetItemResponse::default()));
    assert_eq!(Response::zero(Operation::SetItem), Response::SetItem(SetItemResponse::default()));
    assert_eq!(
        Response::zero(Operation::DeleteItem),
        Response::DeleteItem(DeleteItemResponse::default())
    );
    assert_eq!(Response::zero(Operation::Ping), Response::Ping(PingResponse::default()));
    assert_eq!(
        Response::zero(Operation::PostItem),
        Response::PostItem(PostItemResponse::default())
    );
}

#[test]
fn a_response_that_came_back_is_returned_unmodified() {
    let response = Response::GetItem(GetItemResponse { value: text("value") });
    assert_eq!(
        settle(&get_item(text("key")), Ok(response.clone())),
        Settled { response, failure: None }
    );
    let response = Response::SetItem(SetItemResponse { message: text("OK") });
    assert_eq!(
        settle(&set_item(text("key"), text("value")), Ok(response.clone())),
        Settled { response, failure: None }
    );
    let response = Response::DeleteItem(DeleteItemResponse { count: 3 });
    assert_eq!(
        settle(&delete_item(vec![text("a")]), Ok(response.clone())),
        Settled { response, failure: None }
    );
    let response = Response::Ping(PingResponse { message: text("PONG") });
    assert_eq!(settle(&ping(None), Ok(response.clone())), Settled { response, failure: None });
}

#[test]
fn an_empty_response_that_came_back_is_no_failure() {
    let response = Response::GetItem(GetItemResponse { value: text("") });
    let end = settle(&get_item(text("missing")), Ok(response.clone()));
    assert_eq!(end.response, response);
    assert_eq!(end.failure, None);
}

#[test]
fn a_failed_get_returns_the_default_response() {
    let end = settle(&get_item(text("key")), Err(unreachable_service()));
    assert_eq!(end.response, Response::GetItem(GetItemResponse::default()));
    assert_eq!(end.failure, Some(unreachable_service()));
}

#[test]
fn a_failed_set_returns_the_default_response() {
    let end = settle(&set_item(text("key"), text("value")), Err(unreachable_service()));
    assert_eq!(end.response, Response::SetItem(SetItemResponse::default()));
    assert_eq!(end.failure, Some(unreachable_service()));
}

#[test]
fn a_failed_delete_returns_the_default_response() {
    let end = settle(&delete_item(vec![text("a"), text("b")]), Err(unreachable_service()));
    assert_eq!(end.response, Response::DeleteItem(DeleteItemResponse::default()));
    assert_eq!(end.response, Response::DeleteItem(DeleteItemResponse { count: 0 }));
    assert_eq!(end.failure, Some(unreachable_service()));
}

#[test]
fn a_failed_ping_returns_the_default_response() {
    for message in [None, Some(text("hello"))] {
        let end = settle(&ping(message), Err(unreachable_service()));
        assert_eq!(end.response, Response::Ping(PingResponse::default()));
        assert_eq!(end.failure, Some(unreachable_service()));
    }
}

#[test]
fn the_failure_is_kept_with_its_full_detail() {
    let failure = RpcFailure { detail: text("Application(ApplicationException { message: \"no such key\" })") };
    let end = settle(&get_item(text("key")), Err(failure.clone()));
    match end.failure {
        Some(kept) => assert_eq!(kept.detail, failure.detail),
        None => panic!("the failure was dropped"),
    }
}
