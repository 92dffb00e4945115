//! The call wrappers: each builds the one request of its operation from
//! plain arguments, and each ends in `settle`, which turns what came back
//! into a response whatever happened.
//!
//! The exchange itself happens between the two halves, outside this crate.

use crate::messages::{
    optional_text, GetItemRequest, Kv, DeleteItemRequest, Operation, PingRequest, PostItemRequest,
    Request, RequestView, Response, ResponseView, SetItemRequest,
};
use vstd::prelude::*;

verus! {

/// A call that did not come back with a response: the transport failed, or
/// the service answered with an error. `detail` holds the full diagnostic.
#[derive(Debug, Clone, PartialEq, Eq)]
pub struct RpcFailure {
    pub detail: String,
}

/// What a call wrapper hands to its caller: always a response, and the
/// failure that the response stands in for, which is to be logged at error
/// severity.
#[derive(Debug, Clone, PartialEq, Eq)]
pub struct Settled {
    pub response: Response,
    pub failure: Option<RpcFailure>,
}

/// What came back from an exchange, as contracts speak of it: the response,
/// or the detail of the failure.
pub type OutcomeView = Result<ResponseView, Seq<char>>;

/// A settled call as contracts speak of it.
pub struct SettledView {
    pub response: ResponseView,
    pub failure: Option<Seq<char>>,
}

/// The view of what came back from an exchange.
pub open spec fn outcome_view(outcome: Result<Response, RpcFailure>) -> OutcomeView {
    match outcome {
        Ok(response) => Ok(response@),
        Err(failure) => Err(failure.detail@),
    }
}

impl View for Settled {
    type V = SettledView;

    open spec fn view(&self) -> SettledView {
        SettledView {
            response: self.response@,
            failure: match self.failure {
                Some(failure) => Some(failure.detail@),
                None => None,
            },
        }
    }
}

/// The fail-soft policy: a response that came back is kept as it is; a
/// failure is replaced by the zero-valued response of the operation that
/// was called, and is kept for the log.
pub open spec fn settled(operation: Operation, outcome: OutcomeView) -> SettledView {
    match outcome {
        Ok(response) => SettledView { response, failure: None },
        Err(detail) => SettledView { response: ResponseView::zero(operation), failure: Some(detail) },
    }
}

/// The request that asks for the value under `key`.
pub fn get_item(key: String) -> (call: Request)
    ensures
        call@ == (RequestView::GetItem { key: key@ }),
{
    Request::GetItem(GetItemRequest { key })
}

/// The request that stores `value` under `key`.
pub fn set_item(key: String, value: String) -> (call: Request)
    ensures
        call@ == (RequestView::SetItem { key: key@, value: value@ }),
{
    Request::SetItem(SetItemRequest { kv: Kv { key, value } })
}

/// The request that deletes all of `keys` in one call.
pub fn delete_item(keys: Vec<String>) -> (call: Request)
    ensures
        call@ == (RequestView::DeleteItem { keys: keys.deep_view() }),
{
    Request::DeleteItem(DeleteItemRequest { keys })
}

/// The request that probes the service, with a message to echo or without.
pub fn ping(message: Option<String>) -> (call: Request)
    ensures
        call@ == (RequestView::Ping { message: optional_text(message) }),
{
    Request::Ping(PingRequest { message })
}

/// The request that posts an item by `name`.
pub fn post_item(name: String) -> (call: Request)
    ensures
        call@ == (RequestView::PostItem { name: name@ }),
{
    Request::PostItem(PostItemRequest { name })
}

/// Ends a call wrapper: never an error, always a response. A response that
/// came back is returned unmodified; a failure gives the zero-valued
/// response of the call's operation, and the failure itself for the log.
pub fn settle(call: &Request, outcome: Result<Response, RpcFailure>) -> (end: Settled)
    ensures
        match outcome {
            Ok(response) => end.response == response && end.failure is None,
            Err(failure) => end.response@ == ResponseView::zero(call@.operation()) && end.failure
                == Some(failure),
        },
        end@ == settled(call@.operation(), outcome_view(outcome)),
{
    match outcome {
        Ok(response) => Settled { response, failure: None },
        Err(failure) => Settled { response: Response::zero(call.operation()), failure: Some(failure) },
    }
}

} // verus!
