//! The values exchanged with the item service: one request and one response
//! per operation, each a plain value built for a single call.

use vstd::prelude::*;

verus! {

/// The five operations of the item service.
#[derive(Debug, Clone, Copy, PartialEq, Eq, Structural)]
pub enum Operation {
    GetItem,
    SetItem,
    DeleteItem,
    Ping,
    PostItem,
}

/// Asks for the value stored under `key`.
#[derive(Debug, Clone, PartialEq, Eq)]
pub struct GetItemRequest {
    pub key: String,
}

/// The value found under the key that was asked for.
#[derive(Debug, Clone, PartialEq, Eq)]
pub struct GetItemResponse {
    pub value: String,
}

/// A key together with the value to store under it.
#[derive(Debug, Clone, PartialEq, Eq)]
pub struct Kv {
    pub key: String,
    pub value: String,
}

/// Asks to store one pair.
#[derive(Debug, Clone, PartialEq, Eq)]
pub struct SetItemRequest {
    pub kv: Kv,
}

/// The service's confirmation of a store.
#[derive(Debug, Clone, PartialEq, Eq)]
pub struct SetItemResponse {
    pub message: String,
}

/// Asks to delete every key of the list, in one call.
#[derive(Debug, Clone, PartialEq, Eq)]
pub struct DeleteItemRequest {
    pub keys: Vec<String>,
}

/// How many entries a delete removed.
#[derive(Debug, Clone, PartialEq, Eq)]
pub struct DeleteItemResponse {
    pub count: i64,
}

/// A liveness probe. No message at all is distinct from an empty message.
#[derive(Debug, Clone, PartialEq, Eq)]
pub struct PingRequest {
    pub message: Option<String>,
}

/// The answer to a probe: the message echoed, or the service's
/// acknowledgement where none was sent.
#[derive(Debug, Clone, PartialEq, Eq)]
pub struct PingResponse {
    pub message: String,
}

/// Posts an item by name.
#[derive(Debug, Clone, PartialEq, Eq)]
pub struct PostItemRequest {
    pub name: String,
}

/// The answer to a post. The client reads nothing in it but its
/// rendering for the log.
#[derive(Debug, Clone, PartialEq, Eq)]
pub struct PostItemResponse {
    pub detail: String,
}

/// A request of any operation.
#[derive(Debug, Clone, PartialEq, Eq)]
pub enum Request {
    GetItem(GetItemRequest),
    SetItem(SetItemRequest),
    DeleteItem(DeleteItemRequest),
    Ping(PingRequest),
    PostItem(PostItemRequest),
}

/// A response of any operation.
#[derive(Debug, Clone, PartialEq, Eq)]
pub enum Response {
    GetItem(GetItemResponse),
    SetItem(SetItemResponse),
    DeleteItem(DeleteItemResponse),
    Ping(PingResponse),
    PostItem(PostItemResponse),
}

/// A request as contracts speak of it: its operation and its fields as
/// character sequences.
pub enum RequestView {
    GetItem { key: Seq<char> },
    SetItem { key: Seq<char>, value: Seq<char> },
    DeleteItem { keys: Seq<Seq<char>> },
    Ping { message: Option<Seq<char>> },
    PostItem { name: Seq<char> },
}

/// A response as contracts speak of it.
pub enum ResponseView {
    GetItem { value: Seq<char> },
    SetItem { message: Seq<char> },
    DeleteItem { count: i64 },
    Ping { message: Seq<char> },
    PostItem { detail: Seq<char> },
}

/// The characters of an optional text.
pub open spec fn optional_text(text: Option<String>) -> Option<Seq<char>> {
    match text {
        Some(s) => Some(s@),
        None => None,
    }
}

impl View for Request {
    type V = RequestView;

    open spec fn view(&self) -> RequestView {
        match *self {
            Request::GetItem(r) => RequestView::GetItem { key: r.key@ },
            Request::SetItem(r) => RequestView::SetItem { key: r.kv.key@, value: r.kv.value@ },
            Request::DeleteItem(r) => RequestView::DeleteItem { keys: r.keys.deep_view() },
            Request::Ping(r) => RequestView::Ping { message: optional_text(r.message) },
            Request::PostItem(r) => RequestView::PostItem { name: r.name@ },
        }
    }
}

impl View for Response {
    type V = ResponseView;

    open spec fn view(&self) -> ResponseView {
        match *self {
            Response::GetItem(r) => ResponseView::GetItem { value: r.value@ },
            Response::SetItem(r) => ResponseView::SetItem { message: r.message@ },
            Response::DeleteItem(r) => ResponseView::DeleteItem { count: r.count },
            Response::Ping(r) => ResponseView::Ping { message: r.message@ },
            Response::PostItem(r) => ResponseView::PostItem { detail: r.detail@ },
        }
    }
}

impl RequestView {
    /// The operation that the request asks for.
    pub open spec fn operation(self) -> Operation {
        match self {
            RequestView::GetItem { .. } => Operation::GetItem,
            RequestView::SetItem { .. } => Operation::SetItem,
            RequestView::DeleteItem { .. } => Operation::DeleteItem,
            RequestView::Ping { .. } => Operation::Ping,
            RequestView::PostItem { .. } => Operation::PostItem,
        }
    }
}

impl ResponseView {
    /// The operation that the response answers.
    pub open spec fn operation(self) -> Operation {
        match self {
            ResponseView::GetItem { .. } => Operation::GetItem,
            ResponseView::SetItem { .. } => Operation::SetItem,
            ResponseView::DeleteItem { .. } => Operation::DeleteItem,
            ResponseView::Ping { .. } => Operation::Ping,
            ResponseView::PostItem { .. } => Operation::PostItem,
        }
    }

    /// The zero-valued response of an operation: empty texts, a count of 0.
    pub open spec fn zero(operation: Operation) -> ResponseView {
        match operation {
            Operation::GetItem => ResponseView::GetItem { value: Seq::empty() },
            Operation::SetItem => ResponseView::SetItem { message: Seq::empty() },
            Operation::DeleteItem => ResponseView::DeleteItem { count: 0 },
            Operation::Ping => ResponseView::Ping { message: Seq::empty() },
            Operation::PostItem => ResponseView::PostItem { detail: Seq::empty() },
        }
    }
}

impl Default for GetItemResponse {
    fn default() -> (r: GetItemResponse)
        ensures
            r.value@ == Seq::<char>::empty(),
    {
        GetItemResponse { value: String::new() }
    }
}

impl Default for SetItemResponse {
    fn default() -> (r: SetItemResponse)
        ensures
            r.message@ == Seq::<char>::empty(),
    {
        SetItemResponse { message: String::new() }
    }
}

impl Default for DeleteItemResponse {
    fn default() -> (r: DeleteItemResponse)
        ensures
            r.count == 0,
    {
        DeleteItemResponse { count: 0 }
    }
}

impl Default for PingResponse {
    fn default() -> (r: PingResponse)
        ensures
            r.message@ == Seq::<char>::empty(),
    {
        PingResponse { message: String::new() }
    }
}

impl Default for PostItemResponse {
    fn default() -> (r: PostItemResponse)
        ensures
            r.detail@ == Seq::<char>::empty(),
    {
        PostItemResponse { detail: String::new() }
    }
}

impl Request {
    /// The operation that this request asks for.
    pub fn operation(&self) -> (op: Operation)
        ensures
            op == self@.operation(),
    {
        match self {
            Request::GetItem(_) => Operation::GetItem,
            Request::SetItem(_) => Operation::SetItem,
            Request::DeleteItem(_) => Operation::DeleteItem,
            Request::Ping(_) => Operation::Ping,
            Request::PostItem(_) => Operation::PostItem,
        }
    }
}

impl Response {
    /// The operation that this response answers.
    pub fn operation(&self) -> (op: Operation)
        ensures
            op == self@.operation(),
    {
        match self {
            Response::GetItem(_) => Operation::GetItem,
            Response::SetItem(_) => Operation::SetItem,
            Response::DeleteItem(_) => Operation::DeleteItem,
            Response::Ping(_) => Operation::Ping,
            Response::PostItem(_) => Operation::PostItem,
        }
    }

    /// The zero-valued response of `operation`, which stands in for the
    /// answer of a call that failed.
    pub fn zero(operation: Operation) -> (r: Response)
        ensures
            r@ == ResponseView::zero(operation),
    {
        match operation {
            Operation::GetItem => Response::GetItem(GetItemResponse::default()),
            Operation::SetItem => Response::SetItem(SetItemResponse::default()),
            Operation::DeleteItem => Response::DeleteItem(DeleteItemResponse::default()),
            Operation::Ping => Response::Ping(PingResponse::default()),
            Operation::PostItem => Response::PostItem(PostItemResponse::default()),
        }
    }
}

} // verus!
