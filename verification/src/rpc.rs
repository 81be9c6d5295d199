//! JSON-RPC replies: the errors that handlers answer with, and the ids of requests.

use crate::text::{decimal, decimal_string};
use vstd::prelude::*;

verus! {

/// A JSON-RPC error object. `data` is the detail text, sent as a JSON string.
#[derive(Debug, PartialEq, Eq)]
pub struct RpcError {
    pub code: i32,
    pub message: String,
    pub data: Option<String>,
}

/// What an [`RpcError`] says.
pub struct RpcErrorView {
    pub code: int,
    pub message: Seq<char>,
    pub data: Option<Seq<char>>,
}

impl View for RpcError {
    type V = RpcErrorView;

    open spec fn view(&self) -> RpcErrorView {
        RpcErrorView {
            code: self.code as int,
            message: self.message@,
            data: match self.data {
                Some(detail) => Some(detail@),
                None => None,
            },
        }
    }
}

/// The internal error with `detail` as its data.
pub open spec fn internal_error_view(detail: Seq<char>) -> RpcErrorView {
    RpcErrorView { code: -32603, message: "Internal error"@, data: Some(detail) }
}

/// The invalid-params error with `detail` as its data.
pub open spec fn invalid_params_view(detail: Seq<char>) -> RpcErrorView {
    RpcErrorView { code: -32602, message: "Invalid params"@, data: Some(detail) }
}

/// The error for something that is not there, without data.
pub open spec fn resource_not_found_view() -> RpcErrorView {
    RpcErrorView { code: -32002, message: "Resource not found"@, data: None }
}

/// Calls `sacp::util::internal_error`. Trusted: the error has code -32603, the message that the
/// protocol crate gives that code, and `detail` as a JSON string for its data.
#[verifier::external_body]
pub(crate) fn internal_error(detail: &str) -> (error: RpcError)
    ensures
        error@ == internal_error_view(detail@),
{
    let error = sacp::util::internal_error(detail);
    let data = error.data.as_ref().and_then(|data| data.as_str()).map(|text| text.to_string());
    RpcError { code: error.code.into(), message: error.message, data }
}

/// Calls `sacp::Error::invalid_params` and sets its data with `sacp::Error::data`. Trusted: the
/// error has code -32602, the message that the protocol crate gives that code, and `detail` as a
/// JSON string for its data.
#[verifier::external_body]
pub(crate) fn invalid_params(detail: &str) -> (error: RpcError)
    ensures
        error@ == invalid_params_view(detail@),
{
    let error = sacp::Error::invalid_params().data(detail.to_string());
    let data = error.data.as_ref().and_then(|data| data.as_str()).map(|text| text.to_string());
    RpcError { code: error.code.into(), message: error.message, data }
}

/// Calls `sacp::Error::resource_not_found` without a URI. Trusted: the error has code -32002, the
/// message that the protocol crate gives that code, and no data.
#[verifier::external_body]
pub(crate) fn resource_not_found() -> (error: RpcError)
    ensures
        error@ == resource_not_found_view(),
{
    let error = sacp::Error::resource_not_found(None);
    let data = error.data.as_ref().and_then(|data| data.as_str()).map(|text| text.to_string());
    RpcError { code: error.code.into(), message: error.message, data }
}

/// The id of a JSON-RPC request.
#[derive(Debug, PartialEq, Eq)]
pub enum RequestId {
    Number(u64),
    String(String),
    Null,
}

impl RequestId {
    /// The id as text: a string id as it is, any other id as its JSON text.
    pub open spec fn text_view(self) -> Seq<char> {
        match self {
            RequestId::Number(n) => decimal(n as nat),
            RequestId::String(id) => id@,
            RequestId::Null => "null"@,
        }
    }

    /// The id as text: a string id as it is, any other id as its JSON text.
    pub fn into_text(self) -> (text: String)
        ensures
            text@ == self.text_view(),
            match self {
                RequestId::Number(n) => text@ == decimal(n as nat),
                RequestId::String(id) => text@ == id@,
                RequestId::Null => text@ == "null"@,
            },
    {
        match self {
            RequestId::Number(n) => decimal_string(n),
            RequestId::String(id) => id,
            RequestId::Null => "null".to_owned(),
        }
    }
}

/// An error's view shows its code, its message and its data, and nothing else.
pub proof fn law_error_view_shows_everything(error: RpcError)
    ensures
        error@.code == error.code,
        error@.message == error.message@,
        error.data is None ==> error@.data is None,
        error.data matches Some(detail) ==> error@.data == Some(detail@),
{
}

/// Each kind of error has its code and its message, whatever the detail, and an internal error or
/// one about parameters carries the detail whole.
pub proof fn law_errors_carry_their_detail(detail: Seq<char>)
    ensures
        internal_error_view(detail).code == -32603,
        internal_error_view(detail).message == "Internal error"@,
        internal_error_view(detail).data == Some(detail),
        invalid_params_view(detail).code == -32602,
        invalid_params_view(detail).message == "Invalid params"@,
        invalid_params_view(detail).data == Some(detail),
        resource_not_found_view().code == -32002,
        resource_not_found_view().message == "Resource not found"@,
        resource_not_found_view().data is None,
{
}

/// An id reads as what it holds: a string id as itself, a number as its numeral, none as `null`.
pub proof fn law_ids_read_as_they_are(id: RequestId)
    ensures
        id matches RequestId::String(text) ==> id.text_view() == text@,
        id matches RequestId::Number(n) ==> id.text_view() == decimal(n as nat),
        id is Null ==> id.text_view() == "null"@,
{
}

} // verus!
