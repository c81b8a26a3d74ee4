use vstd::prelude::*;
use vstd::string::*;

verus! {

/// Status of every reply to a request that was carried out.
pub const STATUS_OK: u16 = 200;

/// Status of every reply to a request that failed, whatever the reason.
pub const STATUS_INTERNAL_ERROR: u16 = 500;

/// What is sent back for one request: a status and a plain-text body.
#[derive(Debug, Clone, PartialEq, Eq)]
pub struct Reply {
    pub status: u16,
    pub body: String,
}

/// Why a request failed.
///
/// Both reasons reach the client in the same shape, see [`error_reply`].
#[derive(Debug, Clone, PartialEq, Eq)]
pub enum ServiceError {
    /// An update that selects by id came without an id or without a license.
    MissingField,
    /// The database refused or failed; the text is its own description.
    Storage(String),
}

/// Body of the reply to a write that was carried out.
pub open spec fn ok_body() -> Seq<char> {
    "OK"@
}

/// What every error body starts with.
pub open spec fn error_prefix() -> Seq<char> {
    "Something went wrong: "@
}

/// Description of a rejected update.
pub open spec fn missing_field_text() -> Seq<char> {
    "id and license are required"@
}

impl ServiceError {
    /// The text that describes this error to the client.
    pub open spec fn description(self) -> Seq<char> {
        match self {
            ServiceError::MissingField => missing_field_text(),
            ServiceError::Storage(text) => text@,
        }
    }

    /// The text that describes this error to the client.
    pub fn describe(&self) -> (out: String)
        ensures
            out@ == self.description(),
    {
        match self {
            ServiceError::MissingField => String::from_str("id and license are required"),
            ServiceError::Storage(text) => text.clone(),
        }
    }
}

/// The reply to a write that was carried out: status 200, body `OK`.
pub fn ok_reply() -> (out: Reply)
    ensures
        out.status == STATUS_OK,
        out.body@ == ok_body(),
{
    Reply { status: STATUS_OK, body: String::from_str("OK") }
}

/// The reply that carries `body` as it stands: status 200.
pub fn text_reply(body: String) -> (out: Reply)
    ensures
        out.status == STATUS_OK,
        out.body == body,
{
    Reply { status: STATUS_OK, body }
}

/// The reply to a failed request: status 500, and a body made of the fixed
/// prefix followed by the error's description, nothing taken out or added.
pub fn error_reply(error: &ServiceError) -> (out: Reply)
    ensures
        out.status == STATUS_INTERNAL_ERROR,
        out.body@ == error_prefix() + error.description(),
{
    let text = error.describe();
    let body = String::from_str("Something went wrong: ").concat(text.as_str());
    Reply { status: STATUS_INTERNAL_ERROR, body }
}

} // verus!
