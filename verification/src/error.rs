//! What can go wrong in a scrape run.

use vstd::prelude::*;

verus! {

/// The hidden fields of a login page that carry the session identity, in
/// the order in which the page holds them.
#[derive(Debug, Clone, Copy, PartialEq, Eq)]
pub enum SessionField {
    SessionId,
    UserId,
    MemberId,
}

/// The name that the portal gives a session field.
pub open spec fn field_name(field: SessionField) -> Seq<char> {
    match field {
        SessionField::SessionId => "SessionID"@,
        SessionField::UserId => "UserID"@,
        SessionField::MemberId => "MemberID"@,
    }
}

impl SessionField {
    /// The name of the field in the page.
    pub fn name(&self) -> (name: &'static str)
        ensures
            name@ == field_name(*self),
    {
        match self {
            SessionField::SessionId => "SessionID",
            SessionField::UserId => "UserID",
            SessionField::MemberId => "MemberID",
        }
    }
}

/// Why a page could not be read.
#[derive(Debug, Clone, Copy, PartialEq, Eq)]
pub enum ExtractError {
    /// The login page lacks the named session field.
    SessionFieldMissing(SessionField),
}

impl ExtractError {
    /// A message for the operator.
    pub fn message(&self) -> (text: String)
        ensures
            match *self {
                ExtractError::SessionFieldMissing(field) => text@ == field_name(field)
                    + " not found"@,
            },
    {
        match self {
            ExtractError::SessionFieldMissing(field) => field.name().to_owned().concat(
                " not found",
            ),
        }
    }
}

/// Why a run failed.
#[derive(Debug, Clone, Copy, PartialEq, Eq)]
pub enum ErrorEnum {
    /// The portal's answer to the login carries no session identity.
    AuthenticationFailed,
    /// A request could not be sent or its answer could not be read.
    TransportError,
}

} // verus!
