//! What can go wrong, and the line that tells the user of it.

use crate::command::RemoteCall;
use crate::credentials::TokenFile;
use crate::text::{decimal, format_i64};
use vstd::prelude::*;

verus! {

/// Why a login failed. Each cause is the text that the driver gave for it.
#[derive(Clone, Debug, PartialEq, Eq)]
pub enum AuthError {
    /// Neither token file exists.
    NoCredentials,
    /// The service did not exchange the refresh token.
    RefreshFailed(String),
    /// The application's data directory could not be made.
    AppDir(String),
    /// A token file exists and could not be read.
    Unreadable(TokenFile, String),
    /// A token file could not be written.
    Unwritable(TokenFile, String),
}

/// Why no roster came.
#[derive(Clone, Debug, PartialEq, Eq)]
pub enum RosterError {
    /// The session holds no credentials.
    NotAuthenticated,
    /// The service did not list the products.
    FetchFailed(String),
}

/// Why a command for a vehicle failed.
#[derive(Clone, Debug, PartialEq, Eq)]
pub enum DispatchError {
    /// The session holds no credentials.
    NotAuthenticated,
    /// The index is none of the roster.
    InvalidIndex(i64),
    /// A call to the service failed: which call, for the vehicle at which
    /// index, and why.
    RemoteFailed { call: RemoteCall, idx: i64, cause: String },
    /// The snapshot could not be encoded for the shell.
    Encoding(String),
}

/// Why a request failed.
#[derive(Clone, Debug, PartialEq, Eq)]
pub enum Failure {
    Auth(AuthError),
    Roster(RosterError),
    Dispatch(DispatchError),
}

/// [`AuthError`] as plain text.
#[verifier::ext_equal]
pub enum AuthErrorView {
    NoCredentials,
    RefreshFailed(Seq<char>),
    AppDir(Seq<char>),
    Unreadable(TokenFile, Seq<char>),
    Unwritable(TokenFile, Seq<char>),
}

/// [`RosterError`] as plain text.
#[verifier::ext_equal]
pub enum RosterErrorView {
    NotAuthenticated,
    FetchFailed(Seq<char>),
}

/// [`DispatchError`] as plain text.
#[verifier::ext_equal]
pub enum DispatchErrorView {
    NotAuthenticated,
    InvalidIndex(i64),
    RemoteFailed { call: RemoteCall, idx: i64, cause: Seq<char> },
    Encoding(Seq<char>),
}

/// [`Failure`] as plain text.
#[verifier::ext_equal]
pub enum FailureView {
    Auth(AuthErrorView),
    Roster(RosterErrorView),
    Dispatch(DispatchErrorView),
}

impl View for AuthError {
    type V = AuthErrorView;

    open spec fn view(&self) -> AuthErrorView {
        match *self {
            AuthError::NoCredentials => AuthErrorView::NoCredentials,
            AuthError::RefreshFailed(cause) => AuthErrorView::RefreshFailed(cause@),
            AuthError::AppDir(cause) => AuthErrorView::AppDir(cause@),
            AuthError::Unreadable(file, cause) => AuthErrorView::Unreadable(file, cause@),
            AuthError::Unwritable(file, cause) => AuthErrorView::Unwritable(file, cause@),
        }
    }
}

impl View for RosterError {
    type V = RosterErrorView;

    open spec fn view(&self) -> RosterErrorView {
        match *self {
            RosterError::NotAuthenticated => RosterErrorView::NotAuthenticated,
            RosterError::FetchFailed(cause) => RosterErrorView::FetchFailed(cause@),
        }
    }
}

impl View for DispatchError {
    type V = DispatchErrorView;

    open spec fn view(&self) -> DispatchErrorView {
        match *self {
            DispatchError::NotAuthenticated => DispatchErrorView::NotAuthenticated,
            DispatchError::InvalidIndex(idx) => DispatchErrorView::InvalidIndex(idx),
            DispatchError::RemoteFailed { call, idx, cause } => DispatchErrorView::RemoteFailed {
                call,
                idx,
                cause: cause@,
            },
            DispatchError::Encoding(cause) => DispatchErrorView::Encoding(cause@),
        }
    }
}

impl View for Failure {
    type V = FailureView;

    open spec fn view(&self) -> FailureView {
        match *self {
            Failure::Auth(e) => FailureView::Auth(e@),
            Failure::Roster(e) => FailureView::Roster(e@),
            Failure::Dispatch(e) => FailureView::Dispatch(e@),
        }
    }
}

impl AuthErrorView {
    /// The line that tells of this failure.
    pub open spec fn line(self) -> Seq<char> {
        match self {
            AuthErrorView::NoCredentials => "not supported yet"@,
            AuthErrorView::RefreshFailed(cause) => "failed to refresh token: "@ + cause,
            AuthErrorView::AppDir(cause) => "Failed to create app data directory "@ + cause,
            AuthErrorView::Unreadable(file, cause) => match file {
                TokenFile::Access => "Failed to read the tesla access token file "@ + cause,
                TokenFile::Refresh => "Failed to read the tesla refresh token file "@ + cause,
            },
            AuthErrorView::Unwritable(file, cause) => match file {
                TokenFile::Access => "failed to write access_token: "@ + cause,
                TokenFile::Refresh => "failed to write refresh_token: "@ + cause,
            },
        }
    }
}

impl RosterErrorView {
    /// The line that tells of this failure.
    pub open spec fn line(self) -> Seq<char> {
        match self {
            RosterErrorView::NotAuthenticated => "Not logged in"@,
            RosterErrorView::FetchFailed(cause) => "Failed to get vehicles: "@ + cause,
        }
    }
}

impl DispatchErrorView {
    /// The line that tells of this failure.
    pub open spec fn line(self) -> Seq<char> {
        match self {
            DispatchErrorView::NotAuthenticated => "Not logged in"@,
            DispatchErrorView::InvalidIndex(idx) => "Invalid vehicle index "@ + decimal(idx as int),
            DispatchErrorView::RemoteFailed { call, idx, cause } => call.failure_line(idx, cause),
            DispatchErrorView::Encoding(cause) => "Failed to serialize ReducedVehicleData: "@
                + cause,
        }
    }
}

impl FailureView {
    /// The line that tells of this failure.
    pub open spec fn line(self) -> Seq<char> {
        match self {
            FailureView::Auth(e) => e.line(),
            FailureView::Roster(e) => e.line(),
            FailureView::Dispatch(e) => e.line(),
        }
    }
}

fn prefixed(prefix: &str, cause: &str) -> (line: String)
    ensures
        line@ == prefix@ + cause@,
{
    let mut line = String::from_str(prefix);
    line.append(cause);
    line
}

impl AuthError {
    /// Writes the line that tells of this failure.
    pub fn message(&self) -> (line: String)
        ensures
            line@ == self@.line(),
    {
        match self {
            AuthError::NoCredentials => String::from_str("not supported yet"),
            AuthError::RefreshFailed(cause) => prefixed("failed to refresh token: ", cause.as_str()),
            AuthError::AppDir(cause) => prefixed(
                "Failed to create app data directory ",
                cause.as_str(),
            ),
            AuthError::Unreadable(file, cause) => match file {
                TokenFile::Access => prefixed(
                    "Failed to read the tesla access token file ",
                    cause.as_str(),
                ),
                TokenFile::Refresh => prefixed(
                    "Failed to read the tesla refresh token file ",
                    cause.as_str(),
                ),
            },
            AuthError::Unwritable(file, cause) => match file {
                TokenFile::Access => prefixed("failed to write access_token: ", cause.as_str()),
                TokenFile::Refresh => prefixed("failed to write refresh_token: ", cause.as_str()),
            },
        }
    }
}

impl RosterError {
    /// Writes the line that tells of this failure.
    pub fn message(&self) -> (line: String)
        ensures
            line@ == self@.line(),
    {
        match self {
            RosterError::NotAuthenticated => String::from_str("Not logged in"),
            RosterError::FetchFailed(cause) => prefixed("Failed to get vehicles: ", cause.as_str()),
        }
    }
}

impl DispatchError {
    /// Writes the line that tells of this failure.
    pub fn message(&self) -> (line: String)
        ensures
            line@ == self@.line(),
    {
        match self {
            DispatchError::NotAuthenticated => String::from_str("Not logged in"),
            DispatchError::InvalidIndex(idx) => prefixed(
                "Invalid vehicle index ",
                format_i64(*idx).as_str(),
            ),
            DispatchError::RemoteFailed { call, idx, cause } => call.failure_text(
                *idx,
                cause.as_str(),
            ),
            DispatchError::Encoding(cause) => prefixed(
                "Failed to serialize ReducedVehicleData: ",
                cause.as_str(),
            ),
        }
    }
}

impl Failure {
    /// Writes the line that tells of this failure.
    pub fn message(&self) -> (line: String)
        ensures
            line@ == self@.line(),
    {
        match self {
            Failure::Auth(e) => e.message(),
            Failure::Roster(e) => e.message(),
            Failure::Dispatch(e) => e.message(),
        }
    }
}

} // verus!
