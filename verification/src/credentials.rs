//! The two tokens of an account and the files that keep them.

use vstd::prelude::*;

verus! {

/// One of the two files that keep a token between runs.
#[derive(Clone, Copy, Debug, PartialEq, Eq, Structural)]
pub enum TokenFile {
    /// Keeps the access token.
    Access,
    /// Keeps the refresh token.
    Refresh,
}

impl TokenFile {
    /// The name of the file inside the application's data directory.
    pub open spec fn name(self) -> Seq<char> {
        match self {
            TokenFile::Access => "tesla_access_token.txt"@,
            TokenFile::Refresh => "tesla_refresh_token.txt"@,
        }
    }

    /// The name of the file inside the application's data directory.
    pub fn file_name(self) -> (name: &'static str)
        ensures
            name@ == self.name(),
    {
        match self {
            TokenFile::Access => "tesla_access_token.txt",
            TokenFile::Refresh => "tesla_refresh_token.txt",
        }
    }
}

/// What authorises calls to the vehicle service.
#[derive(Clone, Debug, PartialEq, Eq)]
pub struct Credentials {
    /// The bearer token that each call presents.
    pub access_token: String,
    /// The token that buys a new access token, where one is known.
    pub refresh_token: Option<String>,
}

/// [`Credentials`] as plain text.
#[verifier::ext_equal]
pub struct CredentialsView {
    pub access_token: Seq<char>,
    pub refresh_token: Option<Seq<char>>,
}

impl View for Credentials {
    type V = CredentialsView;

    open spec fn view(&self) -> CredentialsView {
        CredentialsView {
            access_token: self.access_token@,
            refresh_token: text_of(self.refresh_token),
        }
    }
}

/// The text of an optional string.
pub open spec fn text_of(s: Option<String>) -> Option<Seq<char>> {
    match s {
        Some(t) => Some(t@),
        None => None,
    }
}

} // verus!
