//! Errors surfaced by the directory client.

use vstd::prelude::*;

verus! {

/// A terminal failure of a directory lookup (search, stream-URL resolution,
/// or mirror discovery), reported to the controller after failover gives up.
#[derive(Debug, Clone, PartialEq, Eq)]
pub enum DirectoryError {
    /// Transport-level failure or timeout; carries the transport's message.
    Network(String),
    /// A response (or an input standing in for one) could not be interpreted;
    /// carries a short description.
    Parse(String),
    /// Mirror discovery returned no servers.
    EmptyMirrorList,
    /// A response body exceeded the size cap for its endpoint.
    ResponseTooLarge,
    /// A resolved stream URL had a scheme other than `http` or `https`;
    /// carries the offending scheme.
    UnsupportedScheme(String),
}

/// Mathematical image of a [`DirectoryError`].
pub ghost enum DirectoryErrorData {
    Network(Seq<char>),
    Parse(Seq<char>),
    EmptyMirrorList,
    ResponseTooLarge,
    UnsupportedScheme(Seq<char>),
}

impl View for DirectoryError {
    type V = DirectoryErrorData;

    open spec fn view(&self) -> DirectoryErrorData {
        match self {
            DirectoryError::Network(m) => DirectoryErrorData::Network(m@),
            DirectoryError::Parse(m) => DirectoryErrorData::Parse(m@),
            DirectoryError::EmptyMirrorList => DirectoryErrorData::EmptyMirrorList,
            DirectoryError::ResponseTooLarge => DirectoryErrorData::ResponseTooLarge,
            DirectoryError::UnsupportedScheme(s) => DirectoryErrorData::UnsupportedScheme(s@),
        }
    }
}

/// The human-readable message for an error, as a sequence of characters.
pub open spec fn spec_message(e: DirectoryErrorData) -> Seq<char> {
    match e {
        DirectoryErrorData::Network(m) => "network error: "@ + m,
        DirectoryErrorData::Parse(m) => "parse error: "@ + m,
        DirectoryErrorData::EmptyMirrorList => "radio directory server list was empty"@,
        DirectoryErrorData::ResponseTooLarge => "response too large"@,
        DirectoryErrorData::UnsupportedScheme(s) => "unsupported stream URL scheme: "@ + s,
    }
}

impl DirectoryError {
    /// The human-readable message shown to the user for this error.
    pub fn message(&self) -> (r: String)
        ensures
            r@ == spec_message(self@),
    {
        match self {
            DirectoryError::Network(m) => {
                let mut s = "network error: ".to_owned();
                s.append(m.as_str());
                s
            },
            DirectoryError::Parse(m) => {
                let mut s = "parse error: ".to_owned();
                s.append(m.as_str());
                s
            },
            DirectoryError::EmptyMirrorList => "radio directory server list was empty".to_owned(),
            DirectoryError::ResponseTooLarge => "response too large".to_owned(),
            DirectoryError::UnsupportedScheme(sch) => {
                let mut s = "unsupported stream URL scheme: ".to_owned();
                s.append(sch.as_str());
                s
            },
        }
    }
}

} // verus!
