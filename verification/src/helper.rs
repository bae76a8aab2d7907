use vstd::prelude::*;
use vstd::string::StringExecFns;
use crate::message::Type;

verus! {

/// The closed set of failures that `Node::process` and the handlers report.
/// Every failure is terminal for the single message being processed, never
/// for the node itself: a failed call leaves the node's state unchanged.
#[derive(Debug, Clone, PartialEq, Eq)]
pub enum Error {
    /// The inbound body carries no recognizable request tag
    /// (a reply-only variant arrived as top-level input).
    KeyNotFound,
    /// The node is initialized but no handler is registered for this tag.
    HandlerNotFound { key: Type },
    /// A handler was invoked with a body not matching its own registration;
    /// unreachable through `Node::process`, kept as a structural safeguard.
    ExpectedMessage { found: Type, expected: Type },
    /// A message other than `Init` arrived before the node was initialized.
    NotInitializedYet,
    /// A second `Init` arrived after the node was already initialized.
    AlreadyInitialized,
}

/// The name of a tag, for diagnostic text.
pub open spec fn tag_name(t: Type) -> Seq<char> {
    match t {
        Type::Init => "Init"@,
        Type::Echo => "Echo"@,
        Type::Generate => "Generate"@,
        Type::Broadcast => "Broadcast"@,
        Type::Read => "Read"@,
        Type::Topology => "Topology"@,
        Type::Invalid => "Invalid"@,
    }
}

impl Type {
    /// The tag's name, for diagnostic text.
    pub fn name(&self) -> (r: &'static str)
        ensures
            r@ == tag_name(*self),
    {
        match self {
            Type::Init => "Init",
            Type::Echo => "Echo",
            Type::Generate => "Generate",
            Type::Broadcast => "Broadcast",
            Type::Read => "Read",
            Type::Topology => "Topology",
            Type::Invalid => "Invalid",
        }
    }
}

impl Error {
    /// A human-readable description, for diagnostic reporting outside the
    /// core.
    pub fn describe(&self) -> (r: String)
        ensures
            r@ == match self {
                Error::KeyNotFound => "Key not found."@,
                Error::HandlerNotFound { key } => ({
                    "Couldn't find a handler for key \""@ + tag_name(*key) + "\"."@
                }),
                Error::ExpectedMessage { found, expected } => ({
                    "Expected \""@ + tag_name(*expected) + "\" message but found \""@
                        + tag_name(*found) + "\"."@
                }),
                Error::NotInitializedYet => "Node is not initialized yet."@,
                Error::AlreadyInitialized => "Node is already initialized."@,
            },
    {
        match self {
            Error::KeyNotFound => String::from_str("Key not found."),
            Error::HandlerNotFound { key } => {
                let s = String::from_str("Couldn't find a handler for key \"");
                let s = s.concat(key.name());
                s.concat("\".")
            },
            Error::ExpectedMessage { found, expected } => {
                let s = String::from_str("Expected \"");
                let s = s.concat(expected.name());
                let s = s.concat("\" message but found \"");
                let s = s.concat(found.name());
                s.concat("\".")
            },
            Error::NotInitializedYet => String::from_str("Node is not initialized yet."),
            Error::AlreadyInitialized => String::from_str("Node is already initialized."),
        }
    }
}

} // verus!
