//! The failures that the bridge reports, each as a value of one enum.

use vstd::prelude::*;

verus! {

/// A failure of the bridge, as its callers see it.
///
/// The first three are fatal and arise only while the bridge is being
/// built. `WriteFailure` names the event that sets the fuse. The others are
/// handed to the one caller whose request they concern.
#[derive(Debug, Clone, PartialEq, Eq)]
pub enum BridgeError {
    /// The worker process could not be started.
    SpawnFailure(String),
    /// No worker executable was found.
    BinaryNotFound,
    /// The worker's entry script was not found.
    ScriptNotFound,
    /// A write to the worker's input failed.
    WriteFailure(String),
    /// No reply arrived before the deadline.
    Timeout,
    /// The worker answered with an error of its own; the text is the worker's.
    Rpc(String),
    /// The reply does not have the shape the caller expects.
    Deserialization,
    /// A line from the worker was not JSON; the text is the parser's message.
    ParseFault(String),
    /// The fuse is set: the worker is gone.
    Disconnected,
    /// The reply slot was dropped before anything was put into it.
    ChannelClosed,
}

/// What a [`BridgeError`] is, with its texts as sequences of characters.
pub enum BridgeErrorView {
    SpawnFailure(Seq<char>),
    BinaryNotFound,
    ScriptNotFound,
    WriteFailure(Seq<char>),
    Timeout,
    Rpc(Seq<char>),
    Deserialization,
    ParseFault(Seq<char>),
    Disconnected,
    ChannelClosed,
}

impl View for BridgeError {
    type V = BridgeErrorView;

    open spec fn view(&self) -> BridgeErrorView {
        match self {
            BridgeError::SpawnFailure(s) => BridgeErrorView::SpawnFailure(s@),
            BridgeError::BinaryNotFound => BridgeErrorView::BinaryNotFound,
            BridgeError::ScriptNotFound => BridgeErrorView::ScriptNotFound,
            BridgeError::WriteFailure(s) => BridgeErrorView::WriteFailure(s@),
            BridgeError::Timeout => BridgeErrorView::Timeout,
            BridgeError::Rpc(s) => BridgeErrorView::Rpc(s@),
            BridgeError::Deserialization => BridgeErrorView::Deserialization,
            BridgeError::ParseFault(s) => BridgeErrorView::ParseFault(s@),
            BridgeError::Disconnected => BridgeErrorView::Disconnected,
            BridgeError::ChannelClosed => BridgeErrorView::ChannelClosed,
        }
    }
}

impl BridgeErrorView {
    /// Whether the error prevents the bridge from existing at all.
    pub open spec fn is_fatal(self) -> bool {
        self is SpawnFailure || self is BinaryNotFound || self is ScriptNotFound
    }

    /// The text shown for the error.
    pub open spec fn message(self) -> Seq<char> {
        match self {
            BridgeErrorView::SpawnFailure(s) => "failed to start the service bridge: "@ + s,
            BridgeErrorView::BinaryNotFound =>
                "Node.js binary not found. Ensure Node is installed or set NAMEFIX_NODE."@,
            BridgeErrorView::ScriptNotFound => "service bridge script not found"@,
            BridgeErrorView::WriteFailure(s) => "bridge write failed: "@ + s,
            BridgeErrorView::Timeout => "bridge request timed out"@,
            BridgeErrorView::Rpc(s) => s,
            BridgeErrorView::Deserialization => "bridge reply has an unexpected shape"@,
            BridgeErrorView::ParseFault(s) => "bridge parse error: "@ + s,
            BridgeErrorView::Disconnected => "bridge disconnected"@,
            BridgeErrorView::ChannelClosed => "bridge channel closed"@,
        }
    }
}

impl BridgeError {
    /// Whether the error prevents the bridge from existing at all.
    pub fn is_fatal(&self) -> (fatal: bool)
        ensures
            fatal == self@.is_fatal(),
    {
        match self {
            BridgeError::SpawnFailure(_) => true,
            BridgeError::BinaryNotFound => true,
            BridgeError::ScriptNotFound => true,
            _ => false,
        }
    }

    /// The text shown for the error. An `Rpc` error shows the worker's own
    /// text, unchanged.
    pub fn message(&self) -> (text: String)
        ensures
            text@ == self@.message(),
    {
        match self {
            BridgeError::SpawnFailure(s) => String::from_str(
                "failed to start the service bridge: ",
            ).concat(s.as_str()),
            BridgeError::BinaryNotFound => String::from_str(
                "Node.js binary not found. Ensure Node is installed or set NAMEFIX_NODE.",
            ),
            BridgeError::ScriptNotFound => String::from_str("service bridge script not found"),
            BridgeError::WriteFailure(s) => String::from_str("bridge write failed: ").concat(
                s.as_str(),
            ),
            BridgeError::Timeout => String::from_str("bridge request timed out"),
            BridgeError::Rpc(s) => s.clone(),
            BridgeError::Deserialization => String::from_str(
                "bridge reply has an unexpected shape",
            ),
            BridgeError::ParseFault(s) => String::from_str("bridge parse error: ").concat(
                s.as_str(),
            ),
            BridgeError::Disconnected => String::from_str("bridge disconnected"),
            BridgeError::ChannelClosed => String::from_str("bridge channel closed"),
        }
    }

    /// A copy of the error.
    pub fn duplicate(&self) -> (copy: BridgeError)
        ensures
            copy@ == self@,
    {
        match self {
            BridgeError::SpawnFailure(s) => BridgeError::SpawnFailure(s.clone()),
            BridgeError::BinaryNotFound => BridgeError::BinaryNotFound,
            BridgeError::ScriptNotFound => BridgeError::ScriptNotFound,
            BridgeError::WriteFailure(s) => BridgeError::WriteFailure(s.clone()),
            BridgeError::Timeout => BridgeError::Timeout,
            BridgeError::Rpc(s) => BridgeError::Rpc(s.clone()),
            BridgeError::Deserialization => BridgeError::Deserialization,
            BridgeError::ParseFault(s) => BridgeError::ParseFault(s.clone()),
            BridgeError::Disconnected => BridgeError::Disconnected,
            BridgeError::ChannelClosed => BridgeError::ChannelClosed,
        }
    }
}

} // verus!
