//! The failures that crossing the boundary can report.
use vstd::prelude::*;

verus! {

/// Why one bridge operation failed; each aborts only the operation that raised it.
#[derive(Clone, Copy, Debug, PartialEq, Eq, Structural)]
pub enum BridgeError {
    /// The module's bytes or text did not compile.
    Compile,
    /// The module declares an import that the import object cannot supply,
    /// or the engine refused to link it.
    Link,
    /// No function is exported under the requested name.
    NotFound,
    /// The engine trapped while running a call.
    Trap,
    /// A value of a kind outside the supported subset was asked to cross.
    UnsupportedValueKind,
    /// A host closure failed while the engine was calling it.
    HostCallbackFailed,
    /// A host closure returned results that do not match its declared kinds.
    SignatureMismatch,
}

/// The description that `message` gives of each failure.
pub open spec fn message_text(e: BridgeError) -> Seq<char> {
    match e {
        BridgeError::Compile => "could not compile the module"@,
        BridgeError::Link => "could not link the module against its imports"@,
        BridgeError::NotFound => "no function is exported under that name"@,
        BridgeError::Trap => "the call trapped"@,
        BridgeError::UnsupportedValueKind => "value kind not supported"@,
        BridgeError::HostCallbackFailed => "the host callback failed"@,
        BridgeError::SignatureMismatch => "results do not match the declared signature"@,
    }
}

impl BridgeError {
    /// A short description of the failure.
    pub fn message(&self) -> (r: String)
        ensures
            r@ == message_text(*self),
    {
        match self {
            BridgeError::Compile => String::from_str("could not compile the module"),
            BridgeError::Link => String::from_str("could not link the module against its imports"),
            BridgeError::NotFound => String::from_str("no function is exported under that name"),
            BridgeError::Trap => String::from_str("the call trapped"),
            BridgeError::UnsupportedValueKind => String::from_str("value kind not supported"),
            BridgeError::HostCallbackFailed => String::from_str("the host callback failed"),
            BridgeError::SignatureMismatch => String::from_str("results do not match the declared signature"),
        }
    }
}

} // verus!
