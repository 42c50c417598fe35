//! Failures of generation, reported before any code is emitted.
use vstd::prelude::*;

verus! {

/// Why a client description was refused.
#[derive(Debug)]
pub enum MacroError {
    /// The description does not follow the grammar; `offset` is the character
    /// position where reading stopped.
    Syntax { message: String, offset: usize },
    /// The description declares no endpoint; `offset` is the position of the
    /// client's name.
    NoEndpointsConfigured { offset: usize },
}

/// The message of a missing-endpoints failure.
pub open spec fn no_endpoints_message() -> Seq<char> {
    "at least one endpoint must be defined"@
}

/// The human-readable message of an error.
pub open spec fn error_message(e: MacroError) -> Seq<char> {
    match e {
        MacroError::Syntax { message, .. } => message@,
        MacroError::NoEndpointsConfigured { .. } => no_endpoints_message(),
    }
}

/// The character position an error points at.
pub open spec fn error_offset(e: MacroError) -> usize {
    match e {
        MacroError::Syntax { offset, .. } => offset,
        MacroError::NoEndpointsConfigured { offset } => offset,
    }
}

/// Source text of a compiler error carrying `message`.
pub open spec fn compile_error_text(message: Seq<char>) -> Seq<char> {
    "::core::compile_error! { \""@ + message + "\" }"@
}

impl MacroError {
    /// The diagnostic's message.
    pub fn message(&self) -> (r: String)
        ensures
            r@ == error_message(*self),
    {
        match self {
            MacroError::Syntax { message, .. } => message.clone(),
            MacroError::NoEndpointsConfigured { .. } => String::from_str(
                "at least one endpoint must be defined",
            ),
        }
    }

    /// The character position the diagnostic points at.
    pub fn offset(&self) -> (r: usize)
        ensures
            r == error_offset(*self),
    {
        match self {
            MacroError::Syntax { offset, .. } => *offset,
            MacroError::NoEndpointsConfigured { offset } => *offset,
        }
    }

    /// Source text that makes the compiler report this error.
    pub fn to_compile_error(self) -> (r: String)
        ensures
            r@ == compile_error_text(error_message(self)),
    {
        let message = self.message();
        let mut r = String::from_str("::core::compile_error! { \"");
        r.append(message.as_str());
        r.append("\" }");
        r
    }
}

} // verus!
