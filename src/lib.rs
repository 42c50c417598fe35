//! Generator of HTTP client source code from a compact endpoint description.
//!
//! The description is read by [`input::HttpProviderInput::parse`], checked, and
//! turned into Rust source text by [`expanders::HttpProviderExpander`]: an error
//! type, a trait with one asynchronous operation per endpoint, and a client
//! struct implementing it.
use vstd::prelude::*;

pub mod error;
pub mod expanders;
pub mod input;
pub mod template;
pub mod text;

use crate::error::{compile_error_text, error_message, error_offset, no_endpoints_message, MacroError};
use crate::expanders::{provider_text, HttpProviderExpander};
use crate::input::{issue, read_input, HttpProviderInput, SyntaxIssue};

verus! {

/// What generation yields for a description: the generated source, or the
/// failure that stops it.
pub open spec fn generation(s: Seq<char>) -> Result<Seq<char>, SyntaxIssue> {
    match read_input(s) {
        Err(iss) => Err(iss),
        Ok(m) => if m.endpoints.len() == 0 {
            Err(issue(no_endpoints_message(), m.struct_name_offset))
        } else {
            Ok(provider_text(m.struct_name, m.endpoints))
        },
    }
}

/// Reads a description and generates the client's source.
pub fn generate(text: &str) -> (r: Result<String, MacroError>)
    ensures
        match generation(text@) {
            Ok(t) => r is Ok && r->Ok_0@ == t,
            Err(iss) => r is Err && error_message(r->Err_0) == iss.message && error_offset(
                r->Err_0,
            ) == iss.offset,
        },
{
    let input = match HttpProviderInput::parse(text) {
        Ok(input) => input,
        Err(e) => return Err(e),
    };
    HttpProviderExpander::new(input).expand()
}

/// The source generated for a description, or, where generation fails, a
/// compiler error carrying the failure's message.
pub fn http_provider(text: &str) -> (r: String)
    ensures
        r@ == match generation(text@) {
            Ok(t) => t,
            Err(iss) => compile_error_text(iss.message),
        },
{
    match generate(text) {
        Ok(tokens) => tokens,
        Err(err) => err.to_compile_error(),
    }
}

/// A description that declares no endpoint generates nothing: it fails with
/// the message "at least one endpoint must be defined", pointing at the
/// client's name.
pub proof fn lemma_no_endpoints_fails(s: Seq<char>)
    requires
        read_input(s) is Ok,
        read_input(s)->Ok_0.endpoints.len() == 0,
    ensures
        generation(s) is Err,
        generation(s)->Err_0.message == "at least one endpoint must be defined"@,
        generation(s)->Err_0.offset == read_input(s)->Ok_0.struct_name_offset,
{
}

} // verus!
