//! The error type of a generated client.
use vstd::prelude::*;

verus! {

/// Source of the client's error type named `err`: its four variants, a
/// message for each (`Failed to construct URL: ..`, `Request failed: ..`,
/// `HTTP <status> <reason>`, `Failed to deserialize: ..`), the transport
/// error as the source of `Request` alone, and the conversion from the
/// transport error.
pub open spec fn error_type_text(err: Seq<char>) -> Seq<char> {
    "#[derive(Debug)]\npub enum "@ + err + " {\n"@
        + "UrlConstruction(String),\nRequest(reqwest::Error),\n"@
        + "Http { status: u16, reason: String },\nDeserialization(String),\n}\n"@
        + "impl std::fmt::Display for "@ + err + " {\n"@
        + "fn fmt(&self, f: &mut std::fmt::Formatter<'_>) -> std::fmt::Result {\nmatch self {\n"@
        + "Self::UrlConstruction(msg) => { f.write_str(\"Failed to construct URL: \")?; f.write_str(msg) }\n"@
        + "Self::Request(err) => { f.write_str(\"Request failed: \")?; std::fmt::Display::fmt(err, f) }\n"@
        + "Self::Http { status, reason } => { f.write_str(\"HTTP \")?; std::fmt::Display::fmt(status, f)?; f.write_str(\" \")?; f.write_str(reason) }\n"@
        + "Self::Deserialization(msg) => { f.write_str(\"Failed to deserialize: \")?; f.write_str(msg) }\n"@
        + "}\n}\n}\n"@
        + "impl std::error::Error for "@ + err + " {\n"@
        + "fn source(&self) -> Option<&(dyn std::error::Error + 'static)> {\n"@
        + "match self {\nSelf::Request(err) => Some(err),\n_ => None,\n}\n}\n}\n"@
        + "impl From<reqwest::Error> for "@ + err + " {\n"@
        + "fn from(err: reqwest::Error) -> Self {\nSelf::Request(err)\n}\n}\n"@
}

/// Emits the error type of a client.
pub struct ErrorExpander<'a> {
    pub error_name: &'a str,
}

impl<'a> ErrorExpander<'a> {
    pub fn new(error_name: &'a str) -> (r: Self)
        ensures
            r.error_name == error_name,
    {
        Self { error_name }
    }

    pub fn expand(&self) -> (r: String)
        ensures
            r@ == error_type_text(self.error_name@),
    {
        let err = self.error_name;
        let mut r = String::from_str("#[derive(Debug)]\npub enum ");
        r.append(err);
        r.append(" {\n");
        r.append("UrlConstruction(String),\nRequest(reqwest::Error),\n");
        r.append("Http { status: u16, reason: String },\nDeserialization(String),\n}\n");
        r.append("impl std::fmt::Display for ");
        r.append(err);
        r.append(" {\n");
        r.append("fn fmt(&self, f: &mut std::fmt::Formatter<'_>) -> std::fmt::Result {\nmatch self {\n");
        r.append("Self::UrlConstruction(msg) => { f.write_str(\"Failed to construct URL: \")?; f.write_str(msg) }\n");
        r.append("Self::Request(err) => { f.write_str(\"Request failed: \")?; std::fmt::Display::fmt(err, f) }\n");
        r.append("Self::Http { status, reason } => { f.write_str(\"HTTP \")?; std::fmt::Display::fmt(status, f)?; f.write_str(\" \")?; f.write_str(reason) }\n");
        r.append("Self::Deserialization(msg) => { f.write_str(\"Failed to deserialize: \")?; f.write_str(msg) }\n");
        r.append("}\n}\n}\n");
        r.append("impl std::error::Error for ");
        r.append(err);
        r.append(" {\n");
        r.append("fn source(&self) -> Option<&(dyn std::error::Error + 'static)> {\n");
        r.append("match self {\nSelf::Request(err) => Some(err),\n_ => None,\n}\n}\n}\n");
        r.append("impl From<reqwest::Error> for ");
        r.append(err);
        r.append(" {\n");
        r.append("fn from(err: reqwest::Error) -> Self {\nSelf::Request(err)\n}\n}\n");
        r
    }
}

} // verus!
