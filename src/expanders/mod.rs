//! Emission of the generated source text.
use crate::error::MacroError;
use crate::input::{endpoint_models, EndpointModel, HttpProviderInput};
use crate::text::{push_all, texts};
use vstd::prelude::*;

pub mod error;
pub mod interface;
pub mod method;

pub use error::{error_type_text, ErrorExpander};
pub use interface::{trait_text, TraitExpander};
pub use method::{method_text, MethodExpander};

verus! {

/// The name of the generated error type.
pub open spec fn error_name_of(name: Seq<char>) -> Seq<char> {
    name + "Error"@
}

/// The name of the generated trait.
pub open spec fn trait_name_of(name: Seq<char>) -> Seq<char> {
    name + "Trait"@
}

/// The client's operations, one per endpoint, in order.
pub open spec fn methods_text(eps: Seq<EndpointModel>, err: Seq<char>) -> Seq<char> {
    eps.map_values(|e: EndpointModel| method_text(e, err)).flatten()
}

/// Source of the client struct named `name`: base URL, transport client and
/// fixed timeout (5000 ms unless given), its constructor, and its
/// implementation of the trait.
pub open spec fn struct_impl_text(name: Seq<char>, eps: Seq<EndpointModel>) -> Seq<char> {
    "pub struct "@ + name
        + " {\nurl: reqwest::Url,\nclient: reqwest::Client,\ntimeout: std::time::Duration,\n}\n"@
        + "impl "@ + name
        + " {\npub fn new(url: reqwest::Url, timeout: Option<u64>) -> Self {\n"@
        + "let client = reqwest::Client::new();\n"@
        + "let timeout = std::time::Duration::from_millis(timeout.unwrap_or(5000));\n"@
        + "Self { url, client, timeout }\n}\n}\n"@ + "impl "@ + trait_name_of(name) + " for "@
        + name + " {\n"@ + methods_text(eps, error_name_of(name)) + "}\n"@
}

/// Everything generated for a client: error type, trait, struct.
pub open spec fn provider_text(name: Seq<char>, eps: Seq<EndpointModel>) -> Seq<char> {
    error_type_text(error_name_of(name)) + trait_text(trait_name_of(name), eps, error_name_of(name))
        + struct_impl_text(name, eps)
}

/// Emits a whole client from its description.
pub struct HttpProviderExpander {
    pub input: HttpProviderInput,
}

impl HttpProviderExpander {
    pub fn new(input: HttpProviderInput) -> (r: Self)
        ensures
            r.input == input,
    {
        Self { input }
    }

    /// The generated source, or the missing-endpoints failure, pointing at
    /// the client's name, when no endpoint is declared.
    pub fn expand(&self) -> (r: Result<String, MacroError>)
        ensures
            self.input.endpoints.len() == 0 ==> r == Err::<String, MacroError>(
                MacroError::NoEndpointsConfigured { offset: self.input.struct_name_offset },
            ),
            self.input.endpoints.len() > 0 ==> r is Ok && r->Ok_0@ == provider_text(
                self.input.struct_name@,
                endpoint_models(self.input.endpoints@),
            ),
    {
        if let Err(e) = self.validate() {
            return Err(e);
        }
        let mut error_name = self.input.struct_name.clone();
        error_name.append("Error");
        let mut r = ErrorExpander::new(error_name.as_str()).expand();
        let trait_def = self.expand_trait_def(error_name.as_str());
        r.append(trait_def.as_str());
        let methods = self.expand_methods(error_name.as_str());
        let struct_impl = self.expand_struct_impl(&methods);
        r.append(struct_impl.as_str());
        Ok(r)
    }

    fn expand_trait_def(&self, error_name: &str) -> (r: String)
        ensures
            r@ == trait_text(
                trait_name_of(self.input.struct_name@),
                endpoint_models(self.input.endpoints@),
                error_name@,
            ),
    {
        let trait_name = self.trait_name();
        TraitExpander::new(self.input.endpoints.as_slice(), trait_name.as_str(), error_name).expand()
    }

    fn expand_methods(&self, error_name: &str) -> (r: Vec<String>)
        ensures
            texts(r@) == endpoint_models(self.input.endpoints@).map_values(
                |e: EndpointModel| method_text(e, error_name@),
            ),
    {
        let mut r: Vec<String> = Vec::new();
        let mut i: usize = 0;
        while i < self.input.endpoints.len()
            invariant
                i <= self.input.endpoints@.len(),
                r@.len() == i,
                forall|k: int|
                    0 <= k < i ==> #[trigger] r@[k]@ == method_text(
                        self.input.endpoints@[k]@,
                        error_name@,
                    ),
            decreases self.input.endpoints@.len() - i,
        {
            let m = MethodExpander::new(&self.input.endpoints[i], error_name).expand();
            r.push(m);
            i = i + 1;
        }
        assert(texts(r@) =~= endpoint_models(self.input.endpoints@).map_values(
            |e: EndpointModel| method_text(e, error_name@),
        ));
        r
    }

    fn expand_struct_impl(&self, methods: &Vec<String>) -> (r: String)
        ensures
            r@ == "pub struct "@ + self.input.struct_name@
                + " {\nurl: reqwest::Url,\nclient: reqwest::Client,\ntimeout: std::time::Duration,\n}\n"@
                + "impl "@ + self.input.struct_name@
                + " {\npub fn new(url: reqwest::Url, timeout: Option<u64>) -> Self {\n"@
                + "let client = reqwest::Client::new();\n"@
                + "let timeout = std::time::Duration::from_millis(timeout.unwrap_or(5000));\n"@
                + "Self { url, client, timeout }\n}\n}\n"@ + "impl "@ + trait_name_of(
                self.input.struct_name@,
            ) + " for "@ + self.input.struct_name@ + " {\n"@ + texts(methods@).flatten() + "}\n"@,
    {
        let name = self.input.struct_name.as_str();
        let mut r = String::from_str("pub struct ");
        r.append(name);
        r.append(" {\nurl: reqwest::Url,\nclient: reqwest::Client,\ntimeout: std::time::Duration,\n}\n");
        r.append("impl ");
        r.append(name);
        r.append(" {\npub fn new(url: reqwest::Url, timeout: Option<u64>) -> Self {\n");
        r.append("let client = reqwest::Client::new();\n");
        r.append("let timeout = std::time::Duration::from_millis(timeout.unwrap_or(5000));\n");
        r.append("Self { url, client, timeout }\n}\n}\n");
        r.append("impl ");
        let trait_name = self.trait_name();
        r.append(trait_name.as_str());
        r.append(" for ");
        r.append(name);
        r.append(" {\n");
        push_all(&mut r, methods);
        r.append("}\n");
        r
    }

    /// The name of the generated trait.
    fn trait_name(&self) -> (r: String)
        ensures
            r@ == trait_name_of(self.input.struct_name@),
    {
        let mut r = self.input.struct_name.clone();
        r.append("Trait");
        r
    }

    /// Refuses a description without endpoints.
    pub fn validate(&self) -> (r: Result<(), MacroError>)
        ensures
            self.input.endpoints.len() == 0 ==> r == Err::<(), MacroError>(
                MacroError::NoEndpointsConfigured { offset: self.input.struct_name_offset },
            ),
            self.input.endpoints.len() > 0 ==> r is Ok,
    {
        if self.input.endpoints.len() == 0 {
            return Err(MacroError::NoEndpointsConfigured { offset: self.input.struct_name_offset });
        }
        Ok(())
    }
}

} // verus!
