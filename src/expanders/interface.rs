//! The trait that the generated client implements.
use crate::expanders::method::{signature, signature_text};
use crate::input::{endpoint_models, EndpointDef, EndpointModel};
use vstd::prelude::*;

verus! {

/// The declarations of the trait's operations, one per endpoint, in order.
pub open spec fn trait_methods_text(eps: Seq<EndpointModel>, err: Seq<char>) -> Seq<char> {
    eps.map_values(|e: EndpointModel| signature_text(e, err) + ";\n"@).flatten()
}

/// Source of the trait named `name` with one operation per endpoint.
pub open spec fn trait_text(name: Seq<char>, eps: Seq<EndpointModel>, err: Seq<char>) -> Seq<
    char,
> {
    "pub trait "@ + name + " {\n"@ + trait_methods_text(eps, err) + "}\n"@
}

/// Emits the trait of a client, through which a substitute can stand in for it.
pub struct TraitExpander<'a> {
    pub endpoints: &'a [EndpointDef],
    pub trait_name: &'a str,
    pub error_name: &'a str,
}

impl<'a> TraitExpander<'a> {
    pub fn new(endpoints: &'a [EndpointDef], trait_name: &'a str, error_name: &'a str) -> (r: Self)
        ensures
            r.endpoints == endpoints,
            r.trait_name == trait_name,
            r.error_name == error_name,
    {
        Self { endpoints, trait_name, error_name }
    }

    pub fn expand(&self) -> (r: String)
        ensures
            r@ == trait_text(self.trait_name@, endpoint_models(self.endpoints@), self.error_name@),
    {
        let mut r = String::from_str("pub trait ");
        r.append(self.trait_name);
        r.append(" {\n");
        let methods = self.expand_trait_methods();
        r.append(methods.as_str());
        r.append("}\n");
        r
    }

    fn expand_trait_methods(&self) -> (r: String)
        ensures
            r@ == trait_methods_text(endpoint_models(self.endpoints@), self.error_name@),
    {
        let ghost err = self.error_name@;
        let ghost lines = endpoint_models(self.endpoints@).map_values(
            |e: EndpointModel| signature_text(e, err) + ";\n"@,
        );
        let mut r = String::new();
        let mut i: usize = 0;
        assert(lines.subrange(0, 0).flatten() =~= Seq::empty());
        while i < self.endpoints.len()
            invariant
                i <= self.endpoints@.len(),
                err == self.error_name@,
                lines == endpoint_models(self.endpoints@).map_values(
                    |e: EndpointModel| signature_text(e, err) + ";\n"@,
                ),
                r@ == lines.subrange(0, i as int).flatten(),
            decreases self.endpoints@.len() - i,
        {
            let ghost line_start = r@;
            let sig = signature(&self.endpoints[i], self.error_name);
            r.append(sig.as_str());
            r.append(";\n");
            proof {
                assert(lines[i as int] == signature_text(self.endpoints@[i as int]@, err) + ";\n"@);
                assert(r@ =~= line_start + lines[i as int]);
                lines.subrange(0, i as int).lemma_flatten_push(lines[i as int]);
                assert(lines.subrange(0, i as int + 1) =~= lines.subrange(0, i as int).push(
                    lines[i as int],
                ));
            }
            i = i + 1;
        }
        assert(lines.subrange(0, i as int) =~= lines);
        r
    }
}

} // verus!
