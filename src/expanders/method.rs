//! The pieces of one generated operation: its name, its parameters, and the
//! statements of its body.
use crate::input::{method_word, EndpointDef, EndpointModel, HttpMethod};
use crate::template::{
    placeholder_names, placeholder_names_of, strip_placeholders, without_placeholders,
};
use crate::text::{chars_of, join_with, push_joined, slice_chars, string_of, texts};
use heck::ToSnakeCase;
use vstd::prelude::*;

verus! {

/// The snake-case form of a text, as `heck` computes it.
pub uninterp spec fn snake_case_of(s: Seq<char>) -> Seq<char>;

/// Converts a text to snake case.
/// Relies on `heck::ToSnakeCase::to_snake_case` for `str`, whose result
/// depends on the text alone.
#[verifier::external_body]
fn to_snake_case(s: &str) -> (r: String)
    ensures
        r@ == snake_case_of(s@),
{
    s.to_snake_case()
}

/// `p` without its leading slashes.
pub open spec fn trim_start_slashes(p: Seq<char>) -> Seq<char>
    decreases p.len(),
{
    if p.len() > 0 && p[0] == '/' {
        trim_start_slashes(p.drop_first())
    } else {
        p
    }
}

/// `p` without its trailing slashes.
pub open spec fn trim_end_slashes(p: Seq<char>) -> Seq<char>
    decreases p.len(),
{
    if p.len() > 0 && p.last() == '/' {
        trim_end_slashes(p.drop_last())
    } else {
        p
    }
}

/// `p` with every run of consecutive slashes made a single `/`.
pub open spec fn collapse_double_slashes(p: Seq<char>) -> Seq<char>
    decreases p.len(),
{
    if p.len() == 0 {
        p
    } else if p.len() >= 2 && p[0] == '/' && p[1] == '/' {
        collapse_double_slashes(p.drop_first())
    } else {
        seq![p[0]] + collapse_double_slashes(p.drop_first())
    }
}

/// Collapsing keeps the first character.
pub proof fn lemma_collapse_keeps_first(p: Seq<char>)
    requires
        p.len() > 0,
    ensures
        collapse_double_slashes(p).len() > 0,
        collapse_double_slashes(p)[0] == p[0],
    decreases p.len(),
{
    if p.len() >= 2 && p[0] == '/' && p[1] == '/' {
        lemma_collapse_keeps_first(p.drop_first());
    }
}

/// After collapsing, no slash follows another slash.
pub proof fn lemma_collapsed_has_no_double_slash(p: Seq<char>)
    ensures
        forall|k: int|
            0 <= k < collapse_double_slashes(p).len() - 1 ==> !(#[trigger] collapse_double_slashes(
                p,
            )[k] == '/' && collapse_double_slashes(p)[k + 1] == '/'),
    decreases p.len(),
{
    if p.len() > 0 {
        let rest = p.drop_first();
        lemma_collapsed_has_no_double_slash(rest);
        if !(p.len() >= 2 && p[0] == '/' && p[1] == '/') {
            let c = collapse_double_slashes(p);
            let cr = collapse_double_slashes(rest);
            assert(c =~= seq![p[0]] + cr);
            if rest.len() > 0 {
                lemma_collapse_keeps_first(rest);
            }
            assert forall|k: int| 0 <= k < c.len() - 1 implies !(#[trigger] c[k] == '/' && c[k
                + 1] == '/') by {
                if k > 0 {
                    assert(c[k] == cr[k - 1] && c[k + 1] == cr[k]);
                } else {
                    assert(c[1] == cr[0] && cr[0] == rest[0]);
                }
            }
        } else {
            assert(collapse_double_slashes(p) == collapse_double_slashes(rest));
        }
    }
}

/// No slash follows another slash in `p`.
pub open spec fn no_double_slash(p: Seq<char>) -> bool {
    forall|k: int| 0 <= k < p.len() - 1 ==> !(#[trigger] p[k] == '/' && p[k + 1] == '/')
}

/// `p` is non-empty segments joined by single slashes: no slash at either
/// end and none after another.
pub open spec fn segments_nonempty(p: Seq<char>) -> bool {
    &&& no_double_slash(p)
    &&& p.len() > 0 ==> p[0] != '/' && p.last() != '/'
}

proof fn lemma_trim_start_keeps_single_slashes(p: Seq<char>)
    requires
        no_double_slash(p),
    ensures
        no_double_slash(trim_start_slashes(p)),
        trim_start_slashes(p).len() > 0 ==> trim_start_slashes(p)[0] != '/',
    decreases p.len(),
{
    if p.len() > 0 && p[0] == '/' {
        let q = p.drop_first();
        assert forall|k: int| 0 <= k < q.len() - 1 implies !(#[trigger] q[k] == '/' && q[k + 1]
            == '/') by {
            assert(q[k] == p[k + 1] && q[k + 1] == p[k + 2]);
        }
        lemma_trim_start_keeps_single_slashes(q);
    }
}

proof fn lemma_trim_end_keeps_single_slashes(p: Seq<char>)
    requires
        no_double_slash(p),
        p.len() > 0 ==> p[0] != '/',
    ensures
        segments_nonempty(trim_end_slashes(p)),
    decreases p.len(),
{
    if p.len() > 0 && p.last() == '/' {
        let q = p.drop_last();
        assert forall|k: int| 0 <= k < q.len() - 1 implies !(#[trigger] q[k] == '/' && q[k + 1]
            == '/') by {
            assert(q[k] == p[k] && q[k + 1] == p[k + 1]);
        }
        if q.len() > 0 {
            assert(q[0] == p[0]);
        }
        lemma_trim_end_keeps_single_slashes(q);
    }
}

/// The fixed part of a path, once its slash runs are collapsed and its
/// outer slashes trimmed, is its non-empty segments joined by single
/// slashes; the base of a derived name is these segments joined by `_`.
pub proof fn lemma_base_segments_nonempty(p: Seq<char>)
    ensures
        segments_nonempty(trim_end_slashes(trim_start_slashes(collapse_double_slashes(p)))),
{
    lemma_collapsed_has_no_double_slash(p);
    let c = collapse_double_slashes(p);
    assert(no_double_slash(c));
    lemma_trim_start_keeps_single_slashes(c);
    lemma_trim_end_keeps_single_slashes(trim_start_slashes(c));
}

/// `p` with every slash replaced by an underscore.
pub open spec fn slashes_to_underscores(p: Seq<char>) -> Seq<char> {
    p.map_values(|c: char| if c == '/' { '_' } else { c })
}

/// The part of a derived name that comes from the path (leading slashes
/// already removed): without path parameters the path with `/` made `_`;
/// with them the path's fixed words followed by `by_<name>_and_<name>...`.
pub open spec fn path_words(p: Seq<char>, with_params: bool) -> Seq<char> {
    if !with_params {
        slashes_to_underscores(p)
    } else {
        let names = placeholder_names(p);
        let base = slashes_to_underscores(
            trim_end_slashes(trim_start_slashes(collapse_double_slashes(strip_placeholders(p)))),
        );
        if names.len() == 0 {
            base
        } else {
            let params = "by_"@ + join_with(names, "_and_"@);
            if base.len() > 0 {
                base + "_"@ + params
            } else {
                params
            }
        }
    }
}

/// The name of the operation generated for an endpoint.
pub open spec fn derived_name(e: EndpointModel) -> Seq<char> {
    match e.fn_name {
        Some(name) => name,
        None => match e.path {
            None => method_word(e.method),
            Some(p) => snake_case_of(
                method_word(e.method) + "_"@ + path_words(
                    trim_start_slashes(p),
                    e.path_params is Some,
                ),
            ),
        },
    }
}

/// An explicit name is the operation's name exactly, whatever the path and
/// the method.
pub proof fn lemma_explicit_name_wins(e: EndpointModel, path: Option<Seq<char>>, method: HttpMethod)
    requires
        e.fn_name is Some,
    ensures
        derived_name(e) == e.fn_name->0,
        derived_name(EndpointModel { path, method, ..e }) == e.fn_name->0,
{
}

/// Deriving a name depends on the endpoint alone: identical endpoints get
/// identical names.
pub proof fn lemma_name_deterministic(a: EndpointModel, b: EndpointModel)
    requires
        a == b,
    ensures
        derived_name(a) == derived_name(b),
{
}

/// Without an explicit name and without a path, the name is the method's
/// lower-case word.
pub proof fn lemma_no_path_name_is_method(e: EndpointModel)
    requires
        e.fn_name is None,
        e.path is None,
    ensures
        derived_name(e) == method_word(e.method),
{
}

fn trim_start_slashes_of(v: &Vec<char>) -> (r: Vec<char>)
    ensures
        r@ == trim_start_slashes(v@),
{
    let mut i: usize = 0;
    assert(v@.subrange(0, v.len() as int) =~= v@);
    while i < v.len() && v[i] == '/'
        invariant
            i <= v.len(),
            trim_start_slashes(v@) == trim_start_slashes(v@.subrange(i as int, v.len() as int)),
        decreases v.len() - i,
    {
        assert(v@.subrange(i as int, v.len() as int).drop_first() =~= v@.subrange(
            i as int + 1,
            v.len() as int,
        ));
        i = i + 1;
    }
    slice_chars(v, i, v.len())
}

fn trim_end_slashes_of(v: &Vec<char>) -> (r: Vec<char>)
    ensures
        r@ == trim_end_slashes(v@),
{
    let mut j: usize = v.len();
    assert(v@.subrange(0, j as int) =~= v@);
    while j > 0 && v[j - 1] == '/'
        invariant
            j <= v.len(),
            trim_end_slashes(v@) == trim_end_slashes(v@.subrange(0, j as int)),
        decreases j,
    {
        assert(v@.subrange(0, j as int).drop_last() =~= v@.subrange(0, j as int - 1));
        j = j - 1;
    }
    slice_chars(v, 0, j)
}

fn collapse_double_slashes_of(v: &Vec<char>) -> (r: Vec<char>)
    ensures
        r@ == collapse_double_slashes(v@),
{
    let mut out: Vec<char> = Vec::new();
    let mut i: usize = 0;
    assert(v@.subrange(0, v.len() as int) =~= v@);
    while i < v.len()
        invariant
            i <= v.len(),
            out@ + collapse_double_slashes(v@.subrange(i as int, v.len() as int))
                == collapse_double_slashes(v@),
        decreases v.len() - i,
    {
        let ghost rest = v@.subrange(i as int, v.len() as int);
        assert(rest.drop_first() =~= v@.subrange(i as int + 1, v.len() as int));
        if i + 1 < v.len() && v[i] == '/' && v[i + 1] == '/' {
            i = i + 1;
        } else {
            let ghost tail = collapse_double_slashes(v@.subrange(i as int + 1, v.len() as int));
            out.push(v[i]);
            assert(out@ + tail =~= out@.drop_last() + (seq![rest[0]] + tail));
            i = i + 1;
        }
    }
    assert(out@ + collapse_double_slashes(v@.subrange(i as int, v.len() as int)) =~= out@);
    out
}

fn slashes_to_underscores_of(v: &Vec<char>) -> (r: Vec<char>)
    ensures
        r@ == slashes_to_underscores(v@),
{
    let mut out: Vec<char> = Vec::new();
    let mut i: usize = 0;
    while i < v.len()
        invariant
            i <= v.len(),
            out@ == slashes_to_underscores(v@.subrange(0, i as int)),
        decreases v.len() - i,
    {
        let c = if v[i] == '/' {
            '_'
        } else {
            v[i]
        };
        out.push(c);
        i = i + 1;
        assert(out@ =~= slashes_to_underscores(v@.subrange(0, i as int)));
    }
    assert(v@.subrange(0, v.len() as int) =~= v@);
    out
}

/// Derives the name of a generated operation.
pub struct FnNameExpander<'a> {
    pub def: &'a EndpointDef,
}

impl<'a> FnNameExpander<'a> {
    pub fn new(def: &'a EndpointDef) -> (r: Self)
        ensures
            r.def == def,
    {
        Self { def }
    }

    /// The operation's name: the explicit one if given, otherwise one derived
    /// from the method, the path and whether path parameters are declared.
    pub fn expand(&self) -> (r: String)
        ensures
            r@ == derived_name(self.def@),
    {
        if let Some(name) = &self.def.fn_name {
            return name.clone();
        }
        let method_str = self.def.method.as_str();
        match &self.def.path {
            None => String::from_str(method_str),
            Some(path) => {
                let trimmed = trim_start_slashes_of(&chars_of(path.as_str()));
                let words = self.expand_fn_name_with_path(&trimmed);
                let mut name = String::from_str(method_str);
                name.append("_");
                name.append(words.as_str());
                to_snake_case(name.as_str())
            },
        }
    }

    /// The part of the name that comes from a path without leading slashes.
    pub fn expand_fn_name_with_path(&self, path: &Vec<char>) -> (r: String)
        ensures
            r@ == path_words(path@, self.def.path_params is Some),
    {
        if self.def.path_params.is_none() {
            return string_of(&slashes_to_underscores_of(path));
        }
        let path_str = string_of(path);
        let names = placeholder_names_of(path_str.as_str());
        let stripped = chars_of(without_placeholders(path_str.as_str()).as_str());
        let collapsed = collapse_double_slashes_of(&stripped);
        let trimmed = trim_end_slashes_of(&trim_start_slashes_of(&collapsed));
        let base = slashes_to_underscores_of(&trimmed);
        if names.len() == 0 {
            return string_of(&base);
        }
        let mut params = String::from_str("by_");
        push_joined(&mut params, &names, "_and_");
        if base.len() > 0 {
            let mut r = string_of(&base);
            r.append("_");
            r.append(params.as_str());
            r
        } else {
            params
        }
    }
}

/// The formal parameter written for an optional part, if it is declared.
pub open spec fn param_if(t: Option<Seq<char>>, head: Seq<char>) -> Seq<Seq<char>> {
    match t {
        Some(t) => seq![head + t],
        None => Seq::empty(),
    }
}

/// The formal parameters of an operation after `&self`, in their fixed
/// order: path parameters, body, query parameters, headers.
pub open spec fn param_list(e: EndpointModel) -> Seq<Seq<char>> {
    param_if(e.path_params, "path_params: &"@) + param_if(e.req, "body: &"@) + param_if(
        e.query_params,
        "query_params: &"@,
    ) + param_if(e.headers, "headers: "@)
}

/// The result type of an operation: the declared response type or `()`.
pub open spec fn result_type(e: EndpointModel) -> Seq<char> {
    match e.res {
        Some(t) => t,
        None => "()"@,
    }
}

/// `&self` followed by the operation's parameters.
pub open spec fn receiver_and_params(ps: Seq<Seq<char>>) -> Seq<char> {
    if ps.len() == 0 {
        "&self"@
    } else {
        "&self, "@ + join_with(ps, ", "@)
    }
}

/// The signature of an operation, shared by the trait and the client.
pub open spec fn signature_text(e: EndpointModel, err: Seq<char>) -> Seq<char> {
    "async fn "@ + derived_name(e) + "("@ + receiver_and_params(param_list(e))
        + ") -> Result<"@ + result_type(e) + ", "@ + err + ">"@
}

fn push_param_if(params: &mut Vec<String>, t: &Option<String>, head: &str)
    ensures
        texts(final(params)@) == texts(old(params)@) + param_if(t.deep_view(), head@),
{
    let ghost before = params@;
    if let Some(t) = t {
        let mut p = String::from_str(head);
        p.append(t.as_str());
        params.push(p);
        assert(texts(params@) =~= texts(before) + param_if(Some(t@), head@));
    } else {
        assert(texts(params@) =~= texts(before) + param_if(None, head@));
    }
}

/// Composes the parameter list of an operation.
pub struct ParamsExpander<'a> {
    pub def: &'a EndpointDef,
}

impl<'a> ParamsExpander<'a> {
    pub fn new(def: &'a EndpointDef) -> (r: Self)
        ensures
            r.def == def,
    {
        Self { def }
    }

    /// Each declared part's parameter, in the fixed order.
    pub fn expand(&self) -> (r: Vec<String>)
        ensures
            texts(r@) == param_list(self.def@),
    {
        let mut params: Vec<String> = Vec::new();
        assert(texts(params@) =~= Seq::empty());
        push_param_if(&mut params, &self.def.path_params, "path_params: &");
        push_param_if(&mut params, &self.def.req, "body: &");
        push_param_if(&mut params, &self.def.query_params, "query_params: &");
        push_param_if(&mut params, &self.def.headers, "headers: ");
        assert(texts(params@) =~= param_list(self.def@));
        params
    }
}

/// The signature of an endpoint's operation.
pub fn signature(def: &EndpointDef, error_name: &str) -> (r: String)
    ensures
        r@ == signature_text(def@, error_name@),
{
    let name = FnNameExpander::new(def).expand();
    let params = ParamsExpander::new(def).expand();
    let mut r = String::from_str("async fn ");
    r.append(name.as_str());
    r.append("(");
    if params.len() == 0 {
        r.append("&self");
    } else {
        r.append("&self, ");
        push_joined(&mut r, &params, ", ");
    }
    r.append(") -> Result<");
    match &def.res {
        Some(t) => r.append(t.as_str()),
        None => r.append("()"),
    }
    r.append(", ");
    r.append(error_name);
    r.append(">");
    r
}

/// The mapping of a URL join failure into the error type.
pub open spec fn join_error_text(err: Seq<char>) -> Seq<char> {
    ".map_err(|e| "@ + err + "::UrlConstruction(e.to_string()))?;\n"@
}

/// The statement that fills one placeholder from the path-parameter value.
pub open spec fn replace_line(name: Seq<char>) -> Seq<char> {
    "path = path.replace(\"{"@ + name + "}\", &path_params."@ + name + ".to_string());\n"@
}

/// The statements that resolve the request URL.
pub open spec fn url_text(e: EndpointModel, err: Seq<char>) -> Seq<char> {
    match e.path {
        None => "let url = self.url.clone();\n"@,
        Some(p) => if e.path_params is Some {
            "let mut path = \""@ + p + "\".to_string();\n"@ + placeholder_names(p).map_values(
                |n: Seq<char>| replace_line(n),
            ).flatten() + "let url = self.url.join(&path)"@ + join_error_text(err)
        } else {
            "let url = self.url.join(\""@ + p + "\")"@ + join_error_text(err)
        },
    }
}

/// Emits the resolution of the request URL.
pub struct UrlExpander<'a> {
    pub def: &'a EndpointDef,
    pub error_name: &'a str,
}

impl<'a> UrlExpander<'a> {
    pub fn new(def: &'a EndpointDef, error_name: &'a str) -> (r: Self)
        ensures
            r.def == def,
            r.error_name == error_name,
    {
        Self { def, error_name }
    }

    /// The base URL unchanged without a path; otherwise the path, with its
    /// placeholders filled from the path-parameter value's fields when path
    /// parameters are declared, joined onto the base URL.
    pub fn expand(&self) -> (r: String)
        ensures
            r@ == url_text(self.def@, self.error_name@),
    {
        match &self.def.path {
            None => String::from_str("let url = self.url.clone();\n"),
            Some(path) => if self.def.path_params.is_some() {
                self.expand_with_path_params(path)
            } else {
                self.expand_without_path_params(path)
            },
        }
    }

    fn push_join_error(&self, r: &mut String)
        ensures
            final(r)@ == old(r)@ + join_error_text(self.error_name@),
    {
        r.append(".map_err(|e| ");
        r.append(self.error_name);
        r.append("::UrlConstruction(e.to_string()))?;\n");
    }

    fn expand_with_path_params(&self, path: &String) -> (r: String)
        ensures
            r@ == "let mut path = \""@ + path@ + "\".to_string();\n"@ + placeholder_names(
                path@,
            ).map_values(|n: Seq<char>| replace_line(n)).flatten() + "let url = self.url.join(&path)"@
                + join_error_text(self.error_name@),
    {
        let names = placeholder_names_of(path.as_str());
        let ghost lines = placeholder_names(path@).map_values(|n: Seq<char>| replace_line(n));
        let mut r = String::from_str("let mut path = \"");
        r.append(path.as_str());
        r.append("\".to_string();\n");
        let ghost head = r@;
        let mut i: usize = 0;
        while i < names.len()
            invariant
                i <= names.len(),
                texts(names@) == placeholder_names(path@),
                lines == placeholder_names(path@).map_values(|n: Seq<char>| replace_line(n)),
                r@ == head + lines.subrange(0, i as int).flatten(),
            decreases names.len() - i,
        {
            assert(names@[i as int]@ == texts(names@)[i as int]);
            r.append("path = path.replace(\"{");
            r.append(names[i].as_str());
            r.append("}\", &path_params.");
            r.append(names[i].as_str());
            r.append(".to_string());\n");
            proof {
                lines.subrange(0, i as int).lemma_flatten_push(lines[i as int]);
                assert(lines.subrange(0, i as int + 1) =~= lines.subrange(0, i as int).push(
                    lines[i as int],
                ));
            }
            i = i + 1;
        }
        assert(lines.subrange(0, i as int) =~= lines);
        r.append("let url = self.url.join(&path)");
        self.push_join_error(&mut r);
        r
    }

    fn expand_without_path_params(&self, path: &String) -> (r: String)
        ensures
            r@ == "let url = self.url.join(\""@ + path@ + "\")"@ + join_error_text(
                self.error_name@,
            ),
    {
        let mut r = String::from_str("let url = self.url.join(\"");
        r.append(path.as_str());
        r.append("\")");
        self.push_join_error(&mut r);
        r
    }
}

/// A statement if the part it serves is declared.
pub open spec fn line_if(t: Option<Seq<char>>, line: Seq<char>) -> Seq<char> {
    if t is Some {
        line
    } else {
        Seq::empty()
    }
}

/// The statements that build the request: the verb with the client's
/// timeout, then body, query parameters and headers, each when declared.
pub open spec fn request_text(e: EndpointModel) -> Seq<char> {
    "let mut request = self.client."@ + method_word(e.method) + "(url)"@ + ".timeout(self.timeout);\n"@
        + line_if(e.req, "request = request.json(body);\n"@) + line_if(
        e.query_params,
        "request = request.query(query_params);\n"@,
    ) + line_if(e.headers, "request = request.headers(headers);\n"@)
}

/// Emits the building of the request.
pub struct RequestExpander<'a> {
    pub def: &'a EndpointDef,
}

impl<'a> RequestExpander<'a> {
    pub fn new(def: &'a EndpointDef) -> (r: Self)
        ensures
            r.def == def,
    {
        Self { def }
    }

    pub fn expand(&self) -> (r: String)
        ensures
            r@ == request_text(self.def@),
    {
        let mut r = self.expand_method_call();
        r.append(".timeout(self.timeout);\n");
        let modifications = self.expand_modifications();
        r.append(modifications.as_str());
        r
    }

    /// The call that starts a request with the endpoint's verb.
    fn expand_method_call(&self) -> (r: String)
        ensures
            r@ == "let mut request = self.client."@ + method_word(self.def.method) + "(url)"@,
    {
        let mut r = String::from_str("let mut request = self.client.");
        match self.def.method {
            HttpMethod::GET => r.append("get"),
            HttpMethod::POST => r.append("post"),
            HttpMethod::PUT => r.append("put"),
            HttpMethod::DELETE => r.append("delete"),
        }
        r.append("(url)");
        r
    }

    /// The attachments of body, query parameters and headers, in that order.
    fn expand_modifications(&self) -> (r: String)
        ensures
            r@ == line_if(self.def@.req, "request = request.json(body);\n"@) + line_if(
                self.def@.query_params,
                "request = request.query(query_params);\n"@,
            ) + line_if(self.def@.headers, "request = request.headers(headers);\n"@),
    {
        let mut r = String::new();
        if self.def.req.is_some() {
            r.append("request = request.json(body);\n");
        }
        assert(r@ =~= line_if(self.def@.req, "request = request.json(body);\n"@));
        let ghost head = r@;
        if self.def.query_params.is_some() {
            r.append("request = request.query(query_params);\n");
        }
        assert(r@ =~= head + line_if(
            self.def@.query_params,
            "request = request.query(query_params);\n"@,
        ));
        let ghost head = r@;
        if self.def.headers.is_some() {
            r.append("request = request.headers(headers);\n");
        }
        assert(r@ =~= head + line_if(self.def@.headers, "request = request.headers(headers);\n"@));
        r
    }
}

/// The statement that sends the request; a transport failure becomes the
/// `Request` error.
pub open spec fn send_text(err: Seq<char>) -> Seq<char> {
    "let response = request.send().await.map_err("@ + err + "::from)?;\n"@
}

/// The statements that turn a status outside the success range into the
/// `Http` error with the status and its reason phrase, or `Unknown`, before
/// anything reads the body.
pub open spec fn status_check_text(err: Seq<char>) -> Seq<char> {
    "let status = response.status();\nif !status.is_success() {\n"@
        + "let reason = status.canonical_reason().unwrap_or(\"Unknown\").to_string();\n"@
        + "return Err("@ + err + "::Http { status: status.as_u16(), reason });\n}\n"@
}

/// The result of a successful response: the body decoded as the response
/// type, a failure becoming `Deserialization` with the decoder's message; or,
/// with no response type, `()` without reading the body.
pub open spec fn body_text(res: Option<Seq<char>>, err: Seq<char>) -> Seq<char> {
    match res {
        Some(t) => "response.json::<"@ + t + ">().await.map_err(|e| "@ + err
            + "::Deserialization(e.to_string()))\n"@,
        None => "Ok(())\n"@,
    }
}

/// The statements that send the request and interpret the response.
pub open spec fn response_text(res: Option<Seq<char>>, err: Seq<char>) -> Seq<char> {
    send_text(err) + status_check_text(err) + body_text(res, err)
}

/// Without a response type, what follows the status check is `Ok(())`
/// alone: a successful response gives the unit result and its body is never
/// read or decoded.
pub proof fn lemma_unit_result_skips_body(err: Seq<char>)
    ensures
        response_text(None, err) == send_text(err) + status_check_text(err) + "Ok(())\n"@,
{
}

/// The status check comes before any use of the body and is the same
/// whatever the response type: a status outside the success range gives the
/// `Http` error with that status and its reason, whatever the body holds.
pub proof fn lemma_status_error_ignores_body(a: Option<Seq<char>>, b: Option<Seq<char>>, err: Seq<char>)
    ensures
        response_text(a, err) == send_text(err) + status_check_text(err) + body_text(a, err),
        response_text(a, err).subrange(0, (send_text(err) + status_check_text(err)).len() as int)
            == response_text(b, err).subrange(0, (send_text(err) + status_check_text(err)).len() as int),
{
    let head = send_text(err) + status_check_text(err);
    assert(response_text(a, err).subrange(0, head.len() as int) =~= head);
    assert(response_text(b, err).subrange(0, head.len() as int) =~= head);
}

/// With a response type, a successful response's body is decoded as that
/// type and a decoding failure gives `Deserialization` with the decoder's
/// message.
pub proof fn lemma_decode_failure_is_deserialization(t: Seq<char>, err: Seq<char>)
    ensures
        response_text(Some(t), err) == send_text(err) + status_check_text(err) + "response.json::<"@
            + t + ">().await.map_err(|e| "@ + err + "::Deserialization(e.to_string()))\n"@,
{
}

/// Emits the sending of the request and the handling of its response.
pub struct ResponseExpander<'a> {
    pub res: Option<&'a String>,
    pub error_name: &'a str,
}

impl<'a> ResponseExpander<'a> {
    pub fn new(res: Option<&'a String>, error_name: &'a str) -> (r: Self)
        ensures
            r.res == res,
            r.error_name == error_name,
    {
        Self { res, error_name }
    }

    pub fn expand(&self) -> (r: String)
        ensures
            r@ == response_text(
                match self.res {
                    Some(t) => Some(t@),
                    None => None,
                },
                self.error_name@,
            ),
    {
        let mut r = String::from_str("let response = request.send().await.map_err(");
        r.append(self.error_name);
        r.append("::from)?;\n");
        let ghost sent = r@;
        assert(sent =~= send_text(self.error_name@));
        let mut check = String::from_str("let status = response.status();\nif !status.is_success() {\n");
        check.append("let reason = status.canonical_reason().unwrap_or(\"Unknown\").to_string();\n");
        check.append("return Err(");
        check.append(self.error_name);
        check.append("::Http { status: status.as_u16(), reason });\n}\n");
        r.append(check.as_str());
        let mut body = String::new();
        match self.res {
            Some(t) => {
                body.append("response.json::<");
                body.append(t.as_str());
                body.append(">().await.map_err(|e| ");
                body.append(self.error_name);
                body.append("::Deserialization(e.to_string()))\n");
            },
            None => {
                body.append("Ok(())\n");
            },
        }
        r.append(body.as_str());
        r
    }
}

/// The whole operation of an endpoint in the client: its signature and a
/// body that resolves the URL, builds the request and interprets the response.
pub open spec fn method_text(e: EndpointModel, err: Seq<char>) -> Seq<char> {
    signature_text(e, err) + " {\n"@ + url_text(e, err) + request_text(e) + response_text(
        e.res,
        err,
    ) + "}\n"@
}

/// Emits one operation of the client.
pub struct MethodExpander<'a> {
    pub def: &'a EndpointDef,
    pub error_name: &'a str,
}

impl<'a> MethodExpander<'a> {
    pub fn new(def: &'a EndpointDef, error_name: &'a str) -> (r: Self)
        ensures
            r.def == def,
            r.error_name == error_name,
    {
        Self { def, error_name }
    }

    pub fn expand(&self) -> (r: String)
        ensures
            r@ == method_text(self.def@, self.error_name@),
    {
        let mut r = signature(self.def, self.error_name);
        r.append(" {\n");
        let url = UrlExpander::new(self.def, self.error_name).expand();
        r.append(url.as_str());
        let request = RequestExpander::new(self.def).expand();
        r.append(request.as_str());
        let response = ResponseExpander::new(self.def.res.as_ref(), self.error_name).expand();
        r.append(response.as_str());
        r.append("}\n");
        r
    }
}

} // verus!
