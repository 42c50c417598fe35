use crate::error::MacroError;
use crate::text::{chars_equal, chars_of, slice_chars, string_of};
use vstd::prelude::*;

verus! {

/// HTTP methods that an endpoint can use.
#[derive(Debug, Clone, Copy, PartialEq, Eq, Structural)]
pub enum HttpMethod {
    /// Retrieves a resource.
    GET,
    /// Creates a resource.
    POST,
    /// Updates a resource.
    PUT,
    /// Removes a resource.
    DELETE,
}

/// The lower-case word of a method, used in derived operation names.
pub open spec fn method_word(m: HttpMethod) -> Seq<char> {
    match m {
        HttpMethod::GET => "get"@,
        HttpMethod::POST => "post"@,
        HttpMethod::PUT => "put"@,
        HttpMethod::DELETE => "delete"@,
    }
}

impl HttpMethod {
    pub fn as_str(&self) -> (r: &'static str)
        ensures
            r@ == method_word(*self),
    {
        match self {
            HttpMethod::GET => "get",
            HttpMethod::POST => "post",
            HttpMethod::PUT => "put",
            HttpMethod::DELETE => "delete",
        }
    }
}

/// One declared operation, with each optional part held as its source text.
pub struct EndpointDef {
    /// The HTTP method (required).
    pub method: HttpMethod,
    /// The response type; without it the operation returns `()`.
    pub res: Option<String>,
    /// The URL path template, such as `/users/{id}`.
    pub path: Option<String>,
    /// An explicit name for the generated operation.
    pub fn_name: Option<String>,
    /// The request body type, sent as JSON.
    pub req: Option<String>,
    /// The type of the caller-supplied headers.
    pub headers: Option<String>,
    /// The type of the caller-supplied query parameters.
    pub query_params: Option<String>,
    /// The type whose fields fill the placeholders of `path`.
    pub path_params: Option<String>,
}

/// The mathematical content of an [`EndpointDef`].
pub struct EndpointModel {
    pub method: HttpMethod,
    pub res: Option<Seq<char>>,
    pub path: Option<Seq<char>>,
    pub fn_name: Option<Seq<char>>,
    pub req: Option<Seq<char>>,
    pub headers: Option<Seq<char>>,
    pub query_params: Option<Seq<char>>,
    pub path_params: Option<Seq<char>>,
}

impl View for EndpointDef {
    type V = EndpointModel;

    open spec fn view(&self) -> EndpointModel {
        EndpointModel {
            method: self.method,
            res: self.res.deep_view(),
            path: self.path.deep_view(),
            fn_name: self.fn_name.deep_view(),
            req: self.req.deep_view(),
            headers: self.headers.deep_view(),
            query_params: self.query_params.deep_view(),
            path_params: self.path_params.deep_view(),
        }
    }
}

/// A whole client description: the client's name and its endpoints in order.
pub struct HttpProviderInput {
    /// Name of the client struct to generate.
    pub struct_name: String,
    /// Character offset of `struct_name` in the description text.
    pub struct_name_offset: usize,
    /// The endpoints, in declaration order.
    pub endpoints: Vec<EndpointDef>,
}

/// The endpoints of a description as their models.
pub open spec fn endpoint_models(v: Seq<EndpointDef>) -> Seq<EndpointModel> {
    v.map_values(|e: EndpointDef| e@)
}

/// A character that separates tokens.
pub open spec fn is_space(c: char) -> bool {
    c == ' ' || c == '\t' || c == '\n' || c == '\r'
}

/// Whether a character has the Unicode property `XID_Start`.
pub uninterp spec fn xid_start(c: char) -> bool;

/// Whether a character has the Unicode property `XID_Continue`.
pub uninterp spec fn xid_continue(c: char) -> bool;

/// Tells whether `c` may begin an identifier.
/// Relies on `unicode_ident::is_xid_start`, whose answer depends on `c` alone.
#[verifier::external_body]
fn is_xid_start(c: char) -> (r: bool)
    ensures
        r == xid_start(c),
{
    unicode_ident::is_xid_start(c)
}

/// Tells whether `c` may continue an identifier.
/// Relies on `unicode_ident::is_xid_continue`, whose answer depends on `c` alone.
#[verifier::external_body]
fn is_xid_continue(c: char) -> (r: bool)
    ensures
        r == xid_continue(c),
{
    unicode_ident::is_xid_continue(c)
}

/// A character that may begin an identifier: `_` or an `XID_Start` character.
pub open spec fn is_ident_start(c: char) -> bool {
    c == '_' || xid_start(c)
}

/// The number of consecutive `XID_Continue` characters of `s` from index `i`.
pub open spec fn ident_run(s: Seq<char>, i: int) -> nat
    decreases s.len() - i,
{
    if 0 <= i < s.len() && xid_continue(s[i]) {
        1 + ident_run(s, i + 1)
    } else {
        0
    }
}

/// A character that opens a nesting level inside a type.
pub open spec fn is_open(c: char) -> bool {
    c == '<' || c == '(' || c == '['
}

/// A character that closes a nesting level inside a type.
pub open spec fn is_close(c: char) -> bool {
    c == '>' || c == ')' || c == ']'
}

/// The number of separator characters of `s` from index `i`.
pub open spec fn space_run(s: Seq<char>, i: int) -> nat
    decreases s.len() - i,
{
    if 0 <= i < s.len() && is_space(s[i]) {
        1 + space_run(s, i + 1)
    } else {
        0
    }
}

/// The first index from `i` on that holds no separator.
pub open spec fn skip_space(s: Seq<char>, i: int) -> int {
    i + space_run(s, i)
}

/// The length of the identifier starting at `i`, or 0 if none starts there.
pub open spec fn ident_len(s: Seq<char>, i: int) -> nat {
    if 0 <= i < s.len() && is_ident_start(s[i]) {
        1 + ident_run(s, i + 1)
    } else {
        0
    }
}

/// The number of characters from `i` on that stand inside a string literal:
/// any character but `"` and `\\`, and escapes, each a `\\` with the
/// character after it.
pub open spec fn str_run(s: Seq<char>, i: int) -> nat
    decreases s.len() - i,
{
    if 0 <= i && i + 1 < s.len() && s[i] == '\\' {
        2 + str_run(s, i + 2)
    } else if 0 <= i < s.len() && s[i] != '"' && s[i] != '\\' {
        1 + str_run(s, i + 1)
    } else {
        0
    }
}

/// The character at `i` closes a nesting level: a closing bracket that is not
/// the `>` of an arrow `->`.
pub open spec fn closes_at(s: Seq<char>, i: int) -> bool {
    is_close(s[i]) && !(s[i] == '>' && i > 0 && s[i - 1] == '-')
}

/// The length of the type text starting at `i` at nesting depth `depth`: it
/// ends at the end of input, at a `,` or `}` outside any nesting, or at a
/// closing bracket that has no opening one.
pub open spec fn type_len(s: Seq<char>, i: int, depth: nat) -> nat
    decreases s.len() - i,
{
    if i < 0 || i >= s.len() {
        0
    } else if depth == 0 && (s[i] == ',' || s[i] == '}') {
        0
    } else if is_open(s[i]) {
        1 + type_len(s, i + 1, depth + 1)
    } else if closes_at(s, i) {
        if depth == 0 {
            0
        } else {
            1 + type_len(s, i + 1, (depth - 1) as nat)
        }
    } else {
        1 + type_len(s, i + 1, depth)
    }
}

/// `t` without its trailing separators.
pub open spec fn trim_end_space(t: Seq<char>) -> Seq<char>
    decreases t.len(),
{
    if t.len() > 0 && is_space(t.last()) {
        trim_end_space(t.drop_last())
    } else {
        t
    }
}

/// `a` is `b` or, for an upper-case ASCII letter `b`, its lower-case form.
pub open spec fn same_letter(a: char, b: char) -> bool {
    a == b || ('A' <= b && b <= 'Z' && a as u32 == b as u32 + 32)
}

/// `w` spells the upper-case word `t` in any letter case.
pub open spec fn spells(w: Seq<char>, t: Seq<char>) -> bool {
    w.len() == t.len() && forall|k: int| 0 <= k < w.len() ==> same_letter(w[k], t[k])
}

/// The method a word names, in any letter case.
pub open spec fn method_named(w: Seq<char>) -> Option<HttpMethod> {
    if spells(w, "GET"@) {
        Some(HttpMethod::GET)
    } else if spells(w, "POST"@) {
        Some(HttpMethod::POST)
    } else if spells(w, "PUT"@) {
        Some(HttpMethod::PUT)
    } else if spells(w, "DELETE"@) {
        Some(HttpMethod::DELETE)
    } else {
        None
    }
}

/// Where and why reading a description stopped.
pub struct SyntaxIssue {
    pub message: Seq<char>,
    pub offset: int,
}

/// The fields of an endpoint block read so far.
pub struct FieldsModel {
    pub method: Option<HttpMethod>,
    pub res: Option<Seq<char>>,
    pub path: Option<Seq<char>>,
    pub fn_name: Option<Seq<char>>,
    pub req: Option<Seq<char>>,
    pub headers: Option<Seq<char>>,
    pub query_params: Option<Seq<char>>,
    pub path_params: Option<Seq<char>>,
}

/// A failure at `offset` with `message`.
pub open spec fn issue(message: Seq<char>, offset: int) -> SyntaxIssue {
    SyntaxIssue { message, offset }
}

/// No field read yet.
pub open spec fn no_fields() -> FieldsModel {
    FieldsModel {
        method: None,
        res: None,
        path: None,
        fn_name: None,
        req: None,
        headers: None,
        query_params: None,
        path_params: None,
    }
}

/// Reads a type-valued field `key`'s value at `v`; the number of characters
/// read comes with the result.
pub open spec fn read_type_field(s: Seq<char>, v: int, key: Seq<char>, acc: FieldsModel) -> Result<
    (FieldsModel, nat),
    SyntaxIssue,
> {
    let n = type_len(s, v, 0);
    let t = trim_end_space(s.subrange(v, v + n));
    if t.len() == 0 {
        Err(issue("expected type"@, v))
    } else if key == "res"@ {
        Ok((FieldsModel { res: Some(t), ..acc }, n))
    } else if key == "req"@ {
        Ok((FieldsModel { req: Some(t), ..acc }, n))
    } else if key == "headers"@ {
        Ok((FieldsModel { headers: Some(t), ..acc }, n))
    } else if key == "query_params"@ {
        Ok((FieldsModel { query_params: Some(t), ..acc }, n))
    } else {
        Ok((FieldsModel { path_params: Some(t), ..acc }, n))
    }
}

/// Whether `key` names a type-valued field.
pub open spec fn is_type_key(key: Seq<char>) -> bool {
    key == "res"@ || key == "req"@ || key == "headers"@ || key == "query_params"@ || key
        == "path_params"@
}

/// Reads the value of field `key` (found at `k`) at position `v`.
pub open spec fn read_value(s: Seq<char>, k: int, key: Seq<char>, v: int, acc: FieldsModel) -> Result<
    (FieldsModel, nat),
    SyntaxIssue,
> {
    if key == "path"@ {
        let n = str_run(s, v + 1);
        if v < s.len() && s[v] == '"' && v + 1 + n < s.len() && s[v + 1 + n] == '"' {
            Ok((FieldsModel { path: Some(s.subrange(v + 1, v + 1 + n)), ..acc }, n + 2))
        } else {
            Err(issue("expected string literal"@, v))
        }
    } else if key == "method"@ || key == "fn_name"@ {
        let n = ident_len(s, v);
        let w = s.subrange(v, v + n);
        if n == 0 {
            Err(issue("expected identifier"@, v))
        } else if key == "fn_name"@ {
            Ok((FieldsModel { fn_name: Some(w), ..acc }, n))
        } else {
            match method_named(w) {
                Some(m) => Ok((FieldsModel { method: Some(m), ..acc }, n)),
                None => Err(issue("Unsupported HTTP method: "@ + w, v)),
            }
        }
    } else if is_type_key(key) {
        read_type_field(s, v, key, acc)
    } else {
        Err(issue("unexpected field"@, k))
    }
}

/// Reads the fields of an endpoint block from `i`, a position past any
/// separator, up to and including the block's closing brace. Fields are
/// separated by commas, with an optional comma after the last; a later field
/// of the same name replaces an earlier one.
pub open spec fn read_fields(s: Seq<char>, i: int, acc: FieldsModel) -> Result<
    (FieldsModel, nat),
    SyntaxIssue,
>
    decreases s.len() - i via read_fields_decreases
{
    if i < 0 || i >= s.len() {
        Err(issue("unexpected end of input"@, i))
    } else if s[i] == '}' {
        Ok((acc, 1))
    } else {
        let kn = ident_len(s, i);
        let c = skip_space(s, i + kn);
        if kn == 0 {
            Err(issue("expected identifier"@, i))
        } else if c >= s.len() || s[c] != ':' {
            Err(issue("expected `:`"@, c))
        } else {
            let v = skip_space(s, c + 1);
            match read_value(s, i, s.subrange(i, i + kn), v, acc) {
                Err(e) => Err(e),
                Ok((acc2, vn)) => {
                    let n = skip_space(s, v + vn);
                    if n < s.len() && s[n] == '}' {
                        Ok((acc2, (n + 1 - i) as nat))
                    } else if n < s.len() && s[n] == ',' {
                        let m = skip_space(s, n + 1);
                        match read_fields(s, m, acc2) {
                            Err(e) => Err(e),
                            Ok((acc3, rn)) => Ok((acc3, (m - i) as nat + rn)),
                        }
                    } else {
                        Err(issue("expected `,`"@, n))
                    }
                },
            }
        }
    }
}

/// Skipping separators stays within the text.
pub proof fn lemma_skip_space_bounded(s: Seq<char>, i: int)
    requires
        0 <= i <= s.len(),
    ensures
        i <= skip_space(s, i) <= s.len(),
    decreases s.len() - i,
{
    if i < s.len() && is_space(s[i]) {
        lemma_skip_space_bounded(s, i + 1);
    }
}

#[via_fn]
proof fn read_fields_decreases(s: Seq<char>, i: int, acc: FieldsModel) {
    if 0 <= i < s.len() && s[i] != '}' {
        let kn = ident_len(s, i);
        let c = skip_space(s, i + kn);
        let v = skip_space(s, c + 1);
        match read_value(s, i, s.subrange(i, i + kn), v, acc) {
            Ok((acc2, vn)) => {
                let n = skip_space(s, v + vn);
                let m = skip_space(s, n + 1);
                if n < s.len() {
                    lemma_skip_space_bounded(s, n + 1);
                }
            },
            Err(_) => {},
        }
    }
}

/// The endpoint that a complete set of fields describes; `close` is the
/// position of the block's closing brace.
pub open spec fn finish_fields(f: FieldsModel, close: int) -> Result<EndpointModel, SyntaxIssue> {
    match f.method {
        None => Err(issue("missing `method`"@, close)),
        Some(m) => Ok(
            EndpointModel {
                method: m,
                res: f.res,
                path: f.path,
                fn_name: f.fn_name,
                req: f.req,
                headers: f.headers,
                query_params: f.query_params,
                path_params: f.path_params,
            },
        ),
    }
}

/// Reads the endpoint blocks from `i`, a position past any separator, up to
/// and including the closing brace of the list. Blocks are separated by
/// commas, with an optional comma after the last.
pub open spec fn read_endpoints(s: Seq<char>, i: int, acc: Seq<EndpointModel>) -> Result<
    (Seq<EndpointModel>, nat),
    SyntaxIssue,
>
    decreases s.len() - i via read_endpoints_decreases
{
    if i < 0 || i >= s.len() {
        Err(issue("unexpected end of input"@, i))
    } else if s[i] == '}' {
        Ok((acc, 1))
    } else if s[i] != '{' {
        Err(issue("expected `{`"@, i))
    } else {
        let f = skip_space(s, i + 1);
        match read_fields(s, f, no_fields()) {
            Err(e) => Err(e),
            Ok((fields, fnum)) => match finish_fields(fields, f + fnum - 1) {
                Err(e) => Err(e),
                Ok(ep) => {
                    let n = skip_space(s, f + fnum);
                    if n < s.len() && s[n] == '}' {
                        Ok((acc.push(ep), (n + 1 - i) as nat))
                    } else if n < s.len() && s[n] == ',' {
                        let m = skip_space(s, n + 1);
                        match read_endpoints(s, m, acc.push(ep)) {
                            Err(e) => Err(e),
                            Ok((eps, rn)) => Ok((eps, (m - i) as nat + rn)),
                        }
                    } else {
                        Err(issue("expected `,`"@, n))
                    }
                },
            },
        }
    }
}

#[via_fn]
proof fn read_endpoints_decreases(s: Seq<char>, i: int, acc: Seq<EndpointModel>) {
    if 0 <= i < s.len() && s[i] == '{' {
        let f = skip_space(s, i + 1);
        match read_fields(s, f, no_fields()) {
            Ok((fields, fnum)) => {
                let n = skip_space(s, f + fnum);
                if n < s.len() {
                    lemma_skip_space_bounded(s, n + 1);
                }
            },
            Err(_) => {},
        }
    }
}

/// What a whole description holds.
pub struct InputModel {
    pub struct_name: Seq<char>,
    pub struct_name_offset: int,
    pub endpoints: Seq<EndpointModel>,
}

/// Reads a whole description: `Name, { {fields}, {fields}, ... }`.
pub open spec fn read_input(s: Seq<char>) -> Result<InputModel, SyntaxIssue> {
    let a = skip_space(s, 0);
    let kn = ident_len(s, a);
    let c = skip_space(s, a + kn);
    let b = skip_space(s, c + 1);
    let e = skip_space(s, b + 1);
    if kn == 0 {
        Err(issue("expected identifier"@, a))
    } else if c >= s.len() || s[c] != ',' {
        Err(issue("expected `,`"@, c))
    } else if b >= s.len() || s[b] != '{' {
        Err(issue("expected `{`"@, b))
    } else {
        match read_endpoints(s, e, Seq::empty()) {
            Err(err) => Err(err),
            Ok((eps, en)) => {
                let z = skip_space(s, e + en);
                if z < s.len() {
                    Err(issue("unexpected token"@, z))
                } else {
                    Ok(InputModel { struct_name: s.subrange(a, a + kn), struct_name_offset: a, endpoints: eps })
                }
            },
        }
    }
}

/// `e` is the syntax failure `iss`.
pub open spec fn is_issue(e: MacroError, iss: SyntaxIssue) -> bool {
    match e {
        MacroError::Syntax { message, offset } => message@ == iss.message && offset == iss.offset,
        _ => false,
    }
}

fn syntax_error(message: String, offset: usize) -> (r: MacroError)
    ensures
        r == (MacroError::Syntax { message, offset }),
{
    MacroError::Syntax { message, offset }
}

fn skip_space_at(s: &Vec<char>, i: usize) -> (r: usize)
    requires
        i <= s.len(),
    ensures
        r == skip_space(s@, i as int),
        r <= s.len(),
{
    let mut j = i;
    while j < s.len() && (s[j] == ' ' || s[j] == '\t' || s[j] == '\n' || s[j] == '\r')
        invariant
            i <= j <= s.len(),
            skip_space(s@, i as int) == skip_space(s@, j as int),
        decreases s.len() - j,
    {
        j = j + 1;
    }
    j
}

fn ident_run_at(s: &Vec<char>, i: usize) -> (r: usize)
    requires
        i <= s.len(),
    ensures
        r == ident_run(s@, i as int),
        i + r <= s.len(),
{
    let mut j = i;
    while j < s.len() && is_xid_continue(s[j])
        invariant
            i <= j <= s.len(),
            ident_run(s@, i as int) == (j - i) + ident_run(s@, j as int),
        decreases s.len() - j,
    {
        j = j + 1;
    }
    j - i
}

fn ident_len_at(s: &Vec<char>, i: usize) -> (r: usize)
    requires
        i <= s.len(),
    ensures
        r == ident_len(s@, i as int),
        i + r <= s.len(),
{
    if i < s.len() && (s[i] == '_' || is_xid_start(s[i])) {
        1 + ident_run_at(s, i + 1)
    } else {
        0
    }
}

fn str_run_at(s: &Vec<char>, i: usize) -> (r: usize)
    requires
        i <= s.len(),
    ensures
        r == str_run(s@, i as int),
        i + r <= s.len(),
{
    let mut j = i;
    loop
        invariant
            i <= j <= s.len(),
            str_run(s@, i as int) == (j - i) + str_run(s@, j as int),
        ensures
            i <= j <= s.len(),
            str_run(s@, i as int) == j - i,
        decreases s.len() - j,
    {
        if j < s.len() && j + 1 < s.len() && s[j] == '\\' {
            j = j + 2;
        } else if j < s.len() && s[j] != '"' && s[j] != '\\' {
            j = j + 1;
        } else {
            break;
        }
    }
    j - i
}

fn type_len_at(s: &Vec<char>, i: usize) -> (r: usize)
    requires
        i <= s.len(),
    ensures
        r == type_len(s@, i as int, 0),
        i + r <= s.len(),
{
    let mut j = i;
    let mut depth: usize = 0;
    loop
        invariant
            i <= j <= s.len(),
            depth <= j - i,
            type_len(s@, i as int, 0) == (j - i) + type_len(s@, j as int, depth as nat),
        ensures
            i <= j <= s.len(),
            type_len(s@, i as int, 0) == j - i,
        decreases s.len() - j,
    {
        if j >= s.len() {
            break;
        }
        let c = s[j];
        if depth == 0 && (c == ',' || c == '}') {
            break;
        } else if c == '<' || c == '(' || c == '[' {
            depth = depth + 1;
        } else if (c == '>' || c == ')' || c == ']') && !(c == '>' && j > 0 && s[j - 1] == '-') {
            if depth == 0 {
                break;
            }
            depth = depth - 1;
        }
        j = j + 1;
    }
    j - i
}

fn trim_end_space_of(v: &Vec<char>) -> (r: Vec<char>)
    ensures
        r@ == trim_end_space(v@),
{
    let mut j: usize = v.len();
    assert(v@.subrange(0, j as int) =~= v@);
    while j > 0 && (v[j - 1] == ' ' || v[j - 1] == '\t' || v[j - 1] == '\n' || v[j - 1] == '\r')
        invariant
            j <= v.len(),
            trim_end_space(v@) == trim_end_space(v@.subrange(0, j as int)),
        decreases j,
    {
        assert(v@.subrange(0, j as int).drop_last() =~= v@.subrange(0, j as int - 1));
        j = j - 1;
    }
    slice_chars(v, 0, j)
}

fn spells_at(w: &Vec<char>, t: &str) -> (r: bool)
    ensures
        r == spells(w@, t@),
{
    let tc = chars_of(t);
    if w.len() != tc.len() {
        return false;
    }
    let mut k: usize = 0;
    while k < w.len()
        invariant
            k <= w.len() == tc.len(),
            tc@ == t@,
            forall|q: int| 0 <= q < k ==> same_letter(w@[q], t@[q]),
        decreases w.len() - k,
    {
        let a = w[k];
        let b = tc[k];
        if !(a == b || ('A' <= b && b <= 'Z' && a as u32 == b as u32 + 32)) {
            assert(!same_letter(w@[k as int], t@[k as int]));
            return false;
        }
        k = k + 1;
    }
    true
}

fn method_named_of(w: &Vec<char>) -> (r: Option<HttpMethod>)
    ensures
        r == method_named(w@),
{
    if spells_at(w, "GET") {
        Some(HttpMethod::GET)
    } else if spells_at(w, "POST") {
        Some(HttpMethod::POST)
    } else if spells_at(w, "PUT") {
        Some(HttpMethod::PUT)
    } else if spells_at(w, "DELETE") {
        Some(HttpMethod::DELETE)
    } else {
        None
    }
}

/// The fields of an endpoint block read so far.
pub struct EndpointFields {
    pub method: Option<HttpMethod>,
    pub res: Option<String>,
    pub path: Option<String>,
    pub fn_name: Option<String>,
    pub req: Option<String>,
    pub headers: Option<String>,
    pub query_params: Option<String>,
    pub path_params: Option<String>,
}

impl View for EndpointFields {
    type V = FieldsModel;

    open spec fn view(&self) -> FieldsModel {
        FieldsModel {
            method: self.method,
            res: self.res.deep_view(),
            path: self.path.deep_view(),
            fn_name: self.fn_name.deep_view(),
            req: self.req.deep_view(),
            headers: self.headers.deep_view(),
            query_params: self.query_params.deep_view(),
            path_params: self.path_params.deep_view(),
        }
    }
}

/// `r` is the outcome `o` of a reading step, its value seen through `view`.
pub open spec fn read_as<T, M>(
    r: Result<(T, usize), MacroError>,
    o: Result<(M, nat), SyntaxIssue>,
    view: spec_fn(T) -> M,
) -> bool {
    match o {
        Ok((m, n)) => r is Ok && view(r->Ok_0.0) == m && r->Ok_0.1 == n,
        Err(iss) => r is Err && is_issue(r->Err_0, iss),
    }
}

fn read_type_field_at(s: &Vec<char>, v: usize, key: &Vec<char>, acc: EndpointFields) -> (r: Result<
    (EndpointFields, usize),
    MacroError,
>)
    requires
        v <= s.len(),
        is_type_key(key@),
    ensures
        read_as(r, read_type_field(s@, v as int, key@, acc@), |f: EndpointFields| f@),
        r is Ok ==> v + r->Ok_0.1 <= s.len(),
{
    let n = type_len_at(s, v);
    let t = trim_end_space_of(&slice_chars(s, v, v + n));
    if t.len() == 0 {
        return Err(syntax_error(String::from_str("expected type"), v));
    }
    let text = string_of(&t);
    let mut acc = acc;
    if chars_equal(key, &chars_of("res")) {
        acc.res = Some(text);
    } else if chars_equal(key, &chars_of("req")) {
        acc.req = Some(text);
    } else if chars_equal(key, &chars_of("headers")) {
        acc.headers = Some(text);
    } else if chars_equal(key, &chars_of("query_params")) {
        acc.query_params = Some(text);
    } else {
        acc.path_params = Some(text);
    }
    Ok((acc, n))
}

fn read_value_at(s: &Vec<char>, k: usize, key: &Vec<char>, v: usize, acc: EndpointFields) -> (r:
    Result<(EndpointFields, usize), MacroError>)
    requires
        v <= s.len(),
    ensures
        read_as(r, read_value(s@, k as int, key@, v as int, acc@), |f: EndpointFields| f@),
        r is Ok ==> v + r->Ok_0.1 <= s.len(),
{
    let mut acc = acc;
    if chars_equal(key, &chars_of("path")) {
        let n = if v < s.len() {
            str_run_at(s, v + 1)
        } else {
            0
        };
        if v < s.len() && s[v] == '"' && v + 1 + n < s.len() && s[v + 1 + n] == '"' {
            acc.path = Some(string_of(&slice_chars(s, v + 1, v + 1 + n)));
            Ok((acc, n + 2))
        } else {
            Err(syntax_error(String::from_str("expected string literal"), v))
        }
    } else if chars_equal(key, &chars_of("method")) || chars_equal(key, &chars_of("fn_name")) {
        let n = ident_len_at(s, v);
        let w = slice_chars(s, v, v + n);
        if n == 0 {
            Err(syntax_error(String::from_str("expected identifier"), v))
        } else if chars_equal(key, &chars_of("fn_name")) {
            acc.fn_name = Some(string_of(&w));
            Ok((acc, n))
        } else {
            match method_named_of(&w) {
                Some(m) => {
                    acc.method = Some(m);
                    Ok((acc, n))
                },
                None => {
                    let mut message = String::from_str("Unsupported HTTP method: ");
                    let word = string_of(&w);
                    message.append(word.as_str());
                    Err(syntax_error(message, v))
                },
            }
        }
    } else if chars_equal(key, &chars_of("res")) || chars_equal(key, &chars_of("req"))
        || chars_equal(key, &chars_of("headers")) || chars_equal(key, &chars_of("query_params"))
        || chars_equal(key, &chars_of("path_params")) {
        read_type_field_at(s, v, key, acc)
    } else {
        Err(syntax_error(String::from_str("unexpected field"), k))
    }
}

fn read_fields_at(s: &Vec<char>, i: usize, acc: EndpointFields) -> (r: Result<
    (EndpointFields, usize),
    MacroError,
>)
    requires
        i <= s.len(),
    ensures
        read_as(r, read_fields(s@, i as int, acc@), |f: EndpointFields| f@),
        r is Ok ==> i + r->Ok_0.1 <= s.len(),
    decreases s.len() - i,
{
    if i >= s.len() {
        return Err(syntax_error(String::from_str("unexpected end of input"), i));
    }
    if s[i] == '}' {
        return Ok((acc, 1));
    }
    let kn = ident_len_at(s, i);
    let c = skip_space_at(s, i + kn);
    if kn == 0 {
        return Err(syntax_error(String::from_str("expected identifier"), i));
    }
    if c >= s.len() || s[c] != ':' {
        return Err(syntax_error(String::from_str("expected `:`"), c));
    }
    let v = skip_space_at(s, c + 1);
    let key = slice_chars(s, i, i + kn);
    match read_value_at(s, i, &key, v, acc) {
        Err(e) => Err(e),
        Ok((acc2, vn)) => {
            let n = skip_space_at(s, v + vn);
            if n < s.len() && s[n] == '}' {
                Ok((acc2, n + 1 - i))
            } else if n < s.len() && s[n] == ',' {
                let m = skip_space_at(s, n + 1);
                match read_fields_at(s, m, acc2) {
                    Err(e) => Err(e),
                    Ok((acc3, rn)) => Ok((acc3, (m - i) + rn)),
                }
            } else {
                Err(syntax_error(String::from_str("expected `,`"), n))
            }
        },
    }
}

fn finish_fields_at(f: EndpointFields, close: usize) -> (r: Result<EndpointDef, MacroError>)
    ensures
        match finish_fields(f@, close as int) {
            Ok(m) => r is Ok && r->Ok_0@ == m,
            Err(iss) => r is Err && is_issue(r->Err_0, iss),
        },
{
    match f.method {
        None => Err(syntax_error(String::from_str("missing `method`"), close)),
        Some(method) => Ok(
            EndpointDef {
                method,
                res: f.res,
                path: f.path,
                fn_name: f.fn_name,
                req: f.req,
                headers: f.headers,
                query_params: f.query_params,
                path_params: f.path_params,
            },
        ),
    }
}

fn no_fields_yet() -> (r: EndpointFields)
    ensures
        r@ == no_fields(),
{
    EndpointFields {
        method: None,
        res: None,
        path: None,
        fn_name: None,
        req: None,
        headers: None,
        query_params: None,
        path_params: None,
    }
}

fn read_endpoints_at(s: &Vec<char>, i: usize, acc: Vec<EndpointDef>) -> (r: Result<
    (Vec<EndpointDef>, usize),
    MacroError,
>)
    requires
        i <= s.len(),
    ensures
        read_as(
            r,
            read_endpoints(s@, i as int, endpoint_models(acc@)),
            |v: Vec<EndpointDef>| endpoint_models(v@),
        ),
        r is Ok ==> i + r->Ok_0.1 <= s.len(),
    decreases s.len() - i,
{
    if i >= s.len() {
        return Err(syntax_error(String::from_str("unexpected end of input"), i));
    }
    if s[i] == '}' {
        return Ok((acc, 1));
    }
    if s[i] != '{' {
        return Err(syntax_error(String::from_str("expected `{`"), i));
    }
    let f = skip_space_at(s, i + 1);
    match read_fields_at(s, f, no_fields_yet()) {
        Err(e) => Err(e),
        Ok((fields, fnum)) => match finish_fields_at(fields, f + fnum - 1) {
            Err(e) => Err(e),
            Ok(ep) => {
                let ghost before = acc@;
                let mut acc = acc;
                acc.push(ep);
                assert(endpoint_models(acc@) =~= endpoint_models(before).push(ep@));
                let n = skip_space_at(s, f + fnum);
                if n < s.len() && s[n] == '}' {
                    Ok((acc, n + 1 - i))
                } else if n < s.len() && s[n] == ',' {
                    let m = skip_space_at(s, n + 1);
                    match read_endpoints_at(s, m, acc) {
                        Err(e) => Err(e),
                        Ok((eps, rn)) => Ok((eps, (m - i) + rn)),
                    }
                } else {
                    Err(syntax_error(String::from_str("expected `,`"), n))
                }
            },
        },
    }
}

impl HttpProviderInput {
    /// Reads a client description:
    /// `Name, { { method: GET, path: "/users", res: Vec<User> }, ... }`.
    ///
    /// Each endpoint block holds fields `name: value` separated by commas
    /// (a comma after the last is allowed). `path` takes a string literal,
    /// kept as written with its escapes, `method` one of `GET`, `POST`, `PUT`, `DELETE` in any letter case,
    /// `fn_name` an identifier, and `req`, `res`, `headers`, `query_params`,
    /// `path_params` a type. `method` is required. Fails with the position
    /// where the text departs from this form.
    pub fn parse(text: &str) -> (r: Result<HttpProviderInput, MacroError>)
        ensures
            match read_input(text@) {
                Ok(m) => r is Ok && r->Ok_0.struct_name@ == m.struct_name
                    && r->Ok_0.struct_name_offset == m.struct_name_offset
                    && endpoint_models(r->Ok_0.endpoints@) == m.endpoints,
                Err(iss) => r is Err && is_issue(r->Err_0, iss),
            },
    {
        let s = chars_of(text);
        let a = skip_space_at(&s, 0);
        let kn = ident_len_at(&s, a);
        let c = skip_space_at(&s, a + kn);
        if kn == 0 {
            return Err(syntax_error(String::from_str("expected identifier"), a));
        }
        if c >= s.len() || s[c] != ',' {
            return Err(syntax_error(String::from_str("expected `,`"), c));
        }
        let b = skip_space_at(&s, c + 1);
        if b >= s.len() || s[b] != '{' {
            return Err(syntax_error(String::from_str("expected `{`"), b));
        }
        let e = skip_space_at(&s, b + 1);
        let empty: Vec<EndpointDef> = Vec::new();
        assert(endpoint_models(empty@) =~= Seq::empty());
        match read_endpoints_at(&s, e, empty) {
            Err(err) => Err(err),
            Ok((endpoints, en)) => {
                let z = skip_space_at(&s, e + en);
                if z < s.len() {
                    Err(syntax_error(String::from_str("unexpected token"), z))
                } else {
                    let struct_name = string_of(&slice_chars(&s, a, a + kn));
                    Ok(HttpProviderInput { struct_name, struct_name_offset: a, endpoints })
                }
            },
        }
    }
}

} // verus!
