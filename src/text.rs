//! Small verified helpers on character sequences and strings.
use vstd::prelude::*;

verus! {

/// Appends one character to a string.
/// Relies on `String::push`, which appends the given character at the end.
#[verifier::external_body]
pub(crate) fn push_char(s: &mut String, c: char)
    ensures
        final(s)@ == old(s)@.push(c),
{
    s.push(c);
}

/// The characters of a string slice, in order.
pub fn chars_of(s: &str) -> (r: Vec<char>)
    ensures
        r@ == s@,
{
    let n = s.unicode_len();
    let mut r: Vec<char> = Vec::new();
    let mut i: usize = 0;
    while i < n
        invariant
            n == s@.len(),
            i <= n,
            r@ == s@.subrange(0, i as int),
        decreases n - i,
    {
        let c = s.get_char(i);
        r.push(c);
        i = i + 1;
        assert(r@ =~= s@.subrange(0, i as int));
    }
    assert(r@ =~= s@);
    r
}

/// A string holding the given characters.
pub fn string_of(v: &Vec<char>) -> (r: String)
    ensures
        r@ == v@,
{
    let mut r = String::new();
    let mut i: usize = 0;
    while i < v.len()
        invariant
            i <= v.len(),
            r@ == v@.subrange(0, i as int),
        decreases v.len() - i,
    {
        push_char(&mut r, v[i]);
        i = i + 1;
        assert(r@ =~= v@.subrange(0, i as int));
    }
    assert(r@ =~= v@);
    r
}

/// The characters of `v` from index `from` up to, not including, `to`.
pub fn slice_chars(v: &Vec<char>, from: usize, to: usize) -> (r: Vec<char>)
    requires
        from <= to <= v.len(),
    ensures
        r@ == v@.subrange(from as int, to as int),
{
    let mut r: Vec<char> = Vec::new();
    let mut i: usize = from;
    while i < to
        invariant
            from <= i <= to <= v.len(),
            r@ == v@.subrange(from as int, i as int),
        decreases to - i,
    {
        r.push(v[i]);
        i = i + 1;
        assert(r@ =~= v@.subrange(from as int, i as int));
    }
    r
}

/// Two character sequences are equal.
pub fn chars_equal(a: &Vec<char>, b: &Vec<char>) -> (r: bool)
    ensures
        r == (a@ == b@),
{
    if a.len() != b.len() {
        return false;
    }
    let mut i: usize = 0;
    while i < a.len()
        invariant
            i <= a.len() == b.len(),
            forall|k: int| 0 <= k < i ==> a@[k] == b@[k],
        decreases a.len() - i,
    {
        if a[i] != b[i] {
            return false;
        }
        i = i + 1;
    }
    assert(a@ =~= b@);
    true
}

/// The texts of a sequence of strings joined with `sep` between neighbours.
pub open spec fn join_with(items: Seq<Seq<char>>, sep: Seq<char>) -> Seq<char>
    decreases items.len(),
{
    if items.len() == 0 {
        Seq::empty()
    } else if items.len() == 1 {
        items[0]
    } else {
        join_with(items.drop_last(), sep) + sep + items.last()
    }
}

/// The texts of a vector of strings.
pub open spec fn texts(v: Seq<String>) -> Seq<Seq<char>> {
    v.map_values(|s: String| s@)
}

/// Appends the strings of `items` to `s`, with `sep` between neighbours.
pub fn push_joined(s: &mut String, items: &Vec<String>, sep: &str)
    ensures
        final(s)@ == old(s)@ + join_with(texts(items@), sep@),
{
    let mut i: usize = 0;
    while i < items.len()
        invariant
            i <= items.len(),
            s@ == old(s)@ + join_with(texts(items@.subrange(0, i as int)), sep@),
        decreases items.len() - i,
    {
        let ghost before = s@;
        if i > 0 {
            s.append(sep);
        }
        s.append(items[i].as_str());
        let ghost done = texts(items@.subrange(0, i as int + 1));
        assert(done.drop_last() =~= texts(items@.subrange(0, i as int)));
        assert(done.last() == items@[i as int]@);
        if i == 0 {
            assert(join_with(done, sep@) == done[0]);
            assert(s@ =~= old(s)@ + join_with(done, sep@));
        } else {
            assert(s@ =~= old(s)@ + join_with(done, sep@));
        }
        i = i + 1;
    }
    assert(items@.subrange(0, items.len() as int) =~= items@);
}

/// Appends the strings of `items` to `s`, one after another.
pub fn push_all(s: &mut String, items: &Vec<String>)
    ensures
        final(s)@ == old(s)@ + texts(items@).flatten(),
{
    let mut i: usize = 0;
    while i < items.len()
        invariant
            i <= items.len(),
            s@ == old(s)@ + texts(items@.subrange(0, i as int)).flatten(),
        decreases items.len() - i,
    {
        s.append(items[i].as_str());
        let ghost done = texts(items@.subrange(0, i as int + 1));
        let ghost prev = texts(items@.subrange(0, i as int));
        assert(done =~= prev.push(items@[i as int]@));
        proof {
            prev.lemma_flatten_push(items@[i as int]@);
        }
        assert(s@ =~= old(s)@ + done.flatten());
        i = i + 1;
    }
    assert(items@.subrange(0, items.len() as int) =~= items@);
}

} // verus!
