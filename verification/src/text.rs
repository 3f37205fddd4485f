//! Character-level string helpers with exact specifications.

use vstd::prelude::*;

verus! {

/// The characters of `s`, in order.
pub fn chars_of(s: &str) -> (v: Vec<char>)
    ensures
        v@ == s@,
{
    let mut v: Vec<char> = Vec::new();
    for c in it: s.chars()
        invariant
            v@ == it.seq().take(it.index() as int),
            it.seq() == s@,
    {
        v.push(c);
    }
    v
}


/// `needle` occurs in `hay` as a contiguous run of characters.
pub open spec fn has_substring(hay: Seq<char>, needle: Seq<char>) -> bool {
    exists|i: int|
        0 <= i && i + needle.len() <= hay.len() && #[trigger] hay.subrange(i, i + needle.len())
            == needle
}

/// Does `hay` hold `needle` at position `i`?
fn matches_at(hay: &Vec<char>, needle: &Vec<char>, i: usize) -> (r: bool)
    requires
        i + needle.len() <= hay.len(),
    ensures
        r == (hay@.subrange(i as int, i + needle.len()) == needle@),
{
    let mut j: usize = 0;
    while j < needle.len()
        invariant
            i + needle.len() <= hay.len(),
            j <= needle.len(),
            forall|k: int| 0 <= k < j ==> hay@[i + k] == needle@[k],
        decreases needle.len() - j,
    {
        if hay[i + j] != needle[j] {
            assert(hay@.subrange(i as int, i + needle.len())[j as int] != needle@[j as int]);
            return false;
        }
        j = j + 1;
    }
    assert(hay@.subrange(i as int, i + needle.len()) =~= needle@);
    true
}

/// Whether `needle` occurs in `hay` (what `str::contains` answers for a string pattern).
pub fn contains_str(hay: &str, needle: &str) -> (r: bool)
    ensures
        r == has_substring(hay@, needle@),
{
    let h = chars_of(hay);
    let n = chars_of(needle);
    if n.len() > h.len() {
        return false;
    }
    let last: usize = h.len() - n.len();
    let mut i: usize = 0;
    loop
        invariant
            h@ == hay@,
            n@ == needle@,
            last + n.len() == h.len(),
            i <= last,
            forall|k: int| 0 <= k < i ==> #[trigger] hay@.subrange(k, k + needle@.len()) != needle@,
        decreases last - i,
    {
        if matches_at(&h, &n, i) {
            return true;
        }
        if i == last {
            return false;
        }
        i = i + 1;
    }
}

/// Appends one character to `s`.
#[verifier::external_body]
pub(crate) fn push_char(s: &mut String, c: char)
    ensures
        final(s)@ == old(s)@.push(c),
{
    s.push(c);
}

/// `s` with every occurrence of `c` removed.
pub fn remove_char(s: &str, c: char) -> (r: String)
    ensures
        r@ == s@.filter(|x: char| x != c),
{
    let v = chars_of(s);
    let mut r = String::new();
    let mut i: usize = 0;
    while i < v.len()
        invariant
            v@ == s@,
            i <= v.len(),
            r@ == s@.take(i as int).filter(|x: char| x != c),
        decreases v.len() - i,
    {
        let ghost before = r@;
        assert(s@.take(i + 1).drop_last() =~= s@.take(i as int));
        reveal_with_fuel(Seq::filter, 1);
        if v[i] != c {
            push_char(&mut r, v[i]);
        }
        i = i + 1;
    }
    assert(s@.take(v.len() as int) =~= s@);
    r
}

/// The part of `s` after its last `sep`; all of `s` when `sep` does not occur.
pub open spec fn after_last(s: Seq<char>, sep: char) -> Seq<char>
    decreases s.len(),
{
    if s.len() == 0 {
        s
    } else if s.last() == sep {
        Seq::empty()
    } else {
        after_last(s.drop_last(), sep).push(s.last())
    }
}

/// What `after_last` gives back: a suffix of `s` free of `sep`, that is either
/// all of `s` or stands right after a `sep`.
pub proof fn lemma_after_last(s: Seq<char>, sep: char)
    ensures
        after_last(s, sep).len() <= s.len(),
        after_last(s, sep) == s.subrange(s.len() - after_last(s, sep).len(), s.len() as int),
        !after_last(s, sep).contains(sep),
        after_last(s, sep).len() == s.len() || s[s.len() - after_last(s, sep).len() - 1] == sep,
    decreases s.len(),
{
    if s.len() > 0 && s.last() != sep {
        let p = s.drop_last();
        lemma_after_last(p, sep);
        let r = after_last(p, sep);
        assert(r.push(s.last()) =~= s.subrange(s.len() - r.len() - 1, s.len() as int));
        assert forall|k: int| 0 <= k < r.len() + 1 implies r.push(s.last())[k] != sep by {
            if k < r.len() {
                assert(r[k] == r.push(s.last())[k]);
                assert(!r.contains(sep));
            }
        }
        if r.len() < p.len() {
            assert(s[s.len() - r.len() - 2] == p[p.len() - r.len() - 1]);
        }
    }
    if s.len() == 0 {
        assert(s.subrange(0, 0) =~= s);
    }
}

/// The part of `s` after its last `sep`: `s.split(sep).last()`.
pub fn last_segment(s: &str, sep: char) -> (r: String)
    ensures
        r@ == after_last(s@, sep),
{
    let v = chars_of(s);
    let mut start: usize = v.len();
    assert(s@.take(start as int) =~= s@);
    assert(s@.skip(start as int) =~= Seq::<char>::empty());
    while start > 0 && v[start - 1] != sep
        invariant
            v@ == s@,
            start <= v.len(),
            after_last(s@, sep) == after_last(s@.take(start as int), sep) + s@.skip(start as int),
        decreases start,
    {
        assert(s@.take(start as int).drop_last() =~= s@.take(start - 1));
        assert(s@.skip(start - 1) =~= seq![v@[start - 1]] + s@.skip(start as int));
        assert(after_last(s@.take(start - 1), sep).push(v@[start - 1]) + s@.skip(start as int)
            =~= after_last(s@.take(start - 1), sep) + s@.skip(start - 1));
        start = start - 1;
    }
    assert(after_last(s@.take(start as int), sep) =~= Seq::<char>::empty()) by {
        if start > 0 {
            assert(s@.take(start as int).last() == sep);
        }
    }
    let mut r = String::new();
    let mut i: usize = start;
    while i < v.len()
        invariant
            v@ == s@,
            start <= i <= v.len(),
            r@ == s@.subrange(start as int, i as int),
        decreases v.len() - i,
    {
        push_char(&mut r, v[i]);
        i = i + 1;
        assert(r@ =~= s@.subrange(start as int, i as int));
    }
    assert(s@.skip(start as int) =~= s@.subrange(start as int, v.len() as int));
    assert(after_last(s@, sep) =~= s@.skip(start as int));
    r
}

/// Whether `s` reads exactly `lit`.
pub fn str_equals(s: &str, lit: &str) -> (r: bool)
    ensures
        r == (s@ == lit@),
{
    let a = String::from_str(s);
    let b = String::from_str(lit);
    a == b
}


/// What `str::to_lowercase` gives for a string: its Unicode lower-case form.
pub uninterp spec fn lowercase_of(s: Seq<char>) -> Seq<char>;

/// Calls `str::to_lowercase`; the result is named by `lowercase_of`.
#[verifier::external_body]
pub(crate) fn to_lowercase(s: &str) -> (r: String)
    ensures
        r@ == lowercase_of(s@),
{
    s.to_lowercase()
}

/// The extension of a file name as the upload handler reads it: the part after
/// the last `.` (all of the name when it has none), lower-cased.
pub open spec fn extension_of(file_name: Seq<char>) -> Seq<char> {
    lowercase_of(after_last(file_name, '.'))
}

/// Reads the extension of `file_name`.
pub fn file_extension(file_name: &str) -> (r: String)
    ensures
        r@ == extension_of(file_name@),
{
    let last = last_segment(file_name, '.');
    to_lowercase(last.as_str())
}

} // verus!
