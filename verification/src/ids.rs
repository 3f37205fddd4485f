//! Identifiers for users and stored files, drawn from random UUIDs.

use vstd::prelude::*;

verus! {

/// A digit of lower-case hexadecimal.
pub open spec fn is_lower_hex(c: char) -> bool {
    ('0' <= c && c <= '9') || ('a' <= c && c <= 'f')
}

/// Where the hyphenated text form of a UUID puts its hyphens.
pub open spec fn is_hyphen_position(i: int) -> bool {
    i == 8 || i == 13 || i == 18 || i == 23
}

/// A digit that marks the RFC 4122 variant: 8, 9, a or b.
pub open spec fn is_variant_digit(c: char) -> bool {
    c == '8' || c == '9' || c == 'a' || c == 'b'
}

/// The hyphenated lower-case text form of a random (version 4) UUID:
/// 36 characters, hyphens at 8, 13, 18 and 23, lower-case hex digits
/// elsewhere, the version digit `4` at 14 and a variant digit at 19.
pub open spec fn is_hyphenated_uuid(s: Seq<char>) -> bool {
    &&& s.len() == 36
    &&& s[14] == '4'
    &&& is_variant_digit(s[19])
    &&& forall|i: int|
        0 <= i < 36 ==> if is_hyphen_position(i) {
            #[trigger] s[i] == '-'
        } else {
            is_lower_hex(s[i])
        }
}

/// `s` without its hyphens.
pub open spec fn without_hyphens(s: Seq<char>) -> Seq<char> {
    s.filter(|c: char| c != '-')
}

/// A stored file's id: the 32 lower-case hex digits of a random (version 4)
/// UUID, with the version digit `4` at 12 and a variant digit at 16.
pub open spec fn is_file_id(s: Seq<char>) -> bool {
    &&& s.len() == 32
    &&& forall|i: int| 0 <= i < 32 ==> is_lower_hex(#[trigger] s[i])
    &&& s[12] == '4'
    &&& is_variant_digit(s[16])
}

/// Calls `uuid::Uuid::new_v4` and writes the UUID in its `Display` form.
/// The UUID is random; what holds of every outcome is the text's shape,
/// which the crate's hyphenated lower-hex formatter fixes, and the version
/// and variant digits that `new_v4` sets in every UUID it makes. The call panics
/// only when the operating system's random source fails, which depends on no
/// argument and is left unsaid.
#[verifier::external_body]
fn random_uuid_text() -> (r: String)
    ensures
        is_hyphenated_uuid(r@),
{
    uuid::Uuid::new_v4().to_string()
}

/// A fresh user id: a random UUID in hyphenated text form.
pub fn new_user_id() -> (r: String)
    ensures
        is_hyphenated_uuid(r@),
{
    random_uuid_text()
}

/// Filtering keeps a sequence whole when every element passes.
proof fn lemma_filter_keeps_all(s: Seq<char>)
    requires
        forall|i: int| 0 <= i < s.len() ==> s[i] != '-',
    ensures
        s.filter(|c: char| c != '-') == s,
    decreases s.len(),
{
    reveal_with_fuel(Seq::filter, 1);
    if s.len() > 0 {
        lemma_filter_keeps_all(s.drop_last());
        assert(s.drop_last().push(s.last()) =~= s);
    }
}

/// Dropping the hyphens of a UUID's text leaves 32 lower-case hex digits:
/// the four blocks between the hyphens, joined.
pub proof fn lemma_uuid_without_hyphens(u: Seq<char>)
    requires
        is_hyphenated_uuid(u),
    ensures
        without_hyphens(u) == u.subrange(0, 8) + u.subrange(9, 13) + u.subrange(14, 18)
            + u.subrange(19, 23) + u.subrange(24, 36),
        is_file_id(without_hyphens(u)),
{
    let pred = |c: char| c != '-';
    let b0 = u.subrange(0, 8);
    let b1 = u.subrange(9, 13);
    let b2 = u.subrange(14, 18);
    let b3 = u.subrange(19, 23);
    let b4 = u.subrange(24, 36);
    let h = seq!['-'];
    assert forall|i: int| 0 <= i < 36 && !is_hyphen_position(i) implies #[trigger] u[i] != '-'
        && is_lower_hex(u[i]) by {
        assert(is_lower_hex(u[i]));
    }
    assert(u =~= b0 + h + b1 + h + b2 + h + b3 + h + b4);
    assert forall|i: int| 0 <= i < b0.len() implies b0[i] != '-' by { assert(b0[i] == u[i]); }
    assert forall|i: int| 0 <= i < b1.len() implies b1[i] != '-' by { assert(b1[i] == u[i + 9]); }
    assert forall|i: int| 0 <= i < b2.len() implies b2[i] != '-' by { assert(b2[i] == u[i + 14]); }
    assert forall|i: int| 0 <= i < b3.len() implies b3[i] != '-' by { assert(b3[i] == u[i + 19]); }
    assert forall|i: int| 0 <= i < b4.len() implies b4[i] != '-' by { assert(b4[i] == u[i + 24]); }
    lemma_filter_keeps_all(b0);
    lemma_filter_keeps_all(b1);
    lemma_filter_keeps_all(b2);
    lemma_filter_keeps_all(b3);
    lemma_filter_keeps_all(b4);
    reveal_with_fuel(Seq::filter, 2);
    assert(h.filter(pred) =~= Seq::<char>::empty()) by {
        assert(h.drop_last() =~= Seq::<char>::empty());
    }
    Seq::filter_distributes_over_add(b0, h, pred);
    Seq::filter_distributes_over_add(b0 + h, b1, pred);
    Seq::filter_distributes_over_add(b0 + h + b1, h, pred);
    Seq::filter_distributes_over_add(b0 + h + b1 + h, b2, pred);
    Seq::filter_distributes_over_add(b0 + h + b1 + h + b2, h, pred);
    Seq::filter_distributes_over_add(b0 + h + b1 + h + b2 + h, b3, pred);
    Seq::filter_distributes_over_add(b0 + h + b1 + h + b2 + h + b3, h, pred);
    Seq::filter_distributes_over_add(b0 + h + b1 + h + b2 + h + b3 + h, b4, pred);
    let r = b0 + b1 + b2 + b3 + b4;
    assert(without_hyphens(u) =~= r);
    assert forall|i: int| 0 <= i < 32 implies is_lower_hex(#[trigger] r[i]) by {
        if i < 8 {
            assert(r[i] == u[i]);
        } else if i < 12 {
            assert(r[i] == u[i + 1]);
        } else if i < 16 {
            assert(r[i] == u[i + 2]);
        } else if i < 20 {
            assert(r[i] == u[i + 3]);
        } else {
            assert(r[i] == u[i + 4]);
        }
    }
    assert(r[12] == u[14]);
    assert(r[16] == u[19]);
}

/// A fresh id for a stored file: a random UUID with its hyphens removed.
pub fn new_file_id() -> (r: String)
    ensures
        exists|u: Seq<char>| is_hyphenated_uuid(u) && r@ == without_hyphens(u),
        is_file_id(r@),
{
    let u = random_uuid_text();
    let r = crate::text::remove_char(u.as_str(), '-');
    proof {
        lemma_uuid_without_hyphens(u@);
    }
    r
}

} // verus!
