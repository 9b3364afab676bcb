//! The three identifiers of the Nordic UART Service, and how a discovered
//! identifier is held against them.

use vstd::prelude::*;
use crate::text::chars_of;

verus! {

/// The UART service.
pub const NUS_SERVICE_UUID: &'static str = "6e400001-b5a3-f393-e0a9-e50e24dcca9e";

/// The characteristic the central writes to.
pub const NUS_RX_UUID: &'static str = "6e400002-b5a3-f393-e0a9-e50e24dcca9e";

/// The characteristic the peripheral notifies on.
pub const NUS_TX_UUID: &'static str = "6e400003-b5a3-f393-e0a9-e50e24dcca9e";

/// An ASCII capital letter as its small letter; any other character as itself.
pub open spec fn fold_case(c: char) -> char {
    if 'A' <= c && c <= 'Z' {
        ((c as u8) + 32) as char
    } else {
        c
    }
}

/// Two identifiers are the same when they have the same length and agree
/// character by character once ASCII capitals are read as small letters.
pub open spec fn same_uuid(a: Seq<char>, b: Seq<char>) -> bool {
    &&& a.len() == b.len()
    &&& forall|i: int| 0 <= i < a.len() ==> fold_case(#[trigger] a[i]) == fold_case(b[i])
}

/// A whole identifier with its ASCII capitals read as small letters.
pub open spec fn folded(s: Seq<char>) -> Seq<char> {
    Seq::new(s.len(), |i: int| fold_case(s[i]))
}

/// One character with an ASCII capital read as its small letter.
pub fn lower(c: char) -> (l: char)
    ensures
        l == fold_case(c),
{
    if 'A' <= c && c <= 'Z' {
        ((c as u8) + 32) as char
    } else {
        c
    }
}

/// Holds a discovered identifier against a wanted one: whatever the case
/// of the hexadecimal digits, and with nothing else overlooked.
pub fn uuid_matches(candidate: &str, wanted: &str) -> (same: bool)
    ensures
        same == same_uuid(candidate@, wanted@),
{
    let a = chars_of(candidate);
    let b = chars_of(wanted);
    if a.len() != b.len() {
        return false;
    }
    let mut i: usize = 0;
    while i < a.len()
        invariant
            i <= a.len(),
            a.len() == b.len(),
            a@ == candidate@,
            b@ == wanted@,
            forall|j: int| 0 <= j < i ==> fold_case(#[trigger] a@[j]) == fold_case(b@[j]),
        decreases a.len() - i,
    {
        if lower(a[i]) != lower(b[i]) {
            return false;
        }
        i += 1;
    }
    true
}

/// Whether a discovered service is the UART service.
pub fn is_nus_service(uuid: &str) -> (yes: bool)
    ensures
        yes == same_uuid(uuid@, NUS_SERVICE_UUID@),
{
    uuid_matches(uuid, NUS_SERVICE_UUID)
}

/// Whether a discovered characteristic is the write target.
pub fn is_nus_rx(uuid: &str) -> (yes: bool)
    ensures
        yes == same_uuid(uuid@, NUS_RX_UUID@),
{
    uuid_matches(uuid, NUS_RX_UUID)
}

/// Whether a discovered characteristic is the notify source.
pub fn is_nus_tx(uuid: &str) -> (yes: bool)
    ensures
        yes == same_uuid(uuid@, NUS_TX_UUID@),
{
    uuid_matches(uuid, NUS_TX_UUID)
}

/// Matching is case-insensitive and exact: two identifiers match just when
/// they are equal after ASCII capitals are read as small letters.
pub proof fn lemma_same_uuid_is_folded_equality(a: Seq<char>, b: Seq<char>)
    ensures
        same_uuid(a, b) <==> folded(a) == folded(b),
{
    if same_uuid(a, b) {
        assert(folded(a) =~= folded(b));
    }
    if folded(a) == folded(b) {
        assert(a.len() == folded(a).len());
        assert(b.len() == folded(b).len());
        assert forall|i: int| 0 <= i < a.len() implies fold_case(#[trigger] a[i]) == fold_case(
            b[i],
        ) by {
            assert(folded(a)[i] == fold_case(a[i]));
            assert(folded(b)[i] == fold_case(b[i]));
        }
    }
}

/// Matching is an equivalence: every identifier matches itself, a match
/// holds in both directions, and matches chain.
pub proof fn lemma_same_uuid_equivalence(a: Seq<char>, b: Seq<char>, c: Seq<char>)
    ensures
        same_uuid(a, a),
        same_uuid(a, b) ==> same_uuid(b, a),
        same_uuid(a, b) && same_uuid(b, c) ==> same_uuid(a, c),
{
    lemma_same_uuid_is_folded_equality(a, a);
    lemma_same_uuid_is_folded_equality(a, b);
    lemma_same_uuid_is_folded_equality(b, a);
    lemma_same_uuid_is_folded_equality(b, c);
    lemma_same_uuid_is_folded_equality(a, c);
}

/// An identifier matches its own folded form, and folding twice changes nothing.
pub proof fn lemma_case_is_ignored(a: Seq<char>)
    ensures
        same_uuid(a, folded(a)),
        folded(folded(a)) == folded(a),
{
    assert(folded(folded(a)) =~= folded(a));
    lemma_same_uuid_is_folded_equality(a, folded(a));
}

/// Between identifiers without capitals, only equal ones match.
pub proof fn lemma_match_is_exact(a: Seq<char>, b: Seq<char>)
    requires
        folded(a) == a,
        folded(b) == b,
    ensures
        same_uuid(a, b) <==> a == b,
{
    lemma_same_uuid_is_folded_equality(a, b);
}

/// The three identifiers of the profile are written without capitals and
/// differ from one another, so no discovered identifier matches two of them.
pub proof fn lemma_profile_uuids_distinct(candidate: Seq<char>)
    ensures
        !same_uuid(NUS_SERVICE_UUID@, NUS_RX_UUID@),
        !same_uuid(NUS_SERVICE_UUID@, NUS_TX_UUID@),
        !same_uuid(NUS_RX_UUID@, NUS_TX_UUID@),
        !(same_uuid(candidate, NUS_SERVICE_UUID@) && same_uuid(candidate, NUS_RX_UUID@)),
        !(same_uuid(candidate, NUS_SERVICE_UUID@) && same_uuid(candidate, NUS_TX_UUID@)),
        !(same_uuid(candidate, NUS_RX_UUID@) && same_uuid(candidate, NUS_TX_UUID@)),
{
    reveal_strlit("6e400001-b5a3-f393-e0a9-e50e24dcca9e");
    reveal_strlit("6e400002-b5a3-f393-e0a9-e50e24dcca9e");
    reveal_strlit("6e400003-b5a3-f393-e0a9-e50e24dcca9e");
    let s = NUS_SERVICE_UUID@;
    let r = NUS_RX_UUID@;
    let t = NUS_TX_UUID@;
    assert(s[7] == '1' && r[7] == '2' && t[7] == '3');
    assert(fold_case(s[7]) != fold_case(r[7]));
    assert(fold_case(s[7]) != fold_case(t[7]));
    assert(fold_case(r[7]) != fold_case(t[7]));
    lemma_same_uuid_equivalence(s, candidate, r);
    lemma_same_uuid_equivalence(s, candidate, t);
    lemma_same_uuid_equivalence(r, candidate, t);
    lemma_same_uuid_equivalence(candidate, s, s);
    lemma_same_uuid_equivalence(candidate, r, r);
}

} // verus!
