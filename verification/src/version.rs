//! Release version strings: normalising, reading the numeric parts and
//! deciding whether a release is newer than the running version.
use std::cmp::Ordering;
use vstd::prelude::*;

use crate::text::{
    chars_of, decimal_u64, drop_leading, find2, find2_in, lemma_split_on_nonempty,
    parse_decimal, split_on, split_range, trim, trim_bounds, views,
};

verus! {

/// A version string without surrounding whitespace and without its leading `v`s.
pub open spec fn normalized(s: Seq<char>) -> Seq<char> {
    drop_leading(trim(s), 'v')
}

/// The part of a normalised version before any pre-release (`-`) or build (`+`) suffix.
pub open spec fn version_core(s: Seq<char>) -> Seq<char> {
    let n = normalized(s);
    match find2(n, '-', '+') {
        Some(i) => n.take(i),
        None => n,
    }
}

/// Whether every piece reads as a `u64`.
pub open spec fn all_numbers(parts: Seq<Seq<char>>) -> bool {
    forall|i: int| 0 <= i < parts.len() ==> (#[trigger] decimal_u64(parts[i])) is Some
}

/// The dot-separated numbers of a version, when every part is a `u64`.
pub open spec fn version_numbers(s: Seq<char>) -> Option<Seq<u64>> {
    let parts = split_on(version_core(s), '.');
    if all_numbers(parts) && parts.len() > 0 {
        Some(parts.map_values(|p: Seq<char>| decimal_u64(p).unwrap()))
    } else {
        None
    }
}

/// The three outcomes of comparing two versions.
#[derive(PartialEq, Eq, Structural, Debug, Clone, Copy)]
pub enum VersionOrder {
    Less,
    Equal,
    Greater,
}

/// Lexicographic order of number sequences, a proper prefix coming first
/// (the order of `Vec<u64>`).
pub open spec fn lex_order(a: Seq<u64>, b: Seq<u64>) -> VersionOrder
    decreases a.len(),
{
    if a.len() == 0 && b.len() == 0 {
        VersionOrder::Equal
    } else if a.len() == 0 {
        VersionOrder::Less
    } else if b.len() == 0 {
        VersionOrder::Greater
    } else if a[0] < b[0] {
        VersionOrder::Less
    } else if a[0] > b[0] {
        VersionOrder::Greater
    } else {
        lex_order(a.drop_first(), b.drop_first())
    }
}

/// The opposite outcome.
pub open spec fn flip(o: VersionOrder) -> VersionOrder {
    match o {
        VersionOrder::Less => VersionOrder::Greater,
        VersionOrder::Equal => VersionOrder::Equal,
        VersionOrder::Greater => VersionOrder::Less,
    }
}

/// Bounds of the normalised form of `v` inside `v`.
fn normalized_bounds(v: &Vec<char>) -> (r: (usize, usize))
    ensures
        r.0 <= r.1 <= v.len(),
        v@.subrange(r.0 as int, r.1 as int) == normalized(v@),
{
    let (a, b) = trim_bounds(v);
    let mut k = a;
    while k < b && v[k] == 'v'
        invariant
            a <= k <= b <= v.len(),
            v@.subrange(a as int, b as int) == trim(v@),
            drop_leading(v@.subrange(k as int, b as int), 'v') == normalized(v@),
        decreases b - k,
    {
        assert(v@.subrange(k as int, b as int).drop_first() == v@.subrange(k + 1, b as int));
        k = k + 1;
    }
    (k, b)
}

/// `version` with surrounding whitespace and leading `v`s removed.
pub fn normalize_version(version: &str) -> (r: &str)
    ensures
        r@ == normalized(version@),
{
    let v = chars_of(version);
    let (a, b) = normalized_bounds(&v);
    version.substring_char(a, b)
}

/// The numbers of `v[from..to]` split at dots, or `None` when a piece is not a `u64`.
fn numbers_of_pieces(pieces: &Vec<Vec<char>>) -> (r: Option<Vec<u64>>)
    ensures
        r matches Some(n) ==> all_numbers(views(pieces@)) && n@ == views(pieces@).map_values(
            |p: Seq<char>| decimal_u64(p).unwrap(),
        ),
        r is None ==> !all_numbers(views(pieces@)),
{
    let ghost ps = views(pieces@);
    let mut out: Vec<u64> = Vec::new();
    for j in 0..pieces.len()
        invariant
            ps == views(pieces@),
            ps.len() == pieces.len(),
            out@.len() == j,
            forall|i: int| 0 <= i < j ==> (#[trigger] decimal_u64(ps[i])) == Some(out@[i]),
    {
        let piece = &pieces[j];
        assert(ps[j as int] == piece@);
        assert(piece@.subrange(0, piece.len() as int) == piece@);
        match parse_decimal(piece, 0, piece.len()) {
            Some(n) => {
                out.push(n);
            },
            None => {
                assert(decimal_u64(ps[j as int]) is None);
                return None;
            },
        }
    }
    assert(out@ =~= ps.map_values(|p: Seq<char>| decimal_u64(p).unwrap()));
    Some(out)
}

/// The dot-separated numbers of a version, ignoring surrounding whitespace,
/// leading `v`s and any `-`/`+` suffix.
pub fn parse_version(version: &str) -> (r: Option<Vec<u64>>)
    ensures
        match r {
            Some(n) => version_numbers(version@) == Some(n@),
            None => version_numbers(version@) is None,
        },
{
    let v = chars_of(version);
    let (a, b) = normalized_bounds(&v);
    let ghost n = v@.subrange(a as int, b as int);
    let e = match find2_in(&v, a, b, '-', '+') {
        Some(k) => a + k,
        None => b,
    };
    assert(v@.subrange(a as int, e as int) == version_core(version@));
    let pieces = split_range(&v, a, e, '.');
    proof {
        lemma_split_on_nonempty(version_core(version@), '.');
    }
    match numbers_of_pieces(&pieces) {
        Some(nums) => {
            if nums.len() == 0 {
                None
            } else {
                Some(nums)
            }
        },
        None => None,
    }
}

/// Lexicographic comparison of two number vectors.
pub fn order_numbers(a: &Vec<u64>, b: &Vec<u64>) -> (r: VersionOrder)
    ensures
        r == lex_order(a@, b@),
{
    let mut i: usize = 0;
    assert(a@.skip(0) == a@);
    assert(b@.skip(0) == b@);
    while i < a.len() && i < b.len() && a[i] == b[i]
        invariant
            i <= a.len(),
            i <= b.len(),
            lex_order(a@, b@) == lex_order(a@.skip(i as int), b@.skip(i as int)),
        decreases a.len() - i,
    {
        assert(a@.skip(i as int).drop_first() == a@.skip(i + 1));
        assert(b@.skip(i as int).drop_first() == b@.skip(i + 1));
        i = i + 1;
    }
    if i == a.len() && i == b.len() {
        VersionOrder::Equal
    } else if i == a.len() {
        VersionOrder::Less
    } else if i == b.len() {
        VersionOrder::Greater
    } else if a[i] < b[i] {
        VersionOrder::Less
    } else {
        VersionOrder::Greater
    }
}


/// The standard ordering that an outcome stands for.
pub open spec fn ordering_of(o: VersionOrder) -> Ordering {
    match o {
        VersionOrder::Less => Ordering::Less,
        VersionOrder::Equal => Ordering::Equal,
        VersionOrder::Greater => Ordering::Greater,
    }
}

/// How `left` compares with `right` as versions, when both read as versions.
pub open spec fn version_ordering(left: Seq<char>, right: Seq<char>) -> Option<Ordering> {
    match (version_numbers(left), version_numbers(right)) {
        (Some(a), Some(b)) => Some(ordering_of(lex_order(a, b))),
        _ => None,
    }
}

/// Whether the release `latest` should replace the running `current`: it is a
/// newer version, or, when either does not read as a version, it differs after
/// normalising.
pub open spec fn update_wanted(current: Seq<char>, latest: Seq<char>) -> bool {
    match version_ordering(latest, current) {
        Some(Ordering::Greater) => true,
        Some(_) => false,
        None => normalized(latest) != normalized(current),
    }
}

/// Compares two versions by their numeric parts.
pub fn compare_versions(left: &str, right: &str) -> (r: Option<Ordering>)
    ensures
        r == version_ordering(left@, right@),
{
    let l = match parse_version(left) {
        Some(l) => l,
        None => {
            return None;
        },
    };
    let r = match parse_version(right) {
        Some(r) => r,
        None => {
            return None;
        },
    };
    match order_numbers(&l, &r) {
        VersionOrder::Less => Some(Ordering::Less),
        VersionOrder::Equal => Some(Ordering::Equal),
        VersionOrder::Greater => Some(Ordering::Greater),
    }
}

/// Whether the release tagged `latest_tag` should replace `current_version`.
pub fn should_update(current_version: &str, latest_tag: &str) -> (b: bool)
    ensures
        b == update_wanted(current_version@, latest_tag@),
{
    match compare_versions(latest_tag, current_version) {
        Some(Ordering::Greater) => true,
        Some(_) => false,
        None => {
            let latest = normalize_version(latest_tag).to_owned();
            let current = normalize_version(current_version).to_owned();
            !(latest == current)
        },
    }
}

proof fn lemma_lex_flip(a: Seq<u64>, b: Seq<u64>)
    ensures
        lex_order(b, a) == flip(lex_order(a, b)),
    decreases a.len(),
{
    if a.len() > 0 && b.len() > 0 && a[0] == b[0] {
        lemma_lex_flip(a.drop_first(), b.drop_first());
    }
}

proof fn lemma_lex_equal(a: Seq<u64>, b: Seq<u64>)
    ensures
        lex_order(a, b) == VersionOrder::Equal <==> a == b,
    decreases a.len(),
{
    if a.len() == 0 && b.len() == 0 {
        assert(a =~= b);
    } else if a.len() == 0 || b.len() == 0 {
        assert(a.len() != b.len());
    } else {
        lemma_lex_equal(a.drop_first(), b.drop_first());
        if a.drop_first() == b.drop_first() && a[0] == b[0] {
            assert(a =~= b) by {
                assert forall|i: int| 0 <= i < a.len() implies a[i] == b[i] by {
                    if i > 0 {
                        assert(a[i] == a.drop_first()[i - 1]);
                        assert(b[i] == b.drop_first()[i - 1]);
                    }
                }
            }
        }
        if a == b {
            assert(a.drop_first() == b.drop_first());
        }
    }
}

proof fn lemma_lex_transitive(a: Seq<u64>, b: Seq<u64>, c: Seq<u64>)
    requires
        lex_order(a, b) == VersionOrder::Less,
        lex_order(b, c) == VersionOrder::Less,
    ensures
        lex_order(a, c) == VersionOrder::Less,
    decreases a.len(),
{
    if a.len() > 0 && b.len() > 0 && c.len() > 0 && a[0] == b[0] && b[0] == c[0] {
        lemma_lex_transitive(a.drop_first(), b.drop_first(), c.drop_first());
    }
}

/// Swapping the two versions swaps the outcome of `compare_versions`.
pub proof fn law_compare_versions_antisymmetric(left: Seq<char>, right: Seq<char>)
    ensures
        version_ordering(right, left) == match version_ordering(left, right) {
            Some(Ordering::Less) => Some(Ordering::Greater),
            Some(Ordering::Greater) => Some(Ordering::Less),
            other => other,
        },
{
    if let (Some(a), Some(b)) = (version_numbers(left), version_numbers(right)) {
        lemma_lex_flip(a, b);
    }
}

/// A version that reads as one compares equal to itself, and only to versions
/// with the same numbers.
pub proof fn law_compare_versions_equal(left: Seq<char>, right: Seq<char>)
    requires
        version_numbers(left) is Some,
        version_numbers(right) is Some,
    ensures
        version_ordering(left, right) == Some(Ordering::Equal) <==> version_numbers(left)
            == version_numbers(right),
{
    lemma_lex_equal(version_numbers(left).unwrap(), version_numbers(right).unwrap());
}

/// No version is ever an update of itself.
pub proof fn law_no_update_to_same_version(version: Seq<char>)
    ensures
        !update_wanted(version, version),
{
    if let Some(a) = version_numbers(version) {
        lemma_lex_equal(a, a);
    }
}

/// Between two readable versions at most one direction is an update.
pub proof fn law_update_is_asymmetric(a: Seq<char>, b: Seq<char>)
    requires
        version_numbers(a) is Some,
        version_numbers(b) is Some,
    ensures
        update_wanted(a, b) ==> !update_wanted(b, a),
{
    lemma_lex_flip(version_numbers(a).unwrap(), version_numbers(b).unwrap());
}

/// Between readable versions, updates chain: if `b` updates `a` and `c`
/// updates `b`, then `c` updates `a`.
pub proof fn law_update_is_transitive(a: Seq<char>, b: Seq<char>, c: Seq<char>)
    requires
        version_numbers(a) is Some,
        version_numbers(b) is Some,
        version_numbers(c) is Some,
        update_wanted(a, b),
        update_wanted(b, c),
    ensures
        update_wanted(a, c),
{
    let (na, nb, nc) = (
        version_numbers(a).unwrap(),
        version_numbers(b).unwrap(),
        version_numbers(c).unwrap(),
    );
    lemma_lex_flip(na, nb);
    lemma_lex_flip(nb, nc);
    lemma_lex_flip(na, nc);
    lemma_lex_transitive(na, nb, nc);
}

/// Number sequences are ordered by their first difference: where `a` and `b`
/// agree on their first `k` numbers and differ at the next, the larger number
/// there decides the order, whatever the two lengths.
pub proof fn law_first_difference_decides(a: Seq<u64>, b: Seq<u64>, k: int)
    requires
        0 <= k < a.len(),
        k < b.len(),
        a.take(k) == b.take(k),
    ensures
        a[k] > b[k] ==> lex_order(a, b) == VersionOrder::Greater,
        a[k] < b[k] ==> lex_order(a, b) == VersionOrder::Less,
    decreases k,
{
    if k > 0 {
        assert(a[0] == a.take(k)[0]);
        assert(b[0] == b.take(k)[0]);
        assert(a.drop_first().take(k - 1) =~= b.drop_first().take(k - 1)) by {
            assert forall|i: int| 0 <= i < k - 1 implies #[trigger] a.drop_first().take(k - 1)[i]
                == b.drop_first().take(k - 1)[i] by {
                assert(a.take(k)[i + 1] == a[i + 1]);
                assert(b.take(k)[i + 1] == b[i + 1]);
            }
        }
        law_first_difference_decides(a.drop_first(), b.drop_first(), k - 1);
    }
}

/// A sequence that is a proper prefix of another comes before it.
pub proof fn law_proper_prefix_comes_first(a: Seq<u64>, b: Seq<u64>)
    requires
        a.len() < b.len(),
        b.take(a.len() as int) == a,
    ensures
        lex_order(a, b) == VersionOrder::Less,
    decreases a.len(),
{
    if a.len() > 0 {
        assert(b.take(a.len() as int)[0] == b[0]);
        assert(b.drop_first().take(a.len() - 1) =~= a.drop_first()) by {
            assert forall|i: int| 0 <= i < a.len() - 1 implies #[trigger] b.drop_first().take(
                a.len() - 1,
            )[i] == a.drop_first()[i] by {
                assert(b.take(a.len() as int)[i + 1] == b[i + 1]);
            }
        }
        law_proper_prefix_comes_first(a.drop_first(), b.drop_first());
    }
}

} // verus!
