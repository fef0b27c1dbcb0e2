//! The `state` value of a share link: taken from a full URL, from a bare
//! query string, or given directly.
use vstd::prelude::*;
use vstd::string::StringExecFns;

use crate::text::{
    chars_of, copy_range, find2_in, find_char, opt_view, split_on, split_range,
    starts_with_at, string_of, trim, trim_bounds, views,
};
use crate::text::{is_white, trim_end, trim_start};

verus! {

broadcast use vstd::string::group_string_axioms;

/// Why no state value could be taken from the input.
#[derive(Debug, PartialEq, Eq, Structural)]
pub enum LinkStateError {
    /// The input is empty, or is a URL without a `state` query parameter.
    MissingState,
}

/// The decoded query pairs of `input` read as an absolute URL (`url::Url::parse`
/// followed by `Url::query_pairs`), or `None` when it is not one.
pub uninterp spec fn url_query_pairs(input: Seq<char>) -> Option<Seq<(Seq<char>, Seq<char>)>>;

/// The views of a vector of string pairs.
pub open spec fn pair_views(v: Seq<(String, String)>) -> Seq<(Seq<char>, Seq<char>)> {
    v.map_values(|p: (String, String)| (p.0@, p.1@))
}

/// Whether `c` belongs to the alphabet of share states (base64url: ASCII letters,
/// digits, `-` and `_`).
pub open spec fn is_state_char(c: char) -> bool {
    let u = c as u32;
    ||| 65 <= u <= 90
    ||| 97 <= u <= 122
    ||| 48 <= u <= 57
    ||| u == 45
    ||| u == 95
}

/// The prefix of the editor's share links.
pub open spec fn share_link_prefix() -> Seq<char> {
    "https://manabeai.github.io/cp-ast-ecosystems/?state="@
}

/// The state of an editor share link: the share-link prefix followed by
/// characters of the share-state alphabet only.
pub open spec fn share_link_state(t: Seq<char>) -> Option<Seq<char>> {
    let p = share_link_prefix();
    if t.len() >= p.len() && t.take(p.len() as int) == p && (forall|i: int|
        p.len() <= i < t.len() ==> is_state_char(#[trigger] t[i])) {
        Some(t.skip(p.len() as int))
    } else {
        None
    }
}

/// For an editor share link, `pairs` is the single pair `state` = its state.
pub open spec fn share_link_pairs(t: Seq<char>, pairs: Seq<(Seq<char>, Seq<char>)>) -> bool {
    share_link_state(t) matches Some(st) ==> pairs == seq![("state"@, st)]
}

/// Parses `input` with `url::Url::parse` and collects `Url::query_pairs` as owned
/// strings. Claimed: the outcome depends on `input` alone; text without a `:` is
/// never an absolute URL (the URL parser needs a scheme ended by `:`); and an
/// editor share link whose state uses only base64url characters parses, with the
/// single pair `state` = that state (such characters are neither separators nor
/// escapes in a query).
#[verifier::external_body]
fn parse_url_query_pairs(input: &str) -> (r: Option<Vec<(String, String)>>)
    ensures
        r is Some <==> url_query_pairs(input@) is Some,
        r matches Some(v) ==> url_query_pairs(input@) == Some(pair_views(v@)),
        !input@.contains(':') ==> r is None,
        share_link_state(input@) is Some ==> r is Some,
        r matches Some(v) ==> share_link_pairs(input@, pair_views(v@)),
{
    url::Url::parse(input).ok().map(|u| u.query_pairs().into_owned().collect())
}

/// The query pairs of `t` when it reads as a URL: the single `state` pair of an
/// editor share link; otherwise what the URL parser gives, and text without a
/// `:` is never a URL.
pub open spec fn url_pairs_of(t: Seq<char>) -> Option<Seq<(Seq<char>, Seq<char>)>> {
    match share_link_state(t) {
        Some(st) => Some(seq![("state"@, st)]),
        None => if t.contains(':') {
            url_query_pairs(t)
        } else {
            None
        },
    }
}

/// The value of the first pair whose key is `key`.
pub open spec fn first_value(pairs: Seq<(Seq<char>, Seq<char>)>, key: Seq<char>) -> Option<
    Seq<char>,
>
    decreases pairs.len(),
{
    if pairs.len() == 0 {
        None
    } else if pairs[0].0 == key {
        Some(pairs[0].1)
    } else {
        first_value(pairs.drop_first(), key)
    }
}

/// `p` split at its first `c` (what `str::split_once` with a character gives).
pub open spec fn split_once(p: Seq<char>, c: char) -> Option<(Seq<char>, Seq<char>)> {
    match find_char(p, c) {
        Some(i) => Some((p.take(i), p.skip(i + 1))),
        None => None,
    }
}

/// The raw value of the first `key=value` piece with the given key; pieces
/// without `=` are passed over.
pub open spec fn raw_query_value(pieces: Seq<Seq<char>>, key: Seq<char>) -> Option<Seq<char>>
    decreases pieces.len(),
{
    if pieces.len() == 0 {
        None
    } else {
        match split_once(pieces[0], '=') {
            Some((k, v)) => if k == key {
                Some(v)
            } else {
                raw_query_value(pieces.drop_first(), key)
            },
            None => raw_query_value(pieces.drop_first(), key),
        }
    }
}

/// The state value that `input` carries: `None` when it is empty or is a URL
/// without a `state` parameter; the decoded parameter of a URL; the raw `state`
/// piece of a query after `?`; otherwise the trimmed input itself.
pub open spec fn state_of(input: Seq<char>) -> Option<Seq<char>> {
    let t = trim(input);
    if t.len() == 0 {
        None
    } else {
        match url_pairs_of(t) {
            Some(pairs) => first_value(pairs, "state"@),
            None => match find_char(t, '?') {
                Some(i) => match raw_query_value(split_on(t.skip(i + 1), '&'), "state"@) {
                    Some(v) => Some(v),
                    None => Some(t),
                },
                None => Some(t),
            },
        }
    }
}

/// Whether `v[from..to]` is exactly `p`.
fn chars_equal(v: &Vec<char>, from: usize, to: usize, p: &Vec<char>) -> (b: bool)
    requires
        from <= to <= v.len(),
    ensures
        b == (v@.subrange(from as int, to as int) == p@),
{
    if to - from != p.len() {
        return false;
    }
    starts_with_at(v, from, to, p)
}

/// The first pair with key `state`.
fn find_state_pair(pairs: &Vec<(String, String)>) -> (r: Option<String>)
    ensures
        opt_view(r) == first_value(pair_views(pairs@), "state"@),
{
    let key = String::from_str("state");
    let ghost ps = pair_views(pairs@);
    let mut i: usize = 0;
    assert(ps.skip(0) == ps);
    while i < pairs.len()
        invariant
            i <= pairs.len(),
            ps == pair_views(pairs@),
            ps.len() == pairs.len(),
            key@ == "state"@,
            first_value(ps, "state"@) == first_value(ps.skip(i as int), "state"@),
        decreases pairs.len() - i,
    {
        assert(ps.skip(i as int)[0] == (pairs@[i as int].0@, pairs@[i as int].1@));
        assert(ps.skip(i as int).drop_first() == ps.skip(i + 1));
        if pairs[i].0 == key {
            return Some(pairs[i].1.clone());
        }
        i = i + 1;
    }
    None
}

/// The raw value of the first `state=...` piece among `pieces`.
fn find_state_piece(pieces: &Vec<Vec<char>>) -> (r: Option<Vec<char>>)
    ensures
        match r {
            Some(v) => raw_query_value(views(pieces@), "state"@) == Some(v@),
            None => raw_query_value(views(pieces@), "state"@) is None,
        },
{
    let key = chars_of("state");
    let ghost ps = views(pieces@);
    let mut i: usize = 0;
    assert(ps.skip(0) == ps);
    while i < pieces.len()
        invariant
            i <= pieces.len(),
            ps == views(pieces@),
            ps.len() == pieces.len(),
            key@ == "state"@,
            raw_query_value(ps, "state"@) == raw_query_value(ps.skip(i as int), "state"@),
        decreases pieces.len() - i,
    {
        let piece = &pieces[i];
        assert(ps.skip(i as int)[0] == piece@);
        assert(ps.skip(i as int).drop_first() == ps.skip(i + 1));
        assert(piece@.subrange(0, piece.len() as int) == piece@);
        match find2_in(piece, 0, piece.len(), '=', '=') {
            Some(k) => {
                if chars_equal(piece, 0, k, &key) {
                    let value = copy_range(piece, k + 1, piece.len());
                    assert(piece@.take(k as int) == piece@.subrange(0, k as int));
                    assert(piece@.skip(k + 1) == piece@.subrange(k + 1, piece.len() as int));
                    return Some(value);
                }
                assert(piece@.take(k as int) == piece@.subrange(0, k as int));
            },
            None => {},
        }
        i = i + 1;
    }
    None
}

/// The `state` value of a share link, a query string or a bare state value.
pub fn extract_state(input: &str) -> (r: Result<String, LinkStateError>)
    ensures
        match state_of(input@) {
            Some(s) => r matches Ok(x) && x@ == s,
            None => r == Err::<String, LinkStateError>(LinkStateError::MissingState),
        },
{
    let v = chars_of(input);
    let (a, b) = trim_bounds(&v);
    let ghost t = trim(input@);
    if a == b {
        return Err(LinkStateError::MissingState);
    }
    let trimmed = string_of(&copy_range(&v, a, b));
    match parse_url_query_pairs(trimmed.as_str()) {
        Some(pairs) => {
            assert(Some(pair_views(pairs@)) == url_pairs_of(t));
            return match find_state_pair(&pairs) {
                Some(s) => Ok(s),
                None => Err(LinkStateError::MissingState),
            };
        },
        None => {},
    }
    assert(share_link_state(t) is None);
    assert(url_pairs_of(t) is None);
    match find2_in(&v, a, b, '?', '?') {
        Some(q) => {
            let start = a + q + 1;
            let pieces = split_range(&v, start, b, '&');
            assert(t.skip(q + 1) == v@.subrange(start as int, b as int));
            match find_state_piece(&pieces) {
                Some(value) => {
                    return Ok(string_of(&value));
                },
                None => {},
            }
        },
        None => {},
    }
    Ok(trimmed)
}

/// A value with no `:` and no `?` is taken as the state itself, trimmed.
pub proof fn law_plain_value_is_its_own_state(input: Seq<char>)
    requires
        trim(input).len() > 0,
        !trim(input).contains(':'),
        !trim(input).contains('?'),
    ensures
        state_of(input) == Some(trim(input)),
{
    let t = trim(input);
    let p = share_link_prefix();
    reveal_strlit("https://manabeai.github.io/cp-ast-ecosystems/?state=");
    if t.len() >= p.len() && t.take(p.len() as int) == p {
        assert(p[5] == ':');
        assert(t.take(p.len() as int)[5] == t[5]);
        assert(t.contains(':'));
    }
    crate::text::lemma_find2(trim(input), '?', '?');
    if let Some(i) = find_char(trim(input), '?') {
        assert(trim(input)[i] == '?');
    }
}

proof fn lemma_state_chars_not_white(c: char)
    requires
        is_state_char(c),
    ensures
        !is_white(c),
        c != ':',
        c != '?',
{
}

proof fn lemma_trim_unchanged(s: Seq<char>)
    requires
        s.len() > 0,
        !is_white(s[0]),
        !is_white(s.last()),
    ensures
        trim(s) == s,
{
    assert(trim_start(s) == s);
}

/// A share-state value, given bare, with a space on each side, or inside the
/// editor's share link, is the state that the input carries.
pub proof fn law_share_link_and_bare_state_agree(v: Seq<char>)
    requires
        v.len() > 0,
        forall|i: int| 0 <= i < v.len() ==> is_state_char(#[trigger] v[i]),
    ensures
        state_of(v) == Some(v),
        state_of(seq![' '] + v + seq![' ']) == Some(v),
        state_of(share_link_prefix() + v) == Some(v),
{
    reveal_strlit("https://manabeai.github.io/cp-ast-ecosystems/?state=");
    reveal_strlit("state");
    lemma_state_chars_not_white(v[0]);
    lemma_state_chars_not_white(v.last());
    lemma_trim_unchanged(v);
    assert(!v.contains(':')) by {
        if v.contains(':') {
            let i = choose|i: int| 0 <= i < v.len() && v[i] == ':';
            lemma_state_chars_not_white(v[i]);
        }
    }
    assert(!v.contains('?')) by {
        if v.contains('?') {
            let i = choose|i: int| 0 <= i < v.len() && v[i] == '?';
            lemma_state_chars_not_white(v[i]);
        }
    }
    law_plain_value_is_its_own_state(v);
    let padded = seq![' '] + v + seq![' '];
    assert(is_white(' '));
    assert(padded.drop_first() == v + seq![' ']);
    assert(trim_start(v + seq![' ']) == v + seq![' ']);
    assert(trim_start(padded) == v + seq![' ']);
    assert((v + seq![' ']).drop_last() == v);
    assert(trim_end(v) == v);
    assert(trim(padded) == v);
    law_plain_value_is_its_own_state(padded);
    let p = share_link_prefix();
    let link = p + v;
    assert(link[0] == 'h');
    assert(link.last() == v.last());
    lemma_trim_unchanged(link);
    assert(link.take(p.len() as int) == p);
    assert(link.skip(p.len() as int) == v);
    assert forall|i: int| p.len() <= i < link.len() implies is_state_char(#[trigger] link[i]) by {
        assert(link[i] == v[i - p.len()]);
    }
    assert(share_link_state(link) == Some(v));
}

/// Whenever the trimmed input reads as an absolute URL (it has the `:` that ends
/// a scheme) and is not an editor share link whose state is plain base64url, its
/// state is the value of the first `state` pair that the URL parser decodes from
/// it; with no such pair there is none.
pub proof fn law_url_state_is_first_decoded_pair(input: Seq<char>)
    requires
        trim(input).len() > 0,
        trim(input).contains(':'),
        url_query_pairs(trim(input)) is Some,
        share_link_state(trim(input)) is None,
    ensures
        state_of(input) == first_value(url_query_pairs(trim(input)).unwrap(), "state"@),
{
}

/// An editor share link is taken verbatim only when its state follows the
/// share-link prefix and holds none of the characters that a URL query decodes or
/// splits on (`%`, `+`, `&`, `=`, `#`).
pub proof fn law_verbatim_state_needs_no_decoding(t: Seq<char>)
    requires
        share_link_state(t) is Some,
    ensures
        t == share_link_prefix() + share_link_state(t).unwrap(),
        !share_link_state(t).unwrap().contains('%'),
        !share_link_state(t).unwrap().contains('+'),
        !share_link_state(t).unwrap().contains('&'),
        !share_link_state(t).unwrap().contains('='),
        !share_link_state(t).unwrap().contains('#'),
{
    let p = share_link_prefix();
    let st = share_link_state(t).unwrap();
    assert(t =~= p + st) by {
        assert(t.take(p.len() as int) == p);
        assert forall|i: int| 0 <= i < t.len() implies t[i] == (p + st)[i] by {
            if i < p.len() {
                assert(t.take(p.len() as int)[i] == t[i]);
            }
        }
    }
    assert forall|c: char| #[trigger] st.contains(c) implies is_state_char(c) by {
        let i = choose|i: int| 0 <= i < st.len() && st[i] == c;
        assert(t[i + p.len()] == st[i]);
    }
}

} // verus!
