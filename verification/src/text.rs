//! Character-level helpers: viewing strings as character sequences,
//! building strings back, trimming whitespace, splitting on a separator
//! and decimal numbers.
use vstd::prelude::*;

verus! {

broadcast use vstd::string::group_string_axioms;

/// Whether `c` has the Unicode `White_Space` property (what `char::is_whitespace` tests).
pub open spec fn is_white(c: char) -> bool {
    let u = c as u32;
    ||| 0x9 <= u <= 0xD
    ||| u == 0x20
    ||| u == 0x85
    ||| u == 0xA0
    ||| u == 0x1680
    ||| 0x2000 <= u <= 0x200A
    ||| u == 0x2028
    ||| u == 0x2029
    ||| u == 0x202F
    ||| u == 0x205F
    ||| u == 0x3000
}

pub fn is_white_char(c: char) -> (b: bool)
    ensures
        b == is_white(c),
{
    let u: u32 = c as u32;
    (0x9 <= u && u <= 0xD) || u == 0x20 || u == 0x85 || u == 0xA0 || u == 0x1680 || (0x2000
        <= u && u <= 0x200A) || u == 0x2028 || u == 0x2029 || u == 0x202F || u == 0x205F || u
        == 0x3000
}

/// The view of an optional string.
pub open spec fn opt_view(o: Option<String>) -> Option<Seq<char>> {
    match o {
        Some(s) => Some(s@),
        None => None,
    }
}

/// The characters of a string, in order.
pub fn chars_of(s: &str) -> (v: Vec<char>)
    ensures
        v@ == s@,
{
    let mut v: Vec<char> = Vec::new();
    for c in it: s.chars()
        invariant
            it.seq() == s@,
            v@ == it.seq().take(it.index() as int),
    {
        v.push(c);
    }
    v
}


/// Appends one character to a string (`String::push`).
#[verifier::external_body]
pub fn push_char(s: &mut String, c: char)
    ensures
        final(s)@ == old(s)@.push(c),
{
    s.push(c);
}

/// The string whose characters are `v`.
pub fn string_of(v: &Vec<char>) -> (s: String)
    ensures
        s@ == v@,
{
    let mut s = String::new();
    for i in 0..v.len()
        invariant
            s@ == v@.take(i as int),
    {
        push_char(&mut s, v[i]);
        assert(v@.take(i + 1) == v@.take(i as int).push(v@[i as int]));
    }
    assert(v@.take(v.len() as int) == v@);
    s
}

/// A copy of `v[from..to]`.
pub fn copy_range(v: &Vec<char>, from: usize, to: usize) -> (r: Vec<char>)
    requires
        from <= to <= v.len(),
    ensures
        r@ == v@.subrange(from as int, to as int),
{
    let mut r: Vec<char> = Vec::new();
    let mut i = from;
    while i < to
        invariant
            from <= i <= to <= v.len(),
            r@ == v@.subrange(from as int, i as int),
        decreases to - i,
    {
        r.push(v[i]);
        i = i + 1;
        assert(v@.subrange(from as int, i as int) == v@.subrange(from as int, (i - 1) as int).push(v@[i - 1]));
    }
    r
}

/// `s` with its leading whitespace removed.
pub open spec fn trim_start(s: Seq<char>) -> Seq<char>
    decreases s.len(),
{
    if s.len() > 0 && is_white(s[0]) {
        trim_start(s.drop_first())
    } else {
        s
    }
}

/// `s` with its trailing whitespace removed.
pub open spec fn trim_end(s: Seq<char>) -> Seq<char>
    decreases s.len(),
{
    if s.len() > 0 && is_white(s.last()) {
        trim_end(s.drop_last())
    } else {
        s
    }
}

/// `s` with whitespace removed at both ends (what `str::trim` gives).
pub open spec fn trim(s: Seq<char>) -> Seq<char> {
    trim_end(trim_start(s))
}

/// `s` with every leading `c` removed (`trim_start_matches` with a character).
pub open spec fn drop_leading(s: Seq<char>, c: char) -> Seq<char>
    decreases s.len(),
{
    if s.len() > 0 && s[0] == c {
        drop_leading(s.drop_first(), c)
    } else {
        s
    }
}

/// `s` with every trailing `c` removed (`trim_end_matches` with a character).
pub open spec fn drop_trailing(s: Seq<char>, c: char) -> Seq<char>
    decreases s.len(),
{
    if s.len() > 0 && s.last() == c {
        drop_trailing(s.drop_last(), c)
    } else {
        s
    }
}

/// The index just past the leading run of characters of `s` that are whitespace,
/// looking at `s[from..to]`.
pub open spec fn lead_white(s: Seq<char>, from: int, to: int) -> int
    decreases to - from,
{
    if from < to && is_white(s[from]) {
        lead_white(s, from + 1, to)
    } else {
        from
    }
}

/// The index where the trailing run of characters of `s[from..to]` that are whitespace starts.
pub open spec fn trail_white(s: Seq<char>, from: int, to: int) -> int
    decreases to - from,
{
    if from < to && is_white(s[to - 1]) {
        trail_white(s, from, to - 1)
    } else {
        to
    }
}

pub proof fn lemma_trim_start_index(s: Seq<char>, from: int)
    requires
        0 <= from <= s.len(),
    ensures
        from <= lead_white(s, from, s.len() as int) <= s.len(),
        trim_start(s.skip(from)) == s.skip(lead_white(s, from, s.len() as int)),
    decreases s.len() - from,
{
    if from < s.len() && is_white(s[from]) {
        lemma_trim_start_index(s, from + 1);
        assert(s.skip(from).drop_first() == s.skip(from + 1));
    }
}

pub proof fn lemma_trim_end_index(s: Seq<char>, from: int, to: int)
    requires
        0 <= from <= to <= s.len(),
    ensures
        from <= trail_white(s, from, to) <= to,
        trim_end(s.subrange(from, to)) == s.subrange(from, trail_white(s, from, to)),
    decreases to - from,
{
    if from < to && is_white(s[to - 1]) {
        lemma_trim_end_index(s, from, to - 1);
        assert(s.subrange(from, to).drop_last() == s.subrange(from, to - 1));
    }
}

/// Where the leading whitespace of `v[from..to]` ends.
pub fn skip_white(v: &Vec<char>, from: usize, to: usize) -> (i: usize)
    requires
        from <= to <= v.len(),
    ensures
        i == lead_white(v@, from as int, to as int),
        from <= i <= to,
{
    let mut i = from;
    while i < to && is_white_char(v[i])
        invariant
            from <= i <= to <= v.len(),
            lead_white(v@, from as int, to as int) == lead_white(v@, i as int, to as int),
        decreases to - i,
    {
        i = i + 1;
    }
    i
}

/// Where the trailing whitespace of `v[from..to]` starts.
pub fn back_white(v: &Vec<char>, from: usize, to: usize) -> (j: usize)
    requires
        from <= to <= v.len(),
    ensures
        j == trail_white(v@, from as int, to as int),
        from <= j <= to,
{
    let mut j = to;
    while j > from && is_white_char(v[j - 1])
        invariant
            from <= j <= to <= v.len(),
            trail_white(v@, from as int, to as int) == trail_white(v@, from as int, j as int),
        decreases j - from,
    {
        j = j - 1;
    }
    j
}

/// The bounds `(a, b)` of `trim(v)` inside `v`.
pub fn trim_bounds(v: &Vec<char>) -> (r: (usize, usize))
    ensures
        r.0 <= r.1 <= v.len(),
        v@.subrange(r.0 as int, r.1 as int) == trim(v@),
{
    let a = skip_white(v, 0, v.len());
    let b = back_white(v, a, v.len());
    proof {
        lemma_trim_start_index(v@, 0);
        assert(v@.skip(0) == v@);
        assert(v@.skip(a as int) == v@.subrange(a as int, v.len() as int));
        lemma_trim_end_index(v@, a as int, v.len() as int);
    }
    (a, b)
}


/// Whether `c` is an ASCII decimal digit.
pub open spec fn is_digit(c: char) -> bool {
    48 <= (c as u32) <= 57
}

/// The value of the decimal digit `c`.
pub open spec fn digit_of(c: char) -> nat {
    ((c as u32) - 48) as nat
}

pub open spec fn all_digits(s: Seq<char>) -> bool {
    forall|i: int| 0 <= i < s.len() ==> is_digit(#[trigger] s[i])
}

/// The number that the decimal digits `s` spell.
pub open spec fn digits_value(s: Seq<char>) -> nat
    decreases s.len(),
{
    if s.len() == 0 {
        0
    } else {
        digits_value(s.drop_last()) * 10 + digit_of(s.last())
    }
}

/// The digits of an unsigned number as `str::parse` reads them: one leading `+` is allowed.
pub open spec fn unsigned_digits(s: Seq<char>) -> Seq<char> {
    if s.len() > 1 && s[0] == '+' {
        s.drop_first()
    } else {
        s
    }
}

/// What `s.parse::<u64>()` gives: a non-empty run of decimal digits, after one optional `+`,
/// whose value fits in a `u64`.
pub open spec fn decimal_u64(s: Seq<char>) -> Option<u64> {
    let d = unsigned_digits(s);
    if d.len() > 0 && all_digits(d) && digits_value(d) <= u64::MAX {
        Some(digits_value(d) as u64)
    } else {
        None
    }
}

pub proof fn lemma_digits_value_prefix(s: Seq<char>, k: int)
    requires
        0 <= k <= s.len(),
        all_digits(s),
    ensures
        digits_value(s.take(k)) <= digits_value(s),
    decreases s.len() - k,
{
    if k < s.len() {
        lemma_digits_value_prefix(s, k + 1);
        assert(s.take(k + 1).drop_last() == s.take(k));
    }
    assert(s.take(s.len() as int) == s);
}

/// Reads the decimal number `v[from..to]` as `str::parse::<u64>` does.
pub fn parse_decimal(v: &Vec<char>, from: usize, to: usize) -> (r: Option<u64>)
    requires
        from <= to <= v.len(),
    ensures
        r == decimal_u64(v@.subrange(from as int, to as int)),
{
    let ghost s = v@.subrange(from as int, to as int);
    let start = if to - from > 1 && v[from] == '+' {
        from + 1
    } else {
        from
    };
    let ghost d = v@.subrange(start as int, to as int);
    assert(d == unsigned_digits(s));
    if start == to {
        return None;
    }
    let mut acc: u64 = 0;
    let mut i = start;
    while i < to
        invariant
            start <= i <= to <= v.len(),
            d == v@.subrange(start as int, to as int),
            s == v@.subrange(from as int, to as int),
            d == unsigned_digits(s),
            all_digits(d.take(i - start)),
            acc == digits_value(d.take(i - start)),
        decreases to - i,
    {
        let c = v[i];
        let u: u32 = c as u32;
        assert(d[i - start] == c);
        if u < 48 || u > 57 {
            assert(!is_digit(d[i - start]));
            return None;
        }
        assert(d.take(i - start + 1).drop_last() == d.take(i - start));
        assert(d.take(i - start + 1).last() == c);
        assert(digits_value(d.take(i - start + 1)) == acc * 10 + (u - 48));
        let m = acc.checked_mul(10);
        match m {
            None => {
                proof {
                    if all_digits(d) {
                        lemma_digits_value_prefix(d, i - start + 1);
                    }
                }
                return None;
            },
            Some(m) => {
                let n = m.checked_add((u - 48) as u64);
                match n {
                    None => {
                        proof {
                            if all_digits(d) {
                                lemma_digits_value_prefix(d, i - start + 1);
                            }
                        }
                        return None;
                    },
                    Some(n) => {
                        acc = n;
                    },
                }
            },
        }
        i = i + 1;
    }
    assert(d.take(i - start) == d);
    Some(acc)
}

/// The index of the first character of `s` that is `a` or `b`.
pub open spec fn find2(s: Seq<char>, a: char, b: char) -> Option<int>
    decreases s.len(),
{
    if s.len() == 0 {
        None
    } else {
        match find2(s.drop_last(), a, b) {
            Some(i) => Some(i),
            None => if s.last() == a || s.last() == b {
                Some(s.len() - 1)
            } else {
                None
            },
        }
    }
}

/// The index of the first `c` in `s`.
pub open spec fn find_char(s: Seq<char>, c: char) -> Option<int> {
    find2(s, c, c)
}

pub proof fn lemma_find2(s: Seq<char>, a: char, b: char)
    ensures
        find2(s, a, b) matches Some(i) ==> 0 <= i < s.len() && (s[i] == a || s[i] == b) && (
        forall|j: int| 0 <= j < i ==> s[j] != a && s[j] != b),
        find2(s, a, b) is None ==> forall|j: int| 0 <= j < s.len() ==> s[j] != a && s[j] != b,
    decreases s.len(),
{
    if s.len() > 0 {
        lemma_find2(s.drop_last(), a, b);
        assert forall|j: int| 0 <= j < s.len() - 1 implies s[j] == s.drop_last()[j] by {}
    }
}

pub proof fn lemma_find2_at(s: Seq<char>, a: char, b: char, i: int)
    requires
        0 <= i < s.len(),
        s[i] == a || s[i] == b,
        forall|j: int| 0 <= j < i ==> s[j] != a && s[j] != b,
    ensures
        find2(s, a, b) == Some(i),
{
    lemma_find2(s, a, b);
    if let Some(k) = find2(s, a, b) {
        assert(!(k < i));
        assert(!(i < k));
    }
}

pub proof fn lemma_find2_none(s: Seq<char>, a: char, b: char)
    requires
        forall|j: int| 0 <= j < s.len() ==> s[j] != a && s[j] != b,
    ensures
        find2(s, a, b) is None,
{
    lemma_find2(s, a, b);
}

/// The position in `v[from..to]` of the first `a` or `b`, counted from `from`.
pub fn find2_in(v: &Vec<char>, from: usize, to: usize, a: char, b: char) -> (r: Option<usize>)
    requires
        from <= to <= v.len(),
    ensures
        r matches Some(k) ==> find2(v@.subrange(from as int, to as int), a, b) == Some(k as int)
            && from + k < to,
        r is None ==> find2(v@.subrange(from as int, to as int), a, b) is None,
{
    let ghost s = v@.subrange(from as int, to as int);
    let mut i = from;
    while i < to
        invariant
            from <= i <= to <= v.len(),
            s == v@.subrange(from as int, to as int),
            forall|j: int| 0 <= j < i - from ==> s[j] != a && s[j] != b,
        decreases to - i,
    {
        if v[i] == a || v[i] == b {
            proof {
                lemma_find2_at(s, a, b, i - from);
            }
            return Some(i - from);
        }
        i = i + 1;
    }
    proof {
        lemma_find2_none(s, a, b);
    }
    None
}

/// The pieces of `s` between occurrences of `c` (what `str::split` with a character gives).
pub open spec fn split_on(s: Seq<char>, c: char) -> Seq<Seq<char>>
    decreases s.len(),
{
    if s.len() == 0 {
        seq![Seq::empty()]
    } else {
        let r = split_on(s.drop_last(), c);
        if s.last() == c {
            r.push(Seq::empty())
        } else {
            r.update(r.len() - 1, r.last().push(s.last()))
        }
    }
}

pub proof fn lemma_split_on_nonempty(s: Seq<char>, c: char)
    ensures
        split_on(s, c).len() >= 1,
    decreases s.len(),
{
    if s.len() > 0 {
        lemma_split_on_nonempty(s.drop_last(), c);
    }
}

/// Appending text without `c` extends the last piece of a split at `c`.
pub proof fn lemma_split_on_append_plain(x: Seq<char>, y: Seq<char>, c: char)
    requires
        !y.contains(c),
    ensures
        split_on(x + y, c) == split_on(x, c).update(
            split_on(x, c).len() - 1,
            split_on(x, c).last() + y,
        ),
    decreases y.len(),
{
    lemma_split_on_nonempty(x, c);
    let s = split_on(x, c);
    if y.len() == 0 {
        assert(x + y =~= x);
        assert(s.last() + y =~= s.last());
        assert(s.update(s.len() - 1, s.last()) =~= s);
    } else {
        let y0 = y.drop_last();
        assert(!y0.contains(c)) by {
            if y0.contains(c) {
                let i = choose|i: int| 0 <= i < y0.len() && y0[i] == c;
                assert(y[i] == c);
            }
        }
        assert(y.last() != c) by {
            if y.last() == c {
                assert(y[y.len() - 1] == c);
            }
        }
        lemma_split_on_append_plain(x, y0, c);
        assert((x + y).drop_last() =~= x + y0);
        assert((x + y).last() == y.last());
        assert((s.last() + y0).push(y.last()) =~= s.last() + y);
    }
}

/// The views of a vector of character vectors.
pub open spec fn views(v: Seq<Vec<char>>) -> Seq<Seq<char>> {
    v.map_values(|p: Vec<char>| p@)
}

/// The pieces of `v[from..to]` between occurrences of `c`.
pub fn split_range(v: &Vec<char>, from: usize, to: usize, c: char) -> (r: Vec<Vec<char>>)
    requires
        from <= to <= v.len(),
    ensures
        views(r@) == split_on(v@.subrange(from as int, to as int), c),
        r.len() >= 1,
{
    let mut pieces: Vec<Vec<char>> = Vec::new();
    let mut cur: Vec<char> = Vec::new();
    let mut i = from;
    assert(v@.subrange(from as int, from as int) == Seq::<char>::empty());
    while i < to
        invariant
            from <= i <= to <= v.len(),
            views(pieces@).push(cur@) == split_on(v@.subrange(from as int, i as int), c),
        decreases to - i,
    {
        let ghost s1 = v@.subrange(from as int, (i + 1) as int);
        assert(s1.drop_last() == v@.subrange(from as int, i as int));
        assert(s1.last() == v@[i as int]);
        proof {
            lemma_split_on_nonempty(s1.drop_last(), c);
        }
        let ch = v[i];
        if ch == c {
            let ghost before = pieces@;
            let done = cur;
            pieces.push(done);
            cur = Vec::new();
            assert(views(pieces@) =~= views(before).push(done@));
        } else {
            cur.push(ch);
        }
        i = i + 1;
        assert(views(pieces@).push(cur@) =~= split_on(s1, c));
    }
    let last = cur;
    pieces.push(last);
    assert(views(pieces@) =~= views(pieces@.drop_last()).push(last@));
    pieces
}

/// `s` with every trailing copy of `p` removed (`trim_end_matches` with a string).
pub open spec fn strip_suffixes(s: Seq<char>, p: Seq<char>) -> Seq<char>
    decreases s.len(),
{
    if p.len() > 0 && s.len() >= p.len() && s.subrange(s.len() - p.len(), s.len() as int) == p {
        strip_suffixes(s.subrange(0, s.len() - p.len()), p)
    } else {
        s
    }
}

/// Whether `v[from..to]` starts with `p`.
pub fn starts_with_at(v: &Vec<char>, from: usize, to: usize, p: &Vec<char>) -> (b: bool)
    requires
        from <= to <= v.len(),
    ensures
        b == (to - from >= p.len() && v@.subrange(from as int, (from + p.len()) as int) == p@),
{
    if to - from < p.len() {
        return false;
    }
    let mut k: usize = 0;
    while k < p.len()
        invariant
            k <= p.len(),
            from + p.len() <= to <= v.len(),
            forall|j: int| 0 <= j < k ==> v@[from + j] == p@[j],
        decreases p.len() - k,
    {
        if v[from + k] != p[k] {
            assert(v@.subrange(from as int, (from + p.len()) as int)[k as int] != p@[k as int]);
            return false;
        }
        k = k + 1;
    }
    assert(v@.subrange(from as int, (from + p.len()) as int) =~= p@);
    true
}

} // verus!
