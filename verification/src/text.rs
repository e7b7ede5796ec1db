//! Character-level text primitives used by the configuration parser, the
//! transcript normalisers and the provider heuristics. Every function is
//! stated over the `Seq<char>` view of its strings.
use vstd::prelude::*;

verus! {

/// Unicode `White_Space`, the set that `char::is_whitespace` and `str::trim` use.
pub open spec fn is_ws(c: char) -> bool {
    let u = c as u32;
    ||| 9 <= u <= 13
    ||| u == 32
    ||| u == 0x85
    ||| u == 0xA0
    ||| u == 0x1680
    ||| 0x2000 <= u <= 0x200A
    ||| u == 0x2028
    ||| u == 0x2029
    ||| u == 0x202F
    ||| u == 0x205F
    ||| u == 0x3000
}

/// Whether `c` is Unicode white space.
pub fn char_is_whitespace(c: char) -> (b: bool)
    ensures
        b == is_ws(c),
{
    let u = c as u32;
    (9 <= u && u <= 13) || u == 32 || u == 0x85 || u == 0xA0 || u == 0x1680 || (0x2000 <= u && u
        <= 0x200A) || u == 0x2028 || u == 0x2029 || u == 0x202F || u == 0x205F || u == 0x3000
}

/// `s` without its leading white space.
pub open spec fn trim_start(s: Seq<char>) -> Seq<char>
    decreases s.len(),
{
    if s.len() > 0 && is_ws(s[0]) {
        trim_start(s.drop_first())
    } else {
        s
    }
}

/// `s` without its trailing white space.
pub open spec fn trim_end(s: Seq<char>) -> Seq<char>
    decreases s.len(),
{
    if s.len() > 0 && is_ws(s.last()) {
        trim_end(s.drop_last())
    } else {
        s
    }
}

/// `s` without leading and trailing white space, as `str::trim` gives it.
pub open spec fn trim(s: Seq<char>) -> Seq<char> {
    trim_end(trim_start(s))
}

/// ASCII lower-casing of one character, as `char::to_ascii_lowercase`.
pub open spec fn lower(c: char) -> char {
    if 'A' <= c <= 'Z' {
        ((c as u32) + 32) as char
    } else {
        c
    }
}

/// ASCII lower-casing of a whole string, as `str::to_ascii_lowercase`.
pub open spec fn lower_seq(s: Seq<char>) -> Seq<char> {
    Seq::new(s.len(), |i: int| lower(s[i]))
}

/// Whether `s` starts with `p`.
pub open spec fn has_prefix(s: Seq<char>, p: Seq<char>) -> bool {
    p.len() <= s.len() && s.subrange(0, p.len() as int) == p
}

/// Whether `s` ends with `p`.
pub open spec fn has_suffix(s: Seq<char>, p: Seq<char>) -> bool {
    p.len() <= s.len() && s.subrange(s.len() - p.len(), s.len() as int) == p
}

/// Whether `needle` occurs in `s` at position `i`.
pub open spec fn occurs_at(s: Seq<char>, needle: Seq<char>, i: int) -> bool {
    0 <= i && i + needle.len() <= s.len() && s.subrange(i, i + needle.len()) == needle
}

/// Whether `needle` occurs anywhere in `s`.
pub open spec fn contains(s: Seq<char>, needle: Seq<char>) -> bool {
    exists|i: int| occurs_at(s, needle, i)
}

/// `s` with every non-overlapping occurrence of `from`, left to right,
/// replaced by `to`, as `str::replace` does for a non-empty pattern.
pub open spec fn replace_all(s: Seq<char>, from: Seq<char>, to: Seq<char>) -> Seq<char>
    recommends
        from.len() > 0,
    decreases s.len(),
{
    if from.len() == 0 || s.len() < from.len() {
        s
    } else if s.subrange(0, from.len() as int) == from {
        to + replace_all(s.subrange(from.len() as int, s.len() as int), from, to)
    } else {
        seq![s[0]] + replace_all(s.drop_first(), from, to)
    }
}

/// `needle` occurs in `s` at `i` and nowhere before.
pub open spec fn is_first_occurrence(s: Seq<char>, needle: Seq<char>, i: int) -> bool {
    occurs_at(s, needle, i) && forall|j: int| 0 <= j < i ==> !occurs_at(s, needle, j)
}

/// Position of the first occurrence of `needle` in `s`, as `str::find` gives it.
pub open spec fn first_occurrence(s: Seq<char>, needle: Seq<char>) -> Option<int> {
    if exists|i: int| is_first_occurrence(s, needle, i) {
        Some(choose|i: int| is_first_occurrence(s, needle, i))
    } else {
        None
    }
}

/// The first occurrence is the one at `i` when `needle` occurs there and nowhere before.
pub proof fn lemma_first_occurrence(s: Seq<char>, needle: Seq<char>, i: int)
    requires
        is_first_occurrence(s, needle, i),
    ensures
        first_occurrence(s, needle) == Some(i),
{
    let j = choose|j: int| is_first_occurrence(s, needle, j);
    assert(is_first_occurrence(s, needle, j));
    if j < i {
        assert(!occurs_at(s, needle, j));
    } else if i < j {
        assert(!occurs_at(s, needle, i));
    }
}

/// The pieces of `s` between occurrences of `sep`, as `str::split` gives them.
pub open spec fn split_on(s: Seq<char>, sep: char) -> Seq<Seq<char>>
    decreases s.len(),
{
    if s.len() == 0 {
        seq![Seq::<char>::empty()]
    } else {
        let rest = split_on(s.drop_last(), sep);
        if s.last() == sep {
            rest.push(Seq::<char>::empty())
        } else {
            rest.update(rest.len() - 1, rest.last().push(s.last()))
        }
    }
}

/// The parts joined with `sep` between consecutive parts.
pub open spec fn join(parts: Seq<Seq<char>>, sep: Seq<char>) -> Seq<char>
    decreases parts.len(),
{
    if parts.len() == 0 {
        Seq::<char>::empty()
    } else if parts.len() == 1 {
        parts[0]
    } else {
        join(parts.drop_last(), sep) + sep + parts.last()
    }
}

/// Value of the decimal digit `c`.
pub open spec fn digit_value(c: char) -> int {
    (c as u32) - ('0' as u32)
}

/// Whether every character of `s` is an ASCII decimal digit.
pub open spec fn all_digits(s: Seq<char>) -> bool {
    forall|i: int| 0 <= i < s.len() ==> '0' <= #[trigger] s[i] <= '9'
}

/// The number that the decimal digits `s` spell.
pub open spec fn digits_value(s: Seq<char>) -> nat
    decreases s.len(),
{
    if s.len() == 0 {
        0
    } else {
        (digits_value(s.drop_last()) * 10 + digit_value(s.last())) as nat
    }
}

/// The digits after an optional leading `+`, as unsigned `FromStr` reads them.
pub open spec fn unsigned_digits(s: Seq<char>) -> Seq<char> {
    if s.len() > 0 && s[0] == '+' {
        s.drop_first()
    } else {
        s
    }
}

/// What `str::parse::<u16>` gives: an optional `+`, then one or more ASCII
/// digits whose value fits in 16 bits.
pub open spec fn parse_u16_spec(s: Seq<char>) -> Option<u16> {
    let d = unsigned_digits(s);
    if d.len() > 0 && all_digits(d) && digits_value(d) <= u16::MAX {
        Some(digits_value(d) as u16)
    } else {
        None
    }
}

/// What `str::parse::<bool>` gives.
pub open spec fn parse_bool_spec(s: Seq<char>) -> Option<bool> {
    if s == "true"@ {
        Some(true)
    } else if s == "false"@ {
        Some(false)
    } else {
        None
    }
}

/// The decimal digit character for `d < 10`.
pub open spec fn digit_char(d: nat) -> char {
    (('0' as u32) + d) as char
}

/// Decimal representation of `n` without leading zeros, as `Display` prints it.
pub open spec fn decimal(n: nat) -> Seq<char>
    decreases n,
{
    if n < 10 {
        seq![digit_char(n)]
    } else {
        decimal(n / 10).push(digit_char(n % 10))
    }
}

/// The characters of `s`.
pub fn chars_of(s: &str) -> (v: Vec<char>)
    ensures
        v@ == s@,
{
    let n = s.unicode_len();
    let mut v: Vec<char> = Vec::new();
    let mut i: usize = 0;
    while i < n
        invariant
            n == s@.len(),
            i <= n,
            v@ == s@.subrange(0, i as int),
        decreases n - i,
    {
        v.push(s.get_char(i));
        i = i + 1;
    }
    v
}

/// Collects `v` into a `String` with std's `Iterator::collect`; the
/// contract claims that the string holds exactly these characters, in order.
#[verifier::external_body]
pub(crate) fn string_from_chars(v: &[char]) -> (s: String)
    ensures
        s@ == v@,
{
    v.iter().collect()
}

proof fn lemma_trim_start_skip(s: Seq<char>, i: int)
    requires
        0 <= i <= s.len(),
        forall|k: int| 0 <= k < i ==> is_ws(#[trigger] s[k]),
    ensures
        trim_start(s) == trim_start(s.subrange(i, s.len() as int)),
    decreases i,
{
    if i > 0 {
        assert(s.drop_first().subrange(i - 1, s.drop_first().len() as int) =~= s.subrange(
            i,
            s.len() as int,
        ));
        lemma_trim_start_skip(s.drop_first(), i - 1);
    } else {
        assert(s.subrange(0, s.len() as int) =~= s);
    }
}

proof fn lemma_trim_end_cut(s: Seq<char>, j: int)
    requires
        0 <= j <= s.len(),
        forall|k: int| j <= k < s.len() ==> is_ws(#[trigger] s[k]),
    ensures
        trim_end(s) == trim_end(s.subrange(0, j)),
    decreases s.len() - j,
{
    if j < s.len() {
        assert(s.drop_last().subrange(0, j) =~= s.subrange(0, j));
        lemma_trim_end_cut(s.drop_last(), j);
    } else {
        assert(s.subrange(0, j) =~= s);
    }
}

/// Start and end of the trimmed part of `v`.
pub fn trim_bounds(v: &[char]) -> (r: (usize, usize))
    ensures
        r.0 <= r.1 <= v@.len(),
        v@.subrange(r.0 as int, r.1 as int) == trim(v@),
{
    let n = v.len();
    let mut i: usize = 0;
    while i < n && char_is_whitespace(v[i])
        invariant
            i <= n,
            n == v@.len(),
            forall|k: int| 0 <= k < i ==> is_ws(#[trigger] v@[k]),
        decreases n - i,
    {
        i = i + 1;
    }
    proof {
        lemma_trim_start_skip(v@, i as int);
    }
    let ghost t = v@.subrange(i as int, n as int);
    assert(i == n || !is_ws(t[0]));
    assert(trim_start(v@) == t);
    let mut j: usize = n;
    while j > i && char_is_whitespace(v[j - 1])
        invariant
            i <= j <= n,
            n == v@.len(),
            forall|k: int| j <= k < n ==> is_ws(#[trigger] v@[k]),
        decreases j,
    {
        j = j - 1;
    }
    proof {
        let tj = j - i;
        assert forall|k: int| tj <= k < t.len() implies is_ws(#[trigger] t[k]) by {
            assert(t[k] == v@[k + i]);
        }
        lemma_trim_end_cut(t, tj);
        assert(t.subrange(0, tj) =~= v@.subrange(i as int, j as int));
        let u = t.subrange(0, tj);
        if u.len() > 0 {
            assert(u.last() == v@[j - 1]);
        }
    }
    (i, j)
}

/// `s` without leading and trailing white space.
pub fn trim_str(s: &str) -> (r: String)
    ensures
        r@ == trim(s@),
{
    let v = chars_of(s);
    let (i, j) = trim_bounds(v.as_slice());
    string_from_chars(&v.as_slice()[i..j])
}

/// Whether `s` is empty after trimming.
pub fn is_blank(s: &str) -> (b: bool)
    ensures
        b == (trim(s@).len() == 0),
{
    let v = chars_of(s);
    let (i, j) = trim_bounds(v.as_slice());
    i == j
}

/// ASCII lower-case of `c`.
pub fn lower_char(c: char) -> (r: char)
    ensures
        r == lower(c),
{
    if 'A' <= c && c <= 'Z' {
        let u = (c as u32) + 32;
        assert('a' as u32 <= u <= 'z' as u32);
        char_from_ascii_lower(u)
    } else {
        c
    }
}

fn char_from_ascii_lower(u: u32) -> (c: char)
    requires
        'a' as u32 <= u <= 'z' as u32,
    ensures
        c == u as char,
{
    let b = u as u8;
    b as char
}

/// ASCII lower-case of `s`.
pub fn lower_str(s: &str) -> (r: String)
    ensures
        r@ == lower_seq(s@),
{
    let v = chars_of(s);
    let mut out: Vec<char> = Vec::new();
    let mut i: usize = 0;
    while i < v.len()
        invariant
            i <= v@.len(),
            v@ == s@,
            out@ =~= lower_seq(s@).subrange(0, i as int),
        decreases v@.len() - i,
    {
        out.push(lower_char(v[i]));
        i = i + 1;
    }
    assert(out@ =~= lower_seq(s@));
    string_from_chars(out.as_slice())
}

/// Whether `needle` occurs in `hay` at `at`.
pub fn occurs_at_exec(hay: &[char], needle: &[char], at: usize) -> (b: bool)
    ensures
        b == occurs_at(hay@, needle@, at as int),
{
    if needle.len() > hay.len() || at > hay.len() - needle.len() {
        return false;
    }
    let mut k: usize = 0;
    while k < needle.len()
        invariant
            k <= needle@.len(),
            at + needle@.len() <= hay@.len(),
            hay@.len() == hay.len(),
            forall|m: int| 0 <= m < k ==> hay@[at + m] == needle@[m],
        decreases needle@.len() - k,
    {
        assert(at + k < hay@.len());
        if hay[at + k] != needle[k] {
            assert(hay@.subrange(at as int, at + needle@.len())[k as int] != needle@[k as int]);
            return false;
        }
        k = k + 1;
    }
    assert(hay@.subrange(at as int, at + needle@.len()) =~= needle@);
    true
}

/// First position at which `needle` occurs in `hay`.
pub fn find_seq(hay: &[char], needle: &[char]) -> (r: Option<usize>)
    ensures
        match r {
            Some(i) => is_first_occurrence(hay@, needle@, i as int),
            None => !contains(hay@, needle@),
        },
        r matches Some(i) ==> first_occurrence(hay@, needle@) == Some(i as int),
        r is None ==> first_occurrence(hay@, needle@) is None,
{
    if needle.len() > hay.len() {
        assert forall|j: int| !occurs_at(hay@, needle@, j) by {}
        assert(!exists|j: int| is_first_occurrence(hay@, needle@, j));
        return None;
    }
    let last = hay.len() - needle.len();
    let mut i: usize = 0;
    loop
        invariant
            last + needle@.len() == hay@.len(),
            i <= last,
            forall|j: int| 0 <= j < i ==> !occurs_at(hay@, needle@, j),
        ensures
            forall|j: int| 0 <= j <= last ==> !occurs_at(hay@, needle@, j),
        decreases last - i,
    {
        if occurs_at_exec(hay, needle, i) {
            proof {
                lemma_first_occurrence(hay@, needle@, i as int);
            }
            return Some(i);
        }
        if i == last {
            break;
        }
        i = i + 1;
    }
    assert(!exists|j: int| is_first_occurrence(hay@, needle@, j));
    None
}

/// Whether `needle` occurs in `hay`.
pub fn contains_str(hay: &str, needle: &str) -> (b: bool)
    ensures
        b == contains(hay@, needle@),
{
    let h = chars_of(hay);
    let n = chars_of(needle);
    find_seq(h.as_slice(), n.as_slice()).is_some()
}

/// Whether `s` starts with `p`.
pub fn starts_with_str(s: &str, p: &str) -> (b: bool)
    ensures
        b == has_prefix(s@, p@),
{
    let h = chars_of(s);
    let n = chars_of(p);
    let b = occurs_at_exec(h.as_slice(), n.as_slice(), 0);
    b
}

/// Whether `s` ends with `p`.
pub fn ends_with_str(s: &str, p: &str) -> (b: bool)
    ensures
        b == has_suffix(s@, p@),
{
    let h = chars_of(s);
    let n = chars_of(p);
    if n.len() > h.len() {
        return false;
    }
    occurs_at_exec(h.as_slice(), n.as_slice(), h.len() - n.len())
}

/// Whether the two strings hold the same characters.
pub fn str_eq(a: &str, b: &str) -> (r: bool)
    ensures
        r == (a@ == b@),
{
    let x = chars_of(a);
    let y = chars_of(b);
    if x.len() != y.len() {
        return false;
    }
    let r = occurs_at_exec(x.as_slice(), y.as_slice(), 0);
    assert(x@.subrange(0, y@.len() as int) =~= x@);
    r
}

proof fn lemma_replace_prefix_step(s: Seq<char>, from: Seq<char>, to: Seq<char>, i: int)
    requires
        from.len() > 0,
        0 <= i <= s.len(),
    ensures
        i + from.len() <= s.len() && s.subrange(i, i + from.len()) == from ==> replace_all(
            s.subrange(i, s.len() as int),
            from,
            to,
        ) == to + replace_all(s.subrange(i + from.len(), s.len() as int), from, to),
        !(i + from.len() <= s.len() && s.subrange(i, i + from.len()) == from) && i + from.len()
            <= s.len() ==> replace_all(s.subrange(i, s.len() as int), from, to) == seq![s[i]]
            + replace_all(s.subrange(i + 1, s.len() as int), from, to),
        i + from.len() > s.len() ==> replace_all(s.subrange(i, s.len() as int), from, to)
            == s.subrange(i, s.len() as int),
{
    let t = s.subrange(i, s.len() as int);
    if i + from.len() <= s.len() {
        assert(t.subrange(0, from.len() as int) =~= s.subrange(i, i + from.len()));
        assert(t.subrange(from.len() as int, t.len() as int) =~= s.subrange(
            i + from.len(),
            s.len() as int,
        ));
        assert(t.drop_first() =~= s.subrange(i + 1, s.len() as int));
    }
}

/// `s` with every occurrence of `from` replaced by `to`.
pub fn replace_str(s: &str, from: &str, to: &str) -> (r: String)
    requires
        from@.len() > 0,
    ensures
        r@ == replace_all(s@, from@, to@),
{
    let v = chars_of(s);
    let f = chars_of(from);
    let t = chars_of(to);
    let mut out: Vec<char> = Vec::new();
    let mut i: usize = 0;
    assert(v@.subrange(0, v@.len() as int) =~= v@);
    assert(out@ + v@ =~= v@);
    while i < v.len()
        invariant
            i <= v@.len(),
            v@ == s@,
            f@ == from@,
            t@ == to@,
            f@.len() > 0,
            out@ + replace_all(v@.subrange(i as int, v@.len() as int), f@, t@) == replace_all(
                v@,
                f@,
                t@,
            ),
        decreases v@.len() - i,
    {
        proof {
            lemma_replace_prefix_step(v@, f@, t@, i as int);
        }
        if occurs_at_exec(v.as_slice(), f.as_slice(), i) {
            let ghost old_out = out@;
            let mut k: usize = 0;
            while k < t.len()
                invariant
                    k <= t@.len(),
                    out@ == old_out + t@.subrange(0, k as int),
                decreases t@.len() - k,
            {
                out.push(t[k]);
                k = k + 1;
            }
            assert(t@.subrange(0, t@.len() as int) =~= t@);
            assert(out@ + replace_all(v@.subrange(i + f@.len(), v@.len() as int), f@, t@)
                =~= old_out + (t@ + replace_all(
                v@.subrange(i + f@.len(), v@.len() as int),
                f@,
                t@,
            )));
            i = i + f.len();
        } else if f.len() <= v.len() - i {
            let ghost old_out = out@;
            out.push(v[i]);
            assert(out@ + replace_all(v@.subrange(i + 1, v@.len() as int), f@, t@) =~= old_out
                + (seq![v@[i as int]] + replace_all(v@.subrange(i + 1, v@.len() as int), f@, t@)));
            i = i + 1;
        } else {
            let ghost old_out = out@;
            let mut k: usize = i;
            while k < v.len()
                invariant
                    i <= k <= v@.len(),
                    out@ == old_out + v@.subrange(i as int, k as int),
                decreases v@.len() - k,
            {
                out.push(v[k]);
                k = k + 1;
            }
            i = v.len();
            assert(v@.subrange(i as int, v@.len() as int) =~= Seq::<char>::empty());
            assert(replace_all(Seq::<char>::empty(), f@, t@) == Seq::<char>::empty());
            assert(out@ + replace_all(v@.subrange(i as int, v@.len() as int), f@, t@) =~= out@);
        }
    }
    assert(v@.subrange(v@.len() as int, v@.len() as int) =~= Seq::<char>::empty());
    assert(replace_all(Seq::<char>::empty(), f@, t@) == Seq::<char>::empty());
    assert(out@ =~= out@ + Seq::<char>::empty());
    string_from_chars(out.as_slice())
}


/// The views of a sequence of character vectors.
pub open spec fn vec_views(v: Seq<Vec<char>>) -> Seq<Seq<char>> {
    Seq::new(v.len(), |i: int| v[i]@)
}

proof fn lemma_split_step(s: Seq<char>, sep: char, i: int)
    requires
        0 <= i < s.len(),
    ensures
        split_on(s.subrange(0, i + 1), sep) == if s[i] == sep {
            split_on(s.subrange(0, i), sep).push(Seq::<char>::empty())
        } else {
            let rest = split_on(s.subrange(0, i), sep);
            rest.update(rest.len() - 1, rest.last().push(s[i]))
        },
{
    assert(s.subrange(0, i + 1).drop_last() =~= s.subrange(0, i));
}

/// `split_on` always yields at least one piece.
pub proof fn lemma_split_nonempty(s: Seq<char>, sep: char)
    ensures
        split_on(s, sep).len() >= 1,
    decreases s.len(),
{
    if s.len() > 0 {
        lemma_split_nonempty(s.drop_last(), sep);
    }
}

/// The pieces of `s` between occurrences of `sep`.
pub fn split_chars(s: &[char], sep: char) -> (parts: Vec<Vec<char>>)
    ensures
        vec_views(parts@) == split_on(s@, sep),
{
    let mut done: Vec<Vec<char>> = Vec::new();
    let mut cur: Vec<char> = Vec::new();
    let mut i: usize = 0;
    assert(s@.subrange(0, 0) =~= Seq::<char>::empty());
    assert(vec_views(done@).push(cur@) =~= split_on(s@.subrange(0, 0), sep));
    while i < s.len()
        invariant
            i <= s@.len(),
            vec_views(done@).push(cur@) == split_on(s@.subrange(0, i as int), sep),
        decreases s@.len() - i,
    {
        proof {
            lemma_split_step(s@, sep, i as int);
        }
        let c = s[i];
        if c == sep {
            let ghost before = vec_views(done@).push(cur@);
            let finished = cur;
            done.push(finished);
            cur = Vec::new();
            assert(vec_views(done@) =~= before);
            assert(vec_views(done@).push(cur@) =~= before.push(Seq::<char>::empty()));
        } else {
            let ghost before = vec_views(done@).push(cur@);
            cur.push(c);
            assert(vec_views(done@).push(cur@) =~= before.update(
                before.len() - 1,
                before.last().push(c),
            ));
        }
        i = i + 1;
    }
    assert(s@.subrange(0, s@.len() as int) =~= s@);
    let ghost before = vec_views(done@).push(cur@);
    done.push(cur);
    assert(vec_views(done@) =~= before);
    done
}

proof fn lemma_digits_step(d: Seq<char>, k: int)
    requires
        0 <= k < d.len(),
        '0' <= d[k] <= '9',
    ensures
        digits_value(d.subrange(0, k + 1)) == digits_value(d.subrange(0, k)) * 10 + digit_value(
            d[k],
        ),
{
    assert(d.subrange(0, k + 1).drop_last() =~= d.subrange(0, k));
    assert(d.subrange(0, k + 1).last() == d[k]);
    assert(digit_value(d[k]) >= 0);
}

/// `s` read as an unsigned 16-bit number, as `str::parse::<u16>` reads it.
pub fn parse_u16(s: &str) -> (r: Option<u16>)
    ensures
        r == parse_u16_spec(s@),
{
    let v = chars_of(s);
    let start: usize = if v.len() > 0 && v[0] == '+' {
        1
    } else {
        0
    };
    let ghost d = unsigned_digits(s@);
    assert(d =~= v@.subrange(start as int, v@.len() as int));
    if start == v.len() {
        return None;
    }
    let mut acc: u64 = 0;
    let mut k: usize = start;
    while k < v.len()
        invariant
            start <= k <= v@.len(),
            v@ == s@,
            d == v@.subrange(start as int, v@.len() as int),
            d == unsigned_digits(s@),
            all_digits(d.subrange(0, k - start)),
            acc == if digits_value(d.subrange(0, k - start)) < 65536 {
                digits_value(d.subrange(0, k - start))
            } else {
                65536
            },
        decreases v@.len() - k,
    {
        let c = v[k];
        if !('0' <= c && c <= '9') {
            assert(d[k - start] == c);
            assert(!all_digits(d));
            return None;
        }
        proof {
            lemma_digits_step(d, k - start);
        }
        let digit = (c as u32 - '0' as u32) as u64;
        let next = acc * 10 + digit;
        acc = if next > 65536 {
            65536
        } else {
            next
        };
        k = k + 1;
        assert(all_digits(d.subrange(0, k - start))) by {
            assert forall|m: int| 0 <= m < k - start implies '0' <= #[trigger] d.subrange(
                0,
                k - start,
            )[m] <= '9' by {
                if m < k - 1 - start {
                    assert(d.subrange(0, k - start)[m] == d.subrange(0, k - 1 - start)[m]);
                }
            }
        }
    }
    assert(d.subrange(0, d.len() as int) =~= d);
    if acc > 65535 {
        None
    } else {
        Some(acc as u16)
    }
}

/// `s` read as a boolean, as `str::parse::<bool>` reads it.
pub fn parse_bool(s: &str) -> (r: Option<bool>)
    ensures
        r == parse_bool_spec(s@),
{
    if str_eq(s, "true") {
        proof {
            reveal_strlit("true");
        }
        Some(true)
    } else if str_eq(s, "false") {
        Some(false)
    } else {
        None
    }
}

/// The decimal digit `d` as a character.
pub fn digit_to_char(d: u64) -> (c: char)
    requires
        d < 10,
    ensures
        c == digit_char(d as nat),
{
    let b: u8 = 48u8 + (d as u8);
    b as char
}

fn decimal_chars(n: u64) -> (v: Vec<char>)
    ensures
        v@ == decimal(n as nat),
    decreases n,
{
    if n < 10 {
        let mut v: Vec<char> = Vec::new();
        v.push(digit_to_char(n));
        v
    } else {
        let mut v = decimal_chars(n / 10);
        v.push(digit_to_char(n % 10));
        v
    }
}

/// `n` in decimal, as `Display` prints it.
pub fn u64_to_decimal(n: u64) -> (s: String)
    ensures
        s@ == decimal(n as nat),
{
    let v = decimal_chars(n);
    string_from_chars(v.as_slice())
}

/// `a` followed by `b`.
pub fn concat_str(a: &str, b: &str) -> (s: String)
    ensures
        s@ == a@ + b@,
{
    let mut s = a.to_string();
    s.append(b);
    s
}

/// `s` without the copies of `c` at its end.
pub open spec fn strip_trailing(s: Seq<char>, c: char) -> Seq<char>
    decreases s.len(),
{
    if s.len() > 0 && s.last() == c {
        strip_trailing(s.drop_last(), c)
    } else {
        s
    }
}

/// `s` without the copies of `c` at its end.
pub fn trim_end_char(s: &str, c: char) -> (r: String)
    ensures
        r@ == strip_trailing(s@, c),
{
    let v = chars_of(s);
    let mut j: usize = v.len();
    assert(v@.subrange(0, v@.len() as int) =~= v@);
    while j > 0 && v[j - 1] == c
        invariant
            j <= v@.len(),
            strip_trailing(v@, c) == strip_trailing(v@.subrange(0, j as int), c),
        decreases j,
    {
        assert(v@.subrange(0, j as int).drop_last() =~= v@.subrange(0, j - 1));
        j = j - 1;
    }
    string_from_chars(&v.as_slice()[0..j])
}

/// `parts` joined with `sep` between consecutive parts.
pub fn join_strs(parts: &Vec<String>, sep: &str) -> (s: String)
    ensures
        s@ == join(Seq::new(parts@.len(), |i: int| parts@[i]@), sep@),
{
    let ghost views = Seq::new(parts@.len(), |i: int| parts@[i]@);
    let mut s = String::new();
    let mut i: usize = 0;
    while i < parts.len()
        invariant
            i <= parts@.len(),
            views == Seq::new(parts@.len(), |i: int| parts@[i]@),
            s@ == join(views.subrange(0, i as int), sep@),
        decreases parts@.len() - i,
    {
        assert(views.subrange(0, i + 1).drop_last() =~= views.subrange(0, i as int));
        if i > 0 {
            s.append(sep);
        } else {
            assert(s@ == Seq::<char>::empty());
            assert(views.subrange(0, 1)[0] == views[0]);
        }
        s.append(parts[i].as_str());
        i = i + 1;
    }
    assert(views.subrange(0, parts@.len() as int) =~= views);
    s
}

} // verus!
