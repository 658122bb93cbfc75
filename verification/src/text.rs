//! Character-level string helpers used by the renderers and parsers.
//!
//! Strings are modelled by their views, `Seq<char>`; every helper states its
//! result over those sequences.

use vstd::prelude::*;

verus! {

/// Appends one character to a string (`String::push`).
#[verifier::external_body]
pub(crate) fn push_char(s: &mut String, c: char)
    ensures
        final(s)@ == old(s)@.push(c),
{
    s.push(c);
}

/// Appends a string slice to a string.
pub(crate) fn push_str(s: &mut String, t: &str)
    ensures
        final(s)@ == old(s)@ + t@,
{
    s.append(t);
}

/// The characters of a string slice, in order.
pub fn chars_of(s: &str) -> (out: Vec<char>)
    ensures
        out@ == s@,
{
    let mut out: Vec<char> = Vec::new();
    for c in it: s.chars()
        invariant
            out@ == it.seq().take(it.index() as int),
    {
        out.push(c);
    }
    out
}

/// A string made of the given characters, in order.
pub fn string_of(cs: &[char]) -> (out: String)
    ensures
        out@ == cs@,
{
    let mut out = String::new();
    let mut i: usize = 0;
    while i < cs.len()
        invariant
            i <= cs.len(),
            out@ == cs@.take(i as int),
        decreases cs.len() - i,
    {
        push_char(&mut out, cs[i]);
        assert(cs@.take(i as int).push(cs@[i as int]) =~= cs@.take(i + 1));
        i = i + 1;
    }
    assert(cs@.take(cs.len() as int) =~= cs@);
    out
}

/// The concatenation of two string slices.
pub fn concat2(a: &str, b: &str) -> (out: String)
    ensures
        out@ == a@ + b@,
{
    let mut out = String::new();
    push_str(&mut out, a);
    push_str(&mut out, b);
    assert(Seq::<char>::empty() + a@ + b@ =~= a@ + b@);
    out
}

/// The concatenation of three string slices.
pub fn concat3(a: &str, b: &str, c: &str) -> (out: String)
    ensures
        out@ == a@ + b@ + c@,
{
    let mut out = concat2(a, b);
    push_str(&mut out, c);
    out
}

/// The concatenation of four string slices.
pub fn concat4(a: &str, b: &str, c: &str, d: &str) -> (out: String)
    ensures
        out@ == a@ + b@ + c@ + d@,
{
    let mut out = concat3(a, b, c);
    push_str(&mut out, d);
    out
}

/// Index of the first occurrence of `c` in `s`, or -1 when there is none.
pub open spec fn find_char(s: Seq<char>, c: char) -> int
    decreases s.len(),
{
    if s.len() == 0 {
        -1
    } else if s[0] == c {
        0
    } else {
        let r = find_char(s.drop_first(), c);
        if r < 0 {
            -1
        } else {
            r + 1
        }
    }
}

/// `find_char` is the first index holding `c`.
pub proof fn lemma_find_char(s: Seq<char>, c: char)
    ensures
        -1 <= find_char(s, c) < s.len(),
        find_char(s, c) >= 0 ==> s[find_char(s, c)] == c,
        forall|k: int| 0 <= k < s.len() && (find_char(s, c) < 0 || k < find_char(s, c)) ==> s[k] != c,
    decreases s.len(),
{
    if s.len() > 0 && s[0] != c {
        lemma_find_char(s.drop_first(), c);
        assert forall|k: int|
            0 <= k < s.len() && (find_char(s, c) < 0 || k < find_char(s, c)) implies s[k] != c by {
            if k > 0 {
                assert(s[k] == s.drop_first()[k - 1]);
            }
        }
    }
}

/// The index of the first occurrence is the one a left-to-right scan finds.
pub proof fn lemma_find_char_at(s: Seq<char>, c: char, i: int)
    requires
        0 <= i <= s.len(),
        forall|k: int| 0 <= k < i ==> s[k] != c,
        i < s.len() ==> s[i] == c,
    ensures
        find_char(s, c) == (if i < s.len() { i } else { -1 }),
{
    lemma_find_char(s, c);
    if find_char(s, c) >= 0 {
        assert(s[find_char(s, c)] == c);
    }
}

/// Position of the first `c` in `s`.
pub fn find_char_exec(s: &[char], c: char) -> (r: Option<usize>)
    ensures
        match r {
            Some(i) => find_char(s@, c) == i as int && i < s.len() && s@[i as int] == c,
            None => find_char(s@, c) == -1,
        },
{
    let mut i: usize = 0;
    while i < s.len()
        invariant
            i <= s.len(),
            forall|k: int| 0 <= k < i ==> s@[k] != c,
        decreases s.len() - i,
    {
        if s[i] == c {
            proof {
                lemma_find_char_at(s@, c, i as int);
            }
            return Some(i);
        }
        i = i + 1;
    }
    proof {
        lemma_find_char_at(s@, c, s@.len() as int);
    }
    None
}

/// Copy of the characters `s[from..to]`.
pub fn slice_chars(s: &[char], from: usize, to: usize) -> (out: Vec<char>)
    requires
        from <= to <= s.len(),
    ensures
        out@ == s@.subrange(from as int, to as int),
{
    let mut out: Vec<char> = Vec::new();
    let mut i: usize = from;
    while i < to
        invariant
            from <= i <= to <= s.len(),
            out@ == s@.subrange(from as int, i as int),
        decreases to - i,
    {
        out.push(s[i]);
        assert(s@.subrange(from as int, i as int).push(s@[i as int]) =~= s@.subrange(
            from as int,
            i + 1,
        ));
        i = i + 1;
    }
    out
}

/// White space as `char::is_whitespace` defines it (the Unicode `White_Space` property).
pub open spec fn is_white_space(c: char) -> bool {
    let v = c as u32;
    (0x9 <= v && v <= 0xd) || v == 0x20 || v == 0x85 || v == 0xa0 || v == 0x1680 || (0x2000 <= v
        && v <= 0x200a) || v == 0x2028 || v == 0x2029 || v == 0x202f || v == 0x205f || v == 0x3000
}

/// Executable form of [`is_white_space`].
pub fn is_white_space_exec(c: char) -> (r: bool)
    ensures
        r == is_white_space(c),
{
    let v = c as u32;
    (0x9 <= v && v <= 0xd) || v == 0x20 || v == 0x85 || v == 0xa0 || v == 0x1680 || (0x2000 <= v
        && v <= 0x200a) || v == 0x2028 || v == 0x2029 || v == 0x202f || v == 0x205f || v == 0x3000
}

/// `s` without its leading white space (`str::trim_start`).
pub open spec fn trim_start(s: Seq<char>) -> Seq<char>
    decreases s.len(),
{
    if s.len() > 0 && is_white_space(s[0]) {
        trim_start(s.drop_first())
    } else {
        s
    }
}

/// `s` without its trailing white space (`str::trim_end`).
pub open spec fn trim_end(s: Seq<char>) -> Seq<char>
    decreases s.len(),
{
    if s.len() > 0 && is_white_space(s.last()) {
        trim_end(s.drop_last())
    } else {
        s
    }
}

/// `s` without leading and trailing white space (`str::trim`).
pub open spec fn trim(s: Seq<char>) -> Seq<char> {
    trim_end(trim_start(s))
}

proof fn lemma_trim_start_skip(s: Seq<char>, i: int)
    requires
        0 <= i <= s.len(),
        forall|k: int| 0 <= k < i ==> is_white_space(#[trigger] s[k]),
    ensures
        trim_start(s) == trim_start(s.subrange(i, s.len() as int)),
    decreases i,
{
    if i > 0 {
        assert(s.drop_first().subrange(i - 1, s.drop_first().len() as int) =~= s.subrange(
            i,
            s.len() as int,
        ));
        assert forall|k: int| 0 <= k < i - 1 implies is_white_space(
            #[trigger] s.drop_first()[k],
        ) by {
            assert(s.drop_first()[k] == s[k + 1]);
        }
        lemma_trim_start_skip(s.drop_first(), i - 1);
    } else {
        assert(s.subrange(0, s.len() as int) =~= s);
    }
}

proof fn lemma_trim_end_skip(s: Seq<char>, j: int)
    requires
        0 <= j <= s.len(),
        forall|k: int| j <= k < s.len() ==> is_white_space(#[trigger] s[k]),
    ensures
        trim_end(s) == trim_end(s.subrange(0, j)),
    decreases s.len() - j,
{
    if j < s.len() {
        assert(s.drop_last().subrange(0, j) =~= s.subrange(0, j));
        assert forall|k: int| j <= k < s.drop_last().len() implies is_white_space(
            #[trigger] s.drop_last()[k],
        ) by {
            assert(s.drop_last()[k] == s[k]);
        }
        lemma_trim_end_skip(s.drop_last(), j);
    } else {
        assert(s.subrange(0, j) =~= s);
    }
}

/// `s` trimmed of white space at both ends.
pub fn trim_chars(s: &[char]) -> (out: Vec<char>)
    ensures
        out@ == trim(s@),
{
    let mut i: usize = 0;
    while i < s.len() && is_white_space_exec(s[i])
        invariant
            i <= s.len(),
            forall|k: int| 0 <= k < i ==> is_white_space(#[trigger] s@[k]),
        decreases s.len() - i,
    {
        i = i + 1;
    }
    let ghost rest = s@.subrange(i as int, s@.len() as int);
    proof {
        lemma_trim_start_skip(s@, i as int);
        if i < s.len() {
            assert(rest[0] == s@[i as int]);
        }
        assert(trim_start(rest) == rest);
    }
    let mut j: usize = s.len();
    while j > i && is_white_space_exec(s[j - 1])
        invariant
            i <= j <= s.len(),
            forall|k: int| j <= k < s.len() ==> is_white_space(#[trigger] s@[k]),
        decreases j,
    {
        j = j - 1;
    }
    proof {
        let jr = j - i;
        assert forall|k: int| jr <= k < rest.len() implies is_white_space(#[trigger] rest[k]) by {
            assert(rest[k] == s@[k + i]);
        }
        lemma_trim_end_skip(rest, jr);
        let sub = rest.subrange(0, jr);
        assert(sub =~= s@.subrange(i as int, j as int));
        if jr > 0 {
            assert(sub.last() == s@[j - 1]);
        }
        assert(trim_end(sub) == sub);
    }
    slice_chars(s, i, j)
}

/// `s` with every `from` replaced by `to`.
pub open spec fn replace_char(s: Seq<char>, from: char, to: char) -> Seq<char> {
    s.map_values(|c: char| if c == from { to } else { c })
}

/// `s.replace(from, to)` for single characters.
pub fn replace_char_exec(s: &str, from: char, to: char) -> (out: String)
    ensures
        out@ == replace_char(s@, from, to),
{
    let cs = chars_of(s);
    let mut out = String::new();
    let mut i: usize = 0;
    while i < cs.len()
        invariant
            i <= cs.len(),
            cs@ == s@,
            out@ == replace_char(s@, from, to).take(i as int),
        decreases cs.len() - i,
    {
        let c = cs[i];
        if c == from {
            push_char(&mut out, to);
        } else {
            push_char(&mut out, c);
        }
        assert(replace_char(s@, from, to).take(i as int).push(
            replace_char(s@, from, to)[i as int],
        ) =~= replace_char(s@, from, to).take(i + 1));
        i = i + 1;
    }
    assert(replace_char(s@, from, to).take(cs.len() as int) =~= replace_char(s@, from, to));
    out
}

/// The pieces joined with `sep` between consecutive pieces (`[String]::join`).
pub open spec fn join(pieces: Seq<Seq<char>>, sep: Seq<char>) -> Seq<char>
    decreases pieces.len(),
{
    if pieces.len() == 0 {
        Seq::empty()
    } else if pieces.len() == 1 {
        pieces[0]
    } else {
        join(pieces.drop_last(), sep) + sep + pieces.last()
    }
}

/// The views of a list of strings.
pub open spec fn views(v: Seq<String>) -> Seq<Seq<char>> {
    v.map_values(|s: String| s@)
}

/// Joins the strings with `sep` between them.
pub fn join_exec(pieces: &[String], sep: &str) -> (out: String)
    ensures
        out@ == join(views(pieces@), sep@),
{
    let mut out = String::new();
    let mut i: usize = 0;
    while i < pieces.len()
        invariant
            i <= pieces.len(),
            out@ == join(views(pieces@).take(i as int), sep@),
        decreases pieces.len() - i,
    {
        let ghost before = views(pieces@).take(i as int);
        let ghost after = views(pieces@).take(i + 1);
        assert(after.drop_last() =~= before);
        assert(after.last() == pieces@[i as int]@);
        if i > 0 {
            push_str(&mut out, sep);
        } else {
            assert(after =~= seq![pieces@[0]@]);
        }
        push_str(&mut out, pieces[i].as_str());
        i = i + 1;
    }
    assert(views(pieces@).take(pieces.len() as int) =~= views(pieces@));
    out
}

/// The views of a list of string slices.
pub open spec fn str_views(v: Seq<&str>) -> Seq<Seq<char>> {
    v.map_values(|s: &str| s@)
}

/// A template filled in: `pieces[0] + values[0] + pieces[1] + ... + pieces[n]`.
pub open spec fn interleave(pieces: Seq<Seq<char>>, values: Seq<Seq<char>>) -> Seq<char>
    decreases values.len(),
{
    if values.len() == 0 || pieces.len() == 0 {
        if pieces.len() == 0 {
            Seq::empty()
        } else {
            pieces[0]
        }
    } else {
        interleave(pieces.drop_last(), values.drop_last()) + values.last() + pieces.last()
    }
}

/// A template of three pieces filled with two values.
pub proof fn lemma_interleave_two(p0: Seq<char>, p1: Seq<char>, p2: Seq<char>, v0: Seq<char>, v1: Seq<char>)
    ensures
        interleave(seq![p0, p1, p2], seq![v0, v1]) == p0 + v0 + p1 + v1 + p2,
{
    reveal_with_fuel(interleave, 3);
    assert(seq![p0, p1, p2].drop_last() =~= seq![p0, p1]);
    assert(seq![v0, v1].drop_last() =~= seq![v0]);
    assert(seq![p0, p1].drop_last() =~= seq![p0]);
    assert(seq![v0].drop_last() =~= Seq::<Seq<char>>::empty());
}

/// A template of four pieces filled with three values.
pub proof fn lemma_interleave_three(
    p0: Seq<char>,
    p1: Seq<char>,
    p2: Seq<char>,
    p3: Seq<char>,
    v0: Seq<char>,
    v1: Seq<char>,
    v2: Seq<char>,
)
    ensures
        interleave(seq![p0, p1, p2, p3], seq![v0, v1, v2]) == p0 + v0 + p1 + v1 + p2 + v2 + p3,
{
    reveal_with_fuel(interleave, 4);
    assert(seq![p0, p1, p2, p3].drop_last() =~= seq![p0, p1, p2]);
    assert(seq![v0, v1, v2].drop_last() =~= seq![v0, v1]);
    lemma_interleave_two(p0, p1, p2, v0, v1);
}

/// Fills in a template: the pieces with the values between them.
pub fn fill_template(pieces: &[&str], values: &[&str]) -> (r: String)
    requires
        pieces@.len() == values@.len() + 1,
    ensures
        r@ == interleave(str_views(pieces@), str_views(values@)),
{
    let mut r = String::new();
    push_str(&mut r, pieces[0]);
    assert(Seq::<char>::empty() + pieces@[0]@ =~= pieces@[0]@);
    let mut i: usize = 0;
    while i < values.len()
        invariant
            i <= values@.len(),
            pieces@.len() == values@.len() + 1,
            r@ == interleave(str_views(pieces@).take(i + 1), str_views(values@).take(i as int)),
        decreases values.len() - i,
    {
        push_str(&mut r, values[i]);
        push_str(&mut r, pieces[i + 1]);
        let ghost ps = str_views(pieces@).take(i + 2);
        let ghost vs = str_views(values@).take(i + 1);
        assert(ps.drop_last() =~= str_views(pieces@).take(i + 1));
        assert(vs.drop_last() =~= str_views(values@).take(i as int));
        assert(ps.last() == pieces@[i + 1]@);
        assert(vs.last() == values@[i as int]@);
        i = i + 1;
    }
    assert(str_views(pieces@).take(values.len() + 1) =~= str_views(pieces@));
    assert(str_views(values@).take(values.len() as int) =~= str_views(values@));
    r
}

/// The decimal digit for a value below 10.
pub open spec fn decimal_digit(n: int) -> char {
    (48 + n) as char
}

/// The decimal text of a number (`u64`'s `Display`): no leading zeros, `0`
/// for zero.
pub open spec fn decimal(n: nat) -> Seq<char>
    decreases n,
{
    if n < 10 {
        seq![decimal_digit(n as int)]
    } else {
        decimal(n / 10) + seq![decimal_digit((n % 10) as int)]
    }
}

/// The decimal text of a number.
pub fn decimal_exec(n: u64) -> (r: String)
    ensures
        r@ == decimal(n as nat),
    decreases n,
{
    if n < 10 {
        let mut r = String::new();
        push_char(&mut r, char_of_digit(n));
        assert(r@ =~= seq![decimal_digit(n as int)]);
        r
    } else {
        let mut r = decimal_exec(n / 10);
        push_char(&mut r, char_of_digit(n % 10));
        r
    }
}

fn char_of_digit(d: u64) -> (c: char)
    requires
        d < 10,
    ensures
        c == decimal_digit(d as int),
{
    if d == 0 { '0' } else if d == 1 { '1' } else if d == 2 { '2' } else if d == 3 { '3' } else if d
        == 4 { '4' } else if d == 5 { '5' } else if d == 6 { '6' } else if d == 7 { '7' } else if d
        == 8 { '8' } else { '9' }
}

/// A copy of a list of strings.
pub fn clone_strings(v: &Vec<String>) -> (r: Vec<String>)
    ensures
        views(r@) == views(v@),
{
    let mut r: Vec<String> = Vec::new();
    let mut i: usize = 0;
    while i < v.len()
        invariant
            i <= v.len(),
            views(r@) == views(v@).take(i as int),
        decreases v.len() - i,
    {
        let ghost before = r@;
        r.push(v[i].clone());
        assert(views(r@) =~= views(before).push(v@[i as int]@));
        assert(views(v@).take(i + 1) =~= views(v@).take(i as int).push(v@[i as int]@));
        i = i + 1;
    }
    assert(views(v@).take(v.len() as int) =~= views(v@));
    r
}

/// Two strings hold the same characters.
pub fn str_eq(a: &str, b: &str) -> (r: bool)
    ensures
        r == (a@ == b@),
{
    let x = chars_of(a);
    let y = chars_of(b);
    if x.len() != y.len() {
        return false;
    }
    let mut i: usize = 0;
    while i < x.len()
        invariant
            i <= x.len(),
            x.len() == y.len(),
            x@ == a@,
            y@ == b@,
            forall|k: int| 0 <= k < i ==> x@[k] == y@[k],
        decreases x.len() - i,
    {
        if x[i] != y[i] {
            return false;
        }
        i = i + 1;
    }
    assert(x@ =~= y@);
    true
}

/// A string holding the characters of `s`.
pub fn to_owned_string(s: &str) -> (out: String)
    ensures
        out@ == s@,
{
    let mut out = String::new();
    push_str(&mut out, s);
    assert(Seq::<char>::empty() + s@ =~= s@);
    out
}

} // verus!
