//! The evidence log: lines of `time,hash,path`, newest last.
//!
//! Finding the latest hash recorded for a path reads the log backwards in
//! blocks, so that only the end of a large log is read. [`ReverseScan`] holds
//! the decisions of that search; the application reads the blocks it asks for.

use vstd::prelude::*;
use vstd::utf8::{decode_utf8, encode_scalar, encode_utf8, has_width_1_encoding, valid_utf8};
use crate::event::copy_bytes;
use crate::text::{chars_of, find_char, find_char_exec, slice_chars, string_of, trim, trim_chars};

verus! {

/// Where evidence lines are written, and where the latest hash of a path is
/// found again.
pub trait Logger {
    /// Appends a line to the log.
    fn log(&self, message: &str);

    /// The hash the log last recorded for `path`, if any.
    fn find_latest_hash(&self, path: &str) -> Result<Option<String>, crate::error::WatcherError>;
}

/// The size of the blocks the log is read in.
pub const BUFFER_SIZE: usize = 8192;


/// The text `String::from_utf8_lossy` makes of a byte sequence.
pub uninterp spec fn spec_utf8_lossy(bytes: Seq<u8>) -> Seq<char>;

/// Calls `String::from_utf8_lossy`; the result is named `spec_utf8_lossy`. As
/// its documentation says, valid UTF-8 is decoded unchanged.
#[verifier::external_body]
pub(crate) fn utf8_lossy(bytes: &[u8]) -> (r: String)
    ensures
        r@ == spec_utf8_lossy(bytes@),
        valid_utf8(bytes@) ==> r@ == decode_utf8(bytes@),
{
    String::from_utf8_lossy(bytes).into_owned()
}

/// The lines of a text: the pieces between `\n` characters (`str::split('\n')`).
pub open spec fn split_lines(s: Seq<char>) -> Seq<Seq<char>>
    decreases s.len(),
{
    if s.len() == 0 {
        seq![Seq::empty()]
    } else {
        let rest = split_lines(s.drop_last());
        if s.last() == '\n' {
            rest.push(Seq::empty())
        } else {
            rest.update(rest.len() - 1, rest.last().push(s.last()))
        }
    }
}

/// A text has at least one line.
pub proof fn lemma_split_lines_nonempty(s: Seq<char>)
    ensures
        split_lines(s).len() >= 1,
    decreases s.len(),
{
    if s.len() > 0 {
        lemma_split_lines_nonempty(s.drop_last());
    }
}

/// Splits a text into its lines.
pub fn split_lines_exec(cs: &[char]) -> (r: Vec<Vec<char>>)
    ensures
        r@.map_values(|l: Vec<char>| l@) == split_lines(cs@),
{
    let mut lines: Vec<Vec<char>> = Vec::new();
    let mut cur: Vec<char> = Vec::new();
    let mut i: usize = 0;
    while i < cs.len()
        invariant
            i <= cs.len(),
            lines@.map_values(|l: Vec<char>| l@).push(cur@) == split_lines(cs@.take(i as int)),
        decreases cs.len() - i,
    {
        let ghost prev = cs@.take(i as int);
        let ghost next = cs@.take(i + 1);
        assert(next.drop_last() =~= prev);
        assert(next.last() == cs@[i as int]);
        proof {
            lemma_split_lines_nonempty(prev);
        }
        let ghost old_lines = lines@.map_values(|l: Vec<char>| l@);
        let ghost old_cur = cur@;
        if cs[i] == '\n' {
            let mut done: Vec<char> = Vec::new();
            std::mem::swap(&mut done, &mut cur);
            lines.push(done);
            assert(lines@.map_values(|l: Vec<char>| l@) =~= old_lines.push(old_cur));
            assert(cur@ =~= Seq::<char>::empty());
        } else {
            cur.push(cs[i]);
            assert(old_lines.push(old_cur).update(
                old_lines.push(old_cur).len() - 1,
                old_lines.push(old_cur).last().push(cs@[i as int]),
            ) =~= old_lines.push(cur@));
        }
        i = i + 1;
    }
    assert(cs@.take(cs.len() as int) =~= cs@);
    let ghost before = lines@.map_values(|l: Vec<char>| l@);
    lines.push(cur);
    assert(lines@.map_values(|l: Vec<char>| l@) =~= before.push(lines@.last()@));
    lines
}

/// The hash and path fields of a `time,hash,path` line (`splitn(3, ',')`
/// yields three pieces), or `None` when the line has fewer than two commas.
pub open spec fn hash_and_path(line: Seq<char>) -> Option<(Seq<char>, Seq<char>)> {
    let i = find_char(line, ',');
    if i < 0 {
        None
    } else {
        let rest = line.subrange(i + 1, line.len() as int);
        let j = find_char(rest, ',');
        if j < 0 {
            None
        } else {
            Some((rest.subrange(0, j), rest.subrange(j + 1, rest.len() as int)))
        }
    }
}

/// The hash a log line records for `target`, if it records one.
pub open spec fn line_hash(line: Seq<char>, target: Seq<char>) -> Option<Seq<char>> {
    match hash_and_path(line) {
        Some((h, p)) => if trim(p) == target {
            Some(h)
        } else {
            None
        },
        None => None,
    }
}

/// The hash that the latest of the lines recording `target` records.
pub open spec fn latest_hash(lines: Seq<Seq<char>>, target: Seq<char>) -> Option<Seq<char>>
    decreases lines.len(),
{
    if lines.len() == 0 {
        None
    } else {
        match line_hash(lines.last(), target) {
            Some(h) => if trim(lines.last()).len() == 0 {
                latest_hash(lines.drop_last(), target)
            } else {
                Some(h)
            },
            None => latest_hash(lines.drop_last(), target),
        }
    }
}

/// The hash a log line records for `target`.
pub fn line_hash_exec(line: &[char], target: &[char]) -> (r: Option<Vec<char>>)
    ensures
        match r {
            Some(h) => line_hash(line@, target@) == Some(h@),
            None => line_hash(line@, target@) is None,
        },
{
    let i = match find_char_exec(line, ',') {
        Some(i) => i,
        None => {
            return None;
        },
    };
    let rest = slice_chars(line, i + 1, line.len());
    let j = match find_char_exec(rest.as_slice(), ',') {
        Some(j) => j,
        None => {
            return None;
        },
    };
    let hash = slice_chars(rest.as_slice(), 0, j);
    let path = slice_chars(rest.as_slice(), j + 1, rest.len());
    let trimmed = trim_chars(path.as_slice());
    if chars_eq(trimmed.as_slice(), target) {
        Some(hash)
    } else {
        None
    }
}

/// Two character sequences are equal.
fn chars_eq(a: &[char], b: &[char]) -> (r: bool)
    ensures
        r == (a@ == b@),
{
    if a.len() != b.len() {
        return false;
    }
    let mut i: usize = 0;
    while i < a.len()
        invariant
            i <= a.len(),
            a.len() == b.len(),
            forall|k: int| 0 <= k < i ==> a@[k] == b@[k],
        decreases a.len() - i,
    {
        if a[i] != b[i] {
            return false;
        }
        i = i + 1;
    }
    assert(a@ =~= b@);
    true
}

/// The latest hash recorded for `target` in a block of lines, scanning from
/// the last line back.
pub fn latest_hash_exec(lines: &[Vec<char>], target: &[char]) -> (r: Option<Vec<char>>)
    ensures
        match r {
            Some(h) => latest_hash(lines@.map_values(|l: Vec<char>| l@), target@) == Some(h@),
            None => latest_hash(lines@.map_values(|l: Vec<char>| l@), target@) is None,
        },
{
    let ghost all = lines@.map_values(|l: Vec<char>| l@);
    let mut k: usize = lines.len();
    assert(all.take(k as int) =~= all);
    while k > 0
        invariant
            k <= lines.len(),
            all == lines@.map_values(|l: Vec<char>| l@),
            latest_hash(all, target@) == latest_hash(all.take(k as int), target@),
        decreases k,
    {
        let ghost pre = all.take(k as int);
        assert(pre.drop_last() =~= all.take(k - 1));
        assert(pre.last() == lines@[k - 1]@);
        let line = &lines[k - 1];
        let trimmed = trim_chars(line.as_slice());
        if trimmed.len() > 0 {
            match line_hash_exec(line.as_slice(), target) {
                Some(h) => {
                    return Some(h);
                },
                None => {},
            }
        }
        k = k - 1;
    }
    assert(all.take(0) =~= Seq::<Seq<char>>::empty());
    None
}

/// The lines of a byte sequence: the pieces between `\n` bytes.
pub open spec fn split_byte_lines(b: Seq<u8>) -> Seq<Seq<u8>>
    decreases b.len(),
{
    if b.len() == 0 {
        seq![Seq::empty()]
    } else {
        let rest = split_byte_lines(b.drop_last());
        if b.last() == 10u8 {
            rest.push(Seq::empty())
        } else {
            rest.update(rest.len() - 1, rest.last().push(b.last()))
        }
    }
}

/// A byte sequence has at least one line.
pub proof fn lemma_split_byte_lines_nonempty(b: Seq<u8>)
    ensures
        split_byte_lines(b).len() >= 1,
    decreases b.len(),
{
    if b.len() > 0 {
        lemma_split_byte_lines_nonempty(b.drop_last());
    }
}

/// Splits a byte sequence into its lines.
pub fn split_byte_lines_exec(bs: &[u8]) -> (r: Vec<Vec<u8>>)
    ensures
        r@.map_values(|l: Vec<u8>| l@) == split_byte_lines(bs@),
{
    let mut lines: Vec<Vec<u8>> = Vec::new();
    let mut cur: Vec<u8> = Vec::new();
    let mut i: usize = 0;
    while i < bs.len()
        invariant
            i <= bs.len(),
            lines@.map_values(|l: Vec<u8>| l@).push(cur@) == split_byte_lines(bs@.take(i as int)),
        decreases bs.len() - i,
    {
        let ghost prev = bs@.take(i as int);
        let ghost next = bs@.take(i + 1);
        assert(next.drop_last() =~= prev);
        assert(next.last() == bs@[i as int]);
        proof {
            lemma_split_byte_lines_nonempty(prev);
        }
        let ghost old_lines = lines@.map_values(|l: Vec<u8>| l@);
        let ghost old_cur = cur@;
        if bs[i] == 10u8 {
            let mut done: Vec<u8> = Vec::new();
            std::mem::swap(&mut done, &mut cur);
            lines.push(done);
            assert(lines@.map_values(|l: Vec<u8>| l@) =~= old_lines.push(old_cur));
            assert(cur@ =~= Seq::<u8>::empty());
        } else {
            cur.push(bs[i]);
            assert(old_lines.push(old_cur).update(
                old_lines.push(old_cur).len() - 1,
                old_lines.push(old_cur).last().push(bs@[i as int]),
            ) =~= old_lines.push(cur@));
        }
        i = i + 1;
    }
    assert(bs@.take(bs.len() as int) =~= bs@);
    let ghost before = lines@.map_values(|l: Vec<u8>| l@);
    lines.push(cur);
    assert(lines@.map_values(|l: Vec<u8>| l@) =~= before.push(lines@.last()@));
    lines
}

/// The text of a line of the log: its UTF-8 decoding when the bytes are
/// valid UTF-8, otherwise what `String::from_utf8_lossy` makes of them.
pub open spec fn line_text(l: Seq<u8>) -> Seq<char> {
    if valid_utf8(l) {
        decode_utf8(l)
    } else {
        spec_utf8_lossy(l)
    }
}

/// The texts of lines of the log.
pub open spec fn line_texts(ls: Seq<Seq<u8>>) -> Seq<Seq<char>> {
    ls.map_values(|l: Seq<u8>| line_text(l))
}

/// Where the block that ends at `pos` starts.
pub open spec fn block_start(pos: int) -> int {
    if pos >= BUFFER_SIZE as int {
        pos - BUFFER_SIZE as int
    } else {
        0
    }
}

/// The model of one step: the block followed by the cut line kept from the
/// step before is split into lines at `\n` bytes; when more of the log lies
/// before the block, its first line may be cut and is kept, as bytes, for the
/// next step. Each whole line is decoded on its own.
pub open spec fn spec_scan_step(chunk: Seq<u8>, leftover: Seq<u8>, more_before: bool, target: Seq<char>) -> (
    Option<Seq<char>>,
    Seq<u8>,
) {
    let lines = split_byte_lines(chunk + leftover);
    if more_before {
        (latest_hash(line_texts(lines.drop_first()), target), lines[0])
    } else {
        (latest_hash(line_texts(lines), target), Seq::empty())
    }
}

/// The backward search over a log, from `pos` down, with the cut line `left`.
pub open spec fn scan_run(log: Seq<u8>, pos: int, left: Seq<u8>, target: Seq<char>) -> Option<
    Seq<char>,
>
    decreases pos,
{
    if pos <= 0 || pos > log.len() {
        None
    } else {
        let np = block_start(pos);
        let (f, k) = spec_scan_step(log.subrange(np, pos), left, np > 0, target);
        match f {
            Some(h) => Some(h),
            None => if np > 0 {
                scan_run(log, np, k, target)
            } else {
                None
            },
        }
    }
}

/// Splitting `p + q` cuts `q` where splitting `q` alone does: the first line
/// of `q` joins the last line of `p`.
proof fn lemma_split_byte_lines_concat(p: Seq<u8>, q: Seq<u8>)
    ensures
        split_byte_lines(p + q) == split_byte_lines(p + split_byte_lines(q)[0]) + split_byte_lines(
            q,
        ).drop_first(),
    decreases q.len(),
{
    if q.len() == 0 {
        assert(p + q =~= p);
        assert(p + Seq::<u8>::empty() =~= p);
        assert(split_byte_lines(q).drop_first() =~= Seq::<Seq<u8>>::empty());
        assert(split_byte_lines(p) + Seq::<Seq<u8>>::empty() =~= split_byte_lines(p));
    } else {
        let q1 = q.drop_last();
        let c = q.last();
        lemma_split_byte_lines_concat(p, q1);
        lemma_split_byte_lines_nonempty(q1);
        lemma_split_byte_lines_nonempty(p + q1);
        assert((p + q).drop_last() =~= p + q1);
        assert((p + q).last() == c);
        let a = split_byte_lines(p + split_byte_lines(q1)[0]);
        let r1 = split_byte_lines(q1).drop_first();
        lemma_split_byte_lines_nonempty(p + split_byte_lines(q1)[0]);
        if c == 10u8 {
            assert(split_byte_lines(q) == split_byte_lines(q1).push(Seq::empty()));
            assert(split_byte_lines(q)[0] == split_byte_lines(q1)[0]);
            assert(split_byte_lines(q).drop_first() =~= r1.push(Seq::empty()));
            assert((a + r1).push(Seq::empty()) =~= a + r1.push(Seq::empty()));
        } else {
            let sq1 = split_byte_lines(q1);
            assert(split_byte_lines(q) == sq1.update(sq1.len() - 1, sq1.last().push(c)));
            if sq1.len() == 1 {
                let q0 = sq1[0];
                assert(split_byte_lines(q)[0] == q0.push(c));
                assert(split_byte_lines(q).drop_first() =~= Seq::<Seq<u8>>::empty());
                let pq = p + q0.push(c);
                assert(pq.drop_last() =~= p + q0);
                assert(pq.last() == c);
                assert(r1 =~= Seq::<Seq<u8>>::empty());
                assert(a + r1 =~= a);
                assert(split_byte_lines(p + q) =~= split_byte_lines(pq) + Seq::<Seq<u8>>::empty());
            } else {
                assert(split_byte_lines(q)[0] == sq1[0]);
                assert(split_byte_lines(q).drop_first() =~= r1.update(
                    r1.len() - 1,
                    r1.last().push(c),
                ));
                assert((a + r1).update((a + r1).len() - 1, (a + r1).last().push(c)) =~= a
                    + r1.update(r1.len() - 1, r1.last().push(c)));
            }
        }
    }
}

/// The latest match in `a + b` is the latest in `b`, or else the latest in `a`.
pub proof fn lemma_latest_hash_concat(a: Seq<Seq<char>>, b: Seq<Seq<char>>, target: Seq<char>)
    ensures
        latest_hash(a + b, target) == match latest_hash(b, target) {
            Some(h) => Some(h),
            None => latest_hash(a, target),
        },
    decreases b.len(),
{
    if b.len() == 0 {
        assert(a + b =~= a);
    } else {
        assert((a + b).drop_last() =~= a + b.drop_last());
        assert((a + b).last() == b.last());
        lemma_latest_hash_concat(a, b.drop_last(), target);
    }
}

proof fn lemma_scan_run(log: Seq<u8>, pos: int, left: Seq<u8>, target: Seq<char>)
    requires
        0 < pos <= log.len(),
    ensures
        scan_run(log, pos, left, target) == latest_hash(
            line_texts(split_byte_lines(log.subrange(0, pos) + left)),
            target,
        ),
    decreases pos,
{
    let np = block_start(pos);
    let chunk = log.subrange(np, pos);
    let q = chunk + left;
    let lines = split_byte_lines(q);
    lemma_split_byte_lines_nonempty(q);
    if np > 0 {
        let pre = log.subrange(0, np);
        assert(log.subrange(0, pos) + left =~= pre + q);
        lemma_split_byte_lines_concat(pre, q);
        let a = split_byte_lines(pre + lines[0]);
        assert(line_texts(a + lines.drop_first()) =~= line_texts(a) + line_texts(lines.drop_first()));
        lemma_latest_hash_concat(line_texts(a), line_texts(lines.drop_first()), target);
        lemma_scan_run(log, np, lines[0], target);
    } else {
        assert(chunk =~= log.subrange(0, pos));
    }
}

/// Reading the log backwards block by block finds the hash of the latest line
/// that records the path, exactly as scanning all of its lines from the end
/// does, whatever bytes the log holds.
pub proof fn law_reverse_scan_finds_latest(log: Seq<u8>, target: Seq<char>)
    ensures
        scan_run(log, log.len() as int, Seq::empty(), target) == if log.len() == 0 {
            None
        } else {
            latest_hash(line_texts(split_byte_lines(log)), target)
        },
{
    if log.len() > 0 {
        lemma_scan_run(log, log.len() as int, Seq::empty(), target);
        assert(log.subrange(0, log.len() as int) + Seq::<u8>::empty() =~= log);
    }
}

/// Encoding a text with one more character appends that character's encoding.
proof fn lemma_encode_utf8_push(s: Seq<char>, c: char)
    ensures
        encode_utf8(s.push(c)) == encode_utf8(s) + encode_scalar(c as u32),
    decreases s.len(),
{
    if s.len() == 0 {
        assert(s.push(c).drop_first() =~= Seq::<char>::empty());
        assert(s.push(c)[0] == c);
        assert(encode_utf8(Seq::<char>::empty()) =~= Seq::<u8>::empty());
        assert(encode_utf8(s) =~= Seq::<u8>::empty());
        assert(encode_scalar(c as u32) + Seq::<u8>::empty() =~= encode_scalar(c as u32));
        assert(Seq::<u8>::empty() + encode_scalar(c as u32) =~= encode_scalar(c as u32));
    } else {
        assert(s.push(c).drop_first() =~= s.drop_first().push(c));
        assert(s.push(c)[0] == s[0]);
        lemma_encode_utf8_push(s.drop_first(), c);
        assert(encode_scalar(s[0] as u32) + (encode_utf8(s.drop_first()) + encode_scalar(c as u32))
            =~= (encode_scalar(s[0] as u32) + encode_utf8(s.drop_first())) + encode_scalar(
            c as u32,
        ));
    }
}

/// The encoding of a character other than `\n` holds no `\n` byte; that of
/// `\n` is the single byte 10.
proof fn lemma_encode_scalar_newline(c: char)
    ensures
        c == '\n' ==> encode_scalar(c as u32) == seq![10u8],
        c != '\n' ==> forall|i: int|
            0 <= i < encode_scalar(c as u32).len() ==> #[trigger] encode_scalar(c as u32)[i] != 10u8,
{
    let v = c as u32;
    vstd::utf8::char_is_scalar(c);
    if has_width_1_encoding(v) {
        assert((v & 0x7F) as u8 == v as u8) by (bit_vector)
            requires
                v <= 0x7F,
        ;
        if c != '\n' {
            vstd::utf8::char_u32_cast(c, v);
            assert(v != 10);
        }
    } else {
        assert((0x80u8 | ((v & 0x3F) as u8)) >= 0x80u8) by (bit_vector);
        assert((0x80u8 | (((v >> 6u32) & 0x3F) as u8)) >= 0x80u8) by (bit_vector);
        assert((0x80u8 | (((v >> 12u32) & 0x3F) as u8)) >= 0x80u8) by (bit_vector);
        assert((0xC0u8 | (((v >> 6u32) & 0x1F) as u8)) >= 0x80u8) by (bit_vector);
        assert((0xE0u8 | (((v >> 12u32) & 0x0F) as u8)) >= 0x80u8) by (bit_vector);
        assert((0xF0u8 | (((v >> 18u32) & 0x7) as u8)) >= 0x80u8) by (bit_vector);
    }
}

/// Splitting `p` extended by bytes without `\n` extends the last line of `p`.
proof fn lemma_split_byte_lines_extend(p: Seq<u8>, e: Seq<u8>)
    requires
        forall|i: int| 0 <= i < e.len() ==> e[i] != 10u8,
    ensures
        split_byte_lines(p + e) == split_byte_lines(p).update(
            split_byte_lines(p).len() - 1,
            split_byte_lines(p).last() + e,
        ),
    decreases e.len(),
{
    lemma_split_byte_lines_nonempty(p);
    if e.len() == 0 {
        assert(p + e =~= p);
        assert(split_byte_lines(p).last() + e =~= split_byte_lines(p).last());
        assert(split_byte_lines(p).update(split_byte_lines(p).len() - 1, split_byte_lines(p).last())
            =~= split_byte_lines(p));
    } else {
        let e1 = e.drop_last();
        lemma_split_byte_lines_extend(p, e1);
        assert((p + e).drop_last() =~= p + e1);
        assert((p + e).last() == e.last());
        assert(e.last() == e[e.len() - 1]);
        let sp = split_byte_lines(p);
        let s1 = split_byte_lines(p + e1);
        assert(s1.len() == sp.len());
        assert((sp.last() + e1).push(e.last()) =~= sp.last() + e);
        assert(s1.update(s1.len() - 1, s1.last().push(e.last())) =~= sp.update(
            sp.len() - 1,
            sp.last() + e,
        ));
    }
}

/// The lines of the UTF-8 encoding of a text are the encodings of its lines.
proof fn lemma_split_encoded_lines(s: Seq<char>)
    ensures
        split_byte_lines(encode_utf8(s)) == split_lines(s).map_values(|l: Seq<char>| encode_utf8(l)),
    decreases s.len(),
{
    if s.len() == 0 {
        assert(split_lines(s).map_values(|l: Seq<char>| encode_utf8(l)) =~= seq![
            Seq::<u8>::empty(),
        ]);
    } else {
        let s1 = s.drop_last();
        let c = s.last();
        assert(s1.push(c) =~= s);
        lemma_encode_utf8_push(s1, c);
        lemma_split_encoded_lines(s1);
        lemma_split_lines_nonempty(s1);
        lemma_encode_scalar_newline(c);
        let e = encode_scalar(c as u32);
        let p = encode_utf8(s1);
        let ls = split_lines(s1);
        if c == '\n' {
            assert(p + e =~= p.push(10u8));
            assert((p + e).drop_last() =~= p);
            assert(split_lines(s).map_values(|l: Seq<char>| encode_utf8(l)) =~= ls.map_values(
                |l: Seq<char>| encode_utf8(l),
            ).push(Seq::empty()));
        } else {
            lemma_split_byte_lines_extend(p, e);
            lemma_encode_utf8_push(ls.last(), c);
            assert(split_lines(s) == ls.update(ls.len() - 1, ls.last().push(c)));
            assert(split_lines(s).map_values(|l: Seq<char>| encode_utf8(l)) =~= ls.map_values(
                |l: Seq<char>| encode_utf8(l),
            ).update(ls.len() - 1, encode_utf8(ls.last()) + e));
        }
    }
}

/// For a log that is valid UTF-8, the backward search finds the hash of the
/// latest line of the log's text that records the path, whatever characters
/// the blocks cut.
pub proof fn law_reverse_scan_finds_latest_in_text(text: Seq<char>, target: Seq<char>)
    ensures
        scan_run(encode_utf8(text), encode_utf8(text).len() as int, Seq::empty(), target) == if text.len()
            == 0 {
            None
        } else {
            latest_hash(split_lines(text), target)
        },
{
    let log = encode_utf8(text);
    law_reverse_scan_finds_latest(log, target);
    lemma_split_encoded_lines(text);
    let ls = split_lines(text);
    assert forall|i: int| 0 <= i < ls.len() implies line_texts(split_byte_lines(log))[i] == ls[i] by {
        vstd::utf8::encode_utf8_valid_utf8(ls[i]);
        vstd::utf8::encode_utf8_decode_utf8(ls[i]);
    }
    assert(line_texts(split_byte_lines(log)) =~= ls);
    if text.len() > 0 {
        lemma_encode_utf8_push(text.drop_last(), text.last());
        assert(text.drop_last().push(text.last()) =~= text);
        lemma_encode_scalar_newline(text.last());
        vstd::utf8::char_is_scalar(text.last());
        assert(encode_scalar(text.last() as u32).len() >= 1);
    }
}

/// What a step of the backward search found.
pub enum ScanOutcome {
    /// The latest hash recorded for the path.
    Found(String),
    /// Nothing yet; read the block [`ReverseScan::next_read`] names.
    Continue,
    /// The log records no hash for the path.
    NotFound,
}

/// The backward search for the latest hash recorded for a path: how much of
/// the log is left to read, and the start of a line cut by the last block.
pub struct ReverseScan {
    pos: u64,
    leftover: Vec<u8>,
}

impl ReverseScan {
    /// How much of the log is left to read (it is read from its start up to here).
    pub closed spec fn position(&self) -> u64 {
        self.pos
    }

    /// The start of the line cut by the last block read.
    pub closed spec fn pending(&self) -> Seq<u8> {
        self.leftover@
    }

    /// A search over a log of `file_size` bytes.
    pub fn new(file_size: u64) -> (r: ReverseScan)
        ensures
            r.position() == file_size,
            r.pending() == Seq::<u8>::empty(),
    {
        ReverseScan { pos: file_size, leftover: Vec::new() }
    }

    /// The size of the next block to read; it ends where the unread part of
    /// the log ends. Zero when nothing is left.
    pub open spec fn spec_read_size(&self) -> u64 {
        if self.position() >= BUFFER_SIZE as u64 {
            BUFFER_SIZE as u64
        } else {
            self.position()
        }
    }

    /// The block to read next: its offset and length, or `None` when the
    /// whole log has been read.
    pub fn next_read(&self) -> (r: Option<(u64, usize)>)
        ensures
            match r {
                Some((off, len)) => len as u64 == self.spec_read_size() && len > 0 && off
                    == self.position() - len,
                None => self.spec_read_size() == 0,
            },
    {
        let read_size: usize = if self.pos >= BUFFER_SIZE as u64 {
            BUFFER_SIZE
        } else {
            self.pos as usize
        };
        if read_size == 0 {
            None
        } else {
            Some((self.pos - read_size as u64, read_size))
        }
    }

    /// Takes the block [`ReverseScan::next_read`] named and searches it.
    pub fn feed(&mut self, chunk: &[u8], target: &str) -> (r: ScanOutcome)
        requires
            chunk@.len() == old(self).spec_read_size(),
            chunk@.len() > 0,
        ensures
            final(self).position() == old(self).position() - chunk@.len(),
            ({
                let (found, kept) = spec_scan_step(
                    chunk@,
                    old(self).pending(),
                    final(self).position() > 0,
                    target@,
                );
                &&& final(self).pending() == kept
                &&& match found {
                    Some(h) => r matches ScanOutcome::Found(x) && x@ == h,
                    None => if final(self).position() > 0 {
                        r is Continue
                    } else {
                        r is NotFound
                    },
                }
            }),
    {
        self.pos = self.pos - chunk.len() as u64;
        let mut bytes: Vec<u8> = Vec::new();
        let mut i: usize = 0;
        while i < chunk.len()
            invariant
                i <= chunk.len(),
                bytes@ == chunk@.take(i as int),
            decreases chunk.len() - i,
        {
            bytes.push(chunk[i]);
            assert(chunk@.take(i as int).push(chunk@[i as int]) =~= chunk@.take(i + 1));
            i = i + 1;
        }
        assert(chunk@.take(chunk.len() as int) =~= chunk@);
        let mut j: usize = 0;
        let ghost before = bytes@;
        while j < self.leftover.len()
            invariant
                j <= self.leftover@.len(),
                bytes@ == before + self.leftover@.take(j as int),
            decreases self.leftover.len() - j,
        {
            bytes.push(self.leftover[j]);
            assert(self.leftover@.take(j as int).push(self.leftover@[j as int])
                =~= self.leftover@.take(j + 1));
            j = j + 1;
        }
        assert(self.leftover@.take(self.leftover.len() as int) =~= self.leftover@);
        assert(bytes@ == chunk@ + old(self).pending());
        let lines = split_byte_lines_exec(bytes.as_slice());
        let ghost all = lines@.map_values(|l: Vec<u8>| l@);
        proof {
            lemma_split_byte_lines_nonempty(bytes@);
        }
        let tcs = chars_of(target);
        if self.pos > 0 {
            self.leftover = copy_bytes(&lines[0]);
            let decoded = decode_lines(&lines, 1);
            assert(all.subrange(1, all.len() as int) =~= all.drop_first());
            match latest_hash_exec(decoded.as_slice(), tcs.as_slice()) {
                Some(h) => ScanOutcome::Found(string_of(h.as_slice())),
                None => ScanOutcome::Continue,
            }
        } else {
            self.leftover = Vec::new();
            let decoded = decode_lines(&lines, 0);
            assert(all.subrange(0, all.len() as int) =~= all);
            match latest_hash_exec(decoded.as_slice(), tcs.as_slice()) {
                Some(h) => ScanOutcome::Found(string_of(h.as_slice())),
                None => ScanOutcome::NotFound,
            }
        }
    }
}

/// The texts of the lines from index `from` on, each decoded on its own.
fn decode_lines(lines: &Vec<Vec<u8>>, from: usize) -> (r: Vec<Vec<char>>)
    requires
        from <= lines@.len(),
    ensures
        r@.map_values(|l: Vec<char>| l@) == line_texts(
            lines@.map_values(|l: Vec<u8>| l@).subrange(from as int, lines@.len() as int),
        ),
{
    let ghost all = lines@.map_values(|l: Vec<u8>| l@);
    let mut out: Vec<Vec<char>> = Vec::new();
    let mut k: usize = from;
    while k < lines.len()
        invariant
            from <= k <= lines@.len(),
            all == lines@.map_values(|l: Vec<u8>| l@),
            out@.map_values(|l: Vec<char>| l@) == line_texts(all.subrange(from as int, k as int)),
        decreases lines.len() - k,
    {
        let ghost old_out = out@.map_values(|l: Vec<char>| l@);
        let text = utf8_lossy(lines[k].as_slice());
        assert(text@ == line_text(all[k as int]));
        out.push(chars_of(text.as_str()));
        assert(out@.map_values(|l: Vec<char>| l@) =~= old_out.push(text@));
        assert(all.subrange(from as int, k + 1) =~= all.subrange(from as int, k as int).push(
            all[k as int],
        ));
        assert(line_texts(all.subrange(from as int, k + 1)) =~= line_texts(
            all.subrange(from as int, k as int),
        ).push(line_text(all[k as int])));
        k = k + 1;
    }
    out
}

} // verus!
