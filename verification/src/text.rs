//! Text primitives over UTF-8 bytes and chars: decimal rendering, line
//! splitting with the conventions of `str::lines`, and whitespace trimming.

use vstd::prelude::*;

verus! {

/// The ASCII decimal rendering of a natural number, most significant digit first.
pub open spec fn decimal(n: nat) -> Seq<u8>
    decreases n,
{
    if n < 10 {
        seq![(48 + n) as u8]
    } else {
        decimal(n / 10).push((48 + n % 10) as u8)
    }
}

/// The ASCII decimal rendering of an integer, with a leading `-` when negative.
pub open spec fn signed_decimal(n: int) -> Seq<u8> {
    if n < 0 {
        seq![45u8] + decimal((-n) as nat)
    } else {
        decimal(n as nat)
    }
}

/// Appends the decimal rendering of `n` to `out`.
pub fn push_decimal(out: &mut Vec<u8>, n: u64)
    ensures
        final(out)@ == old(out)@ + decimal(n as nat),
    decreases n,
{
    if n >= 10 {
        push_decimal(out, n / 10);
    }
    out.push((48 + n % 10) as u8);
    assert(out@ =~= old(out)@ + decimal(n as nat));
}

/// Appends the decimal rendering of a signed `n` to `out`.
pub fn push_signed_decimal(out: &mut Vec<u8>, n: i64)
    ensures
        final(out)@ == old(out)@ + signed_decimal(n as int),
{
    if n < 0 {
        out.push(45u8);
        let magnitude: u64 = if n == i64::MIN {
            9223372036854775808u64
        } else {
            (-n) as u64
        };
        push_decimal(out, magnitude);
        assert(out@ =~= old(out)@ + signed_decimal(n as int));
    } else {
        push_decimal(out, n as u64);
    }
}


/// Index of the first line feed at or after `i`, or the length when there is none.
pub open spec fn next_newline(b: Seq<u8>, i: int) -> int
    decreases b.len() - i,
{
    if i >= b.len() {
        b.len() as int
    } else if b[i] == 10 {
        i
    } else {
        next_newline(b, i + 1)
    }
}

/// A line that ended with a line feed loses one trailing carriage return.
pub open spec fn strip_cr(l: Seq<u8>) -> Seq<u8> {
    if l.len() > 0 && l.last() == 13 {
        l.drop_last()
    } else {
        l
    }
}

/// The lines of `b` from byte `start` on, split as `str::lines` splits: at each
/// line feed, dropping the terminator and a carriage return just before it; the
/// final line needs no terminator, and a final terminator opens no empty line.
pub open spec fn lines_from(b: Seq<u8>, start: int) -> Seq<Seq<u8>>
    decreases b.len() - start,
{
    if start < 0 || start >= b.len() {
        seq![]
    } else {
        let e = next_newline(b, start);
        proof {
            lemma_next_newline_in_range(b, start);
        }
        if e < b.len() {
            seq![strip_cr(b.subrange(start, e))] + lines_from(b, e + 1)
        } else {
            seq![b.subrange(start, b.len() as int)]
        }
    }
}

/// The lines of a byte string.
pub open spec fn spec_lines(b: Seq<u8>) -> Seq<Seq<u8>> {
    lines_from(b, 0)
}

pub proof fn lemma_next_newline_in_range(b: Seq<u8>, i: int)
    requires
        0 <= i <= b.len(),
    ensures
        i <= next_newline(b, i) <= b.len(),
        next_newline(b, i) < b.len() ==> b[next_newline(b, i)] == 10,
        forall|k: int| i <= k < next_newline(b, i) ==> b[k] != 10,
    decreases b.len() - i,
{
    if i < b.len() && b[i] != 10 {
        lemma_next_newline_in_range(b, i + 1);
    }
}

proof fn lemma_next_newline_skip(b: Seq<u8>, start: int, i: int)
    requires
        0 <= start <= i <= b.len(),
        forall|k: int| start <= k < i ==> b[k] != 10,
    ensures
        next_newline(b, start) == next_newline(b, i),
    decreases i - start,
{
    if start < i {
        lemma_next_newline_skip(b, start + 1, i);
    }
}

/// Appends all of `b` to `out`.
pub fn extend_bytes(out: &mut Vec<u8>, b: &[u8])
    ensures
        final(out)@ == old(out)@ + b@,
{
    let mut i: usize = 0;
    while i < b.len()
        invariant
            i <= b@.len(),
            out@ == old(out)@ + b@.subrange(0, i as int),
        decreases b@.len() - i,
    {
        out.push(b[i]);
        i = i + 1;
        assert(out@ =~= old(out)@ + b@.subrange(0, i as int));
    }
    assert(b@.subrange(0, b@.len() as int) =~= b@);
}

/// Copies `b[from..to]` into a new vector.
pub fn copy_range(b: &[u8], from: usize, to: usize) -> (r: Vec<u8>)
    requires
        from <= to <= b@.len(),
    ensures
        r@ == b@.subrange(from as int, to as int),
{
    let mut r: Vec<u8> = Vec::new();
    let mut i: usize = from;
    while i < to
        invariant
            from <= i <= to <= b@.len(),
            r@ == b@.subrange(from as int, i as int),
        decreases to - i,
    {
        r.push(b[i]);
        i = i + 1;
        assert(r@ =~= b@.subrange(from as int, i as int));
    }
    r
}

/// Splits a byte string into its lines (see `spec_lines`).
pub fn split_lines(b: &[u8]) -> (r: Vec<Vec<u8>>)
    ensures
        r@.map_values(|l: Vec<u8>| l@) == spec_lines(b@),
{
    let mut r: Vec<Vec<u8>> = Vec::new();
    let mut start: usize = 0;
    let mut i: usize = 0;
    let n = b.len();
    while i < n
        invariant
            n == b@.len(),
            start <= i <= n,
            forall|k: int| start <= k < i ==> b@[k] != 10,
            r@.map_values(|l: Vec<u8>| l@) + lines_from(b@, start as int) == spec_lines(b@),
        decreases n - i,
    {
        if b[i] == 10u8 {
            proof {
                lemma_next_newline_skip(b@, start as int, i as int);
            }
            let mut end: usize = i;
            if end > start && b[end - 1] == 13u8 {
                end = end - 1;
            }
            let line = copy_range(b, start, end);
            let ghost old_r = r@.map_values(|l: Vec<u8>| l@);
            r.push(line);
            proof {
                assert(line@ == strip_cr(b@.subrange(start as int, i as int))) by {
                    if i > start && b@[i - 1] == 13 {
                        assert(b@.subrange(start as int, i as int).drop_last()
                            =~= b@.subrange(start as int, i - 1));
                    }
                }
                assert(r@.map_values(|l: Vec<u8>| l@) =~= old_r.push(line@));
                assert(lines_from(b@, start as int) =~= seq![line@] + lines_from(b@, i + 1));
                assert(r@.map_values(|l: Vec<u8>| l@) + lines_from(b@, i + 1) =~= old_r
                    + lines_from(b@, start as int));
            }
            start = i + 1;
        }
        i = i + 1;
    }
    if start < n {
        proof {
            lemma_next_newline_skip(b@, start as int, n as int);
        }
        let line = copy_range(b, start, n);
        let ghost old_r = r@.map_values(|l: Vec<u8>| l@);
        r.push(line);
        assert(r@.map_values(|l: Vec<u8>| l@) =~= old_r.push(line@));
        assert(lines_from(b@, start as int) =~= seq![line@]);
    }
    assert(r@.map_values(|l: Vec<u8>| l@) =~= spec_lines(b@));
    r
}


/// The characters with the Unicode `White_Space` property.
pub open spec fn is_unicode_whitespace(c: char) -> bool {
    let u = c as u32;
    ||| 9 <= u <= 13
    ||| u == 32
    ||| u == 0x85
    ||| u == 0xA0
    ||| u == 0x1680
    ||| 0x2000 <= u <= 0x200A
    ||| u == 0x2028
    ||| u == 0x2029
    ||| u == 0x202F
    ||| u == 0x205F
    ||| u == 0x3000
}

/// Whether `c` is whitespace, as `char::is_whitespace` decides it: the
/// characters with the Unicode `White_Space` property.
pub fn is_whitespace(c: char) -> (r: bool)
    ensures
        r == is_unicode_whitespace(c),
{
    let u = c as u32;
    (9 <= u && u <= 13) || u == 32 || u == 0x85 || u == 0xA0 || u == 0x1680 || (0x2000 <= u && u
        <= 0x200A) || u == 0x2028 || u == 0x2029 || u == 0x202F || u == 0x205F || u == 0x3000
}

/// `s` without its leading whitespace.
pub open spec fn trim_start(s: Seq<char>) -> Seq<char>
    decreases s.len(),
{
    if s.len() > 0 && is_unicode_whitespace(s[0]) {
        trim_start(s.drop_first())
    } else {
        s
    }
}

/// `s` without its trailing whitespace.
pub open spec fn trim_end(s: Seq<char>) -> Seq<char>
    decreases s.len(),
{
    if s.len() > 0 && is_unicode_whitespace(s.last()) {
        trim_end(s.drop_last())
    } else {
        s
    }
}

/// `s` without leading and trailing whitespace, as `str::trim` gives it.
pub open spec fn trim(s: Seq<char>) -> Seq<char> {
    trim_end(trim_start(s))
}

/// Whether `s`, once trimmed, is exactly `expected`.
pub fn trimmed_equals(s: &str, expected: &Vec<char>) -> (r: bool)
    ensures
        r == (trim(s@) == expected@),
{
    let n = s.unicode_len();
    let mut lo: usize = 0;
    assert(s@.subrange(0, n as int) =~= s@);
    while lo < n && is_whitespace(s.get_char(lo))
        invariant
            n == s@.len(),
            lo <= n,
            trim_start(s@) == trim_start(s@.subrange(lo as int, n as int)),
        decreases n - lo,
    {
        assert(s@.subrange(lo as int, n as int).drop_first() =~= s@.subrange(lo + 1, n as int));
        lo = lo + 1;
    }
    assert(trim_start(s@) == s@.subrange(lo as int, n as int));
    let mut hi: usize = n;
    while hi > lo && is_whitespace(s.get_char(hi - 1))
        invariant
            n == s@.len(),
            lo <= hi <= n,
            trim(s@) == trim_end(s@.subrange(lo as int, hi as int)),
        decreases hi - lo,
    {
        assert(s@.subrange(lo as int, hi as int).drop_last() =~= s@.subrange(lo as int, hi - 1));
        hi = hi - 1;
    }
    assert(trim(s@) == s@.subrange(lo as int, hi as int));
    if hi - lo != expected.len() {
        assert(trim(s@).len() != expected@.len());
        return false;
    }
    let mut k: usize = 0;
    while k < expected.len()
        invariant
            n == s@.len(),
            lo <= hi <= n,
            hi - lo == expected@.len(),
            trim(s@) == s@.subrange(lo as int, hi as int),
            forall|j: int| 0 <= j < k ==> s@[lo + j] == expected@[j],
            k <= expected@.len(),
        decreases expected@.len() - k,
    {
        if s.get_char(lo + k) != expected[k] {
            assert(s@.subrange(lo as int, hi as int)[k as int] != expected@[k as int]);
            return false;
        }
        k = k + 1;
    }
    assert(s@.subrange(lo as int, hi as int) =~= expected@);
    true
}

} // verus!
