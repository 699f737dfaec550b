//! What line splitting and trimming do, stated over their inputs: lines are
//! the text between line feeds, and trimming removes only whitespace at the
//! two ends.

use vstd::prelude::*;

use crate::text::{
    is_unicode_whitespace, lemma_next_newline_in_range, lines_from, next_newline, spec_lines, trim,
    trim_end, trim_start,
};

verus! {

/// Whether `s` holds no line feed.
pub open spec fn no_line_feed(s: Seq<u8>) -> bool {
    forall|i: int| 0 <= i < s.len() ==> #[trigger] s[i] != 10
}

proof fn lemma_newline_shift(pre: Seq<u8>, rest: Seq<u8>, i: int)
    requires
        0 <= i <= rest.len(),
    ensures
        next_newline(pre + rest, pre.len() + i) == pre.len() + next_newline(rest, i),
    decreases rest.len() - i,
{
    let b = pre + rest;
    if i < rest.len() {
        assert(b[pre.len() + i] == rest[i]);
        if rest[i] != 10 {
            lemma_newline_shift(pre, rest, i + 1);
        }
    }
}

proof fn lemma_lines_shift(pre: Seq<u8>, rest: Seq<u8>, i: int)
    requires
        0 <= i,
    ensures
        lines_from(pre + rest, pre.len() + i) == lines_from(rest, i),
    decreases rest.len() - i,
{
    let b = pre + rest;
    if i < rest.len() {
        lemma_newline_shift(pre, rest, i);
        lemma_next_newline_in_range(rest, i);
        let e = next_newline(rest, i);
        assert(b.subrange(pre.len() + i, pre.len() + e) =~= rest.subrange(i, e));
        if e < rest.len() {
            lemma_lines_shift(pre, rest, e + 1);
            assert(pre.len() + e + 1 == pre.len() + (e + 1));
        } else {
            assert(b.subrange(pre.len() + i, b.len() as int) =~= rest.subrange(i, rest.len() as int));
        }
    }
}

proof fn lemma_first_newline(l: Seq<u8>, b: Seq<u8>)
    requires
        no_line_feed(l),
        l.len() <= b.len(),
        b.subrange(0, l.len() as int) == l,
        l.len() < b.len() ==> b[l.len() as int] == 10,
    ensures
        next_newline(b, 0) == l.len(),
    decreases l.len(),
{
    lemma_newline_from(l, b, 0);
}

proof fn lemma_newline_from(l: Seq<u8>, b: Seq<u8>, i: int)
    requires
        no_line_feed(l),
        l.len() <= b.len(),
        b.subrange(0, l.len() as int) == l,
        l.len() < b.len() ==> b[l.len() as int] == 10,
        0 <= i <= l.len(),
    ensures
        next_newline(b, i) == l.len(),
    decreases l.len() - i,
{
    if i < l.len() {
        assert(b[i] == b.subrange(0, l.len() as int)[i]);
        lemma_newline_from(l, b, i + 1);
    }
}

/// No text has no lines; a text without line feed is one line; a line ended
/// by a line feed is one line (without a carriage return just before the
/// line feed) followed by the lines of the rest.
pub proof fn law_lines_characterised(l: Seq<u8>, rest: Seq<u8>)
    requires
        no_line_feed(l),
    ensures
        spec_lines(Seq::empty()) == Seq::<Seq<u8>>::empty(),
        l.len() > 0 ==> spec_lines(l) == seq![l],
        spec_lines(l + seq![10u8] + rest) == seq![
            if l.len() > 0 && l[l.len() - 1] == 13 {
                l.subrange(0, l.len() - 1)
            } else {
                l
            },
        ] + spec_lines(rest),
{
    if l.len() > 0 {
        assert(l.subrange(0, l.len() as int) =~= l);
        lemma_first_newline(l, l);
    }
    let pre = l + seq![10u8];
    let b = pre + rest;
    assert(l + seq![10u8] + rest == b);
    assert(b.subrange(0, l.len() as int) =~= l);
    assert(b[l.len() as int] == 10);
    lemma_first_newline(l, b);
    lemma_lines_shift(pre, rest, 0);
    assert(b.subrange(0, l.len() as int) =~= l);
    if l.len() > 0 && l[l.len() - 1] == 13 {
        assert(l.drop_last() =~= l.subrange(0, l.len() - 1));
    }
}

/// Whether every character of `s` is whitespace.
pub open spec fn all_whitespace(s: Seq<char>) -> bool {
    forall|i: int| 0 <= i < s.len() ==> is_unicode_whitespace(#[trigger] s[i])
}

proof fn lemma_trim_start(s: Seq<char>) -> (k: int)
    ensures
        0 <= k <= s.len(),
        trim_start(s) == s.subrange(k, s.len() as int),
        all_whitespace(s.subrange(0, k)),
        k < s.len() ==> !is_unicode_whitespace(s[k]),
    decreases s.len(),
{
    if s.len() > 0 && is_unicode_whitespace(s[0]) {
        let j = lemma_trim_start(s.drop_first());
        assert(s.drop_first().subrange(j, s.len() - 1) =~= s.subrange(j + 1, s.len() as int));
        assert forall|i: int| 0 <= i < j + 1 implies is_unicode_whitespace(
            #[trigger] s.subrange(0, j + 1)[i],
        ) by {
            if i > 0 {
                assert(s.subrange(0, j + 1)[i] == s.drop_first().subrange(0, j)[i - 1]);
            }
        }
        assert(j < s.len() - 1 ==> s[j + 1] == s.drop_first()[j]);
        j + 1
    } else {
        assert(s.subrange(0, s.len() as int) =~= s);
        0
    }
}

proof fn lemma_trim_end(s: Seq<char>) -> (k: int)
    ensures
        0 <= k <= s.len(),
        trim_end(s) == s.subrange(0, k),
        all_whitespace(s.subrange(k, s.len() as int)),
        k > 0 ==> !is_unicode_whitespace(s[k - 1]),
    decreases s.len(),
{
    if s.len() > 0 && is_unicode_whitespace(s.last()) {
        let j = lemma_trim_end(s.drop_last());
        assert(s.drop_last().subrange(0, j) =~= s.subrange(0, j));
        assert forall|i: int| 0 <= i < s.len() - j implies is_unicode_whitespace(
            #[trigger] s.subrange(j, s.len() as int)[i],
        ) by {
            if i < s.len() - 1 - j {
                assert(s.subrange(j, s.len() as int)[i] == s.drop_last().subrange(
                    j,
                    s.len() - 1,
                )[i]);
            }
        }
        j
    } else {
        assert(s.subrange(0, s.len() as int) =~= s);
        s.len() as int
    }
}

/// Trimming removes whitespace at both ends and nothing else: the text is
/// some whitespace, the trimmed text, and some whitespace, and the trimmed
/// text neither starts nor ends with whitespace.
pub proof fn law_trim_characterised(s: Seq<char>)
    ensures
        exists|a: int, b: int|
            0 <= a <= b <= s.len() && trim(s) == s.subrange(a, b) && all_whitespace(
                #[trigger] s.subrange(0, a),
            ) && all_whitespace(#[trigger] s.subrange(b, s.len() as int)),
        trim(s).len() > 0 ==> !is_unicode_whitespace(trim(s)[0]) && !is_unicode_whitespace(
            trim(s).last(),
        ),
{
    let a = lemma_trim_start(s);
    let t = s.subrange(a, s.len() as int);
    let k = lemma_trim_end(t);
    let b = a + k;
    assert(t.subrange(0, k) =~= s.subrange(a, b));
    assert(t.subrange(k, t.len() as int) =~= s.subrange(b, s.len() as int));
    assert(trim(s) == s.subrange(a, b));
    if trim(s).len() > 0 {
        assert(trim(s)[0] == s[a]);
        assert(trim(s).last() == t[k - 1]);
    }
}

} // verus!
