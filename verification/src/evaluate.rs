//! The exact parts of confidence evaluation: which recognised words lie in
//! a line, which generated tokens cover a field's text, and where a
//! citation points. The confidences themselves are real numbers and are
//! combined at the edge.

use vstd::prelude::*;
use crate::doc_pipeline::{index_view, CuSpan};

verus! {

/// Whether `word` lies inside `line`.
pub open spec fn span_within(word: CuSpan, line: CuSpan) -> bool {
    word.offset >= line.offset && word.offset + word.length <= line.offset + line.length
}

/// The positions of the words inside `line`, in order.
pub open spec fn words_within(line: CuSpan, words: Seq<CuSpan>) -> Seq<int>
    decreases words.len(),
{
    if words.len() == 0 {
        seq![]
    } else {
        let prev = words_within(line, words.drop_last());
        if span_within(words.last(), line) {
            prev.push(words.len() - 1)
        } else {
            prev
        }
    }
}

/// Spans whose ends are representable.
pub open spec fn span_ok(s: CuSpan) -> bool {
    i64::MIN <= s.offset + s.length <= i64::MAX
}

/// The words of a page that lie inside a line; the line's confidence is
/// the lowest of theirs.
pub fn contained_words(line: &CuSpan, words: &Vec<CuSpan>) -> (r: Vec<usize>)
    requires
        span_ok(*line),
        forall|i: int| 0 <= i < words@.len() ==> span_ok(#[trigger] words@[i]),
    ensures
        index_view(r@) == words_within(*line, words@),
{
    let line_end = line.offset + line.length;
    let mut r: Vec<usize> = Vec::new();
    let mut i: usize = 0;
    while i < words.len()
        invariant
            i <= words.len(),
            line_end == line.offset + line.length,
            forall|k: int| 0 <= k < words@.len() ==> span_ok(#[trigger] words@[k]),
            index_view(r@) == words_within(*line, words@.subrange(0, i as int)),
        decreases words.len() - i,
    {
        let ghost cur = words@.subrange(0, i + 1);
        assert(cur.drop_last() =~= words@.subrange(0, i as int));
        let w = words[i];
        assert(span_ok(words@[i as int]));
        if w.offset >= line.offset && w.offset + w.length <= line_end {
            r.push(i);
        }
        i = i + 1;
        assert(index_view(r@) =~= words_within(*line, cur));
    }
    assert(words@.subrange(0, words@.len() as int) =~= words@);
    r
}

/// Where token `i` starts when the tokens are laid end to end.
pub open spec fn token_start(lens: Seq<usize>, i: int) -> int
    decreases i,
{
    if i <= 0 {
        0
    } else {
        token_start(lens, i - 1) + lens[i - 1]
    }
}

/// The positions of the tokens that overlap `[start, end)`, in order.
pub open spec fn tokens_over(lens: Seq<usize>, start: int, end: int) -> Seq<int>
    decreases lens.len(),
{
    if lens.len() == 0 {
        seq![]
    } else {
        let k = lens.len() - 1;
        let prev = tokens_over(lens.drop_last(), start, end);
        let s = token_start(lens, k);
        if s < end && s + lens[k] > start {
            prev.push(k)
        } else {
            prev
        }
    }
}

proof fn lemma_token_start_prefix(lens: Seq<usize>, n: int, i: int)
    requires
        0 <= i <= n <= lens.len(),
    ensures
        token_start(lens.subrange(0, n), i) == token_start(lens, i),
    decreases i,
{
    if i > 0 {
        lemma_token_start_prefix(lens, n, i - 1);
        assert(lens.subrange(0, n)[i - 1] == lens[i - 1]);
    }
}

proof fn lemma_token_start_grows(lens: Seq<usize>, i: int, j: int)
    requires
        0 <= i <= j <= lens.len(),
    ensures
        token_start(lens, i) <= token_start(lens, j),
    decreases j - i,
{
    if i < j {
        lemma_token_start_grows(lens, i, j - 1);
    }
}

/// The tokens whose text overlaps the field's text at `[start, end)`
/// (offsets in the generated text, tokens laid end to end from zero).
pub fn tokens_overlapping(lens: &Vec<usize>, start: usize, end: usize) -> (r: Vec<usize>)
    requires
        token_start(lens@, lens@.len() as int) <= usize::MAX,
    ensures
        index_view(r@) == tokens_over(lens@, start as int, end as int),
{
    let mut r: Vec<usize> = Vec::new();
    let mut pos: usize = 0;
    let mut i: usize = 0;
    while i < lens.len()
        invariant
            i <= lens.len(),
            token_start(lens@, lens@.len() as int) <= usize::MAX,
            pos == token_start(lens@, i as int),
            index_view(r@) == tokens_over(lens@.subrange(0, i as int), start as int, end as int),
        decreases lens.len() - i,
    {
        let ghost cur = lens@.subrange(0, i + 1);
        assert(cur.drop_last() =~= lens@.subrange(0, i as int));
        proof {
            lemma_token_start_prefix(lens@, i + 1, i as int);
            lemma_token_start_grows(lens@, i + 1, lens@.len() as int);
        }
        assert(cur[i as int] == lens@[i as int]);
        let token_end = pos + lens[i];
        if pos < end && token_end > start {
            r.push(i);
        }
        pos = token_end;
        i = i + 1;
        assert(index_view(r@) =~= tokens_over(cur, start as int, end as int));
    }
    assert(lens@.subrange(0, lens@.len() as int) =~= lens@);
    r
}

/// A citation's character offsets: the span's start and end, each at
/// least zero.
pub fn citation_offsets(span: &CuSpan) -> (r: (u64, u64))
    requires
        span_ok(*span),
    ensures
        r.0 == (if span.offset > 0 { span.offset as int } else { 0 }),
        r.1 == (if span.offset + span.length > 0 { span.offset + span.length } else { 0 }),
{
    let end = span.offset + span.length;
    let s: u64 = if span.offset > 0 {
        span.offset as u64
    } else {
        0
    };
    let e: u64 = if end > 0 {
        end as u64
    } else {
        0
    };
    (s, e)
}

} // verus!
