//! Byte-level text utilities for the captured output of the external tool:
//! whitespace tests, trimming, and newline-delimited line splitting.
//!
//! Captured output is handled as raw bytes; whitespace means ASCII
//! whitespace (space, tab, newline, carriage return).

use vstd::prelude::*;

verus! {

/// ASCII whitespace: space, tab, newline, carriage return.
pub open spec fn is_ws(b: u8) -> bool {
    b == 32 || b == 9 || b == 10 || b == 13
}

/// The byte text is empty or holds nothing but whitespace.
pub open spec fn is_blank(s: Seq<u8>) -> bool {
    forall|i: int| 0 <= i < s.len() ==> is_ws(s[i])
}

/// The text with leading whitespace removed.
pub open spec fn trim_start(s: Seq<u8>) -> Seq<u8>
    decreases s.len(),
{
    if s.len() > 0 && is_ws(s.first()) {
        trim_start(s.drop_first())
    } else {
        s
    }
}

/// The text with trailing whitespace removed.
pub open spec fn trim_end(s: Seq<u8>) -> Seq<u8>
    decreases s.len(),
{
    if s.len() > 0 && is_ws(s.last()) {
        trim_end(s.drop_last())
    } else {
        s
    }
}

/// The text with leading and trailing whitespace removed.
pub open spec fn spec_trim(s: Seq<u8>) -> Seq<u8> {
    trim_end(trim_start(s))
}

/// The lines of a byte text before carriage returns are stripped: split at
/// every newline byte; a trailing newline closes the last line without
/// opening an empty one.
pub open spec fn raw_lines(s: Seq<u8>) -> Seq<Seq<u8>>
    decreases s.len(),
{
    if s.len() == 0 {
        Seq::empty()
    } else if s.first() == 10 {
        seq![Seq::<u8>::empty()].add(raw_lines(s.drop_first()))
    } else {
        let rest = raw_lines(s.drop_first());
        if rest.len() == 0 {
            seq![seq![s.first()]]
        } else {
            seq![seq![s.first()].add(rest.first())].add(rest.drop_first())
        }
    }
}

/// One trailing carriage return removed from a line.
pub open spec fn strip_cr(l: Seq<u8>) -> Seq<u8> {
    if l.len() > 0 && l.last() == 13 {
        l.drop_last()
    } else {
        l
    }
}

/// The lines of a byte text, as an iterator over lines would yield them:
/// split at newline bytes, one trailing carriage return removed from each
/// line, and a trailing newline adding no empty final line.
pub open spec fn spec_lines(s: Seq<u8>) -> Seq<Seq<u8>> {
    raw_lines(s).map_values(|l: Seq<u8>| strip_cr(l))
}

/// Whether a byte is ASCII whitespace.
pub fn byte_is_ws(b: u8) -> (r: bool)
    ensures
        r == is_ws(b),
{
    b == 32 || b == 9 || b == 10 || b == 13
}

/// Whether the text is empty or whitespace-only.
pub fn blank(s: &Vec<u8>) -> (r: bool)
    ensures
        r == is_blank(s@),
{
    let mut i: usize = 0;
    while i < s.len()
        invariant
            i <= s@.len(),
            forall|j: int| 0 <= j < i ==> is_ws(s@[j]),
        decreases s@.len() - i,
    {
        if !byte_is_ws(s[i]) {
            assert(!is_ws(s@[i as int]));
            return false;
        }
        i += 1;
    }
    true
}

proof fn lemma_trim_start_skip(s: Seq<u8>, i: int)
    requires
        0 <= i <= s.len(),
        forall|j: int| 0 <= j < i ==> is_ws(s[j]),
        i < s.len() ==> !is_ws(s[i]),
    ensures
        trim_start(s) == s.skip(i),
    decreases i,
{
    if i == 0 {
        assert(s.skip(0) =~= s);
    } else {
        assert(is_ws(s.first()));
        lemma_trim_start_skip(s.drop_first(), i - 1);
        assert(s.drop_first().skip(i - 1) =~= s.skip(i));
    }
}

proof fn lemma_trim_end_take(s: Seq<u8>, j: int)
    requires
        0 <= j <= s.len(),
        forall|k: int| j <= k < s.len() ==> is_ws(s[k]),
        j > 0 ==> !is_ws(s[j - 1]),
    ensures
        trim_end(s) == s.take(j),
    decreases s.len() - j,
{
    if j == s.len() {
        assert(s.take(j) =~= s);
    } else {
        assert(is_ws(s.last()));
        lemma_trim_end_take(s.drop_last(), j);
        assert(s.drop_last().take(j) =~= s.take(j));
    }
}

/// The text with leading and trailing ASCII whitespace removed.
pub fn trim_bytes(s: &Vec<u8>) -> (r: Vec<u8>)
    ensures
        r@ == spec_trim(s@),
{
    let mut start: usize = 0;
    while start < s.len() && byte_is_ws(s[start])
        invariant
            start <= s@.len(),
            forall|j: int| 0 <= j < start ==> is_ws(s@[j]),
        decreases s@.len() - start,
    {
        start += 1;
    }
    let mut end: usize = s.len();
    while end > start && byte_is_ws(s[end - 1])
        invariant
            start <= end <= s@.len(),
            forall|k: int| end <= k < s@.len() ==> is_ws(s@[k]),
        decreases end,
    {
        end -= 1;
    }
    let mut r: Vec<u8> = Vec::new();
    let mut i: usize = start;
    while i < end
        invariant
            start <= i <= end <= s@.len(),
            r@ == s@.subrange(start as int, i as int),
        decreases end - i,
    {
        r.push(s[i]);
        assert(s@.subrange(start as int, i + 1) =~= s@.subrange(start as int, i as int).push(
            s@[i as int],
        ));
        i += 1;
    }
    proof {
        lemma_trim_start_skip(s@, start as int);
        let t = s@.skip(start as int);
        lemma_trim_end_take(t, end - start);
        assert(t.take(end - start) =~= s@.subrange(start as int, end as int));
    }
    r
}

/// The lines of the captured output, split at newline bytes with one
/// trailing carriage return removed from each line.
pub fn split_lines(s: &Vec<u8>) -> (r: Vec<Vec<u8>>)
    ensures
        r@.map_values(|l: Vec<u8>| l@) == spec_lines(s@),
{
    let ghost f = |l: Vec<u8>| l@;
    let mut acc: Vec<Vec<u8>> = Vec::new();
    let mut i: usize = s.len();
    assert(s@.skip(i as int) =~= Seq::<u8>::empty());
    while i > 0
        invariant
            i <= s@.len(),
            acc@.map_values(f) == raw_lines(s@.skip(i as int)),
            f == (|l: Vec<u8>| l@),
        decreases i,
    {
        let ghost old_acc = acc@;
        let ghost old_tail = s@.skip(i as int);
        i -= 1;
        let b = s[i];
        let ghost t = s@.skip(i as int);
        proof {
            assert(t.len() > 0);
            assert(t.first() == b);
            assert(t.drop_first() =~= old_tail);
        }
        if b == 10 {
            acc.insert(0, Vec::new());
            proof {
                assert(raw_lines(t) =~= seq![Seq::<u8>::empty()].add(raw_lines(old_tail)));
                assert(acc@.map_values(f) =~= seq![Seq::<u8>::empty()].add(
                    old_acc.map_values(f),
                ));
            }
        } else if acc.len() == 0 {
            let mut line: Vec<u8> = Vec::new();
            line.push(b);
            proof {
                assert(line@ =~= seq![b]);
            }
            acc.insert(0, line);
            proof {
                assert(raw_lines(t) =~= seq![seq![b]]);
                assert(acc@.map_values(f) =~= seq![seq![b]]);
            }
        } else {
            let mut first_line = acc.remove(0);
            proof {
                assert(first_line@ == old_acc.map_values(f).first());
            }
            first_line.insert(0, b);
            let ghost new_first = first_line@;
            proof {
                assert(new_first =~= seq![b].add(old_acc.map_values(f).first()));
            }
            acc.insert(0, first_line);
            proof {
                let rest = raw_lines(old_tail);
                assert(rest.len() > 0);
                assert(raw_lines(t) =~= seq![seq![b].add(rest.first())].add(rest.drop_first()));
                assert(acc@ =~= old_acc.update(0, first_line));
                assert(acc@.map_values(f) =~= seq![new_first].add(old_acc.map_values(f).drop_first()));
            }
        }
    }
    proof {
        assert(s@.skip(0) =~= s@);
    }
    let mut out: Vec<Vec<u8>> = Vec::new();
    let mut k: usize = 0;
    while k < acc.len()
        invariant
            k <= acc@.len(),
            acc@.map_values(f) == raw_lines(s@),
            f == (|l: Vec<u8>| l@),
            out@.map_values(f) == spec_lines(s@).take(k as int),
        decreases acc@.len() - k,
    {
        let line_len = acc[k].len();
        let mut l: Vec<u8> = Vec::new();
        let mut j: usize = 0;
        while j < line_len
            invariant
                j <= line_len,
                line_len == acc@[k as int]@.len(),
                k < acc@.len(),
                l@ == acc@[k as int]@.take(j as int),
            decreases line_len - j,
        {
            l.push(acc[k][j]);
            assert(acc@[k as int]@.take(j + 1) =~= acc@[k as int]@.take(j as int).push(
                acc@[k as int]@[j as int],
            ));
            j += 1;
        }
        proof {
            assert(l@ =~= acc@[k as int]@);
        }
        if l.len() > 0 && l[l.len() - 1] == 13 {
            l.pop();
            proof {
                assert(l@ =~= strip_cr(acc@[k as int]@));
            }
        } else {
            proof {
                assert(l@ =~= strip_cr(acc@[k as int]@));
            }
        }
        let ghost old_out = out@;
        let ghost lv = l@;
        out.push(l);
        proof {
            assert(spec_lines(s@)[k as int] == strip_cr(raw_lines(s@)[k as int]));
            assert(raw_lines(s@)[k as int] == acc@.map_values(f)[k as int]);
            assert(acc@.map_values(f)[k as int] == acc@[k as int]@);
            assert(lv == spec_lines(s@)[k as int]);
            assert(out@ =~= old_out.push(l));
            assert(out@.map_values(f) =~= old_out.map_values(f).push(lv));
            assert(out@.map_values(f) =~= spec_lines(s@).take(k + 1));
        }
        k += 1;
    }
    proof {
        assert(spec_lines(s@).take(acc@.len() as int) =~= spec_lines(s@));
    }
    out
}

} // verus!
