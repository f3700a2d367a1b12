//! Line splitting for the publisher: decompressed text is cut at every
//! newline byte, a trailing carriage return is removed from each line (so
//! `\r\n` endings are tolerated), and only non-empty lines are kept, in
//! their original order.

use vstd::prelude::*;

verus! {

/// The byte that ends a line.
pub open spec fn is_line_break(b: u8) -> bool {
    b == 10
}

/// A line with a trailing carriage return removed.
pub open spec fn strip_cr(l: Seq<u8>) -> Seq<u8> {
    if l.len() > 0 && l.last() == 13 {
        l.drop_last()
    } else {
        l
    }
}

/// The text cut at every newline byte: always exactly one more segment than
/// there are newline bytes, so a trailing newline leaves a final empty
/// segment and an embedded empty line is an empty segment of its own.
pub open spec fn split_segments(s: Seq<u8>) -> Seq<Seq<u8>>
    decreases s.len(),
{
    if s.len() == 0 {
        seq![Seq::empty()]
    } else if is_line_break(s.last()) {
        split_segments(s.drop_last()).push(Seq::empty())
    } else {
        let r = split_segments(s.drop_last());
        r.update(r.len() - 1, r.last().push(s.last()))
    }
}

/// The segments that survive cleaning: each stripped of a trailing carriage
/// return, empty ones dropped, order kept.
pub open spec fn cleaned(segs: Seq<Seq<u8>>) -> Seq<Seq<u8>>
    decreases segs.len(),
{
    if segs.len() == 0 {
        Seq::empty()
    } else {
        let rest = cleaned(segs.drop_last());
        let l = strip_cr(segs.last());
        if l.len() > 0 {
            rest.push(l)
        } else {
            rest
        }
    }
}

/// The non-empty lines of the text, in order: what one invocation publishes.
pub open spec fn nonempty_lines(s: Seq<u8>) -> Seq<Seq<u8>> {
    cleaned(split_segments(s))
}

proof fn lemma_split_len(s: Seq<u8>)
    ensures
        split_segments(s).len() >= 1,
    decreases s.len(),
{
    if s.len() > 0 {
        lemma_split_len(s.drop_last());
    }
}

proof fn lemma_cleaned_push(segs: Seq<Seq<u8>>, l: Seq<u8>)
    ensures
        cleaned(segs.push(l)) == (if strip_cr(l).len() > 0 {
            cleaned(segs).push(strip_cr(l))
        } else {
            cleaned(segs)
        }),
{
    assert(segs.push(l).drop_last() =~= segs);
    assert(segs.push(l).last() == l);
}

/// Every line that splitting keeps is non-empty.
pub proof fn lemma_lines_nonempty(s: Seq<u8>, i: int)
    requires
        0 <= i < nonempty_lines(s).len(),
    ensures
        nonempty_lines(s)[i].len() > 0,
{
    lemma_cleaned_elements_nonempty(split_segments(s), i);
}

proof fn lemma_cleaned_elements_nonempty(segs: Seq<Seq<u8>>, i: int)
    requires
        0 <= i < cleaned(segs).len(),
    ensures
        cleaned(segs)[i].len() > 0,
    decreases segs.len(),
{
    if segs.len() > 0 {
        let rest = cleaned(segs.drop_last());
        if i < rest.len() {
            lemma_cleaned_elements_nonempty(segs.drop_last(), i);
        }
    }
}

/// Splits text into its non-empty lines, in order, each stripped of a
/// trailing carriage return.
pub fn split_nonempty_lines(text: &Vec<u8>) -> (r: Vec<Vec<u8>>)
    ensures
        r.deep_view() == nonempty_lines(text@),
{
    let mut acc: Vec<Vec<u8>> = Vec::new();
    let mut cur: Vec<u8> = Vec::new();
    let mut i: usize = 0;
    proof {
        assert(text@.take(0) =~= Seq::<u8>::empty());
        assert(acc.deep_view() =~= cleaned(split_segments(text@.take(0)).drop_last()));
    }
    while i < text.len()
        invariant
            i <= text@.len(),
            split_segments(text@.take(i as int)).len() >= 1,
            cur@ == split_segments(text@.take(i as int)).last(),
            acc.deep_view() == cleaned(split_segments(text@.take(i as int)).drop_last()),
        decreases text@.len() - i,
    {
        let ghost pre = text@.take(i as int);
        let ghost segs = split_segments(pre);
        let b = text[i];
        proof {
            assert(text@.take(i + 1).drop_last() =~= pre);
            assert(text@.take(i + 1).last() == text@[i as int]);
            lemma_split_len(pre);
        }
        if b == 10 {
            let mut line = cur;
            cur = Vec::new();
            if line.len() > 0 && line[line.len() - 1] == 13 {
                line.pop();
            }
            proof {
                assert(line@ == strip_cr(segs.last()));
                // the just-finished segment joins the settled ones
                assert(split_segments(text@.take(i + 1)) == segs.push(Seq::<u8>::empty()));
                assert(segs.push(Seq::<u8>::empty()).drop_last() =~= segs);
                assert(segs =~= segs.drop_last().push(segs.last()));
                lemma_cleaned_push(segs.drop_last(), segs.last());
            }
            let ghost acc0 = acc.deep_view();
            if line.len() > 0 {
                acc.push(line);
                proof {
                    assert(acc.deep_view() =~~= acc0.push(line@));
                }
            }
            proof {
                assert(acc.deep_view() =~~= cleaned(split_segments(text@.take(i + 1)).drop_last()));
            }
        } else {
            cur.push(b);
            proof {
                let segs2 = split_segments(text@.take(i + 1));
                assert(segs2 == segs.update(segs.len() - 1, segs.last().push(text@[i as int])));
                assert(segs2.drop_last() =~= segs.drop_last());
                assert(segs2.last() == cur@);
            }
        }
        i += 1;
    }
    proof {
        assert(text@.take(text@.len() as int) =~= text@);
    }
    let ghost segs = split_segments(text@);
    let mut line = cur;
    if line.len() > 0 && line[line.len() - 1] == 13 {
        line.pop();
    }
    proof {
        lemma_split_len(text@);
        assert(line@ == strip_cr(segs.last()));
        assert(segs =~= segs.drop_last().push(segs.last()));
        lemma_cleaned_push(segs.drop_last(), segs.last());
    }
    let ghost acc0 = acc.deep_view();
    if line.len() > 0 {
        acc.push(line);
        proof {
            assert(acc.deep_view() =~~= acc0.push(line@));
        }
    }
    proof {
        assert(acc.deep_view() =~~= nonempty_lines(text@));
    }
    acc
}

} // verus!
