use vstd::prelude::*;

verus! {

/// The pieces of `s` between occurrences of `sep`, in order, as `str::split` gives
/// them for a one-character pattern: a text without `sep` is one piece, and the
/// empty text is one empty piece.
pub open spec fn split_chars(s: Seq<char>, sep: char) -> Seq<Seq<char>>
    decreases s.len(),
{
    if s.len() == 0 {
        seq![Seq::<char>::empty()]
    } else {
        let pieces = split_chars(s.drop_last(), sep);
        if s.last() == sep {
            pieces.push(Seq::<char>::empty())
        } else {
            pieces.update(pieces.len() - 1, pieces.last().push(s.last()))
        }
    }
}

/// Splitting always yields at least one piece, and at least two exactly when the
/// separator occurs.
pub proof fn lemma_split_len(s: Seq<char>, sep: char)
    ensures
        split_chars(s, sep).len() >= 1,
        split_chars(s, sep).len() >= 2 <==> s.contains(sep),
    decreases s.len(),
{
    if s.len() > 0 {
        let init = s.drop_last();
        lemma_split_len(init, sep);
        if s.contains(sep) {
            let k = choose|k: int| 0 <= k < s.len() && s[k] == sep;
            if k < s.len() - 1 {
                assert(init[k] == sep);
            }
        }
        if init.contains(sep) {
            let k = choose|k: int| 0 <= k < init.len() && init[k] == sep;
            assert(s[k] == sep);
        }
        if s.last() == sep {
            assert(s[s.len() - 1] == sep);
        }
    }
}

/// The character positions `[start, end)` of each piece of `s` split at `sep`.
pub fn field_bounds(s: &str, sep: char) -> (r: Vec<(usize, usize)>)
    ensures
        r@.len() == split_chars(s@, sep).len(),
        forall|k: int| #![trigger r@[k]]
            0 <= k < r@.len() ==> {
                &&& r@[k].0 <= r@[k].1 <= s@.len()
                &&& s@.subrange(r@[k].0 as int, r@[k].1 as int) == split_chars(s@, sep)[k]
            },
{
    let n = s.unicode_len();
    let mut r: Vec<(usize, usize)> = Vec::new();
    let mut start: usize = 0;
    let mut i: usize = 0;
    proof {
        assert(s@.subrange(0, 0) =~= Seq::<char>::empty());
    }
    while i < n
        invariant
            n == s@.len(),
            start <= i <= n,
            split_chars(s@.subrange(0, i as int), sep).len() == r@.len() + 1,
            split_chars(s@.subrange(0, i as int), sep)[r@.len() as int] == s@.subrange(
                start as int,
                i as int,
            ),
            forall|k: int| #![trigger r@[k]]
                0 <= k < r@.len() ==> {
                    &&& r@[k].0 <= r@[k].1 <= i
                    &&& s@.subrange(r@[k].0 as int, r@[k].1 as int) == split_chars(
                        s@.subrange(0, i as int),
                        sep,
                    )[k]
                },
        decreases n - i,
    {
        let c = s.get_char(i);
        let ghost old_r = r@;
        let ghost old_start = start;
        let ghost prefix = s@.subrange(0, i as int);
        let ghost next = s@.subrange(0, i + 1);
        proof {
            assert(next.drop_last() =~= prefix);
            assert(next.last() == c);
            lemma_split_len(prefix, sep);
            assert(forall|k: int| #![trigger split_chars(next, sep)[k]]
                0 <= k < r@.len() ==> split_chars(next, sep)[k] == split_chars(prefix, sep)[k]);
        }
        if c == sep {
            r.push((start, i));
            start = i + 1;
            proof {
                assert(s@.subrange(start as int, i + 1) =~= Seq::<char>::empty());
            }
        } else {
            proof {
                assert(s@.subrange(start as int, i + 1) =~= s@.subrange(start as int, i as int).push(
                    c,
                ));
            }
        }
        proof {
            assert forall|k: int| #![trigger r@[k]] 0 <= k < r@.len() implies {
                &&& r@[k].0 <= r@[k].1 <= i + 1
                &&& s@.subrange(r@[k].0 as int, r@[k].1 as int) == split_chars(next, sep)[k]
            } by {
                if k < old_r.len() {
                    assert(r@[k] == old_r[k]);
                    assert(s@.subrange(old_r[k].0 as int, old_r[k].1 as int) == split_chars(prefix, sep)[k]);
                    assert(split_chars(next, sep)[k] == split_chars(prefix, sep)[k]);
                } else {
                    assert(r@[k] == (old_start, i));
                }
            }
        }
        i = i + 1;
    }
    proof {
        assert(s@.subrange(0, n as int) =~= s@);
    }
    let ghost old_r = r@;
    r.push((start, n));
    proof {
        assert forall|k: int| #![trigger r@[k]] 0 <= k < r@.len() implies {
            &&& r@[k].0 <= r@[k].1 <= s@.len()
            &&& s@.subrange(r@[k].0 as int, r@[k].1 as int) == split_chars(s@, sep)[k]
        } by {
            if k < old_r.len() {
                assert(r@[k] == old_r[k]);
            }
        }
    }
    r
}

} // verus!
