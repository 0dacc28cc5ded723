//! Message-id text handling: delimiter trimming and slash splitting.

use vstd::prelude::*;

verus! {

/// `s` with one leading `'<'` and one trailing `'>'` removed, each only if
/// present. Absence of either delimiter is tolerated; at most one character
/// is removed from each end.
pub open spec fn trim_angles(s: Seq<char>) -> Seq<char> {
    let a = if s.len() > 0 && s[0] == '<' {
        s.skip(1)
    } else {
        s
    };
    if a.len() > 0 && a.last() == '>' {
        a.drop_last()
    } else {
        a
    }
}

/// The `'/'`-separated pieces of `s`, in order, empty pieces preserved: a
/// sequence with no separator is one piece, and each separator ends a piece.
pub open spec fn segments(s: Seq<char>) -> Seq<Seq<char>>
    decreases s.len(),
{
    if s.len() == 0 {
        seq![s]
    } else if s.last() == '/' {
        segments(s.drop_last()).push(Seq::empty())
    } else {
        let rest = segments(s.drop_last());
        rest.update(rest.len() - 1, rest.last().push(s.last()))
    }
}

/// A split always yields at least one piece, and at most one more piece than
/// there are characters.
pub proof fn lemma_segments_len(s: Seq<char>)
    ensures
        1 <= segments(s).len() <= s.len() + 1,
    decreases s.len(),
{
    if s.len() > 0 {
        lemma_segments_len(s.drop_last());
    }
}

/// The views of a sequence of owned strings.
pub open spec fn string_views(parts: Seq<String>) -> Seq<Seq<char>> {
    parts.map_values(|p: String| p@)
}

/// Remove one optional leading `'<'` and one optional trailing `'>'`.
pub fn trim_angle_brackets(s: &str) -> (r: &str)
    ensures
        r@ == trim_angles(s@),
{
    let n = s.unicode_len();
    let start: usize = if n > 0 && s.get_char(0) == '<' {
        1
    } else {
        0
    };
    let end: usize = if n > start && s.get_char(n - 1) == '>' {
        n - 1
    } else {
        n
    };
    let r = s.substring_char(start, end);
    proof {
        assert(r@ =~= trim_angles(s@));
    }
    r
}

/// Split `s` on `'/'`, preserving empty pieces.
pub fn split_slashes(s: &str) -> (parts: Vec<String>)
    ensures
        string_views(parts@) == segments(s@),
{
    let n = s.unicode_len();
    let mut parts: Vec<String> = Vec::new();
    let mut start: usize = 0;
    let mut i: usize = 0;
    proof {
        assert(string_views(parts@).push(s@.subrange(0, 0)) =~~= segments(s@.take(0)));
    }
    while i < n
        invariant
            n == s@.len(),
            i <= n,
            start <= i,
            string_views(parts@).push(s@.subrange(start as int, i as int))
                == segments(s@.take(i as int)),
        decreases n - i,
    {
        let ghost prev_parts = parts@;
        let ghost prev_start = start as int;
        let c = s.get_char(i);
        if c == '/' {
            let piece = s.substring_char(start, i).to_owned();
            parts.push(piece);
            start = i + 1;
        }
        i += 1;
        proof {
            assert(s@.take(i as int).drop_last() =~= s@.take(i - 1));
            assert(s@.take(i as int).last() == s@[i - 1]);
            if c == '/' {
                assert(string_views(parts@)
                    =~= string_views(prev_parts).push(s@.subrange(prev_start, i - 1)));
                assert(string_views(parts@).push(s@.subrange(start as int, i as int))
                    =~~= segments(s@.take(i - 1)).push(Seq::empty()));
            } else {
                let rest = segments(s@.take(i - 1));
                lemma_segments_len(s@.take(i - 1));
                assert(rest.last() == s@.subrange(prev_start, i - 1));
                assert(s@.subrange(prev_start, i - 1).push(s@[i - 1])
                    =~= s@.subrange(start as int, i as int));
                assert(string_views(parts@).push(s@.subrange(start as int, i as int))
                    =~~= rest.update(rest.len() - 1, rest.last().push(s@[i - 1])));
            }
        }
    }
    let piece = s.substring_char(start, n).to_owned();
    parts.push(piece);
    proof {
        assert(s@.take(n as int) =~= s@);
        assert(string_views(parts@) =~~= segments(s@));
    }
    parts
}

} // verus!
