//! Splitting a text on a separator character, and the inverse join.
use vstd::prelude::*;

verus! {

/// The pieces of `s` between occurrences of `sep`; there is always at least one.
pub open spec fn split_spec(s: Seq<char>, sep: char) -> Seq<Seq<char>>
    decreases s.len(),
{
    if s.len() == 0 {
        seq![Seq::empty()]
    } else {
        let t = split_spec(s.drop_last(), sep);
        if s.last() == sep {
            t.push(Seq::empty())
        } else {
            t.update(t.len() - 1, t.last().push(s.last()))
        }
    }
}

/// The pieces of `fs` with `sep` between each two of them.
pub open spec fn join_spec(fs: Seq<Seq<char>>, sep: char) -> Seq<char>
    decreases fs.len(),
{
    if fs.len() == 0 {
        Seq::empty()
    } else if fs.len() == 1 {
        fs[0]
    } else {
        join_spec(fs.drop_last(), sep).push(sep) + fs.last()
    }
}

/// No piece holds the separator.
pub open spec fn free_of(fs: Seq<Seq<char>>, sep: char) -> bool {
    forall|i: int, j: int| 0 <= i < fs.len() && 0 <= j < fs[i].len() ==> fs[i][j] != sep
}

pub proof fn lemma_split_len(s: Seq<char>, sep: char)
    ensures
        split_spec(s, sep).len() >= 1,
    decreases s.len(),
{
    if s.len() > 0 {
        lemma_split_len(s.drop_last(), sep);
    }
}

/// Appending text free of the separator extends the last piece.
pub proof fn lemma_split_extend(a: Seq<char>, b: Seq<char>, sep: char)
    requires
        forall|j: int| 0 <= j < b.len() ==> b[j] != sep,
    ensures
        split_spec(a + b, sep) == split_spec(a, sep).update(
            split_spec(a, sep).len() - 1,
            split_spec(a, sep).last() + b,
        ),
    decreases b.len(),
{
    lemma_split_len(a, sep);
    let t = split_spec(a, sep);
    if b.len() == 0 {
        assert(a + b =~= a);
        assert(t.last() + b =~= t.last());
        assert(t.update(t.len() - 1, t.last()) =~= t);
    } else {
        let b1 = b.drop_last();
        lemma_split_extend(a, b1, sep);
        assert((a + b).drop_last() =~= a + b1);
        assert((a + b).last() == b.last());
        assert((t.last() + b1).push(b.last()) =~= t.last() + b);
        let u = split_spec(a + b1, sep);
        assert(u.update(u.len() - 1, u.last().push(b.last())) =~= t.update(t.len() - 1, t.last() + b));
    }
}

/// Splitting the join of pieces free of the separator gives the pieces back.
pub proof fn lemma_split_join(fs: Seq<Seq<char>>, sep: char)
    requires
        fs.len() >= 1,
        free_of(fs, sep),
    ensures
        split_spec(join_spec(fs, sep), sep) == fs,
    decreases fs.len(),
{
    let f = fs.last();
    assert forall|j: int| 0 <= j < f.len() implies f[j] != sep by {
        assert(fs[fs.len() - 1][j] != sep);
    }
    if fs.len() == 1 {
        lemma_split_extend(Seq::empty(), fs[0], sep);
        assert(Seq::<char>::empty() + fs[0] =~= fs[0]);
        assert(split_spec(Seq::<char>::empty(), sep).update(0, Seq::<char>::empty() + fs[0]) =~= fs);
    } else {
        let init = fs.drop_last();
        assert(free_of(init, sep)) by {
            assert forall|i: int, j: int| 0 <= i < init.len() && 0 <= j < init[i].len() implies init[i][j]
                != sep by {
                assert(init[i] == fs[i]);
            }
        }
        lemma_split_join(init, sep);
        let a = join_spec(init, sep).push(sep);
        assert(a.drop_last() =~= join_spec(init, sep));
        lemma_split_extend(a, f, sep);
        let t = split_spec(a, sep);
        assert(t == init.push(Seq::empty()));
        assert(t.update(t.len() - 1, t.last() + f) =~= fs);
    }
}

/// The pieces of `s` between occurrences of `sep`.
pub fn split_text(s: &str, sep: char) -> (r: Vec<String>)
    ensures
        r@.map_values(|x: String| x@) == split_spec(s@, sep),
{
    let n = s.unicode_len();
    let mut parts: Vec<String> = Vec::new();
    let mut start: usize = 0;
    let mut i: usize = 0;
    assert(s@.subrange(0, 0) =~= Seq::<char>::empty());
    assert(parts@.map_values(|x: String| x@) =~= Seq::<Seq<char>>::empty());
    assert(split_spec(Seq::<char>::empty(), sep) == seq![Seq::<char>::empty()]);
    assert(Seq::<Seq<char>>::empty().push(Seq::<char>::empty()) =~= seq![Seq::<char>::empty()]);
    while i < n
        invariant
            n == s@.len(),
            start <= i <= n,
            parts@.map_values(|x: String| x@).push(s@.subrange(start as int, i as int)) == split_spec(
                s@.subrange(0, i as int),
                sep,
            ),
        decreases n - i,
    {
        let c = s.get_char(i);
        let ghost prev = s@.subrange(0, i as int);
        let ghost next = s@.subrange(0, i as int + 1);
        assert(next.drop_last() =~= prev);
        assert(next.last() == c);
        if c == sep {
            let piece = s.substring_char(start, i).to_owned();
            let ghost before = parts@.map_values(|x: String| x@);
            parts.push(piece);
            assert(parts@.map_values(|x: String| x@) =~= before.push(s@.subrange(start as int, i as int)));
            assert(s@.subrange(i as int + 1, i as int + 1) =~= Seq::<char>::empty());
            start = i + 1;
        } else {
            assert(s@.subrange(start as int, i as int).push(c) =~= s@.subrange(start as int, i as int + 1));
        }
        i = i + 1;
    }
    assert(s@.subrange(0, n as int) =~= s@);
    let last = s.substring_char(start, n).to_owned();
    let ghost before = parts@.map_values(|x: String| x@);
    parts.push(last);
    assert(parts@.map_values(|x: String| x@) =~= before.push(s@.subrange(start as int, n as int)));
    parts
}

} // verus!
