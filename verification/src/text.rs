//! Splitting a string on a separator character and joining parts again.

use vstd::prelude::*;

verus! {

/// The parts of `s` between occurrences of `sep`, read left to right: a
/// separator closes the current part and opens a new, empty one; any other
/// character extends the current part. There is always at least one part.
pub open spec fn split(s: Seq<char>, sep: char) -> Seq<Seq<char>>
    decreases s.len(),
{
    if s.len() == 0 {
        seq![Seq::<char>::empty()]
    } else {
        let parts = split(s.drop_last(), sep);
        if s.last() == sep {
            parts.push(Seq::<char>::empty())
        } else {
            parts.update(parts.len() - 1, parts.last().push(s.last()))
        }
    }
}

/// The parts written one after the other with `sep` between neighbours.
pub open spec fn join(parts: Seq<Seq<char>>, sep: Seq<char>) -> Seq<char>
    decreases parts.len(),
{
    if parts.len() == 0 {
        Seq::<char>::empty()
    } else if parts.len() == 1 {
        parts[0]
    } else {
        join(parts.drop_last(), sep) + sep + parts.last()
    }
}

/// How often `c` occurs in `s`.
pub open spec fn count(s: Seq<char>, c: char) -> nat
    decreases s.len(),
{
    if s.len() == 0 {
        0
    } else {
        count(s.drop_last(), c) + if s.last() == c {
            1nat
        } else {
            0nat
        }
    }
}

/// The character sequences that a vector of strings holds.
pub open spec fn views(parts: Seq<String>) -> Seq<Seq<char>> {
    Seq::new(parts.len(), |i: int| parts[i]@)
}

/// A string has one part more than it has separators.
pub proof fn lemma_split_len(s: Seq<char>, sep: char)
    ensures
        split(s, sep).len() == count(s, sep) + 1,
    decreases s.len(),
{
    if s.len() > 0 {
        lemma_split_len(s.drop_last(), sep);
    }
}

/// No part of a split string holds the separator.
pub proof fn lemma_split_parts_hold_no_separator(s: Seq<char>, sep: char)
    ensures
        forall|k: int, j: int|
            0 <= k < split(s, sep).len() && 0 <= j < split(s, sep)[k].len() ==> split(
                s,
                sep,
            )[k][j] != sep,
    decreases s.len(),
{
    if s.len() > 0 {
        lemma_split_len(s.drop_last(), sep);
        lemma_split_parts_hold_no_separator(s.drop_last(), sep);
    }
}

/// `s` with every occurrence of `from` replaced by `to`.
pub open spec fn replace(s: Seq<char>, from: char, to: char) -> Seq<char> {
    Seq::new(
        s.len(),
        |i: int|
            if s[i] == from {
                to
            } else {
                s[i]
            },
    )
}

/// Joining the parts of a split string with another character gives the
/// string with every separator replaced by that character.
pub proof fn lemma_join_of_split_replaces_separator(s: Seq<char>, sep: char, to: char)
    ensures
        join(split(s, sep), seq![to]) == replace(s, sep, to),
    decreases s.len(),
{
    if s.len() > 0 {
        let rest = s.drop_last();
        let parts = split(rest, sep);
        let done = replace(rest, sep, to);
        lemma_split_len(rest, sep);
        lemma_join_of_split_replaces_separator(rest, sep, to);
        if s.last() == sep {
            let longer = parts.push(Seq::<char>::empty());
            assert(longer.drop_last() =~= parts);
            assert(join(longer, seq![to]) =~= done + seq![to]);
            assert(done + seq![to] =~= replace(s, sep, to));
        } else {
            let grown = parts.last().push(s.last());
            let longer = parts.update(parts.len() - 1, grown);
            if parts.len() == 1 {
                assert(join(parts, seq![to]) == parts[0]);
                assert(join(longer, seq![to]) =~= done.push(s.last()));
            } else {
                assert(longer.drop_last() =~= parts.drop_last());
                assert(join(longer, seq![to]) =~= join(parts.drop_last(), seq![to]) + seq![to]
                    + grown);
                assert(join(parts, seq![to]) =~= join(parts.drop_last(), seq![to]) + seq![to]
                    + parts.last());
                assert(join(longer, seq![to]) =~= done.push(s.last()));
            }
            assert(done.push(s.last()) =~= replace(s, sep, to));
        }
    } else {
        assert(join(split(s, sep), seq![to]) =~= replace(s, sep, to));
    }
}

/// Joining the parts of a split string with the separator gives the string
/// back.
pub proof fn lemma_join_undoes_split(s: Seq<char>, sep: char)
    ensures
        join(split(s, sep), seq![sep]) == s,
{
    lemma_join_of_split_replaces_separator(s, sep, sep);
    assert(replace(s, sep, sep) =~= s);
}

/// A string that does not hold the separator is its own and only part.
pub proof fn lemma_split_without_separator(s: Seq<char>, sep: char)
    requires
        forall|i: int| 0 <= i < s.len() ==> s[i] != sep,
    ensures
        split(s, sep) == seq![s],
    decreases s.len(),
{
    if s.len() > 0 {
        lemma_split_without_separator(s.drop_last(), sep);
        assert(s.drop_last().push(s.last()) =~= s);
        assert(seq![s.drop_last()].update(0, s) =~= seq![s]);
    } else {
        assert(s =~= Seq::<char>::empty());
    }
}

/// The parts of two strings written with a separator between them are the
/// parts of the first followed by the parts of the second.
pub proof fn lemma_split_at_separator(s: Seq<char>, t: Seq<char>, sep: char)
    ensures
        split(s + seq![sep] + t, sep) == split(s, sep) + split(t, sep),
    decreases t.len(),
{
    let whole = s + seq![sep] + t;
    if t.len() == 0 {
        assert(whole.drop_last() =~= s);
        assert(split(whole, sep) =~= split(s, sep) + split(t, sep));
    } else {
        let shorter = t.drop_last();
        lemma_split_at_separator(s, shorter, sep);
        lemma_split_len(shorter, sep);
        assert(whole.drop_last() =~= s + seq![sep] + shorter);
        assert(whole.last() == t.last());
        assert(split(whole, sep) =~= split(s, sep) + split(t, sep));
    }
}

/// A string that holds the separator has as its first part what stands
/// before the first separator; the other parts are those of what follows it.
pub proof fn lemma_split_at_first_separator(s: Seq<char>, sep: char, first: int)
    requires
        0 <= first < s.len(),
        s[first] == sep,
        forall|i: int| 0 <= i < first ==> s[i] != sep,
    ensures
        split(s, sep) == seq![s.subrange(0, first)] + split(
            s.subrange(first + 1, s.len() as int),
            sep,
        ),
{
    let head = s.subrange(0, first);
    let rest = s.subrange(first + 1, s.len() as int);
    assert(s =~= head + seq![sep] + rest);
    lemma_split_at_separator(head, rest, sep);
    lemma_split_without_separator(head, sep);
}

/// Splits `s` at every occurrence of `sep`.
pub fn split_on(s: &str, sep: char) -> (parts: Vec<String>)
    ensures
        views(parts@) == split(s@, sep),
{
    let n = s.unicode_len();
    let mut parts: Vec<String> = Vec::new();
    let mut start: usize = 0;
    let mut i: usize = 0;
    proof {
        assert(s@.take(0) =~= Seq::<char>::empty());
        assert(views(parts@).push(s@.subrange(0, 0)) =~= seq![Seq::<char>::empty()]);
    }
    while i < n
        invariant
            n == s@.len(),
            start <= i <= n,
            split(s@.take(i as int), sep) == views(parts@).push(
                s@.subrange(start as int, i as int),
            ),
        decreases n - i,
    {
        let c = s.get_char(i);
        let ghost before = views(parts@);
        let ghost prefix = s@.take(i as int);
        let ghost longer = s@.take(i as int + 1);
        proof {
            assert(longer.drop_last() =~= prefix);
            assert(longer.last() == c);
        }
        if c == sep {
            parts.push(String::from_str(s.substring_char(start, i)));
            proof {
                assert(views(parts@) =~= before.push(s@.subrange(start as int, i as int)));
                assert(s@.subrange(i as int + 1, i as int + 1) =~= Seq::<char>::empty());
            }
            start = i + 1;
        } else {
            proof {
                let open = before.push(s@.subrange(start as int, i as int));
                assert(s@.subrange(start as int, i as int).push(c) =~= s@.subrange(
                    start as int,
                    i as int + 1,
                ));
                assert(open.update(open.len() - 1, open.last().push(c)) =~= before.push(
                    s@.subrange(start as int, i as int + 1),
                ));
            }
        }
        i += 1;
    }
    proof {
        assert(s@.take(n as int) =~= s@);
    }
    let ghost before = views(parts@);
    parts.push(String::from_str(s.substring_char(start, n)));
    proof {
        assert(views(parts@) =~= before.push(s@.subrange(start as int, n as int)));
    }
    parts
}

/// Joins the parts at positions `from..to` with `sep` between neighbours.
pub fn join_range(parts: &Vec<String>, from: usize, to: usize, sep: &str) -> (joined: String)
    requires
        from <= to <= parts.len(),
    ensures
        joined@ == join(views(parts@).subrange(from as int, to as int), sep@),
{
    let mut joined = String::new();
    let mut i: usize = from;
    proof {
        assert(views(parts@).subrange(from as int, from as int) =~= Seq::<Seq<char>>::empty());
    }
    while i < to
        invariant
            from <= i <= to <= parts.len(),
            joined@ == join(views(parts@).subrange(from as int, i as int), sep@),
        decreases to - i,
    {
        let ghost done = views(parts@).subrange(from as int, i as int);
        let ghost next = views(parts@).subrange(from as int, i as int + 1);
        proof {
            assert(next.drop_last() =~= done);
            assert(next.last() == parts@[i as int]@);
        }
        if i > from {
            joined.append(sep);
        } else {
            proof {
                assert(done.len() == 0);
                assert(joined@ + parts@[i as int]@ =~= parts@[i as int]@);
            }
        }
        joined.append(parts[i].as_str());
        i += 1;
    }
    joined
}

} // verus!
