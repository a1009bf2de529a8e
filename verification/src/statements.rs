use vstd::prelude::*;
use vstd::std_specs::iter::IteratorSpec;

verus! {

broadcast use {vstd::string::axiom_spec_iter, vstd::string::next_postcondition};

/// The pieces of `s` between the separators `sep`, as `str::split` yields them:
/// always at least one piece, empty pieces included.
pub open spec fn split_on(s: Seq<char>, sep: char) -> Seq<Seq<char>>
    decreases s.len(),
{
    if s.len() == 0 {
        seq![Seq::<char>::empty()]
    } else {
        let pieces = split_on(s.drop_last(), sep);
        if s.last() == sep {
            pieces.push(Seq::<char>::empty())
        } else {
            pieces.update(pieces.len() - 1, pieces.last().push(s.last()))
        }
    }
}

/// The pieces put back together with `sep` between each two.
pub open spec fn join_with(pieces: Seq<Seq<char>>, sep: char) -> Seq<char>
    decreases pieces.len(),
{
    if pieces.len() <= 1 {
        if pieces.len() == 0 { Seq::<char>::empty() } else { pieces[0] }
    } else {
        join_with(pieces.drop_last(), sep).push(sep) + pieces.last()
    }
}

/// How often `c` occurs in `s`.
pub open spec fn occurrences(s: Seq<char>, c: char) -> nat
    decreases s.len(),
{
    if s.len() == 0 {
        0
    } else {
        occurrences(s.drop_last(), c) + if s.last() == c { 1nat } else { 0nat }
    }
}

proof fn lemma_join_extend_last(pieces: Seq<Seq<char>>, sep: char, c: char)
    requires
        pieces.len() >= 1,
    ensures
        join_with(pieces.update(pieces.len() - 1, pieces.last().push(c)), sep)
            == join_with(pieces, sep).push(c),
{
    let updated = pieces.update(pieces.len() - 1, pieces.last().push(c));
    if pieces.len() == 1 {
        assert(join_with(updated, sep) == updated[0]);
    } else {
        assert(updated.drop_last() =~= pieces.drop_last());
        assert(join_with(updated, sep) == join_with(pieces.drop_last(), sep).push(sep) + pieces.last().push(c));
        assert(join_with(pieces.drop_last(), sep).push(sep) + pieces.last().push(c)
            =~= (join_with(pieces.drop_last(), sep).push(sep) + pieces.last()).push(c));
    }
}

/// Splitting loses nothing: the pieces joined with the separator give the text
/// back, none of them holds the separator, and there is one piece more than
/// there are separators.
pub proof fn lemma_split_join(s: Seq<char>, sep: char)
    ensures
        split_on(s, sep).len() == occurrences(s, sep) + 1,
        join_with(split_on(s, sep), sep) == s,
        forall|i: int, j: int|
            0 <= i < split_on(s, sep).len() && 0 <= j < split_on(s, sep)[i].len()
                ==> split_on(s, sep)[i][j] != sep,
    decreases s.len(),
{
    if s.len() == 0 {
        assert(join_with(split_on(s, sep), sep) =~= s);
    } else {
        let prefix = s.drop_last();
        lemma_split_join(prefix, sep);
        let pieces = split_on(prefix, sep);
        if s.last() == sep {
            let result = pieces.push(Seq::<char>::empty());
            assert(result.drop_last() =~= pieces);
            assert(join_with(result, sep) =~= prefix.push(sep));
            assert(prefix.push(sep) =~= s);
            assert forall|i: int, j: int|
                0 <= i < result.len() && 0 <= j < result[i].len() implies result[i][j] != sep by {
                if i < pieces.len() {
                    assert(result[i] == pieces[i]);
                }
            }
        } else {
            lemma_join_extend_last(pieces, sep, s.last());
            let result = pieces.update(pieces.len() - 1, pieces.last().push(s.last()));
            assert(prefix.push(s.last()) =~= s);
            assert forall|i: int, j: int|
                0 <= i < result.len() && 0 <= j < result[i].len() implies result[i][j] != sep by {
                if i < pieces.len() - 1 {
                    assert(result[i] == pieces[i]);
                } else {
                    assert(result[i] == pieces.last().push(s.last()));
                    if j < pieces.last().len() {
                        assert(result[i][j] == pieces[pieces.len() - 1][j]);
                    }
                }
            }
        }
    }
}

proof fn lemma_split_without_separator(t: Seq<char>, sep: char)
    requires
        !t.contains(sep),
    ensures
        split_on(t, sep) == seq![t],
    decreases t.len(),
{
    if t.len() > 0 {
        let prefix = t.drop_last();
        assert(!prefix.contains(sep)) by {
            if prefix.contains(sep) {
                let i = choose|i: int| 0 <= i < prefix.len() && prefix[i] == sep;
                assert(t[i] == sep);
            }
        }
        lemma_split_without_separator(prefix, sep);
        assert(t.last() != sep) by {
            assert(t[t.len() - 1] == t.last());
        }
        assert(prefix.push(t.last()) =~= t);
        assert(seq![prefix].update(0, prefix.push(t.last())) =~= seq![t]);
    } else {
        assert(t =~= Seq::<char>::empty());
    }
}

proof fn lemma_split_after_separator(a: Seq<char>, t: Seq<char>, sep: char)
    requires
        !t.contains(sep),
    ensures
        split_on(a.push(sep) + t, sep) == split_on(a, sep).push(t),
    decreases t.len(),
{
    if t.len() == 0 {
        assert(a.push(sep) + t =~= a.push(sep));
        assert((a.push(sep)).drop_last() =~= a);
        assert(t =~= Seq::<char>::empty());
    } else {
        let prefix = t.drop_last();
        assert(!prefix.contains(sep)) by {
            if prefix.contains(sep) {
                let i = choose|i: int| 0 <= i < prefix.len() && prefix[i] == sep;
                assert(t[i] == sep);
            }
        }
        lemma_split_after_separator(a, prefix, sep);
        let whole = a.push(sep) + t;
        assert(whole.drop_last() =~= a.push(sep) + prefix);
        assert(whole.last() == t.last());
        assert(t.last() != sep) by {
            assert(t[t.len() - 1] == t.last());
        }
        assert(prefix.push(t.last()) =~= t);
        assert(split_on(a, sep).push(prefix).update(split_on(a, sep).len() as int, prefix.push(t.last()))
            =~= split_on(a, sep).push(t));
    }
}

/// Joining pieces that hold no separator and splitting the result again gives
/// the pieces back.
pub proof fn lemma_split_of_join(pieces: Seq<Seq<char>>, sep: char)
    requires
        pieces.len() >= 1,
        forall|i: int| 0 <= i < pieces.len() ==> !(#[trigger] pieces[i]).contains(sep),
    ensures
        split_on(join_with(pieces, sep), sep) == pieces,
    decreases pieces.len(),
{
    if pieces.len() == 1 {
        lemma_split_without_separator(pieces[0], sep);
        assert(seq![pieces[0]] =~= pieces);
    } else {
        let rest = pieces.drop_last();
        assert forall|i: int| 0 <= i < rest.len() implies !(#[trigger] rest[i]).contains(sep) by {
            assert(rest[i] == pieces[i]);
        }
        lemma_split_of_join(rest, sep);
        assert(!pieces.last().contains(sep)) by {
            assert(pieces[pieces.len() - 1] == pieces.last());
        }
        lemma_split_after_separator(join_with(rest, sep), pieces.last(), sep);
        assert(rest.push(pieces.last()) =~= pieces);
    }
}

/// Splits an SQL script into its statements at every `;`, as `str::split(';')`
/// does: the empty text after a final `;` is a statement too.
pub fn split_statements(sql: &str) -> (pieces: Vec<String>)
    ensures
        pieces@.map_values(|p: String| p@) == split_on(sql@, ';'),
{
    let length = sql.unicode_len();
    let mut pieces: Vec<String> = Vec::new();
    let mut it = sql.chars();
    let ghost all = sql@;
    let mut start: usize = 0;
    let mut index: usize = 0;
    proof {
        assert(all.subrange(0, all.len() as int) =~= all);
        assert(split_on(all.subrange(0, 0), ';') =~= seq![Seq::<char>::empty()]);
        assert(all.subrange(0, 0) =~= Seq::<char>::empty());
        assert(pieces@.map_values(|p: String| p@).push(all.subrange(0, 0)) =~= seq![Seq::<char>::empty()]);
    }
    loop
        invariant
            all == sql@,
            length == all.len(),
            0 <= start <= index <= all.len(),
            it.obeys_prophetic_iter_laws(),
            it.remaining() == all.subrange(index as int, all.len() as int),
            pieces@.map_values(|p: String| p@).push(all.subrange(start as int, index as int))
                == split_on(all.subrange(0, index as int), ';'),
        decreases all.len() - index,
    {
        let ghost before = it;
        let ghost done = pieces@.map_values(|p: String| p@);
        match it.next() {
            Some(c) => {
                assert(before.remaining().len() > 0);
                assert(c == all[index as int]);
                let ghost prefix = all.subrange(0, index as int + 1);
                assert(prefix.drop_last() =~= all.subrange(0, index as int));
                assert(prefix.last() == c);
                if c == ';' {
                    let ghost old_start = start;
                    let piece = String::from_str(sql.substring_char(start, index));
                    pieces.push(piece);
                    index = index + 1;
                    start = index;
                    assert(pieces@.map_values(|p: String| p@) =~= done.push(all.subrange(old_start as int, index as int - 1)));
                    assert(all.subrange(start as int, index as int) =~= Seq::<char>::empty());
                    assert(split_on(prefix, ';') == split_on(prefix.drop_last(), ';').push(Seq::<char>::empty()));
                    assert(pieces@.map_values(|p: String| p@).push(all.subrange(start as int, index as int))
                        =~= split_on(prefix, ';'));
                } else {
                    index = index + 1;
                    assert(all.subrange(start as int, index as int)
                        =~= all.subrange(start as int, index as int - 1).push(c));
                    assert(pieces@.map_values(|p: String| p@).push(all.subrange(start as int, index as int))
                        =~= split_on(prefix, ';'));
                }
            },
            None => {
                assert(before.remaining().len() == 0);
                let piece = String::from_str(sql.substring_char(start, index));
                pieces.push(piece);
                assert(all.subrange(0, index as int) =~= all);
                assert(pieces@.map_values(|p: String| p@) =~= done.push(all.subrange(start as int, index as int)));
                return pieces;
            },
        }
    }
}

} // verus!
