//! Cutting text at a separator and into lines, over sequences of characters.

use vstd::prelude::*;
use vstd::std_specs::iter::IteratorSpec;

verus! {

/// The parts of `s` between the occurrences of `sep`, read character by
/// character: a separator opens a new, empty part, and any other character
/// goes to the end of the last part. There is always at least one part.
pub open spec fn split(s: Seq<char>, sep: char) -> Seq<Seq<char>>
    decreases s.len(),
{
    if s.len() == 0 {
        seq![Seq::empty()]
    } else {
        let before = split(s.drop_last(), sep);
        if s.last() == sep {
            before.push(Seq::empty())
        } else {
            before.drop_last().push(before.last().push(s.last()))
        }
    }
}

/// The parts written one after the other with `sep` between neighbours.
pub open spec fn join(parts: Seq<Seq<char>>, sep: char) -> Seq<char>
    decreases parts.len(),
{
    if parts.len() == 0 {
        Seq::empty()
    } else if parts.len() == 1 {
        parts[0]
    } else {
        join(parts.drop_last(), sep) + seq![sep] + parts.last()
    }
}

/// A line without the carriage return that may stand at its end.
pub open spec fn without_cr(line: Seq<char>) -> Seq<char> {
    if line.len() > 0 && line.last() == '\r' {
        line.drop_last()
    } else {
        line
    }
}

/// Each of `pieces` without the carriage return at its end.
pub open spec fn each_without_cr(pieces: Seq<Seq<char>>) -> Seq<Seq<char>> {
    pieces.map_values(|piece: Seq<char>| without_cr(piece))
}

/// The lines of `s`. A line ends at a line feed, or at a carriage return and
/// a line feed; neither belongs to the line. What follows the last line feed
/// is a line too unless it is empty, and it keeps a carriage return at its
/// end, which ends no line by itself.
pub open spec fn lines(s: Seq<char>) -> Seq<Seq<char>> {
    let pieces = split(s, '\n');
    let ended = each_without_cr(pieces.drop_last());
    if pieces.last().len() == 0 {
        ended
    } else {
        ended.push(pieces.last())
    }
}

/// Those of `lines` that hold at least one character, in their order.
pub open spec fn non_empty(lines: Seq<Seq<char>>) -> Seq<Seq<char>> {
    lines.filter(|line: Seq<char>| line.len() > 0)
}

/// The paragraphs of `s`: its lines that are not empty. A line of blanks is
/// a paragraph.
pub open spec fn paragraphs(s: Seq<char>) -> Seq<Seq<char>> {
    non_empty(lines(s))
}

/// The texts that a vector of string slices holds, in its order.
pub open spec fn texts(parts: Seq<&str>) -> Seq<Seq<char>> {
    parts.map_values(|p: &str| p@)
}

/// Cuts `s` at every `sep`. The parts come in the order in which they stand
/// in `s`; an empty part stands for two separators side by side, and for a
/// separator at either end.
pub fn split_on<'a>(s: &'a str, sep: char) -> (parts: Vec<&'a str>)
    ensures
        texts(parts@) == split(s@, sep),
{
    broadcast use vstd::string::group_string_axioms;

    let mut parts: Vec<&'a str> = Vec::new();
    let mut chars = s.chars();
    let length: usize = s.unicode_len();
    let mut start: usize = 0;
    let mut at: usize = 0;
    assert(s@.subrange(0, 0) =~= Seq::<char>::empty());
    loop
        invariant
            start <= at <= s@.len() == length,
            chars.remaining() == s@.skip(at as int),
            split(s@.take(at as int), sep) == texts(parts@).push(
                s@.subrange(start as int, at as int),
            ),
        ensures
            at == s@.len(),
            start <= at,
            split(s@, sep) == texts(parts@).push(s@.subrange(start as int, at as int)),
        decreases s@.len() - at,
    {
        match chars.next() {
            None => {
                assert(s@.take(at as int) =~= s@);
                break ;
            },
            Some(c) => {
                assert(s@.take(at + 1).drop_last() =~= s@.take(at as int));
                if c == sep {
                    let part = s.substring_char(start, at);
                    parts.push(part);
                    start = at + 1;
                    assert(s@.subrange(start as int, at + 1) =~= Seq::<char>::empty());
                } else {
                    assert(s@.subrange(start as int, at + 1) =~= s@.subrange(
                        start as int,
                        at as int,
                    ).push(c));
                }
                at = at + 1;
            },
        }
    }
    let part = s.substring_char(start, at);
    parts.push(part);
    parts
}

/// The lines of `s` that are not empty, in the order in which they stand in
/// `s`, none left out and none twice.
pub fn paragraphs_of<'a>(s: &'a str) -> (found: Vec<&'a str>)
    ensures
        texts(found@) == paragraphs(s@),
{
    broadcast use vstd::string::group_string_axioms;

    let mut found: Vec<&'a str> = Vec::new();
    let mut chars = s.chars();
    let length: usize = s.unicode_len();
    let mut start: usize = 0;
    let mut at: usize = 0;
    let mut after_cr: bool = false;
    proof {
        reveal(Seq::filter);
    }
    loop
        invariant
            start <= at <= s@.len() == length,
            chars.remaining() == s@.skip(at as int),
            split(s@.take(at as int), '\n').last() == s@.subrange(start as int, at as int),
            texts(found@) == non_empty(each_without_cr(split(s@.take(at as int), '\n').drop_last())),
            after_cr <==> start < at && s@[at - 1] == '\r',
        ensures
            at == s@.len(),
            start <= at,
            split(s@, '\n').last() == s@.subrange(start as int, at as int),
            texts(found@) == non_empty(each_without_cr(split(s@, '\n').drop_last())),
        decreases s@.len() - at,
    {
        match chars.next() {
            None => {
                assert(s@.take(at as int) =~= s@);
                break ;
            },
            Some(c) => {
                let ghost before = split(s@.take(at as int), '\n');
                let ghost piece = s@.subrange(start as int, at as int);
                assert(s@.take(at + 1).drop_last() =~= s@.take(at as int));
                if c == '\n' {
                    let end: usize = if after_cr {
                        at - 1
                    } else {
                        at
                    };
                    assert(s@.subrange(start as int, end as int) =~= without_cr(piece));
                    assert(each_without_cr(before) =~= each_without_cr(before.drop_last()).push(
                        without_cr(piece),
                    ));
                    proof {
                        each_without_cr(before.drop_last()).lemma_filter_push(
                            without_cr(piece),
                            |line: Seq<char>| line.len() > 0,
                        );
                    }
                    if start < end {
                        let line = s.substring_char(start, end);
                        found.push(line);
                    }
                    start = at + 1;
                    after_cr = false;
                    assert(split(s@.take(at + 1), '\n').drop_last() == before);
                } else {
                    assert(split(s@.take(at + 1), '\n').drop_last() == before.drop_last());
                    after_cr = c == '\r';
                }
                at = at + 1;
            },
        }
    }
    proof {
        each_without_cr(split(s@, '\n').drop_last()).lemma_filter_push(
            s@.subrange(start as int, at as int),
            |line: Seq<char>| line.len() > 0,
        );
    }
    if start < at {
        let line = s.substring_char(start, at);
        found.push(line);
    }
    found
}

/// No part holds the separator.
pub open spec fn free_of(parts: Seq<Seq<char>>, sep: char) -> bool {
    forall|i: int| 0 <= i < parts.len() ==> !(#[trigger] parts[i]).contains(sep)
}

/// Cutting always leaves at least one part.
pub proof fn split_is_never_empty(s: Seq<char>, sep: char)
    ensures
        split(s, sep).len() >= 1,
    decreases s.len(),
{
    if s.len() > 0 {
        split_is_never_empty(s.drop_last(), sep);
    }
}

/// The parts that cutting leaves hold no separator.
pub proof fn split_parts_are_free_of_separator(s: Seq<char>, sep: char)
    ensures
        free_of(split(s, sep), sep),
    decreases s.len(),
{
    let parts = split(s, sep);
    if s.len() > 0 {
        let before = split(s.drop_last(), sep);
        split_is_never_empty(s.drop_last(), sep);
        split_parts_are_free_of_separator(s.drop_last(), sep);
        assert forall|i: int| 0 <= i < parts.len() implies !(#[trigger] parts[i]).contains(
            sep,
        ) by {
            if s.last() != sep && i == before.len() - 1 {
                let grown = before.last().push(s.last());
                assert forall|k: int| 0 <= k < grown.len() implies grown[k] != sep by {}
            }
        }
    }
}

/// Cutting loses nothing and moves nothing: the parts of `s`, written one
/// after the other with the separator between them, are `s` again.
pub proof fn join_undoes_split(s: Seq<char>, sep: char)
    ensures
        join(split(s, sep), sep) == s,
    decreases s.len(),
{
    let parts = split(s, sep);
    if s.len() > 0 {
        let before = split(s.drop_last(), sep);
        split_is_never_empty(s.drop_last(), sep);
        join_undoes_split(s.drop_last(), sep);
        if s.last() == sep {
            assert(parts.drop_last() =~= before);
        } else if before.len() > 1 {
            assert(parts.drop_last() =~= before.drop_last());
            assert(join(parts, sep) =~= join(before, sep).push(s.last()));
        }
    }
}

/// Cutting finds exactly the parts that were joined, in their order, each as
/// often as it was written: for every list of at least one part, none of
/// which holds the separator, cutting the joined text gives the list back.
pub proof fn split_undoes_join(parts: Seq<Seq<char>>, sep: char)
    requires
        parts.len() >= 1,
        free_of(parts, sep),
    ensures
        split(join(parts, sep), sep) == parts,
    decreases parts.len(), parts.last().len(),
{
    let joined = join(parts, sep);
    let last = parts.last();
    if last.len() == 0 {
        assert(last =~= Seq::<char>::empty());
        if parts.len() > 1 {
            split_undoes_join(parts.drop_last(), sep);
            assert(joined.drop_last() =~= join(parts.drop_last(), sep));
        }
    } else {
        let shorter = parts.drop_last().push(last.drop_last());
        assert forall|i: int| 0 <= i < shorter.len() implies !(#[trigger] shorter[i]).contains(
            sep,
        ) by {
            if i == parts.len() - 1 {
                assert forall|k: int| 0 <= k < last.drop_last().len() implies last.drop_last()[k]
                    != sep by {}
            }
        }
        split_undoes_join(shorter, sep);
        assert(shorter.drop_last() =~= parts.drop_last());
        assert(joined.drop_last() =~= join(shorter, sep));
        assert(last.drop_last().push(last.last()) =~= last);
    }
}

/// A text that can be one line among others: it holds no line feed and does
/// not end in a carriage return.
pub open spec fn is_line(line: Seq<char>) -> bool {
    !line.contains('\n') && without_cr(line) == line
}

/// The paragraphs are the lines that were written, in their order, each as
/// often as it was written, the empty ones left out: for every list of
/// lines, the paragraphs of the lines joined by line feeds are the lines of
/// the list that are not empty.
pub proof fn paragraphs_of_joined_lines(written: Seq<Seq<char>>)
    requires
        forall|i: int| 0 <= i < written.len() ==> is_line(#[trigger] written[i]),
    ensures
        paragraphs(join(written, '\n')) == non_empty(written),
{
    if written.len() == 0 {
        reveal(Seq::filter);
    } else {
        split_undoes_join(written, '\n');
        assert(each_without_cr(written.drop_last()) =~= written.drop_last());
        assert(written.drop_last().push(written.last()) =~= written);
        written.drop_last().lemma_filter_push(written.last(), |line: Seq<char>| line.len() > 0);
    }
}

} // verus!
