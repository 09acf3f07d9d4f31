//! The list of installed printers, read from the output of the system's
//! printer query (one printer name per line).

use vstd::prelude::*;
use crate::text::{
    join_lines, law_split_lines_inverts_join, chars_of, decode_lossy, is_white_space, lemma_trim_ends, split_lines, string_of_range, trim,
    trim_bounds, utf8_lossy, views,
};

verus! {

broadcast use vstd::seq_lib::group_seq_properties;

/// The trimmed lines of `text` that are not empty, in order.
pub open spec fn printer_names(text: Seq<char>) -> Seq<Seq<char>> {
    split_lines(text).map_values(|l: Seq<char>| trim(l)).filter(|l: Seq<char>| l.len() > 0)
}

/// Printer names in the raw standard output of the printer query: the output
/// decoded as UTF-8 (ill-formed bytes replaced), split into lines, each line
/// trimmed, blank lines dropped.
pub fn parse_printer_list(stdout: &[u8]) -> (names: Vec<String>)
    ensures
        views(names@) == printer_names(utf8_lossy(stdout@)),
{
    let text = decode_lossy(stdout);
    printer_names_in(text.as_str())
}

/// The printer names in the decoded output `text`.
pub fn printer_names_in(text: &str) -> (names: Vec<String>)
    ensures
        views(names@) == printer_names(text@),
{
    let v = chars_of(text);
    let ghost s = v@;
    let mut names: Vec<String> = Vec::new();
    let mut start: usize = 0;
    let mut i: usize = 0;
    let ghost mut done: Seq<Seq<char>> = Seq::empty();
    assert(s.take(0) =~= Seq::<char>::empty());
    assert(split_lines(s.take(0)) =~= done + seq![s.subrange(0, 0)]);
    while i < v.len()
        invariant
            s == v@,
            start <= i <= v.len(),
            split_lines(s.take(i as int)) == done + seq![s.subrange(start as int, i as int)],
            views(names@) == done.map_values(|l: Seq<char>| trim(l)).filter(
                |l: Seq<char>| l.len() > 0,
            ),
        decreases v.len() - i,
    {
        assert(s.take(i + 1).drop_last() =~= s.take(i as int));
        assert(s.take(i + 1).last() == s[i as int]);
        if v[i] == '\n' {
            let (a, b) = trim_bounds(&v, start, i);
            let ghost line = s.subrange(start as int, i as int);
            proof {
                let t = s.take(i + 1);
                assert(t.drop_last() =~= s.take(i as int));
                assert(s.subrange(i + 1, i + 1) =~= Seq::<char>::empty());
                assert(split_lines(t) == split_lines(s.take(i as int)).push(Seq::<char>::empty()));
                assert(split_lines(s.take(i + 1)) =~= done.push(line) + seq![
                    s.subrange(i + 1, i + 1),
                ]);
                done.lemma_push_map_commute(|l: Seq<char>| trim(l), line);
                done.map_values(|l: Seq<char>| trim(l)).lemma_filter_push(
                    trim(line),
                    |l: Seq<char>| l.len() > 0,
                );
            }
            if a < b {
                let ghost prev = names@;
                let name = string_of_range(&v, a, b);
                names.push(name);
                assert(views(names@) =~= views(prev).push(trim(line)));
            } else {
                assert(trim(line).len() == 0);
            }
            proof {
                done = done.push(line);
            }
            start = i + 1;
        } else {
            let ghost t = s.take(i + 1);
            assert(t.drop_last() =~= s.take(i as int));
            assert(s.subrange(start as int, i + 1) =~= s.subrange(start as int, i as int).push(
                s[i as int],
            ));
            assert(split_lines(s.take(i + 1)) =~= done + seq![
                s.subrange(start as int, i + 1),
            ]);
        }
        i = i + 1;
    }
    proof {
        let last = s.subrange(start as int, v.len() as int);
        assert(s.take(v.len() as int) =~= s);
        assert(split_lines(s) =~= done.push(last));
        done.lemma_push_map_commute(|l: Seq<char>| trim(l), last);
        done.map_values(|l: Seq<char>| trim(l)).lemma_filter_push(
            trim(last),
            |l: Seq<char>| l.len() > 0,
        );
    }
    let (a, b) = trim_bounds(&v, start, v.len());
    if a < b {
        let ghost prev = names@;
        let name = string_of_range(&v, a, b);
        names.push(name);
        assert(views(names@) =~= views(prev).push(name@));
    }
    names
}

/// Every listed printer name is non-empty and has no white space at either
/// end.
pub proof fn law_printer_names_are_trimmed(text: Seq<char>, i: int)
    requires
        0 <= i < printer_names(text).len(),
    ensures
        printer_names(text)[i].len() > 0,
        !is_white_space(printer_names(text)[i][0]),
        !is_white_space(printer_names(text)[i].last()),
{
    let trimmed_lines = split_lines(text).map_values(|l: Seq<char>| trim(l));
    let keep = |l: Seq<char>| l.len() > 0;
    let name = printer_names(text)[i];
    trimmed_lines.lemma_filter_pred(keep, i);
    assert(trimmed_lines.filter(keep).contains(name));
    trimmed_lines.lemma_filter_contains_rev(keep, name);
    let j = choose|j: int| 0 <= j < trimmed_lines.len() && trimmed_lines[j] == name;
    lemma_trim_ends(split_lines(text)[j]);
}

/// The printer list of an output made of the lines `ls` (joined with line
/// feeds) is every line, trimmed and in full, in order, with the blank lines
/// left out: no line is cut, merged or reordered.
pub proof fn law_printer_list_is_every_nonblank_line(ls: Seq<Seq<char>>)
    requires
        ls.len() >= 1,
        forall|i: int| 0 <= i < ls.len() ==> !(#[trigger] ls[i]).contains('\n'),
    ensures
        printer_names(join_lines(ls)) == ls.map_values(|l: Seq<char>| trim(l)).filter(
            |l: Seq<char>| l.len() > 0,
        ),
{
    law_split_lines_inverts_join(ls);
}

/// A one-line output without surrounding white space lists exactly that line,
/// whatever its length.
pub proof fn law_single_printer_listed_in_full(line: Seq<char>)
    requires
        line.len() > 0,
        !line.contains('\n'),
        !is_white_space(line[0]),
        !is_white_space(line.last()),
    ensures
        printer_names(line) == seq![line],
{
    law_split_lines_inverts_join(seq![line]);
    assert(join_lines(seq![line]) == line);
    crate::text::lemma_trim_start_skip(line, 0);
    crate::text::lemma_trim_end_take(line.skip(0), line.len() as int);
    assert(line.skip(0) =~= line);
    assert(line.take(line.len() as int) =~= line);
    let ts = seq![line].map_values(|l: Seq<char>| trim(l));
    assert(ts =~= seq![line]);
    reveal(Seq::filter);
    assert(ts.drop_last() =~= Seq::<Seq<char>>::empty());
    assert(ts.drop_last().filter(|l: Seq<char>| l.len() > 0) =~= Seq::<Seq<char>>::empty());
}

} // verus!
