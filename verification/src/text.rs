//! ASCII art as text: the one string that a file or a terminal is given,
//! and the lines that are read back from it.

use vstd::prelude::*;

verus! {

/// The text of an art: its lines in order, each ended by a newline.
pub open spec fn text_of(lines: Seq<Seq<char>>) -> Seq<char>
    decreases lines.len(),
{
    if lines.len() == 0 {
        Seq::empty()
    } else {
        text_of(lines.drop_last()) + lines.last().push('\n')
    }
}

/// Where the last line of `text` begins: behind its last newline, or at the
/// start if it holds none.
pub open spec fn last_line_start(text: Seq<char>) -> int
    decreases text.len(),
{
    if text.len() == 0 {
        0
    } else if text.last() == '\n' {
        text.len() as int
    } else {
        last_line_start(text.drop_last())
    }
}

/// The last line begins within the text, and before its end if the text
/// does not end with a newline.
pub proof fn last_line_start_in_range(text: Seq<char>)
    ensures
        0 <= last_line_start(text) <= text.len(),
        text.len() > 0 && text.last() != '\n' ==> last_line_start(text) < text.len(),
    decreases text.len(),
{
    if text.len() > 0 && text.last() != '\n' {
        last_line_start_in_range(text.drop_last());
    }
}

/// A line without the carriage return that may stand at its end.
pub open spec fn without_carriage_return(line: Seq<char>) -> Seq<char> {
    if line.len() > 0 && line.last() == '\r' {
        line.drop_last()
    } else {
        line
    }
}

/// The lines of a text, as a reader takes them one by one. A line ends at a
/// newline; neither the newline nor a carriage return just before it is part
/// of the line. The newline that ends the last line may be missing.
pub open spec fn lines_of(text: Seq<char>) -> Seq<Seq<char>>
    decreases text.len(),
{
    if text.len() == 0 {
        Seq::empty()
    } else if text.last() == '\n' {
        let body = text.drop_last();
        let start = last_line_start(body);
        proof {
            last_line_start_in_range(body);
        }
        lines_of(body.subrange(0, start)).push(
            without_carriage_return(body.subrange(start, body.len() as int)),
        )
    } else {
        let start = last_line_start(text);
        proof {
            last_line_start_in_range(text);
        }
        lines_of(text.subrange(0, start)).push(text.subrange(start, text.len() as int))
    }
}

/// Whether `line` can be written as one line and read back unchanged: it
/// holds no newline and does not end with a carriage return.
pub open spec fn is_one_line(line: Seq<char>) -> bool {
    &&& !line.contains('\n')
    &&& line.len() > 0 ==> line.last() != '\r'
}

/// Characters other than newlines at the end of a text do not move the start
/// of its last line.
proof fn last_line_start_skips_line(text: Seq<char>, line: Seq<char>)
    requires
        !line.contains('\n'),
    ensures
        last_line_start(text + line) == last_line_start(text),
    decreases line.len(),
{
    if line.len() == 0 {
        assert(text + line =~= text);
    } else {
        assert(line.contains(line.last()));
        assert((text + line).drop_last() =~= text + line.drop_last());
        if line.drop_last().contains('\n') {
            let i = choose|i: int| 0 <= i < line.len() - 1 && line.drop_last()[i] == '\n';
            assert(line[i] == '\n');
        }
        last_line_start_skips_line(text, line.drop_last());
    }
}

/// Reading a written art back line by line gives the lines that were
/// written, provided that each of them is one line.
pub proof fn lines_of_text_of(lines: Seq<Seq<char>>)
    requires
        forall|i: int| 0 <= i < lines.len() ==> is_one_line(#[trigger] lines[i]),
    ensures
        lines_of(text_of(lines)) == lines,
    decreases lines.len(),
{
    if lines.len() > 0 {
        let before = text_of(lines.drop_last());
        let line = lines.last();
        let body = text_of(lines).drop_last();
        assert(body =~= before + line);
        // The text before the last line is empty or ends with a newline, so
        // the last line of `body` begins where `line` does.
        assert(last_line_start(before) == before.len());
        last_line_start_skips_line(before, line);
        assert(body.subrange(0, before.len() as int) =~= before);
        assert(body.subrange(before.len() as int, body.len() as int) =~= line);
        lines_of_text_of(lines.drop_last());
        assert(lines.drop_last().push(line) =~= lines);
    }
}

/// Builds the text of an art: every line followed by a newline.
pub fn ascii_art_text(lines: &Vec<String>) -> (text: String)
    ensures
        text@ == text_of(lines.deep_view()),
{
    let ghost art = lines.deep_view();
    let mut text: String = String::new();
    let mut i: usize = 0;
    while i < lines.len()
        invariant
            i <= lines.len(),
            art == lines.deep_view(),
            text@ == text_of(art.take(i as int)),
        decreases lines.len() - i,
    {
        text.append(lines[i].as_str());
        text.push('\n');
        proof {
            let taken = art.take(i + 1);
            assert(taken.drop_last() =~= art.take(i as int));
            assert(taken.last() == lines@[i as int]@);
        }
        i += 1;
    }
    assert(art.take(i as int) =~= art);
    text
}

} // verus!
