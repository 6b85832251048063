//! Small pieces of text handling: lines, lists and decimal numbers.
use vstd::prelude::*;

pub mod laws;

verus! {

/// `line` without the carriage return it may end with.
pub open spec fn without_carriage_return(line: Seq<char>) -> Seq<char> {
    if line.len() > 0 && line.last() == '\r' {
        line.drop_last()
    } else {
        line
    }
}

/// The lines of `text`, in order.
///
/// A line ends with a line feed, or with a carriage return and a line feed, and
/// neither is part of it. The last line may do without: what follows the last
/// line feed is a line of its own unless it is empty, and keeps a carriage
/// return it ends with.
pub open spec fn lines(text: Seq<char>) -> Seq<Seq<char>>
    decreases text.len(),
{
    if text.len() == 0 {
        seq![]
    } else if text.contains('\n') {
        let end = text.index_of_first('\n')->0;
        proof {
            text.index_of_first_ensures('\n');
        }
        seq![without_carriage_return(text.take(end))] + lines(text.skip(end + 1))
    } else {
        seq![text]
    }
}

/// The texts of `parts`, in order, with `separator` between each two of them.
pub open spec fn joined(parts: Seq<Seq<char>>, separator: Seq<char>) -> Seq<char>
    decreases parts.len(),
{
    if parts.len() == 0 {
        seq![]
    } else if parts.len() == 1 {
        parts[0]
    } else {
        joined(parts.drop_last(), separator) + separator + parts.last()
    }
}

/// The decimal digit that stands for `value`.
pub open spec fn digit(value: nat) -> char {
    (48 + value) as char
}

/// `value` in decimal notation, without leading zeros.
pub open spec fn decimal(value: nat) -> Seq<char>
    decreases value,
{
    if value < 10 {
        seq![digit(value)]
    } else {
        decimal(value / 10).push(digit(value % 10))
    }
}

/// The characters of `text`, one by one.
fn characters(text: &str) -> (chars: Vec<char>)
    ensures
        chars@ == text@,
{
    let mut chars: Vec<char> = Vec::new();
    for c in iter: text.chars()
        invariant
            chars@ == text@.take(iter.index()),
            iter.seq() == text@,
    {
        chars.push(c);
    }
    chars
}

/// Whether `chars[from..to]` spells `word`.
fn spells(chars: &Vec<char>, from: usize, to: usize, word: &Vec<char>) -> (same: bool)
    requires
        from <= to <= chars@.len(),
    ensures
        same == (chars@.subrange(from as int, to as int) == word@),
{
    if to - from != word.len() {
        return false;
    }
    let mut i: usize = 0;
    while i < word.len()
        invariant
            from <= to <= chars@.len(),
            to - from == word@.len(),
            i <= word@.len(),
            forall|j: int| 0 <= j < i ==> chars@[from + j] == #[trigger] word@[j],
        decreases word@.len() - i,
    {
        if chars[from + i] != word[i] {
            assert(chars@.subrange(from as int, to as int)[i as int] != word@[i as int]);
            return false;
        }
        i += 1;
    }
    assert(chars@.subrange(from as int, to as int) =~= word@);
    true
}

/// A text with a line feed at `end`, and none before it, has what precedes it
/// as its first line; the other lines are those of what follows.
proof fn lemma_first_line(text: Seq<char>, end: int, line: Seq<char>)
    requires
        0 <= end < text.len(),
        text[end] == '\n',
        forall|j: int| 0 <= j < end ==> text[j] != '\n',
    ensures
        lines(text).contains(line) <==> (without_carriage_return(text.take(end)) == line || lines(
            text.skip(end + 1),
        ).contains(line)),
{
    text.index_of_first_ensures('\n');
    assert(text.contains('\n'));
    assert(text.index_of_first('\n') == Some(end));
    let first = without_carriage_return(text.take(end));
    let rest = lines(text.skip(end + 1));
    assert(lines(text) == seq![first] + rest);
    assert((seq![first] + rest)[0] == first);
    if rest.contains(line) {
        let k = rest.index_of(line);
        assert((seq![first] + rest)[k + 1] == line);
    }
    if (seq![first] + rest).contains(line) {
        let k = (seq![first] + rest).index_of(line);
        if k > 0 {
            assert(rest[k - 1] == line);
        }
    }
}

/// Whether `line` is one of the lines of `text`.
pub fn has_line(text: &str, line: &str) -> (found: bool)
    ensures
        found == lines(text@).contains(line@),
{
    let chars = characters(text);
    let wanted = characters(line);
    let mut start: usize = 0;
    assert(chars@.skip(0) == chars@);
    while start < chars.len()
        invariant
            start <= chars@.len(),
            chars@ == text@,
            wanted@ == line@,
            lines(text@).contains(line@) == lines(chars@.skip(start as int)).contains(line@),
        decreases chars@.len() - start,
    {
        let mut end: usize = start;
        while end < chars.len() && chars[end] != '\n'
            invariant
                start <= end <= chars@.len(),
                forall|j: int| start <= j < end ==> chars@[j] != '\n',
            decreases chars@.len() - end,
        {
            end += 1;
        }
        let ghost rest = chars@.skip(start as int);
        if end == chars.len() {
            proof {
                assert(!rest.contains('\n'));
                assert(lines(rest) == seq![rest]);
                assert(lines(rest)[0] == rest);
                assert(chars@.subrange(start as int, end as int) == rest);
            }
            return spells(&chars, start, end, &wanted);
        }
        proof {
            lemma_first_line(rest, end - start, line@);
            assert(rest.take(end - start) == chars@.subrange(start as int, end as int));
            assert(rest.skip(end - start + 1) == chars@.skip(end + 1));
        }
        let stop: usize = if end > start && chars[end - 1] == '\r' {
            end - 1
        } else {
            end
        };
        assert(chars@.subrange(start as int, stop as int) == without_carriage_return(
            rest.take(end - start),
        ));
        if spells(&chars, start, stop, &wanted) {
            return true;
        }
        start = end + 1;
    }
    false
}

/// Whether `wanted` is one of the texts in `list`.
pub fn lists(list: &Vec<String>, wanted: &String) -> (found: bool)
    ensures
        found == list.deep_view().contains(wanted@),
{
    let mut i: usize = 0;
    while i < list.len()
        invariant
            i <= list@.len(),
            forall|j: int| 0 <= j < i ==> #[trigger] list@[j]@ != wanted@,
        decreases list@.len() - i,
    {
        if list[i] == *wanted {
            assert(list.deep_view()[i as int] == wanted@);
            return true;
        }
        i += 1;
    }
    assert(!list.deep_view().contains(wanted@)) by {
        if list.deep_view().contains(wanted@) {
            let j = list.deep_view().index_of(wanted@);
            assert(list@[j]@ == wanted@);
        }
    }
    false
}

/// Joins `parts` with `separator`.
pub fn join(parts: &Vec<String>, separator: &str) -> (text: String)
    ensures
        text@ == joined(parts.deep_view(), separator@),
{
    let mut text = String::new();
    let mut i: usize = 0;
    while i < parts.len()
        invariant
            i <= parts@.len(),
            text@ == joined(parts.deep_view().take(i as int), separator@),
        decreases parts@.len() - i,
    {
        proof {
            let before = parts.deep_view().take(i as int);
            let after = parts.deep_view().take(i + 1);
            assert(after.drop_last() == before);
            assert(after.last() == parts@[i as int]@);
            if i == 0 {
                assert(after[0] == parts@[0]@);
            }
        }
        if i > 0 {
            text.append(separator);
        }
        text.append(parts[i].as_str());
        i += 1;
    }
    assert(parts.deep_view().take(parts@.len() as int) == parts.deep_view());
    text
}

/// The text of a single decimal digit.
fn digit_text(value: usize) -> (text: &'static str)
    requires
        value < 10,
    ensures
        text@ == seq![digit(value as nat)],
{
    proof {
        reveal_strlit("0");
        reveal_strlit("1");
        reveal_strlit("2");
        reveal_strlit("3");
        reveal_strlit("4");
        reveal_strlit("5");
        reveal_strlit("6");
        reveal_strlit("7");
        reveal_strlit("8");
        reveal_strlit("9");
    }
    match value {
        0 => "0",
        1 => "1",
        2 => "2",
        3 => "3",
        4 => "4",
        5 => "5",
        6 => "6",
        7 => "7",
        8 => "8",
        _ => "9",
    }
}

/// Writes `value` in decimal notation.
pub fn number_text(value: usize) -> (text: String)
    ensures
        text@ == decimal(value as nat),
    decreases value,
{
    if value < 10 {
        digit_text(value).to_owned()
    } else {
        number_text(value / 10).concat(digit_text(value % 10))
    }
}

} // verus!
