//! What lines, joined lists and decimal numbers are.
use vstd::prelude::*;

use crate::text::{decimal, joined, lines};

verus! {

/// Whether `text` ends with a carriage return.
pub open spec fn ends_with_carriage_return(text: Seq<char>) -> bool {
    text.len() > 0 && text.last() == '\r'
}

/// The text made of each of `names` followed by a line feed.
pub open spec fn listing(names: Seq<Seq<char>>) -> Seq<char>
    decreases names.len(),
{
    if names.len() == 0 {
        seq![]
    } else {
        names.first() + seq!['\n'] + listing(names.drop_first())
    }
}

/// Whether each of `names` can be told apart in a listing: it holds no line feed
/// and does not end with a carriage return.
pub open spec fn can_be_listed(names: Seq<Seq<char>>) -> bool {
    forall|i: int|
        0 <= i < names.len() ==> !(#[trigger] names[i]).contains('\n')
            && !ends_with_carriage_return(names[i])
}

/// A text without characters has no lines.
pub proof fn empty_text_has_no_lines()
    ensures
        lines(seq![]).len() == 0,
{
}

/// A line feed ends a line and is not part of it, whatever follows; neither is a
/// carriage return right before it.
pub proof fn line_feeds_end_lines(line: Seq<char>, rest: Seq<char>)
    requires
        !line.contains('\n'),
    ensures
        !ends_with_carriage_return(line) ==> lines(line + seq!['\n'] + rest) == seq![line] + lines(
            rest,
        ),
        lines(line + seq!['\r', '\n'] + rest) == seq![line] + lines(rest),
{
    let length: int = line.len() as int;
    let plain = line + seq!['\n'] + rest;
    plain.index_of_first_ensures('\n');
    assert(plain[length] == '\n');
    assert forall|j: int| 0 <= j < length implies plain[j] != '\n' by {
        assert(plain[j] == line[j]);
    }
    assert(plain.index_of_first('\n') == Some(length));
    assert(plain.take(length) == line);
    assert(plain.skip(length + 1) == rest);

    let returned = line + seq!['\r', '\n'] + rest;
    returned.index_of_first_ensures('\n');
    assert(returned[length + 1] == '\n');
    assert(returned[length] == '\r');
    assert forall|j: int| 0 <= j < length implies returned[j] != '\n' by {
        assert(returned[j] == line[j]);
    }
    assert(returned.index_of_first('\n') == Some(length + 1));
    assert(returned.take(length + 1).last() == '\r');
    assert(returned.take(length + 1).drop_last() == line);
    assert(returned.skip(length + 2) == rest);
}

/// What follows the last line feed is a line as it stands, unless it is empty.
pub proof fn last_line_needs_no_line_feed(line: Seq<char>)
    requires
        line.len() > 0,
        !line.contains('\n'),
    ensures
        lines(line) == seq![line],
{
}

/// The lines of a listing are exactly the names that were listed, in order. So a
/// name is found in it if and only if it is one of them.
pub proof fn listed_names_are_the_lines(names: Seq<Seq<char>>, name: Seq<char>)
    requires
        can_be_listed(names),
    ensures
        lines(listing(names)) == names,
        lines(listing(names)).contains(name) <==> exists|i: int|
            0 <= i < names.len() && names[i] == name,
    decreases names.len(),
{
    if names.len() > 0 {
        let rest = names.drop_first();
        assert forall|i: int| 0 <= i < rest.len() implies !(#[trigger] rest[i]).contains('\n')
            && !ends_with_carriage_return(rest[i]) by {
            assert(rest[i] == names[i + 1]);
        }
        listed_names_are_the_lines(rest, name);
        assert(!names[0].contains('\n') && !ends_with_carriage_return(names[0]));
        line_feeds_end_lines(names.first(), listing(rest));
        assert(seq![names.first()] + rest == names);
    } else {
        assert(names == Seq::<Seq<char>>::empty());
    }
}

/// Whether `line` stands in `text` from `start` on, after a line feed or at the
/// start of the text, and before a line feed, which a carriage return may
/// precede, or at the end of the text.
pub open spec fn stands_at(text: Seq<char>, line: Seq<char>, start: int) -> bool {
    let end = start + line.len();
    &&& 0 <= start
    &&& end <= text.len()
    &&& text.subrange(start, end) == line
    &&& !line.contains('\n')
    &&& start == 0 || text[start - 1] == '\n'
    &&& {
        ||| end == text.len() && line.len() > 0
        ||| end < text.len() && text[end] == '\n' && !ends_with_carriage_return(line)
        ||| end + 1 < text.len() && text[end] == '\r' && text[end + 1] == '\n'
    }
}

/// A text has a line if and only if it stands somewhere between its line ends.
pub proof fn lines_stand_between_line_ends(text: Seq<char>, line: Seq<char>)
    ensures
        lines(text).contains(line) <==> exists|start: int| stands_at(text, line, start),
    decreases text.len(),
{
    if text.len() == 0 {
        assert(lines(text).len() == 0);
    } else if !text.contains('\n') {
        assert(lines(text) == seq![text]);
        assert(lines(text)[0] == text);
        if text == line {
            assert(text.subrange(0, text.len() as int) == line);
            assert(stands_at(text, line, 0));
        }
        assert forall|start: int| stands_at(text, line, start) implies text == line by {
            assert(text.subrange(0, text.len() as int) == text);
        }
    } else {
        text.index_of_first_ensures('\n');
        let end = text.index_of_first('\n')->0;
        let head = text.take(end);
        let rest = text.skip(end + 1);
        lines_stand_between_line_ends(rest, line);
        assert forall|j: int| 0 <= j < end implies text[j] != '\n' by {
            assert(head[j] == text[j]);
        }
        let first = if ends_with_carriage_return(head) {
            head.drop_last()
        } else {
            head
        };
        assert(lines(text) == seq![first] + lines(rest));
        assert(lines(text)[0] == first);
        assert forall|j: int| 0 <= j < lines(rest).len() implies lines(text)[j + 1] == lines(
            rest,
        )[j] by {}
        if lines(rest).contains(line) {
            let start = choose|start: int| stands_at(rest, line, start);
            let place = start + end + 1;
            assert(text.subrange(place, place + line.len()) == rest.subrange(
                start,
                start + line.len(),
            ));
            assert(stands_at(text, line, place));
            let j = lines(rest).index_of(line);
            assert(lines(text)[j + 1] == line);
        }
        if first == line {
            assert(text.subrange(0, line.len() as int) == line);
            assert forall|j: int| 0 <= j < line.len() implies line[j] != '\n' by {
                assert(line[j] == text[j]);
            }
            if ends_with_carriage_return(head) {
                assert(text[end - 1] == '\r');
            }
            assert(stands_at(text, line, 0));
        }
        if exists|start: int| stands_at(text, line, start) {
            let start = choose|start: int| stands_at(text, line, start);
            let stop = start + line.len();
            if start > end {
                let place = start - end - 1;
                assert(rest.subrange(place, place + line.len()) == text.subrange(start, stop));
                assert(stands_at(rest, line, place));
                let j = lines(rest).index_of(line);
                assert(lines(text)[j + 1] == line);
            } else {
                assert(start == 0);
                if stop > end {
                    assert(line[end] == text[end]);
                    assert(line.contains('\n'));
                }
                assert(stop == end || stop + 1 == end);
                assert(first == line);
            }
        }
        if lines(text).contains(line) && first != line {
            let k = lines(text).index_of(line);
            assert(lines(rest)[k - 1] == line);
        }
    }
}

/// Nothing joined is nothing, and a single part joined is that part.
pub proof fn short_lists_need_no_separator(part: Seq<char>, separator: Seq<char>)
    ensures
        joined(seq![], separator).len() == 0,
        joined(seq![part], separator) == part,
{
}

/// Joining two lists one after the other puts one separator between what they
/// are joined to.
pub proof fn separators_stand_between_parts(
    first: Seq<Seq<char>>,
    later: Seq<Seq<char>>,
    separator: Seq<char>,
)
    requires
        first.len() > 0,
        later.len() > 0,
    ensures
        joined(first + later, separator) == joined(first, separator) + separator + joined(
            later,
            separator,
        ),
    decreases later.len(),
{
    let all = first + later;
    assert(all.drop_last() == first + later.drop_last());
    assert(all.last() == later.last());
    if later.len() == 1 {
        assert(all.drop_last() == first);
    } else {
        separators_stand_between_parts(first, later.drop_last(), separator);
        assert(joined(all, separator) == joined(first, separator) + separator + joined(
            later,
            separator,
        ));
    }
}

/// Whether `text` is made of decimal digits, and of at least one.
pub open spec fn all_digits(text: Seq<char>) -> bool {
    &&& text.len() > 0
    &&& forall|i: int| 0 <= i < text.len() ==> '0' <= #[trigger] text[i] <= '9'
}

/// The number that `digits` stand for when they are read as decimal digits.
pub open spec fn reading(digits: Seq<char>) -> int
    decreases digits.len(),
{
    if digits.len() == 0 {
        0
    } else {
        10 * reading(digits.drop_last()) + (digits.last() as int - '0' as int)
    }
}

/// A number in decimal notation is made of digits, reads back as that number, and
/// has no leading zero unless it is zero itself.
pub proof fn decimal_notation_reads_back(value: nat)
    ensures
        all_digits(decimal(value)),
        reading(decimal(value)) == value,
        decimal(value)[0] == '0' ==> value == 0 && decimal(value).len() == 1,
    decreases value,
{
    let digits = decimal(value);
    if value < 10 {
        assert(digits.drop_last() == Seq::<char>::empty());
        assert(reading(digits.drop_last()) == 0);
    } else {
        decimal_notation_reads_back(value / 10);
        assert(digits.drop_last() == decimal(value / 10));
        assert(digits[0] == decimal(value / 10)[0]);
        assert forall|i: int| 0 <= i < digits.len() implies '0' <= #[trigger] digits[i] <= '9' by {
            if i < digits.len() - 1 {
                assert(digits[i] == decimal(value / 10)[i]);
            }
        }
    }
}

/// Different numbers have different notations.
pub proof fn decimal_notations_tell_numbers_apart(one: nat, other: nat)
    ensures
        decimal(one) == decimal(other) <==> one == other,
{
    decimal_notation_reads_back(one);
    decimal_notation_reads_back(other);
}

} // verus!
