//! Reading the name and the version of a Linux distribution out of the text
//! of its `os-release` file.

use vstd::prelude::*;
use vstd::string::*;

verus! {

/// The position of the first line feed in `text`, or the length of `text`
/// if it holds none.
pub open spec fn line_end(text: Seq<char>) -> int
    decreases text.len(),
{
    if text.len() == 0 {
        0
    } else if text[0] == '\n' {
        0
    } else {
        1 + line_end(text.skip(1))
    }
}

/// A line without the carriage return that may stand before its line feed.
pub open spec fn without_carriage_return(line: Seq<char>) -> Seq<char> {
    if line.len() > 0 && line.last() == '\r' {
        line.drop_last()
    } else {
        line
    }
}

/// The lines of `text`. A line ends at a line feed, or at a carriage return
/// and a line feed, neither of which belongs to it; the last line may end
/// with the text instead, and is then kept as it stands. A line feed at the
/// very end opens no further line.
pub open spec fn lines(text: Seq<char>) -> Seq<Seq<char>>
    decreases text.len(),
{
    let end = line_end(text);
    if text.len() == 0 {
        Seq::empty()
    } else if 0 <= end < text.len() {
        seq![without_carriage_return(text.take(end))] + lines(text.skip(end + 1))
    } else {
        seq![text]
    }
}

/// `line` with every leading repetition of `key` taken off.
pub open spec fn trim_start_matches(line: Seq<char>, key: Seq<char>) -> Seq<char>
    decreases line.len(),
{
    if key.len() > 0 && key.is_prefix_of(line) {
        trim_start_matches(line.skip(key.len() as int), key)
    } else {
        line
    }
}

/// `text` with every leading `c` taken off.
pub open spec fn trim_leading(text: Seq<char>, c: char) -> Seq<char>
    decreases text.len(),
{
    if text.len() > 0 && text[0] == c {
        trim_leading(text.skip(1), c)
    } else {
        text
    }
}

/// `text` with every trailing `c` taken off.
pub open spec fn trim_trailing(text: Seq<char>, c: char) -> Seq<char>
    decreases text.len(),
{
    if text.len() > 0 && text.last() == c {
        trim_trailing(text.drop_last(), c)
    } else {
        text
    }
}

/// The value that `line` gives to `key`: what follows the key, without the
/// double quotes around it.
pub open spec fn field_value(line: Seq<char>, key: Seq<char>) -> Seq<char> {
    trim_trailing(trim_leading(trim_start_matches(line, key), '"'), '"')
}

/// The value of `key` in `lines`: that of the last line that starts with
/// the key, or `default` if no line does.
pub open spec fn last_field(lines: Seq<Seq<char>>, key: Seq<char>, default: Seq<char>) -> Seq<char>
    decreases lines.len(),
{
    if lines.len() == 0 {
        default
    } else if key.is_prefix_of(lines.last()) {
        field_value(lines.last(), key)
    } else {
        last_field(lines.drop_last(), key, default)
    }
}

pub open spec fn id_key() -> Seq<char> {
    seq!['I', 'D', '=']
}

pub open spec fn version_id_key() -> Seq<char> {
    seq!['V', 'E', 'R', 'S', 'I', 'O', 'N', '_', 'I', 'D', '=']
}

/// What stands for a field that the file does not give.
pub open spec fn unknown() -> Seq<char> {
    seq!['u', 'n', 'k', 'n', 'o', 'w', 'n']
}

/// The distribution's identifier and the identifier of its version, parted
/// by a space, as the `os-release` text `content` gives them.
pub open spec fn distribution_spec(content: Seq<char>) -> Seq<char> {
    last_field(lines(content), id_key(), unknown()) + seq![' '] + last_field(
        lines(content),
        version_id_key(),
        unknown(),
    )
}

/// `line_end` is the one position that has a line feed, or the end of the
/// text, with no line feed before it.
pub proof fn lemma_line_end(text: Seq<char>, end: int)
    requires
        0 <= end <= text.len(),
        forall|i: int| 0 <= i < end ==> text[i] != '\n',
        end < text.len() ==> text[end] == '\n',
    ensures
        line_end(text) == end,
    decreases text.len(),
{
    if text.len() != 0 && text[0] != '\n' {
        let rest = text.skip(1);
        assert forall|i: int| 0 <= i < end - 1 implies rest[i] != '\n' by {
            assert(rest[i] == text[i + 1]);
        }
        lemma_line_end(rest, end - 1);
    }
}

fn chars_of(text: &str) -> (chars: Vec<char>)
    ensures
        chars@ == text@,
{
    let mut chars: Vec<char> = Vec::new();
    for c in it: text.chars()
        invariant
            chars@ == it.seq().take(it.index() as int),
            it.seq() == text@,
    {
        chars.push(c);
    }
    chars
}

/// Finds the end of the line that starts at `from`.
fn find_line_end(chars: &Vec<char>, from: usize) -> (end: usize)
    requires
        from <= chars.len(),
    ensures
        from <= end <= chars.len(),
        end - from == line_end(chars@.skip(from as int)),
{
    let mut end = from;
    while end < chars.len() && chars[end] != '\n'
        invariant
            from <= end <= chars.len(),
            forall|i: int| from <= i < end ==> chars@[i] != '\n',
        decreases chars.len() - end,
    {
        end += 1;
    }
    proof {
        lemma_line_end(chars@.skip(from as int), end - from);
    }
    end
}

/// Whether `key` stands at the start of the characters from `from` up to `to`.
fn starts_with(chars: &Vec<char>, from: usize, to: usize, key: &Vec<char>) -> (yes: bool)
    requires
        from <= to <= chars.len(),
    ensures
        yes == key@.is_prefix_of(chars@.subrange(from as int, to as int)),
{
    let ghost line = chars@.subrange(from as int, to as int);
    if key.len() > to - from {
        return false;
    }
    let mut i: usize = 0;
    while i < key.len()
        invariant
            i <= key.len() <= to - from,
            from <= to <= chars.len(),
            line == chars@.subrange(from as int, to as int),
            forall|j: int| 0 <= j < i ==> key@[j] == line[j],
        decreases key.len() - i,
    {
        if chars[from + i] != key[i] {
            assert(line.subrange(0, key@.len() as int)[i as int] != key@[i as int]);
            return false;
        }
        i += 1;
    }
    assert(key@ =~= line.subrange(0, key@.len() as int));
    true
}

/// The value that the line from `from` up to `to` gives to `key`.
fn field(content: &str, chars: &Vec<char>, from: usize, to: usize, key: &Vec<char>) -> (value:
    String)
    requires
        chars@ == content@,
        from <= to <= chars.len(),
        key.len() > 0,
    ensures
        value@ == field_value(chars@.subrange(from as int, to as int), key@),
{
    let ghost line = chars@.subrange(from as int, to as int);
    let mut start = from;
    while starts_with(chars, start, to, key)
        invariant
            from <= start <= to <= chars.len(),
            key.len() > 0,
            trim_start_matches(line, key@) == trim_start_matches(
                chars@.subrange(start as int, to as int),
                key@,
            ),
        decreases to - start,
    {
        proof {
            let here = chars@.subrange(start as int, to as int);
            assert(here.skip(key@.len() as int) =~= chars@.subrange(
                start + key@.len(),
                to as int,
            ));
        }
        start += key.len();
    }
    let ghost unkeyed = chars@.subrange(start as int, to as int);
    while start < to && chars[start] == '"'
        invariant
            start <= to <= chars.len(),
            trim_leading(unkeyed, '"') == trim_leading(chars@.subrange(start as int, to as int), '"'),
        decreases to - start,
    {
        proof {
            let here = chars@.subrange(start as int, to as int);
            assert(here.skip(1) =~= chars@.subrange(start + 1, to as int));
        }
        start += 1;
    }
    let ghost opened = chars@.subrange(start as int, to as int);
    let mut stop = to;
    while stop > start && chars[stop - 1] == '"'
        invariant
            start <= stop <= to <= chars.len(),
            trim_trailing(opened, '"') == trim_trailing(
                chars@.subrange(start as int, stop as int),
                '"',
            ),
        decreases stop - start,
    {
        proof {
            let here = chars@.subrange(start as int, stop as int);
            assert(here.drop_last() =~= chars@.subrange(start as int, stop - 1));
        }
        stop -= 1;
    }
    String::from_str(content.substring_char(start, stop))
}

/// Reads the distribution's identifier and the identifier of its version
/// out of the text of an `os-release` file and joins them with a space.
/// Each is the value of the last line that gives it, without the double
/// quotes around it, and `unknown` if no line does.
pub fn distribution(content: &str) -> (text: String)
    ensures
        text@ == distribution_spec(content@),
{
    let chars = chars_of(content);
    let id: Vec<char> = vec!['I', 'D', '='];
    let version_id: Vec<char> = vec!['V', 'E', 'R', 'S', 'I', 'O', 'N', '_', 'I', 'D', '='];
    proof {
        reveal_strlit("unknown");
        reveal_strlit(" ");
        assert(id@ =~= id_key());
        assert(version_id@ =~= version_id_key());
        assert("unknown"@ =~= unknown());
    }
    let mut name = String::from_str("unknown");
    let mut version = String::from_str("unknown");
    let ghost mut done: Seq<Seq<char>> = Seq::empty();
    let mut pos: usize = 0;
    proof {
        assert(content@.skip(0) =~= content@);
        assert(done + lines(content@) =~= lines(content@));
    }
    while pos < chars.len()
        invariant
            pos <= chars.len(),
            chars@ == content@,
            id@ == id_key(),
            version_id@ == version_id_key(),
            lines(content@) == done + lines(content@.skip(pos as int)),
            name@ == last_field(done, id_key(), unknown()),
            version@ == last_field(done, version_id_key(), unknown()),
        decreases chars.len() - pos,
    {
        let ghost rest = content@.skip(pos as int);
        let end = find_line_end(&chars, pos);
        let terminated = end < chars.len();
        let stop = if terminated && end > pos && chars[end - 1] == '\r' {
            end - 1
        } else {
            end
        };
        let next = if terminated {
            end + 1
        } else {
            end
        };
        let ghost line = chars@.subrange(pos as int, stop as int);
        proof {
            if terminated {
                assert(rest.take(end - pos) =~= chars@.subrange(pos as int, end as int));
                if end > pos && chars@[end - 1] == '\r' {
                    assert(chars@.subrange(pos as int, end as int).drop_last() =~= line);
                }
                assert(rest.skip(end - pos + 1) =~= content@.skip(next as int));
            } else {
                assert(line =~= rest);
                assert(lines(content@.skip(next as int)) =~= Seq::<Seq<char>>::empty());
            }
            assert(lines(rest) =~= seq![line] + lines(content@.skip(next as int)));
            assert(done.push(line).drop_last() =~= done);
            assert(done + lines(rest) =~= done.push(line) + lines(content@.skip(next as int)));
        }
        if starts_with(&chars, pos, stop, &id) {
            name = field(content, &chars, pos, stop, &id);
        }
        if starts_with(&chars, pos, stop, &version_id) {
            version = field(content, &chars, pos, stop, &version_id);
        }
        proof {
            done = done.push(line);
        }
        pos = next;
    }
    proof {
        assert(lines(content@.skip(pos as int)) =~= Seq::<Seq<char>>::empty());
        assert(done + Seq::<Seq<char>>::empty() =~= done);
    }
    let mut text = name;
    text.append(" ");
    text.append(version.as_str());
    assert(text@ =~= distribution_spec(content@));
    text
}

} // verus!
