//! Small verified helpers on strings, stated over `Seq<char>`.

use vstd::prelude::*;
use vstd::std_specs::iter::IteratorSpec;

verus! {

/// The views of a sequence of strings.
pub open spec fn texts(items: Seq<String>) -> Seq<Seq<char>> {
    Seq::new(items.len(), |i: int| items[i]@)
}

/// `s` with every occurrence of `from` replaced by `to`.
pub open spec fn replace_each(s: Seq<char>, from: char, to: Seq<char>) -> Seq<char>
    decreases s.len(),
{
    if s.len() == 0 {
        Seq::empty()
    } else {
        replace_each(s.drop_last(), from, to) + (if s.last() == from {
            to
        } else {
            seq![s.last()]
        })
    }
}

/// The parts in order, with `sep` between neighbours.
pub open spec fn join_with(parts: Seq<Seq<char>>, sep: Seq<char>) -> Seq<char>
    decreases parts.len(),
{
    if parts.len() == 0 {
        Seq::empty()
    } else if parts.len() == 1 {
        parts[0]
    } else {
        join_with(parts.drop_last(), sep) + sep + parts.last()
    }
}

/// The text of a boolean.
pub open spec fn bool_text(b: bool) -> Seq<char> {
    if b {
        "true"@
    } else {
        "false"@
    }
}

/// Whether two texts are the same.
pub fn text_eq(a: &str, b: &str) -> (r: bool)
    ensures
        r == (a@ == b@),
{
    let x = String::from_str(a);
    let y = String::from_str(b);
    x == y
}

/// Whether the character occurs in the text.
pub fn contains_char(s: &str, c: char) -> (r: bool)
    ensures
        r == s@.contains(c),
{
    let n: usize = s.unicode_len();
    let mut i: usize = 0;
    while i < n
        invariant
            n == s@.len(),
            0 <= i <= n,
            forall|j: int| 0 <= j < i ==> s@[j] != c,
        decreases n - i,
    {
        if s.get_char(i) == c {
            return true;
        }
        i = i + 1;
    }
    false
}

/// The text with every occurrence of `from` replaced by `to`.
pub fn replace_char(s: &str, from: char, to: &str) -> (r: String)
    ensures
        r@ == replace_each(s@, from, to@),
{
    let n: usize = s.unicode_len();
    let mut out = String::new();
    let mut i: usize = 0;
    while i < n
        invariant
            n == s@.len(),
            0 <= i <= n,
            out@ == replace_each(s@.subrange(0, i as int), from, to@),
        decreases n - i,
    {
        let c = s.get_char(i);
        proof {
            assert(s@.subrange(0, i + 1).drop_last() =~= s@.subrange(0, i as int));
            assert(s@.subrange(0, i + 1).last() == s@[i as int]);
        }
        if c == from {
            out.append(to);
        } else {
            let piece = s.substring_char(i, i + 1);
            assert(piece@ =~= seq![s@[i as int]]);
            out.append(piece);
        }
        i = i + 1;
    }
    assert(s@.subrange(0, n as int) =~= s@);
    out
}

/// The two texts, one after the other.
pub fn concat(a: &str, b: &str) -> (r: String)
    ensures
        r@ == a@ + b@,
{
    let mut out = String::from_str(a);
    out.append(b);
    out
}

/// The three texts, one after the other.
pub fn concat3(a: &str, b: &str, c: &str) -> (r: String)
    ensures
        r@ == a@ + b@ + c@,
{
    let mut out = String::from_str(a);
    out.append(b);
    out.append(c);
    out
}

/// The parts in order, with `sep` between neighbours.
pub fn join(parts: &Vec<String>, sep: &str) -> (r: String)
    ensures
        r@ == join_with(texts(parts@), sep@),
{
    let mut out = String::new();
    let mut i: usize = 0;
    while i < parts.len()
        invariant
            0 <= i <= parts.len(),
            out@ == join_with(texts(parts@).subrange(0, i as int), sep@),
        decreases parts.len() - i,
    {
        proof {
            let done = texts(parts@).subrange(0, i + 1);
            assert(done.drop_last() =~= texts(parts@).subrange(0, i as int));
            assert(done.last() == parts@[i as int]@);
        }
        if i > 0 {
            out.append(sep);
        } else {
            assert(out@ + parts@[0]@ =~= parts@[0]@);
        }
        out.append(parts[i].as_str());
        i = i + 1;
    }
    assert(texts(parts@).subrange(0, parts.len() as int) =~= texts(parts@));
    out
}

/// Whether `value` is one of `values`.
pub fn contains_text(values: &Vec<String>, value: &str) -> (r: bool)
    ensures
        r == texts(values@).contains(value@),
{
    let mut i: usize = 0;
    while i < values.len()
        invariant
            0 <= i <= values.len(),
            forall|j: int| 0 <= j < i ==> texts(values@)[j] != value@,
        decreases values.len() - i,
    {
        if text_eq(values[i].as_str(), value) {
            assert(texts(values@)[i as int] == value@);
            return true;
        }
        i = i + 1;
    }
    false
}

/// Whether a character is white space: the characters with the Unicode
/// property `White_Space`, which `char::is_whitespace` tests for.
pub open spec fn whitespace(c: char) -> bool {
    let code = c as u32;
    ||| 0x09 <= code <= 0x0D
    ||| code == 0x20
    ||| code == 0x85
    ||| code == 0xA0
    ||| code == 0x1680
    ||| 0x2000 <= code <= 0x200A
    ||| code == 0x2028
    ||| code == 0x2029
    ||| code == 0x202F
    ||| code == 0x205F
    ||| code == 0x3000
}

/// Whether a character is white space.
pub fn is_whitespace(c: char) -> (r: bool)
    ensures
        r == whitespace(c),
{
    let code: u32 = c as u32;
    (0x09 <= code && code <= 0x0D) || code == 0x20 || code == 0x85 || code == 0xA0 || code
        == 0x1680 || (0x2000 <= code && code <= 0x200A) || code == 0x2028 || code == 0x2029
        || code == 0x202F || code == 0x205F || code == 0x3000
}

/// Whether a line begins at `at`: at the start of the text or behind a line feed.
pub open spec fn starts_line(text: Seq<char>, at: int) -> bool {
    at == 0 || text[at - 1] == '\n'
}

/// Whether the character at `at` is the first of its line that is no white space.
pub open spec fn leads_line(text: Seq<char>, at: int) -> bool {
    &&& 0 <= at < text.len()
    &&& !whitespace(text[at])
    &&& exists|start: int|
        0 <= start <= at && starts_line(text, start) && forall|j: int|
            start <= j < at ==> whitespace(#[trigger] text[j]) && text[j] != '\n'
}

/// Whether every line that is not blank is a comment: its first character
/// that is no white space is `#`.
pub open spec fn all_lines_commented(text: Seq<char>) -> bool {
    forall|at: int| #[trigger] leads_line(text, at) ==> text[at] == '#'
}

/// Whether every line of the content that is not blank is a comment.
pub fn is_commented_out(content: &str) -> (r: bool)
    ensures
        r == all_lines_commented(content@),
{
    broadcast use vstd::string::group_string_axioms;

    let ghost text = content@;
    let mut chars = content.chars();
    let ghost mut i: int = 0;
    let mut blank = true;
    let ghost mut start: int = 0;
    assert(text.subrange(0, text.len() as int) =~= text);
    loop
        invariant
            text == content@,
            0 <= start <= i <= text.len(),
            chars.obeys_prophetic_iter_laws(),
            chars.decrease() is Some,
            chars.remaining() == text.subrange(i, text.len() as int),
            starts_line(text, start),
            forall|j: int| start <= j < i ==> #[trigger] text[j] != '\n',
            blank == (forall|j: int| start <= j < i ==> whitespace(#[trigger] text[j])),
            forall|at: int| 0 <= at < i && #[trigger] leads_line(text, at) ==> text[at] == '#',
        ensures
            i == text.len(),
            forall|at: int| 0 <= at < i && #[trigger] leads_line(text, at) ==> text[at] == '#',
        decreases text.len() - i,
    {
        let ghost rest = chars.remaining();
        let c = match chars.next() {
            Some(c) => c,
            None => {
                break;
            },
        };
        assert(c == text[i]);
        assert(chars.remaining() =~= text.subrange(i + 1, text.len() as int));
        let ghost was_blank = blank;
        let ghost line = start;
        assert(whitespace('\n'));
        if c == '\n' {
            blank = true;
            proof {
                start = i + 1;
            }
        } else if blank {
            if !is_whitespace(c) {
                if c != '#' {
                    proof {
                        assert(leads_line(text, i)) by {
                            assert(0 <= line <= i && starts_line(text, line) && forall|j: int|
                                line <= j < i ==> whitespace(#[trigger] text[j]) && text[j]
                                    != '\n');
                        }
                    }
                    return false;
                }
                blank = false;
            }
        }
        proof {
            if leads_line(text, i) && text[i] != '#' {
                let other = choose|other: int|
                    0 <= other <= i && starts_line(text, other) && forall|j: int|
                        other <= j < i ==> whitespace(#[trigger] text[j]) && text[j] != '\n';
                if other < line {
                    assert(whitespace(text[line - 1]) && text[line - 1] != '\n');
                } else if other > line {
                    assert(text[other - 1] != '\n');
                }
                assert(other == line);
                assert(was_blank);
            }
            i = i + 1;
        }
    }
    assert forall|at: int| #[trigger] leads_line(text, at) implies text[at] == '#' by {}
    true
}

/// `true` or `false`.
pub fn bool_to_text(b: bool) -> (r: String)
    ensures
        r@ == bool_text(b),
{
    if b {
        "true".to_string()
    } else {
        "false".to_string()
    }
}

/// A list of new strings with the same texts.
pub fn clone_texts(items: &Vec<String>) -> (r: Vec<String>)
    ensures
        texts(r@) == texts(items@),
{
    let mut out: Vec<String> = Vec::new();
    let mut i: usize = 0;
    while i < items.len()
        invariant
            0 <= i <= items.len(),
            out@.len() == i,
            forall|j: int| 0 <= j < i ==> out@[j]@ == items@[j]@,
        decreases items.len() - i,
    {
        out.push(items[i].clone());
        i = i + 1;
    }
    assert(texts(out@) =~= texts(items@));
    out
}

} // verus!
