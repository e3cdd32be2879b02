//! The header fields of a response head, held in an `http::HeaderMap`.
//!
//! The lines of the head are parted here; what makes a name or a value
//! valid, and the keeping of the fields, is the map's own.

use crate::text::{
    chars_of, find, find_char, lemma_find_char, slice_of, string_of, trim_range, trimmed,
};
use http::header::{HeaderMap, HeaderName, HeaderValue};
use std::str::FromStr;
use vstd::prelude::*;

verus! {

/// `http::HeaderMap`, a multimap from header names to values.
#[verifier::external_type_specification]
#[verifier::external_body]
#[verifier::reject_recursive_types(T)]
pub struct ExHeaderMap<T>(HeaderMap<T>);

/// `http::HeaderValue`, the value of a header field.
#[verifier::external_type_specification]
#[verifier::external_body]
pub struct ExHeaderValue(HeaderValue);

/// What a header map holds: for each name that has a value, in lower
/// case, its values in the order in which they were added. A value is its
/// text, or `None` where it is not made of visible ASCII characters and
/// tabs alone.
pub uninterp spec fn header_values(headers: HeaderMap<HeaderValue>) -> Map<
    Seq<char>,
    Seq<Option<Seq<char>>>,
>;

/// The longest header name, in characters.
pub const MAX_NAME_LEN: usize = 65_535;

/// Whether a character may stand in a header name: an ASCII letter or
/// digit, or one of ``!#$%&'*+-.^_`|~``.
pub open spec fn is_name_char(c: char) -> bool {
    ||| 'a' <= c <= 'z'
    ||| 'A' <= c <= 'Z'
    ||| '0' <= c <= '9'
    ||| c == '!'
    ||| c == '#'
    ||| c == '$'
    ||| c == '%'
    ||| c == '&'
    ||| c == '\''
    ||| c == '*'
    ||| c == '+'
    ||| c == '-'
    ||| c == '.'
    ||| c == '^'
    ||| c == '_'
    ||| c == '`'
    ||| c == '|'
    ||| c == '~'
}

/// Whether a text is a header name: between one and `MAX_NAME_LEN`
/// characters, each of which may stand in a name.
pub open spec fn valid_name(name: Seq<char>) -> bool {
    &&& 1 <= name.len() <= MAX_NAME_LEN
    &&& forall|i: int| 0 <= i < name.len() ==> is_name_char(#[trigger] name[i])
}

/// Whether a text is a header value: it holds no control character but
/// the tab.
pub open spec fn valid_value(value: Seq<char>) -> bool {
    forall|i: int|
        0 <= i < value.len() ==> {
            let c = #[trigger] value[i];
            c == '\t' || (c >= ' ' && c != '\x7f')
        }
}

/// A header value as text: itself if it is made of visible ASCII
/// characters and tabs alone.
pub open spec fn shown_value(value: Seq<char>) -> Option<Seq<char>> {
    if forall|i: int|
        0 <= i < value.len() ==> {
            let c = #[trigger] value[i];
            c == '\t' || ' ' <= c <= '~'
        } {
        Some(value)
    } else {
        None
    }
}

/// The character in lower case if it is an ASCII capital, else itself.
pub open spec fn ascii_lower(c: char) -> char {
    if 'A' <= c <= 'Z' {
        ((c as u32 + 32) as u32) as char
    } else {
        c
    }
}

/// The text with its ASCII capitals in lower case.
pub open spec fn ascii_lowercase(s: Seq<char>) -> Seq<char> {
    s.map_values(|c: char| ascii_lower(c))
}

/// The values of a map after one more value is added under `name`.
pub open spec fn with_value(
    values: Map<Seq<char>, Seq<Option<Seq<char>>>>,
    name: Seq<char>,
    value: Option<Seq<char>>,
) -> Map<Seq<char>, Seq<Option<Seq<char>>>> {
    let earlier = if values.contains_key(name) {
        values[name]
    } else {
        Seq::empty()
    };
    values.insert(name, earlier.push(value))
}

/// The text of the first value that a map holds under a name, whatever
/// the case of the name's letters; `None` where the name is no header
/// name, has no value, or its first value is no text.
pub open spec fn first_value_of(
    values: Map<Seq<char>, Seq<Option<Seq<char>>>>,
    name: Seq<char>,
) -> Option<Seq<char>> {
    let key = ascii_lowercase(name);
    if valid_name(name) && values.contains_key(key) && values[key].len() > 0 {
        values[key][0]
    } else {
        None
    }
}

/// What became of a field that was offered to a header map.
enum Appended {
    /// The map holds it.
    Added,
    /// Its name or its value is not valid.
    Invalid,
    /// The map takes no more.
    Full,
}

/// `HeaderMap::new` makes a map that holds nothing.
#[verifier::external_body]
fn new_headers() -> (r: HeaderMap<HeaderValue>)
    ensures
        header_values(r) =~= Map::empty(),
{
    HeaderMap::new()
}

/// Whether a map holds so few names that it takes one more field
/// whatever the field is.
pub open spec fn takes_more(values: Map<Seq<char>, Seq<Option<Seq<char>>>>) -> bool {
    values.dom().finite() && values.dom().len() < 3_277
}

/// Offers a field to a map: `HeaderName::from_str` and
/// `HeaderValue::from_str` read the name and the value, and
/// `HeaderMap::try_append` adds them. The field is invalid, and the map
/// untouched, exactly where the name or the value is not valid. Where it is
/// added, the value stands last under the name in lower case. Nothing is
/// said of a map that took no more. A map of fewer than 3,277 names always
/// takes more: `try_append` fails only where the map would grow past
/// 32,768 slots, which it tries from 16,385 slots on, and only once its
/// names are a fifth of its slots; or where it holds 32,768 names.
#[verifier::external_body]
fn append_header(headers: &mut HeaderMap<HeaderValue>, name: &str, value: &str) -> (r: Appended)
    ensures
        r is Invalid <==> !(valid_name(name@) && valid_value(value@)),
        r is Invalid ==> header_values(*final(headers)) == header_values(*old(headers)),
        r is Added ==> header_values(*final(headers)) == with_value(
            header_values(*old(headers)),
            ascii_lowercase(name@),
            shown_value(value@),
        ),
        takes_more(header_values(*old(headers))) ==> !(r is Full),
{
    match (HeaderName::from_str(name), HeaderValue::from_str(value)) {
        (Ok(n), Ok(v)) => match headers.try_append(n, v) {
            Ok(_) => Appended::Added,
            Err(_) => Appended::Full,
        },
        _ => Appended::Invalid,
    }
}

/// `HeaderMap::get` with a text as the key finds the first value under
/// that name, in any case of its letters, and `HeaderValue::to_str` gives
/// its text if it is made of visible ASCII characters and tabs alone.
#[verifier::external_body]
pub(crate) fn first_value(headers: &HeaderMap<HeaderValue>, name: &str) -> (r: Option<String>)
    ensures
        match r {
            Some(text) => first_value_of(header_values(*headers), name@) == Some(text@),
            None => first_value_of(header_values(*headers), name@) is None,
        },
{
    match headers.get(name) {
        Some(value) => match value.to_str() {
            Ok(text) => Some(text.to_owned()),
            Err(_) => None,
        },
        None => None,
    }
}

/// The name and the value that a line of a response head gives: the line,
/// trimmed, is a name, a colon and a value, both trimmed. A line without a
/// colon gives none.
pub open spec fn field_of(line: Seq<char>) -> Option<(Seq<char>, Seq<char>)> {
    let t = trimmed(line);
    let colon = find_char(t, ':', 0);
    if colon < t.len() {
        Some((trimmed(t.take(colon)), trimmed(t.skip(colon + 1))))
    } else {
        None
    }
}

/// The values of a map after a line of a response head is read: its field
/// is added if the line gives one whose name and value are valid.
pub open spec fn with_line(
    values: Map<Seq<char>, Seq<Option<Seq<char>>>>,
    line: Seq<char>,
) -> Map<Seq<char>, Seq<Option<Seq<char>>>> {
    match field_of(line) {
        Some((name, value)) => if valid_name(name) && valid_value(value) {
            with_value(values, ascii_lowercase(name), shown_value(value))
        } else {
            values
        },
        None => values,
    }
}

/// The values of a map after the lines of `head` from index `from` on are
/// read, in their order. Lines are parted by line feeds.
pub open spec fn headers_from(
    head: Seq<char>,
    from: int,
    values: Map<Seq<char>, Seq<Option<Seq<char>>>>,
) -> Map<Seq<char>, Seq<Option<Seq<char>>>>
    decreases head.len() - from,
{
    if 0 <= from <= head.len() {
        let end = find_char(head, '\n', from);
        let next = with_line(values, head.subrange(from, end));
        if end >= head.len() {
            next
        } else {
            proof {
                lemma_find_char(head, '\n', from);
            }
            headers_from(head, end + 1, next)
        }
    } else {
        values
    }
}

/// The header fields of a response head.
pub open spec fn headers_of(head: Seq<char>) -> Map<Seq<char>, Seq<Option<Seq<char>>>> {
    headers_from(head, 0, Map::empty())
}

/// Whether a line of a response head gives a valid field.
pub open spec fn has_field(line: Seq<char>) -> bool {
    match field_of(line) {
        Some((name, value)) => valid_name(name) && valid_value(value),
        None => false,
    }
}

/// The number of lines of `head` from index `from` on that give a valid
/// field.
pub open spec fn fields_from(head: Seq<char>, from: int) -> nat
    decreases head.len() - from,
{
    if 0 <= from <= head.len() {
        let end = find_char(head, '\n', from);
        let here: nat = if has_field(head.subrange(from, end)) {
            1
        } else {
            0
        };
        if end >= head.len() {
            here
        } else {
            proof {
                lemma_find_char(head, '\n', from);
            }
            here + fields_from(head, end + 1)
        }
    } else {
        0
    }
}

/// The number of lines of a response head that give a valid field.
pub open spec fn field_count(head: Seq<char>) -> nat {
    fields_from(head, 0)
}

/// A head has no more valid fields than it has lines, and no more lines
/// than characters and one.
pub proof fn lemma_fields_bounded(head: Seq<char>, from: int)
    requires
        0 <= from <= head.len(),
    ensures
        fields_from(head, from) <= head.len() - from + 1,
    decreases head.len() - from,
{
    let end = find_char(head, '\n', from);
    lemma_find_char(head, '\n', from);
    if end < head.len() {
        lemma_fields_bounded(head, end + 1);
    }
}

/// Adding a value to a map adds at most one name to it.
proof fn lemma_with_value_names(
    values: Map<Seq<char>, Seq<Option<Seq<char>>>>,
    name: Seq<char>,
    value: Option<Seq<char>>,
)
    requires
        values.dom().finite(),
    ensures
        with_value(values, name, value).dom().finite(),
        with_value(values, name, value).dom().len() <= values.dom().len() + 1,
{
    assert(with_value(values, name, value).dom() =~= values.dom().insert(name));
}

/// The name and the value that one line of a response head gives.
fn field_in_line(head: &Vec<char>, from: usize, to: usize) -> (r: Option<(String, String)>)
    requires
        from <= to <= head.len(),
    ensures
        match r {
            Some(f) => field_of(head@.subrange(from as int, to as int)) == Some((f.0@, f.1@)),
            None => field_of(head@.subrange(from as int, to as int)) is None,
        },
{
    let (a, b) = trim_range(head, from, to);
    let t = slice_of(head, a, b);
    let colon = find(&t, ':', 0);
    if colon >= t.len() {
        return None;
    }
    let (na, nb) = trim_range(&t, 0, colon);
    assert(t@.subrange(0, colon as int) =~= t@.take(colon as int));
    let (va, vb) = trim_range(&t, colon + 1, t.len());
    assert(t@.subrange(colon + 1, t.len() as int) =~= t@.skip(colon + 1));
    Some((string_of(&t, na, nb), string_of(&t, va, vb)))
}

/// Reads the header fields of a response head into a header map: each
/// line that gives a valid field adds it, other lines are passed over.
/// Returns `None` where the map took no more, which does not happen to a
/// head of fewer than 3,277 valid fields.
pub fn extract_http_headers(head: &str) -> (r: Option<HeaderMap<HeaderValue>>)
    ensures
        r matches Some(headers) ==> header_values(headers) == headers_of(head@),
        field_count(head@) < 3_277 ==> r is Some,
{
    let chars = chars_of(head);
    let mut headers = new_headers();
    let mut from: usize = 0;
    let ghost mut seen: nat = 0;
    loop
        invariant
            chars@ == head@,
            from <= chars.len(),
            headers_of(head@) == headers_from(chars@, from as int, header_values(headers)),
            header_values(headers).dom().finite(),
            header_values(headers).dom().len() <= seen,
            seen + fields_from(chars@, from as int) == field_count(head@),
        decreases chars.len() - from,
    {
        let end = find(&chars, '\n', from);
        let ghost before = header_values(headers);
        match field_in_line(&chars, from, end) {
            Some(field) => {
                match append_header(&mut headers, field.0.as_str(), field.1.as_str()) {
                    Appended::Full => {
                        return None;
                    },
                    Appended::Added => {
                        proof {
                            lemma_with_value_names(
                                before,
                                ascii_lowercase(field.0@),
                                shown_value(field.1@),
                            );
                            seen = seen + 1;
                        }
                    },
                    Appended::Invalid => {},
                }
            },
            None => {},
        }
        if end >= chars.len() {
            return Some(headers);
        }
        from = end + 1;
    }
}

} // verus!
