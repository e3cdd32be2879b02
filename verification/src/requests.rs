//! Requests to the speed test service.

use crate::text::{chars_of, find, find_char, lemma_find_char, slice_of, string_of};
use vstd::prelude::*;

verus! {

/// The body of a request.
#[derive(Clone, Copy, Debug, PartialEq, Eq, Hash, Default)]
pub enum RequestBody<T> {
    /// No body.
    #[default]
    Empty,
    /// A body of text.
    Text(T),
}

/// A text of `n` times the digit zero.
pub open spec fn zeros(n: nat) -> Seq<char> {
    Seq::new(n, |i: int| '0')
}

/// An upload of a payload of zeros.
#[derive(Clone, Debug)]
pub struct Upload {
    data: String,
}

impl Upload {
    /// The payload.
    pub closed spec fn payload(&self) -> Seq<char> {
        self.data@
    }

    /// An upload of `bytes` bytes: that many times the digit zero.
    pub fn new(bytes: usize) -> (r: Self)
        ensures
            r.payload() == zeros(bytes as nat),
    {
        let mut data = String::new();
        let mut i: usize = 0;
        while i < bytes
            invariant
                i <= bytes,
                data@ == zeros(i as nat),
            decreases bytes - i,
        {
            data.push('0');
            assert(data@ =~= zeros((i + 1) as nat));
            i += 1;
        }
        Upload { data }
    }

    /// The path of the upload endpoint.
    pub fn endpoint(&self) -> (r: &'static str)
        ensures
            r@ == "/__up"@,
    {
        "/__up"
    }

    /// The number of bytes of the payload.
    pub fn content_length(&self) -> (r: usize)
        ensures
            r == self.payload().len(),
    {
        let chars = self.data.as_str().unicode_len();
        chars
    }

    /// The body of the request: the payload.
    pub fn body(&self) -> (r: RequestBody<String>)
        ensures
            r matches RequestBody::Text(t) && t@ == self.payload(),
    {
        RequestBody::Text(self.data.clone())
    }
}

/// The key and the value that a line of a trace gives: the text before the
/// first `=` and the text between it and the next `=` or the end of the
/// line. A line without `=` gives none.
pub open spec fn pair_of(line: Seq<char>) -> Option<(Seq<char>, Seq<char>)> {
    let mark = find_char(line, '=', 0);
    if mark >= line.len() {
        None
    } else {
        Some((line.subrange(0, mark), line.subrange(mark + 1, find_char(line, '=', mark + 1))))
    }
}

/// The pairs of the lines of `text` from index `from` on, in their order.
/// Lines are parted by line feeds.
pub open spec fn pairs_from(text: Seq<char>, from: int) -> Seq<(Seq<char>, Seq<char>)>
    decreases text.len() - from,
{
    if 0 <= from <= text.len() {
        let end = find_char(text, '\n', from);
        let here = match pair_of(text.subrange(from, end)) {
            Some(p) => seq![p],
            None => Seq::empty(),
        };
        if end >= text.len() {
            here
        } else {
            proof {
                lemma_find_char(text, '\n', from);
            }
            here + pairs_from(text, end + 1)
        }
    } else {
        Seq::empty()
    }
}

/// The pairs of a list of owned pairs, as plain text.
pub open spec fn pair_views(pairs: Seq<(String, String)>) -> Seq<(Seq<char>, Seq<char>)> {
    pairs.map_values(|p: (String, String)| (p.0@, p.1@))
}

/// The key and the value of one line of a trace.
fn line_pair(line: &Vec<char>) -> (r: Option<(String, String)>)
    ensures
        match r {
            Some(p) => pair_of(line@) == Some((p.0@, p.1@)),
            None => pair_of(line@) is None,
        },
{
    let mark = find(line, '=', 0);
    if mark >= line.len() {
        None
    } else {
        let stop = find(line, '=', mark + 1);
        Some((string_of(line, 0, mark), string_of(line, mark + 1, stop)))
    }
}

/// Reads a trace, a list of `key=value` lines, into its pairs in the order
/// of the lines. Lines without `=` are passed over.
pub fn trace_pairs(text: &str) -> (r: Vec<(String, String)>)
    ensures
        pair_views(r@) == pairs_from(text@, 0),
{
    let chars = chars_of(text);
    let mut out: Vec<(String, String)> = Vec::new();
    let mut from: usize = 0;
    loop
        invariant
            chars@ == text@,
            from <= chars.len(),
            pairs_from(text@, 0) == pair_views(out@) + pairs_from(chars@, from as int),
        decreases chars.len() - from,
    {
        let end = find(&chars, '\n', from);
        let line = slice_of(&chars, from, end);
        let ghost before = out@;
        match line_pair(&line) {
            Some(p) => {
                out.push(p);
                assert(pair_views(out@) =~= pair_views(before) + seq![(p.0@, p.1@)]);
            },
            None => {},
        }
        if end >= chars.len() {
            assert(pair_views(out@) + Seq::<(Seq<char>, Seq<char>)>::empty() =~= pair_views(out@));
            return out;
        }
        assert(pairs_from(text@, 0) =~= pair_views(out@) + pairs_from(chars@, end + 1));
        from = end + 1;
    }
}

} // verus!
