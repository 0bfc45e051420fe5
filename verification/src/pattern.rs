//! Regular-expression matching, which the `regex` crate does, and cutting a
//! text at the byte offsets that it reports.

use vstd::prelude::*;
use vstd::string::StringSliceAdditionalSpecFns;
use vstd::utf8::{decode_utf8, encode_utf8, is_char_boundary, valid_utf8};

verus! {

/// Where the `regex` crate finds the leftmost match of `pattern` in
/// `haystack`: the byte offsets of its start and end. `None` where nothing
/// matches, and also where the crate does not accept the pattern.
pub uninterp spec fn regex_find(pattern: Seq<char>, haystack: Seq<char>) -> Option<(usize, usize)>;

/// What the groups of the leftmost match of `pattern` in `haystack` hold,
/// by the `regex` crate: one entry for each group of the pattern, the whole
/// match first, `None` for a group that took no part. `None` where nothing
/// matches, and also where the crate does not accept the pattern.
pub uninterp spec fn regex_captures(pattern: Seq<char>, haystack: Seq<char>) -> Option<
    Seq<Option<Seq<char>>>,
>;

/// Whether `from..to` is a range of whole characters in the UTF-8 bytes of a text.
pub open spec fn is_char_range(bytes: Seq<u8>, from: int, to: int) -> bool {
    &&& 0 <= from <= to <= bytes.len()
    &&& is_char_boundary(bytes, from)
    &&& is_char_boundary(bytes, to)
}

/// The characters that the bytes `from..to` of the UTF-8 form of `s` encode.
pub open spec fn text_between(s: Seq<char>, from: int, to: int) -> Seq<char> {
    decode_utf8(encode_utf8(s).subrange(from, to))
}

/// The character views of the groups of a match.
pub open spec fn groups_view(groups: Option<Vec<Option<String>>>) -> Option<Seq<Option<Seq<char>>>> {
    match groups {
        Some(v) => Some(
            v@.map_values(
                |g: Option<String>|
                    match g {
                        Some(t) => Some(t@),
                        None => None,
                    },
            ),
        ),
        None => None,
    }
}

/// `Regex::new` and `Regex::find` of the `regex` crate, with `Match::start` and
/// `Match::end` of what was found. The span is the one named `regex_find`; the
/// crate documents that start is no larger than end and that both lie on
/// character boundaries of the haystack.
#[verifier::external_body]
pub(crate) fn find(pattern: &str, haystack: &str) -> (span: Option<(usize, usize)>)
    ensures
        span == regex_find(pattern@, haystack@),
        span matches Some(found) ==> is_char_range(
            haystack.spec_bytes(),
            found.0 as int,
            found.1 as int,
        ),
{
    let re = regex::Regex::new(pattern).ok()?;
    re.find(haystack).map(|m| (m.start(), m.end()))
}

/// `Regex::new` and `Regex::captures` of the `regex` crate, with the text of
/// every group copied out in the order of `Captures::iter`. The groups are the
/// ones named `regex_captures`.
#[verifier::external_body]
pub(crate) fn captures(pattern: &str, haystack: &str) -> (groups: Option<Vec<Option<String>>>)
    ensures
        groups_view(groups) == regex_captures(pattern@, haystack@),
{
    let re = regex::Regex::new(pattern).ok()?;
    let caps = re.captures(haystack)?;
    Some(caps.iter().map(|g| g.map(|m| m.as_str().to_owned())).collect())
}

/// A character boundary of a text is one of each prefix that reaches it.
proof fn boundary_in_prefix(bytes: Seq<u8>, from: int, to: int)
    requires
        valid_utf8(bytes),
        is_char_range(bytes, from, to),
    ensures
        valid_utf8(bytes.subrange(0, to)),
        is_char_boundary(bytes.subrange(0, to), from),
{
    let head = bytes.subrange(0, to);
    vstd::utf8::valid_utf8_split(bytes, to);
    if from == to {
        vstd::utf8::is_char_boundary_start_end_of_seq(head);
    } else {
        vstd::utf8::is_char_boundary_iff_not_is_continuation_byte(bytes, from);
        vstd::utf8::is_char_boundary_iff_not_is_continuation_byte(head, from);
        assert(head[from] == bytes[from]);
    }
}

/// The part of `s` between two byte offsets that lie on character boundaries.
pub fn slice_between<'a>(s: &'a str, from: usize, to: usize) -> (part: &'a str)
    requires
        is_char_range(s.spec_bytes(), from as int, to as int),
    ensures
        part@ == text_between(s@, from as int, to as int),
{
    proof {
        vstd::utf8::encode_utf8_valid_utf8(s@);
        boundary_in_prefix(s.spec_bytes(), from as int, to as int);
    }
    let (head, _) = s.split_at(to);
    let (_, part) = head.split_at(from);
    proof {
        let bytes = s.spec_bytes();
        assert(bytes.subrange(0, to as int).subrange(from as int, to as int) =~= bytes.subrange(
            from as int,
            to as int,
        ));
        vstd::utf8::encode_utf8_decode_utf8(part@);
    }
    part
}

/// The part of `s` from a byte offset that lies on a character boundary.
pub fn slice_from<'a>(s: &'a str, from: usize) -> (part: &'a str)
    requires
        is_char_range(s.spec_bytes(), from as int, s.spec_bytes().len() as int),
    ensures
        part@ == text_between(s@, from as int, encode_utf8(s@).len() as int),
{
    let (_, part) = s.split_at(from);
    proof {
        vstd::utf8::encode_utf8_decode_utf8(part@);
    }
    part
}

/// The text of group `index` of a match, if the match has such a group and
/// the group took part.
pub open spec fn group_text(groups: Option<Seq<Option<Seq<char>>>>, index: int) -> Option<Seq<char>> {
    match groups {
        Some(g) => if 0 <= index < g.len() {
            g[index]
        } else {
            None
        },
        None => None,
    }
}

/// Picks the text of one group out of a match.
pub fn group<'a>(groups: &'a Option<Vec<Option<String>>>, index: usize) -> (text: Option<&'a str>)
    ensures
        crate::reddit::opt_view(text) == group_text(groups_view(*groups), index as int),
{
    match groups {
        None => None,
        Some(v) => {
            if index < v.len() {
                match &v[index] {
                    Some(t) => Some(t.as_str()),
                    None => None,
                }
            } else {
                None
            }
        },
    }
}

} // verus!
