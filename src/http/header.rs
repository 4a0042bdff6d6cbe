//! Validation of the header lines of a response-start event.
use vstd::prelude::*;

use crate::event::{headers_view, HeaderLine};

verus! {

/// Whether a byte may stand in a header value: a visible byte, a space or a
/// tab, but not DEL.
pub open spec fn header_value_byte(b: u8) -> bool {
    (b >= 32 && b != 127) || b == 9
}

/// Whether every byte of `v` may stand in a header value.
pub open spec fn valid_header_value(v: Seq<u8>) -> bool {
    forall|i: int| 0 <= i < v.len() ==> header_value_byte(#[trigger] v[i])
}

/// The normalised (lower-case) form of a header name, or `None` where the
/// bytes do not form a header name.
pub uninterp spec fn header_name_of(name: Seq<u8>) -> Option<Seq<u8>>;

/// Relies on `http::HeaderName::from_bytes`, which accepts or refuses a name
/// depending on its bytes alone and, through `HeaderName::as_str`, gives its
/// lower-case form; an empty name is refused.
#[verifier::external_body]
fn parse_header_name(name: &[u8]) -> (r: Option<Vec<u8>>)
    ensures
        r.is_some() == header_name_of(name@).is_some(),
        r matches Some(n) ==> header_name_of(name@) == Some(n@),
        name@.len() == 0 ==> r.is_none(),
{
    http::header::HeaderName::from_bytes(name).ok().map(|n| n.as_str().as_bytes().to_vec())
}

/// Relies on `http::HeaderValue::from_bytes`, which accepts exactly the byte
/// strings whose bytes are all valid header value bytes.
#[verifier::external_body]
fn header_value_accepted(value: &[u8]) -> (r: bool)
    ensures
        r == valid_header_value(value@),
{
    http::header::HeaderValue::from_bytes(value).is_ok()
}

/// The header line kept for a raw pair, given the parsed form of its name.
pub open spec fn line_from_parsed(parsed: Option<Seq<u8>>, value: Seq<u8>) -> Option<(Seq<u8>, Seq<u8>)> {
    match parsed {
        Some(n) => if valid_header_value(value) {
            Some((n, value))
        } else {
            None
        },
        None => None,
    }
}

/// The header line kept for a raw pair, or `None` where the pair is skipped.
pub open spec fn accepted_line(raw: (Seq<u8>, Seq<u8>)) -> Option<(Seq<u8>, Seq<u8>)> {
    line_from_parsed(header_name_of(raw.0), raw.1)
}

/// The header lines kept from a raw list, in order: each pair that does not
/// form a valid line is skipped.
pub open spec fn accepted_headers(raw: Seq<(Seq<u8>, Seq<u8>)>) -> Seq<(Seq<u8>, Seq<u8>)>
    decreases raw.len(),
{
    if raw.len() == 0 {
        Seq::empty()
    } else {
        let rest = accepted_headers(raw.drop_last());
        match accepted_line(raw.last()) {
            Some(l) => rest.push(l),
            None => rest,
        }
    }
}

/// Builds the header line for a raw pair from the parsed form of its name:
/// the line exists when the name parsed and the value is valid.
pub fn line_from_parsed_name(parsed: Option<Vec<u8>>, value: &Vec<u8>) -> (r: Option<HeaderLine>)
    ensures
        r.is_some() == line_from_parsed(
            match parsed {
                Some(n) => Some(n@),
                None => None,
            },
            value@,
        ).is_some(),
        r matches Some(l) ==> Some((l.0@, l.1@)) == line_from_parsed(
            match parsed {
                Some(n) => Some(n@),
                None => None,
            },
            value@,
        ),
{
    match parsed {
        Some(n) => {
            if header_value_accepted(value.as_slice()) {
                let v = value.clone();
                assert(v@ =~= value@);
                Some((n, v))
            } else {
                None
            }
        },
        None => None,
    }
}

/// Keeps the valid header lines of `raw`, in order, skipping each pair whose
/// name or value is invalid.
pub fn accept_headers(raw: &Vec<HeaderLine>) -> (r: Vec<HeaderLine>)
    ensures
        headers_view(r@) == accepted_headers(headers_view(raw@)),
{
    let mut out: Vec<HeaderLine> = Vec::new();
    let mut i: usize = 0;
    while i < raw.len()
        invariant
            i <= raw.len(),
            headers_view(out@) == accepted_headers(headers_view(raw@).take(i as int)),
        decreases raw.len() - i,
    {
        let parsed = parse_header_name(raw[i].0.as_slice());
        let line = line_from_parsed_name(parsed, &raw[i].1);
        let ghost prefix = headers_view(raw@).take(i as int + 1);
        assert(prefix.drop_last() =~= headers_view(raw@).take(i as int));
        assert(prefix.last() == (raw@[i as int].0@, raw@[i as int].1@));
        match line {
            Some(l) => {
                out.push(l);
                assert(headers_view(out@) =~= headers_view(out@.drop_last()).push((l.0@, l.1@)));
            },
            None => {},
        }
        i += 1;
    }
    assert(headers_view(raw@).take(raw.len() as int) =~= headers_view(raw@));
    out
}

} // verus!
