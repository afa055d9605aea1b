//! Textual input handed to the external media framework.
//!
//! The framework is driven by two pieces of text that this module builds and
//! pins down exactly: the `file://` URI a playback pipeline is loaded from,
//! and the declarative description of the trim/encode graph that an export
//! runs to completion (source, decode, trim between the two bounds, encode,
//! mux to MP4, sink). Times inside the description are decimal nanosecond
//! counts.

use vstd::prelude::*;
use vstd::string::StringExecFns;

verus! {

/// Nanoseconds in one second: the external framework's clock unit per second.
pub const NANOS_PER_SECOND: u64 = 1_000_000_000;

/// The character for one decimal digit.
pub open spec fn digit_char(d: nat) -> char {
    if d == 0 {
        '0'
    } else if d == 1 {
        '1'
    } else if d == 2 {
        '2'
    } else if d == 3 {
        '3'
    } else if d == 4 {
        '4'
    } else if d == 5 {
        '5'
    } else if d == 6 {
        '6'
    } else if d == 7 {
        '7'
    } else if d == 8 {
        '8'
    } else {
        '9'
    }
}

/// The decimal digits of `n`, most significant first, with no leading zeros
/// (`0` itself is the single digit `0`).
pub open spec fn dec_digits(n: nat) -> Seq<char>
    decreases n,
{
    if n < 10 {
        seq![digit_char(n)]
    } else {
        dec_digits(n / 10).push(digit_char(n % 10))
    }
}

/// The URI a playback pipeline is loaded from: the path behind a `file://`
/// scheme.
pub open spec fn file_uri_spec(path: Seq<char>) -> Seq<char> {
    "file://"@ + path
}

/// The description of the trim/encode graph for one export: read the input
/// file, decode, trim to `[start_ns, end_ns)`, re-encode, mux to MP4, write
/// the output file.
pub open spec fn export_description_spec(
    input: Seq<char>,
    output: Seq<char>,
    start_ns: u64,
    end_ns: u64,
) -> Seq<char> {
    "filesrc location="@ + input
        + " ! decodebin name=dec ! queue ! videoconvert ! videotrim start="@ + dec_digits(
        start_ns as nat,
    ) + " stop="@ + dec_digits(end_ns as nat)
        + " ! queue ! x264enc ! mp4mux ! filesink location="@ + output
}

/// The one-character string for a decimal digit.
fn digit_str(d: u64) -> (s: &'static str)
    requires
        d < 10,
    ensures
        s@ == seq![digit_char(d as nat)],
{
    proof {
        reveal_strlit("0");
        reveal_strlit("1");
        reveal_strlit("2");
        reveal_strlit("3");
        reveal_strlit("4");
        reveal_strlit("5");
        reveal_strlit("6");
        reveal_strlit("7");
        reveal_strlit("8");
        reveal_strlit("9");
    }
    let s: &'static str = if d == 0 {
        "0"
    } else if d == 1 {
        "1"
    } else if d == 2 {
        "2"
    } else if d == 3 {
        "3"
    } else if d == 4 {
        "4"
    } else if d == 5 {
        "5"
    } else if d == 6 {
        "6"
    } else if d == 7 {
        "7"
    } else if d == 8 {
        "8"
    } else {
        "9"
    };
    proof {
        assert(s@ =~= seq![digit_char(d as nat)]);
    }
    s
}

/// Renders `n` in decimal, most significant digit first.
pub fn u64_to_decimal(n: u64) -> (s: String)
    ensures
        s@ == dec_digits(n as nat),
    decreases n,
{
    if n < 10 {
        String::from_str(digit_str(n))
    } else {
        let mut s = u64_to_decimal(n / 10);
        s.append(digit_str(n % 10));
        proof {
            assert(s@ =~= dec_digits(n as nat));
        }
        s
    }
}

/// Builds the `file://` URI for a source path.
pub fn file_uri(path: &str) -> (uri: String)
    ensures
        uri@ == file_uri_spec(path@),
{
    let mut uri = String::from_str("file://");
    uri.append(path);
    uri
}

/// Builds the trim/encode graph description for one export.
pub fn export_description(input: &str, output: &str, start_ns: u64, end_ns: u64) -> (desc: String)
    ensures
        desc@ == export_description_spec(input@, output@, start_ns, end_ns),
{
    let mut desc = String::from_str("filesrc location=");
    desc.append(input);
    desc.append(" ! decodebin name=dec ! queue ! videoconvert ! videotrim start=");
    let start_digits = u64_to_decimal(start_ns);
    desc.append(start_digits.as_str());
    desc.append(" stop=");
    let end_digits = u64_to_decimal(end_ns);
    desc.append(end_digits.as_str());
    desc.append(" ! queue ! x264enc ! mp4mux ! filesink location=");
    desc.append(output);
    proof {
        assert(desc@ =~= export_description_spec(input@, output@, start_ns, end_ns));
    }
    desc
}

/// Converts whole seconds to nanoseconds, refusing a count that does not fit
/// the framework's 64-bit clock.
pub fn seconds_to_nanos(seconds: u64) -> (r: Option<u64>)
    ensures
        r is Some <==> seconds * NANOS_PER_SECOND <= u64::MAX,
        r is Some ==> r->Some_0 == seconds * NANOS_PER_SECOND,
{
    seconds.checked_mul(NANOS_PER_SECOND)
}

} // verus!
