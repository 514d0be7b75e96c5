//! Unique names for temporary PNG files made from clipboard images.
use vstd::prelude::*;
use crate::naming::filename::{utc_format, STAMP_MILLIS_PATTERN, MAX_UTC_SECS};
use crate::text::{decimal, push_char, push_digits, push_str};

verus! {

/// A temporary PNG written from a clipboard image (deleted after a successful upload, kept
/// after a failed one).
#[derive(Debug, Clone, PartialEq, Eq)]
pub struct TempImage {
    pub path: String,
}

/// `clipboard-<stamp>-<number>.png`.
pub open spec fn temp_image_name_spec(stamp: Seq<char>, n: nat) -> Seq<char> {
    "clipboard-"@ + stamp + seq!['-'] + decimal(n) + ".png"@
}

/// A random 32-bit number.
///
/// Trusted: `rand::random::<u32>()`; any value may come back.
#[verifier::external_body]
fn random_u32() -> u32 {
    rand::random::<u32>()
}

/// `clipboard-<stamp>-<n>.png`.
pub fn temp_image_name(stamp: &str, n: u32) -> (r: String)
    ensures
        r@ == temp_image_name_spec(stamp@, n as nat),
{
    let mut out = String::new();
    push_str(&mut out, "clipboard-");
    push_str(&mut out, stamp);
    push_char(&mut out, '-');
    push_digits(&mut out, n as u64, 10);
    push_str(&mut out, ".png");
    assert(out@ =~= temp_image_name_spec(stamp@, n as nat));
    out
}

/// A file name for a temporary clipboard image: the current UTC time to the millisecond and a
/// random number; nothing when the clock reads a time before 1970 or past `MAX_UTC_SECS`.
pub fn temp_image_file_name() -> (r: Option<String>)
    ensures
        r is Some ==> exists|secs: int, nanos: int, n: u32|
            0 <= secs <= MAX_UTC_SECS && 0 <= nanos < 1_000_000_000 && #[trigger] r->Some_0@
                == temp_image_name_spec(utc_format(secs, nanos, STAMP_MILLIS_PATTERN@), n as nat),
{
    let (secs, nanos) = match crate::naming::filename::clock_now() {
        Some(t) => t,
        None => return None,
    };
    let stamp = crate::naming::filename::format_time(secs, nanos, STAMP_MILLIS_PATTERN);
    let n = random_u32();
    let out = temp_image_name(stamp.as_str(), n);
    Some(out)
}

} // verus!
