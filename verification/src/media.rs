//! Media validation: a request is let through only if the essence of its
//! declared content type is `audio/basic`, compared without regard to ASCII
//! case.

use vstd::prelude::*;
use vstd::string::*;

verus! {

/// The essence of the one supported media type: raw mu-law audio.
pub const SUPPORTED_ESSENCE: &'static str = "audio/basic";

/// The codec of the supported media type.
pub const SUPPORTED_CODEC: &'static str = "pcm_ulaw";

/// The characters of [`SUPPORTED_ESSENCE`].
pub open spec fn supported_essence() -> Seq<char> {
    seq!['a', 'u', 'd', 'i', 'o', '/', 'b', 'a', 's', 'i', 'c']
}

/// The code of `c` with the upper-case ASCII letters mapped to lower case.
pub open spec fn ascii_fold(c: char) -> int {
    if 'A' <= c && c <= 'Z' {
        c as int + 32
    } else {
        c as int
    }
}

/// Equality of two strings up to the case of their ASCII letters.
pub open spec fn eq_ignoring_ascii_case(a: Seq<char>, b: Seq<char>) -> bool {
    &&& a.len() == b.len()
    &&& forall|i: int| 0 <= i < a.len() ==> ascii_fold(#[trigger] a[i]) == ascii_fold(b[i])
}

/// Whether an essence names the supported media type.
pub open spec fn spec_is_supported(essence: Seq<char>) -> bool {
    eq_ignoring_ascii_case(essence, supported_essence())
}

/// What the validator says of a request.
#[derive(Clone, Copy, Debug, PartialEq, Eq, Structural)]
pub enum MediaVerdict {
    /// The payload may be relayed.
    Accepted,
    /// The payload must not be touched.
    Rejected,
}

/// The essence that the `mime` crate's parser finds in a content type, or
/// `None` where the parser refuses it.
pub uninterp spec fn mime_essence(declared: Seq<char>) -> Option<Seq<char>>;

/// The verdict on a declared content type; `None` stands for a request that
/// declares none.
pub open spec fn spec_validate(declared: Option<Seq<char>>) -> MediaVerdict {
    match declared {
        Some(d) => match mime_essence(d) {
            Some(e) => spec_verdict(Some(e)),
            None => spec_verdict(None),
        },
        None => spec_verdict(None),
    }
}

/// The verdict on an essence; `None` stands for a content type that is
/// absent or malformed.
pub open spec fn spec_verdict(essence: Option<Seq<char>>) -> MediaVerdict {
    match essence {
        Some(e) => if spec_is_supported(e) {
            MediaVerdict::Accepted
        } else {
            MediaVerdict::Rejected
        },
        None => MediaVerdict::Rejected,
    }
}

fn fold_code(c: char) -> (r: u32)
    ensures
        r as int == ascii_fold(c),
{
    let code: u32 = c as u32;
    if 'A' <= c && c <= 'Z' {
        code + 32
    } else {
        code
    }
}

/// Whether `essence` is `audio/basic` in any ASCII case.
pub fn is_supported(essence: &str) -> (r: bool)
    ensures
        r == spec_is_supported(essence@),
{
    proof {
        reveal_strlit("audio/basic");
    }
    let wanted: &str = SUPPORTED_ESSENCE;
    assert(wanted@ =~= supported_essence());
    let n: usize = wanted.unicode_len();
    if essence.unicode_len() != n {
        return false;
    }
    let mut i: usize = 0;
    while i < n
        invariant
            i <= n,
            n == wanted@.len(),
            n == essence@.len(),
            wanted@ == supported_essence(),
            forall|j: int| 0 <= j < i ==> ascii_fold(#[trigger] essence@[j]) == ascii_fold(wanted@[j]),
        decreases n - i,
    {
        if fold_code(essence.get_char(i)) != fold_code(wanted.get_char(i)) {
            return false;
        }
        i += 1;
    }
    true
}

/// Calls the `mime` crate's parser (`Mime::from_str`) on a content type and
/// takes the parsed value's `essence_str()`. The contract only names the
/// result: `None` where the parser fails, else the essence it found.
#[verifier::external_body]
fn parse_essence(declared: &str) -> (r: Option<String>)
    ensures
        r.is_some() == mime_essence(declared@).is_some(),
        r matches Some(e) ==> e@ == mime_essence(declared@).unwrap(),
{
    match declared.parse::<mime::Mime>() {
        Ok(parsed) => Some(parsed.essence_str().to_string()),
        Err(_) => None,
    }
}

/// The verdict on the essence of a content type, `None` standing for a
/// content type that is absent or malformed.
pub fn verdict(essence: Option<&str>) -> (r: MediaVerdict)
    ensures
        r == spec_verdict(
            match essence {
                Some(e) => Some(e@),
                None => None,
            },
        ),
{
    match essence {
        Some(e) => if is_supported(e) {
            MediaVerdict::Accepted
        } else {
            MediaVerdict::Rejected
        },
        None => MediaVerdict::Rejected,
    }
}

/// Validates the content type that a request declares, `None` standing for a
/// request without one. Accepts exactly the content types that parse and
/// whose essence is `audio/basic` in any ASCII case, whatever parameters
/// follow it.
pub fn validate(declared: Option<&str>) -> (r: MediaVerdict)
    ensures
        r == spec_validate(
            match declared {
                Some(d) => Some(d@),
                None => None,
            },
        ),
{
    match declared {
        Some(d) => match parse_essence(d) {
            Some(e) => verdict(Some(e.as_str())),
            None => verdict(None),
        },
        None => verdict(None),
    }
}

} // verus!
