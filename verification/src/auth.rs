//! Admission of a request by its API key.

use vstd::prelude::*;
use vstd::string::StringExecFns;

verus! {

/// Proof of admission: the request carried an accepted API key.
#[derive(Clone, Copy, Debug, PartialEq, Eq, Structural)]
pub struct Auth;

/// The status code that a request without an accepted key is answered with.
pub const UNAUTHORIZED: u16 = 401;

/// The name of the header that carries the API key, as characters.
pub open spec fn api_key_header_text() -> Seq<char> {
    "X-API-Key"@
}

/// What is left of `text` once the white space at its two ends is taken
/// away, as `str::trim` does it.
pub uninterp spec fn trimmed(text: Seq<char>) -> Seq<char>;

/// `presented` is, character for character, one of `tokens`.
pub open spec fn is_token(tokens: Seq<String>, presented: Seq<char>) -> bool {
    exists|i: int| 0 <= i < tokens.len() && (#[trigger] tokens[i])@ == presented
}

/// Whether a request with the key header `header` is admitted: the header
/// is there and, without the white space around it, is one of the tokens.
pub open spec fn admitted(tokens: Seq<String>, header: Option<Seq<char>>) -> bool {
    match header {
        Some(value) => is_token(tokens, trimmed(value)),
        None => false,
    }
}

/// `str::trim` of std: the slice of `text` without its leading and trailing
/// white space. The contract gives the result its name and claims nothing
/// more of it.
#[verifier::external_body]
fn trim(text: &str) -> (inner: &str)
    ensures
        inner@ == trimmed(text@),
{
    text.trim()
}

/// The name of the header that carries the API key.
pub fn api_key_header() -> (name: &'static str)
    ensures
        name@ == api_key_header_text(),
{
    "X-API-Key"
}

/// Whether `presented` is one of the accepted tokens, exactly as written.
pub fn token_accepted(tokens: &Vec<String>, presented: &str) -> (accepted: bool)
    ensures
        accepted == is_token(tokens@, presented@),
{
    let candidate = String::from_str(presented);
    let mut i: usize = 0;
    while i < tokens.len()
        invariant
            i <= tokens.len(),
            candidate@ == presented@,
            forall|j: int| 0 <= j < i ==> (#[trigger] tokens@[j])@ != presented@,
        decreases tokens.len() - i,
    {
        if tokens[i] == candidate {
            return true;
        }
        i += 1;
    }
    false
}

/// Admits a request by the value of its key header, if it has one that can
/// be read as text. White space around the key is not counted.
pub fn require_auth(tokens: &Vec<String>, header: Option<&str>) -> (admission: Result<Auth, u16>)
    ensures
        admission is Ok <==> admitted(
            tokens@,
            match header {
                Some(value) => Some(value@),
                None => None,
            },
        ),
        admission is Err ==> admission == Err::<Auth, u16>(UNAUTHORIZED),
{
    match header {
        Some(value) => {
            if token_accepted(tokens, trim(value)) {
                Ok(Auth)
            } else {
                Err(UNAUTHORIZED)
            }
        },
        None => Err(UNAUTHORIZED),
    }
}

} // verus!
