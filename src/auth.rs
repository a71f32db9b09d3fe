use vstd::prelude::*;
use vstd::string::*;
use vstd::utf8::encode_utf8;

use base64::Engine;

use crate::error::GatewayError;

verus! {

/// What base64's standard engine (padded, `+` and `/`) produces for `b`.
pub uninterp spec fn base64_standard(b: Seq<u8>) -> Seq<char>;

/// What `str::trim` leaves of `s`.
pub uninterp spec fn trimmed(s: Seq<char>) -> Seq<char>;

/// Relies on `base64::Engine::encode` of the `STANDARD` engine: its result is a
/// function of the input bytes alone. It panics only when the encoded length
/// overflows `usize`, which the bound on the input rules out.
#[verifier::external_body]
fn encode_base64(b: &[u8]) -> (r: String)
    requires
        b@.len() <= usize::MAX / 2,
    ensures
        r@ == base64_standard(b@),
{
    base64::engine::general_purpose::STANDARD.encode(b)
}

/// Relies on `str::trim`: the result depends on the characters alone.
#[verifier::external_body]
fn trim(s: &str) -> (r: &str)
    ensures
        r@ == trimmed(s@),
{
    s.trim()
}

/// The accepted authorization scheme, with its separating space.
pub open spec fn scheme() -> Seq<char> {
    seq!['B', 'a', 's', 'i', 'c', ' ']
}

pub open spec fn has_prefix(s: Seq<char>, p: Seq<char>) -> bool {
    p.len() <= s.len() && s.subrange(0, p.len() as int) == p
}

/// `s` with every leading repetition of the scheme removed.
pub open spec fn strip_scheme(s: Seq<char>) -> Seq<char>
    decreases s.len(),
{
    if has_prefix(s, scheme()) {
        strip_scheme(s.subrange(scheme().len() as int, s.len() as int))
    } else {
        s
    }
}

/// The credential that a client must present for `secret`: base64 of `:`
/// followed by the secret's UTF-8 bytes.
pub open spec fn expected_credential(secret: Seq<char>) -> Seq<char> {
    base64_standard(seq![58u8] + encode_utf8(secret))
}

/// The verdict on a request's credentials: `None` admits the request.
pub open spec fn gate_verdict(secret: Option<Seq<char>>, header: Option<Seq<char>>) -> Option<
    GatewayError,
> {
    match secret {
        None => Some(GatewayError::MissingSecret),
        Some(t) => match header {
            None => Some(GatewayError::MissingCredentials),
            Some(h) => if !has_prefix(h, scheme()) {
                Some(GatewayError::WrongScheme)
            } else if trimmed(strip_scheme(h)) == expected_credential(t) {
                None
            } else {
                Some(GatewayError::BadCredentials)
            },
        },
    }
}

pub open spec fn text_of(s: Option<&str>) -> Option<Seq<char>> {
    match s {
        Some(t) => Some(t@),
        None => None,
    }
}

/// Whether `s` begins with `p`.
pub fn starts_with(s: &str, p: &str) -> (r: bool)
    ensures
        r == has_prefix(s@, p@),
{
    let n = p.unicode_len();
    if n > s.unicode_len() {
        return false;
    }
    let mut i: usize = 0;
    while i < n
        invariant
            n == p@.len(),
            n <= s@.len(),
            i <= n,
            forall|k: int| 0 <= k < i ==> s@[k] == p@[k],
        decreases n - i,
    {
        if s.get_char(i) != p.get_char(i) {
            return false;
        }
        i = i + 1;
    }
    assert(s@.subrange(0, n as int) =~= p@);
    true
}

/// Removes every leading repetition of the scheme from `s`.
pub fn strip_scheme_prefix(s: &str) -> (r: &str)
    ensures
        r@ == strip_scheme(s@),
{
    let scheme_text = "Basic ";
    proof {
        reveal_strlit("Basic ");
    }
    assert(scheme_text@ =~= scheme());
    let mut rest = s;
    while starts_with(rest, scheme_text)
        invariant
            scheme_text@ == scheme(),
            strip_scheme(rest@) == strip_scheme(s@),
        decreases rest@.len(),
    {
        let len = rest.unicode_len();
        rest = rest.substring_char(6, len);
    }
    rest
}

/// The UTF-8 bytes of `:` followed by `secret`.
fn credential_input(secret: &str) -> (r: Vec<u8>)
    ensures
        r@ == seq![58u8] + encode_utf8(secret@),
{
    let mut v: Vec<u8> = Vec::new();
    v.push(58u8);
    v.extend_from_slice(secret.as_bytes());
    assert(v@ =~= seq![58u8] + encode_utf8(secret@));
    v
}

/// Admits a request or rejects it. `secret` is the configured shared secret,
/// `header` the request's authorization header if it has a readable one.
pub fn authorize(secret: Option<&str>, header: Option<&str>) -> (r: Result<(), GatewayError>)
    requires
        secret matches Some(t) ==> encode_utf8(t@).len() < usize::MAX / 2,
    ensures
        r is Ok <==> gate_verdict(text_of(secret), text_of(header)) is None,
        r matches Err(e) ==> gate_verdict(text_of(secret), text_of(header))
            == Some(e),
{
    let token = match secret {
        None => return Err(GatewayError::MissingSecret),
        Some(t) => t,
    };
    let given = match header {
        None => return Err(GatewayError::MissingCredentials),
        Some(h) => h,
    };
    let scheme_text = "Basic ";
    proof {
        reveal_strlit("Basic ");
    }
    assert(scheme_text@ =~= scheme());
    if !starts_with(given, scheme_text) {
        return Err(GatewayError::WrongScheme);
    }
    let input = credential_input(token);
    let expected = encode_base64(input.as_slice());
    let provided = trim(strip_scheme_prefix(given)).to_owned();
    if provided == expected {
        Ok(())
    } else {
        Err(GatewayError::BadCredentials)
    }
}

} // verus!
