//! The serialization adapter: structured encoding for wrapped secrets.
//!
//! Encoding is modelled over [`Token`], a single unit of a structured wire
//! format, and [`Codec`], the interface a plaintext type implements to state
//! its own wire shape. On top of these the adapter offers three independent
//! operations:
//!
//! - [`Secret::serialize`] — the default path: always emits the fixed
//!   placeholder string token, never touching the plaintext;
//! - [`Secret::deserialize`] — the transparent path: accepts exactly the wire
//!   shape the plaintext's own decoder accepts, and surfaces its error
//!   unchanged;
//! - [`insecure_serialize`] — the opt-in disclosure path: emits the
//!   plaintext's own faithful encoding, and must be named explicitly by the
//!   caller; it is never reachable through the default interface.

use vstd::prelude::*;

use crate::wrapper::{spec_hidden, Secret};

verus! {

/// One serialized unit of a structured wire format: a string literal or an
/// unsigned integer literal in the output stream.
#[derive(Clone, PartialEq, Eq, Debug)]
pub enum Token {
    /// A string-typed token.
    Str(String),
    /// An unsigned 32-bit integer token.
    U32(u32),
}

/// A decode failure, surfaced unchanged from the plaintext type's own
/// decoder. The wrapper adds no decode-time validation of its own.
#[derive(Clone, Copy, PartialEq, Eq, Structural, Debug)]
pub enum DecodeError {
    /// The input token does not have the shape the decoder accepts.
    UnexpectedToken,
}

/// The wire behaviour of a plaintext type: how it encodes to a [`Token`] and
/// which tokens its decoder accepts.
pub trait Codec: Sized {
    /// The faithful encoding of this value.
    spec fn spec_encode(&self) -> Token;

    /// What decoding yields on each input token: the value a round trip
    /// recovers, or the error the decoder raises.
    spec fn spec_decode(t: Token) -> Result<Self, DecodeError>;

    /// Encodes this value faithfully.
    fn encode(&self) -> (r: Token)
        ensures
            r == self.spec_encode(),
    ;

    /// Decodes a value from `t`, failing exactly where the type's wire shape
    /// rejects `t`.
    fn decode(t: &Token) -> (r: Result<Self, DecodeError>)
        ensures
            r == Self::spec_decode(*t),
    ;
}

impl Codec for u32 {
    open spec fn spec_encode(&self) -> Token {
        Token::U32(*self)
    }

    open spec fn spec_decode(t: Token) -> Result<u32, DecodeError> {
        match t {
            Token::U32(v) => Ok(v),
            _ => Err(DecodeError::UnexpectedToken),
        }
    }

    fn encode(&self) -> (r: Token) {
        Token::U32(*self)
    }

    fn decode(t: &Token) -> (r: Result<u32, DecodeError>) {
        match t {
            Token::U32(v) => Ok(*v),
            _ => Err(DecodeError::UnexpectedToken),
        }
    }
}

impl Codec for String {
    open spec fn spec_encode(&self) -> Token {
        Token::Str(*self)
    }

    open spec fn spec_decode(t: Token) -> Result<String, DecodeError> {
        match t {
            Token::Str(s) => Ok(s),
            _ => Err(DecodeError::UnexpectedToken),
        }
    }

    fn encode(&self) -> (r: Token) {
        Token::Str(self.clone())
    }

    fn decode(t: &Token) -> (r: Result<String, DecodeError>) {
        match t {
            Token::Str(s) => Ok(s.clone()),
            _ => Err(DecodeError::UnexpectedToken),
        }
    }
}

impl<T: Codec> Secret<T> {
    /// The default, redacted encoding of a wrapped secret.
    ///
    /// The output is a single string-typed token holding the fixed
    /// placeholder — the same wire output as encoding the placeholder string
    /// itself — whatever the plaintext is; the plaintext is never touched.
    /// This is the path taken when no override names another.
    pub fn serialize(&self) -> (r: Token)
        ensures
            r matches Token::Str(s) && s@ == spec_hidden(),
    {
        Token::Str(String::from_str("<hidden>"))
    }

    /// Reconstructs a wrapper by decoding the plaintext from `t` exactly as
    /// the plaintext type itself would: no redaction, no extra wrapping in
    /// the wire shape, and on failure the plaintext's own decode error,
    /// unchanged.
    pub fn deserialize(t: &Token) -> (r: Result<Secret<T>, DecodeError>)
        ensures
            match T::spec_decode(*t) {
                Ok(v) => r matches Ok(s) && s.spec_inner() == v,
                Err(e) => r == Err::<Secret<T>, DecodeError>(e),
            },
    {
        match T::decode(t) {
            Ok(v) => Ok(Secret::from(v)),
            Err(e) => Err(e),
        }
    }
}

/// Default-serialize redaction: the token that [`Secret::serialize`] promises
/// — a string token carrying the placeholder characters — is exactly the
/// faithful encoding of the placeholder string itself. The default wire
/// output of any secret therefore equals the encoding of the literal string
/// `<hidden>`, whatever the secret holds.
pub proof fn lemma_default_serialize_is_placeholder_encoding(placeholder: String)
    requires
        placeholder@ == spec_hidden(),
    ensures
        placeholder.spec_encode() matches Token::Str(p) && p@ == spec_hidden(),
{
}

/// The explicit-disclosure encoding: the plaintext's own faithful, round-trip
/// wire representation, byte for byte what encoding the bare plaintext would
/// produce.
///
/// This function is opt-in by design. It is never invoked through the
/// wrapper's default interface; a caller must name it deliberately, for
/// example as a per-field override, to reveal the plaintext on the wire.
pub fn insecure_serialize<T: Codec>(x: &Secret<T>) -> (r: Token)
    ensures
        r == x.spec_inner().spec_encode(),
{
    x.expose().encode()
}

} // verus!
