//! Identifiers of books, users and checkouts, each a UUID.
use crate::error::{AppError, AppResult};
use uuid::Uuid;
use vstd::prelude::*;

verus! {

#[verifier::external_type_specification]
#[verifier::external_body]
pub struct ExUuid(Uuid);

#[verifier::external_type_specification]
#[verifier::external_body]
pub struct ExUuidError(uuid::Error);

/// What `uuid::Uuid::parse_str` returns for a text: the UUID it spells, or the
/// error of a text that spells none. Which texts it accepts (hyphenated, simple,
/// braced and URN forms) is the outside crate's and is left unstated; it
/// depends on the text alone.
pub uninterp spec fn uuid_parsed(text: Seq<char>) -> Result<Uuid, uuid::Error>;

/// Reads a UUID from its text with `uuid::Uuid::parse_str`. Claimed: its result
/// is a function of the text alone.
#[verifier::external_body]
fn parse_uuid(text: &str) -> (r: Result<Uuid, uuid::Error>)
    ensures
        r == uuid_parsed(text@),
{
    Uuid::parse_str(text)
}

/// Whether the 128-bit value of a UUID (most significant byte first) marks a
/// random UUID of RFC 9562: version field (bits 76 to 79) 4, variant field
/// (bits 62 and 63) binary 10.
pub open spec fn is_random_uuid_value(v: u128) -> bool {
    &&& (v >> 76u128) & 0xfu128 == 4u128
    &&& (v >> 62u128) & 0x3u128 == 2u128
}

/// The UUID whose 128-bit value, most significant byte first, is `v`: what
/// `uuid::Uuid::from_u128` returns, a function of `v` alone.
pub uninterp spec fn uuid_from_u128(v: u128) -> Uuid;

/// Draws a fresh random UUID with `uuid::Uuid::new_v4` and gives its 128-bit
/// value (`as_u128`). Claimed: the value carries version 4 and the RFC variant,
/// which `new_v4` sets by masking random bits with
/// `0xFFFFFFFFFFFF4FFFBFFFFFFFFFFFFFFF` and or-ing `0x40008000000000000000`.
/// The other bits are random and nothing is claimed of them.
#[verifier::external_body]
fn random_uuid_value() -> (v: u128)
    ensures
        is_random_uuid_value(v),
{
    Uuid::new_v4().as_u128()
}

/// The UUID of a 128-bit value, with `uuid::Uuid::from_u128`.
#[verifier::external_body]
fn uuid_of(v: u128) -> (u: Uuid)
    ensures
        u == uuid_from_u128(v),
{
    Uuid::from_u128(v)
}

/// Identifier of a book.
#[derive(Debug, Clone, Copy)]
pub struct BookId(pub Uuid);

/// Identifier of a user.
#[derive(Debug, Clone, Copy)]
pub struct UserId(pub Uuid);

/// Identifier of a checkout (one lending of a book).
#[derive(Debug, Clone, Copy)]
pub struct CheckoutId(pub Uuid);

impl UserId {
    /// A fresh, randomly drawn user identifier: a version 4 (random) UUID of
    /// the RFC variant.
    pub fn new() -> (id: UserId)
        ensures
            exists|v: u128| is_random_uuid_value(v) && id.0 == #[trigger] uuid_from_u128(v),
    {
        let v = random_uuid_value();
        let id = UserId(uuid_of(v));
        assert(is_random_uuid_value(v) && id.0 == uuid_from_u128(v));
        id
    }

    /// The user identifier that a parse of its text gave; a text that spells no
    /// UUID is a conversion error carrying the parse error's text.
    pub fn from_parsed(parsed: Result<Uuid, uuid::Error>) -> (r: AppResult<UserId>)
        ensures
            match parsed {
                Ok(u) => r == Ok::<UserId, AppError>(UserId(u)),
                Err(e) => r matches Err(AppError::ConversionEntityError(m))
                    && vstd::string::to_string_from_display_ensures::<uuid::Error>(&e, m),
            },
    {
        match parsed {
            Ok(u) => Ok(UserId(u)),
            Err(e) => Err(AppError::ConversionEntityError(e.to_string())),
        }
    }

    /// Reads a user identifier from the text it is stored as.
    pub fn parse(text: &str) -> (r: AppResult<UserId>)
        ensures
            match uuid_parsed(text@) {
                Ok(u) => r == Ok::<UserId, AppError>(UserId(u)),
                Err(e) => r matches Err(AppError::ConversionEntityError(m))
                    && vstd::string::to_string_from_display_ensures::<uuid::Error>(&e, m),
            },
    {
        Self::from_parsed(parse_uuid(text))
    }
}

} // verus!
