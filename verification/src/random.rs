//! Draws from the operating system's randomness: the chance that decides
//! whether a request is failed on purpose, and fresh identifiers.

use rand::Rng;
use vstd::prelude::*;

verus! {

/// Bits 12 to 15 of the time-high field and the top two bits of the
/// clock-sequence field: where an identifier carries its version and variant.
pub const ID_FORMAT_MASK: u128 = 0x0000_0000_0000_f000_c000_0000_0000_0000;

/// The format bits of a random (version 4) identifier of the RFC 4122 variant.
pub const ID_RANDOM_FORMAT: u128 = 0x0000_0000_0000_4000_8000_0000_0000_0000;

/// Whether `id`, read as the sixteen bytes of a UUID in network order, is a
/// random (version 4) identifier of the RFC 4122 variant.
pub open spec fn is_random_id(id: u128) -> bool {
    id & ID_FORMAT_MASK == ID_RANDOM_FORMAT
}

/// Draws a number below `bound`, every one equally likely.
///
/// Calls `rand::Rng::gen_range` on `rand::thread_rng()` with the range
/// `0..bound`. Trusted: the result lies in that range. Which number comes
/// is left open. `thread_rng` panics where the operating system gives it no
/// seed.
#[verifier::external_body]
pub(crate) fn draw_below(bound: u64) -> (r: u64)
    requires
        bound > 0,
    ensures
        r < bound,
{
    rand::thread_rng().gen_range(0..bound)
}

/// Makes a fresh identifier.
///
/// Calls `uuid::Uuid::new_v4`, then `Uuid::as_u128`. Trusted: the identifier
/// carries the version and variant bits of a random UUID. Its other 122 bits
/// are left open. `new_v4` panics where the operating system gives it no
/// random bytes.
#[verifier::external_body]
pub(crate) fn fresh_id() -> (r: u128)
    ensures
        is_random_id(r),
{
    uuid::Uuid::new_v4().as_u128()
}

} // verus!
