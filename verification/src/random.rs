//! The chain's randomness, as far as the game needs it.

use vstd::prelude::*;

verus! {

/// The error type of `gstd`'s system calls, carried through unread.
#[verifier::external_type_specification]
#[verifier::external_body]
pub struct ExCoreError(gstd::errors::CoreError);

/// The chain could not supply a random seed.
#[derive(Clone, Copy, Debug, PartialEq, Eq, Structural)]
pub struct RandomnessUnavailable;

/// Identifier of the message being processed, as raw bytes.
///
/// Calls `gstd::msg::id`, which asks the host of the running program. The
/// identifier differs from message to message, so nothing is claimed of it.
/// Only a deployed program has a host to ask: anywhere else the call aborts.
#[verifier::external_body]
fn current_message_id() -> (id: [u8; 32]) {
    gstd::msg::id().into_bytes()
}

/// A random seed for `subject`, and the number of the block that determines
/// it.
///
/// Calls `gstd::exec::random`, which asks the host of the running program.
/// The seed is the chain's to choose, so nothing is claimed of it, nor that
/// the call succeeds. Only a deployed program has a host to ask: anywhere
/// else the call aborts.
#[verifier::external_body]
fn random_seed(subject: [u8; 32]) -> (r: Result<([u8; 32], u32), gstd::errors::CoreError>) {
    gstd::exec::random(subject)
}

/// The number that four bytes spell, least significant byte first.
pub open spec fn le_u32(b0: u8, b1: u8, b2: u8, b3: u8) -> int {
    b0 + 0x100 * b1 + 0x1_0000 * b2 + 0x100_0000 * b3
}

/// Reads the first four bytes of a seed as a little-endian number.
pub fn seed_to_u32(seed: &[u8; 32]) -> (n: u32)
    ensures
        n == le_u32(seed[0], seed[1], seed[2], seed[3]),
{
    let b0: u32 = seed[0] as u32;
    let b1: u32 = seed[1] as u32;
    let b2: u32 = seed[2] as u32;
    let b3: u32 = seed[3] as u32;
    b0 + 0x100 * b1 + 0x1_0000 * b2 + 0x100_0000 * b3
}

/// Draws a random number from the chain, salted with the identifier of the
/// current message.
///
/// Any number may come back, or none: callers are verified for every outcome.
pub(crate) fn get_random_u32() -> (r: Result<u32, RandomnessUnavailable>) {
    let salt = current_message_id();
    match random_seed(salt) {
        Ok((hash, _block)) => Ok(seed_to_u32(&hash)),
        Err(_) => Err(RandomnessUnavailable),
    }
}

} // verus!
