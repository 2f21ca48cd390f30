use vstd::prelude::*;

verus! {

/// Bit marking a correlation token as belonging to a target I/O operation,
/// distinguishing ring completions of target I/O from those of the host
/// framework's own commands.
pub const TOKEN_TARGET_BIT: u64 = 1u64 << 63;

/// A correlation token packs the request tag, the operation code and the
/// retry marker (the attempt number) into one opaque scalar, so that an
/// asynchronous completion can be matched back to the task that issued it.
pub open spec fn spec_encode_token(tag: u16, op: u32, attempt: u32) -> u64 {
    (tag as u64) | ((op as u64) << 16) | ((attempt as u64) << 24) | TOKEN_TARGET_BIT
}

pub open spec fn spec_token_tag(token: u64) -> u16 {
    (token & 0xffff) as u16
}

pub open spec fn spec_token_op(token: u64) -> u32 {
    ((token >> 16) & 0xff) as u32
}

pub open spec fn spec_token_attempt(token: u64) -> u32 {
    ((token >> 24) & 0xffff) as u32
}

pub open spec fn spec_token_is_target(token: u64) -> bool {
    token & TOKEN_TARGET_BIT != 0
}

/// Pack a tag, an operation code and a retry marker into a correlation
/// token. A fresh token is built for every submission attempt.
pub fn encode_token(tag: u16, op: u32, attempt: u32) -> (r: u64)
    requires
        op <= 0xff,
        attempt <= 0xffff,
    ensures
        r == spec_encode_token(tag, op, attempt),
{
    (tag as u64) | ((op as u64) << 16) | ((attempt as u64) << 24) | TOKEN_TARGET_BIT
}

/// Extract the tag from a correlation token.
pub fn token_tag(token: u64) -> (r: u16)
    ensures
        r == spec_token_tag(token),
{
    (token & 0xffff) as u16
}

/// Extract the operation code from a correlation token.
pub fn token_op(token: u64) -> (r: u32)
    ensures
        r == spec_token_op(token),
{
    ((token >> 16) & 0xff) as u32
}

/// Extract the retry marker from a correlation token.
pub fn token_attempt(token: u64) -> (r: u32)
    ensures
        r == spec_token_attempt(token),
{
    ((token >> 24) & 0xffff) as u32
}

/// Whether a correlation token belongs to a target I/O operation.
pub fn token_is_target(token: u64) -> (r: bool)
    ensures
        r == spec_token_is_target(token),
{
    token & TOKEN_TARGET_BIT != 0
}

/// Law: decoding inverts encoding. For every tag, every operation code of at
/// most one byte and every retry marker of at most two bytes, the three
/// fields and the target mark come back out of the token unchanged.
pub proof fn lemma_token_round_trip(tag: u16, op: u32, attempt: u32)
    requires
        op <= 0xff,
        attempt <= 0xffff,
    ensures
        spec_token_tag(spec_encode_token(tag, op, attempt)) == tag,
        spec_token_op(spec_encode_token(tag, op, attempt)) == op,
        spec_token_attempt(spec_encode_token(tag, op, attempt)) == attempt,
        spec_token_is_target(spec_encode_token(tag, op, attempt)),
{
    let t = spec_encode_token(tag, op, attempt);
    assert((((tag as u64) | ((op as u64) << 16) | ((attempt as u64) << 24) | (1u64 << 63))
        & 0xffff) as u16 == tag) by (bit_vector)
        requires
            op <= 0xff,
            attempt <= 0xffff,
    ;
    assert(((((tag as u64) | ((op as u64) << 16) | ((attempt as u64) << 24) | (1u64 << 63))
        >> 16) & 0xff) as u32 == op) by (bit_vector)
        requires
            op <= 0xff,
            attempt <= 0xffff,
    ;
    assert(((((tag as u64) | ((op as u64) << 16) | ((attempt as u64) << 24) | (1u64 << 63))
        >> 24) & 0xffff) as u32 == attempt) by (bit_vector)
        requires
            op <= 0xff,
            attempt <= 0xffff,
    ;
    assert((((tag as u64) | ((op as u64) << 16) | ((attempt as u64) << 24) | (1u64 << 63)) & (
    1u64 << 63)) != 0) by (bit_vector);
}

} // verus!
