use vblock::encode_token;
use vblock::token_attempt;
use vblock::token_is_target;
use vblock::token_op;
use vblock::token_tag;
use vblock::TOKEN_TARGET_BIT;

#[test]
fn round_trip() {
    let t = encode_token(513, 2, 3);
    assert_eq!(token_tag(t), 513);
    assert_eq!(token_op(t), 2);
    assert_eq!(token_attempt(t), 3);
    assert!(token_is_target(t));
}

#[test]
fn round_trip_extremes() {
    let t = encode_token(u16::MAX, 0xff, 0xffff);
    assert_eq!(token_tag(t), u16::MAX);
    assert_eq!(token_op(t), 0xff);
    assert_eq!(token_attempt(t), 0xffff);
    assert!(token_is_target(t));

    let z = encode_token(0, 0, 0);
    assert_eq!(token_tag(z), 0);
    assert_eq!(token_op(z), 0);
    assert_eq!(token_attempt(z), 0);
    assert!(token_is_target(z));
}

#[test]
fn exact_layout() {
    // tag in the low 16 bits, opcode above it, retry marker above that,
    // target bit at the top.
    let t = encode_token(0x1234, 0x01, 0x0004);
    assert_eq!(t, 0x1234 | (0x01 << 16) | (0x04 << 24) | TOKEN_TARGET_BIT);
}

#[test]
fn attempts_distinguish_tokens() {
    let a = encode_token(9, 1, 1);
    let b = encode_token(9, 1, 2);
    assert_ne!(a, b);
    assert_eq!(token_tag(a), token_tag(b));
    assert_eq!(token_op(a), token_op(b));
}
