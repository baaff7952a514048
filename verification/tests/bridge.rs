use wasm_bridge::init_message;
use wasm_bridge::init_message_len;

#[test]
fn add_small_sums() {
    assert_eq!(wasm_bridge::add(2, 3), 5);
    assert_eq!(wasm_bridge::add(-5, 5), 0);
}

#[test]
fn add_wraps_on_overflow() {
    assert_eq!(wasm_bridge::add(i32::MAX, 1), i32::MIN);
    assert_eq!(wasm_bridge::add(i32::MIN, -1), i32::MAX);
}

#[test]
fn add_is_commutative_on_samples() {
    assert_eq!(wasm_bridge::add(7, 9), wasm_bridge::add(9, 7));
    assert_eq!(
        wasm_bridge::add(i32::MAX, 123),
        wasm_bridge::add(123, i32::MAX)
    );
}

#[test]
fn add_zero_is_identity_on_samples() {
    assert_eq!(wasm_bridge::add(0, 42), 42);
    assert_eq!(wasm_bridge::add(0, i32::MIN), i32::MIN);
    assert_eq!(wasm_bridge::add(-17, 0), -17);
}

#[test]
fn init_message_is_the_announced_text_with_terminator() {
    let msg = init_message();
    assert_eq!(msg.as_slice(), b"Rust Wasm module initialized.\0");
}

#[test]
fn init_message_len_is_the_true_byte_count() {
    let msg = init_message();
    let len = init_message_len();
    assert_eq!(len, msg.len());
    assert_eq!(len, 30);
    assert_ne!(len, 27);
}
