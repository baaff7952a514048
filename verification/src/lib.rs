//! A bridge library for a WebAssembly host: a 32-bit addition entry point
//! and the fixed message that the initialization entry point hands to the
//! host's logging hook. The host call itself is foreign code and lives
//! outside the library; the library provides the bytes and the length,
//! both pinned down exactly by their contracts.

use vstd::prelude::*;

verus! {

/// The sum of `a` and `b`, reduced into `i32` range by two's-complement
/// wraparound: the mathematical sum itself when it fits, otherwise the
/// sum shifted by 2^32 back into range.
pub open spec fn wrapped_sum(a: i32, b: i32) -> i32 {
    if a + b > i32::MAX {
        (a + b - 0x1_0000_0000) as i32
    } else if a + b < i32::MIN {
        (a + b + 0x1_0000_0000) as i32
    } else {
        (a + b) as i32
    }
}

/// Adds two 32-bit signed integers. Overflow wraps around (two's
/// complement): the result is always `wrapped_sum(a, b)`, and equals the
/// exact mathematical sum whenever that sum fits in `i32`.
pub fn add(a: i32, b: i32) -> (r: i32)
    ensures
        r == wrapped_sum(a, b),
        i32::MIN <= a + b <= i32::MAX ==> r == a + b,
{
    a.wrapping_add(b)
}

/// Addition is commutative: swapping the operands never changes the
/// result, wraparound included.
pub proof fn lemma_add_commutative(a: i32, b: i32)
    ensures
        wrapped_sum(a, b) == wrapped_sum(b, a),
{
}

/// Zero is the identity of addition: adding zero returns the other
/// operand unchanged.
pub proof fn lemma_add_identity(x: i32)
    ensures
        wrapped_sum(0, x) == x,
        wrapped_sum(x, 0) == x,
{
}

/// The fixed message announced on initialization: the ASCII text
/// "Rust Wasm module initialized." followed by a single null terminator,
/// 30 bytes in all.
pub open spec fn init_message_spec() -> Seq<u8> {
    seq![
        82u8, 117u8, 115u8, 116u8, 32u8, // "Rust "
        87u8, 97u8, 115u8, 109u8, 32u8, // "Wasm "
        109u8, 111u8, 100u8, 117u8, 108u8, 101u8, 32u8, // "module "
        105u8, 110u8, 105u8, 116u8, 105u8, 97u8, 108u8, 105u8, 122u8, 101u8, 100u8, // "initialized"
        46u8, 0u8, // "." and the null terminator
    ]
}

/// Builds the initialization message that the host's logging hook is to
/// observe: exactly the bytes of `init_message_spec`.
pub fn init_message() -> (msg: Vec<u8>)
    ensures
        msg@ == init_message_spec(),
{
    let mut msg: Vec<u8> = Vec::new();
    msg.push(82u8); // 'R'
    msg.push(117u8); // 'u'
    msg.push(115u8); // 's'
    msg.push(116u8); // 't'
    msg.push(32u8); // ' '
    msg.push(87u8); // 'W'
    msg.push(97u8); // 'a'
    msg.push(115u8); // 's'
    msg.push(109u8); // 'm'
    msg.push(32u8); // ' '
    msg.push(109u8); // 'm'
    msg.push(111u8); // 'o'
    msg.push(100u8); // 'd'
    msg.push(117u8); // 'u'
    msg.push(108u8); // 'l'
    msg.push(101u8); // 'e'
    msg.push(32u8); // ' '
    msg.push(105u8); // 'i'
    msg.push(110u8); // 'n'
    msg.push(105u8); // 'i'
    msg.push(116u8); // 't'
    msg.push(105u8); // 'i'
    msg.push(97u8); // 'a'
    msg.push(108u8); // 'l'
    msg.push(105u8); // 'i'
    msg.push(122u8); // 'z'
    msg.push(101u8); // 'e'
    msg.push(100u8); // 'd'
    msg.push(46u8); // '.'
    msg.push(0u8); // null terminator
    proof {
        assert(msg@ =~= init_message_spec());
    }
    msg
}

/// The explicit length that accompanies the message across the host
/// boundary. It is the message's true byte count, terminator included:
/// the byte view handed to the host covers the whole message, never a
/// shorter prefix.
pub fn init_message_len() -> (n: usize)
    ensures
        n == init_message_spec().len(),
{
    30
}

} // verus!
