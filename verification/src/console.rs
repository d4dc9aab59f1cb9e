//! The console binding: five operations, one per native console primitive.
//!
//! Each operation takes a text message and answers with the call that the
//! host is to receive: the primitive and the message as a null-terminated
//! byte string. On a host without a console every operation fails instead.
//! Nothing here touches the host; the caller performs the call.

use vstd::prelude::*;
use vstd::slice::slice_to_vec;
use vstd::utf8::{
    char_is_scalar, char_u32_cast, encode_scalar, encode_utf8, has_width_1_encoding, is_scalar,
    last_continuation_byte, leading_byte_width_1, leading_byte_width_2, leading_byte_width_3,
    leading_byte_width_4, second_last_continuation_byte, third_last_continuation_byte,
};

verus! {

/// The native output primitives of the host's console.
#[derive(Clone, Copy, Debug, PartialEq, Eq, Structural, Hash)]
pub enum Primitive {
    Debug,
    Log,
    Info,
    Warn,
    Error,
}

/// Whether the host that runs the process offers a console.
#[derive(Clone, Copy, Debug, PartialEq, Eq, Structural, Hash)]
pub enum Host {
    WithConsole,
    WithoutConsole,
}

/// The failure of a console operation on a host without a console. It names
/// the primitive that was asked for.
#[derive(Clone, Copy, Debug, PartialEq, Eq, Structural, Hash)]
pub struct UnsupportedPlatform {
    pub primitive: Primitive,
}

/// One call into the host's console: the primitive, and the message as the
/// bytes that the primitive reads up to the terminating zero.
#[derive(Debug, PartialEq, Eq)]
pub struct HostCall {
    pub primitive: Primitive,
    pub text: Vec<u8>,
}

/// A message can be handed to the host when its UTF-8 encoding holds no zero
/// byte, so that the terminator is the first zero the host meets.
pub open spec fn representable(msg: Seq<char>) -> bool {
    !encode_utf8(msg).contains(0u8)
}

/// The bytes handed to the host for `msg`: its UTF-8 encoding and one
/// terminating zero.
pub open spec fn c_string(msg: Seq<char>) -> Seq<u8> {
    encode_utf8(msg).push(0u8)
}

impl HostCall {
    /// The call goes to `primitive` and carries exactly `msg`.
    pub open spec fn carries(&self, primitive: Primitive, msg: Seq<char>) -> bool {
        self.primitive == primitive && self.text@ == c_string(msg)
    }
}

/// What a console operation for `primitive` answers on `host` when given
/// `msg`: the call that carries the message, or the platform failure.
pub open spec fn forwarded(
    host: Host,
    primitive: Primitive,
    msg: Seq<char>,
    outcome: Result<HostCall, UnsupportedPlatform>,
) -> bool {
    match host {
        Host::WithConsole => outcome matches Ok(call) && call.carries(primitive, msg),
        Host::WithoutConsole => outcome matches Err(e) && e.primitive == primitive,
    }
}

/// Decides whether `msg` can be handed to the host.
pub fn is_representable(msg: &str) -> (ok: bool)
    ensures
        ok == representable(msg@),
{
    let bytes = msg.as_bytes();
    let mut i: usize = 0;
    while i < bytes.len()
        invariant
            i <= bytes@.len(),
            bytes@ == encode_utf8(msg@),
            forall|j: int| 0 <= j < i ==> bytes@[j] != 0u8,
        decreases bytes@.len() - i,
    {
        if bytes[i] == 0 {
            return false;
        }
        i += 1;
    }
    true
}

/// Encodes `msg` as the bytes the host reads.
pub fn encode(msg: &str) -> (text: Vec<u8>)
    requires
        representable(msg@),
    ensures
        text@ == c_string(msg@),
{
    let mut text = slice_to_vec(msg.as_bytes());
    text.push(0);
    text
}

/// The operation behind the five: forwards `msg` to `primitive` where the
/// host has a console, and fails where it has none.
pub fn forward(host: Host, primitive: Primitive, msg: &str) -> (outcome: Result<
    HostCall,
    UnsupportedPlatform,
>)
    requires
        host is WithConsole ==> representable(msg@),
    ensures
        forwarded(host, primitive, msg@, outcome),
{
    match host {
        Host::WithConsole => Ok(HostCall { primitive, text: encode(msg) }),
        Host::WithoutConsole => Err(UnsupportedPlatform { primitive }),
    }
}

/// Sends `msg` to the console's `debug` primitive.
pub fn debug(host: Host, msg: &str) -> (outcome: Result<HostCall, UnsupportedPlatform>)
    requires
        host is WithConsole ==> representable(msg@),
    ensures
        forwarded(host, Primitive::Debug, msg@, outcome),
{
    forward(host, Primitive::Debug, msg)
}

/// Sends `msg` to the console's `log` primitive.
pub fn log(host: Host, msg: &str) -> (outcome: Result<HostCall, UnsupportedPlatform>)
    requires
        host is WithConsole ==> representable(msg@),
    ensures
        forwarded(host, Primitive::Log, msg@, outcome),
{
    forward(host, Primitive::Log, msg)
}

/// Sends `msg` to the console's `info` primitive.
pub fn info(host: Host, msg: &str) -> (outcome: Result<HostCall, UnsupportedPlatform>)
    requires
        host is WithConsole ==> representable(msg@),
    ensures
        forwarded(host, Primitive::Info, msg@, outcome),
{
    forward(host, Primitive::Info, msg)
}

/// Sends `msg` to the console's `warn` primitive.
pub fn warn(host: Host, msg: &str) -> (outcome: Result<HostCall, UnsupportedPlatform>)
    requires
        host is WithConsole ==> representable(msg@),
    ensures
        forwarded(host, Primitive::Warn, msg@, outcome),
{
    forward(host, Primitive::Warn, msg)
}

/// Sends `msg` to the console's `error` primitive.
pub fn error(host: Host, msg: &str) -> (outcome: Result<HostCall, UnsupportedPlatform>)
    requires
        host is WithConsole ==> representable(msg@),
    ensures
        forwarded(host, Primitive::Error, msg@, outcome),
{
    forward(host, Primitive::Error, msg)
}

/// Of the bytes that make up an encoded scalar value, only the single byte
/// of the value zero is zero.
proof fn lemma_encoded_bytes_nonzero(scalar: u32)
    by (bit_vector)
    ensures
        has_width_1_encoding(scalar) ==> (leading_byte_width_1(scalar) == 0u8 <==> scalar == 0u32),
        leading_byte_width_2(scalar) != 0u8,
        leading_byte_width_3(scalar) != 0u8,
        leading_byte_width_4(scalar) != 0u8,
        last_continuation_byte(scalar) != 0u8,
        second_last_continuation_byte(scalar) != 0u8,
        third_last_continuation_byte(scalar) != 0u8,
{
}

/// The encoding of a scalar value holds a zero byte only for the value zero.
proof fn lemma_scalar_zero_byte(scalar: u32)
    requires
        is_scalar(scalar),
    ensures
        scalar == 0 ==> encode_scalar(scalar)[0] == 0u8,
        scalar != 0 ==> forall|i: int|
            0 <= i < encode_scalar(scalar).len() ==> encode_scalar(scalar)[i] != 0u8,
        encode_scalar(scalar).len() >= 1,
{
    lemma_encoded_bytes_nonzero(scalar);
}

/// A message is representable exactly when none of its characters is NUL.
pub proof fn lemma_representable_iff_no_nul(msg: Seq<char>)
    ensures
        representable(msg) <==> !msg.contains('\0'),
    decreases msg.len(),
{
    if msg.len() == 0 {
    } else {
        char_is_scalar(msg[0]);
        char_u32_cast(msg[0], msg[0] as u32);
        char_u32_cast('\0', '\0' as u32);
        let head = encode_scalar(msg[0] as u32);
        let rest = encode_utf8(msg.drop_first());
        lemma_scalar_zero_byte(msg[0] as u32);
        lemma_representable_iff_no_nul(msg.drop_first());
        assert(encode_utf8(msg) == head + rest);
        if msg.contains('\0') {
            let k = choose|k: int| 0 <= k < msg.len() && msg[k] == '\0';
            if k == 0 {
                assert((head + rest)[0] == 0u8);
            } else {
                assert(msg.drop_first()[k - 1] == '\0');
                assert(rest.contains(0u8));
                let j = choose|j: int| 0 <= j < rest.len() && rest[j] == 0u8;
                assert((head + rest)[head.len() + j] == 0u8);
            }
        }
        if encode_utf8(msg).contains(0u8) {
            let j = choose|j: int| 0 <= j < (head + rest).len() && (head + rest)[j] == 0u8;
            if j < head.len() {
                assert(msg[0] == '\0');
            } else {
                assert(rest[j - head.len()] == 0u8);
                assert(msg.drop_first().contains('\0'));
                let k = choose|k: int|
                    0 <= k < msg.drop_first().len() && msg.drop_first()[k] == '\0';
                assert(msg[k + 1] == '\0');
            }
        }
    }
}

/// The bytes handed to the host end in a zero, and for a representable
/// message that zero is the only one.
pub proof fn lemma_c_string_terminated(msg: Seq<char>)
    ensures
        c_string(msg).len() == encode_utf8(msg).len() + 1,
        c_string(msg).last() == 0u8,
        representable(msg) ==> forall|i: int|
            0 <= i < c_string(msg).len() - 1 ==> c_string(msg)[i] != 0u8,
{
}

} // verus!
