//! The wire format between the native host and the extension: a message is
//! its UTF-8 bytes behind a prefix of four bytes that holds their number in
//! the byte order of the machine.

use vstd::prelude::*;
use vstd::slice::*;
use vstd::string::*;
use vstd::utf8::*;

verus! {

/// The order of the four bytes of a length prefix.
#[derive(Clone, Copy, Debug, PartialEq, Eq, Structural)]
pub enum ByteOrder {
    /// Least significant byte first.
    Little,
    /// Most significant byte first.
    Big,
}

/// Why no message could be read.
#[derive(Clone, Copy, Debug, PartialEq, Eq, Structural)]
pub enum FramingError {
    /// The input ends before the prefix or before the bytes it declares.
    Truncated,
    /// The declared bytes are not UTF-8.
    InvalidUtf8,
    /// The message has more bytes than a prefix can declare.
    TooLong,
}

/// One more than the largest length that a prefix can hold.
pub open spec fn prefix_limit() -> nat {
    0x1_0000_0000
}

/// The four bytes that hold `length` in `order`.
pub open spec fn prefix_bytes(order: ByteOrder, length: nat) -> Seq<u8>
    recommends
        length < prefix_limit(),
{
    let low = (length % 256) as u8;
    let second = (length / 256 % 256) as u8;
    let third = (length / 65536 % 256) as u8;
    let high = (length / 16777216 % 256) as u8;
    match order {
        ByteOrder::Little => seq![low, second, third, high],
        ByteOrder::Big => seq![high, third, second, low],
    }
}

/// The length that the first four bytes of `bytes` hold in `order`.
pub open spec fn prefix_value(order: ByteOrder, bytes: Seq<u8>) -> nat
    recommends
        bytes.len() >= 4,
{
    match order {
        ByteOrder::Little => (bytes[0] + 256 * bytes[1] + 65536 * bytes[2] + 16777216
            * bytes[3]) as nat,
        ByteOrder::Big => (bytes[3] + 256 * bytes[2] + 65536 * bytes[1] + 16777216
            * bytes[0]) as nat,
    }
}

/// Whether the UTF-8 bytes of `text` are few enough for a prefix to declare
/// their number.
pub open spec fn fits_prefix(text: Seq<char>) -> bool {
    encode_utf8(text).len() < prefix_limit()
}

/// The frame of `text`: the prefix that holds the number of the text's UTF-8
/// bytes, then those bytes.
pub open spec fn frame(order: ByteOrder, text: Seq<char>) -> Seq<u8>
    recommends
        fits_prefix(text),
{
    prefix_bytes(order, encode_utf8(text).len()) + encode_utf8(text)
}

/// What reading one message from the start of `input` gives: the text and
/// the number of bytes it took, or the reason why there is none.
pub open spec fn read_result(order: ByteOrder, input: Seq<u8>) -> Result<
    (Seq<char>, nat),
    FramingError,
> {
    if input.len() < 4 {
        Err(FramingError::Truncated)
    } else {
        let declared = prefix_value(order, input);
        if input.len() < 4 + declared {
            Err(FramingError::Truncated)
        } else {
            let payload = input.subrange(4, 4 + declared as int);
            if valid_utf8(payload) {
                Ok((decode_utf8(payload), 4 + declared))
            } else {
                Err(FramingError::InvalidUtf8)
            }
        }
    }
}

/// The bytes of `value` by `u32::to_ne_bytes` of the standard library: the
/// value in the byte order of the machine, which is one of the two orders.
#[verifier::external_body]
fn native_bytes(value: u32) -> (bytes: Vec<u8>)
    ensures
        bytes@ == prefix_bytes(ByteOrder::Little, value as nat) || bytes@ == prefix_bytes(
            ByteOrder::Big,
            value as nat,
        ),
{
    value.to_ne_bytes().to_vec()
}

/// `String::from_utf8` of the standard library: the text whose UTF-8
/// encoding is `bytes`, or `None` exactly where `bytes` is not UTF-8.
#[verifier::external_body]
fn utf8_text(bytes: Vec<u8>) -> (text: Option<String>)
    ensures
        text.is_some() == valid_utf8(bytes@),
        text matches Some(decoded) ==> encode_utf8(decoded@) == bytes@,
{
    match String::from_utf8(bytes) {
        Ok(decoded) => Some(decoded),
        Err(_) => None,
    }
}

/// The byte order of the machine that runs this code.
pub fn native_byte_order() -> (order: ByteOrder) {
    let probe = native_bytes(1);
    order_of_probe(probe.as_slice())
}

/// The order in which `probe` holds the number one: little where its first
/// byte is the one, big in every other case.
pub fn order_of_probe(probe: &[u8]) -> (order: ByteOrder)
    ensures
        order == ByteOrder::Little <==> probe@.len() > 0 && probe@[0] == 1,
        forall|held: ByteOrder| probe@ == #[trigger] prefix_bytes(held, 1) ==> order == held,
{
    if probe.len() > 0 && probe[0] == 1 {
        ByteOrder::Little
    } else {
        ByteOrder::Big
    }
}

/// The prefix that holds `length` in `order`.
pub fn length_prefix(order: ByteOrder, length: u32) -> (prefix: [u8; 4])
    ensures
        prefix@ == prefix_bytes(order, length as nat),
{
    let low = (length % 256) as u8;
    let second = (length / 256 % 256) as u8;
    let third = (length / 65536 % 256) as u8;
    let high = (length / 16777216 % 256) as u8;
    let prefix = match order {
        ByteOrder::Little => [low, second, third, high],
        ByteOrder::Big => [high, third, second, low],
    };
    assert(prefix@ =~= prefix_bytes(order, length as nat));
    prefix
}

/// The length that `prefix` holds in `order`.
pub fn declared_length(order: ByteOrder, prefix: &[u8; 4]) -> (length: u32)
    ensures
        length == prefix_value(order, prefix@),
{
    let first = prefix[0] as u32;
    let second = prefix[1] as u32;
    let third = prefix[2] as u32;
    let fourth = prefix[3] as u32;
    match order {
        ByteOrder::Little => first + 256 * second + 65536 * third + 16777216 * fourth,
        ByteOrder::Big => fourth + 256 * third + 65536 * second + 16777216 * first,
    }
}

/// The text that `payload` holds in UTF-8.
pub fn decode_payload(payload: Vec<u8>) -> (decoded: Result<String, FramingError>)
    ensures
        match decoded {
            Ok(text) => valid_utf8(payload@) && text@ == decode_utf8(payload@),
            Err(error) => !valid_utf8(payload@) && error == FramingError::InvalidUtf8,
        },
{
    match utf8_text(payload) {
        Some(text) => {
            proof {
                encode_utf8_decode_utf8(text@);
            }
            Ok(text)
        },
        None => Err(FramingError::InvalidUtf8),
    }
}

/// The frame of `message`, ready to be written and flushed, or the report
/// of a message that has too many bytes for the prefix.
pub fn write_message(message: &str, order: ByteOrder) -> (result: Result<Vec<u8>, FramingError>)
    ensures
        match result {
            Ok(bytes) => fits_prefix(message@) && bytes@ == frame(order, message@),
            Err(error) => !fits_prefix(message@) && error == FramingError::TooLong,
        },
{
    let payload = message.as_bytes();
    if payload.len() as u64 > 0xffff_ffffu64 {
        return Err(FramingError::TooLong);
    }
    let length = payload.len() as u32;
    let prefix = length_prefix(order, length);
    let mut bytes: Vec<u8> = Vec::new();
    bytes.push(prefix[0]);
    bytes.push(prefix[1]);
    bytes.push(prefix[2]);
    bytes.push(prefix[3]);
    assert(bytes@ =~= prefix@);
    let mut i: usize = 0;
    while i < payload.len()
        invariant
            i <= payload.len(),
            bytes@ == prefix@ + payload@.take(i as int),
        decreases payload.len() - i,
    {
        bytes.push(payload[i]);
        assert(bytes@ =~= prefix@ + payload@.take(i as int + 1));
        i += 1;
    }
    assert(payload@.take(payload.len() as int) =~= payload@);
    Ok(bytes)
}

/// Reads one message from the start of `input`: the text and the number of
/// bytes that the prefix and the text took. Bytes behind them are left
/// alone.
pub fn read_message(input: &[u8], order: ByteOrder) -> (result: Result<
    (String, usize),
    FramingError,
>)
    ensures
        match result {
            Ok((text, used)) => read_result(order, input@) == Ok::<
                (Seq<char>, nat),
                FramingError,
            >((text@, used as nat)),
            Err(error) => read_result(order, input@) == Err::<(Seq<char>, nat), FramingError>(
                error,
            ),
        },
{
    if input.len() < 4 {
        return Err(FramingError::Truncated);
    }
    let prefix: [u8; 4] = [input[0], input[1], input[2], input[3]];
    let declared = declared_length(order, &prefix) as usize;
    assert(declared == prefix_value(order, input@));
    if input.len() - 4 < declared {
        return Err(FramingError::Truncated);
    }
    let payload = slice_to_vec(slice_subrange(input, 4, 4 + declared));
    match decode_payload(payload) {
        Ok(text) => Ok((text, 4 + declared)),
        Err(error) => Err(error),
    }
}

proof fn lemma_digits(x: u32)
    ensures
        x % 256 + 256 * (x / 256 % 256) + 65536 * (x / 65536 % 256) + 16777216 * (x / 16777216
            % 256) == x,
{
    assert(x % 256 + 256 * (x / 256 % 256) + 65536 * (x / 65536 % 256) + 16777216 * (x
        / 16777216 % 256) == x) by (bit_vector);
}

/// A prefix holds the length that it was made from.
pub proof fn lemma_prefix_roundtrip(order: ByteOrder, length: nat, rest: Seq<u8>)
    requires
        length < prefix_limit(),
    ensures
        prefix_bytes(order, length).len() == 4,
        prefix_value(order, prefix_bytes(order, length) + rest) == length,
{
    let prefix = prefix_bytes(order, length);
    let whole = prefix + rest;
    let x = length as u32;
    lemma_digits(x);
    let low = (x % 256) as u8;
    let second = (x / 256 % 256) as u8;
    let third = (x / 65536 % 256) as u8;
    let high = (x / 16777216 % 256) as u8;
    assert(low == x % 256 && second == x / 256 % 256 && third == x / 65536 % 256 && high == x
        / 16777216 % 256);
    assert(prefix =~= match order {
        ByteOrder::Little => seq![low, second, third, high],
        ByteOrder::Big => seq![high, third, second, low],
    });
    assert(whole[0] == prefix[0] && whole[1] == prefix[1] && whole[2] == prefix[2] && whole[3]
        == prefix[3]);
}

/// Reading inverts writing: a message that can be written, that is one
/// whose UTF-8 length fits the prefix, is read back unchanged from its
/// frame, whatever its length down to none and whatever follows the frame,
/// and the bytes taken are those of the frame.
pub proof fn lemma_read_inverts_write(order: ByteOrder, text: Seq<char>, rest: Seq<u8>)
    requires
        fits_prefix(text),
    ensures
        read_result(order, frame(order, text) + rest) == Ok::<(Seq<char>, nat), FramingError>(
            (text, frame(order, text).len()),
        ),
        frame(order, text).len() == 4 + encode_utf8(text).len(),
{
    let payload = encode_utf8(text);
    let length = payload.len();
    let prefix = prefix_bytes(order, length);
    let input = frame(order, text) + rest;
    lemma_prefix_roundtrip(order, length, payload + rest);
    assert(input =~= prefix + (payload + rest));
    assert(input.subrange(4, 4 + length as int) =~= payload);
    encode_utf8_valid_utf8(text);
    encode_utf8_decode_utf8(text);
}

/// A frame that was cut short is reported as truncated.
pub proof fn lemma_cut_frame_is_truncated(order: ByteOrder, text: Seq<char>, kept: int)
    requires
        fits_prefix(text),
        0 <= kept < frame(order, text).len(),
    ensures
        read_result(order, frame(order, text).take(kept)) == Err::<
            (Seq<char>, nat),
            FramingError,
        >(FramingError::Truncated),
{
    let payload = encode_utf8(text);
    let cut = frame(order, text).take(kept);
    lemma_prefix_roundtrip(order, payload.len(), payload);
    if kept >= 4 {
        let prefix = prefix_bytes(order, payload.len());
        assert(cut =~= prefix + payload.take(kept - 4));
        lemma_prefix_roundtrip(order, payload.len(), payload.take(kept - 4));
    }
}

} // verus!
