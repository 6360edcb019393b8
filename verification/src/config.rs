//! Network constants shared by client, server and authentication service, and the decoding of
//! the shared private key.
use vstd::prelude::*;

verus! {

/// The simulation tick period in nanoseconds (128 Hz).
pub const TICK_PERIOD: u64 = 7_812_500;

/// Port of the game server.
pub const GAME_PORT: u16 = 5000;

/// Port of the authentication service.
pub const AUTH_PORT: u16 = 4000;

/// Port of the id service.
pub const ID_PORT: u16 = 4001;

/// Version of the network protocol.
pub const PROTOCOL_ID: u64 = 0;

/// Length of the private key in bytes.
pub const KEY_LEN: usize = 32;

/// The tick period divides a second into exactly 128 ticks.
pub proof fn lemma_tick_rate()
    ensures
        128 * TICK_PERIOD == 1_000_000_000,
{
}

/// Whether a byte is a hexadecimal digit (either case).
pub open spec fn is_hex_digit(c: u8) -> bool {
    (0x30 <= c <= 0x39) || (0x61 <= c <= 0x66) || (0x41 <= c <= 0x46)
}

/// The value of a hexadecimal digit.
pub open spec fn hex_digit_value(c: u8) -> int {
    if 0x30 <= c <= 0x39 {
        c - 0x30
    } else if 0x61 <= c <= 0x66 {
        c - 0x61 + 10
    } else {
        c - 0x41 + 10
    }
}

/// The key written in `hex`, two digits per byte, high digit first; none unless `hex` is
/// exactly 64 hexadecimal digits.
pub open spec fn decode_key_spec(hex: Seq<u8>) -> Option<Seq<u8>> {
    if hex.len() == 2 * KEY_LEN && forall|i: int| 0 <= i < hex.len() ==> is_hex_digit(#[trigger] hex[i]) {
        Some(
            Seq::new(
                KEY_LEN as nat,
                |i: int| (hex_digit_value(hex[2 * i]) * 16 + hex_digit_value(hex[2 * i + 1])) as u8,
            ),
        )
    } else {
        None
    }
}

/// The value of a hexadecimal digit, if `c` is one.
pub fn hex_value(c: u8) -> (v: Option<u8>)
    ensures
        v is Some <==> is_hex_digit(c),
        v matches Some(x) ==> x == hex_digit_value(c) && x < 16,
{
    if 0x30 <= c && c <= 0x39 {
        Some(c - 0x30)
    } else if 0x61 <= c && c <= 0x66 {
        Some(c - 0x61 + 10)
    } else if 0x41 <= c && c <= 0x46 {
        Some(c - 0x41 + 10)
    } else {
        None
    }
}

/// Decodes the private key from its 64 hexadecimal digits.
pub fn decode_key(hex: &[u8]) -> (key: Option<[u8; KEY_LEN]>)
    ensures
        key is Some <==> decode_key_spec(hex@) is Some,
        key matches Some(k) ==> k@ == decode_key_spec(hex@)->0,
{
    if hex.len() != 2 * KEY_LEN {
        return None;
    }
    let mut out: [u8; KEY_LEN] = [0u8; KEY_LEN];
    let mut i: usize = 0;
    while i < KEY_LEN
        invariant
            hex@.len() == 2 * KEY_LEN,
            0 <= i <= KEY_LEN,
            out@.len() == KEY_LEN,
            forall|j: int| 0 <= j < 2 * i ==> is_hex_digit(#[trigger] hex@[j]),
            forall|j: int|
                0 <= j < i ==> #[trigger] out@[j] == (hex_digit_value(hex@[2 * j]) * 16
                    + hex_digit_value(hex@[2 * j + 1])) as u8,
        decreases KEY_LEN - i,
    {
        let hi = hex_value(hex[2 * i]);
        let lo = hex_value(hex[2 * i + 1]);
        match (hi, lo) {
            (Some(h), Some(l)) => {
                out[i] = h * 16 + l;
            },
            _ => {
                assert(!is_hex_digit(hex@[2 * i as int]) || !is_hex_digit(hex@[2 * i + 1]));
                return None;
            },
        }
        i = i + 1;
    }
    assert(forall|j: int| 0 <= j < hex@.len() ==> is_hex_digit(#[trigger] hex@[j]));
    assert(out@ =~= decode_key_spec(hex@)->0);
    Some(out)
}

} // verus!
