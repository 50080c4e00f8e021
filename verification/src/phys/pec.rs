//! SMBus Packet Error Code: CRC-8 with polynomial `x^8 + x^2 + x + 1`, initial value zero.
use vstd::prelude::*;

verus! {

/// One shift step of the CRC register: the top bit leaves, and when it was set
/// the polynomial `0x07` is folded in.
pub open spec fn crc8_shift(crc: u8) -> u8 {
    if crc & 0x80 != 0 {
        (crc << 1) ^ 0x07
    } else {
        crc << 1
    }
}

/// The CRC register after one more message byte.
pub open spec fn crc8_byte(crc: u8, byte: u8) -> u8 {
    crc8_shift(
        crc8_shift(
            crc8_shift(
                crc8_shift(crc8_shift(crc8_shift(crc8_shift(crc8_shift(crc ^ byte))))),
            ),
        ),
    )
}

/// CRC-8 (polynomial `0x07`, initial value `0`, no reflection, no final xor) of `data`.
pub open spec fn crc8(data: Seq<u8>) -> u8
    decreases data.len(),
{
    if data.len() == 0 {
        0
    } else {
        crc8_byte(crc8(data.drop_last()), data.last())
    }
}

/// `smbus_pec::pec` starts from zero and, for every byte in order, xors the byte into
/// the register and shifts eight times with polynomial 7: the result is `crc8` of the input.
pub assume_specification[ smbus_pec::pec ](data: &[u8]) -> (r: u8)
    ensures
        r == crc8(data@),
;

/// Whether the last byte of `frame` is the packet error code of everything before it.
pub open spec fn pec_valid(frame: Seq<u8>) -> bool {
    frame.len() >= 1 && frame.last() == crc8(frame.drop_last())
}

/// A buffer followed by its own packet error code always passes the check.
pub proof fn lemma_pec_of_own_bytes_is_valid(bytes: Seq<u8>)
    ensures
        pec_valid(bytes.push(crc8(bytes))),
{
    assert(bytes.push(crc8(bytes)).drop_last() == bytes);
}

/// In a frame that passes the check, the code computed anew over all but the last
/// byte is the last byte.
pub proof fn lemma_valid_pec_recomputes(frame: Seq<u8>)
    requires
        pec_valid(frame),
    ensures
        crc8(frame.subrange(0, frame.len() - 1)) == frame[frame.len() - 1],
{
    assert(frame.subrange(0, frame.len() - 1) == frame.drop_last());
}

/// Appends to `bytes` the packet error code computed over all of `bytes`.
pub fn with_pec(bytes: Vec<u8>) -> (frame: Vec<u8>)
    ensures
        frame@ == bytes@.push(crc8(bytes@)),
        pec_valid(frame@),
{
    let mut frame = bytes;
    let code = smbus_pec::pec(frame.as_slice());
    frame.push(code);
    assert(frame@.drop_last() == bytes@);
    frame
}

/// Recomputes the packet error code over all but the last byte and compares it to the last byte.
pub fn check_pec(frame: &[u8]) -> (ok: bool)
    ensures
        ok == pec_valid(frame@),
{
    let n = frame.len();
    if n == 0 {
        return false;
    }
    let body = vstd::slice::slice_subrange(frame, 0, n - 1);
    assert(body@ == frame@.drop_last());
    smbus_pec::pec(body) == frame[n - 1]
}

} // verus!
