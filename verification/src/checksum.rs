//! The checksum engine: a CRC-8 over 2-byte groups (polynomial 0x31,
//! initial register 0xFF, MSB first, no reflection), and validation of
//! response buffers that carry one checksum byte after every two data bytes.

use vstd::prelude::*;

verus! {

/// The CRC-8 polynomial of the sensor protocol.
pub const CRC8_POLYNOMIAL: u8 = 0x31;

/// One shift round of the CRC-8 register: shift left, folding the
/// polynomial in when the top bit was set.
pub open spec fn crc8_round(crc: u8) -> u8 {
    if crc & 0x80 != 0 {
        (crc << 1) ^ CRC8_POLYNOMIAL
    } else {
        crc << 1
    }
}

/// `n` shift rounds of the CRC-8 register.
pub open spec fn crc8_rounds(crc: u8, n: nat) -> u8
    decreases n,
{
    if n == 0 {
        crc
    } else {
        crc8_rounds(crc8_round(crc), (n - 1) as nat)
    }
}

/// Folding one input byte into the register: XOR it in, then eight rounds.
pub open spec fn crc8_fold_byte(crc: u8, byte: u8) -> u8 {
    crc8_rounds(crc ^ byte, 8)
}

/// The CRC-8 checksum of a byte sequence.
pub open spec fn crc8_spec(data: Seq<u8>) -> u8
    decreases data.len(),
{
    if data.len() == 0 {
        0xff
    } else {
        crc8_fold_byte(crc8_spec(data.drop_last()), data.last())
    }
}

/// The `k`-th 3-byte group of `data` (two data bytes followed by their
/// checksum byte) carries a matching checksum.
pub open spec fn group_valid(data: Seq<u8>, k: int) -> bool {
    crc8_spec(seq![data[3 * k], data[3 * k + 1]]) == data[3 * k + 2]
}

/// Every complete 3-byte group of `data` carries a matching checksum.
/// A trailing partial group (fewer than 3 bytes) is left unvalidated.
pub open spec fn frames_valid(data: Seq<u8>) -> bool {
    forall|k: int| 0 <= k && 3 * k + 2 < data.len() ==> #[trigger] group_valid(data, k)
}

/// Calculate the CRC8 checksum.
pub fn crc8(data: &[u8]) -> (crc: u8)
    ensures
        crc == crc8_spec(data@),
{
    let mut crc: u8 = 0xff;
    let mut i: usize = 0;
    while i < data.len()
        invariant
            i <= data@.len(),
            crc == crc8_spec(data@.take(i as int)),
        decreases data@.len() - i,
    {
        let ghost prefix = data@.take(i as int);
        crc = crc ^ data[i];
        let mut round: usize = 0;
        while round < 8
            invariant
                round <= 8,
                crc8_rounds(crc, (8 - round) as nat) == crc8_fold_byte(crc8_spec(prefix), data@[i as int]),
            decreases 8 - round,
        {
            if (crc & 0x80) > 0 {
                crc = (crc << 1) ^ CRC8_POLYNOMIAL;
            } else {
                crc = crc << 1;
            }
            round = round + 1;
        }
        i = i + 1;
        proof {
            let extended = data@.take(i as int);
            assert(extended.drop_last() =~= prefix);
            assert(extended.last() == data@[i - 1]);
        }
    }
    proof {
        assert(data@.take(data@.len() as int) =~= data@);
    }
    crc
}

/// A single 3-byte group validates exactly when its third byte is the
/// checksum of the first two.
pub proof fn lemma_single_group_validation(a: u8, b: u8, c: u8)
    ensures
        frames_valid(seq![a, b, c]) <==> c == crc8_spec(seq![a, b]),
{
    let data = seq![a, b, c];
    assert(seq![data[0], data[1]] =~= seq![a, b]);
    if c == crc8_spec(seq![a, b]) {
        assert forall|k: int| 0 <= k && 3 * k + 2 < data.len() implies #[trigger] group_valid(data, k) by {
            assert(k == 0);
        }
    }
    if frames_valid(data) {
        assert(group_valid(data, 0));
    }
}

/// A buffer shorter than one complete group holds nothing to validate,
/// whatever its content.
pub proof fn lemma_short_buffer_valid(data: Seq<u8>)
    requires
        data.len() < 3,
    ensures
        frames_valid(data),
{
}

/// A trailing partial group has no bearing on validation: appending fewer
/// than 3 bytes to a buffer made of complete groups neither mends nor
/// breaks it.
pub proof fn lemma_trailing_bytes_ignored(data: Seq<u8>, tail: Seq<u8>)
    requires
        data.len() % 3 == 0,
        tail.len() < 3,
    ensures
        frames_valid(data + tail) <==> frames_valid(data),
{
    let whole = data + tail;
    let groups = data.len() / 3;
    if frames_valid(data) {
        assert forall|k: int| 0 <= k && 3 * k + 2 < whole.len() implies #[trigger] group_valid(whole, k) by {
            assert(data.len() == 3 * groups);
            assert(3 * k < 3 * groups);
            assert(k < groups);
            assert(3 * k + 2 < data.len());
            assert(group_valid(data, k));
            assert(seq![whole[3 * k], whole[3 * k + 1]] =~= seq![data[3 * k], data[3 * k + 1]]);
        }
    }
    if frames_valid(whole) {
        assert forall|k: int| 0 <= k && 3 * k + 2 < data.len() implies #[trigger] group_valid(data, k) by {
            assert(group_valid(whole, k));
            assert(seq![whole[3 * k], whole[3 * k + 1]] =~= seq![data[3 * k], data[3 * k + 1]]);
        }
    }
}

} // verus!
