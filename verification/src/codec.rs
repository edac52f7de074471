use vstd::arithmetic::power2::{lemma2_to64, lemma_pow2_strictly_increases, pow2};
use vstd::bits::lemma_u32_shl_is_mul;
use vstd::prelude::*;

verus! {

/// The two-byte big-endian encoding of a 16-bit in-device memory address,
/// sent as the first bytes of every transaction addressed to the chip.
pub open spec fn spec_encoded_address(addr: u16) -> Seq<u8> {
    seq![(addr >> 8) as u8, (addr & 0xFF) as u8]
}

/// The 16-bit address that a transaction payload beginning with a two-byte
/// big-endian address prefix is directed at.
pub open spec fn prefix_address(payload: Seq<u8>) -> int {
    payload[0] * 256 + payload[1]
}

/// Produces the big-endian address prefix `[addr >> 8, addr & 0xFF]`.
pub fn encode_address(addr: u16) -> (prefix: Vec<u8>)
    ensures
        prefix@ == spec_encoded_address(addr),
        prefix@.len() == 2,
        prefix_address(prefix@) == addr,
{
    let hi: u8 = (addr >> 8) as u8;
    let lo: u8 = (addr & 0xFF) as u8;
    proof {
        assert(hi as u16 * 256 + lo as u16 == addr) by (bit_vector)
            requires
                hi == (addr >> 8) as u8,
                lo == (addr & 0xFF) as u8,
        ;
    }
    let mut prefix: Vec<u8> = Vec::new();
    prefix.push(hi);
    prefix.push(lo);
    proof {
        assert(prefix@ =~= spec_encoded_address(addr));
    }
    prefix
}

/// The device memory after `data` has been written starting at address
/// `addr`, with the chip auto-incrementing its internal address register:
/// each byte of `data` that lands inside the memory replaces the cell at its
/// address, and every other cell keeps its previous value.
pub open spec fn store_bytes(mem: Seq<u8>, addr: int, data: Seq<u8>) -> Seq<u8> {
    Seq::new(mem.len(), |j: int| if addr <= j < addr + data.len() { data[j - addr] } else { mem[j] })
}

/// Law: writing a payload at an address `addr` with the whole payload inside
/// the device memory, then reading the same number of bytes back from `addr`,
/// yields the identical payload.
pub proof fn lemma_write_then_read_round_trip(mem: Seq<u8>, addr: int, data: Seq<u8>)
    requires
        0 <= addr,
        addr + data.len() <= mem.len(),
    ensures
        store_bytes(mem, addr, data).subrange(addr, addr + data.len() as int) == data,
{
    assert(store_bytes(mem, addr, data).subrange(addr, addr + data.len() as int) =~= data);
}

/// Law: after a payload is written at position `c`, the `m` bytes that a
/// subsequent read from the advanced position `c + payload.len()` visits are
/// cells the write left untouched: they still hold the memory's previous
/// contents.
pub proof fn lemma_read_after_write_sees_following_cells(
    mem: Seq<u8>,
    c: int,
    data: Seq<u8>,
    m: int,
)
    requires
        0 <= c,
        0 <= m,
        c + data.len() + m <= mem.len(),
    ensures
        store_bytes(mem, c, data).subrange(c + data.len(), c + data.len() + m) == mem.subrange(
            c + data.len(),
            c + data.len() + m,
        ),
{
    assert(store_bytes(mem, c, data).subrange(c + data.len(), c + data.len() + m) =~= mem.subrange(
        c + data.len(),
        c + data.len() + m,
    ));
}

/// The capacity in bytes that an identification response encodes: the low
/// nibble of its second byte is the capacity exponent `k`, and the density of
/// the chip is `2^k` kilobytes.
pub open spec fn spec_capacity_from_id(byte1: u8) -> nat {
    pow2((byte1 & 0xF) as nat) * 1024
}

/// Derives the device capacity in bytes from the second byte of the
/// identification response.
pub fn capacity_from_id(byte1: u8) -> (capacity: u32)
    ensures
        capacity == spec_capacity_from_id(byte1),
        1024 <= capacity <= 0x2000000,
{
    let k: u32 = (byte1 & 0xF) as u32;
    proof {
        assert(byte1 & 0xF < 16) by (bit_vector);
        lemma2_to64();
        lemma_pow2_strictly_increases(k as nat, 16);
        lemma_u32_shl_is_mul(1u32, k);
        vstd::arithmetic::power2::lemma_pow2_pos(k as nat);
    }
    (1u32 << k) * 1024
}

/// The manufacturer code that an identification response encodes: the first
/// byte holds its high bits and the high nibble of the second byte its low
/// nibble.
pub open spec fn spec_manufacturer_from_id(byte0: u8, byte1: u8) -> u16 {
    ((byte0 as u16) << 4) | (((byte1 >> 4) & 0xF) as u16)
}

/// Decodes the manufacturer code from the first two bytes of the
/// identification response.
pub fn manufacturer_from_id(byte0: u8, byte1: u8) -> (manufacturer: u16)
    ensures
        manufacturer == spec_manufacturer_from_id(byte0, byte1),
{
    ((byte0 as u16) << 4) | (((byte1 >> 4) & 0xF) as u16)
}

} // verus!
