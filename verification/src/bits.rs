use vstd::prelude::*;

verus! {

/// The low-bit masks and right shifts of a byte as remainders and quotients, and the same
/// masks taken after widening.
pub proof fn lemma_u8_bits(x: u8)
    by (bit_vector)
    ensures
        x & 0x01 == x % 2,
        x & 0x03 == x % 4,
        x & 0x07 == x % 8,
        x & 0x0F == x % 16,
        x & 0x1F == x % 32,
        x & 0x3F == x % 64,
        x & 0x7F == x % 128,
        (x & 0x80 == 0x80) == (x >= 128),
        (x & 0x80 != 0) == (x >= 128),
        (x & 0x40 == 0x40) == ((x / 64) % 2 == 1),
        (x & 0x20 == 0x20) == ((x / 32) % 2 == 1),
        (x & 0x10 == 0x10) == ((x / 16) % 2 == 1),
        (x & 0x08 == 0x08) == ((x / 8) % 2 == 1),
        (x & 0x04 == 0x04) == ((x / 4) % 2 == 1),
        (x & 0x02 == 0x02) == ((x / 2) % 2 == 1),
        (x & 0x01 == 0x01) == (x % 2 == 1),
        (x & 0x40 != 0) == ((x / 64) % 2 == 1),
        (x & 0x20 != 0) == ((x / 32) % 2 == 1),
        (x & 0x10 != 0) == ((x / 16) % 2 == 1),
        (x & 0x08 != 0) == ((x / 8) % 2 == 1),
        (x & 0x04 != 0) == ((x / 4) % 2 == 1),
        (x & 0x02 != 0) == ((x / 2) % 2 == 1),
        (x & 0x01 != 0) == (x % 2 == 1),
        x >> 1u8 == x / 2,
        x >> 2u8 == x / 4,
        x >> 3u8 == x / 8,
        x >> 4u8 == x / 16,
        x >> 5u8 == x / 32,
        x >> 6u8 == x / 64,
        x >> 7u8 == x / 128,
        (x & 0xF0) & 0x0F == 0,
        (x | 0x04) | 0x04 == x | 0x04,
        (x | 0x01) & 0x01 == 0x01,
        ((x | 0x01) | 0x02) & 0x01 == 0x01,
        (x as usize) & 0x03 == (x & 0x03) as usize,
        (x as usize) & 0x0F == (x & 0x0F) as usize,
        (x as usize) & 0x1F == (x & 0x1F) as usize,
        (x as u16) << 8u16 == x as u16 * 256,
        (x as usize) << 8usize == x as usize * 256,
{
}

/// The low-bit masks and the high byte of a 16-bit value as remainders and quotients.
pub proof fn lemma_u16_bits(a: u16)
    by (bit_vector)
    ensures
        a & 0x00FF == a % 0x100,
        a & 0x007F == a % 0x80,
        a & 0x01FF == a % 0x200,
        a & 0x0FFF == a % 0x1000,
        a & 0x1FFF == a % 0x2000,
        a & 0x3FFF == a % 0x4000,
        a >> 8u16 == a / 0x100,
        a >> 3u16 == a / 8,
        a & 0x001F == a % 32,
        a & 0x0007 == a % 8,
{
}

/// The bank-number masks of a word-sized value as remainders, quotients and bounds.
pub proof fn lemma_usize_bits(x: usize)
    by (bit_vector)
    ensures
        x & 0x03 == x % 4,
        x & 0x0F == x % 16,
        x & 0x1F == x % 32,
        x & 0x60 <= 0x60,
        x & 0xE0 <= x,
        x >> 5usize == x / 32,
{
}

/// The bank-number fields of the cartridge controllers as sums of quotients and remainders.
pub proof fn lemma_bank_fields(x: usize, lo: usize, hi: usize)
    by (bit_vector)
    requires
        lo < 256,
        hi < 2,
    ensures
        lo < 32 ==> (x & 0x60) | lo == ((x / 32) % 4) * 32 + lo,
        (x & 0x100) | lo == ((x / 256) % 2) * 256 + lo,
        (x & 0x0FF) | (hi << 8usize) == x % 256 + hi * 256,
{
}

} // verus!
