//! Reading eFuses: fields of bits in the eFuse blocks, such as the MAC
//! address, read out as little-endian bytes.
use vstd::prelude::*;
use crate::bits::bit_of;

verus! {

/// Whether bit `j` of byte `b` is set.
pub open spec fn byte_bit(b: u8, j: int) -> bool {
    (b >> (j as u8)) & 1u8 == 1u8
}

/// Bit `i` of a block, counted from bit 0 of its first word.
pub open spec fn block_bit(words: Seq<u32>, i: int) -> bool {
    bit_of(words[i / 32], (i % 32) as u32)
}

/// The number of bits that a read of `size` bytes takes of a field of
/// `bit_count` bits.
pub open spec fn bits_read(bit_count: u32, size: int) -> int {
    if bit_count < 8 * size { bit_count as int } else { 8 * size }
}

/// Bit `p` of the little-endian value of `size` bytes read from the field
/// at `bit_start` of `bit_count` bits: the field's bit `p`, or zero past the
/// field.
pub open spec fn field_bit(words: Seq<u32>, bit_start: u32, bit_count: u32, size: int, p: int) -> bool {
    p < bits_read(bit_count, size) && block_bit(words, bit_start + p)
}

/// Whether `out` holds the `size` little-endian bytes read from the field.
pub open spec fn reads_field(out: Seq<u8>, words: Seq<u32>, bit_start: u32, bit_count: u32, size: int) -> bool {
    &&& out.len() == size
    &&& forall|k: int, j: int| 0 <= k < size && 0 <= j < 8 ==>
        #[trigger] byte_bit(out[k], j) == field_bit(words, bit_start, bit_count, size, 8 * k + j)
}

/// The eFuse blocks that fields are read from.
#[derive(Debug, Clone, Copy, PartialEq, Eq, Structural)]
pub enum EfuseBlock {
    /// Block 1: the MAC address and SPI and system data.
    Block1,
}

impl EfuseBlock {
    /// The block of the given number, if it is one.
    pub fn from_repr(n: u32) -> (r: Option<Self>)
        ensures
            r == if n == 1 { Some(EfuseBlock::Block1) } else { None::<EfuseBlock> },
    {
        if n == 1 { Some(EfuseBlock::Block1) } else { None }
    }
}

/// The eFuse read registers.
pub struct EfuseRegs {
    /// `RD_MAC_SPI_SYS_0` to `RD_MAC_SPI_SYS_5`: the words of block 1.
    pub block1: Vec<u32>,
}

impl EfuseRegs {
    /// The words of a block.
    pub open spec fn words(&self, block: EfuseBlock) -> Seq<u32> {
        match block {
            EfuseBlock::Block1 => self.block1@,
        }
    }
}

/// A field of bits in an eFuse block.
#[derive(Debug, Clone, Copy, PartialEq, Eq, Structural)]
pub struct EfuseField {
    /// The block.
    pub block: EfuseBlock,
    /// The word in which the field starts; informational.
    pub word: u32,
    /// The first bit of the field in the block.
    pub bit_start: u32,
    /// The number of bits.
    pub bit_count: u32,
}

impl EfuseField {
    /// The field of `bit_count` bits at `bit_start` of block `block`.
    pub fn new(block: u32, word: u32, bit_start: u32, bit_count: u32) -> (r: Self)
        requires
            block == 1,
        ensures
            r == (EfuseField { block: EfuseBlock::Block1, word, bit_start, bit_count }),
    {
        let b = match EfuseBlock::from_repr(block) {
            Some(b) => b,
            None => EfuseBlock::Block1,
        };
        EfuseField { block: b, word, bit_start, bit_count }
    }
}

/// The low 32 bits of the MAC address.
pub fn mac0() -> (r: EfuseField)
    ensures
        r == (EfuseField { block: EfuseBlock::Block1, word: 0, bit_start: 0, bit_count: 32 }),
{
    EfuseField::new(1, 0, 0, 32)
}

/// The high 16 bits of the MAC address.
pub fn mac1() -> (r: EfuseField)
    ensures
        r == (EfuseField { block: EfuseBlock::Block1, word: 1, bit_start: 32, bit_count: 16 }),
{
    EfuseField::new(1, 1, 32, 16)
}

/// The bits of the word that a read of the field assembles from one or two
/// block words.
proof fn lemma_chunk_bits(lo: u32, hi: u32, o: u32, len: u32, t: u32, w: u32)
    by (bit_vector)
    requires
        o < 32,
        1 <= len <= 32,
        t < 32,
        len <= 32 - o ==> len < 32 || o == 0,
        w == ({
            let w0 = lo >> o;
            let w1 = if len > 32 - o { w0 | (hi << ((32 - o) as u32)) } else { w0 };
            if len < 32 { w1 & (0xffff_ffffu32 >> ((32 - len) as u32)) } else { w1 }
        }),
    ensures
        ((w >> t) & 1u32 == 1u32) == (t < len && if t + o < 32 {
            ((lo >> ((t + o) as u32)) & 1u32 == 1u32)
        } else {
            ((hi >> ((t + o - 32) as u32)) & 1u32 == 1u32)
        }),
{
}

/// The bits of byte `b` of a word.
proof fn lemma_byte_bits(w: u32, b: u32, j: u32, byte: u8)
    by (bit_vector)
    requires
        b < 4,
        j < 8,
        byte == (w >> (8 * b)) as u8,
    ensures
        ((byte >> (j as u8)) & 1u8 == 1u8) == ((w >> (8 * b + j)) & 1u32 == 1u32),
{
}

/// No bit of zero is set.
proof fn lemma_zero_byte(j: u8)
    by (bit_vector)
    requires
        j < 8,
    ensures
        (0u8 >> j) & 1u8 != 1u8,
{
}

/// The eFuse controller.
pub struct Efuse;

impl Efuse {
    /// Reads `size` bytes of the field, little-endian: byte `k` holds the
    /// field's bits `8k` to `8k + 7`, and bits past the field read as zero.
    pub fn read_field_le(regs: &EfuseRegs, field: EfuseField, size: usize) -> (r: Vec<u8>)
        requires
            field.bit_start / 32 < regs.words(field.block).len(),
            field.bit_start + bits_read(field.bit_count, size as int) <= 32 * regs.words(field.block).len(),
            field.bit_start + 8 * size + 32 <= usize::MAX,
        ensures
            reads_field(r@, regs.words(field.block), field.bit_start, field.bit_count, size as int),
    {
        let words: &Vec<u32> = match field.block {
            EfuseBlock::Block1 => &regs.block1,
        };
        let ghost ws = words@;
        let bit_off: usize = field.bit_start as usize;
        let total: usize = if (field.bit_count as usize) < size * 8 { field.bit_count as usize } else { size * 8 };
        let bit_end: usize = total + bit_off;
        let mut out: Vec<u8> = Vec::new();

        let mut last_word_off: usize = bit_off / 32;
        let mut last_word: u32 = words[last_word_off];
        let word_bit_off: usize = bit_off % 32;
        let word_bit_ext: usize = 32 - word_bit_off;
        let mut word_off: usize = last_word_off;
        let mut pos: usize = bit_off;
        while pos < bit_end
            invariant
                ws == words@,
                ws == regs.words(field.block),
                bit_off == field.bit_start,
                total == bits_read(field.bit_count, size as int),
                bit_end == total + bit_off,
                bit_end <= 32 * ws.len(),
                bit_end + 32 <= usize::MAX,
                word_bit_off == bit_off % 32,
                word_bit_ext == 32 - word_bit_off,
                bit_off <= pos,
                (pos - bit_off) % 32 == 0,
                pos < bit_end ==> pos + 32 <= usize::MAX,
                word_off == pos / 32,
                last_word_off <= word_off,
                last_word_off < ws.len(),
                last_word == ws[last_word_off as int],
                out.len() == ((if pos - bit_off < total { pos - bit_off } else { total as int }) + 7) / 8,
                forall|k: int, j: int| 0 <= k < out.len() && 0 <= j < 8 ==>
                    #[trigger] byte_bit(out@[k], j) == field_bit(ws, field.bit_start, field.bit_count, size as int, 8 * k + j),
            decreases bit_end + 32 - pos,
        {
            if word_off != last_word_off {
                last_word_off = word_off;
                last_word = words[last_word_off];
            }
            let lo = last_word;
            let mut word: u32 = last_word >> word_bit_off;
            word_off = word_off + 1;

            let word_bit_len: usize = if bit_end - pos < 32 { bit_end - pos } else { 32 };
            let ghost mut hi: u32 = 0;
            if word_bit_len > word_bit_ext {
                last_word_off = word_off;
                last_word = words[last_word_off];
                proof { hi = last_word; }
                word = word | (last_word << ((32 - word_bit_off) as u32));
            }
            if word_bit_len < 32 {
                word = word & (u32::MAX >> ((32 - word_bit_len) as u32));
            }

            let ghost c_start = pos - bit_off;
            let ghost base = out.len();
            proof {
                assert(base * 8 == c_start);
                assert forall|t: u32| t < 32 implies
                    (#[trigger] bit_of(word, t)) == ((t < word_bit_len) && block_bit(ws, pos + t)) by {
                    lemma_chunk_bits(lo, hi, word_bit_off as u32, word_bit_len as u32, t, word);
                    if t < word_bit_len {
                        if t + word_bit_off < 32 {
                            assert((pos + t) / 32 == pos / 32);
                            assert((pos + t) % 32 == t + word_bit_off);
                        } else {
                            assert((pos + t) / 32 == pos / 32 + 1);
                            assert((pos + t) % 32 == t + word_bit_off - 32);
                        }
                    }
                }
            }

            let byte_len: usize = (word_bit_len + 7) / 8;
            let mut b: usize = 0;
            while b < byte_len
                invariant
                    ws == words@,
                    1 <= word_bit_len <= 32,
                    byte_len == (word_bit_len + 7) / 8,
                    b <= byte_len,
                    out.len() == base + b,
                    base * 8 == c_start,
                    c_start == pos - bit_off,
                    bit_off == field.bit_start,
                    total == bits_read(field.bit_count, size as int),
                    bit_end == total + bit_off,
                    pos < bit_end,
                    word_bit_len == if bit_end - pos < 32 { bit_end - pos } else { 32 },
                    forall|t: u32| t < 32 ==> (#[trigger] bit_of(word, t)) == ((t < word_bit_len) && block_bit(ws, pos + t)),
                    forall|k: int, j: int| 0 <= k < out.len() && 0 <= j < 8 ==>
                        #[trigger] byte_bit(out@[k], j) == field_bit(ws, field.bit_start, field.bit_count, size as int, 8 * k + j),
                decreases byte_len - b,
            {
                let byte: u8 = #[verifier::truncate] ((word >> (8 * b as u32)) as u8);
                proof {
                    assert forall|j: int| 0 <= j < 8 implies
                        #[trigger] byte_bit(byte, j) == field_bit(ws, field.bit_start, field.bit_count, size as int, 8 * (base + b) + j) by {
                        lemma_byte_bits(word, b as u32, j as u32, byte);
                        assert(bit_of(word, (8 * b + j) as u32) == ((8 * b + j) < word_bit_len && block_bit(ws, pos + 8 * b + j)));
                    }
                }
                out.push(byte);
                b = b + 1;
            }
            pos = pos + 32;
        }

        proof {
            assert(out.len() == (total + 7) / 8);
        }
        while out.len() < size
            invariant
                out.len() <= size,
                out.len() * 8 >= total,
                total == bits_read(field.bit_count, size as int),
                forall|k: int, j: int| 0 <= k < out.len() && 0 <= j < 8 ==>
                    #[trigger] byte_bit(out@[k], j) == field_bit(ws, field.bit_start, field.bit_count, size as int, 8 * k + j),
            decreases size - out.len(),
        {
            proof {
                assert forall|j: int| 0 <= j < 8 implies !#[trigger] byte_bit(0u8, j) by {
                    lemma_zero_byte(j as u8);
                }
            }
            out.push(0u8);
        }
        out
    }

    /// Reads the chip's MAC address. It is stored big-endian: its first
    /// bytes are the high bytes of the fields.
    pub fn read_base_mac_address(regs: &EfuseRegs) -> (r: [u8; 6])
        requires
            regs.block1@.len() >= 2,
        ensures
            ({
                let ws = regs.block1@;
                forall|j: int| 0 <= j < 8 ==> {
                    &&& #[trigger] byte_bit(r[0], j) == block_bit(ws, 40 + j)
                    &&& byte_bit(r[1], j) == block_bit(ws, 32 + j)
                    &&& byte_bit(r[2], j) == block_bit(ws, 24 + j)
                    &&& byte_bit(r[3], j) == block_bit(ws, 16 + j)
                    &&& byte_bit(r[4], j) == block_bit(ws, 8 + j)
                    &&& byte_bit(r[5], j) == block_bit(ws, j)
                }
            }),
    {
        let mut mac_addr = [0u8; 6];
        let mac0 = Self::read_field_le(regs, mac0(), 4);
        let mac1 = Self::read_field_le(regs, mac1(), 2);
        mac_addr[0] = mac1[1];
        mac_addr[1] = mac1[0];
        mac_addr[2] = mac0[3];
        mac_addr[3] = mac0[2];
        mac_addr[4] = mac0[1];
        mac_addr[5] = mac0[0];
        proof {
            assert forall|j: int| 0 <= j < 8 implies {
                &&& #[trigger] byte_bit(mac_addr[0], j) == block_bit(regs.block1@, 40 + j)
                &&& byte_bit(mac_addr[1], j) == block_bit(regs.block1@, 32 + j)
                &&& byte_bit(mac_addr[2], j) == block_bit(regs.block1@, 24 + j)
                &&& byte_bit(mac_addr[3], j) == block_bit(regs.block1@, 16 + j)
                &&& byte_bit(mac_addr[4], j) == block_bit(regs.block1@, 8 + j)
                &&& byte_bit(mac_addr[5], j) == block_bit(regs.block1@, j)
            } by {
                let ws = regs.block1@;
                assert(byte_bit(mac1@[1], j) == field_bit(ws, 32, 16, 2, 8 + j));
                assert(byte_bit(mac1@[0], j) == field_bit(ws, 32, 16, 2, j));
                assert(byte_bit(mac0@[3], j) == field_bit(ws, 0, 32, 4, 24 + j));
                assert(byte_bit(mac0@[2], j) == field_bit(ws, 0, 32, 4, 16 + j));
                assert(byte_bit(mac0@[1], j) == field_bit(ws, 0, 32, 4, 8 + j));
                assert(byte_bit(mac0@[0], j) == field_bit(ws, 0, 32, 4, j));
            }
        }
        mac_addr
    }

    /// The MAC address: the one set to override it, if any, else the one
    /// in the eFuses.
    pub fn mac_address(regs: &EfuseRegs, mac_override: Option<[u8; 6]>) -> (r: [u8; 6])
        requires
            regs.block1@.len() >= 2,
        ensures
            mac_override is Some ==> r == mac_override->0,
            mac_override is None ==> forall|j: int| 0 <= j < 8 ==> {
                &&& #[trigger] byte_bit(r[0], j) == block_bit(regs.block1@, 40 + j)
                &&& byte_bit(r[1], j) == block_bit(regs.block1@, 32 + j)
                &&& byte_bit(r[2], j) == block_bit(regs.block1@, 24 + j)
                &&& byte_bit(r[3], j) == block_bit(regs.block1@, 16 + j)
                &&& byte_bit(r[4], j) == block_bit(regs.block1@, 8 + j)
                &&& byte_bit(r[5], j) == block_bit(regs.block1@, j)
            },
    {
        match mac_override {
            Some(mac) => mac,
            None => Self::read_base_mac_address(regs),
        }
    }
}

} // verus!
