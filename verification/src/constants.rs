//! The per-frame constant block and its wire layout.

use vstd::prelude::*;
use crate::scalar::Scalar;

verus! {

/// Number of 32-bit words in the packed block.
pub const WORD_COUNT: usize = 11;

/// Number of bytes in the packed block.
pub const SIZE_BYTES: u32 = 44;

/// The inputs of one frame, rebuilt from live state before every draw and
/// handed to the shader stages in band.
///
/// On the wire the block is eleven little-endian 32-bit words in field order;
/// each scalar travels as its bit pattern and each flag as a whole word that
/// is 1 when set and 0 when clear.
#[derive(Clone, Copy, Debug, PartialEq, Eq, Structural)]
pub struct ShaderConstants {
    pub width: u32,
    pub height: u32,
    pub time: Scalar,
    pub cursor_x: Scalar,
    pub cursor_y: Scalar,
    pub drag_start_x: Scalar,
    pub drag_start_y: Scalar,
    pub drag_end_x: Scalar,
    pub drag_end_y: Scalar,
    pub mouse_left_pressed: bool,
    pub mouse_left_clicked: bool,
}

/// Why a block cannot be transferred in band on a device.
#[derive(Clone, Copy, Debug, PartialEq, Eq, Structural)]
pub enum ConfigError {
    /// The device accepts fewer bytes in band than the block holds.
    PushConstantsExceedLimit { required: u32, limit: u32 },
}

/// The word that carries a flag.
pub open spec fn flag_word(flag: bool) -> u32 {
    if flag {
        1
    } else {
        0
    }
}

/// Byte `index` of `word`, counted from the least significant.
pub open spec fn le_byte(word: u32, index: int) -> u8 {
    if index == 0 {
        (word % 256) as u8
    } else if index == 1 {
        ((word / 0x100) % 256) as u8
    } else if index == 2 {
        ((word / 0x1_0000) % 256) as u8
    } else {
        (word / 0x100_0000) as u8
    }
}

/// The word whose four bytes, least significant first, are the arguments.
pub open spec fn le_word(b0: u8, b1: u8, b2: u8, b3: u8) -> u32 {
    (b0 + b1 * 0x100 + b2 * 0x1_0000 + b3 * 0x100_0000) as u32
}

/// The bytes of a sequence of words, each word least significant byte first.
pub open spec fn le_bytes(words: Seq<u32>) -> Seq<u8> {
    Seq::new(4 * words.len(), |i: int| le_byte(words[i / 4], i % 4))
}

impl ShaderConstants {
    /// The block as words, in wire order.
    pub open spec fn words(self) -> Seq<u32> {
        seq![
            self.width,
            self.height,
            self.time.bits,
            self.cursor_x.bits,
            self.cursor_y.bits,
            self.drag_start_x.bits,
            self.drag_start_y.bits,
            self.drag_end_x.bits,
            self.drag_end_y.bits,
            flag_word(self.mouse_left_pressed),
            flag_word(self.mouse_left_clicked),
        ]
    }

    /// The block as bytes, in wire order.
    pub open spec fn bytes(self) -> Seq<u8> {
        le_bytes(self.words())
    }

    /// Packs the block into the words that are uploaded at draw time.
    pub fn to_words(&self) -> (r: [u32; 11])
        ensures
            r@ == self.words(),
    {
        let pressed: u32 = if self.mouse_left_pressed { 1 } else { 0 };
        let clicked: u32 = if self.mouse_left_clicked { 1 } else { 0 };
        let r: [u32; 11] = [
            self.width,
            self.height,
            self.time.bits,
            self.cursor_x.bits,
            self.cursor_y.bits,
            self.drag_start_x.bits,
            self.drag_start_y.bits,
            self.drag_end_x.bits,
            self.drag_end_y.bits,
            pressed,
            clicked,
        ];
        assert(r@ =~= self.words());
        r
    }

    /// Reads a block back from its words. Succeeds on exactly the word
    /// sequences that `to_words` produces: eleven words, the last two each
    /// 0 or 1.
    pub fn from_words(words: &[u32]) -> (r: Option<ShaderConstants>)
        ensures
            match r {
                Some(c) => c.words() == words@,
                None => forall|c: ShaderConstants| c.words() != words@,
            },
    {
        if words.len() != 11 || words[9] > 1 || words[10] > 1 {
            assert forall|c: ShaderConstants| c.words() != words@ by {
                if c.words() == words@ {
                    assert(c.words().len() == 11);
                    assert(c.words()[9] == words@[9]);
                    assert(c.words()[10] == words@[10]);
                }
            }
            return None;
        }
        let c = ShaderConstants {
            width: words[0],
            height: words[1],
            time: Scalar { bits: words[2] },
            cursor_x: Scalar { bits: words[3] },
            cursor_y: Scalar { bits: words[4] },
            drag_start_x: Scalar { bits: words[5] },
            drag_start_y: Scalar { bits: words[6] },
            drag_end_x: Scalar { bits: words[7] },
            drag_end_y: Scalar { bits: words[8] },
            mouse_left_pressed: words[9] == 1,
            mouse_left_clicked: words[10] == 1,
        };
        assert(c.words() =~= words@);
        Some(c)
    }

    /// Packs the block into its forty-four bytes.
    pub fn to_bytes(&self) -> (r: Vec<u8>)
        ensures
            r@ == self.bytes(),
    {
        let words = self.to_words();
        let mut out: Vec<u8> = Vec::new();
        let mut i: usize = 0;
        while i < 11
            invariant
                i <= 11,
                words@ == self.words(),
                out@.len() == 4 * i,
                forall|k: int| 0 <= k < 4 * i ==> out@[k] == le_byte(words@[k / 4], k % 4),
            decreases 11 - i,
        {
            let w: u32 = words[i];
            out.push((w % 256) as u8);
            out.push(((w / 0x100) % 256) as u8);
            out.push(((w / 0x1_0000) % 256) as u8);
            out.push((w / 0x100_0000) as u8);
            i = i + 1;
        }
        assert(out@ =~= self.bytes());
        out
    }

    /// Reads a block back from its bytes. Succeeds on exactly the byte
    /// sequences that `to_bytes` produces.
    pub fn from_bytes(bytes: &[u8]) -> (r: Option<ShaderConstants>)
        ensures
            match r {
                Some(c) => c.bytes() == bytes@,
                None => forall|c: ShaderConstants| c.bytes() != bytes@,
            },
    {
        if bytes.len() != 44 {
            assert forall|c: ShaderConstants| c.bytes() != bytes@ by {
                assert(c.bytes().len() == 44);
            }
            return None;
        }
        let mut words: [u32; 11] = [0; 11];
        let mut i: usize = 0;
        while i < 11
            invariant
                i <= 11,
                bytes@.len() == 44,
                forall|k: int|
                    0 <= k < i ==> words@[k] == le_word(
                        bytes@[4 * k],
                        bytes@[4 * k + 1],
                        bytes@[4 * k + 2],
                        bytes@[4 * k + 3],
                    ),
            decreases 11 - i,
        {
            let b0: u32 = bytes[4 * i] as u32;
            let b1: u32 = bytes[4 * i + 1] as u32;
            let b2: u32 = bytes[4 * i + 2] as u32;
            let b3: u32 = bytes[4 * i + 3] as u32;
            words[i] = b0 + b1 * 0x100 + b2 * 0x1_0000 + b3 * 0x100_0000;
            i = i + 1;
        }
        proof {
            lemma_le_bytes_of_words(words@, bytes@);
        }
        let r = ShaderConstants::from_words(words.as_slice());
        proof {
            match r {
                Some(c) => {},
                None => {
                    assert forall|c: ShaderConstants| c.bytes() != bytes@ by {
                        if c.bytes() == bytes@ {
                            lemma_le_bytes_injective(c.words(), words@);
                        }
                    }
                },
            }
        }
        r
    }

    /// Whether a device that accepts `limit` bytes in band can take the
    /// block. To be asked once, when the pipeline is set up.
    pub fn check_push_constant_limit(limit: u32) -> (r: Result<(), ConfigError>)
        ensures
            r is Ok <==> SIZE_BYTES <= limit,
            r is Err ==> r == Err::<(), ConfigError>(
                ConfigError::PushConstantsExceedLimit { required: SIZE_BYTES, limit },
            ),
    {
        if SIZE_BYTES <= limit {
            Ok(())
        } else {
            Err(ConfigError::PushConstantsExceedLimit { required: SIZE_BYTES, limit })
        }
    }
}

/// No two blocks share their words: unpacking what was packed gives the
/// block back.
pub proof fn lemma_words_injective(a: ShaderConstants, b: ShaderConstants)
    requires
        a.words() == b.words(),
    ensures
        a == b,
{
    assert(a.words()[0] == b.words()[0]);
    assert(a.words()[1] == b.words()[1]);
    assert(a.words()[2] == b.words()[2]);
    assert(a.words()[3] == b.words()[3]);
    assert(a.words()[4] == b.words()[4]);
    assert(a.words()[5] == b.words()[5]);
    assert(a.words()[6] == b.words()[6]);
    assert(a.words()[7] == b.words()[7]);
    assert(a.words()[8] == b.words()[8]);
    assert(a.words()[9] == b.words()[9]);
    assert(a.words()[10] == b.words()[10]);
}

/// No two blocks share their bytes, and every block has exactly
/// `SIZE_BYTES` of them.
pub proof fn lemma_bytes_injective(a: ShaderConstants, b: ShaderConstants)
    ensures
        a.bytes().len() == SIZE_BYTES,
        a.words().len() == WORD_COUNT,
        a.bytes() == b.bytes() ==> a == b,
{
    if a.bytes() == b.bytes() {
        lemma_le_bytes_injective(a.words(), b.words());
        lemma_words_injective(a, b);
    }
}

/// A word is the word of its own four bytes.
pub proof fn lemma_le_word_of_bytes(word: u32)
    ensures
        le_word(le_byte(word, 0), le_byte(word, 1), le_byte(word, 2), le_byte(word, 3)) == word,
{
}

/// The four bytes of the word built from four bytes are those bytes.
pub proof fn lemma_le_bytes_of_word(b0: u8, b1: u8, b2: u8, b3: u8)
    ensures
        le_byte(le_word(b0, b1, b2, b3), 0) == b0,
        le_byte(le_word(b0, b1, b2, b3), 1) == b1,
        le_byte(le_word(b0, b1, b2, b3), 2) == b2,
        le_byte(le_word(b0, b1, b2, b3), 3) == b3,
{
}

/// Words assembled four bytes at a time spell those bytes.
proof fn lemma_le_bytes_of_words(words: Seq<u32>, bytes: Seq<u8>)
    requires
        bytes.len() == 4 * words.len(),
        forall|k: int|
            0 <= k < words.len() ==> words[k] == le_word(
                bytes[4 * k],
                bytes[4 * k + 1],
                bytes[4 * k + 2],
                bytes[4 * k + 3],
            ),
    ensures
        le_bytes(words) == bytes,
{
    assert forall|i: int| 0 <= i < bytes.len() implies le_bytes(words)[i] == bytes[i] by {
        let k = i / 4;
        lemma_le_bytes_of_word(bytes[4 * k], bytes[4 * k + 1], bytes[4 * k + 2], bytes[4 * k + 3]);
    }
    assert(le_bytes(words) =~= bytes);
}

/// Two word sequences with the same bytes are the same sequence.
pub proof fn lemma_le_bytes_injective(a: Seq<u32>, b: Seq<u32>)
    requires
        le_bytes(a) == le_bytes(b),
    ensures
        a == b,
{
    assert(le_bytes(a).len() == 4 * a.len());
    assert(le_bytes(b).len() == 4 * b.len());
    assert forall|k: int| 0 <= k < a.len() implies a[k] == b[k] by {
        lemma_le_word_of_bytes(a[k]);
        lemma_le_word_of_bytes(b[k]);
        assert(le_bytes(a)[4 * k] == le_byte(a[k], 0));
        assert(le_bytes(a)[4 * k + 1] == le_byte(a[k], 1));
        assert(le_bytes(a)[4 * k + 2] == le_byte(a[k], 2));
        assert(le_bytes(a)[4 * k + 3] == le_byte(a[k], 3));
        assert(le_bytes(b)[4 * k] == le_byte(b[k], 0));
        assert(le_bytes(b)[4 * k + 1] == le_byte(b[k], 1));
        assert(le_bytes(b)[4 * k + 2] == le_byte(b[k], 2));
        assert(le_bytes(b)[4 * k + 3] == le_byte(b[k], 3));
    }
    assert(a =~= b);
}

} // verus!
