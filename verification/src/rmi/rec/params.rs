//! The parameter block with which the host seeds the registers of a new
//! execution context.
//!
//! The block is one granule of host memory. Its fields are little-endian
//! 64-bit words at fixed offsets; every other byte is reserved and zero in a
//! block that the monitor writes. The host is not trusted: a block that is
//! read back may hold anything, in its fields as in its reserved bytes.

use crate::granule::GRANULE_SIZE;
use vstd::prelude::*;

verus! {

/// Where `flags` starts in the block.
pub const FLAGS_OFFSET: usize = 0x0;

/// Where `mpidr` starts in the block.
pub const MPIDR_OFFSET: usize = 0x100;

/// Where `pc` starts in the block.
pub const PC_OFFSET: usize = 0x200;

/// Where `gprs` starts in the block.
pub const GPRS_OFFSET: usize = 0x300;

/// Where `num_aux` starts in the block.
pub const NUM_AUX_OFFSET: usize = 0x800;

/// Where `aux` starts in the block.
pub const AUX_OFFSET: usize = 0x808;

/// How many general-purpose registers the block seeds.
pub const GPRS: usize = 8;

/// How many auxiliary granules the block can name.
pub const AUX: usize = 16;

/// The parameters of a new execution context.
pub struct Params {
    pub flags: u64,
    /// The identity of the virtual CPU.
    pub mpidr: u64,
    /// Where the virtual CPU starts to execute.
    pub pc: u64,
    /// The first general-purpose registers.
    pub gprs: [u64; 8],
    /// How many entries of `aux` are meant.
    pub num_aux: u64,
    /// The addresses of the auxiliary granules.
    pub aux: [u64; 16],
}

/// Byte `i` of a word, counted from its low end.
pub open spec fn byte_of(word: u64, i: int) -> u8 {
    ((word >> ((8 * i) as u64)) & 0xff) as u8
}

/// The eight bytes of a word, lowest first.
pub open spec fn word_bytes(word: u64) -> Seq<u8> {
    Seq::new(8, |i: int| byte_of(word, i))
}

/// The word that eight bytes stand for, lowest byte first.
pub open spec fn word_of(bytes: Seq<u8>) -> u64 {
    (bytes[0] as u64) | (bytes[1] as u64) << 8 | (bytes[2] as u64) << 16 | (bytes[3] as u64) << 24
        | (bytes[4] as u64) << 32 | (bytes[5] as u64) << 40 | (bytes[6] as u64) << 48 | (
    bytes[7] as u64) << 56
}

/// The word that starts at offset `at` of an image.
pub open spec fn word_at(image: Seq<u8>, at: int) -> u64 {
    word_of(image.subrange(at, at + 8))
}

impl Params {
    /// Byte `i` of the block that holds these parameters.
    pub open spec fn image_byte(self, i: int) -> u8 {
        if FLAGS_OFFSET <= i < FLAGS_OFFSET + 8 {
            byte_of(self.flags, i - FLAGS_OFFSET)
        } else if MPIDR_OFFSET <= i < MPIDR_OFFSET + 8 {
            byte_of(self.mpidr, i - MPIDR_OFFSET)
        } else if PC_OFFSET <= i < PC_OFFSET + 8 {
            byte_of(self.pc, i - PC_OFFSET)
        } else if GPRS_OFFSET <= i < GPRS_OFFSET + 8 * GPRS {
            byte_of(self.gprs[(i - GPRS_OFFSET) / 8], (i - GPRS_OFFSET) % 8)
        } else if NUM_AUX_OFFSET <= i < NUM_AUX_OFFSET + 8 {
            byte_of(self.num_aux, i - NUM_AUX_OFFSET)
        } else if AUX_OFFSET <= i < AUX_OFFSET + 8 * AUX {
            byte_of(self.aux[(i - AUX_OFFSET) / 8], (i - AUX_OFFSET) % 8)
        } else {
            0
        }
    }

    /// The block that holds these parameters: one granule.
    pub open spec fn image(self) -> Seq<u8> {
        Seq::new(GRANULE_SIZE as nat, |i: int| self.image_byte(i))
    }

    /// These are the parameters that the block `image` holds.
    pub open spec fn read_from(self, image: Seq<u8>) -> bool {
        &&& self.flags == word_at(image, FLAGS_OFFSET as int)
        &&& self.mpidr == word_at(image, MPIDR_OFFSET as int)
        &&& self.pc == word_at(image, PC_OFFSET as int)
        &&& forall|k: int| 0 <= k < GPRS ==> self.gprs[k] == word_at(image, GPRS_OFFSET + 8 * k)
        &&& self.num_aux == word_at(image, NUM_AUX_OFFSET as int)
        &&& forall|k: int| 0 <= k < AUX ==> self.aux[k] == word_at(image, AUX_OFFSET + 8 * k)
    }

    /// Every field is zero.
    pub open spec fn is_zero(self) -> bool {
        &&& self.flags == 0
        &&& self.mpidr == 0
        &&& self.pc == 0
        &&& forall|k: int| 0 <= k < GPRS ==> self.gprs[k] == 0
        &&& self.num_aux == 0
        &&& forall|k: int| 0 <= k < AUX ==> self.aux[k] == 0
    }
}

impl Default for Params {
    /// The parameters whose block is all zero.
    fn default() -> (params: Params)
        ensures
            params.is_zero(),
    {
        Params { flags: 0, mpidr: 0, pc: 0, gprs: [0;8], num_aux: 0, aux: [0;16] }
    }
}

/// Byte `i` of a word.
fn byte_at(word: u64, i: usize) -> (byte: u8)
    requires
        i < 8,
    ensures
        byte == byte_of(word, i as int),
{
    let shift: u64 = 8 * (i as u64);
    let byte = (word >> shift) & 0xff;
    assert(byte < 256) by (bit_vector)
        requires
            byte == (word >> shift) & 0xff,
    ;
    byte as u8
}

/// The word at offset `at` of an image.
fn read_word(image: &[u8], at: usize) -> (word: u64)
    requires
        at + 8 <= image@.len(),
    ensures
        word == word_at(image@, at as int),
{
    (image[at] as u64) | (image[at + 1] as u64) << 8 | (image[at + 2] as u64) << 16 | (image[at
        + 3] as u64) << 24 | (image[at + 4] as u64) << 32 | (image[at + 5] as u64) << 40 | (
    image[at + 6] as u64) << 48 | (image[at + 7] as u64) << 56
}

impl Params {
    /// Byte `i` of the block.
    fn byte(&self, i: usize) -> (byte: u8)
        requires
            i < GRANULE_SIZE,
        ensures
            byte == self.image_byte(i as int),
    {
        if i < FLAGS_OFFSET + 8 {
            byte_at(self.flags, i - FLAGS_OFFSET)
        } else if MPIDR_OFFSET <= i && i < MPIDR_OFFSET + 8 {
            byte_at(self.mpidr, i - MPIDR_OFFSET)
        } else if PC_OFFSET <= i && i < PC_OFFSET + 8 {
            byte_at(self.pc, i - PC_OFFSET)
        } else if GPRS_OFFSET <= i && i < GPRS_OFFSET + 8 * GPRS {
            byte_at(self.gprs[(i - GPRS_OFFSET) / 8], (i - GPRS_OFFSET) % 8)
        } else if NUM_AUX_OFFSET <= i && i < NUM_AUX_OFFSET + 8 {
            byte_at(self.num_aux, i - NUM_AUX_OFFSET)
        } else if AUX_OFFSET <= i && i < AUX_OFFSET + 8 * AUX {
            byte_at(self.aux[(i - AUX_OFFSET) / 8], (i - AUX_OFFSET) % 8)
        } else {
            0
        }
    }

    /// Writes the block: each field at its offset, lowest byte first, and
    /// zero in every reserved byte.
    pub fn to_bytes(&self) -> (image: Vec<u8>)
        ensures
            image@ == self.image(),
    {
        let mut image: Vec<u8> = Vec::new();
        while image.len() < GRANULE_SIZE
            invariant
                image@.len() <= GRANULE_SIZE,
                forall|i: int| 0 <= i < image@.len() ==> image@[i] == self.image_byte(i),
            decreases GRANULE_SIZE - image@.len(),
        {
            let byte = self.byte(image.len());
            image.push(byte);
        }
        image
    }

    /// Reads a block. Anything but one granule is refused; of a granule
    /// every field is taken as it stands and the reserved bytes are ignored.
    pub fn from_bytes(image: &[u8]) -> (params: Option<Params>)
        ensures
            params is Some <==> image@.len() == GRANULE_SIZE,
            params matches Some(p) ==> p.read_from(image@),
    {
        if image.len() != GRANULE_SIZE {
            return None;
        }
        let mut gprs = [0u64;8];
        let mut k: usize = 0;
        while k < GPRS
            invariant
                k <= GPRS,
                image@.len() == GRANULE_SIZE,
                forall|j: int| 0 <= j < k ==> gprs[j] == word_at(image@, GPRS_OFFSET + 8 * j),
            decreases GPRS - k,
        {
            gprs[k] = read_word(image, GPRS_OFFSET + 8 * k);
            k += 1;
        }
        let mut aux = [0u64;16];
        let mut k: usize = 0;
        while k < AUX
            invariant
                k <= AUX,
                image@.len() == GRANULE_SIZE,
                forall|j: int| 0 <= j < k ==> aux[j] == word_at(image@, AUX_OFFSET + 8 * j),
            decreases AUX - k,
        {
            aux[k] = read_word(image, AUX_OFFSET + 8 * k);
            k += 1;
        }
        Some(
            Params {
                flags: read_word(image, FLAGS_OFFSET),
                mpidr: read_word(image, MPIDR_OFFSET),
                pc: read_word(image, PC_OFFSET),
                gprs,
                num_aux: read_word(image, NUM_AUX_OFFSET),
                aux,
            },
        )
    }
}

/// The character of one digit, for digits below sixteen; letters are upper
/// case.
pub open spec fn digit(d: int) -> Seq<char> {
    if d == 0 {
        "0"@
    } else if d == 1 {
        "1"@
    } else if d == 2 {
        "2"@
    } else if d == 3 {
        "3"@
    } else if d == 4 {
        "4"@
    } else if d == 5 {
        "5"@
    } else if d == 6 {
        "6"@
    } else if d == 7 {
        "7"@
    } else if d == 8 {
        "8"@
    } else if d == 9 {
        "9"@
    } else if d == 10 {
        "A"@
    } else if d == 11 {
        "B"@
    } else if d == 12 {
        "C"@
    } else if d == 13 {
        "D"@
    } else if d == 14 {
        "E"@
    } else {
        "F"@
    }
}

/// A number in hexadecimal, without leading zeros and without a prefix.
pub open spec fn upper_hex(v: nat) -> Seq<char>
    decreases v,
{
    if v < 16 {
        digit(v as int)
    } else {
        upper_hex(v / 16) + digit((v % 16) as int)
    }
}

/// A number in decimal, without leading zeros.
pub open spec fn decimal(v: nat) -> Seq<char>
    decreases v,
{
    if v < 10 {
        digit(v as int)
    } else {
        decimal(v / 10) + digit((v % 10) as int)
    }
}

/// Words in hexadecimal, one to a line: each indented by four spaces, with
/// its prefix and a comma.
pub open spec fn hex_lines(words: Seq<u64>) -> Seq<char>
    decreases words.len(),
{
    if words.len() == 0 {
        Seq::empty()
    } else {
        hex_lines(words.drop_last()) + "    0x"@ + upper_hex(words.last() as nat) + ",\n"@
    }
}

/// Words in decimal on one line, with a comma and a space between them.
pub open spec fn decimal_list(words: Seq<u64>) -> Seq<char>
    decreases words.len(),
{
    if words.len() == 0 {
        Seq::empty()
    } else if words.len() == 1 {
        decimal(words[0] as nat)
    } else {
        decimal_list(words.drop_last()) + ", "@ + decimal(words.last() as nat)
    }
}

impl Params {
    /// The parameters as text, for diagnostics: registers and flags in
    /// hexadecimal, the general-purpose registers one to a line, counts and
    /// auxiliary granules in decimal.
    pub open spec fn debug_text(self) -> Seq<char> {
        "Params { flags: 0x"@ + upper_hex(self.flags as nat) + ", mpidr: 0x"@ + upper_hex(
            self.mpidr as nat,
        ) + ", pc: 0x"@ + upper_hex(self.pc as nat) + ", gprs: [\n"@ + hex_lines(self.gprs@)
            + "], num_aux: "@ + decimal(self.num_aux as nat) + ", aux: ["@ + decimal_list(
            self.aux@,
        ) + "] }"@
    }

    /// Renders [`Params::debug_text`].
    pub fn debug_string(&self) -> (text: String)
        ensures
            text@ == self.debug_text(),
    {
        let mut text = String::from_str("Params { flags: 0x");
        push_upper_hex(&mut text, self.flags);
        text.append(", mpidr: 0x");
        push_upper_hex(&mut text, self.mpidr);
        text.append(", pc: 0x");
        push_upper_hex(&mut text, self.pc);
        text.append(", gprs: [\n");
        let ghost head = text@;
        let mut k: usize = 0;
        while k < GPRS
            invariant
                k <= GPRS,
                text@ == head + hex_lines(self.gprs@.subrange(0, k as int)),
            decreases GPRS - k,
        {
            text.append("    0x");
            push_upper_hex(&mut text, self.gprs[k]);
            text.append(",\n");
            assert(self.gprs@.subrange(0, k + 1).drop_last() =~= self.gprs@.subrange(0, k as int));
            k += 1;
        }
        assert(self.gprs@.subrange(0, GPRS as int) =~= self.gprs@);
        text.append("], num_aux: ");
        push_decimal(&mut text, self.num_aux);
        text.append(", aux: [");
        let ghost head = text@;
        let mut k: usize = 0;
        while k < AUX
            invariant
                k <= AUX,
                text@ == head + decimal_list(self.aux@.subrange(0, k as int)),
            decreases AUX - k,
        {
            if k > 0 {
                text.append(", ");
            }
            push_decimal(&mut text, self.aux[k]);
            assert(self.aux@.subrange(0, k + 1).drop_last() =~= self.aux@.subrange(0, k as int));
            k += 1;
        }
        assert(self.aux@.subrange(0, AUX as int) =~= self.aux@);
        text.append("] }");
        text
    }
}

/// The text of one digit.
fn digit_str(d: u64) -> (text: &'static str)
    requires
        d < 16,
    ensures
        text@ == digit(d as int),
{
    match d {
        0 => "0",
        1 => "1",
        2 => "2",
        3 => "3",
        4 => "4",
        5 => "5",
        6 => "6",
        7 => "7",
        8 => "8",
        9 => "9",
        10 => "A",
        11 => "B",
        12 => "C",
        13 => "D",
        14 => "E",
        _ => "F",
    }
}

/// Appends a number in hexadecimal.
fn push_upper_hex(text: &mut String, v: u64)
    ensures
        final(text)@ == old(text)@ + upper_hex(v as nat),
    decreases v,
{
    if v >= 16 {
        push_upper_hex(text, v / 16);
    }
    text.append(digit_str(v % 16));
}

/// Appends a number in decimal.
fn push_decimal(text: &mut String, v: u64)
    ensures
        final(text)@ == old(text)@ + decimal(v as nat),
    decreases v,
{
    if v >= 10 {
        push_decimal(text, v / 10);
    }
    text.append(digit_str(v % 10));
}

/// The bytes of a word stand for that word.
pub proof fn lemma_word_round_trip(word: u64)
    ensures
        word_bytes(word).len() == 8,
        word_of(word_bytes(word)) == word,
{
    let bytes = word_bytes(word);
    assert forall|i: int| 0 <= i < 8 implies #[trigger] bytes[i] as u64 == (word >> ((8 * i) as u64))
        & 0xff by {
        let shift = (8 * i) as u64;
        let low = (word >> shift) & 0xff;
        assert(low < 256) by (bit_vector)
            requires
                low == (word >> shift) & 0xff,
        ;
    }
    assert(((word >> 0) & 0xff) | ((word >> 8) & 0xff) << 8 | ((word >> 16) & 0xff) << 16 | ((word
        >> 24) & 0xff) << 24 | ((word >> 32) & 0xff) << 32 | ((word >> 40) & 0xff) << 40 | ((word
        >> 48) & 0xff) << 48 | ((word >> 56) & 0xff) << 56 == word) by (bit_vector);
}

/// The layout of the block: it is one granule of 4096 bytes; `flags` is at
/// 0x000, `mpidr` at 0x100, `pc` at 0x200, the eight `gprs` from 0x300,
/// `num_aux` at 0x800 and the sixteen `aux` from 0x808, each word lowest
/// byte first; every other byte is zero.
pub proof fn lemma_layout(params: Params)
    ensures
        GRANULE_SIZE == 4096,
        params.image().len() == 4096,
        params.image().subrange(0x000, 0x008) == word_bytes(params.flags),
        params.image().subrange(0x100, 0x108) == word_bytes(params.mpidr),
        params.image().subrange(0x200, 0x208) == word_bytes(params.pc),
        forall|k: int|
            0 <= k < 8 ==> #[trigger] params.image().subrange(0x300 + 8 * k, 0x308 + 8 * k)
                == word_bytes(params.gprs[k]),
        params.image().subrange(0x800, 0x808) == word_bytes(params.num_aux),
        forall|k: int|
            0 <= k < 16 ==> #[trigger] params.image().subrange(0x808 + 8 * k, 0x810 + 8 * k)
                == word_bytes(params.aux[k]),
        forall|i: int|
            (0x008 <= i < 0x100 || 0x108 <= i < 0x200 || 0x208 <= i < 0x300 || 0x340 <= i < 0x800
                || 0x888 <= i < 0x1000) ==> #[trigger] params.image()[i] == 0,
{
}

/// The block of parameters that are all zero is all zero.
pub proof fn lemma_zero_image(params: Params)
    requires
        params.is_zero(),
    ensures
        params.image() == Seq::new(GRANULE_SIZE as nat, |i: int| 0u8),
{
    assert forall|i: int| 0 <= i < 8 implies #[trigger] byte_of(0, i) == 0 by {
        let shift = (8 * i) as u64;
        assert((0u64 >> shift) & 0xff == 0) by (bit_vector);
    }
}

/// Reading the block that was written for some parameters gives those
/// parameters back.
pub proof fn lemma_image_round_trip(written: Params, read: Params)
    requires
        read.read_from(written.image()),
    ensures
        read == written,
{
    lemma_layout(written);
    lemma_word_round_trip(written.flags);
    lemma_word_round_trip(written.mpidr);
    lemma_word_round_trip(written.pc);
    lemma_word_round_trip(written.num_aux);
    assert forall|k: int| 0 <= k < 8 implies read.gprs[k] == written.gprs[k] by {
        lemma_word_round_trip(written.gprs[k]);
    }
    assert forall|k: int| 0 <= k < 16 implies read.aux[k] == written.aux[k] by {
        lemma_word_round_trip(written.aux[k]);
    }
    assert(read.gprs =~= written.gprs);
    assert(read.aux =~= written.aux);
}

} // verus!
