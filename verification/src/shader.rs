//! The two shaders of the GPU path, assembled by hand into SPIR-V words.
//!
//! SPIR-V is a stream of 32-bit words. Every instruction starts with a word
//! whose high half is the instruction's total word count and whose low half is
//! its opcode; one wrong count shifts the reading of every later instruction.
//! [`SpirvBuilder`] is a tiny assembler that hands out result ids and counts the
//! words of each instruction itself; the operands are still written by hand.
//!
//! The central property proved here is the one that count exists for: the words
//! a builder produces always split exactly into instructions, from the end of
//! the five-word header to the last word of the module. Beyond it, each of the
//! two shaders is stated word for word: its contract gives the whole module as
//! a sequence of instructions, section by section, in the order the logical
//! layout of SPIR-V asks for.

use vstd::prelude::*;
use vstd::string::StringSliceAdditionalSpecFns;

verus! {

/// The SPIR-V magic number, first word of every module.
pub const SPIRV_MAGIC: u32 = 0x0723_0203;

/// SPIR-V 1.0: major version in the third byte, minor in the second.
pub const SPIRV_VERSION_1_0: u32 = 0x0001_0000;

/// Words in the module header: magic, version, generator, bound, reserved.
pub const SPIRV_HEADER_WORDS: usize = 5;

pub const OP_EXT_INST_IMPORT: u32 = 11;
pub const OP_EXT_INST: u32 = 12;
pub const OP_MEMORY_MODEL: u32 = 14;
pub const OP_ENTRY_POINT: u32 = 15;
pub const OP_EXECUTION_MODE: u32 = 16;
pub const OP_CAPABILITY: u32 = 17;
pub const OP_TYPE_VOID: u32 = 19;
pub const OP_TYPE_INT: u32 = 21;
pub const OP_TYPE_FLOAT: u32 = 22;
pub const OP_TYPE_VECTOR: u32 = 23;
pub const OP_TYPE_IMAGE: u32 = 25;
pub const OP_TYPE_SAMPLED_IMAGE: u32 = 27;
pub const OP_TYPE_STRUCT: u32 = 30;
pub const OP_TYPE_POINTER: u32 = 32;
pub const OP_TYPE_FUNCTION: u32 = 33;
pub const OP_CONSTANT: u32 = 43;
pub const OP_CONSTANT_COMPOSITE: u32 = 44;
pub const OP_FUNCTION: u32 = 54;
pub const OP_FUNCTION_END: u32 = 56;
pub const OP_VARIABLE: u32 = 59;
pub const OP_LOAD: u32 = 61;
pub const OP_STORE: u32 = 62;
pub const OP_ACCESS_CHAIN: u32 = 65;
pub const OP_DECORATE: u32 = 71;
pub const OP_MEMBER_DECORATE: u32 = 72;
pub const OP_COMPOSITE_CONSTRUCT: u32 = 80;
pub const OP_COMPOSITE_EXTRACT: u32 = 81;
/// Texel fetch from an `OpTypeSampledImage` without an explicit level of detail.
pub const OP_IMAGE_SAMPLE_IMPLICIT_LOD: u32 = 87;
pub const OP_FADD: u32 = 129;
pub const OP_FMUL: u32 = 133;
/// The dot product is plain arithmetic and has its own core opcode.
pub const OP_DOT: u32 = 148;
pub const OP_LABEL: u32 = 248;
pub const OP_RETURN: u32 = 253;

/// Instruction numbers inside the GLSL.std.450 set: the fourth operand of
/// `OpExtInst`, not SPIR-V opcodes.
pub const GLSL_STD_450_FMAX: u32 = 40;
pub const GLSL_STD_450_NORMALIZE: u32 = 69;

pub const CAPABILITY_SHADER: u32 = 1;
pub const ADDRESSING_MODEL_LOGICAL: u32 = 0;
pub const MEMORY_MODEL_GLSL450: u32 = 1;
pub const EXECUTION_MODEL_VERTEX: u32 = 0;
pub const EXECUTION_MODEL_FRAGMENT: u32 = 4;
pub const EXECUTION_MODE_ORIGIN_UPPER_LEFT: u32 = 7;
pub const DECORATION_BLOCK: u32 = 2;
pub const DECORATION_BUILTIN: u32 = 11;
pub const DECORATION_LOCATION: u32 = 30;
pub const DECORATION_BINDING: u32 = 33;
pub const DECORATION_DESCRIPTOR_SET: u32 = 34;
pub const DECORATION_OFFSET: u32 = 35;
pub const BUILTIN_POSITION: u32 = 0;
pub const STORAGE_CLASS_UNIFORM_CONSTANT: u32 = 0;
pub const STORAGE_CLASS_INPUT: u32 = 1;
pub const STORAGE_CLASS_OUTPUT: u32 = 3;
pub const STORAGE_CLASS_PUSH_CONSTANT: u32 = 9;
pub const FUNCTION_CONTROL_NONE: u32 = 0;

// Operands of `OpTypeImage`: a plain 2D image read through a sampler.
pub const DIM_2D: u32 = 1;
pub const IMAGE_DEPTH_NO: u32 = 0;
pub const IMAGE_NOT_ARRAYED: u32 = 0;
pub const IMAGE_SINGLE_SAMPLED: u32 = 0;
/// "Known at compile time to be used with a sampler", that is wrapped in an
/// `OpTypeSampledImage` rather than read as a storage image.
pub const IMAGE_SAMPLED_WITH_SAMPLER: u32 = 1;
pub const IMAGE_FORMAT_UNKNOWN: u32 = 0;

/// The name "main" as a string operand: its four bytes, little-endian, and
/// the zero word that terminates it.
pub const MAIN_NAME_WORD: u32 = 0x6E69_616D;

/// "GLSL.std.450" as a string operand: twelve bytes in three words, and a
/// terminating zero word after them.
pub const GLSL_NAME_WORD_0: u32 = 0x4C53_4C47;
pub const GLSL_NAME_WORD_1: u32 = 0x6474_732E;
pub const GLSL_NAME_WORD_2: u32 = 0x3035_342E;

/// IEEE-754 single-precision bit patterns of the literal constants the shaders
/// use: 1.0, 0.0 and the green channel 0.55 of the base colour.
pub const FLOAT_ONE_BITS: u32 = 0x3F80_0000;
pub const FLOAT_ZERO_BITS: u32 = 0;
pub const BASE_GREEN_BITS: u32 = 0x3F0C_CCCD;

/// The word count an instruction header announces.
pub open spec fn spec_word_count(header: u32) -> int {
    (header >> 16u32) as int
}

/// The header word of an instruction with `operand_count` operands.
pub open spec fn spec_instruction_header(opcode: u32, operand_count: nat) -> u32 {
    (((1 + operand_count) as u32) << 16u32) | opcode
}

/// `words` splits exactly into instructions: each header announces at least
/// one word, never runs past the end, and the next instruction starts right
/// after it.
pub open spec fn is_instruction_stream(words: Seq<u32>) -> bool
    decreases words.len(),
{
    if words.len() == 0 {
        true
    } else if 1 <= spec_word_count(words[0]) <= words.len() {
        is_instruction_stream(words.subrange(spec_word_count(words[0]), words.len() as int))
    } else {
        false
    }
}

/// A complete module: the fixed header fields and a well-formed instruction
/// stream after them.
pub open spec fn is_spirv_module(words: Seq<u32>) -> bool {
    &&& words.len() >= SPIRV_HEADER_WORDS
    &&& words[0] == SPIRV_MAGIC
    &&& words[1] == SPIRV_VERSION_1_0
    &&& words[2] == 0
    &&& words[4] == 0
    &&& is_instruction_stream(words.subrange(SPIRV_HEADER_WORDS as int, words.len() as int))
}

/// Two well-formed instruction streams laid end to end form one.
pub proof fn lemma_stream_concat(a: Seq<u32>, b: Seq<u32>)
    requires
        is_instruction_stream(a),
        is_instruction_stream(b),
    ensures
        is_instruction_stream(a + b),
    decreases a.len(),
{
    if a.len() == 0 {
        assert(a + b =~= b);
    } else {
        let n = spec_word_count(a[0]);
        let rest = a.subrange(n, a.len() as int);
        lemma_stream_concat(rest, b);
        assert((a + b)[0] == a[0]);
        assert((a + b).subrange(n, (a + b).len() as int) =~= rest + b);
    }
}

/// A header followed by its operands is one well-formed instruction, as long as
/// the opcode fits in the low half-word and the word count in the high one.
pub proof fn lemma_single_instruction(opcode: u32, operands: Seq<u32>)
    requires
        opcode < 0x1_0000,
        operands.len() < 0xFFFF,
    ensures
        is_instruction_stream(seq![spec_instruction_header(opcode, operands.len())] + operands),
{
    let wc = (1 + operands.len()) as u32;
    assert(((wc << 16u32) | opcode) >> 16u32 == wc) by (bit_vector)
        requires
            wc < 0x1_0000,
            opcode < 0x1_0000,
    ;
    let s = seq![spec_instruction_header(opcode, operands.len())] + operands;
    assert(s[0] == spec_instruction_header(opcode, operands.len()));
    assert(spec_word_count(s[0]) == wc as int);
    let tail = s.subrange(wc as int, s.len() as int);
    assert(tail =~= Seq::<u32>::empty());
    assert(is_instruction_stream(tail));
}

/// One instruction: its header word, then its operands.
pub open spec fn spec_instruction(opcode: u32, operands: Seq<u32>) -> Seq<u32> {
    seq![spec_instruction_header(opcode, operands.len())] + operands
}

/// A module with the id bound `bound` and the instructions `body`: magic,
/// version 1.0, generator 0 (no registered number), the bound, the reserved
/// zero, then the body.
pub open spec fn spec_module_words(bound: u32, body: Seq<u32>) -> Seq<u32> {
    seq![SPIRV_MAGIC, SPIRV_VERSION_1_0, 0u32, bound, 0u32] + body
}

/// Result ids handed out in advance, and the words of the module so far.
pub struct SpirvBuilder {
    words: Vec<u32>,
    next_id: u32,
}

impl SpirvBuilder {
    /// The words written so far, header included.
    pub closed spec fn spec_words(&self) -> Seq<u32> {
        self.words@
    }

    /// The instructions written so far: the words after the header.
    pub closed spec fn spec_body(&self) -> Seq<u32> {
        self.words@.subrange(SPIRV_HEADER_WORDS as int, self.words@.len() as int)
    }

    /// The id the next call of [`SpirvBuilder::id`] hands out.
    pub closed spec fn spec_next_id(&self) -> u32 {
        self.next_id
    }

    /// A header with the bound still unwritten, followed by whole
    /// instructions; ids are handed out from 1.
    pub closed spec fn wf(&self) -> bool {
        &&& self.words@.len() >= SPIRV_HEADER_WORDS
        &&& self.words@[0] == SPIRV_MAGIC
        &&& self.words@[1] == SPIRV_VERSION_1_0
        &&& self.words@[2] == 0
        &&& self.words@[3] == 0
        &&& self.words@[4] == 0
        &&& is_instruction_stream(self.spec_body())
        &&& self.next_id >= 1
    }

    /// What a well-formed builder holds: the five header words with the bound
    /// still 0, then a body of whole instructions.
    pub proof fn lemma_wf(&self)
        requires
            self.wf(),
        ensures
            self.spec_words().len() >= SPIRV_HEADER_WORDS,
            self.spec_words() == spec_module_words(0, self.spec_body()),
            is_instruction_stream(self.spec_body()),
            self.spec_next_id() >= 1,
    {
        assert(self.words@ =~= spec_module_words(0, self.spec_body()));
    }

    /// An empty module: the header with a bound to be filled in by `finish`.
    pub fn new() -> (b: Self)
        ensures
            b.wf(),
            b.spec_words() == spec_module_words(0, Seq::empty()),
            b.spec_body() == Seq::<u32>::empty(),
            b.spec_next_id() == 1,
    {
        let mut b = Self { words: Vec::new(), next_id: 1 };
        b.words.push(SPIRV_MAGIC);
        b.words.push(SPIRV_VERSION_1_0);
        b.words.push(0);
        b.words.push(0);
        b.words.push(0);
        proof {
            assert(b.words@ =~= spec_module_words(0, Seq::empty()));
            assert(b.spec_body() =~= Seq::<u32>::empty());
        }
        b
    }

    /// Hands out the next result id. Ids are issued ahead of the instruction
    /// that defines them: SPIR-V itself asks for that, since `OpEntryPoint` and
    /// `OpDecorate` come before what they name.
    pub fn id(&mut self) -> (id: u32)
        requires
            old(self).wf(),
            old(self).spec_next_id() < u32::MAX,
        ensures
            final(self).wf(),
            id == old(self).spec_next_id(),
            final(self).spec_next_id() == id + 1,
            final(self).spec_words() == old(self).spec_words(),
            final(self).spec_body() == old(self).spec_body(),
    {
        let id = self.next_id;
        self.next_id = self.next_id + 1;
        id
    }

    /// Writes one instruction, counting its words itself.
    pub fn inst(&mut self, opcode: u32, operands: &[u32])
        requires
            old(self).wf(),
            opcode < 0x1_0000,
            operands@.len() < 0xFFFF,
        ensures
            final(self).wf(),
            final(self).spec_next_id() == old(self).spec_next_id(),
            final(self).spec_words() == old(self).spec_words() + spec_instruction(opcode, operands@),
            final(self).spec_body() == old(self).spec_body() + spec_instruction(opcode, operands@),
    {
        let ghost before = self.words@;
        let word_count = 1 + operands.len() as u32;
        self.words.push((word_count << 16u32) | opcode);
        self.words.extend_from_slice(operands);
        proof {
            let h = spec_instruction_header(opcode, operands@.len());
            assert(((1 + operands@.len()) as u32) == word_count);
            assert(self.words@ =~= before + spec_instruction(opcode, operands@));
            let body = before.subrange(5, before.len() as int);
            lemma_single_instruction(opcode, operands@);
            lemma_stream_concat(body, spec_instruction(opcode, operands@));
            assert(self.words@.subrange(5, self.words@.len() as int) =~= body + spec_instruction(
                opcode,
                operands@,
            ));
        }
    }

    /// The finished module: the bound written into the header, one more than
    /// the last id handed out; every other word stays as it was.
    pub fn finish(self) -> (words: Vec<u32>)
        requires
            self.wf(),
        ensures
            words@ == spec_module_words(self.spec_next_id(), self.spec_body()),
            words@.len() == self.spec_words().len(),
            words@[3] == self.spec_next_id(),
            forall|i: int|
                0 <= i < words@.len() && i != 3 ==> #[trigger] words@[i] == self.spec_words()[i],
            is_spirv_module(words@),
    {
        let mut words = self.words;
        let bound = self.next_id;
        words.set(3, bound);
        proof {
            assert(words@.subrange(5, words@.len() as int) =~= self.spec_body());
            assert(words@ =~= spec_module_words(bound, self.spec_body()));
        }
        words
    }
}

// One instruction of a given number of operands, written through
// `SpirvBuilder::inst`: each states the operands as a sequence, so that a
// shader's words can be followed instruction by instruction.

fn emit0(b: &mut SpirvBuilder, opcode: u32)
    requires
        old(b).wf(),
        opcode < 0x1_0000,
    ensures
        final(b).wf(),
        final(b).spec_next_id() == old(b).spec_next_id(),
        final(b).spec_body() == old(b).spec_body() + spec_instruction(opcode, Seq::empty()),
{
    let ops: [u32; 0] = [];
    b.inst(opcode, &ops);
    assert(ops@ =~= Seq::<u32>::empty());
}

fn emit1(b: &mut SpirvBuilder, opcode: u32, a0: u32)
    requires
        old(b).wf(),
        opcode < 0x1_0000,
    ensures
        final(b).wf(),
        final(b).spec_next_id() == old(b).spec_next_id(),
        final(b).spec_body() == old(b).spec_body() + spec_instruction(opcode, seq![a0]),
{
    let ops = [a0];
    b.inst(opcode, &ops);
    assert(ops@ =~= seq![a0]);
}

fn emit2(b: &mut SpirvBuilder, opcode: u32, a0: u32, a1: u32)
    requires
        old(b).wf(),
        opcode < 0x1_0000,
    ensures
        final(b).wf(),
        final(b).spec_next_id() == old(b).spec_next_id(),
        final(b).spec_body() == old(b).spec_body() + spec_instruction(opcode, seq![a0, a1]),
{
    let ops = [a0, a1];
    b.inst(opcode, &ops);
    assert(ops@ =~= seq![a0, a1]);
}

fn emit3(b: &mut SpirvBuilder, opcode: u32, a0: u32, a1: u32, a2: u32)
    requires
        old(b).wf(),
        opcode < 0x1_0000,
    ensures
        final(b).wf(),
        final(b).spec_next_id() == old(b).spec_next_id(),
        final(b).spec_body() == old(b).spec_body() + spec_instruction(opcode, seq![a0, a1, a2]),
{
    let ops = [a0, a1, a2];
    b.inst(opcode, &ops);
    assert(ops@ =~= seq![a0, a1, a2]);
}

fn emit4(b: &mut SpirvBuilder, opcode: u32, a0: u32, a1: u32, a2: u32, a3: u32)
    requires
        old(b).wf(),
        opcode < 0x1_0000,
    ensures
        final(b).wf(),
        final(b).spec_next_id() == old(b).spec_next_id(),
        final(b).spec_body() == old(b).spec_body() + spec_instruction(opcode, seq![a0, a1, a2, a3]),
{
    let ops = [a0, a1, a2, a3];
    b.inst(opcode, &ops);
    assert(ops@ =~= seq![a0, a1, a2, a3]);
}

fn emit5(b: &mut SpirvBuilder, opcode: u32, a0: u32, a1: u32, a2: u32, a3: u32, a4: u32)
    requires
        old(b).wf(),
        opcode < 0x1_0000,
    ensures
        final(b).wf(),
        final(b).spec_next_id() == old(b).spec_next_id(),
        final(b).spec_body() == old(b).spec_body() + spec_instruction(opcode, seq![a0, a1, a2, a3, a4]),
{
    let ops = [a0, a1, a2, a3, a4];
    b.inst(opcode, &ops);
    assert(ops@ =~= seq![a0, a1, a2, a3, a4]);
}

fn emit6(b: &mut SpirvBuilder, opcode: u32, a0: u32, a1: u32, a2: u32, a3: u32, a4: u32, a5: u32)
    requires
        old(b).wf(),
        opcode < 0x1_0000,
    ensures
        final(b).wf(),
        final(b).spec_next_id() == old(b).spec_next_id(),
        final(b).spec_body() == old(b).spec_body() + spec_instruction(
            opcode,
            seq![a0, a1, a2, a3, a4, a5],
        ),
{
    let ops = [a0, a1, a2, a3, a4, a5];
    b.inst(opcode, &ops);
    assert(ops@ =~= seq![a0, a1, a2, a3, a4, a5]);
}

fn emit8(
    b: &mut SpirvBuilder,
    opcode: u32,
    a0: u32,
    a1: u32,
    a2: u32,
    a3: u32,
    a4: u32,
    a5: u32,
    a6: u32,
    a7: u32,
)
    requires
        old(b).wf(),
        opcode < 0x1_0000,
    ensures
        final(b).wf(),
        final(b).spec_next_id() == old(b).spec_next_id(),
        final(b).spec_body() == old(b).spec_body() + spec_instruction(
            opcode,
            seq![a0, a1, a2, a3, a4, a5, a6, a7],
        ),
{
    let ops = [a0, a1, a2, a3, a4, a5, a6, a7];
    b.inst(opcode, &ops);
    assert(ops@ =~= seq![a0, a1, a2, a3, a4, a5, a6, a7]);
}

/// The byte at `j` of `bytes` padded with zeros past its end.
pub open spec fn padded_byte(bytes: Seq<u8>, j: int) -> int {
    if 0 <= j < bytes.len() {
        bytes[j] as int
    } else {
        0
    }
}

/// Word `k` of a string literal: bytes `4k .. 4k + 4` of the zero-padded
/// bytes, the lowest byte in the lowest bits.
pub open spec fn spec_string_word(bytes: Seq<u8>, k: int) -> int {
    padded_byte(bytes, 4 * k) + 0x100 * padded_byte(bytes, 4 * k + 1) + 0x1_0000 * padded_byte(
        bytes,
        4 * k + 2,
    ) + 0x100_0000 * padded_byte(bytes, 4 * k + 3)
}

fn padded_byte_at(bytes: &[u8], base: usize, offset: usize) -> (b: u8)
    requires
        base <= bytes@.len(),
        offset < 4,
    ensures
        b as int == padded_byte(bytes@, base + offset),
{
    if offset < bytes.len() - base {
        bytes[base + offset]
    } else {
        0
    }
}

/// Packs a string into SPIR-V words: its UTF-8 bytes, a terminating zero byte,
/// zero padding up to a multiple of four bytes, little-endian within each word
/// (the specification fixes that order, not the platform).
pub fn encode_string(s: &str) -> (words: Vec<u32>)
    ensures
        words@.len() == s.spec_bytes().len() / 4 + 1,
        forall|k: int| 0 <= k < words@.len() ==> words@[k] as int == spec_string_word(s.spec_bytes(), k),
{
    let bytes = s.as_bytes();
    let count = bytes.len() / 4 + 1;
    let mut words: Vec<u32> = Vec::new();
    let mut k: usize = 0;
    while k < count
        invariant
            bytes@ == s.spec_bytes(),
            bytes@.len() <= usize::MAX,
            count == bytes@.len() / 4 + 1,
            k <= count,
            words@.len() == k,
            forall|i: int| 0 <= i < k ==> words@[i] as int == spec_string_word(bytes@, i),
        decreases count - k,
    {
        assert(4 * k <= bytes@.len()) by (nonlinear_arith)
            requires
                k < bytes@.len() / 4 + 1,
        ;
        let base = 4 * k;
        let b0 = padded_byte_at(bytes, base, 0);
        let b1 = padded_byte_at(bytes, base, 1);
        let b2 = padded_byte_at(bytes, base, 2);
        let b3 = padded_byte_at(bytes, base, 3);
        let word = (b0 as u32) | ((b1 as u32) << 8u32) | ((b2 as u32) << 16u32) | ((b3 as u32) << 24u32);
        assert(word as int == b0 + 0x100 * b1 + 0x1_0000 * b2 + 0x100_0000 * b3) by (bit_vector)
            requires
                word == (b0 as u32) | ((b1 as u32) << 8u32) | ((b2 as u32) << 16u32) | ((b3 as u32)
                    << 24u32),
        ;
        words.push(word);
        k = k + 1;
    }
    words
}

/// The entry-point operands: execution model, entry id, the name "main",
/// then the interface variables.
fn entry_point_operands(model: u32, main_id: u32, interface: &[u32]) -> (ops: Vec<u32>)
    requires
        interface@.len() <= 8,
    ensures
        ops@ == seq![model, main_id, MAIN_NAME_WORD, 0u32] + interface@,
{
    let mut ops = vec![model, main_id];
    let name = "main";
    proof {
        reveal_strlit("main");
        assert(name@.len() == 4);
        assert(vstd::string::is_ascii(name));
        vstd::string::is_ascii_spec_bytes(name);
    }
    let mut encoded = encode_string(name);
    proof {
        let bytes = name.spec_bytes();
        assert(bytes.len() == 4);
        assert(spec_string_word(bytes, 0) == MAIN_NAME_WORD);
        assert(spec_string_word(bytes, 1) == 0);
        assert(encoded@ =~= seq![MAIN_NAME_WORD, 0u32]);
    }
    ops.append(&mut encoded);
    ops.extend_from_slice(interface);
    proof {
        assert(ops@ =~= seq![model, main_id, MAIN_NAME_WORD, 0u32] + interface@);
    }
    ops
}

/// The fragment shader's first section: the capability, the memory model,
/// the entry point with its interface (the colour 8 and UV 9 read, the colour
/// 11 written; the texture is no part of a SPIR-V 1.0 interface), and the
/// execution mode every fragment shader needs: (0, 0) is the top-left corner.
pub open spec fn spec_fragment_preamble(words: Seq<u32>) -> Seq<u32> {
    words
        + spec_instruction(OP_CAPABILITY, seq![CAPABILITY_SHADER])
        + spec_instruction(OP_MEMORY_MODEL, seq![ADDRESSING_MODEL_LOGICAL, MEMORY_MODEL_GLSL450])
        + spec_instruction(
        OP_ENTRY_POINT,
        seq![EXECUTION_MODEL_FRAGMENT, 1u32, MAIN_NAME_WORD, 0u32] + seq![8u32, 9u32, 11u32],
    ) + spec_instruction(OP_EXECUTION_MODE, seq![1u32, EXECUTION_MODE_ORIGIN_UPPER_LEFT])
}

/// The annotations, all before the first type: the colour at location 0 and
/// the UV at location 1, where the vertex shader writes them; the texture at
/// set 0, binding 0, the descriptor layout's one binding; the colour written
/// to attachment location 0.
pub open spec fn spec_fragment_decorations(words: Seq<u32>) -> Seq<u32> {
    words
        + spec_instruction(OP_DECORATE, seq![8u32, DECORATION_LOCATION, 0u32])
        + spec_instruction(OP_DECORATE, seq![9u32, DECORATION_LOCATION, 1u32])
        + spec_instruction(OP_DECORATE, seq![10u32, DECORATION_DESCRIPTOR_SET, 0u32])
        + spec_instruction(OP_DECORATE, seq![10u32, DECORATION_BINDING, 0u32])
        + spec_instruction(OP_DECORATE, seq![11u32, DECORATION_LOCATION, 0u32])
}

/// The types (void 2, the function type 3, float 4, its vectors 5 to 7), the
/// constant 1.0 (12), the sampled 2D image 13 and the image with its sampler
/// 14.
pub open spec fn spec_fragment_types(words: Seq<u32>) -> Seq<u32> {
    words
        + spec_instruction(OP_TYPE_VOID, seq![2u32])
        + spec_instruction(OP_TYPE_FUNCTION, seq![3u32, 2u32])
        + spec_instruction(OP_TYPE_FLOAT, seq![4u32, 32u32])
        + spec_instruction(OP_TYPE_VECTOR, seq![5u32, 4u32, 2u32])
        + spec_instruction(OP_TYPE_VECTOR, seq![6u32, 4u32, 3u32])
        + spec_instruction(OP_TYPE_VECTOR, seq![7u32, 4u32, 4u32])
        + spec_instruction(OP_CONSTANT, seq![4u32, 12u32, FLOAT_ONE_BITS])
        + spec_instruction(
        OP_TYPE_IMAGE,
        seq![
            13u32,
            4u32,
            DIM_2D,
            IMAGE_DEPTH_NO,
            IMAGE_NOT_ARRAYED,
            IMAGE_SINGLE_SAMPLED,
            IMAGE_SAMPLED_WITH_SAMPLER,
            IMAGE_FORMAT_UNKNOWN,
        ],
    ) + spec_instruction(OP_TYPE_SAMPLED_IMAGE, seq![14u32, 13u32])
}

/// The global variables, each after its pointer type: the colour input (8),
/// the UV input (9), the texture (10) and the colour output (11).
pub open spec fn spec_fragment_variables(words: Seq<u32>) -> Seq<u32> {
    words
        + spec_instruction(OP_TYPE_POINTER, seq![15u32, STORAGE_CLASS_INPUT, 6u32])
        + spec_instruction(OP_VARIABLE, seq![15u32, 8u32, STORAGE_CLASS_INPUT])
        + spec_instruction(OP_TYPE_POINTER, seq![16u32, STORAGE_CLASS_INPUT, 5u32])
        + spec_instruction(OP_VARIABLE, seq![16u32, 9u32, STORAGE_CLASS_INPUT])
        + spec_instruction(OP_TYPE_POINTER, seq![17u32, STORAGE_CLASS_UNIFORM_CONSTANT, 14u32])
        + spec_instruction(OP_VARIABLE, seq![17u32, 10u32, STORAGE_CLASS_UNIFORM_CONSTANT])
        + spec_instruction(OP_TYPE_POINTER, seq![18u32, STORAGE_CLASS_OUTPUT, 7u32])
        + spec_instruction(OP_VARIABLE, seq![18u32, 11u32, STORAGE_CLASS_OUTPUT])
}

/// `main`: load the colour (20) and the UV (21), sample the texture at the UV
/// (texel 23), multiply the texel's RGB (24 to 27) by the colour (28), store
/// it with alpha 1.0 (29) into the output, return.
pub open spec fn spec_fragment_function(words: Seq<u32>) -> Seq<u32> {
    words
        + spec_instruction(OP_FUNCTION, seq![2u32, 1u32, FUNCTION_CONTROL_NONE, 3u32])
        + spec_instruction(OP_LABEL, seq![19u32])
        + spec_instruction(OP_LOAD, seq![6u32, 20u32, 8u32])
        + spec_instruction(OP_LOAD, seq![5u32, 21u32, 9u32])
        + spec_instruction(OP_LOAD, seq![14u32, 22u32, 10u32])
        + spec_instruction(OP_IMAGE_SAMPLE_IMPLICIT_LOD, seq![7u32, 23u32, 22u32, 21u32])
        + spec_instruction(OP_COMPOSITE_EXTRACT, seq![4u32, 24u32, 23u32, 0u32])
        + spec_instruction(OP_COMPOSITE_EXTRACT, seq![4u32, 25u32, 23u32, 1u32])
        + spec_instruction(OP_COMPOSITE_EXTRACT, seq![4u32, 26u32, 23u32, 2u32])
        + spec_instruction(OP_COMPOSITE_CONSTRUCT, seq![6u32, 27u32, 24u32, 25u32, 26u32])
        + spec_instruction(OP_FMUL, seq![6u32, 28u32, 27u32, 20u32])
        + spec_instruction(OP_COMPOSITE_CONSTRUCT, seq![7u32, 29u32, 28u32, 12u32])
        + spec_instruction(OP_STORE, seq![11u32, 29u32])
        + spec_instruction(OP_RETURN, Seq::empty())
        + spec_instruction(OP_FUNCTION_END, Seq::empty())
}

/// The fragment shader, word for word: ids 1 to 29 issued, so the bound is 30.
pub open spec fn spec_fragment_module() -> Seq<u32> {
    spec_module_words(
        30,
        spec_fragment_function(
            spec_fragment_variables(
                spec_fragment_types(spec_fragment_decorations(spec_fragment_preamble(Seq::empty()))),
            ),
        ),
    )
}

/// The fragment shader: the texel read through the combined image sampler at
/// set 0, binding 0 is multiplied component-wise by the interpolated Gouraud
/// colour, and completed to an opaque `vec4` (alpha 1).
#[verifier::rlimit(50)]
pub fn fragment_shader() -> (words: Vec<u32>)
    ensures
        words@ == spec_fragment_module(),
        is_spirv_module(words@),
{
    let mut b = SpirvBuilder::new();

    let main_id = b.id();
    let void_ty = b.id();
    let voidfn_ty = b.id();
    let float_ty = b.id();
    let v2float_ty = b.id();
    let v3float_ty = b.id();
    let v4float_ty = b.id();
    let in_color_var = b.id();
    let in_uv_var = b.id();
    let tex_var = b.id();
    let out_color_var = b.id();

    emit1(&mut b, OP_CAPABILITY, CAPABILITY_SHADER);
    let ghost start = b.spec_body();
    proof {
        assert(start =~= Seq::<u32>::empty() + spec_instruction(OP_CAPABILITY, seq![CAPABILITY_SHADER]));
    }
    emit2(&mut b, OP_MEMORY_MODEL, ADDRESSING_MODEL_LOGICAL, MEMORY_MODEL_GLSL450);
    // The combined image sampler is not part of the SPIR-V 1.0 interface:
    // only Input and Output variables are.
    let interface = [in_color_var, in_uv_var, out_color_var];
    proof {
        assert(interface@ =~= seq![8u32, 9u32, 11u32]);
    }
    let ops = entry_point_operands(EXECUTION_MODEL_FRAGMENT, main_id, &interface);
    b.inst(OP_ENTRY_POINT, ops.as_slice());
    // Required by every fragment shader: (0, 0) is the top-left corner.
    emit2(&mut b, OP_EXECUTION_MODE, main_id, EXECUTION_MODE_ORIGIN_UPPER_LEFT);
    proof {
        assert(b.spec_body() == spec_fragment_preamble(Seq::empty()));
    }

    // Set 0, binding 0: the single binding of the descriptor set layout.
    emit3(&mut b, OP_DECORATE, in_color_var, DECORATION_LOCATION, 0);
    emit3(&mut b, OP_DECORATE, in_uv_var, DECORATION_LOCATION, 1);
    emit3(&mut b, OP_DECORATE, tex_var, DECORATION_DESCRIPTOR_SET, 0);
    emit3(&mut b, OP_DECORATE, tex_var, DECORATION_BINDING, 0);
    emit3(&mut b, OP_DECORATE, out_color_var, DECORATION_LOCATION, 0);
    let ghost decorated = b.spec_body();

    emit1(&mut b, OP_TYPE_VOID, void_ty);
    emit2(&mut b, OP_TYPE_FUNCTION, voidfn_ty, void_ty);
    emit2(&mut b, OP_TYPE_FLOAT, float_ty, 32);
    emit3(&mut b, OP_TYPE_VECTOR, v2float_ty, float_ty, 2);
    emit3(&mut b, OP_TYPE_VECTOR, v3float_ty, float_ty, 3);
    emit3(&mut b, OP_TYPE_VECTOR, v4float_ty, float_ty, 4);

    let float_1 = b.id();
    emit3(&mut b, OP_CONSTANT, float_ty, float_1, FLOAT_ONE_BITS);

    // The image itself (2D, no depth, not arrayed, single-sampled, read
    // through a sampler) and the image together with its sampler: what one
    // combined-image-sampler descriptor turns into.
    let image_ty = b.id();
    emit8(
        &mut b,
        OP_TYPE_IMAGE,
        image_ty,
        float_ty,
        DIM_2D,
        IMAGE_DEPTH_NO,
        IMAGE_NOT_ARRAYED,
        IMAGE_SINGLE_SAMPLED,
        IMAGE_SAMPLED_WITH_SAMPLER,
        IMAGE_FORMAT_UNKNOWN,
    );
    let sampled_image_ty = b.id();
    emit2(&mut b, OP_TYPE_SAMPLED_IMAGE, sampled_image_ty, image_ty);
    assert(b.spec_body() == spec_fragment_types(decorated));
    let ghost typed = b.spec_body();

    let ptr_input_v3float_ty = b.id();
    emit3(&mut b, OP_TYPE_POINTER, ptr_input_v3float_ty, STORAGE_CLASS_INPUT, v3float_ty);
    emit3(&mut b, OP_VARIABLE, ptr_input_v3float_ty, in_color_var, STORAGE_CLASS_INPUT);

    let ptr_input_v2float_ty = b.id();
    emit3(&mut b, OP_TYPE_POINTER, ptr_input_v2float_ty, STORAGE_CLASS_INPUT, v2float_ty);
    emit3(&mut b, OP_VARIABLE, ptr_input_v2float_ty, in_uv_var, STORAGE_CLASS_INPUT);

    let ptr_uniformconstant_sampledimage_ty = b.id();
    emit3(
        &mut b,
        OP_TYPE_POINTER,
        ptr_uniformconstant_sampledimage_ty,
        STORAGE_CLASS_UNIFORM_CONSTANT,
        sampled_image_ty,
    );
    emit3(&mut b, OP_VARIABLE, ptr_uniformconstant_sampledimage_ty, tex_var, STORAGE_CLASS_UNIFORM_CONSTANT);

    let ptr_output_v4float_ty = b.id();
    emit3(&mut b, OP_TYPE_POINTER, ptr_output_v4float_ty, STORAGE_CLASS_OUTPUT, v4float_ty);
    emit3(&mut b, OP_VARIABLE, ptr_output_v4float_ty, out_color_var, STORAGE_CLASS_OUTPUT);
    assert(b.spec_body() == spec_fragment_variables(typed));
    let ghost declared = b.spec_body();

    emit4(&mut b, OP_FUNCTION, void_ty, main_id, FUNCTION_CONTROL_NONE, voidfn_ty);
    let entry_label = b.id();
    emit1(&mut b, OP_LABEL, entry_label);

    let color_rgb = b.id();
    emit3(&mut b, OP_LOAD, v3float_ty, color_rgb, in_color_var);
    let uv = b.id();
    emit3(&mut b, OP_LOAD, v2float_ty, uv, in_uv_var);

    // A combined image sampler is loaded by a single `OpLoad`.
    let sampled_image_val = b.id();
    emit3(&mut b, OP_LOAD, sampled_image_ty, sampled_image_val, tex_var);
    let texel = b.id();
    emit4(&mut b, OP_IMAGE_SAMPLE_IMPLICIT_LOD, v4float_ty, texel, sampled_image_val, uv);

    // Only the RGB of the texel takes part: three extracts and a vec3.
    let texel_r = b.id();
    emit4(&mut b, OP_COMPOSITE_EXTRACT, float_ty, texel_r, texel, 0);
    let texel_g = b.id();
    emit4(&mut b, OP_COMPOSITE_EXTRACT, float_ty, texel_g, texel, 1);
    let texel_b = b.id();
    emit4(&mut b, OP_COMPOSITE_EXTRACT, float_ty, texel_b, texel, 2);
    let texel_rgb = b.id();
    emit5(&mut b, OP_COMPOSITE_CONSTRUCT, v3float_ty, texel_rgb, texel_r, texel_g, texel_b);

    // Component-wise product: a white texture leaves the lighting unchanged.
    let final_rgb = b.id();
    emit4(&mut b, OP_FMUL, v3float_ty, final_rgb, texel_rgb, color_rgb);

    // A vector and a scalar may be mixed in one construct: the component
    // counts only have to add up to the result's.
    let final_rgba = b.id();
    emit4(&mut b, OP_COMPOSITE_CONSTRUCT, v4float_ty, final_rgba, final_rgb, float_1);
    emit2(&mut b, OP_STORE, out_color_var, final_rgba);

    emit0(&mut b, OP_RETURN);
    emit0(&mut b, OP_FUNCTION_END);
    assert(b.spec_body() == spec_fragment_function(declared));
    b.finish()
}

/// The float constants of the lighting model, as IEEE-754 single-precision bit
/// patterns: the unit direction towards the light, the ambient term and one
/// minus it. The CPU path owns these values; the shader only embeds them.
#[derive(Clone, Copy, Debug)]
pub struct ShadingConstants {
    pub light_x_bits: u32,
    pub light_y_bits: u32,
    pub light_z_bits: u32,
    pub ambient_bits: u32,
    pub one_minus_ambient_bits: u32,
}

/// Operands of `OpExtInstImport "GLSL.std.450"`: the result id and the set's
/// name. `sqrt`, and with it `normalize`, is not part of core SPIR-V.
fn glsl_import_operands(result_id: u32) -> (ops: Vec<u32>)
    ensures
        ops@ == seq![result_id, GLSL_NAME_WORD_0, GLSL_NAME_WORD_1, GLSL_NAME_WORD_2, 0u32],
{
    let mut ops = vec![result_id];
    let name = "GLSL.std.450";
    proof {
        reveal_strlit("GLSL.std.450");
        assert(name@.len() == 12);
        assert(vstd::string::is_ascii(name));
        vstd::string::is_ascii_spec_bytes(name);
    }
    let mut encoded = encode_string(name);
    proof {
        let bytes = name.spec_bytes();
        assert(bytes.len() == 12);
        assert(spec_string_word(bytes, 0) == GLSL_NAME_WORD_0);
        assert(spec_string_word(bytes, 1) == GLSL_NAME_WORD_1);
        assert(spec_string_word(bytes, 2) == GLSL_NAME_WORD_2);
        assert(spec_string_word(bytes, 3) == 0);
        assert(encoded@ =~= seq![GLSL_NAME_WORD_0, GLSL_NAME_WORD_1, GLSL_NAME_WORD_2, 0u32]);
    }
    ops.append(&mut encoded);
    proof {
        assert(ops@ =~= seq![result_id, GLSL_NAME_WORD_0, GLSL_NAME_WORD_1, GLSL_NAME_WORD_2, 0u32]);
    }
    ops
}

/// The vertex shader's first section: the capability, the GLSL.std.450
/// import (2), the memory model, and the entry point with its interface: the
/// position (9), normal (10) and UV (11) read, the clip-space position (12),
/// colour (13) and UV (14) written. The push constant is no part of a SPIR-V
/// 1.0 interface.
pub open spec fn spec_vertex_preamble(words: Seq<u32>) -> Seq<u32> {
    words
        + spec_instruction(OP_CAPABILITY, seq![CAPABILITY_SHADER])
        + spec_instruction(
        OP_EXT_INST_IMPORT,
        seq![2u32, GLSL_NAME_WORD_0, GLSL_NAME_WORD_1, GLSL_NAME_WORD_2, 0u32],
    ) + spec_instruction(OP_MEMORY_MODEL, seq![ADDRESSING_MODEL_LOGICAL, MEMORY_MODEL_GLSL450])
        + spec_instruction(
        OP_ENTRY_POINT,
        seq![EXECUTION_MODEL_VERTEX, 1u32, MAIN_NAME_WORD, 0u32] + seq![
            9u32,
            10u32,
            11u32,
            12u32,
            13u32,
            14u32,
        ],
    )
}

/// The annotations, before every type: the inputs at vertex attribute
/// locations 0, 1 and 2, the position to the builtin position, the colour and
/// UV passed on at locations 0 and 1, and `Block` on the push-constant struct
/// (15), whose member offsets follow.
pub open spec fn spec_vertex_decorations(words: Seq<u32>) -> Seq<u32> {
    words
        + spec_instruction(OP_DECORATE, seq![9u32, DECORATION_LOCATION, 0u32])
        + spec_instruction(OP_DECORATE, seq![10u32, DECORATION_LOCATION, 1u32])
        + spec_instruction(OP_DECORATE, seq![11u32, DECORATION_LOCATION, 2u32])
        + spec_instruction(OP_DECORATE, seq![12u32, DECORATION_BUILTIN, BUILTIN_POSITION])
        + spec_instruction(OP_DECORATE, seq![13u32, DECORATION_LOCATION, 0u32])
        + spec_instruction(OP_DECORATE, seq![14u32, DECORATION_LOCATION, 1u32])
        + spec_instruction(OP_DECORATE, seq![15u32, DECORATION_BLOCK])
}

/// `words`, then the `Offset` of each of the first `n` members of the
/// push-constant struct (15): sixteen bytes per member before it.
pub open spec fn spec_member_offsets(words: Seq<u32>, n: nat) -> Seq<u32>
    decreases n,
{
    if n == 0 {
        words
    } else {
        spec_member_offsets(words, (n - 1) as nat) + spec_instruction(
            OP_MEMBER_DECORATE,
            seq![15u32, (n - 1) as u32, DECORATION_OFFSET, (16 * (n - 1)) as u32],
        )
    }
}

/// The types: void (3), the function type (4), float (5) and its vectors (6
/// to 8), the constants 1.0 (16) and 0.0 (17), the push-constant struct of
/// seven vec4 (15) with its pointer type (18) and variable (19), the pointer
/// to one of its members (20), and the 32-bit signed integer (21).
pub open spec fn spec_vertex_types(words: Seq<u32>) -> Seq<u32> {
    words
        + spec_instruction(OP_TYPE_VOID, seq![3u32])
        + spec_instruction(OP_TYPE_FUNCTION, seq![4u32, 3u32])
        + spec_instruction(OP_TYPE_FLOAT, seq![5u32, 32u32])
        + spec_instruction(OP_TYPE_VECTOR, seq![6u32, 5u32, 2u32])
        + spec_instruction(OP_TYPE_VECTOR, seq![7u32, 5u32, 3u32])
        + spec_instruction(OP_TYPE_VECTOR, seq![8u32, 5u32, 4u32])
        + spec_instruction(OP_CONSTANT, seq![5u32, 16u32, FLOAT_ONE_BITS])
        + spec_instruction(OP_CONSTANT, seq![5u32, 17u32, FLOAT_ZERO_BITS])
        + spec_instruction(OP_TYPE_STRUCT, seq![15u32, 8u32, 8u32, 8u32, 8u32, 8u32, 8u32, 8u32])
        + spec_instruction(OP_TYPE_POINTER, seq![18u32, STORAGE_CLASS_PUSH_CONSTANT, 15u32])
        + spec_instruction(OP_VARIABLE, seq![18u32, 19u32, STORAGE_CLASS_PUSH_CONSTANT])
        + spec_instruction(OP_TYPE_POINTER, seq![20u32, STORAGE_CLASS_PUSH_CONSTANT, 8u32])
        + spec_instruction(OP_TYPE_INT, seq![21u32, 32u32, 1u32])
}

/// `words`, then the integer constants 0 to `n - 1` (ids 22 onwards), the
/// member indices of the push-constant struct.
pub open spec fn spec_int_constants(words: Seq<u32>, n: nat) -> Seq<u32>
    decreases n,
{
    if n == 0 {
        words
    } else {
        spec_int_constants(words, (n - 1) as nat) + spec_instruction(
            OP_CONSTANT,
            seq![21u32, (22 + (n - 1)) as u32, (n - 1) as u32],
        )
    }
}

/// The interface variables, each after its pointer type.
pub open spec fn spec_vertex_variables(words: Seq<u32>) -> Seq<u32> {
    words
        + spec_instruction(OP_TYPE_POINTER, seq![29u32, STORAGE_CLASS_INPUT, 7u32])
        + spec_instruction(OP_VARIABLE, seq![29u32, 9u32, STORAGE_CLASS_INPUT])
        + spec_instruction(OP_VARIABLE, seq![29u32, 10u32, STORAGE_CLASS_INPUT])
        + spec_instruction(OP_TYPE_POINTER, seq![30u32, STORAGE_CLASS_INPUT, 6u32])
        + spec_instruction(OP_VARIABLE, seq![30u32, 11u32, STORAGE_CLASS_INPUT])
        + spec_instruction(OP_TYPE_POINTER, seq![31u32, STORAGE_CLASS_OUTPUT, 8u32])
        + spec_instruction(OP_VARIABLE, seq![31u32, 12u32, STORAGE_CLASS_OUTPUT])
        + spec_instruction(OP_TYPE_POINTER, seq![32u32, STORAGE_CLASS_OUTPUT, 7u32])
        + spec_instruction(OP_VARIABLE, seq![32u32, 13u32, STORAGE_CLASS_OUTPUT])
        + spec_instruction(OP_TYPE_POINTER, seq![33u32, STORAGE_CLASS_OUTPUT, 6u32])
        + spec_instruction(OP_VARIABLE, seq![33u32, 14u32, STORAGE_CLASS_OUTPUT])
}

/// The constants of the lighting model: the light's direction (34 to 36)
/// and the vec4 it makes with w = 0.0 (37), the ambient term (38) and one
/// minus it (39); then the orange base colour (41) from 1.0, 0.55 (40) and
/// 0.0.
pub open spec fn spec_vertex_constants(words: Seq<u32>, shading: ShadingConstants) -> Seq<u32> {
    words
        + spec_instruction(OP_CONSTANT, seq![5u32, 34u32, shading.light_x_bits])
        + spec_instruction(OP_CONSTANT, seq![5u32, 35u32, shading.light_y_bits])
        + spec_instruction(OP_CONSTANT, seq![5u32, 36u32, shading.light_z_bits])
        + spec_instruction(OP_CONSTANT_COMPOSITE, seq![8u32, 37u32, 34u32, 35u32, 36u32, 17u32])
        + spec_instruction(OP_CONSTANT, seq![5u32, 38u32, shading.ambient_bits])
        + spec_instruction(OP_CONSTANT, seq![5u32, 39u32, shading.one_minus_ambient_bits])
        + spec_instruction(OP_CONSTANT, seq![5u32, 40u32, BASE_GREEN_BITS])
        + spec_instruction(OP_CONSTANT_COMPOSITE, seq![7u32, 41u32, 16u32, 40u32, 17u32])
}

/// The start of `main`: the function and its entry label (42).
pub open spec fn spec_vertex_entry(words: Seq<u32>) -> Seq<u32> {
    words
        + spec_instruction(OP_FUNCTION, seq![3u32, 1u32, FUNCTION_CONTROL_NONE, 4u32])
        + spec_instruction(OP_LABEL, seq![42u32])
}

/// `words`, then the first `n` columns of the push constant loaded: member k
/// through the access chain 43 + 2k into the vec4 44 + 2k.
pub open spec fn spec_column_loads(words: Seq<u32>, n: nat) -> Seq<u32>
    decreases n,
{
    if n == 0 {
        words
    } else {
        let k = n - 1;
        spec_column_loads(words, k as nat) + spec_instruction(
            OP_ACCESS_CHAIN,
            seq![20u32, (43 + 2 * k) as u32, 19u32, (22 + k) as u32],
        ) + spec_instruction(OP_LOAD, seq![8u32, (44 + 2 * k) as u32, (43 + 2 * k) as u32])
    }
}

/// The position to clip space: its components (58 to 60) splatted into vec4
/// (61 to 63, and 64 for w = 1), each multiplied by its MVP column (44, 46,
/// 48, 50), the products summed (71) and stored into the builtin position.
pub open spec fn spec_vertex_position(words: Seq<u32>) -> Seq<u32> {
    words
        + spec_instruction(OP_LOAD, seq![7u32, 57u32, 9u32])
        + spec_instruction(OP_COMPOSITE_EXTRACT, seq![5u32, 58u32, 57u32, 0u32])
        + spec_instruction(OP_COMPOSITE_EXTRACT, seq![5u32, 59u32, 57u32, 1u32])
        + spec_instruction(OP_COMPOSITE_EXTRACT, seq![5u32, 60u32, 57u32, 2u32])
        + spec_instruction(OP_COMPOSITE_CONSTRUCT, seq![8u32, 61u32, 58u32, 58u32, 58u32, 58u32])
        + spec_instruction(OP_COMPOSITE_CONSTRUCT, seq![8u32, 62u32, 59u32, 59u32, 59u32, 59u32])
        + spec_instruction(OP_COMPOSITE_CONSTRUCT, seq![8u32, 63u32, 60u32, 60u32, 60u32, 60u32])
        + spec_instruction(OP_COMPOSITE_CONSTRUCT, seq![8u32, 64u32, 16u32, 16u32, 16u32, 16u32])
        + spec_instruction(OP_FMUL, seq![8u32, 65u32, 44u32, 61u32])
        + spec_instruction(OP_FMUL, seq![8u32, 66u32, 46u32, 62u32])
        + spec_instruction(OP_FMUL, seq![8u32, 67u32, 48u32, 63u32])
        + spec_instruction(OP_FMUL, seq![8u32, 68u32, 50u32, 64u32])
        + spec_instruction(OP_FADD, seq![8u32, 69u32, 65u32, 66u32])
        + spec_instruction(OP_FADD, seq![8u32, 70u32, 69u32, 67u32])
        + spec_instruction(OP_FADD, seq![8u32, 71u32, 70u32, 68u32])
        + spec_instruction(OP_STORE, seq![12u32, 71u32])
}

/// The normal to world space through the normal matrix's columns (52, 54,
/// 56) and normalised (84); the Lambert term `max(dot(N, L), 0)` (86); the
/// intensity `ambient + (1 - ambient) * lambert` (88) times the base colour
/// stored as the colour output (90); the UV loaded (91) and stored unchanged
/// into the UV output; return.
pub open spec fn spec_vertex_lighting(words: Seq<u32>) -> Seq<u32> {
    words
        + spec_instruction(OP_LOAD, seq![7u32, 72u32, 10u32])
        + spec_instruction(OP_COMPOSITE_EXTRACT, seq![5u32, 73u32, 72u32, 0u32])
        + spec_instruction(OP_COMPOSITE_EXTRACT, seq![5u32, 74u32, 72u32, 1u32])
        + spec_instruction(OP_COMPOSITE_EXTRACT, seq![5u32, 75u32, 72u32, 2u32])
        + spec_instruction(OP_COMPOSITE_CONSTRUCT, seq![8u32, 76u32, 73u32, 73u32, 73u32, 73u32])
        + spec_instruction(OP_COMPOSITE_CONSTRUCT, seq![8u32, 77u32, 74u32, 74u32, 74u32, 74u32])
        + spec_instruction(OP_COMPOSITE_CONSTRUCT, seq![8u32, 78u32, 75u32, 75u32, 75u32, 75u32])
        + spec_instruction(OP_FMUL, seq![8u32, 79u32, 52u32, 76u32])
        + spec_instruction(OP_FMUL, seq![8u32, 80u32, 54u32, 77u32])
        + spec_instruction(OP_FMUL, seq![8u32, 81u32, 56u32, 78u32])
        + spec_instruction(OP_FADD, seq![8u32, 82u32, 79u32, 80u32])
        + spec_instruction(OP_FADD, seq![8u32, 83u32, 82u32, 81u32])
        + spec_instruction(OP_EXT_INST, seq![8u32, 84u32, 2u32, GLSL_STD_450_NORMALIZE, 83u32])
        + spec_instruction(OP_DOT, seq![5u32, 85u32, 84u32, 37u32])
        + spec_instruction(OP_EXT_INST, seq![5u32, 86u32, 2u32, GLSL_STD_450_FMAX, 85u32, 17u32])
        + spec_instruction(OP_FMUL, seq![5u32, 87u32, 39u32, 86u32])
        + spec_instruction(OP_FADD, seq![5u32, 88u32, 38u32, 87u32])
        + spec_instruction(OP_COMPOSITE_CONSTRUCT, seq![7u32, 89u32, 88u32, 88u32, 88u32])
        + spec_instruction(OP_FMUL, seq![7u32, 90u32, 41u32, 89u32])
        + spec_instruction(OP_STORE, seq![13u32, 90u32])
        + spec_instruction(OP_LOAD, seq![6u32, 91u32, 11u32])
        + spec_instruction(OP_STORE, seq![14u32, 91u32])
        + spec_instruction(OP_RETURN, Seq::empty())
        + spec_instruction(OP_FUNCTION_END, Seq::empty())
}

/// The vertex shader, word for word: ids 1 to 91 issued, so the bound is 92.
pub open spec fn spec_vertex_module(shading: ShadingConstants) -> Seq<u32> {
    let annotated = spec_member_offsets(spec_vertex_decorations(spec_vertex_preamble(Seq::empty())), 7);
    let declared = spec_vertex_variables(spec_int_constants(spec_vertex_types(annotated), 7));
    let loaded = spec_column_loads(spec_vertex_entry(spec_vertex_constants(declared, shading)), 7);
    spec_module_words(92, spec_vertex_lighting(spec_vertex_position(loaded)))
}

/// The vertex shader: the position goes to clip space through the MVP matrix,
/// the normal to world space through the normal matrix (both pushed as seven
/// `vec4` columns of one push-constant block), and the Lambert intensity
/// `ambient + (1 - ambient) * max(dot(N, L), 0)` times the base colour is
/// passed on to be interpolated (Gouraud); the UV passes through unchanged.
#[verifier::rlimit(100)]
pub fn vertex_shader(shading: &ShadingConstants) -> (words: Vec<u32>)
    ensures
        words@ == spec_vertex_module(*shading),
        is_spirv_module(words@),
{
    let mut b = SpirvBuilder::new();

    let main_id = b.id();
    let glsl_ext = b.id();
    let void_ty = b.id();
    let voidfn_ty = b.id();
    let float_ty = b.id();
    let v2float_ty = b.id();
    let v3float_ty = b.id();
    let v4float_ty = b.id();
    let in_position_var = b.id();
    let in_normal_var = b.id();
    let in_uv_var = b.id();
    let position_var = b.id();
    let out_color_var = b.id();
    let out_uv_var = b.id();
    // The push-constant struct's id is issued here although its `OpTypeStruct`
    // comes much later: its decorations must stand in the annotation section,
    // before the types.
    let mvp_struct_ty = b.id();

    emit1(&mut b, OP_CAPABILITY, CAPABILITY_SHADER);
    proof {
        assert(b.spec_body() =~= Seq::<u32>::empty() + spec_instruction(
            OP_CAPABILITY,
            seq![CAPABILITY_SHADER],
        ));
    }
    let import_ops = glsl_import_operands(glsl_ext);
    b.inst(OP_EXT_INST_IMPORT, import_ops.as_slice());
    emit2(&mut b, OP_MEMORY_MODEL, ADDRESSING_MODEL_LOGICAL, MEMORY_MODEL_GLSL450);
    // The push constant is not part of the SPIR-V 1.0 interface: only the
    // Input and Output variables are.
    let interface = [in_position_var, in_normal_var, in_uv_var, position_var, out_color_var, out_uv_var];
    proof {
        assert(interface@ =~= seq![9u32, 10u32, 11u32, 12u32, 13u32, 14u32]);
    }
    let entry_ops = entry_point_operands(EXECUTION_MODEL_VERTEX, main_id, &interface);
    b.inst(OP_ENTRY_POINT, entry_ops.as_slice());
    assert(b.spec_body() == spec_vertex_preamble(Seq::empty()));
    let ghost preamble = b.spec_body();

    // The colour leaves at location 0 (the position leaves through a builtin,
    // not a location), the UV at location 1.
    emit3(&mut b, OP_DECORATE, in_position_var, DECORATION_LOCATION, 0);
    emit3(&mut b, OP_DECORATE, in_normal_var, DECORATION_LOCATION, 1);
    emit3(&mut b, OP_DECORATE, in_uv_var, DECORATION_LOCATION, 2);
    emit3(&mut b, OP_DECORATE, position_var, DECORATION_BUILTIN, BUILTIN_POSITION);
    emit3(&mut b, OP_DECORATE, out_color_var, DECORATION_LOCATION, 0);
    emit3(&mut b, OP_DECORATE, out_uv_var, DECORATION_LOCATION, 1);

    // The push-constant block's decorations belong here with all the others:
    // the logical layout of a module puts every annotation before the types.
    emit2(&mut b, OP_DECORATE, mvp_struct_ty, DECORATION_BLOCK);
    assert(b.spec_body() == spec_vertex_decorations(preamble));
    let ghost decorated = b.spec_body();
    let mut member: u32 = 0;
    while member < 7
        invariant
            b.wf(),
            member <= 7,
            mvp_struct_ty == 15,
            b.spec_next_id() == 16,
            b.spec_body() == spec_member_offsets(decorated, member as nat),
        decreases 7 - member,
    {
        emit4(&mut b, OP_MEMBER_DECORATE, mvp_struct_ty, member, DECORATION_OFFSET, member * 16);
        member = member + 1;
    }
    let ghost annotated = b.spec_body();

    emit1(&mut b, OP_TYPE_VOID, void_ty);
    emit2(&mut b, OP_TYPE_FUNCTION, voidfn_ty, void_ty);
    emit2(&mut b, OP_TYPE_FLOAT, float_ty, 32);
    emit3(&mut b, OP_TYPE_VECTOR, v2float_ty, float_ty, 2);
    emit3(&mut b, OP_TYPE_VECTOR, v3float_ty, float_ty, 3);
    emit3(&mut b, OP_TYPE_VECTOR, v4float_ty, float_ty, 4);

    let float_1 = b.id();
    emit3(&mut b, OP_CONSTANT, float_ty, float_1, FLOAT_ONE_BITS);
    let float_0 = b.id();
    emit3(&mut b, OP_CONSTANT, float_ty, float_0, FLOAT_ZERO_BITS);

    // Seven vec4 in a row; `Block` and the offsets were written above.
    emit8(
        &mut b,
        OP_TYPE_STRUCT,
        mvp_struct_ty,
        v4float_ty,
        v4float_ty,
        v4float_ty,
        v4float_ty,
        v4float_ty,
        v4float_ty,
        v4float_ty,
    );

    let ptr_pushconstant_struct_ty = b.id();
    emit3(&mut b, OP_TYPE_POINTER, ptr_pushconstant_struct_ty, STORAGE_CLASS_PUSH_CONSTANT, mvp_struct_ty);
    let mvp_var = b.id();
    // A push constant has no initializer: the CPU writes it every frame.
    emit3(&mut b, OP_VARIABLE, ptr_pushconstant_struct_ty, mvp_var, STORAGE_CLASS_PUSH_CONSTANT);

    let ptr_pushconstant_v4float_ty = b.id();
    emit3(&mut b, OP_TYPE_POINTER, ptr_pushconstant_v4float_ty, STORAGE_CLASS_PUSH_CONSTANT, v4float_ty);

    // Struct member indices in `OpAccessChain` must be constants, hence seven
    // integer constants.
    let int_ty = b.id();
    emit3(&mut b, OP_TYPE_INT, int_ty, 32, 1);
    assert(b.spec_body() == spec_vertex_types(annotated));
    let ghost typed = b.spec_body();
    let mut int_consts: Vec<u32> = Vec::new();
    let mut i: u32 = 0;
    while i < 7
        invariant
            b.wf(),
            i <= 7,
            int_ty == 21,
            b.spec_next_id() == 22 + i,
            b.spec_body() == spec_int_constants(typed, i as nat),
            int_consts@.len() == i,
            forall|j: int| 0 <= j < i ==> #[trigger] int_consts@[j] == 22 + j,
        decreases 7 - i,
    {
        let id = b.id();
        emit3(&mut b, OP_CONSTANT, int_ty, id, i);
        int_consts.push(id);
        i = i + 1;
    }
    let ghost counted = b.spec_body();

    let ptr_input_v3float_ty = b.id();
    emit3(&mut b, OP_TYPE_POINTER, ptr_input_v3float_ty, STORAGE_CLASS_INPUT, v3float_ty);
    emit3(&mut b, OP_VARIABLE, ptr_input_v3float_ty, in_position_var, STORAGE_CLASS_INPUT);
    emit3(&mut b, OP_VARIABLE, ptr_input_v3float_ty, in_normal_var, STORAGE_CLASS_INPUT);

    let ptr_input_v2float_ty = b.id();
    emit3(&mut b, OP_TYPE_POINTER, ptr_input_v2float_ty, STORAGE_CLASS_INPUT, v2float_ty);
    emit3(&mut b, OP_VARIABLE, ptr_input_v2float_ty, in_uv_var, STORAGE_CLASS_INPUT);

    let ptr_output_v4float_ty = b.id();
    emit3(&mut b, OP_TYPE_POINTER, ptr_output_v4float_ty, STORAGE_CLASS_OUTPUT, v4float_ty);
    emit3(&mut b, OP_VARIABLE, ptr_output_v4float_ty, position_var, STORAGE_CLASS_OUTPUT);

    let ptr_output_v3float_ty = b.id();
    emit3(&mut b, OP_TYPE_POINTER, ptr_output_v3float_ty, STORAGE_CLASS_OUTPUT, v3float_ty);
    emit3(&mut b, OP_VARIABLE, ptr_output_v3float_ty, out_color_var, STORAGE_CLASS_OUTPUT);

    let ptr_output_v2float_ty = b.id();
    emit3(&mut b, OP_TYPE_POINTER, ptr_output_v2float_ty, STORAGE_CLASS_OUTPUT, v2float_ty);
    emit3(&mut b, OP_VARIABLE, ptr_output_v2float_ty, out_uv_var, STORAGE_CLASS_OUTPUT);
    assert(b.spec_body() == spec_vertex_variables(counted));
    let ghost declared = b.spec_body();

    // Direction towards the light, already normalised; `w = 0` since it is a
    // direction, kept as a vec4 because `OpDot` wants operands of one size.
    let light_x = b.id();
    emit3(&mut b, OP_CONSTANT, float_ty, light_x, shading.light_x_bits);
    let light_y = b.id();
    emit3(&mut b, OP_CONSTANT, float_ty, light_y, shading.light_y_bits);
    let light_z = b.id();
    emit3(&mut b, OP_CONSTANT, float_ty, light_z, shading.light_z_bits);
    let light_dir_v4 = b.id();
    emit6(&mut b, OP_CONSTANT_COMPOSITE, v4float_ty, light_dir_v4, light_x, light_y, light_z, float_0);
    let ambient = b.id();
    emit3(&mut b, OP_CONSTANT, float_ty, ambient, shading.ambient_bits);
    let one_minus_ambient = b.id();
    emit3(&mut b, OP_CONSTANT, float_ty, one_minus_ambient, shading.one_minus_ambient_bits);

    // Orange base colour. Red and blue reuse `float_1` and `float_0`: two
    // `OpConstant` of one type and value would be a layout error.
    let base_g = b.id();
    emit3(&mut b, OP_CONSTANT, float_ty, base_g, BASE_GREEN_BITS);
    let base_color = b.id();
    emit5(&mut b, OP_CONSTANT_COMPOSITE, v3float_ty, base_color, float_1, base_g, float_0);
    assert(b.spec_body() == spec_vertex_constants(declared, *shading));
    let ghost constants = b.spec_body();

    emit4(&mut b, OP_FUNCTION, void_ty, main_id, FUNCTION_CONTROL_NONE, voidfn_ty);
    let entry_label = b.id();
    emit1(&mut b, OP_LABEL, entry_label);
    assert(b.spec_body() == spec_vertex_entry(constants));
    let ghost entered = b.spec_body();

    // Seven columns of the push constant, one access chain per member: the
    // first four are the MVP matrix, the next three the normal matrix.
    let mut cols: Vec<u32> = Vec::new();
    let mut k: usize = 0;
    while k < 7
        invariant
            b.wf(),
            k <= 7,
            int_consts@.len() == 7,
            forall|j: int| 0 <= j < 7 ==> #[trigger] int_consts@[j] == 22 + j,
            ptr_pushconstant_v4float_ty == 20,
            mvp_var == 19,
            v4float_ty == 8,
            b.spec_next_id() == 43 + 2 * k,
            b.spec_body() == spec_column_loads(entered, k as nat),
            cols@.len() == k,
            forall|j: int| 0 <= j < k ==> #[trigger] cols@[j] == 44 + 2 * j,
        decreases 7 - k,
    {
        let access = b.id();
        emit4(&mut b, OP_ACCESS_CHAIN, ptr_pushconstant_v4float_ty, access, mvp_var, int_consts[k]);
        let col = b.id();
        emit3(&mut b, OP_LOAD, v4float_ty, col, access);
        cols.push(col);
        k = k + 1;
    }
    let ghost loaded = b.spec_body();

    // Position to clip space: each component splatted into a vec4 and
    // multiplied by its column, the columns summed.
    let position = b.id();
    emit3(&mut b, OP_LOAD, v3float_ty, position, in_position_var);
    let px = b.id();
    emit4(&mut b, OP_COMPOSITE_EXTRACT, float_ty, px, position, 0);
    let py = b.id();
    emit4(&mut b, OP_COMPOSITE_EXTRACT, float_ty, py, position, 1);
    let pz = b.id();
    emit4(&mut b, OP_COMPOSITE_EXTRACT, float_ty, pz, position, 2);

    let splat_x = b.id();
    emit6(&mut b, OP_COMPOSITE_CONSTRUCT, v4float_ty, splat_x, px, px, px, px);
    let splat_y = b.id();
    emit6(&mut b, OP_COMPOSITE_CONSTRUCT, v4float_ty, splat_y, py, py, py, py);
    let splat_z = b.id();
    emit6(&mut b, OP_COMPOSITE_CONSTRUCT, v4float_ty, splat_z, pz, pz, pz, pz);
    let splat_w = b.id();
    emit6(&mut b, OP_COMPOSITE_CONSTRUCT, v4float_ty, splat_w, float_1, float_1, float_1, float_1);

    let term0 = b.id();
    emit4(&mut b, OP_FMUL, v4float_ty, term0, cols[0], splat_x);
    let term1 = b.id();
    emit4(&mut b, OP_FMUL, v4float_ty, term1, cols[1], splat_y);
    let term2 = b.id();
    emit4(&mut b, OP_FMUL, v4float_ty, term2, cols[2], splat_z);
    let term3 = b.id();
    emit4(&mut b, OP_FMUL, v4float_ty, term3, cols[3], splat_w);

    let sum01 = b.id();
    emit4(&mut b, OP_FADD, v4float_ty, sum01, term0, term1);
    let sum012 = b.id();
    emit4(&mut b, OP_FADD, v4float_ty, sum012, sum01, term2);
    let clip_position = b.id();
    emit4(&mut b, OP_FADD, v4float_ty, clip_position, sum012, term3);
    emit2(&mut b, OP_STORE, position_var, clip_position);
    assert(b.spec_body() == spec_vertex_position(loaded));
    let ghost positioned = b.spec_body();

    // Normal to world space: the same splat-multiply-add over the three
    // columns of the normal matrix, without a translation term.
    let normal = b.id();
    emit3(&mut b, OP_LOAD, v3float_ty, normal, in_normal_var);
    let nx = b.id();
    emit4(&mut b, OP_COMPOSITE_EXTRACT, float_ty, nx, normal, 0);
    let ny = b.id();
    emit4(&mut b, OP_COMPOSITE_EXTRACT, float_ty, ny, normal, 1);
    let nz = b.id();
    emit4(&mut b, OP_COMPOSITE_EXTRACT, float_ty, nz, normal, 2);

    let nsplat_x = b.id();
    emit6(&mut b, OP_COMPOSITE_CONSTRUCT, v4float_ty, nsplat_x, nx, nx, nx, nx);
    let nsplat_y = b.id();
    emit6(&mut b, OP_COMPOSITE_CONSTRUCT, v4float_ty, nsplat_y, ny, ny, ny, ny);
    let nsplat_z = b.id();
    emit6(&mut b, OP_COMPOSITE_CONSTRUCT, v4float_ty, nsplat_z, nz, nz, nz, nz);

    let nterm0 = b.id();
    emit4(&mut b, OP_FMUL, v4float_ty, nterm0, cols[4], nsplat_x);
    let nterm1 = b.id();
    emit4(&mut b, OP_FMUL, v4float_ty, nterm1, cols[5], nsplat_y);
    let nterm2 = b.id();
    emit4(&mut b, OP_FMUL, v4float_ty, nterm2, cols[6], nsplat_z);

    let nsum01 = b.id();
    emit4(&mut b, OP_FADD, v4float_ty, nsum01, nterm0, nterm1);
    let world_normal = b.id();
    emit4(&mut b, OP_FADD, v4float_ty, world_normal, nsum01, nterm2);

    // The normal matrix is not a rotation under non-uniform scale, so the
    // world normal is normalised; `w = 0` does not change its length.
    let normalized_normal = b.id();
    emit5(&mut b, OP_EXT_INST, v4float_ty, normalized_normal, glsl_ext, GLSL_STD_450_NORMALIZE, world_normal);

    let lambert_raw = b.id();
    emit4(&mut b, OP_DOT, float_ty, lambert_raw, normalized_normal, light_dir_v4);
    let lambert = b.id();
    emit6(&mut b, OP_EXT_INST, float_ty, lambert, glsl_ext, GLSL_STD_450_FMAX, lambert_raw, float_0);

    let scaled = b.id();
    emit4(&mut b, OP_FMUL, float_ty, scaled, one_minus_ambient, lambert);
    let intensity = b.id();
    emit4(&mut b, OP_FADD, float_ty, intensity, ambient, scaled);

    let intensity_v3 = b.id();
    emit5(&mut b, OP_COMPOSITE_CONSTRUCT, v3float_ty, intensity_v3, intensity, intensity, intensity);
    let out_color = b.id();
    emit4(&mut b, OP_FMUL, v3float_ty, out_color, base_color, intensity_v3);
    emit2(&mut b, OP_STORE, out_color_var, out_color);

    // The UV takes no part in the matrices or the lighting.
    let uv = b.id();
    emit3(&mut b, OP_LOAD, v2float_ty, uv, in_uv_var);
    emit2(&mut b, OP_STORE, out_uv_var, uv);

    emit0(&mut b, OP_RETURN);
    emit0(&mut b, OP_FUNCTION_END);
    assert(b.spec_body() == spec_vertex_lighting(positioned));
    b.finish()
}

/// `VkShaderModuleCreateInfo::codeSize`: the module's size in BYTES, four per
/// word. Declaring it in words would cut the module to a quarter and break
/// the parse in the middle of an instruction.
pub fn spirv_code_size(word_count: usize) -> (bytes: usize)
    requires
        word_count * 4 <= usize::MAX,
    ensures
        bytes == word_count * 4,
{
    word_count * 4
}

} // verus!
