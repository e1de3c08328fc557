//! What the shaders compute. A module's instructions are run one after the
//! other on a symbolic state: every result id gets the value it computes as
//! an expression over what the shader reads (its inputs by location, the
//! push constants by member, the texture by binding) and the constants it
//! embeds; every store to an output records that expression under the
//! output's location or builtin. Arithmetic is kept as expressions, not
//! evaluated: the laws below say which expression each output is, for every
//! value the inputs may take.

use vstd::prelude::*;
use crate::shader::{
    is_instruction_stream, spec_instruction, spec_instruction_header, spec_module_words, spec_word_count,
    spec_fragment_module, spec_vertex_module, spec_fragment_function, spec_fragment_variables,
    spec_fragment_types, spec_fragment_decorations, spec_fragment_preamble, spec_vertex_preamble,
    spec_vertex_decorations, spec_member_offsets, spec_vertex_types, spec_int_constants, spec_vertex_variables,
    spec_vertex_constants, spec_vertex_entry, spec_column_loads, spec_vertex_position, spec_vertex_lighting,
    STORAGE_CLASS_PUSH_CONSTANT, ShadingConstants, BASE_GREEN_BITS, BUILTIN_POSITION,
    DECORATION_BINDING, DECORATION_BUILTIN, DECORATION_LOCATION, FLOAT_ONE_BITS, FLOAT_ZERO_BITS,
    GLSL_STD_450_FMAX, GLSL_STD_450_NORMALIZE, OP_ACCESS_CHAIN, OP_COMPOSITE_CONSTRUCT, OP_COMPOSITE_EXTRACT,
    OP_CONSTANT, OP_CONSTANT_COMPOSITE, OP_DECORATE, OP_DOT, OP_EXT_INST, OP_FADD, OP_FMUL,
    OP_IMAGE_SAMPLE_IMPLICIT_LOD, OP_LOAD, OP_STORE, OP_TYPE_FLOAT, OP_TYPE_INT, OP_TYPE_VECTOR, OP_VARIABLE,
    SPIRV_HEADER_WORDS, STORAGE_CLASS_INPUT,
};

verus! {

/// A value a shader computes, as an expression over what it reads.
pub enum Term {
    /// Component `component` of the input variable at `location`.
    Input { location: u32, component: nat },
    /// Component `component` of member `member` of the push-constant block.
    PushConstant { member: u32, component: nat },
    /// A constant, by its 32-bit pattern.
    Constant { bits: u32 },
    /// Component `component` of what the texture at `binding` gives at
    /// `coordinate`.
    Texel { binding: u32, component: nat, coordinate: Seq<Term> },
    /// The product of two scalars.
    Mul(Box<Term>, Box<Term>),
    /// The sum of two scalars.
    Add(Box<Term>, Box<Term>),
    /// The larger of two scalars.
    Max(Box<Term>, Box<Term>),
    /// Component `component` of the vector `of` scaled to unit length.
    Normalized { component: nat, of: Seq<Term> },
}

/// Where a store sends its value.
pub enum Destination {
    /// The output variable at this location.
    Location(u32),
    /// The output variable bound to this builtin.
    BuiltIn(u32),
}

/// What running instructions has established: the value of each result id,
/// the component count of each scalar and vector type, the storage class of
/// each variable and its location, builtin or binding, the push-constant
/// member each access chain points at, the texture variable each loaded
/// image came from, and what was stored into each output.
pub struct ShaderState {
    pub values: Map<u32, Seq<Term>>,
    pub widths: Map<u32, nat>,
    pub storage: Map<u32, u32>,
    pub locations: Map<u32, u32>,
    pub builtins: Map<u32, u32>,
    pub bindings: Map<u32, u32>,
    pub chains: Map<u32, u32>,
    pub images: Map<u32, u32>,
    pub outputs: Map<Destination, Seq<Term>>,
}

/// Nothing established yet.
pub open spec fn spec_initial_state() -> ShaderState {
    ShaderState {
        values: Map::empty(),
        widths: Map::empty(),
        storage: Map::empty(),
        locations: Map::empty(),
        builtins: Map::empty(),
        bindings: Map::empty(),
        chains: Map::empty(),
        images: Map::empty(),
        outputs: Map::empty(),
    }
}

pub open spec fn spec_mul(a: Term, b: Term) -> Term {
    Term::Mul(Box::new(a), Box::new(b))
}

pub open spec fn spec_add(a: Term, b: Term) -> Term {
    Term::Add(Box::new(a), Box::new(b))
}

pub open spec fn spec_max(a: Term, b: Term) -> Term {
    Term::Max(Box::new(a), Box::new(b))
}

/// The values of `ids`, one after the other: how a composite is built from
/// its constituents.
pub open spec fn spec_components(st: ShaderState, ids: Seq<u32>) -> Seq<Term>
    decreases ids.len(),
{
    if ids.len() == 0 {
        Seq::empty()
    } else {
        spec_components(st, ids.drop_last()) + st.values[ids.last()]
    }
}

/// `a0 * b0 + a1 * b1 + ...`, summed from the first component on.
pub open spec fn spec_dot(a: Seq<Term>, b: Seq<Term>) -> Term
    decreases a.len(),
{
    if a.len() <= 1 {
        spec_mul(a[0], b[0])
    } else {
        spec_add(spec_dot(a.drop_last(), b.drop_last()), spec_mul(a.last(), b.last()))
    }
}

/// Where a store to `pointer` goes.
pub open spec fn spec_destination(st: ShaderState, pointer: u32) -> Destination {
    if st.builtins.dom().contains(pointer) {
        Destination::BuiltIn(st.builtins[pointer])
    } else {
        Destination::Location(st.locations[pointer])
    }
}

/// The 32-bit pattern of the constant `id`.
pub open spec fn spec_literal(st: ShaderState, id: u32) -> u32 {
    match st.values[id][0] {
        Term::Constant { bits } => bits,
        _ => 0,
    }
}

/// The value a load of `width` components from `pointer` gives: the member
/// of the push constant an access chain points at, or the input variable.
pub open spec fn spec_loaded(st: ShaderState, pointer: u32, width: nat) -> Seq<Term> {
    if st.chains.dom().contains(pointer) {
        Seq::new(width, |k: int| Term::PushConstant { member: st.chains[pointer], component: k as nat })
    } else {
        Seq::new(width, |k: int| Term::Input { location: st.locations[pointer], component: k as nat })
    }
}

/// The effect of one instruction `opcode` with `operands`. Instructions that
/// compute nothing a shader outputs (capabilities, entry points, pointer
/// and function types, labels, returns) leave the state as it is.
pub open spec fn spec_execute(st: ShaderState, opcode: u32, ops: Seq<u32>) -> ShaderState {
    if opcode == OP_TYPE_FLOAT || opcode == OP_TYPE_INT {
        ShaderState { widths: st.widths.insert(ops[0], 1), ..st }
    } else if opcode == OP_TYPE_VECTOR {
        ShaderState { widths: st.widths.insert(ops[0], ops[2] as nat), ..st }
    } else if opcode == OP_VARIABLE {
        ShaderState { storage: st.storage.insert(ops[1], ops[2]), ..st }
    } else if opcode == OP_DECORATE {
        if ops[1] == DECORATION_LOCATION {
            ShaderState { locations: st.locations.insert(ops[0], ops[2]), ..st }
        } else if ops[1] == DECORATION_BUILTIN {
            ShaderState { builtins: st.builtins.insert(ops[0], ops[2]), ..st }
        } else if ops[1] == DECORATION_BINDING {
            ShaderState { bindings: st.bindings.insert(ops[0], ops[2]), ..st }
        } else {
            st
        }
    } else if opcode == OP_CONSTANT {
        ShaderState { values: st.values.insert(ops[1], seq![Term::Constant { bits: ops[2] }]), ..st }
    } else if opcode == OP_CONSTANT_COMPOSITE || opcode == OP_COMPOSITE_CONSTRUCT {
        ShaderState {
            values: st.values.insert(ops[1], spec_components(st, ops.subrange(2, ops.len() as int))),
            ..st
        }
    } else if opcode == OP_ACCESS_CHAIN {
        ShaderState { chains: st.chains.insert(ops[1], spec_literal(st, ops[3])), ..st }
    } else if opcode == OP_LOAD {
        if !st.chains.dom().contains(ops[2]) && st.storage[ops[2]] != STORAGE_CLASS_INPUT {
            ShaderState { images: st.images.insert(ops[1], ops[2]), ..st }
        } else {
            ShaderState { values: st.values.insert(ops[1], spec_loaded(st, ops[2], st.widths[ops[0]])), ..st }
        }
    } else if opcode == OP_STORE {
        ShaderState { outputs: st.outputs.insert(spec_destination(st, ops[0]), st.values[ops[1]]), ..st }
    } else if opcode == OP_COMPOSITE_EXTRACT {
        ShaderState { values: st.values.insert(ops[1], seq![st.values[ops[2]][ops[3] as int]]), ..st }
    } else if opcode == OP_FMUL || opcode == OP_FADD {
        let a = st.values[ops[2]];
        let b = st.values[ops[3]];
        let value = if opcode == OP_FMUL {
            Seq::new(a.len(), |k: int| spec_mul(a[k], b[k]))
        } else {
            Seq::new(a.len(), |k: int| spec_add(a[k], b[k]))
        };
        ShaderState { values: st.values.insert(ops[1], value), ..st }
    } else if opcode == OP_DOT {
        ShaderState { values: st.values.insert(ops[1], seq![spec_dot(st.values[ops[2]], st.values[ops[3]])]), ..st }
    } else if opcode == OP_EXT_INST && ops[3] == GLSL_STD_450_NORMALIZE {
        let v = st.values[ops[4]];
        ShaderState {
            values: st.values.insert(ops[1], Seq::new(v.len(), |k: int| Term::Normalized { component: k as nat, of: v })),
            ..st
        }
    } else if opcode == OP_EXT_INST && ops[3] == GLSL_STD_450_FMAX {
        ShaderState {
            values: st.values.insert(ops[1], seq![spec_max(st.values[ops[4]][0], st.values[ops[5]][0])]),
            ..st
        }
    } else if opcode == OP_IMAGE_SAMPLE_IMPLICIT_LOD {
        let binding = st.bindings[st.images[ops[2]]];
        let coordinate = st.values[ops[3]];
        ShaderState {
            values: st.values.insert(
                ops[1],
                Seq::new(
                    st.widths[ops[0]],
                    |k: int| Term::Texel { binding, component: k as nat, coordinate },
                ),
            ),
            ..st
        }
    } else {
        st
    }
}

/// The opcode in an instruction's header: its low half.
pub open spec fn spec_opcode(header: u32) -> u32 {
    header & 0xFFFFu32
}

/// `words` run instruction by instruction from `st`; running stops at a
/// header that announces no word or more words than are left.
pub open spec fn spec_run(words: Seq<u32>, st: ShaderState) -> ShaderState
    decreases words.len(),
{
    if words.len() == 0 {
        st
    } else {
        let n = spec_word_count(words[0]);
        if 1 <= n <= words.len() {
            spec_run(
                words.subrange(n, words.len() as int),
                spec_execute(st, spec_opcode(words[0]), words.subrange(1, n)),
            )
        } else {
            st
        }
    }
}

/// What a module stores into its outputs, run from its first instruction.
pub open spec fn spec_shader_outputs(words: Seq<u32>) -> Map<Destination, Seq<Term>> {
    spec_run(words.subrange(SPIRV_HEADER_WORDS as int, words.len() as int), spec_initial_state()).outputs
}

/// Running two instruction streams one after the other is running the first,
/// then the second from where it left the state.
pub proof fn lemma_run_concat(a: Seq<u32>, b: Seq<u32>, st: ShaderState)
    requires
        is_instruction_stream(a),
    ensures
        spec_run(a + b, st) == spec_run(b, spec_run(a, st)),
    decreases a.len(),
{
    if a.len() == 0 {
        assert(a + b =~= b);
    } else {
        let n = spec_word_count(a[0]);
        let rest = a.subrange(n, a.len() as int);
        let st1 = spec_execute(st, spec_opcode(a[0]), a.subrange(1, n));
        lemma_run_concat(rest, b, st1);
        assert((a + b)[0] == a[0]);
        assert((a + b).subrange(n, (a + b).len() as int) =~= rest + b);
        assert((a + b).subrange(1, n) =~= a.subrange(1, n));
    }
}

/// One instruction written after a stream leaves a stream.
pub broadcast proof fn lemma_stream_appended(a: Seq<u32>, opcode: u32, operands: Seq<u32>)
    requires
        is_instruction_stream(a),
        opcode < 0x1_0000,
        operands.len() < 0xFFFF,
    ensures
        is_instruction_stream(#[trigger] (a + spec_instruction(opcode, operands))),
{
    crate::shader::lemma_single_instruction(opcode, operands);
    crate::shader::lemma_stream_concat(a, spec_instruction(opcode, operands));
}

/// Running a stream with one instruction written after it is running the
/// stream, then the instruction.
pub broadcast proof fn lemma_run_appended(a: Seq<u32>, opcode: u32, operands: Seq<u32>, st: ShaderState)
    requires
        is_instruction_stream(a),
        opcode < 0x1_0000,
        operands.len() < 0xFFFF,
    ensures
        #[trigger] spec_run(a + spec_instruction(opcode, operands), st) == spec_execute(
            spec_run(a, st),
            opcode,
            operands,
        ),
{
    let i = spec_instruction(opcode, operands);
    let wc = (1 + operands.len()) as u32;
    assert(((wc << 16u32) | opcode) >> 16u32 == wc && ((wc << 16u32) | opcode) & 0xFFFFu32 == opcode)
        by (bit_vector)
        requires
            wc < 0x1_0000,
            opcode < 0x1_0000,
    ;
    assert(i[0] == spec_instruction_header(opcode, operands.len()));
    assert(i.subrange(1, wc as int) =~= operands);
    assert(i.subrange(wc as int, i.len() as int) =~= Seq::<u32>::empty());
    lemma_run_concat(a, i, st);
    let s1 = spec_run(a, st);
    assert(spec_run(i.subrange(wc as int, i.len() as int), spec_execute(s1, opcode, operands)) == spec_execute(
        s1,
        opcode,
        operands,
    ));
}

/// A module's outputs are those of its body, after the five header words.
pub proof fn lemma_module_body(bound: u32, body: Seq<u32>)
    ensures
        spec_shader_outputs(spec_module_words(bound, body)) == spec_run(body, spec_initial_state()).outputs,
{
    let w = spec_module_words(bound, body);
    assert(w.subrange(SPIRV_HEADER_WORDS as int, w.len() as int) =~= body);
}

/// The fragment shader's annotations: the interface locations and the
/// texture's binding.
proof fn lemma_fragment_annotations(st: ShaderState)
    ensures
        is_instruction_stream(spec_fragment_decorations(spec_fragment_preamble(Seq::empty()))),
        ({
            let s = spec_run(spec_fragment_decorations(spec_fragment_preamble(Seq::empty())), st);
            &&& s.locations == st.locations.insert(8, 0).insert(9, 1).insert(11, 0)
            &&& s.bindings == st.bindings.insert(10, 0)
            &&& s.builtins == st.builtins
            &&& s.widths == st.widths
            &&& s.values == st.values
            &&& s.storage == st.storage
            &&& s.chains == st.chains
        }),
{
    broadcast use lemma_run_appended, lemma_stream_appended;
    assert(is_instruction_stream(Seq::<u32>::empty()));
    assert(spec_run(Seq::<u32>::empty(), st) == st);
}

/// The fragment shader's types and constants.
proof fn lemma_fragment_types(w: Seq<u32>, st: ShaderState)
    requires
        is_instruction_stream(w),
    ensures
        is_instruction_stream(spec_fragment_types(w)),
        ({
            let s0 = spec_run(w, st);
            let s = spec_run(spec_fragment_types(w), st);
            &&& s.widths == s0.widths.insert(4, 1).insert(5, 2).insert(6, 3).insert(7, 4)
            &&& s.values == s0.values.insert(12, seq![Term::Constant { bits: FLOAT_ONE_BITS }])
            &&& s.locations == s0.locations
            &&& s.bindings == s0.bindings
            &&& s.builtins == s0.builtins
            &&& s.storage == s0.storage
            &&& s.chains == s0.chains
        }),
{
    broadcast use lemma_run_appended, lemma_stream_appended;
}

/// The fragment shader's variables: two inputs, the texture, one output.
proof fn lemma_fragment_variables(w: Seq<u32>, st: ShaderState)
    requires
        is_instruction_stream(w),
    ensures
        is_instruction_stream(spec_fragment_variables(w)),
        ({
            let s0 = spec_run(w, st);
            let s = spec_run(spec_fragment_variables(w), st);
            &&& s.storage == s0.storage.insert(8, 1).insert(9, 1).insert(10, 0).insert(11, 3)
            &&& s.widths == s0.widths
            &&& s.values == s0.values
            &&& s.locations == s0.locations
            &&& s.bindings == s0.bindings
            &&& s.builtins == s0.builtins
            &&& s.chains == s0.chains
        }),
{
    broadcast use lemma_run_appended, lemma_stream_appended;
}

/// `main` of the fragment shader, run from a state that knows the types,
/// variables and annotations.
#[verifier::rlimit(100)]
proof fn lemma_fragment_function(w: Seq<u32>, st: ShaderState)
    requires
        is_instruction_stream(w),
        ({
            let s0 = spec_run(w, st);
            &&& s0.widths[5] == 2 && s0.widths[6] == 3 && s0.widths[7] == 4
            &&& s0.storage[8] == STORAGE_CLASS_INPUT && s0.storage[9] == STORAGE_CLASS_INPUT
            &&& s0.storage[10] == 0
            &&& !s0.chains.dom().contains(8) && !s0.chains.dom().contains(9) && !s0.chains.dom().contains(10)
            &&& s0.locations[8] == 0 && s0.locations[9] == 1 && s0.locations[11] == 0
            &&& s0.bindings[10] == 0
            &&& !s0.builtins.dom().contains(11)
            &&& s0.values[12] == seq![Term::Constant { bits: FLOAT_ONE_BITS }]
        }),
    ensures
        spec_run(spec_fragment_function(w), st).outputs[Destination::Location(0)] == seq![
            spec_mul(spec_fragment_texel(0), Term::Input { location: 0, component: 0 }),
            spec_mul(spec_fragment_texel(1), Term::Input { location: 0, component: 1 }),
            spec_mul(spec_fragment_texel(2), Term::Input { location: 0, component: 2 }),
            Term::Constant { bits: FLOAT_ONE_BITS },
        ],
{
    broadcast use lemma_run_appended, lemma_stream_appended;
    let s = spec_run(spec_fragment_function(w), st);
    let colour = seq![
        Term::Input { location: 0, component: 0 },
        Term::Input { location: 0, component: 1 },
        Term::Input { location: 0, component: 2 },
    ];
    let uv = seq![Term::Input { location: 1, component: 0 }, Term::Input { location: 1, component: 1 }];
    assert(s.values[20] =~= colour);
    assert(s.values[21] =~= uv);
    assert(s.images[22] == 10);
    assert(s.values[23][0] == spec_fragment_texel(0));
    assert(s.values[24] =~= seq![spec_fragment_texel(0)]);
    reveal_with_fuel(spec_components, 4);
    assert(s.values[27] =~= seq![spec_fragment_texel(0), spec_fragment_texel(1), spec_fragment_texel(2)]);
    assert(s.values[28] =~= seq![
        spec_mul(spec_fragment_texel(0), colour[0]),
        spec_mul(spec_fragment_texel(1), colour[1]),
        spec_mul(spec_fragment_texel(2), colour[2]),
    ]);
}

/// Component `k` of the texel the fragment shader samples: the texture at
/// binding 0 read at the UV interpolated at input location 1.
pub open spec fn spec_fragment_texel(k: nat) -> Term {
    Term::Texel {
        binding: 0,
        component: k,
        coordinate: seq![Term::Input { location: 1, component: 0 }, Term::Input { location: 1, component: 1 }],
    }
}

/// The fragment shader writes, at output location 0, the texel's red, green
/// and blue each multiplied by the same component of the colour interpolated
/// at input location 0, and an alpha of 1.0: a white texel gives the colour
/// back, a white colour the texel, whatever values they take.
pub proof fn law_fragment_multiplies_texel_by_colour()
    ensures
        spec_shader_outputs(spec_fragment_module())[Destination::Location(0)] == seq![
            spec_mul(spec_fragment_texel(0), Term::Input { location: 0, component: 0 }),
            spec_mul(spec_fragment_texel(1), Term::Input { location: 0, component: 1 }),
            spec_mul(spec_fragment_texel(2), Term::Input { location: 0, component: 2 }),
            Term::Constant { bits: FLOAT_ONE_BITS },
        ],
{
    let preamble = spec_fragment_preamble(Seq::empty());
    let decorated = spec_fragment_decorations(preamble);
    let typed = spec_fragment_types(decorated);
    let declared = spec_fragment_variables(typed);
    let init = spec_initial_state();
    lemma_fragment_annotations(init);
    lemma_fragment_types(decorated, init);
    lemma_fragment_variables(typed, init);
    lemma_fragment_function(declared, init);
    lemma_module_body(
        30,
        spec_fragment_function(
            spec_fragment_variables(
                spec_fragment_types(spec_fragment_decorations(spec_fragment_preamble(Seq::empty()))),
            ),
        ),
    );
}

/// Component `component` of push-constant member `member`.
pub open spec fn spec_push(member: u32, component: nat) -> Term {
    Term::PushConstant { member, component }
}

/// Component `component` of the input at `location`.
pub open spec fn spec_input(location: u32, component: nat) -> Term {
    Term::Input { location, component }
}

/// Push-constant member `member` as a vec4.
pub open spec fn spec_column(member: u32) -> Seq<Term> {
    seq![spec_push(member, 0), spec_push(member, 1), spec_push(member, 2), spec_push(member, 3)]
}

/// Component `k` of `MVP * (x, y, z, 1)`: the MVP's columns are push-constant
/// members 0 to 3, the position (x, y, z) is the input at location 0, and
/// the fourth column enters with weight 1.0.
pub open spec fn spec_clip_component(k: nat) -> Term {
    spec_add(
        spec_add(
            spec_add(spec_mul(spec_push(0, k), spec_input(0, 0)), spec_mul(spec_push(1, k), spec_input(0, 1))),
            spec_mul(spec_push(2, k), spec_input(0, 2)),
        ),
        spec_mul(spec_push(3, k), Term::Constant { bits: FLOAT_ONE_BITS }),
    )
}

/// Component `k` of the world normal `N * (nx, ny, nz)`: the normal matrix's
/// columns are push-constant members 4 to 6, the normal is the input at
/// location 1.
pub open spec fn spec_world_normal_component(k: nat) -> Term {
    spec_add(
        spec_add(spec_mul(spec_push(4, k), spec_input(1, 0)), spec_mul(spec_push(5, k), spec_input(1, 1))),
        spec_mul(spec_push(6, k), spec_input(1, 2)),
    )
}

/// The world normal, a direction (w = 0 throughout, since no translation
/// column enters).
pub open spec fn spec_world_normal() -> Seq<Term> {
    seq![
        spec_world_normal_component(0),
        spec_world_normal_component(1),
        spec_world_normal_component(2),
        spec_world_normal_component(3),
    ]
}

/// Component `k` of the world normal scaled to unit length.
pub open spec fn spec_unit_normal(k: nat) -> Term {
    Term::Normalized { component: k, of: spec_world_normal() }
}

/// `dot(N, L)`: the unit world normal against the light's direction, whose
/// fourth component is 0.0.
pub open spec fn spec_normal_dot_light(shading: ShadingConstants) -> Term {
    spec_add(
        spec_add(
            spec_add(
                spec_mul(spec_unit_normal(0), Term::Constant { bits: shading.light_x_bits }),
                spec_mul(spec_unit_normal(1), Term::Constant { bits: shading.light_y_bits }),
            ),
            spec_mul(spec_unit_normal(2), Term::Constant { bits: shading.light_z_bits }),
        ),
        spec_mul(spec_unit_normal(3), Term::Constant { bits: FLOAT_ZERO_BITS }),
    )
}

/// The Lambert intensity `ambient + (1 - ambient) * max(dot(N, L), 0)`.
pub open spec fn spec_intensity(shading: ShadingConstants) -> Term {
    spec_add(
        Term::Constant { bits: shading.ambient_bits },
        spec_mul(
            Term::Constant { bits: shading.one_minus_ambient_bits },
            spec_max(spec_normal_dot_light(shading), Term::Constant { bits: FLOAT_ZERO_BITS }),
        ),
    )
}

/// The lit colour: each component of the orange base colour (1.0, 0.55,
/// 0.0) times the intensity.
pub open spec fn spec_lit_colour(shading: ShadingConstants) -> Seq<Term> {
    seq![
        spec_mul(Term::Constant { bits: FLOAT_ONE_BITS }, spec_intensity(shading)),
        spec_mul(Term::Constant { bits: BASE_GREEN_BITS }, spec_intensity(shading)),
        spec_mul(Term::Constant { bits: FLOAT_ZERO_BITS }, spec_intensity(shading)),
    ]
}

/// Member decorations change nothing the shader computes.
proof fn lemma_member_offsets_run(w: Seq<u32>, st: ShaderState, n: nat)
    requires
        is_instruction_stream(w),
        n <= 7,
    ensures
        is_instruction_stream(spec_member_offsets(w, n)),
        spec_run(spec_member_offsets(w, n), st) == spec_run(w, st),
    decreases n,
{
    broadcast use lemma_run_appended, lemma_stream_appended;
    if n > 0 {
        lemma_member_offsets_run(w, st, (n - 1) as nat);
    }
}

/// The vertex shader's annotations: interface locations and the builtin
/// position.
proof fn lemma_vertex_annotations(st: ShaderState)
    ensures
        is_instruction_stream(spec_member_offsets(spec_vertex_decorations(spec_vertex_preamble(Seq::empty())), 7)),
        ({
            let s = spec_run(spec_member_offsets(spec_vertex_decorations(spec_vertex_preamble(Seq::empty())), 7), st);
            &&& s.locations == st.locations.insert(9, 0).insert(10, 1).insert(11, 2).insert(13, 0).insert(14, 1)
            &&& s.builtins == st.builtins.insert(12, BUILTIN_POSITION)
            &&& s.bindings == st.bindings
            &&& s.widths == st.widths
            &&& s.values == st.values
            &&& s.storage == st.storage
            &&& s.chains == st.chains
            &&& s.outputs == st.outputs
        }),
{
    broadcast use lemma_run_appended, lemma_stream_appended;
    assert(is_instruction_stream(Seq::<u32>::empty()));
    assert(spec_run(Seq::<u32>::empty(), st) == st);
    lemma_member_offsets_run(spec_vertex_decorations(spec_vertex_preamble(Seq::empty())), st, 7);
}

/// The vertex shader's types, the constants 1.0 and 0.0, and the push
/// constant's variable.
proof fn lemma_vertex_types(w: Seq<u32>, st: ShaderState)
    requires
        is_instruction_stream(w),
    ensures
        is_instruction_stream(spec_vertex_types(w)),
        ({
            let s0 = spec_run(w, st);
            let s = spec_run(spec_vertex_types(w), st);
            &&& s.widths == s0.widths.insert(5, 1).insert(6, 2).insert(7, 3).insert(8, 4).insert(21, 1)
            &&& s.values == s0.values.insert(16, seq![Term::Constant { bits: FLOAT_ONE_BITS }]).insert(
                17,
                seq![Term::Constant { bits: FLOAT_ZERO_BITS }],
            )
            &&& s.storage == s0.storage.insert(19, STORAGE_CLASS_PUSH_CONSTANT)
            &&& s.locations == s0.locations
            &&& s.bindings == s0.bindings
            &&& s.builtins == s0.builtins
            &&& s.chains == s0.chains
            &&& s.outputs == s0.outputs
        }),
{
    broadcast use lemma_run_appended, lemma_stream_appended;
}

/// The integer constants 0 to `n - 1` as ids 22 onwards.
proof fn lemma_int_constants_run(w: Seq<u32>, st: ShaderState, n: nat)
    requires
        is_instruction_stream(w),
        n <= 7,
    ensures
        is_instruction_stream(spec_int_constants(w, n)),
        ({
            let s0 = spec_run(w, st);
            let s = spec_run(spec_int_constants(w, n), st);
            &&& forall|k: u32| k < n ==> #[trigger] s.values[(22 + k) as u32] == seq![Term::Constant { bits: k }]
            &&& forall|id: u32| (id < 22 || id >= 22 + n) ==> #[trigger] s.values[id] == s0.values[id]
            &&& s.widths == s0.widths
            &&& s.storage == s0.storage
            &&& s.locations == s0.locations
            &&& s.bindings == s0.bindings
            &&& s.builtins == s0.builtins
            &&& s.chains == s0.chains
            &&& s.outputs == s0.outputs
        }),
    decreases n,
{
    broadcast use lemma_run_appended, lemma_stream_appended;
    if n > 0 {
        lemma_int_constants_run(w, st, (n - 1) as nat);
    }
}

/// The vertex shader's interface variables.
proof fn lemma_vertex_variables(w: Seq<u32>, st: ShaderState)
    requires
        is_instruction_stream(w),
    ensures
        is_instruction_stream(spec_vertex_variables(w)),
        ({
            let s0 = spec_run(w, st);
            let s = spec_run(spec_vertex_variables(w), st);
            &&& s.storage == s0.storage.insert(9, 1).insert(10, 1).insert(11, 1).insert(12, 3).insert(13, 3).insert(
                14,
                3,
            )
            &&& s.widths == s0.widths
            &&& s.values == s0.values
            &&& s.locations == s0.locations
            &&& s.bindings == s0.bindings
            &&& s.builtins == s0.builtins
            &&& s.chains == s0.chains
            &&& s.outputs == s0.outputs
        }),
{
    broadcast use lemma_run_appended, lemma_stream_appended;
}

/// The lighting constants and the base colour, then the entry of `main`.
#[verifier::rlimit(50)]
proof fn lemma_vertex_constants(w: Seq<u32>, st: ShaderState, shading: ShadingConstants)
    requires
        is_instruction_stream(w),
        spec_run(w, st).values[17] == seq![Term::Constant { bits: FLOAT_ZERO_BITS }],
        spec_run(w, st).values[16] == seq![Term::Constant { bits: FLOAT_ONE_BITS }],
    ensures
        is_instruction_stream(spec_vertex_entry(spec_vertex_constants(w, shading))),
        ({
            let s0 = spec_run(w, st);
            let s = spec_run(spec_vertex_entry(spec_vertex_constants(w, shading)), st);
            &&& s.values[37] == seq![
                Term::Constant { bits: shading.light_x_bits },
                Term::Constant { bits: shading.light_y_bits },
                Term::Constant { bits: shading.light_z_bits },
                Term::Constant { bits: FLOAT_ZERO_BITS },
            ]
            &&& s.values[38] == seq![Term::Constant { bits: shading.ambient_bits }]
            &&& s.values[39] == seq![Term::Constant { bits: shading.one_minus_ambient_bits }]
            &&& s.values[41] == seq![
                Term::Constant { bits: FLOAT_ONE_BITS },
                Term::Constant { bits: BASE_GREEN_BITS },
                Term::Constant { bits: FLOAT_ZERO_BITS },
            ]
            &&& forall|id: u32| id < 34 ==> #[trigger] s.values[id] == s0.values[id]
            &&& s.widths == s0.widths
            &&& s.storage == s0.storage
            &&& s.locations == s0.locations
            &&& s.bindings == s0.bindings
            &&& s.builtins == s0.builtins
            &&& s.chains == s0.chains
            &&& s.outputs == s0.outputs
        }),
{
    broadcast use lemma_run_appended, lemma_stream_appended;
    reveal_with_fuel(spec_components, 5);
    let s = spec_run(spec_vertex_entry(spec_vertex_constants(w, shading)), st);
    assert(s.values[37] =~= seq![
        Term::Constant { bits: shading.light_x_bits },
        Term::Constant { bits: shading.light_y_bits },
        Term::Constant { bits: shading.light_z_bits },
        Term::Constant { bits: FLOAT_ZERO_BITS },
    ]);
    assert(s.values[41] =~= seq![
        Term::Constant { bits: FLOAT_ONE_BITS },
        Term::Constant { bits: BASE_GREEN_BITS },
        Term::Constant { bits: FLOAT_ZERO_BITS },
    ]);
}

/// Member `k` of the push constant loaded as the vec4 `44 + 2k`, for each
/// `k < n`.
#[verifier::rlimit(50)]
proof fn lemma_column_loads_run(w: Seq<u32>, st: ShaderState, n: nat)
    requires
        is_instruction_stream(w),
        n <= 7,
        spec_run(w, st).widths[8] == 4,
        forall|k: u32| k < 7 ==> #[trigger] spec_run(w, st).values[(22 + k) as u32] == seq![Term::Constant { bits: k }],
    ensures
        is_instruction_stream(spec_column_loads(w, n)),
        ({
            let s0 = spec_run(w, st);
            let s = spec_run(spec_column_loads(w, n), st);
            &&& forall|k: u32| k < n ==> #[trigger] s.values[(44 + 2 * k) as u32] == spec_column(k)
            &&& forall|id: u32| (id < 43 || id >= 43 + 2 * n) ==> #[trigger] s.values[id] == s0.values[id]
            &&& forall|id: u32| id < 43 ==> (#[trigger] s.chains.dom().contains(id) <==> s0.chains.dom().contains(id))
            &&& s.widths == s0.widths
            &&& s.storage == s0.storage
            &&& s.locations == s0.locations
            &&& s.bindings == s0.bindings
            &&& s.builtins == s0.builtins
            &&& s.outputs == s0.outputs
        }),
    decreases n,
{
    broadcast use lemma_run_appended, lemma_stream_appended;
    if n > 0 {
        let k = (n - 1) as u32;
        lemma_column_loads_run(w, st, (n - 1) as nat);
        let s = spec_run(spec_column_loads(w, n), st);
        assert(spec_run(w, st).values[(22 + k) as u32] == seq![Term::Constant { bits: k }]);
        assert(s.values[(44 + 2 * k) as u32] =~= spec_column(k));
    }
}

/// The position to clip space and its store into the builtin position.
#[verifier::rlimit(100)]
#[verifier::spinoff_prover]
proof fn lemma_vertex_position(w: Seq<u32>, st: ShaderState)
    requires
        is_instruction_stream(w),
        ({
            let s0 = spec_run(w, st);
            &&& s0.values[44] == spec_column(0) && s0.values[46] == spec_column(1)
            &&& s0.values[48] == spec_column(2) && s0.values[50] == spec_column(3)
            &&& s0.values[16] == seq![Term::Constant { bits: FLOAT_ONE_BITS }]
            &&& s0.widths[5] == 1 && s0.widths[7] == 3 && s0.widths[8] == 4
            &&& s0.storage[9] == STORAGE_CLASS_INPUT && !s0.chains.dom().contains(9)
            &&& s0.locations[9] == 0
            &&& s0.builtins.dom().contains(12) && s0.builtins[12] == BUILTIN_POSITION
        }),
    ensures
        is_instruction_stream(spec_vertex_position(w)),
        ({
            let s0 = spec_run(w, st);
            let s = spec_run(spec_vertex_position(w), st);
            &&& s.outputs == s0.outputs.insert(
                Destination::BuiltIn(BUILTIN_POSITION),
                seq![spec_clip_component(0), spec_clip_component(1), spec_clip_component(2), spec_clip_component(3)],
            )
            &&& forall|id: u32| id < 57 ==> #[trigger] s.values[id] == s0.values[id]
            &&& s.widths == s0.widths
            &&& s.storage == s0.storage
            &&& s.locations == s0.locations
            &&& s.bindings == s0.bindings
            &&& s.builtins == s0.builtins
            &&& s.chains == s0.chains
        }),
{
    broadcast use lemma_run_appended, lemma_stream_appended;
    let s = spec_run(spec_vertex_position(w), st);
    reveal_with_fuel(spec_components, 5);
    let p = seq![spec_input(0, 0), spec_input(0, 1), spec_input(0, 2)];
    let one = Term::Constant { bits: FLOAT_ONE_BITS };
    assert(s.values[57] =~= p);
    assert(s.values[61] =~= seq![p[0], p[0], p[0], p[0]]);
    assert(s.values[62] =~= seq![p[1], p[1], p[1], p[1]]);
    assert(s.values[63] =~= seq![p[2], p[2], p[2], p[2]]);
    assert(s.values[64] =~= seq![one, one, one, one]);
    assert(s.values[71] =~= seq![
        spec_clip_component(0),
        spec_clip_component(1),
        spec_clip_component(2),
        spec_clip_component(3),
    ]);
}

/// The normal, the lighting and the UV, stored into the colour and UV
/// outputs.
#[verifier::rlimit(100)]
#[verifier::spinoff_prover]
proof fn lemma_vertex_lighting(w: Seq<u32>, st: ShaderState, shading: ShadingConstants)
    requires
        is_instruction_stream(w),
        ({
            let s0 = spec_run(w, st);
            &&& s0.values[52] == spec_column(4) && s0.values[54] == spec_column(5) && s0.values[56] == spec_column(6)
            &&& s0.values[17] == seq![Term::Constant { bits: FLOAT_ZERO_BITS }]
            &&& s0.values[37] == seq![
                Term::Constant { bits: shading.light_x_bits },
                Term::Constant { bits: shading.light_y_bits },
                Term::Constant { bits: shading.light_z_bits },
                Term::Constant { bits: FLOAT_ZERO_BITS },
            ]
            &&& s0.values[38] == seq![Term::Constant { bits: shading.ambient_bits }]
            &&& s0.values[39] == seq![Term::Constant { bits: shading.one_minus_ambient_bits }]
            &&& s0.values[41] == seq![
                Term::Constant { bits: FLOAT_ONE_BITS },
                Term::Constant { bits: BASE_GREEN_BITS },
                Term::Constant { bits: FLOAT_ZERO_BITS },
            ]
            &&& s0.widths[5] == 1 && s0.widths[6] == 2 && s0.widths[7] == 3 && s0.widths[8] == 4
            &&& s0.storage[10] == STORAGE_CLASS_INPUT && !s0.chains.dom().contains(10)
            &&& s0.storage[11] == STORAGE_CLASS_INPUT && !s0.chains.dom().contains(11)
            &&& s0.locations[10] == 1 && s0.locations[11] == 2
            &&& s0.locations[13] == 0 && s0.locations[14] == 1
            &&& !s0.builtins.dom().contains(13) && !s0.builtins.dom().contains(14)
        }),
    ensures
        spec_run(spec_vertex_lighting(w), st).outputs == spec_run(w, st).outputs.insert(
            Destination::Location(0),
            spec_lit_colour(shading),
        ).insert(Destination::Location(1), seq![spec_input(2, 0), spec_input(2, 1)]),
{
    broadcast use lemma_run_appended, lemma_stream_appended;
    reveal_with_fuel(spec_components, 5);
    reveal_with_fuel(spec_dot, 5);
    let s = spec_run(spec_vertex_lighting(w), st);
    assert(s.values[72] =~= seq![spec_input(1, 0), spec_input(1, 1), spec_input(1, 2)]);
    assert(s.values[83] =~= spec_world_normal());
    assert(s.values[84] =~= seq![spec_unit_normal(0), spec_unit_normal(1), spec_unit_normal(2), spec_unit_normal(3)]);
    assert(s.values[85] =~= seq![spec_normal_dot_light(shading)]);
    assert(s.values[88] =~= seq![spec_intensity(shading)]);
    assert(s.values[89] =~= seq![spec_intensity(shading), spec_intensity(shading), spec_intensity(shading)]);
    assert(s.values[90] =~= spec_lit_colour(shading));
    assert(s.values[91] =~= seq![spec_input(2, 0), spec_input(2, 1)]);
}

/// The vertex shader carries the position (x, y, z) read at input location
/// 0 to clip space as `MVP * (x, y, z, 1)`, the MVP's four columns being
/// push-constant members 0 to 3: the fourth column, translation and the
/// camera's part of w, enters with weight 1.0. It writes that to the builtin
/// position.
///
/// It lights the vertex (Gouraud): the normal read at location 1 goes to
/// world space through the normal matrix, push-constant members 4 to 6 (and
/// through no MVP column), is normalised, and the colour written at output
/// location 0 is the base colour (1.0, 0.55, 0.0) times
/// `ambient + (1 - ambient) * max(dot(N, L), 0)`, so that a face turned away
/// from the light still gets the ambient term.
///
/// The UV read at location 2 goes unchanged to output location 1.
///
/// All three hold for every value the inputs and push constants take, and
/// for every choice of the lighting constants.
#[verifier::rlimit(100)]
#[verifier::spinoff_prover]
pub proof fn law_vertex_shader_transforms_and_lights(shading: ShadingConstants)
    ensures
        spec_shader_outputs(spec_vertex_module(shading))[Destination::BuiltIn(BUILTIN_POSITION)] == seq![
            spec_clip_component(0),
            spec_clip_component(1),
            spec_clip_component(2),
            spec_clip_component(3),
        ],
        spec_shader_outputs(spec_vertex_module(shading))[Destination::Location(0)] == spec_lit_colour(shading),
        spec_shader_outputs(spec_vertex_module(shading))[Destination::Location(1)] == seq![
            spec_input(2, 0),
            spec_input(2, 1),
        ],
{
    let init = spec_initial_state();
    let annotated = spec_member_offsets(spec_vertex_decorations(spec_vertex_preamble(Seq::empty())), 7);
    let typed = spec_vertex_types(annotated);
    let counted = spec_int_constants(typed, 7);
    let declared = spec_vertex_variables(counted);
    let entered = spec_vertex_entry(spec_vertex_constants(declared, shading));
    let loaded = spec_column_loads(entered, 7);
    let positioned = spec_vertex_position(loaded);
    let body = spec_vertex_lighting(positioned);
    lemma_vertex_annotations(init);
    lemma_vertex_types(annotated, init);
    lemma_int_constants_run(typed, init, 7);
    lemma_vertex_variables(counted, init);
    let s_declared = spec_run(declared, init);
    assert(s_declared.values[16] == seq![Term::Constant { bits: FLOAT_ONE_BITS }]);
    assert(s_declared.values[17] == seq![Term::Constant { bits: FLOAT_ZERO_BITS }]);
    lemma_vertex_constants(declared, init, shading);
    let s_entered = spec_run(entered, init);
    assert forall|k: u32| k < 7 implies #[trigger] s_entered.values[(22 + k) as u32] == seq![
        Term::Constant { bits: k },
    ] by {
        assert(spec_run(counted, init).values[(22 + k) as u32] == seq![Term::Constant { bits: k }]);
    }
    lemma_column_loads_run(entered, init, 7);
    let s_loaded = spec_run(loaded, init);
    assert forall|k: u32| k < 7 implies #[trigger] s_loaded.values[(44 + 2 * k) as u32] == spec_column(k) by {}
    let (c0, c1, c2, c3, c4, c5, c6) = (0u32, 1u32, 2u32, 3u32, 4u32, 5u32, 6u32);
    assert(s_loaded.values[(44 + 2 * c0) as u32] == spec_column(c0));
    assert(s_loaded.values[(44 + 2 * c1) as u32] == spec_column(c1));
    assert(s_loaded.values[(44 + 2 * c2) as u32] == spec_column(c2));
    assert(s_loaded.values[(44 + 2 * c3) as u32] == spec_column(c3));
    assert(s_loaded.values[(44 + 2 * c4) as u32] == spec_column(c4));
    assert(s_loaded.values[(44 + 2 * c5) as u32] == spec_column(c5));
    assert(s_loaded.values[(44 + 2 * c6) as u32] == spec_column(c6));
    assert(s_loaded.values[16] == seq![Term::Constant { bits: FLOAT_ONE_BITS }]);
    assert(!s_loaded.chains.dom().contains(9));
    assert(!s_loaded.chains.dom().contains(10));
    assert(!s_loaded.chains.dom().contains(11));
    lemma_vertex_position(loaded, init);
    lemma_vertex_lighting(positioned, init, shading);
    lemma_module_body(92, body);
}

} // verus!
