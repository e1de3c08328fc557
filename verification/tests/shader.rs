use xd_engine::shader::{
    encode_string, fragment_shader, spirv_code_size, vertex_shader, ShadingConstants, SpirvBuilder,
    OP_CAPABILITY, OP_FUNCTION_END, OP_RETURN, SPIRV_MAGIC,
};

/// Walks the word stream instruction by instruction and requires the walk to
/// end EXACTLY at the end of the module: one word too few or too many in any
/// instruction throws the walk off at the first mistake.
fn validate_word_stream(words: &[u32]) -> Result<(), String> {
    assert_eq!(words[0], 0x0723_0203, "wrong magic number");
    let mut pos = 5;
    while pos < words.len() {
        let header = words[pos];
        let word_count = (header >> 16) as usize;
        if word_count == 0 {
            return Err(format!("zero word count at word {pos}"));
        }
        pos += word_count;
    }
    if pos != words.len() {
        return Err(format!("instruction stream does not end with the module: {pos} != {}", words.len()));
    }
    Ok(())
}

fn shading() -> ShadingConstants {
    let (x, y, z) = (0.5f32, 1.0f32, 0.75f32);
    let len = (x * x + y * y + z * z).sqrt();
    let ambient = 0.2f32;
    ShadingConstants {
        light_x_bits: (x / len).to_bits(),
        light_y_bits: (y / len).to_bits(),
        light_z_bits: (z / len).to_bits(),
        ambient_bits: ambient.to_bits(),
        one_minus_ambient_bits: (1.0 - ambient).to_bits(),
    }
}

#[test]
fn vertex_shader_word_stream_is_self_consistent() {
    validate_word_stream(&vertex_shader(&shading())).unwrap();
}

#[test]
fn fragment_shader_word_stream_is_self_consistent() {
    validate_word_stream(&fragment_shader()).unwrap();
}

#[test]
fn a_truncated_instruction_is_caught_by_the_validator() {
    // Cutting one or two words only removes whole one-word instructions at
    // the end (OpReturn, OpFunctionEnd); three words cut the OpStore before
    // them in the middle.
    let mut words = vertex_shader(&shading());
    words.truncate(words.len() - 3);
    assert!(validate_word_stream(&words).is_err());
}

#[test]
fn bound_is_one_past_the_last_issued_id() {
    let mut b = SpirvBuilder::new();
    let a = b.id();
    let c = b.id();
    assert_eq!((a, c), (1, 2));
    let words = b.finish();
    assert_eq!(words[3], 3);
}

#[test]
fn shader_modules_carry_the_header_and_end_the_function() {
    for words in [vertex_shader(&shading()), fragment_shader()] {
        assert_eq!(words[0], SPIRV_MAGIC);
        assert_eq!(words[1], 0x0001_0000);
        assert_eq!(words[2], 0);
        assert_eq!(words[4], 0);
        assert_eq!(words[5], (2 << 16) | OP_CAPABILITY);
        assert_eq!(words[words.len() - 2], (1 << 16) | OP_RETURN);
        assert_eq!(words[words.len() - 1], (1 << 16) | OP_FUNCTION_END);
    }
    assert_eq!(vertex_shader(&shading())[3], 92);
    assert_eq!(fragment_shader()[3], 30);
}

#[test]
fn the_lighting_constants_land_in_the_vertex_shader() {
    let constants = shading();
    let words = vertex_shader(&constants);
    for bits in [constants.light_x_bits, constants.ambient_bits, constants.one_minus_ambient_bits] {
        assert!(words.contains(&bits));
    }
}

#[test]
fn an_instruction_header_counts_its_own_word() {
    let mut b = SpirvBuilder::new();
    b.inst(17, &[1]);
    b.inst(253, &[]);
    let words = b.finish();
    assert_eq!(words, vec![SPIRV_MAGIC, 0x0001_0000, 0, 1, 0, (2 << 16) | 17, 1, (1 << 16) | 253]);
}

#[test]
fn strings_are_zero_terminated_and_padded_little_endian() {
    // "main" fills one word exactly, so the terminator takes a whole word.
    assert_eq!(encode_string("main"), vec![0x6E69_616D, 0]);
    assert_eq!(encode_string(""), vec![0]);
    // 12 bytes: three full words and a word holding only the terminator.
    let glsl = encode_string("GLSL.std.450");
    assert_eq!(glsl.len(), 4);
    assert_eq!(glsl[0], u32::from_le_bytes(*b"GLSL"));
    assert_eq!(glsl[3], 0);
    assert_eq!(encode_string("abcde"), vec![u32::from_le_bytes(*b"abcd"), u32::from_le_bytes([b'e', 0, 0, 0])]);
}

#[test]
fn the_code_size_is_in_bytes() {
    assert_eq!(spirv_code_size(0), 0);
    assert_eq!(spirv_code_size(92), 368);
}

fn holds(words: &[u32], instruction: &[u32]) -> bool {
    words[5..].windows(instruction.len()).any(|window| window == instruction)
}

#[test]
fn the_vertex_shader_embeds_the_lighting_constants() {
    let shading = shading();
    let words = vertex_shader(&shading);
    let constant = (4 << 16) | 43;
    assert!(holds(&words, &[constant, 5, 34, shading.light_x_bits]));
    assert!(holds(&words, &[constant, 5, 35, shading.light_y_bits]));
    assert!(holds(&words, &[constant, 5, 36, shading.light_z_bits]));
    assert!(holds(&words, &[(7 << 16) | 44, 8, 37, 34, 35, 36, 17]));
    assert!(holds(&words, &[constant, 5, 38, shading.ambient_bits]));
    assert!(holds(&words, &[constant, 5, 39, shading.one_minus_ambient_bits]));
    // The type they are constants of: a 32-bit float.
    assert!(holds(&words, &[(3 << 16) | 22, 5, 32]));
    // Other constants give another module.
    let other = ShadingConstants { ambient_bits: 0.5f32.to_bits(), ..shading };
    assert_ne!(vertex_shader(&other), words);
}

#[test]
fn the_stages_meet_at_the_same_locations() {
    let vertex = vertex_shader(&shading());
    let fragment = fragment_shader();
    let decorate = (4 << 16) | 71;
    // Vertex attributes 0, 1, 2: position, normal, UV.
    assert!(holds(&vertex, &[decorate, 9, 30, 0]));
    assert!(holds(&vertex, &[decorate, 10, 30, 1]));
    assert!(holds(&vertex, &[decorate, 11, 30, 2]));
    assert!(holds(&vertex, &[decorate, 12, 11, 0]));
    // Colour at location 0 and UV at location 1 on both sides.
    assert!(holds(&vertex, &[decorate, 13, 30, 0]));
    assert!(holds(&vertex, &[decorate, 14, 30, 1]));
    assert!(holds(&fragment, &[decorate, 8, 30, 0]));
    assert!(holds(&fragment, &[decorate, 9, 30, 1]));
    // The texture at set 0, binding 0.
    assert!(holds(&fragment, &[decorate, 10, 34, 0]));
    assert!(holds(&fragment, &[decorate, 10, 33, 0]));
    assert!(holds(&fragment, &[decorate, 11, 30, 0]));
}

#[test]
fn the_push_constant_block_is_seven_vec4_sixteen_bytes_apart() {
    let vertex = vertex_shader(&shading());
    assert!(holds(&vertex, &[(3 << 16) | 71, 15, 2]));
    for member in 0..7u32 {
        assert!(holds(&vertex, &[(5 << 16) | 72, 15, member, 35, member * 16]));
    }
    assert!(!holds(&vertex, &[(5 << 16) | 72, 15, 7, 35, 112]));
}

/// The offset of each instruction after the header, with its opcode.
fn instructions(words: &[u32]) -> Vec<(usize, u32)> {
    let mut at = 5;
    let mut found = Vec::new();
    while at < words.len() {
        found.push((at, words[at] & 0xFFFF));
        at += (words[at] >> 16) as usize;
    }
    found
}

#[test]
fn the_fragment_shader_declares_its_origin_upper_left() {
    let words = fragment_shader();
    let ops = instructions(&words);
    let entry = ops.iter().position(|&(_, op)| op == 15).unwrap();
    let first_decorate = ops.iter().position(|&(_, op)| op == 71).unwrap();
    // OpExecutionMode main OriginUpperLeft, right after the entry point.
    let (at, op) = ops[entry + 1];
    assert_eq!(op, 16);
    assert_eq!(&words[at..at + 3], &[(3 << 16) | 16, 1, 7]);
    assert!(entry + 1 < first_decorate);
}

#[test]
fn every_annotation_comes_before_the_first_type() {
    for words in [vertex_shader(&shading()), fragment_shader()] {
        let ops = instructions(&words);
        let first_void = ops.iter().position(|&(_, op)| op == 19).unwrap();
        assert!(ops.iter().skip(first_void).all(|&(_, op)| op != 71 && op != 72));
        assert!(ops.iter().take(first_void).any(|&(_, op)| op == 71));
    }
}

#[test]
fn the_vertex_shader_ends_by_passing_the_uv_through() {
    let words = vertex_shader(&shading());
    let n = words.len();
    // OpLoad uv from the input, OpStore it to the output, return, end.
    assert_eq!(&words[n - 9..n - 5], &[(4 << 16) | 61, 6, 91, 11]);
    assert_eq!(&words[n - 5..], &[(3 << 16) | 62, 14, 91, (1 << 16) | 253, (1 << 16) | 56]);
    // The colour is stored before it: the lit base colour into output 13.
    assert!(holds(&words, &[(3 << 16) | 62, 13, 90]));
}

#[test]
fn finishing_writes_the_bound_and_keeps_every_other_word() {
    let mut b = SpirvBuilder::new();
    let first = b.id();
    b.inst(17, &[1]);
    let second = b.id();
    b.inst(19, &[second]);
    let third = b.id();
    assert_eq!((first, second, third), (1, 2, 3));
    let words = b.finish();
    assert_eq!(words, vec![SPIRV_MAGIC, 0x0001_0000, 0, 4, 0, (2 << 16) | 17, 1, (2 << 16) | 19, 2]);
}
