use fxaa_render::quad::AttrFormat;
use fxaa_render::quad::Coord;
use fxaa_render::quad::CoordPair;
use fxaa_render::quad::FXAAVertexArgs;
use fxaa_render::quad::decode_vertex_buffer;
use fxaa_render::quad::encode_vertex_buffer;
use fxaa_render::quad::quad_vertex_list;

fn vertex(px: i32, py: i32, tx: i32, ty: i32) -> FXAAVertexArgs {
    let c = |v: i32| match v {
        -1 => Coord::NegOne,
        0 => Coord::Zero,
        1 => Coord::One,
        _ => panic!("not a quad coordinate"),
    };
    FXAAVertexArgs {
        position: CoordPair { x: c(px), y: c(py) },
        tex_coord: CoordPair { x: c(tx), y: c(ty) },
    }
}

#[test]
fn quad_has_the_six_fixed_vertices() {
    let quad = quad_vertex_list();
    let expected = vec![
        vertex(-1, 1, 0, 1),
        vertex(1, -1, 1, 0),
        vertex(-1, -1, 0, 0),
        vertex(1, -1, 1, 0),
        vertex(-1, 1, 0, 1),
        vertex(1, 1, 1, 1),
    ];
    assert_eq!(quad, expected);
}

#[test]
fn quad_buffer_words_are_ieee_singles() {
    let quad = quad_vertex_list();
    let words = encode_vertex_buffer(&quad);
    assert_eq!(words.len(), 24);
    let as_floats: Vec<f32> = words.iter().map(|w| f32::from_bits(*w)).collect();
    let expected: Vec<f32> = vec![
        -1.0, 1.0, 0.0, 1.0,
        1.0, -1.0, 1.0, 0.0,
        -1.0, -1.0, 0.0, 0.0,
        1.0, -1.0, 1.0, 0.0,
        -1.0, 1.0, 0.0, 1.0,
        1.0, 1.0, 1.0, 1.0,
    ];
    assert_eq!(as_floats, expected);
}

#[test]
fn decoding_the_quad_buffer_yields_the_quad() {
    let quad = quad_vertex_list();
    let words = encode_vertex_buffer(&quad);
    let decoded = decode_vertex_buffer(&words).expect("the quad buffer decodes");
    assert_eq!(decoded, quad);
}

#[test]
fn decoding_rejects_a_word_that_is_no_coordinate() {
    let quad = quad_vertex_list();
    let mut words = encode_vertex_buffer(&quad);
    words[5] = 0.5f32.to_bits();
    assert!(decode_vertex_buffer(&words).is_none());
}

#[test]
fn decoding_rejects_a_truncated_buffer() {
    let quad = quad_vertex_list();
    let mut words = encode_vertex_buffer(&quad);
    words.pop();
    assert!(decode_vertex_buffer(&words).is_none());
}

#[test]
fn vertex_layout_is_two_float_pairs() {
    let format = FXAAVertexArgs::vertex();
    assert_eq!(format.stride, 16);
    assert_eq!(format.attributes.len(), 2);
    assert_eq!(format.attributes[0].location, 0);
    assert_eq!(format.attributes[0].offset, 0);
    assert_eq!(format.attributes[0].format, AttrFormat::Rg32Sfloat);
    assert_eq!(format.attributes[1].location, 1);
    assert_eq!(format.attributes[1].offset, 8);
    assert_eq!(format.attributes[1].format, AttrFormat::Rg32Sfloat);
}
