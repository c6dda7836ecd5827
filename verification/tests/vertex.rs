use renderer::vertex::{
    Normal, Vertex, VertexMemberInfo, VertexMemberTy, COMPONENT_SIZE, STRIDE,
};

fn float_at(offset: usize) -> Option<VertexMemberInfo> {
    Some(VertexMemberInfo { offset, ty: VertexMemberTy::F32, array_size: 1 })
}

#[test]
fn position_components_lie_four_bytes_apart() {
    assert_eq!(Vertex::member("pos_x"), float_at(0));
    assert_eq!(Vertex::member("pos_y"), float_at(4));
    assert_eq!(Vertex::member("pos_z"), float_at(8));
}

#[test]
fn normal_components_lie_four_bytes_apart() {
    assert_eq!(Normal::member("norm_x"), float_at(0));
    assert_eq!(Normal::member("norm_y"), float_at(4));
    assert_eq!(Normal::member("norm_z"), float_at(8));
}

#[test]
fn other_names_have_no_member() {
    assert_eq!(Vertex::member(""), None);
    assert_eq!(Vertex::member("pos_w"), None);
    assert_eq!(Vertex::member("pos_"), None);
    assert_eq!(Vertex::member("POS_X"), None);
    assert_eq!(Vertex::member("pos_x "), None);
    assert_eq!(Vertex::member("norm_x"), None);
    assert_eq!(Normal::member("pos_x"), None);
    assert_eq!(Normal::member("norm"), None);
    assert_eq!(Normal::member("norm_xy"), None);
}

#[test]
fn every_member_lies_inside_the_vertex() {
    for name in ["pos_x", "pos_y", "pos_z"] {
        let member = Vertex::member(name).unwrap();
        assert!(member.offset + member.array_size * COMPONENT_SIZE <= STRIDE);
    }
    for name in ["norm_x", "norm_y", "norm_z"] {
        let member = Normal::member(name).unwrap();
        assert!(member.offset + member.array_size * COMPONENT_SIZE <= STRIDE);
    }
}

#[test]
fn the_layout_is_that_of_three_floats() {
    assert_eq!(COMPONENT_SIZE, std::mem::size_of::<f32>());
    assert_eq!(STRIDE, std::mem::size_of::<[f32; 3]>());
    assert_eq!(std::mem::size_of::<Vertex>(), STRIDE);
    assert_eq!(std::mem::size_of::<Normal>(), STRIDE);
}

#[test]
fn ordinary_numbers_are_finite() {
    let vertex = Vertex { x: 0.0f32.to_bits(), y: (-1.5f32).to_bits(), z: f32::MAX.to_bits() };
    assert!(vertex.is_finite());
    let normal = Normal { x: f32::MIN_POSITIVE.to_bits(), y: 1e-40f32.to_bits(), z: 0x8000_0000 };
    assert!(normal.is_finite());
}

#[test]
fn infinities_and_nans_are_not_finite() {
    let one = 1.0f32.to_bits();
    assert!(!Vertex { x: f32::INFINITY.to_bits(), y: one, z: one }.is_finite());
    assert!(!Vertex { x: one, y: f32::NEG_INFINITY.to_bits(), z: one }.is_finite());
    assert!(!Vertex { x: one, y: one, z: f32::NAN.to_bits() }.is_finite());
    assert!(!Normal { x: 0x7f80_0001, y: one, z: one }.is_finite());
    assert!(!Normal { x: one, y: 0xffff_ffff, z: one }.is_finite());
    assert!(!Normal { x: one, y: one, z: 0x7f80_0000 }.is_finite());
}

#[test]
fn finiteness_agrees_with_the_floats() {
    let mut bits: u32 = 0;
    loop {
        let vertex = Vertex { x: bits, y: 0, z: 0 };
        assert_eq!(vertex.is_finite(), f32::from_bits(bits).is_finite());
        match bits.checked_add(0x0001_2345) {
            Some(next) => bits = next,
            None => break,
        }
    }
}
