use pan_zoom::viewport::{Vec2, Viewport};

fn viewport(cx: f32, cy: f32, sx: f32, sy: f32) -> Viewport {
    Viewport {
        center: Vec2 { x: cx.to_bits(), y: cy.to_bits() },
        size: Vec2 { x: sx.to_bits(), y: sy.to_bits() },
    }
}

#[test]
fn vec2_new_and_zero() {
    let v = Vec2::new(0.5f32.to_bits(), (-1.5f32).to_bits());
    assert_eq!(v.x, 0.5f32.to_bits());
    assert_eq!(v.y, (-1.5f32).to_bits());
    let z = Vec2::zero();
    assert_eq!(z.x, 0.0f32.to_bits());
    assert_eq!(z.y, 0.0f32.to_bits());
    assert_eq!(z.x, 0);
}

#[test]
fn default_viewport_is_unit_square() {
    let v = Viewport::new();
    assert_eq!(v, viewport(0.0, 0.0, 2.0, 2.0));
}

#[test]
fn zoom_scales_size_and_keeps_center() {
    let mut v = viewport(0.5, -0.25, 2.0, 3.0);
    v.zoom(1.5f32.to_bits());
    assert_eq!(v.center.x, 0.5f32.to_bits());
    assert_eq!(v.center.y, (-0.25f32).to_bits());
    assert_eq!(v.size.x, (2.0f32 * 1.5f32).to_bits());
    assert_eq!(v.size.y, (3.0f32 * 1.5f32).to_bits());
}

#[test]
fn zoom_does_not_validate_the_factor() {
    let mut v = viewport(0.0, 0.0, 2.0, 2.0);
    v.zoom(0.0f32.to_bits());
    assert_eq!(v.size.x, 0.0f32.to_bits());
    let mut w = viewport(0.0, 0.0, 2.0, 2.0);
    w.zoom((-1.0f32).to_bits());
    assert_eq!(w.size.x, (-2.0f32).to_bits());
}

#[test]
fn pan_by_zero_proportion_is_a_noop() {
    let zero = 0.0f32.to_bits();
    let mut v = viewport(0.0, 0.0, 2.0, 2.0);
    v.move_by_screen_proportion(zero, zero);
    assert_eq!(v, viewport(0.0, 0.0, 2.0, 2.0));

    let mut w = viewport(-0.1, 0.7, 1.8, 0.5);
    w.move_by_screen_proportion(zero, zero);
    assert_eq!(w, viewport(-0.1, 0.7, 1.8, 0.5));
}

#[test]
fn pan_matches_half_extent_formula() {
    let mut v = viewport(0.0, 0.0, 2.0, 2.0);
    v.move_by_screen_proportion((-0.1f32).to_bits(), 0.0f32.to_bits());
    assert_eq!(v.center.x, (-0.1f32).to_bits());
    assert_eq!(v.center.y, 0.0f32.to_bits());
    assert_eq!(v.size, Vec2 { x: 2.0f32.to_bits(), y: 2.0f32.to_bits() });

    let mut w = viewport(1.0, -2.0, 4.0, 6.0);
    w.move_by_screen_proportion(0.25f32.to_bits(), 0.5f32.to_bits());
    assert_eq!(w.center.x, (1.0f32 + (4.0f32 / 2.0) * 0.25f32).to_bits());
    assert_eq!(w.center.y, (-2.0f32 + (6.0f32 / 2.0) * 0.5f32).to_bits());
}

#[test]
fn pan_distance_scales_linearly_with_size() {
    // The same proportion pans twice as far on a viewport twice the size:
    // zooming first changes every later pan distance proportionally.
    let p = 0.25f32.to_bits();
    let mut a = viewport(0.0, 0.0, 2.0, 2.0);
    a.move_by_screen_proportion(p, p);
    assert_eq!(a.center.x, 0.25f32.to_bits());

    let mut b = viewport(0.0, 0.0, 2.0, 2.0);
    b.zoom(0.5f32.to_bits());
    b.move_by_screen_proportion(p, p);
    assert_eq!(b.center.x, 0.125f32.to_bits());
    assert_eq!(f32::from_bits(b.center.x), 0.5 * f32::from_bits(a.center.x));

    let mut c = viewport(0.0, 0.0, 2.0, 2.0);
    c.zoom(2.0f32.to_bits());
    c.move_by_screen_proportion(p, p);
    assert_eq!(f32::from_bits(c.center.y), 2.0 * f32::from_bits(a.center.y));
}

#[test]
fn record_layout_is_four_little_endian_scalars() {
    let v = viewport(0.0, -0.1, 2.0, 1.8);
    let bytes = v.to_bytes();
    let mut expected = Vec::new();
    expected.extend_from_slice(&0.0f32.to_bits().to_le_bytes());
    expected.extend_from_slice(&(-0.1f32).to_bits().to_le_bytes());
    expected.extend_from_slice(&2.0f32.to_bits().to_le_bytes());
    expected.extend_from_slice(&1.8f32.to_bits().to_le_bytes());
    assert_eq!(bytes, expected);
    assert_eq!(bytes.len(), 16);
    // 2.0_f32 is 0x4000_0000: high byte last in little-endian order.
    assert_eq!(&bytes[8..12], &[0x00, 0x00, 0x00, 0x40]);
}

#[test]
fn record_roundtrip_is_bit_for_bit() {
    let values = [
        viewport(0.0, 0.0, 2.0, 2.0),
        viewport(-0.1, 0.25, 1.8, 1.8),
        viewport(f32::NAN, -0.0, f32::INFINITY, 1.0e-40),
        Viewport {
            center: Vec2 { x: 0xdead_beef, y: 0x8000_0000 },
            size: Vec2 { x: 0x7fc0_0001, y: 0xffff_ffff },
        },
    ];
    for v in values {
        let back = Viewport::from_bytes(&v.to_bytes()).unwrap();
        assert_eq!(back, v);
    }
}

#[test]
fn from_bytes_rejects_wrong_length() {
    assert_eq!(Viewport::from_bytes(&[]), None);
    assert_eq!(Viewport::from_bytes(&[0u8; 15]), None);
    assert_eq!(Viewport::from_bytes(&[0u8; 17]), None);
    assert!(Viewport::from_bytes(&[0u8; 16]).is_some());
}
