use g3d::color::{add_colors, opposite_color, Color, Material, TextureBlendMode};

#[test]
fn color_constructors() {
    assert_eq!(Color::from_rgb(1, 2, 3), Color { r: 1, g: 2, b: 3, a: 255 });
    assert_eq!(Color::from_rgba_premultiplied(1, 2, 3, 4), Color { r: 1, g: 2, b: 3, a: 4 });
    assert_eq!(Color::white(), Color { r: 255, g: 255, b: 255, a: 255 });
    assert_eq!(Color::black(), Color { r: 0, g: 0, b: 0, a: 255 });
    assert_eq!(Color::purple(), Color { r: 128, g: 0, b: 128, a: 255 });
    assert_eq!(Color::orange(), Color { r: 255, g: 165, b: 0, a: 255 });
}

#[test]
fn opposite_color_inverts_channels() {
    assert_eq!(opposite_color(Color::from_rgb(10, 200, 255)), Color::from_rgb(245, 55, 0));
    assert_eq!(opposite_color(Color::from_rgba_premultiplied(0, 0, 0, 0)), Color::white());
    let c = Color::from_rgb(17, 99, 230);
    assert_eq!(opposite_color(opposite_color(c)), c);
}

#[test]
fn replace_keeps_the_texture() {
    let t = Color::from_rgba_premultiplied(12, 34, 56, 78);
    assert_eq!(TextureBlendMode::Replace.blend(t, Color::black()), t);
}

#[test]
fn modulate_multiplies_and_rounds() {
    let t = Color::from_rgba_premultiplied(128, 255, 0, 255);
    let m = Color::from_rgba_premultiplied(128, 100, 77, 51);
    // 128 * 128 / 255 = 64.25 -> 64; 255 * 100 / 255 = 100; 0; 255 * 51 / 255 = 51
    assert_eq!(TextureBlendMode::Modulate.blend(t, m), Color { r: 64, g: 100, b: 0, a: 51 });
    // 3 * 85 / 255 = 1; 1 * 128 / 255 = 0.502 -> 1; 1 * 127 / 255 = 0.498 -> 0
    let x = Color::from_rgba_premultiplied(3, 1, 1, 255);
    let y = Color::from_rgba_premultiplied(85, 128, 127, 255);
    assert_eq!(TextureBlendMode::Modulate.blend(x, y), Color { r: 1, g: 1, b: 0, a: 255 });
    assert_eq!(TextureBlendMode::Modulate.blend(x, Color::white()), x);
    assert_eq!(TextureBlendMode::default(), TextureBlendMode::Modulate);
}

#[test]
fn additive_saturates() {
    let t = Color::from_rgba_premultiplied(200, 10, 0, 255);
    let m = Color::from_rgba_premultiplied(100, 20, 0, 1);
    assert_eq!(TextureBlendMode::Additive.blend(t, m), Color { r: 255, g: 30, b: 0, a: 255 });
    assert_eq!(TextureBlendMode::Additive.blend(m, t), TextureBlendMode::Additive.blend(t, m));
}

#[test]
fn blend_mode_labels() {
    assert_eq!(TextureBlendMode::Replace.label(), "Замена");
    assert_eq!(TextureBlendMode::Modulate.label(), "Умножение");
    assert_eq!(TextureBlendMode::Additive.label(), "Сложение");
}

#[test]
fn modulate_is_commutative() {
    let x = Color::from_rgba_premultiplied(3, 200, 77, 128);
    let y = Color::from_rgba_premultiplied(250, 13, 77, 255);
    assert_eq!(TextureBlendMode::Modulate.blend(x, y), TextureBlendMode::Modulate.blend(y, x));
    // 200 * 13 / 255 = 10.196 -> 10; 77 * 77 / 255 = 23.25 -> 23; 128 * 255 / 255 = 128; 3 * 250 / 255 = 2.94 -> 3
    assert_eq!(TextureBlendMode::Modulate.blend(x, y), Color { r: 3, g: 10, b: 23, a: 128 });
}

#[test]
fn material_colour_with_and_without_texture() {

    let m = Material::default();
    assert_eq!(m.color, Color::white());
    assert_eq!(m.blend_mode, TextureBlendMode::Modulate);
    let t = Color::from_rgb(10, 20, 30);
    assert_eq!(m.get_uv_color(Some(t)), t);
    assert_eq!(m.get_uv_color(None), Color::white());
    let red = Material { color: Color::from_rgb(255, 0, 0), blend_mode: TextureBlendMode::Additive };
    assert_eq!(red.get_uv_color(Some(t)), Color::from_rgb(255, 20, 30));
    let replace = Material { color: Color::black(), blend_mode: TextureBlendMode::Replace };
    assert_eq!(replace.get_uv_color(Some(t)), t);
    assert_eq!(replace.get_uv_color(None), Color::black());
}

#[test]
fn adding_lights_saturates_and_is_opaque() {

    let x = Color::from_rgba_premultiplied(200, 10, 255, 3);
    let y = Color::from_rgba_premultiplied(100, 20, 1, 4);
    assert_eq!(add_colors(x, y), Color::from_rgb(255, 30, 255));
    assert_eq!(add_colors(Color::black(), y), Color::from_rgb(100, 20, 1));
}
