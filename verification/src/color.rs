//! Colours of materials and their blending with textures.
//!
//! A colour is four bytes, red, green, blue and alpha, with the colour channels
//! premultiplied by alpha, as in `egui::Color32`. Multiplication and addition of
//! colours are egui's own.

use vstd::prelude::*;

verus! {

/// A colour: premultiplied red, green and blue, and alpha (opacity).
#[derive(Debug, Clone, Copy, PartialEq, Eq, Structural)]
pub struct Color {
    pub r: u8,
    pub g: u8,
    pub b: u8,
    pub a: u8,
}

/// egui's product of two channels: `a * b / 255`, rounded to the nearest integer.
/// (`a * b / 255` is never halfway between two integers, so the rounding is exact.)
pub open spec fn mul_channel(a: u8, b: u8) -> u8 {
    ((2 * a * b + 255) / 510) as u8
}

/// The sum of two channels, saturated at 255.
pub open spec fn add_channel(a: u8, b: u8) -> u8 {
    if a + b > 255 {
        255
    } else {
        (a + b) as u8
    }
}

/// Multiply two colours with egui: `egui::Color32 * egui::Color32`.
///
/// The contract claims that each channel of the product is `mul_channel` of the
/// two channels: egui computes `(a as f32 * b as f32 / 255.0 + 0.5) as u8`.
#[verifier::external_body]
fn egui_multiply(x: Color, y: Color) -> (c: Color)
    ensures
        c.r == mul_channel(x.r, y.r),
        c.g == mul_channel(x.g, y.g),
        c.b == mul_channel(x.b, y.b),
        c.a == mul_channel(x.a, y.a),
{
    let p = egui::Color32::from_rgba_premultiplied(x.r, x.g, x.b, x.a)
        * egui::Color32::from_rgba_premultiplied(y.r, y.g, y.b, y.a);
    let [r, g, b, a] = p.to_array();
    Color { r, g, b, a }
}

/// Add two colours with egui: `egui::Color32 + egui::Color32`.
///
/// The contract claims that each channel of the sum is the saturating sum of the
/// two channels, as egui's `u8::saturating_add` per channel gives.
#[verifier::external_body]
fn egui_add(x: Color, y: Color) -> (c: Color)
    ensures
        c.r == add_channel(x.r, y.r),
        c.g == add_channel(x.g, y.g),
        c.b == add_channel(x.b, y.b),
        c.a == add_channel(x.a, y.a),
{
    let s = egui::Color32::from_rgba_premultiplied(x.r, x.g, x.b, x.a)
        + egui::Color32::from_rgba_premultiplied(y.r, y.g, y.b, y.a);
    let [r, g, b, a] = s.to_array();
    Color { r, g, b, a }
}

impl Color {
    /// An opaque colour (alpha 255).
    pub fn from_rgb(r: u8, g: u8, b: u8) -> (c: Self)
        ensures
            c == (Color { r, g, b, a: 255 }),
    {
        Color { r, g, b, a: 255 }
    }

    /// A colour from premultiplied channels and alpha.
    pub fn from_rgba_premultiplied(r: u8, g: u8, b: u8, a: u8) -> (c: Self)
        ensures
            c == (Color { r, g, b, a }),
    {
        Color { r, g, b, a }
    }

    /// Opaque white, egui's `Color32::WHITE`.
    pub fn white() -> (c: Self)
        ensures
            c == (Color { r: 255, g: 255, b: 255, a: 255 }),
    {
        Color::from_rgb(255, 255, 255)
    }

    /// Opaque black, egui's `Color32::BLACK`.
    pub fn black() -> (c: Self)
        ensures
            c == (Color { r: 0, g: 0, b: 0, a: 255 }),
    {
        Color::from_rgb(0, 0, 0)
    }

    /// Opaque purple, egui's `Color32::PURPLE`.
    pub fn purple() -> (c: Self)
        ensures
            c == (Color { r: 128, g: 0, b: 128, a: 255 }),
    {
        Color::from_rgb(128, 0, 128)
    }

    /// Opaque orange, egui's `Color32::ORANGE`.
    pub fn orange() -> (c: Self)
        ensures
            c == (Color { r: 255, g: 165, b: 0, a: 255 }),
    {
        Color::from_rgb(255, 165, 0)
    }
}

/// The opposite colour: each colour channel taken from 255, fully opaque.
pub open spec fn opposite_spec(c: Color) -> Color {
    Color { r: (255 - c.r) as u8, g: (255 - c.g) as u8, b: (255 - c.b) as u8, a: 255 }
}

/// The opposite of a colour, so that wireframes stand out against the model.
pub fn opposite_color(color: Color) -> (c: Color)
    ensures
        c == opposite_spec(color),
{
    Color::from_rgb(255 - color.r, 255 - color.g, 255 - color.b)
}

/// The sum of two lights: each colour channel added and saturated at 255, fully opaque.
pub fn add_colors(x: Color, y: Color) -> (c: Color)
    ensures
        c == (Color {
            r: add_channel(x.r, y.r),
            g: add_channel(x.g, y.g),
            b: add_channel(x.b, y.b),
            a: 255,
        }),
{
    let r: u8 = if x.r as u16 + y.r as u16 > 255 { 255 } else { x.r + y.r };
    let g: u8 = if x.g as u16 + y.g as u16 > 255 { 255 } else { x.g + y.g };
    let b: u8 = if x.b as u16 + y.b as u16 > 255 { 255 } else { x.b + y.b };
    Color::from_rgb(r, g, b)
}

/// How a texture is combined with the colour of a material.
#[derive(Debug, Clone, Copy, PartialEq, Eq, Structural)]
pub enum TextureBlendMode {
    /// The texture replaces the material colour.
    Replace,
    /// The texture is multiplied by the material colour.
    Modulate,
    /// The material colour is added to the texture.
    Additive,
}

impl Default for TextureBlendMode {
    /// Modulation.
    fn default() -> (m: Self)
        ensures
            m == TextureBlendMode::Modulate,
    {
        TextureBlendMode::Modulate
    }
}

/// The product of two colours, channel by channel.
pub open spec fn multiply_spec(x: Color, y: Color) -> Color {
    Color {
        r: mul_channel(x.r, y.r),
        g: mul_channel(x.g, y.g),
        b: mul_channel(x.b, y.b),
        a: mul_channel(x.a, y.a),
    }
}

/// The saturating sum of two colours, channel by channel.
pub open spec fn add_spec(x: Color, y: Color) -> Color {
    Color {
        r: add_channel(x.r, y.r),
        g: add_channel(x.g, y.g),
        b: add_channel(x.b, y.b),
        a: add_channel(x.a, y.a),
    }
}

/// The colour of a texture pixel combined with a material colour in mode `mode`.
pub open spec fn blend_spec(mode: TextureBlendMode, texture_color: Color, material_color: Color) -> Color {
    match mode {
        TextureBlendMode::Replace => texture_color,
        TextureBlendMode::Modulate => multiply_spec(texture_color, material_color),
        TextureBlendMode::Additive => add_spec(texture_color, material_color),
    }
}

impl TextureBlendMode {
    /// Combine a texture pixel with the material colour.
    pub fn blend(&self, texture_color: Color, material_color: Color) -> (c: Color)
        ensures
            c == blend_spec(*self, texture_color, material_color),
    {
        match self {
            TextureBlendMode::Replace => texture_color,
            TextureBlendMode::Modulate => egui_multiply(texture_color, material_color),
            TextureBlendMode::Additive => egui_add(texture_color, material_color),
        }
    }

    /// The name of the mode, as the user interface shows it.
    pub fn label(&self) -> (s: &'static str)
        ensures
            s@ == match *self {
                TextureBlendMode::Replace => "Замена"@,
                TextureBlendMode::Modulate => "Умножение"@,
                TextureBlendMode::Additive => "Сложение"@,
            },
    {
        match self {
            TextureBlendMode::Replace => "Замена",
            TextureBlendMode::Modulate => "Умножение",
            TextureBlendMode::Additive => "Сложение",
        }
    }
}

/// The colour part of a model's material: its own colour and how a texture, if
/// the model has one, is combined with it. The texture itself is an image
/// sampled at real coordinates, and is kept beside the material by its owner.
#[derive(Debug, Clone, Copy, PartialEq, Eq, Structural)]
pub struct Material {
    pub color: Color,
    pub blend_mode: TextureBlendMode,
}

impl Default for Material {
    /// White, modulated by the texture.
    fn default() -> (m: Self)
        ensures
            m.color == (Color { r: 255, g: 255, b: 255, a: 255 }),
            m.blend_mode == TextureBlendMode::Modulate,
    {
        Material { color: Color::white(), blend_mode: TextureBlendMode::default() }
    }
}

impl Material {
    /// The colour of the model at a point: the texture colour there (`texel`,
    /// `None` for a model without texture) blended with the material colour, or the
    /// material colour alone.
    pub fn get_uv_color(&self, texel: Option<Color>) -> (c: Color)
        ensures
            c == match texel {
                Some(t) => blend_spec(self.blend_mode, t, self.color),
                None => self.color,
            },
    {
        match texel {
            Some(t) => self.blend_mode.blend(t, self.color),
            None => self.color,
        }
    }
}

/// Taking the opposite twice gives back any opaque colour.
pub proof fn law_opposite_involution(c: Color)
    requires
        c.a == 255,
    ensures
        opposite_spec(opposite_spec(c)) == c,
{
}

/// Modulating by opaque white leaves a colour as it is.
pub proof fn law_modulate_white_identity(c: Color)
    ensures
        blend_spec(TextureBlendMode::Modulate, c, Color { r: 255, g: 255, b: 255, a: 255 }) == c,
{
    assert forall|a: u8| #[trigger] mul_channel(a, 255) == a by {
        assert((2 * a * 255 + 255) / 510 == a) by (nonlinear_arith)
            requires
                0 <= a <= 255,
        ;
    }
    assert(mul_channel(c.r, 255) == c.r);
    assert(mul_channel(c.g, 255) == c.g);
    assert(mul_channel(c.b, 255) == c.b);
    assert(mul_channel(c.a, 255) == c.a);
}

/// Modulation and addition do not depend on the order of texture and material.
pub proof fn law_blend_commutative(x: Color, y: Color)
    ensures
        blend_spec(TextureBlendMode::Modulate, x, y) == blend_spec(TextureBlendMode::Modulate, y, x),
        blend_spec(TextureBlendMode::Additive, x, y) == blend_spec(TextureBlendMode::Additive, y, x),
{
    assert forall|a: u8, b: u8| #[trigger] mul_channel(a, b) == mul_channel(b, a) by {
        assert(2 * a * b + 255 == 2 * b * a + 255) by (nonlinear_arith);
    }
    assert(mul_channel(x.r, y.r) == mul_channel(y.r, x.r));
    assert(mul_channel(x.g, y.g) == mul_channel(y.g, x.g));
    assert(mul_channel(x.b, y.b) == mul_channel(y.b, x.b));
    assert(mul_channel(x.a, y.a) == mul_channel(y.a, x.a));
}

/// What each mode does, channel by channel, for every texture colour `t` and
/// material colour `m`: Replace gives `t` whatever `m` is; Modulate gives each
/// channel `t * m / 255` rounded to the nearest integer; Additive gives each
/// channel `t + m`, capped at 255.
pub proof fn law_blend_modes(t: Color, m: Color)
    ensures
        blend_spec(TextureBlendMode::Replace, t, m) == t,
        blend_spec(TextureBlendMode::Modulate, t, m).r as int == (2 * t.r * m.r + 255) / 510,
        blend_spec(TextureBlendMode::Modulate, t, m).g as int == (2 * t.g * m.g + 255) / 510,
        blend_spec(TextureBlendMode::Modulate, t, m).b as int == (2 * t.b * m.b + 255) / 510,
        blend_spec(TextureBlendMode::Modulate, t, m).a as int == (2 * t.a * m.a + 255) / 510,
        blend_spec(TextureBlendMode::Additive, t, m).r as int == if t.r + m.r > 255 {
            255
        } else {
            t.r + m.r
        },
        blend_spec(TextureBlendMode::Additive, t, m).g as int == if t.g + m.g > 255 {
            255
        } else {
            t.g + m.g
        },
        blend_spec(TextureBlendMode::Additive, t, m).b as int == if t.b + m.b > 255 {
            255
        } else {
            t.b + m.b
        },
        blend_spec(TextureBlendMode::Additive, t, m).a as int == if t.a + m.a > 255 {
            255
        } else {
            t.a + m.a
        },
{
    assert forall|a: u8, b: u8| #[trigger] mul_channel(a, b) as int == (2 * a * b + 255) / 510 by {
        assert(0 <= (2 * a * b + 255) / 510 <= 255) by (nonlinear_arith)
            requires
                0 <= a <= 255,
                0 <= b <= 255,
        ;
    }
    assert(mul_channel(t.r, m.r) as int == (2 * t.r * m.r + 255) / 510);
    assert(mul_channel(t.g, m.g) as int == (2 * t.g * m.g + 255) / 510);
    assert(mul_channel(t.b, m.b) as int == (2 * t.b * m.b + 255) / 510);
    assert(mul_channel(t.a, m.a) as int == (2 * t.a * m.a + 255) / 510);
}

/// The opposite of a colour takes each colour channel from 255 and is fully
/// opaque; a colour and its opposite add up to white in every colour channel.
pub proof fn law_opposite_channels(c: Color)
    ensures
        opposite_spec(c).r + c.r == 255,
        opposite_spec(c).g + c.g == 255,
        opposite_spec(c).b + c.b == 255,
        opposite_spec(c).a == 255,
{
}

} // verus!
