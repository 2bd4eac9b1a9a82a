//! Recipes of the textures that are rendered once at startup and reused
//! unchanged in every frame. A recipe holds no time-varying input, so a
//! texture baked from it is the same whenever it is baked.
use vstd::prelude::*;
use crate::paint::{DrawCommand, Rgba};

verus! {

/// Side of the flat colour squares, in pixels.
pub const TEXTURE_SIZE: u32 = 32;

/// Side of the player marker texture, in pixels.
pub const PLAYER_TEXTURE_SIZE: u32 = 1000;

/// The fill colour of a flat square.
#[derive(Clone, Copy, Debug, PartialEq, Eq, Structural)]
pub enum TextureColor {
    Green,
    Blue,
}

/// The pixel format asked of the render target.
#[derive(Clone, Copy, Debug, PartialEq, Eq, Structural)]
pub enum TargetFormat {
    /// Whatever the backend prefers.
    Native,
    /// 8 bits per channel with alpha, for alpha-blended content.
    Rgba8888,
}

/// A target size and format, and the fill operations to run on it once.
#[derive(Debug)]
pub struct BakeRecipe {
    pub width: u32,
    pub height: u32,
    pub format: TargetFormat,
    pub ops: Vec<DrawCommand>,
}

/// The colour that a square of `color` is filled with.
pub open spec fn fill_color_of(color: TextureColor) -> Rgba {
    match color {
        TextureColor::Green => Rgba { r: 0, g: 255, b: 0, a: 255 },
        TextureColor::Blue => Rgba { r: 0, g: 0, b: 255, a: 255 },
    }
}

/// The fill operations of the player marker: a translucent black ground,
/// then a translucent green sector and a slightly smaller translucent red
/// sector over it.
pub open spec fn player_marker_ops() -> Seq<DrawCommand> {
    seq![
        DrawCommand::Clear { color: Rgba { r: 0, g: 0, b: 0, a: 100 } },
        DrawCommand::FilledPie {
            cx: 500,
            cy: 500,
            radius: 400,
            start: 0,
            end: 45,
            color: Rgba { r: 0, g: 255, b: 0, a: 100 },
        },
        DrawCommand::FilledPie {
            cx: 500,
            cy: 500,
            radius: 380,
            start: 0,
            end: 45,
            color: Rgba { r: 255, g: 0, b: 0, a: 100 },
        },
    ]
}

/// The opaque colour of a flat square.
pub fn fill_color(color: TextureColor) -> (c: Rgba)
    ensures
        c == fill_color_of(color),
{
    match color {
        TextureColor::Green => Rgba::rgb(0, 255, 0),
        TextureColor::Blue => Rgba::rgb(0, 0, 255),
    }
}

/// A `size` by `size` square of one colour, on a target of the backend's
/// preferred format.
pub fn square_recipe(color: TextureColor, size: u32) -> (r: BakeRecipe)
    requires
        size > 0,
    ensures
        r.width == size,
        r.height == size,
        r.format == TargetFormat::Native,
        r.ops@ == seq![DrawCommand::Clear { color: fill_color_of(color) }],
{
    let ops = vec![DrawCommand::Clear { color: fill_color(color) }];
    assert(ops@ =~= seq![DrawCommand::Clear { color: fill_color_of(color) }]);
    BakeRecipe { width: size, height: size, format: TargetFormat::Native, ops }
}

/// The player marker: a 1000 by 1000 alpha-blended wedge.
pub fn player_marker_recipe() -> (r: BakeRecipe)
    ensures
        r.width == PLAYER_TEXTURE_SIZE,
        r.height == PLAYER_TEXTURE_SIZE,
        r.format == TargetFormat::Rgba8888,
        r.ops@ == player_marker_ops(),
{
    let ops = vec![
        DrawCommand::Clear { color: Rgba::rgba(0, 0, 0, 100) },
        DrawCommand::FilledPie { cx: 500, cy: 500, radius: 400, start: 0, end: 45, color: Rgba::rgba(0, 255, 0, 100) },
        DrawCommand::FilledPie { cx: 500, cy: 500, radius: 380, start: 0, end: 45, color: Rgba::rgba(255, 0, 0, 100) },
    ];
    assert(ops@ =~= player_marker_ops());
    BakeRecipe {
        width: PLAYER_TEXTURE_SIZE,
        height: PLAYER_TEXTURE_SIZE,
        format: TargetFormat::Rgba8888,
        ops,
    }
}

} // verus!
