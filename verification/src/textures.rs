//! The texture registry: a fixed mapping from cell state to visual asset
//! handle, populated once at startup and immutable afterwards.

use vstd::prelude::*;
use crate::grid::{BlockColor, GridObject};

verus! {

/// An opaque visual-asset handle, as the asset loader identifies the loaded
/// textures to this core. The loader owns the real asset objects; the core
/// only stores and compares these identifiers.
#[derive(Clone, Copy, PartialEq, Eq, Structural, Debug)]
pub struct TextureId(pub u64);

/// The startup failure of the registry: a declared asset path did not
/// resolve, so the board could not be rendered faithfully.
#[derive(Clone, Copy, PartialEq, Eq, Structural, Debug)]
pub enum TextureInitError {
    MissingAsset,
}

/// The texture registry: one handle for the background tile and one per
/// block color, seven in all.
#[derive(Clone, Copy, PartialEq, Eq, Structural, Debug)]
pub struct BlockTextures {
    pub bg: TextureId,
    pub blue: TextureId,
    pub green: TextureId,
    pub orange: TextureId,
    pub pink: TextureId,
    pub red: TextureId,
    pub yellow: TextureId,
}

/// The handle the registry assigns to a block of color `col`.
pub open spec fn color_texture(tex: BlockTextures, col: BlockColor) -> TextureId {
    match col {
        BlockColor::Blue => tex.blue,
        BlockColor::Green => tex.green,
        BlockColor::Orange => tex.orange,
        BlockColor::Pink => tex.pink,
        BlockColor::Red => tex.red,
        BlockColor::Yellow => tex.yellow,
    }
}

/// The handle the registry assigns to a cell state: the background handle
/// for an empty cell, the color's handle for an occupied one.
pub open spec fn object_texture(tex: BlockTextures, obj: GridObject) -> TextureId {
    match obj {
        GridObject::Empty => tex.bg,
        GridObject::Tetrino(col) => color_texture(tex, col),
    }
}

impl BlockTextures {
    /// Binds the seven declared assets. The asset loader reports a missing
    /// path as `None`; any missing asset is fatal to initialization, so the
    /// registry is returned if and only if all seven handles are present.
    pub fn initialize(
        bg: Option<TextureId>,
        blue: Option<TextureId>,
        green: Option<TextureId>,
        orange: Option<TextureId>,
        pink: Option<TextureId>,
        red: Option<TextureId>,
        yellow: Option<TextureId>,
    ) -> (result: Result<BlockTextures, TextureInitError>)
        ensures
            result is Ok <==> (bg is Some && blue is Some && green is Some && orange is Some
                && pink is Some && red is Some && yellow is Some),
            result is Err ==> result->Err_0 == TextureInitError::MissingAsset,
            result matches Ok(tex) ==> tex == (BlockTextures {
                bg: bg->0,
                blue: blue->0,
                green: green->0,
                orange: orange->0,
                pink: pink->0,
                red: red->0,
                yellow: yellow->0,
            }),
    {
        match (bg, blue, green, orange, pink, red, yellow) {
            (Some(bg), Some(blue), Some(green), Some(orange), Some(pink), Some(red), Some(yellow)) => {
                Ok(BlockTextures { bg, blue, green, orange, pink, red, yellow })
            },
            _ => Err(TextureInitError::MissingAsset),
        }
    }

    /// Total lookup from a cell state to its handle: never fails once the
    /// registry exists.
    pub fn texture_for_obj(&self, obj: &GridObject) -> (id: TextureId)
        ensures
            id == object_texture(*self, *obj),
    {
        match obj {
            GridObject::Empty => self.bg,
            GridObject::Tetrino(block_color) => self.texture_for_color(block_color),
        }
    }

    /// Total lookup from a block color to its handle.
    pub fn texture_for_color(&self, col: &BlockColor) -> (id: TextureId)
        ensures
            id == color_texture(*self, *col),
    {
        match *col {
            BlockColor::Blue => self.blue,
            BlockColor::Green => self.green,
            BlockColor::Orange => self.orange,
            BlockColor::Pink => self.pink,
            BlockColor::Red => self.red,
            BlockColor::Yellow => self.yellow,
        }
    }
}

} // verus!
