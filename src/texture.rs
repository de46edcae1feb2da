use vstd::prelude::*;

verus! {

/// Pixel formats of the textures this library delivers.
#[derive(Clone, Copy, Debug, PartialEq, Eq, Structural)]
pub enum TextureFormat {
    /// Blue, green, red, alpha; 8 bits each, linear.
    Bgra8Unorm,
    /// Blue, green, red, alpha; 8 bits each, sRGB-encoded.
    Bgra8UnormSrgb,
}

/// Dimensionality of a GPU texture.
#[derive(Clone, Copy, Debug, PartialEq, Eq, Structural)]
pub enum TextureDimension {
    D1,
    D2,
    D3,
}

/// The ways a delivered texture may be used.
#[derive(Clone, Copy, Debug, PartialEq, Eq, Structural)]
pub struct TextureUsages {
    pub copy_src: bool,
    pub copy_dst: bool,
    pub texture_binding: bool,
    pub storage_binding: bool,
    pub render_attachment: bool,
}

impl TextureUsages {
    /// No usage at all.
    pub fn empty() -> (r: TextureUsages)
        ensures
            !r.copy_src,
            !r.copy_dst,
            !r.texture_binding,
            !r.storage_binding,
            !r.render_attachment,
    {
        TextureUsages {
            copy_src: false,
            copy_dst: false,
            texture_binding: false,
            storage_binding: false,
            render_attachment: false,
        }
    }
}

/// Everything needed to create a texture and fill it with an image.
#[derive(Clone, Copy, Debug, PartialEq, Eq, Structural)]
pub struct TextureShape {
    pub width: u32,
    pub height: u32,
    pub depth_or_array_layers: u32,
    pub mip_level_count: u32,
    pub sample_count: u32,
    pub dimension: TextureDimension,
    pub format: TextureFormat,
    pub usage: TextureUsages,
}

} // verus!
