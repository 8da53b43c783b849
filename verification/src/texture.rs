use vstd::prelude::*;

verus! {

/// Pixel channel layout of a decoded image.
#[derive(Clone, Copy, PartialEq, Eq, Structural, Debug)]
pub enum TextureFormat {
    Rgb,
    Rgba,
}

/// A GPU texture resource: the handle the platform returned for the
/// uploaded pixels, the channel format the asset was decoded with, and
/// whether the rows were vertically flipped to match the decoder's
/// origin convention.
#[derive(Clone, Copy, PartialEq, Eq, Structural, Debug)]
pub struct Texture {
    pub id: u32,
    pub format: TextureFormat,
    pub flipped: bool,
}

impl Texture {
    pub fn new(id: u32, format: TextureFormat, flipped: bool) -> (t: Texture)
        ensures
            t.id == id && t.format == format && t.flipped == flipped,
    {
        Texture { id, format, flipped }
    }

    /// Channels per pixel for the texture's format.
    pub fn channels(&self) -> (n: u32)
        ensures
            self.format == TextureFormat::Rgb ==> n == 3,
            self.format == TextureFormat::Rgba ==> n == 4,
    {
        match self.format {
            TextureFormat::Rgb => 3,
            TextureFormat::Rgba => 4,
        }
    }
}

/// The platform constant selecting the upload format for a channel
/// layout: `GL_RGB` or `GL_RGBA`.
pub fn gl_pixel_format(format: TextureFormat) -> (v: u32)
    ensures
        format == TextureFormat::Rgb ==> v == 0x1907,
        format == TextureFormat::Rgba ==> v == 0x1908,
{
    match format {
        TextureFormat::Rgb => 0x1907,
        TextureFormat::Rgba => 0x1908,
    }
}

} // verus!
