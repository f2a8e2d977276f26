use vstd::prelude::*;

verus! {

/// How the GPU should interpret the colour channels of a texture.
#[derive(Debug, Clone, Copy, PartialEq, Eq, Structural)]
pub enum ColorSpace {
    /// Colour data stored gamma-encoded (diffuse and specular maps).
    Srgb,
    /// Linear data (normal maps must not be gamma-decoded).
    Linear,
}

/// The texture slots of a material.
#[derive(Debug, Clone, Copy, PartialEq, Eq, Structural)]
pub enum TextureSlot {
    Diffuse,
    Normal,
    Specular,
}

impl TextureSlot {
    /// Colour maps are gamma-encoded; a normal map holds directions and is read linearly.
    pub fn color_space(self) -> (r: ColorSpace)
        ensures
            r == (if self == TextureSlot::Normal {
                ColorSpace::Linear
            } else {
                ColorSpace::Srgb
            }),
    {
        match self {
            TextureSlot::Normal => ColorSpace::Linear,
            _ => ColorSpace::Srgb,
        }
    }
}

/// Why a texture could not be made.
#[derive(Debug, Clone, Copy, PartialEq, Eq, Structural)]
pub enum TextureError {
    /// The bytes are not an image in a format this library decodes.
    Decode,
    /// The pixel buffer does not hold four bytes for each of `width` x `height` pixels.
    SizeMismatch,
}

/// The image that `image` decodes from the given bytes: width, height and RGBA bytes, or
/// `None` when the bytes are not an image it can decode.
pub uninterp spec fn decoded_rgba(bytes: Seq<u8>) -> Option<(u32, u32, Seq<u8>)>;

#[verifier::external_type_specification]
#[verifier::external_body]
pub struct ExImageError(image::ImageError);

/// Relies on `image::load_from_memory` (format guessed from the bytes) and
/// `DynamicImage::to_rgba8`: the result depends on the bytes alone, and the RGBA buffer holds
/// four bytes for every pixel.
#[verifier::external_body]
fn decode_rgba(bytes: &[u8]) -> (r: Result<(u32, u32, Vec<u8>), image::ImageError>)
    ensures
        match r {
            Ok((w, h, p)) => decoded_rgba(bytes@) == Some((w, h, p@)) && p@.len() == 4 * w * h,
            Err(_) => decoded_rgba(bytes@) is None,
        },
{
    match image::load_from_memory(bytes) {
        Ok(img) => {
            let rgba = img.to_rgba8();
            let (w, h) = rgba.dimensions();
            Ok((w, h, rgba.into_raw()))
        },
        Err(e) => Err(e),
    }
}

/// CPU-side RGBA8 pixel data of a 2D texture, ready to be uploaded.
#[derive(Debug, Clone)]
pub struct Texture {
    pub width: u32,
    pub height: u32,
    /// Row-major RGBA bytes, four per pixel.
    pub pixels: Vec<u8>,
}

/// A `width` x `height` RGBA image in which every pixel is `rgba`.
pub open spec fn is_filled(pixels: Seq<u8>, width: nat, height: nat, rgba: Seq<u8>) -> bool {
    &&& pixels.len() == 4 * width * height
    &&& forall|i: int| 0 <= i < pixels.len() ==> #[trigger] pixels[i] == rgba[i % 4]
}

/// Relies on `image::ImageBuffer::from_pixel` (then `into_raw`): the buffer holds
/// `width * height` copies of the pixel, row-major, four bytes each.
#[verifier::external_body]
fn filled_rgba(width: u32, height: u32, rgba: [u8; 4]) -> (r: Vec<u8>)
    requires
        4 * width * height <= usize::MAX,
    ensures
        is_filled(r@, width as nat, height as nat, rgba@),
{
    image::RgbaImage::from_pixel(width, height, image::Rgba(rgba)).into_raw()
}

impl Texture {
    pub open spec fn wf(&self) -> bool {
        self.pixels@.len() == 4 * self.width * self.height
    }

    /// A 1x1 opaque texture of the given colour.
    pub fn solid_color(color: [u8; 3]) -> (r: Texture)
        ensures
            r.wf(),
            r.width == 1,
            r.height == 1,
            r.pixels@ == seq![color[0], color[1], color[2], 255u8],
    {
        let pixels = filled_rgba(1, 1, [color[0], color[1], color[2], 255]);
        let r = Texture { width: 1, height: 1, pixels };
        assert(r.pixels@[0] == color[0]);
        assert(r.pixels@[1] == color[1]);
        assert(r.pixels@[2] == color[2]);
        assert(r.pixels@[3] == 255u8);
        assert(r.pixels@ =~= seq![color[0], color[1], color[2], 255u8]);
        r
    }

    /// A texture from decoded pixels: `width` x `height` pixels, four bytes each, row-major.
    pub fn from_rgba(width: u32, height: u32, pixels: Vec<u8>) -> (r: Result<Texture, TextureError>)
        ensures
            pixels@.len() == 4 * width * height ==> (r matches Ok(t) && t.width == width && t.height == height
                && t.pixels@ == pixels@),
            pixels@.len() != 4 * width * height ==> r == Err::<Texture, TextureError>(TextureError::SizeMismatch),
    {
        let w = width as u128;
        let h = height as u128;
        assert(w * h <= 0xffff_ffff * 0xffff_ffff) by (nonlinear_arith)
            requires w <= 0xffff_ffff, h <= 0xffff_ffff;
        assert(4 * width * height == 4 * (w * h)) by (nonlinear_arith)
            requires w == width, h == height;
        if pixels.len() as u128 != 4 * (w * h) {
            return Err(TextureError::SizeMismatch);
        }
        Ok(Texture { width, height, pixels })
    }

    /// Decodes an encoded image (PNG, JPEG) into a texture.
    pub fn from_bytes(bytes: &[u8]) -> (r: Result<Texture, TextureError>)
        ensures
            match decoded_rgba(bytes@) {
                Some((w, h, p)) => (r matches Ok(t) && t.wf() && t.width == w && t.height == h && t.pixels@ == p),
                None => r == Err::<Texture, TextureError>(TextureError::Decode),
            },
    {
        match decode_rgba(bytes) {
            Ok((w, h, p)) => Texture::from_rgba(w, h, p),
            Err(_) => Err(TextureError::Decode),
        }
    }

    /// Bytes per row when the texture is uploaded, when that fits in 32 bits.
    pub fn bytes_per_row(&self) -> (r: Option<u32>)
        ensures
            4 * self.width <= u32::MAX ==> r == Some((4 * self.width) as u32),
            4 * self.width > u32::MAX ==> r is None,
    {
        if self.width > u32::MAX / 4 {
            None
        } else {
            Some(4 * self.width)
        }
    }

    /// The 1x1 white texture bound where a material has no map of its own.
    pub fn default_white() -> (r: Texture)
        ensures
            r.wf(),
            is_white_placeholder(r),
    {
        Texture::solid_color([255, 255, 255])
    }
}

/// The placeholder: one opaque white pixel.
pub open spec fn is_white_placeholder(t: Texture) -> bool {
    &&& t.width == 1
    &&& t.height == 1
    &&& t.pixels@ == seq![255u8, 255u8, 255u8, 255u8]
}

} // verus!
