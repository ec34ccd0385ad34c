use vstd::prelude::*;

verus! {

#[verifier::external_type_specification]
#[verifier::external_body]
pub struct ExImageError(image::ImageError);

/// The encodings in which a texture can be handed to the library.
#[derive(Clone, Copy, Debug, PartialEq, Eq, Structural)]
pub enum TextureFormat {
    Png,
    Jpeg,
}

/// Why a texture could not be made.
#[derive(Clone, Copy, Debug, PartialEq, Eq, Structural)]
pub enum TextureError {
    /// The bytes are not an image in the given format.
    Undecodable,
}

/// A decoded texture: its size in pixels and its pixels as 8-bit RGBA, row by
/// row from the top-left corner, as WebGL's `texImage2D` takes them with format
/// and internal format `RGBA` and type `UNSIGNED_BYTE`.
pub struct TextureImage {
    width: u32,
    height: u32,
    rgba: Vec<u8>,
}

impl View for TextureImage {
    type V = (u32, u32, Seq<u8>);

    closed spec fn view(&self) -> (u32, u32, Seq<u8>) {
        (self.width, self.height, self.rgba@)
    }
}

/// A pixel buffer of `rgba_len` bytes holds exactly the pixels of a `width` by
/// `height` image, four bytes each.
pub open spec fn holds_all_pixels(width: u32, height: u32, rgba_len: nat) -> bool {
    rgba_len == 4 * width * height
}

impl TextureImage {
    #[verifier::type_invariant]
    closed spec fn well_formed(self) -> bool {
        holds_all_pixels(self.width, self.height, self.rgba@.len())
    }

    /// The width in pixels.
    pub fn width(&self) -> (w: u32)
        ensures
            w == self@.0,
    {
        self.width
    }

    /// The height in pixels.
    pub fn height(&self) -> (h: u32)
        ensures
            h == self@.1,
    {
        self.height
    }

    /// The RGBA bytes: four for each pixel, and no more.
    pub fn pixels(&self) -> (rgba: &Vec<u8>)
        ensures
            rgba@ == self@.2,
            holds_all_pixels(self@.0, self@.1, rgba@.len()),
    {
        proof {
            use_type_invariant(self);
        }
        &self.rgba
    }
}

/// What `image::load_from_memory_with_format` makes of `bytes` read as
/// `format`, turned into 8-bit RGBA: the width, the height and the pixel bytes,
/// or `None` where the bytes are no image in that format.
pub uninterp spec fn decoded_rgba8(bytes: Seq<u8>, format: TextureFormat) -> Option<(u32, u32, Seq<u8>)>;

/// Calls `image::load_from_memory_with_format` and converts the image it returns
/// with `width`, `height`, `to_rgba8` and `into_vec`. Claimed: the result is the
/// named decoding of these bytes in this format, failure happening exactly
/// where that decoding is `None`; and the RGBA buffer holds exactly four bytes
/// for each pixel (the decoder fills a buffer of `total_bytes`, width times
/// height times the bytes of a pixel, and `to_rgba8` either clones that buffer or
/// writes four channels for each of its pixels). Which pixels a given encoding
/// decodes to is left unsaid.
#[verifier::external_body]
fn decode_rgba8(bytes: &[u8], format: TextureFormat) -> (res: Result<(u32, u32, Vec<u8>), image::ImageError>)
    ensures
        match res {
            Ok((w, h, rgba)) => decoded_rgba8(bytes@, format) == Some((w, h, rgba@)),
            Err(_) => decoded_rgba8(bytes@, format) is None,
        },
        match res {
            Ok((w, h, rgba)) => holds_all_pixels(w, h, rgba@.len()),
            Err(_) => true,
        },
{
    let image_format = match format {
        TextureFormat::Png => image::ImageFormat::Png,
        TextureFormat::Jpeg => image::ImageFormat::Jpeg,
    };
    match image::load_from_memory_with_format(bytes, image_format) {
        Ok(img) => Ok((img.width(), img.height(), img.to_rgba8().into_vec())),
        Err(e) => Err(e),
    }
}

/// What a texture becomes once it has been decoded: `None`, an undecodable
/// image, is refused; a decoded width, height and pixel buffer become the
/// texture as they are.
pub fn texture_from_decoded(decoded: Option<(u32, u32, Vec<u8>)>) -> (res: Result<TextureImage, TextureError>)
    requires
        decoded matches Some((w, h, rgba)) ==> holds_all_pixels(w, h, rgba@.len()),
    ensures
        match decoded {
            Some((w, h, rgba)) => res matches Ok(t) && t@ == (w, h, rgba@),
            None => res == Err::<TextureImage, TextureError>(TextureError::Undecodable),
        },
{
    match decoded {
        Some((width, height, rgba)) => Ok(TextureImage { width, height, rgba }),
        None => Err(TextureError::Undecodable),
    }
}

/// Decodes the texture image held in `bytes` in the given format; fails with
/// `Undecodable` exactly where the bytes are no image in that format.
pub fn decode_texture(bytes: &[u8], format: TextureFormat) -> (res: Result<TextureImage, TextureError>)
    ensures
        match decoded_rgba8(bytes@, format) {
            Some((w, h, rgba)) => res matches Ok(t) && t@ == (w, h, rgba),
            None => res == Err::<TextureImage, TextureError>(TextureError::Undecodable),
        },
{
    let decoded = match decode_rgba8(bytes, format) {
        Ok(image) => Some(image),
        Err(_) => None,
    };
    texture_from_decoded(decoded)
}

} // verus!
