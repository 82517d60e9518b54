use vstd::prelude::*;

verus! {

#[verifier::external_type_specification]
#[verifier::external_body]
pub struct ExImageError(image::ImageError);

/// What decoding `bytes` as a PNG file and converting it to 8-bit RGBA
/// gives: its raw pixels row by row, its width and its height, or nothing
/// when the bytes are no PNG image that can be read.
pub uninterp spec fn decoded_rgba(bytes: Seq<u8>) -> Option<(Seq<u8>, u32, u32)>;

/// The window icon as RGBA pixels.
#[derive(Clone, Debug)]
pub struct IconImage {
    pub rgba: Vec<u8>,
    pub width: u32,
    pub height: u32,
}

/// Why the icon could not be had.
#[derive(Clone, Copy, Debug, PartialEq, Eq, Structural)]
pub enum IconError {
    /// The bytes are no PNG image that can be read.
    Undecodable,
}

/// Calls `image::load_from_memory_with_format` with the built-in PNG
/// format, then converts the image with `into_rgba8` and takes it apart with
/// `dimensions` and `into_raw`. With the format given, the image crate
/// consults none of its run-time registered hooks, so the result depends on
/// the bytes alone. Claimed of it: an error comes exactly when the bytes
/// decode to nothing, and the raw buffer holds exactly four bytes for each
/// of the `width * height` pixels, as the decoder allocates and the RGBA
/// conversion builds it.
#[verifier::external_body]
fn decode_rgba8(bytes: &[u8]) -> (res: Result<IconImage, image::ImageError>)
    ensures
        match res {
            Ok(img) => {
                &&& decoded_rgba(bytes@) == Some((img.rgba@, img.width, img.height))
                &&& img.rgba@.len() == 4 * img.width * img.height
            },
            Err(_) => decoded_rgba(bytes@) is None,
        },
{
    let image = image::load_from_memory_with_format(bytes, image::ImageFormat::Png)?.into_rgba8();
    let (width, height) = image.dimensions();
    Ok(IconImage { rgba: image.into_raw(), width, height })
}

/// Decodes the window icon from the bytes of a PNG file into RGBA pixels,
/// four bytes for each pixel.
pub fn load_icon(bytes: &[u8]) -> (res: Result<IconImage, IconError>)
    ensures
        res is Ok <==> decoded_rgba(bytes@) is Some,
        res matches Ok(img) ==> {
            &&& decoded_rgba(bytes@) == Some((img.rgba@, img.width, img.height))
            &&& img.rgba@.len() == 4 * img.width * img.height
        },
        res matches Err(e) ==> e == IconError::Undecodable,
{
    match decode_rgba8(bytes) {
        Ok(img) => Ok(img),
        Err(_) => Err(IconError::Undecodable),
    }
}

} // verus!
