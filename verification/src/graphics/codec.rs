//! Decoding and encoding of image files, done by the `image` crate.

use vstd::prelude::*;

verus! {

/// What `image` decodes `bytes` to: the width, the height and the RGBA8
/// texels row by row, or the text of the decoder's error.
pub uninterp spec fn decoded_rgba(bytes: Seq<u8>) -> Result<(u32, u32, Seq<u8>), Seq<char>>;

/// What `image` encodes a buffer of RGBA8 texels of the given size to as PNG:
/// the bytes of the file, or the text of the encoder's error.
pub uninterp spec fn png_encoding(rgba: Seq<u8>, width: u32, height: u32) -> Result<
    Seq<u8>,
    Seq<char>,
>;

/// Calls `image::load_from_memory`, which guesses the format from the first
/// bytes and decodes the whole file, and converts what it returns to RGBA8
/// with `to_rgba8`. An error is handed back as the text that it displays.
#[verifier::external_body]
pub(crate) fn decode_rgba(bytes: &[u8]) -> (r: Result<(u32, u32, Vec<u8>), String>)
    ensures
        match r {
            Ok((width, height, rgba)) => decoded_rgba(bytes@) == Ok::<_, Seq<char>>(
                (width, height, rgba@),
            ),
            Err(text) => decoded_rgba(bytes@) == Err::<(u32, u32, Seq<u8>), _>(text@),
        },
{
    match image::load_from_memory(bytes) {
        Ok(img) => {
            let rgba = img.to_rgba8();
            let (width, height) = rgba.dimensions();
            Ok((width, height, rgba.into_raw()))
        },
        Err(e) => Err(e.to_string()),
    }
}

/// Calls `image::png::PngEncoder::encode` on a writer that appends to a
/// vector, with the colour type RGBA8. An error is handed back as the text
/// that it displays.
#[verifier::external_body]
pub(crate) fn encode_png(rgba: &[u8], width: u32, height: u32) -> (r: Result<Vec<u8>, String>)
    ensures
        match r {
            Ok(file) => png_encoding(rgba@, width, height) == Ok::<_, Seq<char>>(file@),
            Err(text) => png_encoding(rgba@, width, height) == Err::<Seq<u8>, _>(text@),
        },
{
    let mut file: Vec<u8> = Vec::new();
    let encoder = image::png::PngEncoder::new(&mut file);
    match encoder.encode(rgba, width, height, image::ColorType::Rgba8) {
        Ok(()) => Ok(file),
        Err(e) => Err(e.to_string()),
    }
}

} // verus!
