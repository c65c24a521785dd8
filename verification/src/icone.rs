//! The window icon: image bytes decoded into RGBA pixels.

use vstd::prelude::*;

verus! {

/// Names the decoding of image bytes, in whatever format they announce, into
/// RGBA pixels with 8 bits a channel, row by row, with the width and height;
/// `None` where the bytes are not an image that can be decoded.
pub uninterp spec fn imagem_rgba(bytes: Seq<u8>) -> Option<(Seq<u8>, u32, u32)>;

/// Decodes image bytes into RGBA pixels, width and height.
///
/// Trusted: `image::load_from_memory`, then `DynamicImage::into_rgba8`,
/// `ImageBuffer::dimensions` and `ImageBuffer::into_raw`, which only convert
/// its result. The outcome is named `imagem_rgba(bytes)`; nothing more is
/// claimed of it.
#[verifier::external_body]
fn decodificar_rgba(bytes: &[u8]) -> (r: Option<(Vec<u8>, u32, u32)>)
    ensures
        match r {
            Some((rgba, largura, altura)) => imagem_rgba(bytes@) == Some((rgba@, largura, altura)),
            None => imagem_rgba(bytes@) is None,
        },
{
    match image::load_from_memory(bytes) {
        Ok(imagem) => {
            let rgba = imagem.into_rgba8();
            let (largura, altura) = rgba.dimensions();
            Some((rgba.into_raw(), largura, altura))
        },
        Err(_) => None,
    }
}

/// The pixels of an icon, RGBA with 8 bits a channel, row by row.
pub struct Icone {
    pub rgba: Vec<u8>,
    pub largura: u32,
    pub altura: u32,
}

/// The icon that the image bytes hold, or `None` where they cannot be
/// decoded.
pub fn carregar_icone(bytes: &[u8]) -> (r: Option<Icone>)
    ensures
        match r {
            Some(i) => imagem_rgba(bytes@) == Some((i.rgba@, i.largura, i.altura)),
            None => imagem_rgba(bytes@) is None,
        },
{
    match decodificar_rgba(bytes) {
        Some((rgba, largura, altura)) => Some(Icone { rgba, largura, altura }),
        None => None,
    }
}

} // verus!
