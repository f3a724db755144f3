//! The texture: decoding the embedded image to RGBA8 and laying its rows out
//! for upload with the row stride that the GPU asks for.
use vstd::prelude::*;

verus! {

/// Bytes of one RGBA8 pixel.
pub const BYTES_PER_PIXEL: u32 = 4;

/// Alignment in bytes that the GPU asks of each row of a buffer-to-texture
/// copy.
pub const ROW_ALIGNMENT: u32 = 256;

/// What the sampler does with coordinates outside `[0, 1]`.
#[derive(Clone, Copy, Debug, PartialEq, Eq, Structural)]
pub enum AddressMode {
    ClampToEdge,
    Repeat,
    MirrorRepeat,
}

/// How the sampler picks between texels.
#[derive(Clone, Copy, Debug, PartialEq, Eq, Structural)]
pub enum FilterMode {
    Nearest,
    Linear,
}

/// The sampler that the fragment stage reads the texture through.
#[derive(Clone, Copy, Debug, PartialEq, Eq, Structural)]
pub struct SamplerSettings {
    pub address_mode_u: AddressMode,
    pub address_mode_v: AddressMode,
    pub address_mode_w: AddressMode,
    pub mag_filter: FilterMode,
    pub min_filter: FilterMode,
    pub mipmap_filter: FilterMode,
}

/// Sizes of the copy from the staging bytes into the texture.
#[derive(Clone, Copy, Debug, PartialEq, Eq, Structural)]
pub struct UploadLayout {
    pub width: u32,
    pub height: u32,
    /// Bytes of pixel data in one row.
    pub unpadded_bytes_per_row: u32,
    /// Distance in bytes from one row to the next in the staging bytes.
    pub padded_bytes_per_row: u32,
}

/// An image decoded to RGBA8, rows top to bottom, four bytes per pixel.
#[derive(Clone, Debug)]
pub struct DecodedImage {
    pub width: u32,
    pub height: u32,
    pub pixels: Vec<u8>,
}

/// Everything the GPU texture is made from.
#[derive(Clone, Debug)]
pub struct TextureUpload {
    pub layout: UploadLayout,
    /// The pixel rows, each padded with zeros to the row stride.
    pub staging: Vec<u8>,
    pub sampler: SamplerSettings,
}

/// Why no texture could be made.
#[derive(Clone, Copy, Debug, PartialEq, Eq, Structural)]
pub enum TextureError {
    /// The bytes are no image that the decoder understands.
    ImageDecodeError,
    /// The padded image does not fit in memory.
    TooLarge,
}

/// What decoding `bytes` to RGBA8 gives: width, height and pixel bytes, or
/// nothing for bytes that are no image.
pub uninterp spec fn decoded_rgba(bytes: Seq<u8>) -> Option<(u32, u32, Seq<u8>)>;

/// Relies on image::load_from_memory and DynamicImage::into_rgba8: the image
/// that the bytes encode, as RGBA8; its buffer holds at least four bytes per
/// pixel (ImageBuffer::from_raw refuses a shorter one).
#[verifier::external_body]
fn decode_rgba(bytes: &[u8]) -> (r: Option<DecodedImage>)
    ensures
        r matches Some(d) ==> decoded_rgba(bytes@) == Some((d.width, d.height, d.pixels@))
            && d.pixels@.len() >= 4 * d.width * d.height,
        r is None ==> decoded_rgba(bytes@) is None,
{
    match image::load_from_memory(bytes) {
        Ok(img) => {
            let rgba = img.into_rgba8();
            let (width, height) = rgba.dimensions();
            Some(DecodedImage { width, height, pixels: rgba.into_raw() })
        },
        Err(_) => None,
    }
}

/// Row stride for an image `width` pixels wide: the smallest multiple of the
/// row alignment that holds a row.
pub open spec fn padded_row_bytes(width: int) -> int {
    let unpadded = BYTES_PER_PIXEL * width;
    let a = ROW_ALIGNMENT as int;
    ((unpadded + a - 1) / a) * a
}

/// One staged row: `unpadded` pixel bytes from `start`, then zeros up to
/// `padded`.
pub open spec fn staged_row(pixels: Seq<u8>, start: int, unpadded: int, padded: int) -> Seq<u8> {
    pixels.subrange(start, start + unpadded) + Seq::new((padded - unpadded) as nat, |_i: int| 0u8)
}

/// The first `rows` rows of the image, each padded to `padded` bytes.
pub open spec fn staged_rows(pixels: Seq<u8>, unpadded: int, padded: int, rows: nat) -> Seq<u8>
    decreases rows,
{
    if rows == 0 {
        Seq::empty()
    } else {
        staged_rows(pixels, unpadded, padded, (rows - 1) as nat)
            + staged_row(pixels, (rows - 1) * unpadded, unpadded, padded)
    }
}

/// The sampler of the texture: clamped to the edge, linear when magnified,
/// nearest when minified and between mip levels.
pub open spec fn texture_sampler() -> SamplerSettings {
    SamplerSettings {
        address_mode_u: AddressMode::ClampToEdge,
        address_mode_v: AddressMode::ClampToEdge,
        address_mode_w: AddressMode::ClampToEdge,
        mag_filter: FilterMode::Linear,
        min_filter: FilterMode::Nearest,
        mipmap_filter: FilterMode::Nearest,
    }
}

proof fn lemma_staged_rows_len(pixels: Seq<u8>, unpadded: int, padded: int, rows: nat)
    requires
        0 <= unpadded <= padded,
        (rows as int) * unpadded <= pixels.len(),
    ensures
        staged_rows(pixels, unpadded, padded, rows).len() == rows * padded,
    decreases rows,
{
    if rows > 0 {
        assert((rows - 1) * unpadded + unpadded == rows * unpadded) by (nonlinear_arith);
        assert((rows - 1) * unpadded >= 0) by (nonlinear_arith)
            requires rows > 0, unpadded >= 0;
        lemma_staged_rows_len(pixels, unpadded, padded, (rows - 1) as nat);
        assert((rows - 1) * padded + padded == rows * padded) by (nonlinear_arith);
    }
}

/// The sampler settings of the texture.
pub fn sampler_settings() -> (r: SamplerSettings)
    ensures
        r == texture_sampler(),
{
    SamplerSettings {
        address_mode_u: AddressMode::ClampToEdge,
        address_mode_v: AddressMode::ClampToEdge,
        address_mode_w: AddressMode::ClampToEdge,
        mag_filter: FilterMode::Linear,
        min_filter: FilterMode::Nearest,
        mipmap_filter: FilterMode::Nearest,
    }
}

/// The copy sizes for a `width` by `height` image, or `None` where the padded
/// row stride does not fit in a `u32`.
pub fn upload_layout(width: u32, height: u32) -> (r: Option<UploadLayout>)
    ensures
        r is Some <==> padded_row_bytes(width as int) <= u32::MAX,
        r matches Some(l) ==> l.width == width && l.height == height
            && l.unpadded_bytes_per_row == BYTES_PER_PIXEL * width
            && l.padded_bytes_per_row == padded_row_bytes(width as int),
{
    assert(BYTES_PER_PIXEL == 4 && ROW_ALIGNMENT == 256);
    let unpadded: u64 = 4 * width as u64;
    let a: u64 = ROW_ALIGNMENT as u64;
    let padded: u64 = (unpadded + a - 1) / a * a;
    if padded > u32::MAX as u64 {
        None
    } else {
        Some(UploadLayout {
            width,
            height,
            unpadded_bytes_per_row: unpadded as u32,
            padded_bytes_per_row: padded as u32,
        })
    }
}

/// The padded row stride is a multiple of the alignment, holds one row of
/// pixels, and wastes less than one alignment unit.
pub proof fn lemma_padded_row_bytes(width: int)
    requires
        width >= 0,
    ensures
        padded_row_bytes(width) % (ROW_ALIGNMENT as int) == 0,
        BYTES_PER_PIXEL * width <= padded_row_bytes(width),
        padded_row_bytes(width) < BYTES_PER_PIXEL * width + ROW_ALIGNMENT,
{
    let u = BYTES_PER_PIXEL * width;
    let q = (u + 255) / 256;
    assert(q * 256 % 256 == 0) by (nonlinear_arith);
    assert(u <= q * 256 < u + 256) by (nonlinear_arith)
        requires q == (u + 255) / 256, u >= 0;
}

/// Lays out the rows of `pixels` for upload: each row of `layout` is copied
/// and padded with zeros to the row stride.
pub fn pad_rows(layout: &UploadLayout, pixels: &[u8]) -> (r: Vec<u8>)
    requires
        layout.unpadded_bytes_per_row <= layout.padded_bytes_per_row,
        layout.unpadded_bytes_per_row as int * layout.height <= pixels@.len(),
        layout.padded_bytes_per_row as int * layout.height <= usize::MAX,
    ensures
        r@ == staged_rows(
            pixels@,
            layout.unpadded_bytes_per_row as int,
            layout.padded_bytes_per_row as int,
            layout.height as nat,
        ),
        r@.len() == layout.padded_bytes_per_row as int * layout.height,
{
    let unpadded = layout.unpadded_bytes_per_row as usize;
    let padded = layout.padded_bytes_per_row as usize;
    let h = layout.height as usize;
    let ghost p = pixels@;
    let n = pixels.len();
    let mut r: Vec<u8> = Vec::new();
    let mut row: usize = 0;
    let mut base: usize = 0;
    while row < h
        invariant
            unpadded == layout.unpadded_bytes_per_row,
            padded == layout.padded_bytes_per_row,
            h == layout.height,
            p == pixels@,
            n == p.len(),
            unpadded <= padded,
            unpadded * h <= p.len(),
            row <= h,
            base == row * unpadded,
            r@ == staged_rows(p, unpadded as int, padded as int, row as nat),
        decreases h - row,
    {
        assert(base + unpadded <= p.len()) by (nonlinear_arith)
            requires base == row * unpadded, row < h, unpadded * h <= p.len();
        let ghost before = r@;
        let mut c: usize = 0;
        while c < unpadded
            invariant
                c <= unpadded,
                base + unpadded <= p.len(),
                n == p.len(),
                p == pixels@,
                r@ == before + p.subrange(base as int, base + c),
            decreases unpadded - c,
        {
            r.push(pixels[base + c]);
            assert(r@ =~= before + p.subrange(base as int, base + c + 1));
            c = c + 1;
        }
        while c < padded
            invariant
                unpadded <= c <= padded,
                base + unpadded <= p.len(),
                r@ == before + p.subrange(base as int, base + unpadded)
                    + Seq::new((c - unpadded) as nat, |_i: int| 0u8),
            decreases padded - c,
        {
            r.push(0u8);
            assert(r@ =~= before + p.subrange(base as int, base + unpadded)
                + Seq::new((c + 1 - unpadded) as nat, |_i: int| 0u8));
            c = c + 1;
        }
        assert(r@ =~= staged_rows(p, unpadded as int, padded as int, (row + 1) as nat));
        assert(base + unpadded == (row + 1) * unpadded) by (nonlinear_arith)
            requires base == row * unpadded;
        base = base + unpadded;
        row = row + 1;
    }
    proof {
        assert((h as int) * unpadded == unpadded * h) by (nonlinear_arith);
        assert((padded as int) * h == (h as int) * padded) by (nonlinear_arith);
        lemma_staged_rows_len(p, unpadded as int, padded as int, h as nat);
    }
    r
}

/// Makes the texture from decoded RGBA8 pixels: the upload layout, the
/// padded rows and the sampler. Fails with `TooLarge` where the padded rows
/// do not fit in memory.
pub fn from_rgba(width: u32, height: u32, pixels: &[u8]) -> (r: Result<TextureUpload, TextureError>)
    requires
        pixels@.len() >= 4 * width * height,
    ensures
        r is Ok <==> padded_row_bytes(width as int) <= u32::MAX
            && padded_row_bytes(width as int) * height <= usize::MAX,
        r matches Ok(t) ==> t.layout.width == width && t.layout.height == height
            && t.layout.unpadded_bytes_per_row == BYTES_PER_PIXEL * width
            && t.layout.padded_bytes_per_row == padded_row_bytes(width as int)
            && t.sampler == texture_sampler()
            && t.staging@ == staged_rows(
                pixels@,
                BYTES_PER_PIXEL * width,
                padded_row_bytes(width as int),
                height as nat,
            ),
        r matches Err(e) ==> e == TextureError::TooLarge,
{
    proof {
        lemma_padded_row_bytes(width as int);
    }
    match upload_layout(width, height) {
        None => {
            Err(TextureError::TooLarge)
        },
        Some(layout) => {
            match (layout.padded_bytes_per_row as usize).checked_mul(height as usize) {
                None => Err(TextureError::TooLarge),
                Some(_) => {
                    assert(layout.unpadded_bytes_per_row as int * layout.height <= pixels@.len());
                    let staging = pad_rows(&layout, pixels);
                    Ok(TextureUpload { layout, staging, sampler: sampler_settings() })
                },
            }
        },
    }
}

/// Decodes `bytes` as an image and makes the texture from it. Fails with
/// `ImageDecodeError` where the bytes are no image, else as `from_rgba`
/// does on the decoded pixels.
pub fn from_bytes(bytes: &[u8]) -> (r: Result<TextureUpload, TextureError>)
    ensures
        decoded_rgba(bytes@) is None <==> r == Err::<TextureUpload, TextureError>(TextureError::ImageDecodeError),
        decoded_rgba(bytes@) matches Some((w, h, px)) ==> (r is Ok <==> padded_row_bytes(w as int) <= u32::MAX
            && padded_row_bytes(w as int) * h <= usize::MAX),
        r matches Ok(t) ==> decoded_rgba(bytes@) matches Some((w, h, px))
            && t.layout.width == w && t.layout.height == h
            && t.layout.unpadded_bytes_per_row == BYTES_PER_PIXEL * w
            && t.layout.padded_bytes_per_row == padded_row_bytes(w as int)
            && t.sampler == texture_sampler()
            && t.staging@ == staged_rows(px, BYTES_PER_PIXEL * w, padded_row_bytes(w as int), h as nat),
{
    match decode_rgba(bytes) {
        None => Err(TextureError::ImageDecodeError),
        Some(d) => from_rgba(d.width, d.height, d.pixels.as_slice()),
    }
}

} // verus!
