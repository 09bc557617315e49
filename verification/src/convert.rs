//! Pixel-data conversions performed before textures are uploaded.
//!
//! Decoders hand back tightly packed RGB samples; the GPU expects RGBA.
//! Both conversions below append a caller-chosen alpha sample after every
//! three colour samples.  8-bit samples cover LDR images; 32-bit words
//! carry the bit patterns of HDR float samples, so the library never
//! inspects the samples themselves.

use vstd::prelude::*;

verus! {

/// The RGBA expansion of a packed RGB sample sequence: sample `k` of the
/// result is the alpha value on every fourth position and otherwise the
/// corresponding colour sample of the input.
pub open spec fn rgba_expansion<T>(rgb: Seq<T>, alpha: T) -> Seq<T> {
    Seq::new(
        rgb.len() / 3 * 4,
        |k: int| if k % 4 == 3 { alpha } else { rgb[3 * (k / 4) + k % 4] },
    )
}

/// Expands packed RGB bytes to RGBA bytes, appending `alpha` after every
/// three colour bytes.
pub fn rgb8_to_rgba8(rgb: &Vec<u8>, alpha: u8) -> (rgba: Vec<u8>)
    requires
        rgb@.len() % 3 == 0,
    ensures
        rgba@ == rgba_expansion(rgb@, alpha),
{
    let mut rgba: Vec<u8> = Vec::new();
    let mut i: usize = 0;
    while i < rgb.len()
        invariant
            i % 3 == 0,
            i <= rgb@.len(),
            rgb@.len() % 3 == 0,
            rgba@.len() == i / 3 * 4,
            forall|k: int| 0 <= k < rgba@.len() ==> rgba@[k] == rgba_expansion(rgb@, alpha)[k],
        decreases rgb@.len() - i,
    {
        rgba.push(rgb[i]);
        rgba.push(rgb[i + 1]);
        rgba.push(rgb[i + 2]);
        rgba.push(alpha);
        i = i + 3;
    }
    proof {
        assert(rgba@ =~= rgba_expansion(rgb@, alpha));
    }
    rgba
}

/// Expands packed RGB 32-bit words to RGBA words, appending `alpha` after
/// every three colour words.  A word holds the bit pattern of one HDR
/// float sample.
pub fn rgb_words_to_rgba_words(rgb: &Vec<u32>, alpha: u32) -> (rgba: Vec<u32>)
    requires
        rgb@.len() % 3 == 0,
    ensures
        rgba@ == rgba_expansion(rgb@, alpha),
{
    let mut rgba: Vec<u32> = Vec::new();
    let mut i: usize = 0;
    while i < rgb.len()
        invariant
            i % 3 == 0,
            i <= rgb@.len(),
            rgb@.len() % 3 == 0,
            rgba@.len() == i / 3 * 4,
            forall|k: int| 0 <= k < rgba@.len() ==> rgba@[k] == rgba_expansion(rgb@, alpha)[k],
        decreases rgb@.len() - i,
    {
        rgba.push(rgb[i]);
        rgba.push(rgb[i + 1]);
        rgba.push(rgb[i + 2]);
        rgba.push(alpha);
        i = i + 3;
    }
    proof {
        assert(rgba@ =~= rgba_expansion(rgb@, alpha));
    }
    rgba
}

/// Checks that `data_len` bytes hold exactly `width * height` pixels of
/// `bytes_per_pixel` bytes each and returns the byte stride of one row
/// of the upload, as the texture copy wants it.
pub fn row_stride(width: u32, height: u32, bytes_per_pixel: u32, data_len: usize) -> (stride: Option<
    u32,
>)
    ensures
        stride is Some <==> data_len == width * height * bytes_per_pixel && width * bytes_per_pixel
            <= u32::MAX,
        stride is Some ==> stride->0 == width * bytes_per_pixel,
{
    proof {
        assert((width as int) * (height as int) * (bytes_per_pixel as int) <= 0xffff_ffff
            * 0xffff_ffff * 0xffff_ffff && (width as int) * (height as int) >= 0 && (width as int)
            * (bytes_per_pixel as int) <= 0xffff_ffff * 0xffff_ffff && (width as int)
            * (bytes_per_pixel as int) >= 0 && (width as int) * (height as int) <= 0xffff_ffff
            * 0xffff_ffff) by (nonlinear_arith)
            requires
                0 <= width as int <= 0xffff_ffff,
                0 <= height as int <= 0xffff_ffff,
                0 <= bytes_per_pixel as int <= 0xffff_ffff,
        ;
    }
    let expected: u128 = (width as u128) * (height as u128) * (bytes_per_pixel as u128);
    let row: u128 = (width as u128) * (bytes_per_pixel as u128);
    if (data_len as u128) == expected && row <= u32::MAX as u128 {
        Some(row as u32)
    } else {
        None
    }
}

} // verus!
