//! The ambient effect's pixel work: a captured screen frame shrunk to one
//! pixel per keyboard zone, and the channel order turned from the
//! capture's blue-green-red-alpha to the keyboard's red-green-blue. The
//! saturation boost between the two is floating point and stays with the
//! engine thread, as does the capture itself.
use vstd::prelude::*;

use fast_image_resize as fr;

verus! {

/// What `fast_image_resize` makes of a `width` by `height` frame of
/// four-byte pixels shrunk to four pixels in a row with its default
/// options: the sixteen bytes of the result, or `None` where it refuses
/// the frame.
pub uninterp spec fn zone_pixels(frame: Seq<u8>, width: u32, height: u32) -> Option<Seq<u8>>;

/// Wraps `fast_image_resize`'s `Image::from_vec_u8`, `Image::new` and
/// `Resizer::resize`: the frame shrunk to one pixel per zone, exactly what
/// [`zone_pixels`] names. The crate computes the same bytes whatever CPU
/// extensions it picks (its own tests hold every extension to one
/// checksum), so the result depends on the arguments alone. A frame
/// shorter than `width * height` pixels is refused. Nothing more is stated
/// of the bytes: they are a filtered average of the frame.
#[verifier::external_body]
fn shrink_to_zones(frame: &[u8], width: u32, height: u32) -> (r: Option<[u8; 16]>)
    requires
        width as int * height as int * 4 <= usize::MAX,
    ensures
        match r {
            Some(pixels) => zone_pixels(frame@, width, height) == Some(pixels@),
            None => zone_pixels(frame@, width, height) is None,
        },
{
    let source = fr::images::Image::from_vec_u8(width, height, frame.to_vec(), fr::PixelType::U8x4).ok()?;
    let mut zones = fr::images::Image::new(4, 1, fr::PixelType::U8x4);
    fr::Resizer::new().resize(&source, &mut zones, None).ok()?;
    zones.buffer().try_into().ok()
}

/// Four blue-green-red-alpha pixels as red-green-blue-alpha.
pub open spec fn spec_bgra_to_rgba(pixels: Seq<u8>) -> Seq<u8> {
    Seq::new(
        16,
        |i: int|
            if i % 4 == 0 {
                pixels[i + 2]
            } else if i % 4 == 2 {
                pixels[i - 2]
            } else {
                pixels[i]
            },
    )
}

pub fn bgra_to_rgba(pixels: [u8; 16]) -> (r: [u8; 16])
    ensures
        r@ == spec_bgra_to_rgba(pixels@),
{
    let mut r: [u8; 16] = [0; 16];
    let mut z: usize = 0;
    while z < 4
        invariant
            z <= 4,
            forall|i: int| 0 <= i < 4 * z ==> r@[i] == spec_bgra_to_rgba(pixels@)[i],
        decreases 4 - z,
    {
        let base = 4 * z;
        r[base] = pixels[base + 2];
        r[base + 1] = pixels[base + 1];
        r[base + 2] = pixels[base];
        r[base + 3] = pixels[base + 3];
        z = z + 1;
    }
    assert(r@ =~= spec_bgra_to_rgba(pixels@));
    r
}

/// The zone pixels of a screen frame in blue-green-red-alpha order, turned
/// red-green-blue-alpha; `None` where the frame is refused.
pub fn frame_zone_pixels(frame: &[u8], width: u32, height: u32) -> (r: Option<[u8; 16]>)
    requires
        width as int * height as int * 4 <= usize::MAX,
    ensures
        match zone_pixels(frame@, width, height) {
            Some(p) => r matches Some(q) && q@ == spec_bgra_to_rgba(p),
            None => r is None,
        },
{
    match shrink_to_zones(frame, width, height) {
        Some(pixels) => Some(bgra_to_rgba(pixels)),
        None => None,
    }
}

/// The twelve color bytes of four red-green-blue-alpha pixels: each zone's
/// first three bytes, alpha dropped. A zone the pixels do not reach stays
/// dark.
pub open spec fn spec_rgba_to_rgb(pixels: Seq<u8>) -> Seq<u8> {
    Seq::new(
        12,
        |i: int|
            if 4 * (i / 3) + 4 <= pixels.len() {
                pixels[4 * (i / 3) + i % 3]
            } else {
                0u8
            },
    )
}

pub fn rgba_to_rgb(pixels: &[u8]) -> (r: [u8; 12])
    ensures
        r@ == spec_rgba_to_rgb(pixels@),
{
    let mut r: [u8; 12] = [0; 12];
    let mut i: usize = 0;
    while i < 12
        invariant
            i <= 12,
            forall|k: int| 0 <= k < i ==> r@[k] == spec_rgba_to_rgb(pixels@)[k],
            forall|k: int| i <= k < 12 ==> r@[k] == 0,
        decreases 12 - i,
    {
        let zone = i / 3;
        if pixels.len() >= 4 && zone <= (pixels.len() - 4) / 4 {
            r[i] = pixels[4 * zone + i % 3];
        }
        i = i + 1;
    }
    assert(r@ =~= spec_rgba_to_rgb(pixels@));
    r
}

/// Nanoseconds between frames at `fps` frames a second.
pub fn frame_interval_nanos(fps: u8) -> (nanos: u64)
    requires
        fps >= 1,
    ensures
        nanos == 1_000_000_000int / (fps as int),
{
    1_000_000_000 / (fps as u64)
}

} // verus!
