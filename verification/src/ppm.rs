//! Frames as portable pixmaps, for a look at what was decoded.
use vstd::prelude::*;

use crate::buffer::as_slice;
use crate::media::VideoFrame;
use crate::raw::push_all;
use crate::text::push_decimal;

verus! {

/// The header of a binary pixmap of the given size.
pub open spec fn ppm_header(width: u32, height: u32) -> Seq<char> {
    "P6\n"@ + crate::text::decimal(width as nat) + " "@ + crate::text::decimal(height as nat)
        + "\n255\n"@
}

/// The red, green and blue bytes of the whole BGRA pixels in `data`.
pub open spec fn rgb_of(data: Seq<u8>) -> Seq<u8> {
    Seq::new(
        data.len() / 4 * 3,
        |i: int| data[i / 3 * 4 + 2 - i % 3],
    )
}

/// A BGRA frame as a binary pixmap: a header in UTF-8, then red, green and blue of every pixel.
pub fn ppm_bytes(frame: &VideoFrame) -> (r: Vec<u8>)
    ensures
        r@ == vstd::utf8::encode_utf8(ppm_header(frame.resolution.width, frame.resolution.height))
            + rgb_of(frame.pixels()),
{
    let mut header = "P6\n".to_owned();
    push_decimal(&mut header, frame.resolution.width as u64);
    header.append(" ");
    push_decimal(&mut header, frame.resolution.height as u64);
    header.append("\n255\n");
    let mut out: Vec<u8> = Vec::new();
    push_all(&mut out, header.as_str().as_bytes());
    let ghost head = out@;
    let data: &[u8] = as_slice(&frame.data);
    let len: usize = data.len();
    let pixels: usize = len / 4;
    let mut i: usize = 0;
    assert(out@ =~= head + rgb_of(data@).take(0));
    while i < pixels
        invariant
            i <= pixels,
            len == data@.len(),
            pixels == len / 4,
            out@ == head + rgb_of(data@).take(3 * i as int),
        decreases pixels - i,
    {
        let ghost all = rgb_of(data@);
        out.push(data[4 * i + 2]);
        out.push(data[4 * i + 1]);
        out.push(data[4 * i]);
        proof {
            let k = 3 * i as int;
            assert(all[k] == data@[4 * i as int + 2]);
            assert(all[k + 1] == data@[4 * i as int + 1]);
            assert(all[k + 2] == data@[4 * i as int]);
            assert(out@ =~= head + all.take(k + 3));
        }
        i = i + 1;
    }
    assert(rgb_of(data@).take(3 * pixels as int) =~= rgb_of(data@));
    out
}

/// Every whole pixel gives three bytes, its red, green and blue, in the order of the pixels; a rest
/// that is no whole pixel gives none.
pub proof fn law_pixels_in_order(data: Seq<u8>, i: int)
    requires
        0 <= i < data.len() / 4,
    ensures
        rgb_of(data).len() == 3 * (data.len() / 4),
        rgb_of(data)[3 * i] == data[4 * i + 2],
        rgb_of(data)[3 * i + 1] == data[4 * i + 1],
        rgb_of(data)[3 * i + 2] == data[4 * i],
{
}

} // verus!
