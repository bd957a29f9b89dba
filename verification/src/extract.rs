//! Native-buffer extraction: turning the bytes read out of a locked platform
//! pixel buffer into a portable RGBA image.
//!
//! The platform hands over a frame as a BGRA buffer with an explicit stride
//! (bytes per row) that may differ from four bytes per pixel. Extraction
//! walks the buffer row-major, swaps each pixel's channels into RGBA order,
//! and defends against metadata that disagrees with the buffer's actual
//! length: any pixel whose four-byte span would fall outside the buffer is
//! skipped, and an output of the wrong final size is rejected rather than
//! returned.

use vstd::prelude::*;

use crate::error::XCapError;
use crate::error::XCapResult;
use crate::error::capture_failed_message;
use crate::rgba::RgbaImage;
use crate::rgba::rgba_index;

verus! {

/// How a native pixel buffer lays out its bytes, as reported by its plane
/// count. A buffer with no planes is one contiguous image; one with planes
/// stores the full image in plane zero (only the packed BGRA format is ever
/// requested, so further planes never carry image data).
#[derive(Debug, PartialEq, Eq, Structural)]
pub enum BufferLayout {
    /// No planes: one contiguous image, read through the non-planar accessors.
    Packed,
    /// One or more planes: the image is plane zero.
    Planar,
}

/// Classify a native buffer by its reported plane count.
pub fn buffer_layout(plane_count: usize) -> (l: BufferLayout)
    ensures
        l is Packed <==> plane_count == 0,
{
    if plane_count == 0 {
        BufferLayout::Packed
    } else {
        BufferLayout::Planar
    }
}

/// The outcome of locking a native pixel buffer and reading it out.
///
/// Locking and the raw copy happen at the platform boundary; extraction takes
/// the outcome as a value and decides everything that follows.
#[derive(Debug)]
pub enum LockOutcome {
    /// The lock was obtained. `base_present` records whether the buffer's
    /// base address was non-null; `data` holds the `bytes_per_row * height`
    /// bytes copied out of the buffer (empty when the base was null).
    Acquired { base_present: bool, data: Vec<u8>, bytes_per_row: usize },
    /// The lock could not be obtained; `detail` is the platform's description.
    Failed { detail: String },
}

/// Details text for a failed buffer lock.
pub open spec fn lock_failed_details(detail: Seq<char>) -> Seq<char> {
    "Failed to lock pixel buffer: "@ + detail
}

/// Details text for a buffer whose base address was null.
pub open spec fn null_base_details() -> Seq<char> {
    "Pixel buffer base address is null"@
}

/// Details text for an output buffer of the wrong final size.
pub open spec fn bad_output_details() -> Seq<char> {
    "Failed to create image from buffer"@
}

/// The four-byte pixel at `(row, col)` lies inside a buffer of length `len`
/// read with the given stride.
pub open spec fn pixel_in_bounds(len: int, bytes_per_row: int, row: int, col: int) -> bool {
    row * bytes_per_row + col * 4 + 3 < len
}

/// Every pixel of a `width` by `height` frame lies inside the buffer.
pub open spec fn frame_fits(len: int, bytes_per_row: int, width: int, height: int) -> bool {
    forall|row: int, col: int|
        0 <= row < height && 0 <= col < width ==> pixel_in_bounds(len, bytes_per_row, row, col)
}

/// Every pixel strictly before `(row, col)` in row-major order lies inside
/// the buffer.
pub open spec fn prefix_fits(
    len: int,
    bytes_per_row: int,
    width: int,
    row: int,
    col: int,
) -> bool {
    forall|r2: int, c2: int|
        0 <= r2 && 0 <= c2 < width && (r2 < row || (r2 == row && c2 < col))
            ==> pixel_in_bounds(len, bytes_per_row, r2, c2)
}

/// Start of the pixel at `(row, col)` in a BGRA buffer with the given stride.
pub open spec fn bgra_source_index(bytes_per_row: int, row: int, col: int) -> int {
    row * bytes_per_row + col * 4
}

/// Where RGBA channel `ch` of a pixel sits inside its four source bytes: the
/// source order is blue, green, red, alpha.
pub open spec fn bgra_channel_offset(ch: int) -> int {
    if ch == 0 {
        2
    } else if ch == 1 {
        1
    } else if ch == 2 {
        0
    } else {
        3
    }
}

/// Extract a portable RGBA image from the outcome of locking a native BGRA
/// buffer whose metadata reported the given width and height.
///
/// A failed lock and a null base address are terminal for the capture
/// attempt. Otherwise every pixel whose four-byte span lies inside the copied
/// bytes is converted; extraction succeeds exactly when that holds of the
/// whole frame, and the image then has the reported dimensions with each
/// pixel's channels swapped from BGRA to RGBA.
pub fn extract_frame(width: u32, height: u32, lock: LockOutcome) -> (r: XCapResult<RgbaImage>)
    ensures
        match lock {
            LockOutcome::Failed { detail } => {
                &&& r is Err
                &&& r->Err_0.spec_message() == capture_failed_message(
                    lock_failed_details(detail@),
                )
            },
            LockOutcome::Acquired { base_present, data, bytes_per_row } => {
                if !base_present {
                    &&& r is Err
                    &&& r->Err_0.spec_message() == capture_failed_message(null_base_details())
                } else {
                    &&& r is Ok <==> frame_fits(
                        data@.len() as int,
                        bytes_per_row as int,
                        width as int,
                        height as int,
                    )
                    &&& r is Err ==> r->Err_0.spec_message() == capture_failed_message(
                        bad_output_details(),
                    )
                    &&& r is Ok ==> {
                        &&& r->Ok_0.wf()
                        &&& r->Ok_0.spec_width() == width
                        &&& r->Ok_0.spec_height() == height
                        &&& forall|row: int, col: int, ch: int|
                            0 <= row < height && 0 <= col < width && 0 <= ch < 4
                                ==> r->Ok_0.spec_data()[rgba_index(width as int, row, col, ch)]
                                == data@[bgra_source_index(bytes_per_row as int, row, col)
                                + bgra_channel_offset(ch)]
                    }
                }
            },
        },
{
    match lock {
        LockOutcome::Failed { detail } => {
            let mut details = String::from_str("Failed to lock pixel buffer: ");
            details.append(detail.as_str());
            Err(XCapError::capture_failed(details.as_str()))
        },
        LockOutcome::Acquired { base_present, data, bytes_per_row } => {
            if !base_present {
                Err(XCapError::capture_failed("Pixel buffer base address is null"))
            } else {
                match convert_bgra_buffer(width, height, &data, bytes_per_row) {
                    Some(image) => Ok(image),
                    None => Err(XCapError::capture_failed("Failed to create image from buffer")),
                }
            }
        },
    }
}

/// Convert a copied BGRA buffer into an RGBA image, skipping pixels whose
/// four-byte span falls outside the buffer. Succeeds exactly when no pixel
/// had to be skipped.
fn convert_bgra_buffer(width: u32, height: u32, data: &Vec<u8>, bytes_per_row: usize) -> (r:
    Option<RgbaImage>)
    ensures
        r is Some <==> frame_fits(
            data@.len() as int,
            bytes_per_row as int,
            width as int,
            height as int,
        ),
        r is Some ==> {
            &&& r->0.wf()
            &&& r->0.spec_width() == width
            &&& r->0.spec_height() == height
            &&& forall|row: int, col: int, ch: int|
                0 <= row < height && 0 <= col < width && 0 <= ch < 4
                    ==> r->0.spec_data()[rgba_index(width as int, row, col, ch)]
                    == data@[bgra_source_index(bytes_per_row as int, row, col)
                    + bgra_channel_offset(ch)]
        },
{
    let ghost len = data@.len() as int;
    let ghost bpr = bytes_per_row as int;
    let data_len: usize = data.len();
    let mut buffer: Vec<u8> = Vec::new();
    let mut row: u32 = 0;
    while row < height
        invariant
            len == data@.len() as int,
            bpr == bytes_per_row as int,
            data_len == data@.len(),
            row <= height,
            prefix_fits(len, bpr, width as int, row as int, 0) ==> {
                &&& buffer@.len() == row * width * 4
                &&& forall|r2: int, c2: int, ch: int|
                    0 <= r2 < row && 0 <= c2 < width && 0 <= ch < 4
                        ==> buffer@[rgba_index(width as int, r2, c2, ch)] == data@[bgra_source_index(
                        bpr,
                        r2,
                        c2,
                    ) + bgra_channel_offset(ch)]
            },
            !prefix_fits(len, bpr, width as int, row as int, 0) ==> buffer@.len() < row * width
                * 4,
        decreases height - row,
    {
        let mut col: u32 = 0;
        while col < width
            invariant
                len == data@.len() as int,
                bpr == bytes_per_row as int,
                data_len == data@.len(),
                row < height,
                col <= width,
                prefix_fits(len, bpr, width as int, row as int, col as int) ==> {
                    &&& buffer@.len() == (row * width + col) * 4
                    &&& forall|r2: int, c2: int, ch: int|
                        0 <= c2 < width && 0 <= ch < 4 && (r2 < row || (r2 == row && c2 < col))
                            && 0 <= r2
                            ==> buffer@[rgba_index(width as int, r2, c2, ch)]
                            == data@[bgra_source_index(bpr, r2, c2) + bgra_channel_offset(ch)]
                },
                !prefix_fits(len, bpr, width as int, row as int, col as int) ==> buffer@.len() < (
                row * width + col) * 4,
            decreases width - col,
        {
            let ghost prefix_ok = prefix_fits(len, bpr, width as int, row as int, col as int);
            let ghost buf0 = buffer@;
            let opt_ps: Option<usize> = match (row as usize).checked_mul(bytes_per_row) {
                Some(base) => match (col as usize).checked_mul(4) {
                    Some(off) => base.checked_add(off),
                    None => None,
                },
                None => None,
            };
            let mut converted: bool = false;
            match opt_ps {
                Some(ps) => {
                    if ps < data_len && data_len - ps > 3 {
                        let b: u8 = data[ps];
                        let g: u8 = data[ps + 1];
                        let rr: u8 = data[ps + 2];
                        let a: u8 = data[ps + 3];
                        buffer.push(rr);
                        buffer.push(g);
                        buffer.push(b);
                        buffer.push(a);
                        converted = true;
                        proof {
                            assert(buffer@ =~= buf0 + seq![rr, g, b, a]);
                            assert(pixel_in_bounds(len, bpr, row as int, col as int));
                            assert forall|ch: int| 0 <= ch < 4 implies buffer@[buf0.len() + ch]
                                == data@[bgra_source_index(bpr, row as int, col as int)
                                + bgra_channel_offset(ch)] by {
                                assert(buffer@[buf0.len() + ch] == seq![rr, g, b, a][ch]);
                            }
                        }
                    }
                },
                None => {},
            }
            proof {
                let r2 = row as int;
                let c2 = col as int;
                let w = width as int;
                if !converted {
                    assert(!pixel_in_bounds(len, bpr, r2, c2)) by {
                        if bgra_source_index(bpr, r2, c2) + 3 < len {
                            assert(r2 * bpr + c2 * 4 + 3 < usize::MAX as int);
                        }
                    }
                }
                assert((row * width + col) * 4 + 4 == (row * width + (col + 1)) * 4)
                    by (nonlinear_arith);
                if prefix_fits(len, bpr, w, r2, c2 + 1) {
                    assert(prefix_ok);
                    assert(pixel_in_bounds(len, bpr, r2, c2));
                    assert(converted);
                    assert(buf0.len() == (row * width + col) * 4);
                    assert forall|r3: int, c3: int, ch: int|
                        0 <= c3 < width && 0 <= ch < 4 && (r3 < row || (r3 == row && c3 < col + 1))
                            && 0 <= r3 implies buffer@[rgba_index(w, r3, c3, ch)]
                        == data@[bgra_source_index(bpr, r3, c3) + bgra_channel_offset(ch)] by {
                        if r3 == r2 && c3 == c2 {
                            assert(rgba_index(w, r3, c3, ch) == buf0.len() + ch);
                        } else {
                            assert(r3 < row || (r3 == row && c3 < col));
                            assert(0 <= (r3 * w + c3) * 4 + ch < (r2 * w + c2) * 4)
                                by (nonlinear_arith)
                                requires
                                    0 <= c3 < w,
                                    0 <= ch < 4,
                                    0 <= r3,
                                    0 <= c2,
                                    (r3 < r2 || (r3 == r2 && c3 < c2)),
                            ;
                            assert(rgba_index(w, r3, c3, ch) == (r3 * w + c3) * 4 + ch);
                            assert(buffer@[rgba_index(w, r3, c3, ch)] == buf0[rgba_index(
                                w,
                                r3,
                                c3,
                                ch,
                            )]);
                        }
                    }
                } else {
                    if prefix_ok {
                        assert(!pixel_in_bounds(len, bpr, r2, c2));
                        assert(!converted);
                        assert(buffer@.len() == buf0.len());
                    }
                }
            }
            col = col + 1;
        }
        proof {
            assert((row * width + width) * 4 == (row + 1) * width * 4) by (nonlinear_arith);
            assert(prefix_fits(len, bpr, width as int, row as int, width as int) <==> prefix_fits(
                len,
                bpr,
                width as int,
                row as int + 1,
                0,
            )) by {
                if prefix_fits(len, bpr, width as int, row as int, width as int) {
                    assert forall|r2: int, c2: int|
                        0 <= r2 && 0 <= c2 < width && (r2 < row + 1 || (r2 == row + 1 && c2
                            < 0)) implies pixel_in_bounds(len, bpr, r2, c2) by {
                        assert(r2 < row || (r2 == row && c2 < width));
                    }
                }
            }
        }
        row = row + 1;
    }
    proof {
        assert(frame_fits(len, bpr, width as int, height as int) <==> prefix_fits(
            len,
            bpr,
            width as int,
            height as int,
            0,
        )) by {
            if prefix_fits(len, bpr, width as int, height as int, 0) {
                assert forall|r2: int, c2: int|
                    0 <= r2 < height && 0 <= c2 < width implies pixel_in_bounds(
                    len,
                    bpr,
                    r2,
                    c2,
                ) by {
                    assert(r2 < height && 0 <= c2 < width);
                }
            }
        }
        assert(height * width * 4 == width * height * 4) by (nonlinear_arith);
    }
    match RgbaImage::from_raw(width, height, buffer) {
        Some(image) => Some(image),
        None => None,
    }
}

} // verus!
