//! A portable capture image: a dense row-major RGBA byte buffer with explicit
//! width and height. Once built it is an independent, owned copy with no tie
//! to the native buffer it came from.

use vstd::prelude::*;

verus! {

/// A dense row-major RGBA image. Each pixel takes four bytes, in the order
/// red, green, blue, alpha.
#[derive(Debug, Clone)]
pub struct RgbaImage {
    width: u32,
    height: u32,
    data: Vec<u8>,
}

/// Position in the byte buffer of channel `ch` of the pixel at column `col`
/// of row `row`, for an image `width` pixels wide.
pub open spec fn rgba_index(width: int, row: int, col: int, ch: int) -> int {
    (row * width + col) * 4 + ch
}

impl RgbaImage {
    /// Width in pixels.
    pub closed spec fn spec_width(&self) -> u32 {
        self.width
    }

    /// Height in pixels.
    pub closed spec fn spec_height(&self) -> u32 {
        self.height
    }

    /// The raw bytes, row-major, four per pixel.
    pub closed spec fn spec_data(&self) -> Seq<u8> {
        self.data@
    }

    /// The buffer holds exactly four bytes for every pixel.
    pub open spec fn wf(&self) -> bool {
        self.spec_data().len() == self.spec_width() * self.spec_height() * 4
    }

    /// Build an image from a raw RGBA buffer. Succeeds exactly when the
    /// buffer holds four bytes per pixel; a buffer of any other size is
    /// rejected rather than reinterpreted.
    pub fn from_raw(width: u32, height: u32, data: Vec<u8>) -> (r: Option<RgbaImage>)
        ensures
            r is Some <==> data@.len() == width * height * 4,
            r is Some ==> {
                &&& r->0.wf()
                &&& r->0.spec_width() == width
                &&& r->0.spec_height() == height
                &&& r->0.spec_data() == data@
            },
    {
        match (width as usize).checked_mul(height as usize) {
            Some(wh) => {
                match wh.checked_mul(4) {
                    Some(total) => {
                        if data.len() == total {
                            Some(RgbaImage { width, height, data })
                        } else {
                            None
                        }
                    },
                    None => {
                        // The buffer cannot be as long as four bytes per pixel:
                        // that length does not even fit in a usize.
                        let _buffer_len: usize = data.len();
                        None
                    },
                }
            },
            None => {
                let _buffer_len: usize = data.len();
                proof {
                    assert((width as int * height as int) * 4 >= width as int * height as int)
                        by (nonlinear_arith);
                }
                None
            },
        }
    }

    /// Width in pixels.
    pub fn width(&self) -> (r: u32)
        ensures
            r == self.spec_width(),
    {
        self.width
    }

    /// Height in pixels.
    pub fn height(&self) -> (r: u32)
        ensures
            r == self.spec_height(),
    {
        self.height
    }

    /// The raw bytes, row-major, four per pixel.
    pub fn as_raw(&self) -> (r: &Vec<u8>)
        ensures
            r@ == self.spec_data(),
    {
        &self.data
    }

    /// Consume the image, returning the raw bytes.
    pub fn into_raw(self) -> (r: Vec<u8>)
        ensures
            r@ == self.spec_data(),
    {
        self.data
    }

    /// Copy out the rectangle of `crop_width` by `crop_height` pixels whose
    /// top-left corner is at `(crop_x, crop_y)`. Every pixel of the result is
    /// the corresponding source pixel, all four channels unchanged.
    pub fn crop(&self, crop_x: u32, crop_y: u32, crop_width: u32, crop_height: u32) -> (r:
        RgbaImage)
        requires
            self.wf(),
            crop_x + crop_width <= self.spec_width(),
            crop_y + crop_height <= self.spec_height(),
        ensures
            r.wf(),
            r.spec_width() == crop_width,
            r.spec_height() == crop_height,
            forall|row: int, col: int, ch: int|
                0 <= row < crop_height && 0 <= col < crop_width && 0 <= ch < 4
                    ==> r.spec_data()[rgba_index(crop_width as int, row, col, ch)] == self.spec_data()[rgba_index(
                    self.spec_width() as int,
                    crop_y + row,
                    crop_x + col,
                    ch,
                )],
    {
        let width: u32 = self.width;
        let mut out: Vec<u8> = Vec::new();
        let mut row: u32 = 0;
        while row < crop_height
            invariant
                self.wf(),
                width == self.spec_width(),
                crop_x + crop_width <= self.spec_width(),
                crop_y + crop_height <= self.spec_height(),
                row <= crop_height,
                out@.len() == row * crop_width * 4,
                forall|r2: int, c2: int, ch: int|
                    0 <= r2 < row && 0 <= c2 < crop_width && 0 <= ch < 4
                        ==> out@[rgba_index(crop_width as int, r2, c2, ch)]
                        == self.spec_data()[rgba_index(
                        self.spec_width() as int,
                        crop_y + r2,
                        crop_x + c2,
                        ch,
                    )],
            decreases crop_height - row,
        {
            let mut col: u32 = 0;
            while col < crop_width
                invariant
                    self.wf(),
                    width == self.spec_width(),
                    crop_x + crop_width <= self.spec_width(),
                    crop_y + crop_height <= self.spec_height(),
                    row < crop_height,
                    col <= crop_width,
                    out@.len() == row * crop_width * 4 + col * 4,
                    forall|r2: int, c2: int, ch: int|
                        0 <= r2 < row && 0 <= c2 < crop_width && 0 <= ch < 4
                            ==> out@[rgba_index(crop_width as int, r2, c2, ch)]
                            == self.spec_data()[rgba_index(
                            self.spec_width() as int,
                            crop_y + r2,
                            crop_x + c2,
                            ch,
                        )],
                    forall|c2: int, ch: int|
                        0 <= c2 < col && 0 <= ch < 4
                            ==> out@[rgba_index(crop_width as int, row as int, c2, ch)]
                            == self.spec_data()[rgba_index(
                            self.spec_width() as int,
                            crop_y + row,
                            crop_x + c2,
                            ch,
                        )],
                decreases crop_width - col,
            {
                let sx: u32 = crop_x + col;
                let sy: u32 = crop_y + row;
                let _data_len: usize = self.data.len();
                let ghost sw = self.spec_width() as int;
                proof {
                    assert((sy * sw + sx) * 4 + 3 < self.spec_data().len()) by (nonlinear_arith)
                        requires
                            self.spec_data().len() == sw * self.spec_height() * 4,
                            0 <= sx < sw,
                            0 <= sy < self.spec_height(),
                    ;
                    assert(row * crop_width * 4 + col * 4 + 4 <= crop_height * crop_width * 4)
                        by (nonlinear_arith)
                        requires
                            0 <= col < crop_width,
                            0 <= row < crop_height,
                    ;
                    assert(0 <= sy * sw && 0 <= sy * sw + sx) by (nonlinear_arith)
                        requires
                            0 <= sy && 0 <= sw && 0 <= sx,
                    ;
                    assert(sy * sw + sx <= (sy * sw + sx) * 4 + 3);
                }
                let idx: usize = ((sy as usize) * (width as usize) + (sx as usize)) * 4;
                let b0: u8 = self.data[idx];
                let b1: u8 = self.data[idx + 1];
                let b2: u8 = self.data[idx + 2];
                let b3: u8 = self.data[idx + 3];
                out.push(b0);
                out.push(b1);
                out.push(b2);
                out.push(b3);
                proof {
                    assert forall|c2: int, ch: int| 0 <= c2 < col + 1 && 0 <= ch < 4 implies out@[rgba_index(
                        crop_width as int,
                        row as int,
                        c2,
                        ch,
                    )] == self.spec_data()[rgba_index(sw, crop_y + row, crop_x + c2, ch)] by {
                        assert(rgba_index(crop_width as int, row as int, c2, ch) == row * crop_width
                            * 4 + c2 * 4 + ch);
                        if c2 == col as int {
                            assert(rgba_index(sw, crop_y + row, crop_x + c2, ch) == (sy * sw + sx)
                                * 4 + ch);
                        }
                    }
                    assert forall|r2: int, c2: int, ch: int|
                        0 <= r2 < row && 0 <= c2 < crop_width && 0 <= ch < 4 implies out@[rgba_index(
                        crop_width as int,
                        r2,
                        c2,
                        ch,
                    )] == self.spec_data()[rgba_index(sw, crop_y + r2, crop_x + c2, ch)] by {
                        assert(0 <= rgba_index(crop_width as int, r2, c2, ch) < row * crop_width
                            * 4) by (nonlinear_arith)
                            requires
                                0 <= r2 < row,
                                0 <= c2 < crop_width,
                                0 <= ch < 4,
                        ;
                    }
                }
                col = col + 1;
            }
            proof {
                assert((row + 1) * crop_width * 4 == row * crop_width * 4 + crop_width * 4)
                    by (nonlinear_arith);
            }
            row = row + 1;
        }
        proof {
            assert(crop_height * crop_width * 4 == crop_width * crop_height * 4)
                by (nonlinear_arith);
        }
        RgbaImage { width: crop_width, height: crop_height, data: out }
    }
}

} // verus!
