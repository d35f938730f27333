//! Raw RGBA frames: four bytes per pixel, rows stored one after another from the top.

use vstd::prelude::*;

verus! {

/// What the bytes of a picture file decode to: the picture's width and height and
/// its pixels as RGBA bytes, row by row; `None` where the bytes are no picture in
/// a format that is recognised.
pub uninterp spec fn decoded_rgba(bytes: Seq<u8>) -> Option<(u32, u32, Seq<u8>)>;

/// Decodes the bytes of a picture file with `image::load_from_memory`, which
/// recognises the format by the bytes themselves, and converts the picture with
/// `DynamicImage::to_rgba8`. The contract gives the outcome its name,
/// `decoded_rgba`, and claims nothing else: in particular not that the buffer has
/// four bytes for each pixel.
#[verifier::external_body]
fn decode_rgba(bytes: &[u8]) -> (decoded: Option<(u32, u32, Vec<u8>)>)
    ensures
        match decoded {
            Some(picture) => decoded_rgba(bytes@) == Some((picture.0, picture.1, picture.2@)),
            None => decoded_rgba(bytes@) is None,
        },
{
    match image::load_from_memory(bytes) {
        Ok(picture) => {
            let rgba = picture.to_rgba8();
            let (width, height) = rgba.dimensions();
            Some((width, height, rgba.into_raw()))
        },
        Err(_) => None,
    }
}

/// A captured frame: `width * height` pixels of four bytes each, row by row.
pub struct Screenshot {
    pub data: Vec<u8>,
    pub width: usize,
    pub height: usize,
}

/// Where the first byte of pixel `(x, y)` lies in a frame that is `width` pixels wide.
pub open spec fn pixel_offset(width: int, x: int, y: int) -> int {
    (y * width + x) * 4
}

/// Channel `c` of pixel `(x, y)` in a buffer whose rows are `width` pixels wide.
pub open spec fn channel(data: Seq<u8>, width: int, x: int, y: int, c: int) -> u8 {
    data[pixel_offset(width, x, y) + c]
}

/// The byte that an area cut out of `frame` holds for channel `c` of its pixel `(x, y)`,
/// when the area's top left corner lies at `(left, top)` of the frame: the frame's byte
/// where the pixel lies inside the frame, zero where it lies outside.
pub open spec fn area_byte(frame: &Screenshot, left: int, top: int, x: int, y: int, c: int) -> u8 {
    if left + x < frame.width && top + y < frame.height {
        channel(frame.data@, frame.width as int, left + x, top + y, c)
    } else {
        0u8
    }
}

/// Whether `data` holds the first `rows` rows of the area that is `width` pixels
/// wide and cut out of `frame` with its top left corner at `(left, top)`.
pub open spec fn is_area(frame: &Screenshot, left: int, top: int, width: int, rows: int, data: Seq<u8>) -> bool {
    forall|x: int, y: int, c: int|
        0 <= x < width && 0 <= y < rows && 0 <= c < 4 ==> #[trigger] channel(data, width, x, y, c) == area_byte(
            frame,
            left,
            top,
            x,
            y,
            c,
        )
}

/// Offsets grow with the row and with the column, so the last pixel's bytes end
/// exactly at `width * height * 4`.
pub proof fn lemma_pixel_offset_bounds(width: int, height: int, x: int, y: int)
    requires
        0 <= x < width,
        0 <= y < height,
    ensures
        0 <= pixel_offset(width, x, y),
        pixel_offset(width, x, y) + 4 <= width * height * 4,
        pixel_offset(width, x, y) == y * width * 4 + x * 4,
        0 <= y * width <= y * width + x <= pixel_offset(width, x, y),
{
    assert(y * width + x + 1 <= height * width) by (nonlinear_arith)
        requires
            0 <= x < width,
            0 <= y < height,
    ;
    assert(0 <= y * width) by (nonlinear_arith)
        requires
            0 <= y,
            0 <= width,
    ;
    assert(height * width == width * height) by (nonlinear_arith);
    assert((y * width + x) * 4 == y * width * 4 + x * 4) by (nonlinear_arith);
    assert((height * width) * 4 == width * height * 4) by (nonlinear_arith);
}

/// A captured frame's bytes with every pixel made opaque: each fourth byte is
/// 255, all others are as captured.
pub open spec fn opaque_bytes(frame: Seq<u8>) -> Seq<u8> {
    Seq::new(
        frame.len(),
        |i: int|
            if i % 4 == 3 {
                255u8
            } else {
                frame[i]
            },
    )
}

/// The frame that decoded RGBA bytes make, if they make one: the buffer must hold
/// exactly four bytes for each pixel.
pub open spec fn frame_of(width: u32, height: u32, data: Seq<u8>) -> Option<(usize, usize, Seq<u8>)> {
    if data.len() == width * height * 4 {
        Some((width as usize, height as usize, data))
    } else {
        None
    }
}

/// A frame as plain values, where there is one.
pub open spec fn frame_view(frame: Option<Screenshot>) -> Option<(usize, usize, Seq<u8>)> {
    match frame {
        Some(f) => Some((f.width, f.height, f.data@)),
        None => None,
    }
}

impl Screenshot {
    /// A frame is well formed when its buffer holds exactly four bytes for each pixel.
    pub open spec fn well_formed(&self) -> bool {
        self.data@.len() == self.width * self.height * 4
    }

    /// Makes a frame of what was captured from the screen: `frame` holds the
    /// captured bytes, four for each pixel, and `width` and `height` are the size
    /// that the capture reported. Every pixel is made opaque; nothing else is
    /// changed, and the size is taken as reported.
    pub fn get_screenshot(frame: Vec<u8>, width: usize, height: usize) -> (shot: Screenshot)
        ensures
            shot.width == width,
            shot.height == height,
            shot.data@ == opaque_bytes(frame@),
    {
        let mut data = frame;
        let mut i: usize = 0;
        while i < data.len()
            invariant
                data@.len() == frame@.len(),
                0 <= i <= data.len(),
                forall|j: int| 0 <= j < i ==> data@[j] == opaque_bytes(frame@)[j],
                forall|j: int| i <= j < data@.len() ==> data@[j] == frame@[j],
            decreases data.len() - i,
        {
            if i % 4 == 3 {
                data.set(i, 255);
            }
            i = i + 1;
        }
        assert(data@ =~= opaque_bytes(frame@));
        Screenshot { data, width, height }
    }

    /// Makes a frame of decoded RGBA bytes: `Some` exactly where the buffer holds
    /// four bytes for each of the `width * height` pixels.
    pub fn from_rgba(width: u32, height: u32, data: Vec<u8>) -> (frame: Option<Screenshot>)
        ensures
            frame_view(frame) == frame_of(width, height, data@),
            frame matches Some(f) ==> f.well_formed(),
    {
        assert(0 <= width * height <= 0xFFFF_FFFF * 0xFFFF_FFFF) by (nonlinear_arith)
            requires
                0 <= width <= 0xFFFF_FFFF,
                0 <= height <= 0xFFFF_FFFF,
        ;
        let pixels: u64 = (width as u64) * (height as u64);
        let length: u64 = data.len() as u64;
        if length % 4 == 0 && length / 4 == pixels {
            assert(width as usize * height as usize * 4 == width * height * 4);
            Some(Screenshot { data, width: width as usize, height: height as usize })
        } else {
            None
        }
    }

    /// Reads a frame from the bytes of a picture file: the picture as RGBA, where
    /// the bytes decode to one whose buffer holds four bytes for each pixel, else
    /// `None`.
    pub fn load(bytes: &[u8]) -> (frame: Option<Screenshot>)
        ensures
            frame_view(frame) == match decoded_rgba(bytes@) {
                Some(picture) => frame_of(picture.0, picture.1, picture.2),
                None => None,
            },
            frame matches Some(f) ==> f.well_formed(),
    {
        match decode_rgba(bytes) {
            Some(picture) => Screenshot::from_rgba(picture.0, picture.1, picture.2),
            None => None,
        }
    }

    /// The four channel bytes of the pixel whose bytes start at
    /// `pixel_offset(width, x, y)`, in the order red, green, blue, alpha.
    pub fn get_pixel(&self, x: usize, y: usize) -> (pixel: (u8, u8, u8, u8))
        requires
            pixel_offset(self.width as int, x as int, y as int) + 4 <= self.data@.len(),
        ensures
            pixel.0 == self.data@[pixel_offset(self.width as int, x as int, y as int)],
            pixel.1 == self.data@[pixel_offset(self.width as int, x as int, y as int) + 1],
            pixel.2 == self.data@[pixel_offset(self.width as int, x as int, y as int) + 2],
            pixel.3 == self.data@[pixel_offset(self.width as int, x as int, y as int) + 3],
    {
        let len: usize = self.data.len();
        proof {
            let row = y as int * self.width as int;
            assert(0 <= row) by (nonlinear_arith)
                requires
                    row == y as int * self.width as int,
                    0 <= y as int,
                    0 <= self.width as int,
            ;
            assert((row + x) * 4 + 4 <= len);
        }
        let idx: usize = (y * self.width + x) * 4;
        let r: u8 = self.data[idx];
        let g: u8 = self.data[idx + 1];
        let b: u8 = self.data[idx + 2];
        let a: u8 = self.data[idx + 3];
        (r, g, b, a)
    }

    /// Cuts a `width` by `height` area out of the frame, its top left corner at
    /// `(top_left_x, top_left_y)`. Pixels of the area that lie outside the frame are
    /// four zero bytes.
    pub fn get_area(&self, top_left_x: usize, top_left_y: usize, width: usize, height: usize) -> (area: Screenshot)
        requires
            self.well_formed(),
            top_left_x + width <= usize::MAX,
            top_left_y + height <= usize::MAX,
            width * height * 4 <= usize::MAX,
        ensures
            area.width == width,
            area.height == height,
            area.well_formed(),
            is_area(self, top_left_x as int, top_left_y as int, width as int, height as int, area.data@),
    {
        let ghost left = top_left_x as int;
        let ghost top = top_left_y as int;
        let ghost w = width as int;
        let mut area_data: Vec<u8> = Vec::new();
        let mut y: usize = 0;
        while y < height
            invariant
                self.well_formed(),
                left == top_left_x,
                top == top_left_y,
                w == width,
                top_left_x + width <= usize::MAX,
                top_left_y + height <= usize::MAX,
                0 <= y <= height,
                area_data@.len() == y * width * 4,
                is_area(self, left, top, w, y as int, area_data@),
            decreases height - y,
        {
            let mut x: usize = 0;
            while x < width
                invariant
                    self.well_formed(),
                    left == top_left_x,
                    top == top_left_y,
                    w == width,
                    top_left_x + width <= usize::MAX,
                    top_left_y + height <= usize::MAX,
                    0 <= y < height,
                    0 <= x <= width,
                    area_data@.len() == y * width * 4 + x * 4,
                    is_area(self, left, top, w, y as int, area_data@),
                    forall|px: int, c: int|
                        0 <= px < x && 0 <= c < 4 ==> #[trigger] channel(area_data@, w, px, y as int, c)
                            == area_byte(self, left, top, px, y as int, c),
                decreases width - x,
            {
                let src_x: usize = top_left_x + x;
                let src_y: usize = top_left_y + y;
                let ghost before = area_data@;
                proof {
                    lemma_pixel_offset_bounds(w, height as int, x as int, y as int);
                }
                let size: usize = self.data.len();
                if src_x < self.width && src_y < self.height {
                    proof {
                        lemma_pixel_offset_bounds(self.width as int, self.height as int, src_x as int, src_y as int);
                        assert(pixel_offset(self.width as int, src_x as int, src_y as int) + 4 <= size);
                    }
                    let idx: usize = (src_y * self.width + src_x) * 4;
                    area_data.push(self.data[idx]);
                    area_data.push(self.data[idx + 1]);
                    area_data.push(self.data[idx + 2]);
                    area_data.push(self.data[idx + 3]);
                } else {
                    area_data.push(0);
                    area_data.push(0);
                    area_data.push(0);
                    area_data.push(0);
                }
                proof {
                    let here = pixel_offset(w, x as int, y as int);
                    assert(before.len() == here);
                    assert forall|px: int, py: int, c: int|
                        0 <= px < w && 0 <= py < y && 0 <= c < 4 implies #[trigger] channel(area_data@, w, px, py, c)
                        == area_byte(self, left, top, px, py, c) by {
                        lemma_pixel_offset_bounds(w, y as int, px, py);
                        assert(y as int * w * 4 == w * y as int * 4) by (nonlinear_arith);
                        assert(channel(before, w, px, py, c) == area_byte(self, left, top, px, py, c));
                        assert(area_data@[pixel_offset(w, px, py) + c] == before[pixel_offset(w, px, py) + c]);
                    }
                    assert forall|px: int, c: int| 0 <= px < x + 1 && 0 <= c < 4 implies #[trigger] channel(
                        area_data@,
                        w,
                        px,
                        y as int,
                        c,
                    ) == area_byte(self, left, top, px, y as int, c) by {
                        lemma_pixel_offset_bounds(w, height as int, px, y as int);
                        if px < x {
                            assert(channel(before, w, px, y as int, c) == area_byte(self, left, top, px, y as int, c));
                            assert(area_data@[pixel_offset(w, px, y as int) + c] == before[pixel_offset(
                                w,
                                px,
                                y as int,
                            ) + c]);
                        } else {
                            assert(pixel_offset(w, px, y as int) == here);
                            assert(area_data@.len() == here + 4);
                            assert(c == 0 || c == 1 || c == 2 || c == 3);
                        }
                    }
                }
                x = x + 1;
            }
            proof {
                assert(y * width * 4 + width * 4 == (y + 1) * width * 4) by (nonlinear_arith);
            }
            y = y + 1;
        }
        proof {
            assert(height * width * 4 == width * height * 4) by (nonlinear_arith);
        }
        Screenshot { data: area_data, width, height }
    }
}

} // verus!
