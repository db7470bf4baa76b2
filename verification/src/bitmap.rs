//! Bitmap packing: threshold-filtered grayscale buffers and RGB buffers
//! turned into the 1-bit-per-pixel row data the raster commands carry.
//!
//! Row and column addressing mirror the device's raster order: the first
//! byte of a packed row holds the last eight pixels of the source row.
//! This horizontal mirroring is baked into the indexing and must be kept,
//! or printed output comes out mirrored.

use vstd::prelude::*;

use vstd::arithmetic::mul::lemma_mul_inequality;

use crate::Matrix;

verus! {

/// A fault in the shape of bitmap input data.
#[derive(Debug, Clone, Copy, PartialEq, Eq, Structural)]
pub enum BitmapError {
    /// The two planes of a two-color page differ in height.
    HeightMismatch,
    /// The two planes differ in width at the given row.
    RowWidthMismatch(usize),
    /// An RGB buffer does not hold width x height x 3 bytes.
    RgbSizeMismatch,
}

/// The printed bit of one grayscale pixel: darker than the threshold
/// prints (1), lighter stays blank (0).
pub open spec fn bit_value(threshold: u8, pixel: u8) -> u8 {
    if pixel > threshold {
        0u8
    } else {
        1u8
    }
}

/// Where bit `i` of packed byte `x` in row `y` reads from: the indexing
/// walks the source row backwards eight pixels at a time, mirroring the
/// row horizontally.
pub open spec fn source_index(width: int, y: int, x: int, i: int) -> int {
    (1 + y) * width - (1 + x) * 8 + i
}

/// One packed byte of a threshold-filtered row: bit `i` set when source
/// pixel `i` of its group is darker than the threshold.
pub open spec fn packed_byte(threshold: u8, bytes: Seq<u8>, width: int, y: int, x: int) -> u8 {
    (bit_value(threshold, bytes[source_index(width, y, x, 0)]) * 1 + bit_value(
        threshold,
        bytes[source_index(width, y, x, 1)],
    ) * 2 + bit_value(threshold, bytes[source_index(width, y, x, 2)]) * 4 + bit_value(
        threshold,
        bytes[source_index(width, y, x, 3)],
    ) * 8 + bit_value(threshold, bytes[source_index(width, y, x, 4)]) * 16 + bit_value(
        threshold,
        bytes[source_index(width, y, x, 5)],
    ) * 32 + bit_value(threshold, bytes[source_index(width, y, x, 6)]) * 64 + bit_value(
        threshold,
        bytes[source_index(width, y, x, 7)],
    ) * 128) as u8
}

/// A source buffer entirely lighter than the threshold packs to zero
/// bytes: nothing is printed.
pub proof fn lemma_light_input_packs_zero(threshold: u8, bytes: Seq<u8>, width: int, y: int, x: int)
    requires
        forall|i: int| 0 <= i < 8 ==> 0 <= #[trigger] source_index(width, y, x, i) < bytes.len(),
        forall|p: int| 0 <= p < bytes.len() ==> bytes[p] > threshold,
    ensures
        packed_byte(threshold, bytes, width, y, x) == 0,
{
}

/// A source buffer nowhere lighter than the threshold packs to all-one
/// bytes: every pixel is printed.
pub proof fn lemma_dark_input_packs_full(threshold: u8, bytes: Seq<u8>, width: int, y: int, x: int)
    requires
        forall|i: int| 0 <= i < 8 ==> 0 <= #[trigger] source_index(width, y, x, i) < bytes.len(),
        forall|p: int| 0 <= p < bytes.len() ==> bytes[p] <= threshold,
    ensures
        packed_byte(threshold, bytes, width, y, x) == 255,
{
}

/// Convert a grayscale buffer to 1-bit rows.
///
/// Row `y` holds `width / 8` bytes; byte `x`, bit `i` is set exactly when
/// the source pixel at the mirrored index is not lighter than the
/// threshold.
#[verifier::rlimit(100)]
pub fn step_filter(threshold: u8, width: u32, length: u32, bytes: Vec<u8>) -> (r: Matrix)
    requires
        bytes@.len() == (width as int) * (length as int),
    ensures
        r@.len() == length,
        forall|y: int| 0 <= y < length ==> (#[trigger] r@[y])@.len() == width / 8,
        forall|y: int, x: int|
            0 <= y < length && 0 <= x < width / 8 ==> (#[trigger] r@[y]@[x]) == packed_byte(
                threshold,
                bytes@,
                width as int,
                y,
                x,
            ),
{
    let mut bw: Matrix = Vec::new();
    let mut y: u32 = 0;

    while y < length
        invariant
            bytes@.len() == (width as int) * (length as int),
            y <= length,
            bw@.len() == y,
            forall|yy: int| 0 <= yy < y ==> (#[trigger] bw@[yy])@.len() == width / 8,
            forall|yy: int, xx: int|
                0 <= yy < y && 0 <= xx < width / 8 ==> (#[trigger] bw@[yy]@[xx]) == packed_byte(
                    threshold,
                    bytes@,
                    width as int,
                    yy,
                    xx,
                ),
        decreases length - y,
    {
        let mut row: Vec<u8> = Vec::new();
        let mut x: u32 = 0;
        while x < width / 8
            invariant
                bytes@.len() == (width as int) * (length as int),
                y < length,
                x <= width / 8,
                row@.len() == x,
                forall|xx: int|
                    0 <= xx < x ==> (#[trigger] row@[xx]) == packed_byte(
                        threshold,
                        bytes@,
                        width as int,
                        y as int,
                        xx,
                    ),
            decreases width / 8 - x,
        {
            let total: usize = bytes.len();
            proof {
                let yi = y as int;
                let xi = x as int;
                let w = width as int;
                lemma_mul_inequality(1 + yi, length as int, w);
                lemma_mul_inequality(1, 1 + yi, w);
                assert((1 + xi) * 8 <= (w / 8) * 8);
                assert((w / 8) * 8 <= w);
                assert((1 + yi) * w <= total);
            }
            let base: u64 = (1 + y as u64) * (width as u64) - (1 + x as u64) * 8;
            proof {
                assert(base == source_index(width as int, y as int, x as int, 0));
                assert(base + 7 < bytes@.len());
            }
            let p0: u8 = if bytes[(base + 0) as usize] > threshold {
                0
            } else {
                1
            };
            let p1: u8 = if bytes[(base + 1) as usize] > threshold {
                0
            } else {
                1
            };
            let p2: u8 = if bytes[(base + 2) as usize] > threshold {
                0
            } else {
                1
            };
            let p3: u8 = if bytes[(base + 3) as usize] > threshold {
                0
            } else {
                1
            };
            let p4: u8 = if bytes[(base + 4) as usize] > threshold {
                0
            } else {
                1
            };
            let p5: u8 = if bytes[(base + 5) as usize] > threshold {
                0
            } else {
                1
            };
            let p6: u8 = if bytes[(base + 6) as usize] > threshold {
                0
            } else {
                1
            };
            let p7: u8 = if bytes[(base + 7) as usize] > threshold {
                0
            } else {
                1
            };
            let packed: u8 = p0 * 1 + p1 * 2 + p2 * 4 + p3 * 8 + p4 * 16 + p5 * 32 + p6 * 64 + p7
                * 128;
            row.push(packed);
            proof {
                assert(packed == packed_byte(threshold, bytes@, width as int, y as int, x as int));
            }
            x += 1;
        }
        bw.push(row);
        y += 1;
    }
    bw
}

/// Convert a grayscale image to 1-bit rows for normal-width printers:
/// 720 pixels across, 90 bytes per packed row.
pub fn step_filter_normal(threshold: u8, length: u32, bytes: Vec<u8>) -> (r: Matrix)
    requires
        bytes@.len() == 720 * (length as int),
    ensures
        r@.len() == length,
        forall|y: int| 0 <= y < length ==> (#[trigger] r@[y])@.len() == 90,
        forall|y: int, x: int|
            0 <= y < length && 0 <= x < 90 ==> (#[trigger] r@[y]@[x]) == packed_byte(
                threshold,
                bytes@,
                720,
                y,
                x,
            ),
{
    step_filter(threshold, crate::NORMAL_PRINTER_WIDTH, length, bytes)
}

/// Convert a grayscale image to 1-bit rows for wide printers: 1296 pixels
/// across, 162 bytes per packed row.
pub fn step_filter_wide(threshold: u8, length: u32, bytes: Vec<u8>) -> (r: Matrix)
    requires
        bytes@.len() == 1296 * (length as int),
    ensures
        r@.len() == length,
        forall|y: int| 0 <= y < length ==> (#[trigger] r@[y])@.len() == 162,
        forall|y: int, x: int|
            0 <= y < length && 0 <= x < 162 ==> (#[trigger] r@[y]@[x]) == packed_byte(
                threshold,
                bytes@,
                1296,
                y,
                x,
            ),
{
    step_filter(threshold, crate::WIDE_PRINTER_WIDTH, length, bytes)
}

/// Whether an RGB pixel counts as red: strong red channel, weak green and
/// blue.
pub open spec fn is_red_spec(r: u8, g: u8, b: u8) -> bool {
    r > 200 && g < 100 && b < 100
}

/// Whether an RGB pixel counts as black: average brightness below 128 and
/// not already classified as red.
pub open spec fn is_black_spec(r: u8, g: u8, b: u8) -> bool {
    (r + g + b) / 3 < 128 && !is_red_spec(r, g, b)
}

/// The red-plane bit of pixel `p` of an RGB buffer; out-of-range pixels
/// stay blank.
pub open spec fn red_bit(rgb: Seq<u8>, p: int) -> u8 {
    if 0 <= p && 3 * p + 2 < rgb.len() {
        if is_red_spec(rgb[3 * p], rgb[3 * p + 1], rgb[3 * p + 2]) {
            1u8
        } else {
            0u8
        }
    } else {
        0u8
    }
}

/// The black-plane bit of pixel `p` of an RGB buffer; out-of-range pixels
/// stay blank.
pub open spec fn black_bit(rgb: Seq<u8>, p: int) -> u8 {
    if 0 <= p && 3 * p + 2 < rgb.len() {
        if is_black_spec(rgb[3 * p], rgb[3 * p + 1], rgb[3 * p + 2]) {
            1u8
        } else {
            0u8
        }
    } else {
        0u8
    }
}

/// One packed byte of the red plane, addressed as in [`packed_byte`].
pub open spec fn red_byte_spec(rgb: Seq<u8>, width: int, y: int, x: int) -> u8 {
    (red_bit(rgb, source_index(width, y, x, 0)) * 1 + red_bit(rgb, source_index(width, y, x, 1))
        * 2 + red_bit(rgb, source_index(width, y, x, 2)) * 4 + red_bit(
        rgb,
        source_index(width, y, x, 3),
    ) * 8 + red_bit(rgb, source_index(width, y, x, 4)) * 16 + red_bit(
        rgb,
        source_index(width, y, x, 5),
    ) * 32 + red_bit(rgb, source_index(width, y, x, 6)) * 64 + red_bit(
        rgb,
        source_index(width, y, x, 7),
    ) * 128) as u8
}

/// One packed byte of the black plane, addressed as in [`packed_byte`].
pub open spec fn black_byte_spec(rgb: Seq<u8>, width: int, y: int, x: int) -> u8 {
    (black_bit(rgb, source_index(width, y, x, 0)) * 1 + black_bit(
        rgb,
        source_index(width, y, x, 1),
    ) * 2 + black_bit(rgb, source_index(width, y, x, 2)) * 4 + black_bit(
        rgb,
        source_index(width, y, x, 3),
    ) * 8 + black_bit(rgb, source_index(width, y, x, 4)) * 16 + black_bit(
        rgb,
        source_index(width, y, x, 5),
    ) * 32 + black_bit(rgb, source_index(width, y, x, 6)) * 64 + black_bit(
        rgb,
        source_index(width, y, x, 7),
    ) * 128) as u8
}

/// Classify one RGB pixel into its red-plane and black-plane bits.
fn classify_pixel(rgb: &[u8], p: u64) -> (bits: (u8, u8))
    requires
        3 * (p as int) + 2 < rgb@.len(),
    ensures
        bits.0 == red_bit(rgb@, p as int),
        bits.1 == black_bit(rgb@, p as int),
{
    let n: usize = rgb.len();
    proof {
        // n being a usize bounds the pixel index away from overflow
        assert(3 * (p as int) + 2 < n as int);
    }
    let idx: usize = (3 * p) as usize;
    let r = rgb[idx];
    let g = rgb[idx + 1];
    let b = rgb[idx + 2];
    let red = r > 200 && g < 100 && b < 100;
    let brightness: u8 = ((r as u32 + g as u32 + b as u32) / 3) as u8;
    let black = brightness < 128 && !red;
    (
        if red {
            1
        } else {
            0
        },
        if black {
            1
        } else {
            0
        },
    )
}

/// Separate an RGB buffer into black and red 1-bit planes for two-color
/// printing.
///
/// Per pixel: red when the red channel dominates, else black when the
/// average brightness is below 128, else unprinted.  Succeeds exactly when
/// the buffer holds width x height x 3 bytes.  Addressing mirrors
/// [`step_filter`], and rows are padded to `(width + 7) / 8` bytes with
/// blank bytes past `width / 8`.
#[verifier::rlimit(100)]
pub fn convert_rgb_to_two_color(width: u32, height: u32, rgb_data: &[u8]) -> (r: Result<
    TwoColorMatrix,
    BitmapError,
>)
    ensures
        r is Ok <==> rgb_data@.len() == (width as int) * (height as int) * 3,
        r matches Err(e) ==> e == BitmapError::RgbSizeMismatch,
        r matches Ok(t) ==> {
            &&& t.black@.len() == height
            &&& t.red@.len() == height
            &&& forall|y: int|
                0 <= y < height ==> (#[trigger] t.black@[y])@.len() == ((width + 7) / 8)
            &&& forall|y: int| 0 <= y < height ==> (#[trigger] t.red@[y])@.len() == ((width + 7) / 8)
            &&& forall|y: int, x: int|
                0 <= y < height && 0 <= x < width / 8 ==> (#[trigger] t.black@[y]@[x])
                    == black_byte_spec(rgb_data@, width as int, y, x)
            &&& forall|y: int, x: int|
                0 <= y < height && 0 <= x < width / 8 ==> (#[trigger] t.red@[y]@[x])
                    == red_byte_spec(rgb_data@, width as int, y, x)
            &&& forall|y: int, x: int|
                0 <= y < height && width / 8 <= x < (width + 7) / 8 ==> (#[trigger] t.black@[y]@[x])
                    == 0 && t.red@[y]@[x] == 0
        },
{
    proof {
        assert((width as int) * (height as int) * 3 < 0x1_0000_0000_0000_0000_0000_0000int)
            by (nonlinear_arith)
            requires
                width < 0x1_0000_0000,
                height < 0x1_0000_0000,
        ;
    }
    if (rgb_data.len() as u128) != (width as u128) * (height as u128) * 3 {
        return Err(BitmapError::RgbSizeMismatch);
    }

    let total: usize = rgb_data.len();
    let mut black_matrix: Matrix = Vec::new();
    let mut red_matrix: Matrix = Vec::new();
    let mut y: u32 = 0;

    while y < height
        invariant
            rgb_data@.len() == (width as int) * (height as int) * 3,
            total == rgb_data@.len(),
            y <= height,
            black_matrix@.len() == y,
            red_matrix@.len() == y,
            forall|yy: int|
                0 <= yy < y ==> (#[trigger] black_matrix@[yy])@.len() == ((width + 7) / 8),
            forall|yy: int| 0 <= yy < y ==> (#[trigger] red_matrix@[yy])@.len() == ((width + 7) / 8),
            forall|yy: int, xx: int|
                0 <= yy < y && 0 <= xx < width / 8 ==> (#[trigger] black_matrix@[yy]@[xx])
                    == black_byte_spec(rgb_data@, width as int, yy, xx),
            forall|yy: int, xx: int|
                0 <= yy < y && 0 <= xx < width / 8 ==> (#[trigger] red_matrix@[yy]@[xx])
                    == red_byte_spec(rgb_data@, width as int, yy, xx),
            forall|yy: int, xx: int|
                0 <= yy < y && width / 8 <= xx < (width + 7) / 8 ==> (
                #[trigger] black_matrix@[yy]@[xx]) == 0 && red_matrix@[yy]@[xx] == 0,
        decreases height - y,
    {
        let mut black_row: Vec<u8> = Vec::new();
        let mut red_row: Vec<u8> = Vec::new();
        let mut x: u32 = 0;

        while x < width / 8
            invariant
                rgb_data@.len() == (width as int) * (height as int) * 3,
                total == rgb_data@.len(),
                y < height,
                x <= width / 8,
                black_row@.len() == x,
                red_row@.len() == x,
                forall|xx: int|
                    0 <= xx < x ==> (#[trigger] black_row@[xx]) == black_byte_spec(
                        rgb_data@,
                        width as int,
                        y as int,
                        xx,
                    ),
                forall|xx: int|
                    0 <= xx < x ==> (#[trigger] red_row@[xx]) == red_byte_spec(
                        rgb_data@,
                        width as int,
                        y as int,
                        xx,
                    ),
            decreases width / 8 - x,
        {
            proof {
                let yi = y as int;
                let xi = x as int;
                let w = width as int;
                lemma_mul_inequality(1 + yi, height as int, w);
                lemma_mul_inequality(1, 1 + yi, w);
                assert((1 + xi) * 8 <= (w / 8) * 8);
                assert((w / 8) * 8 <= w);
                assert((1 + yi) * w <= (height as int) * w);
            }
            let base: u64 = (1 + y as u64) * (width as u64) - (1 + x as u64) * 8;
            proof {
                assert(base == source_index(width as int, y as int, x as int, 0));
                assert(3 * (base + 7) + 2 < total);
            }
            let (r0, k0) = classify_pixel(rgb_data, base + 0);
            let (r1, k1) = classify_pixel(rgb_data, base + 1);
            let (r2, k2) = classify_pixel(rgb_data, base + 2);
            let (r3, k3) = classify_pixel(rgb_data, base + 3);
            let (r4, k4) = classify_pixel(rgb_data, base + 4);
            let (r5, k5) = classify_pixel(rgb_data, base + 5);
            let (r6, k6) = classify_pixel(rgb_data, base + 6);
            let (r7, k7) = classify_pixel(rgb_data, base + 7);
            let red_packed: u8 = r0 * 1 + r1 * 2 + r2 * 4 + r3 * 8 + r4 * 16 + r5 * 32 + r6 * 64
                + r7 * 128;
            let black_packed: u8 = k0 * 1 + k1 * 2 + k2 * 4 + k3 * 8 + k4 * 16 + k5 * 32 + k6 * 64
                + k7 * 128;
            black_row.push(black_packed);
            red_row.push(red_packed);
            proof {
                assert(black_packed == black_byte_spec(
                    rgb_data@,
                    width as int,
                    y as int,
                    x as int,
                ));
                assert(red_packed == red_byte_spec(rgb_data@, width as int, y as int, x as int));
            }
            x += 1;
        }

        if width % 8 != 0 {
            black_row.push(0x00);
            red_row.push(0x00);
        }
        proof {
            assert(black_row@.len() == (width + 7) / 8);
            assert(red_row@.len() == (width + 7) / 8);
        }
        black_matrix.push(black_row);
        red_matrix.push(red_row);
        y += 1;
    }

    Ok(TwoColorMatrix { black: black_matrix, red: red_matrix })
}

/// Both bitmap planes of a two-color page, black and red, of identical
/// shape.
#[derive(Debug, Clone)]
pub struct TwoColorMatrix {
    pub black: Matrix,
    pub red: Matrix,
}

/// The smaller of two lengths.
pub open spec fn shorter(a: int, b: int) -> int {
    if a <= b {
        a
    } else {
        b
    }
}

/// Copy one packed row.
fn copy_row(row: &Vec<u8>) -> (r: Vec<u8>)
    ensures
        r@ == row@,
{
    let mut out: Vec<u8> = Vec::new();
    let mut j: usize = 0;
    while j < row.len()
        invariant
            j <= row@.len(),
            out@ == row@.subrange(0, j as int),
        decreases row@.len() - j,
    {
        out.push(row[j]);
        proof {
            assert(out@ =~= row@.subrange(0, j + 1));
        }
        j += 1;
    }
    proof {
        assert(out@ =~= row@);
    }
    out
}

impl TwoColorMatrix {
    /// Pair a black plane and a red plane.
    ///
    /// Succeeds exactly when the two have the same height and every pair
    /// of rows the same byte length; reports the height first, then the
    /// first row where the widths diverge.
    pub fn new(black: Matrix, red: Matrix) -> (r: Result<TwoColorMatrix, BitmapError>)
        ensures
            r is Ok <==> (black@.len() == red@.len() && forall|i: int|
                0 <= i < black@.len() ==> (#[trigger] black@[i])@.len() == red@[i]@.len()),
            r matches Ok(t) ==> t.black@ == black@ && t.red@ == red@,
            (r == Err::<TwoColorMatrix, BitmapError>(BitmapError::HeightMismatch)) <==> black@.len()
                != red@.len(),
            r matches Err(BitmapError::RowWidthMismatch(i)) ==> 0 <= i < black@.len()
                && black@[i as int]@.len() != red@[i as int]@.len(),
    {
        if black.len() != red.len() {
            return Err(BitmapError::HeightMismatch);
        }
        let mut i: usize = 0;
        while i < black.len()
            invariant
                black@.len() == red@.len(),
                i <= black@.len(),
                forall|j: int| 0 <= j < i ==> (#[trigger] black@[j])@.len() == red@[j]@.len(),
            decreases black@.len() - i,
        {
            if black[i].len() != red[i].len() {
                return Err(BitmapError::RowWidthMismatch(i));
            }
            i += 1;
        }
        Ok(TwoColorMatrix { black, red })
    }

    /// Interleave the two planes into a single matrix of alternating
    /// black and red rows, as the two-color raster commands expect.
    pub fn to_alternating_matrix(&self) -> (r: Matrix)
        ensures
            r@.len() == 2 * shorter(self.black@.len() as int, self.red@.len() as int),
            forall|k: int|
                0 <= k < shorter(self.black@.len() as int, self.red@.len() as int) ==> (
                #[trigger] r@[2 * k])@ == self.black@[k]@ && r@[2 * k + 1]@ == self.red@[k]@,
    {
        let n: usize = if self.black.len() <= self.red.len() {
            self.black.len()
        } else {
            self.red.len()
        };
        let mut result: Matrix = Vec::new();
        let mut k: usize = 0;
        while k < n
            invariant
                n == shorter(self.black@.len() as int, self.red@.len() as int),
                k <= n,
                result@.len() == 2 * k,
                forall|idx: int|
                    0 <= idx < result@.len() ==> (#[trigger] result@[idx])@ == (if idx % 2 == 0 {
                        self.black@[idx / 2]@
                    } else {
                        self.red@[idx / 2]@
                    }),
            decreases n - k,
        {
            let b = copy_row(&self.black[k]);
            let rr = copy_row(&self.red[k]);
            result.push(b);
            result.push(rr);
            k += 1;
        }
        proof {
            assert forall|k2: int|
                0 <= k2 < shorter(
                    self.black@.len() as int,
                    self.red@.len() as int,
                ) implies (#[trigger] result@[2 * k2])@ == self.black@[k2]@ && result@[2 * k2 + 1]@
                == self.red@[k2]@ by {
                assert(result@[2 * k2]@ == self.black@[(2 * k2) / 2]@);
                assert(result@[2 * k2 + 1]@ == self.red@[(2 * k2 + 1) / 2]@);
            }
        }
        result
    }
}

} // verus!
