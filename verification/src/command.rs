//! Command construction: the exact byte sequences of the raster protocol,
//! from initialization and status requests to whole per-page write buffers.
//!
//! Everything here is a pure function of the configuration and the page
//! data; nothing touches a transport.

use vstd::prelude::*;

use crate::compress::{pack_bits, pack_bits_spec};
use crate::config::{mode_commands, Config};
use crate::error::Error;
use crate::media::Media;

verus! {

/// The initialization sequence: 400 zero bytes to flush any pending
/// partial command, then the ESC-@ reset.
pub open spec fn init_bytes() -> Seq<u8> {
    Seq::new(400, |j: int| 0u8) + seq![0x1Bu8, 0x40u8]
}

/// The status-request sequence: initialization followed by ESC i S.
pub open spec fn request_status_bytes() -> Seq<u8> {
    init_bytes() + seq![0x1Bu8, 0x69u8, 0x53u8]
}

/// Build the initialization command, which is also sent alone to cancel a
/// job or to leave the device ready after one.
pub fn initialize_command() -> (r: Vec<u8>)
    ensures
        r@ == init_bytes(),
{
    let mut buf: Vec<u8> = Vec::new();
    let mut i: usize = 0;
    while i < 400
        invariant
            i <= 400,
            buf@ == Seq::new(i as nat, |j: int| 0u8),
        decreases 400 - i,
    {
        buf.push(0x00);
        proof {
            assert(buf@ =~= Seq::new((i + 1) as nat, |j: int| 0u8));
        }
        i += 1;
    }
    buf.push(0x1B);
    buf.push(0x40);
    proof {
        assert(buf@ =~= init_bytes());
    }
    buf
}

/// Build the status-request command.
pub fn request_status_command() -> (r: Vec<u8>)
    ensures
        r@ == request_status_bytes(),
{
    let mut buf = initialize_command();
    buf.push(0x1B);
    buf.push(0x69);
    buf.push(0x53);
    proof {
        assert(buf@ =~= request_status_bytes());
    }
    buf
}

/// A 32-bit value in little-endian byte order.
pub open spec fn le4(n: u32) -> Seq<u8> {
    seq![
        (n % 256) as u8,
        ((n / 256) % 256) as u8,
        ((n / 65536) % 256) as u8,
        ((n / 16777216) % 256) as u8,
    ]
}

/// The media-setup header (ESC i z): validity flags, family code, width
/// and length in mm, raster-row count little-endian, and two fixed bytes.
pub open spec fn media_header_bytes(m: Media, raster_count: u32) -> Seq<u8> {
    seq![
        0x1Bu8,
        0x69u8,
        0x7Au8,
        0x4Eu8,
        m.family_code(),
        m.spec_model().width.mm,
        m.spec_model().length.mm,
    ] + le4(raster_count) + seq![0x00u8, 0x00u8]
}

/// Build the media-setup header for one page.
pub fn build_media_header(media: Media, raster_count: u32) -> (r: Vec<u8>)
    ensures
        r@ == media_header_bytes(media, raster_count),
{
    let mut buf: Vec<u8> = Vec::new();
    buf.push(0x1B);
    buf.push(0x69);
    buf.push(0x7A);
    // validity flags: media type, width, length and raster count are given
    buf.push(0x4E);
    let family: u8 = match media {
        Media::Continuous(_) => 0x0A,
        Media::DieCut(_) => 0x0B,
    };
    buf.push(family);
    let info = media.spec_for();
    buf.push(info.width.mm);
    buf.push(info.length.mm);
    buf.push((raster_count % 256) as u8);
    buf.push(((raster_count / 256) % 256) as u8);
    buf.push(((raster_count / 65536) % 256) as u8);
    buf.push((raster_count / 16777216) as u8);
    buf.push(0x00);
    buf.push(0x00);
    proof {
        assert((raster_count / 16777216) as u8 == ((raster_count / 16777216) % 256) as u8);
        assert(buf@ =~= media_header_bytes(media, raster_count));
    }
    buf
}

/// The whole preamble of a job: initialization, raster command mode,
/// notification mode, the configuration's mode commands, and the
/// compression-mode selector.
pub open spec fn preamble_bytes(c: Config) -> Seq<u8> {
    init_bytes() + seq![0x1Bu8, 0x69u8, 0x61u8, 0x01u8] + seq![0x1Bu8, 0x69u8, 0x21u8, 0x00u8]
        + mode_commands(c) + seq![0x4Du8, if c.compress { 0x02u8 } else { 0x00u8 }]
}

/// Build the job preamble.  Rejects a configuration whose feed amount the
/// selected media does not allow, before any byte reaches the device.
pub fn build_preamble(config: &Config) -> (r: Result<Vec<u8>, Error>)
    ensures
        r is Ok <==> config.media.feed_ok_spec(config.feed),
        r matches Ok(v) ==> v@ == preamble_bytes(*config),
        r matches Err(e) ==> e == Error::InvalidConfig(config.media.feed_err_spec(config.feed)),
{
    let mut buf = initialize_command();
    // raster command mode
    buf.push(0x1B);
    buf.push(0x69);
    buf.push(0x61);
    buf.push(0x01);
    // automatic status notification mode
    buf.push(0x1B);
    buf.push(0x69);
    buf.push(0x21);
    buf.push(0x00);
    let mut modes = match config.build() {
        Ok(m) => m,
        Err(e) => {
            return Err(e);
        }
    };
    buf.append(&mut modes);
    buf.push(0x4D);
    if config.compress {
        buf.push(0x02);
    } else {
        buf.push(0x00);
    }
    proof {
        assert(buf@ =~= preamble_bytes(*config));
    }
    Ok(buf)
}

/// The row blocks of a two-color page: rows alternate between the two
/// planes, each prefixed by the color-selector header; the starting plane
/// is carried in `color`.
pub open spec fn two_color_row_blocks(rows: Seq<Vec<u8>>, color: bool) -> Seq<u8>
    decreases rows.len(),
{
    if rows.len() == 0 {
        Seq::empty()
    } else {
        seq![0x77u8, if color { 0x01u8 } else { 0x02u8 }, 90u8] + rows[0]@
            + two_color_row_blocks(rows.subrange(1, rows.len() as int), !color)
    }
}

/// The row blocks of a compressed single-color page: each row's
/// `pack_bits` output, prefixed by the raster header with its length.
pub open spec fn packed_row_blocks(rows: Seq<Vec<u8>>) -> Seq<u8>
    decreases rows.len(),
{
    if rows.len() == 0 {
        Seq::empty()
    } else {
        let p = pack_bits_spec(rows[0]@);
        seq![0x67u8, 0x00u8, p.len() as u8] + p + packed_row_blocks(
            rows.subrange(1, rows.len() as int),
        )
    }
}

/// The row blocks of an uncompressed single-color page: the raw 90-byte
/// rows, each prefixed by the raster header.
pub open spec fn plain_row_blocks(rows: Seq<Vec<u8>>) -> Seq<u8>
    decreases rows.len(),
{
    if rows.len() == 0 {
        Seq::empty()
    } else {
        seq![0x67u8, 0x00u8, 90u8] + rows[0]@ + plain_row_blocks(
            rows.subrange(1, rows.len() as int),
        )
    }
}

/// The row blocks of one page under a configuration: interleaved two-color
/// rows, compressed rows, or raw rows.
pub open spec fn row_blocks(c: Config, rows: Seq<Vec<u8>>, color: bool) -> Seq<u8> {
    if c.two_colors {
        two_color_row_blocks(rows, color)
    } else if c.compress {
        packed_row_blocks(rows)
    } else {
        plain_row_blocks(rows)
    }
}

/// The color-plane flag after a page of `rows_len` rows: two-color pages
/// flip it once per row, other pages leave it alone.
pub open spec fn color_after(c: Config, rows_len: int, color: bool) -> bool {
    if c.two_colors && rows_len % 2 == 1 {
        !color
    } else {
        color
    }
}

/// The raster-row count announced for a page: two-color pages interleave
/// the two planes, so the device sees half as many rows.
pub open spec fn raster_count_spec(c: Config, rows_len: int) -> int {
    if c.two_colors {
        rows_len / 2
    } else {
        rows_len
    }
}

/// The write buffer of one page, minus the job preamble: media header,
/// first-page marker, row blocks, and the print terminator (print-and-feed
/// between pages, print-and-eject on the last).
pub open spec fn page_bytes(c: Config, rows: Seq<Vec<u8>>, first: bool, last: bool, color: bool) -> Seq<u8> {
    media_header_bytes(c.media, raster_count_spec(c, rows.len() as int) as u32)
        + (if first { seq![0x00u8, 0x00u8] } else { seq![0x01u8, 0x00u8] })
        + row_blocks(c, rows, color)
        + seq![if last { 0x1Au8 } else { 0x0Cu8 }]
}

/// Build the write buffer of one page (without the job preamble).
///
/// Returns the buffer and the color-plane flag to carry into the next
/// page.
pub fn build_page_bytes(config: &Config, page: &Vec<Vec<u8>>, first: bool, last: bool, color_in: bool) -> (r: (
    Vec<u8>,
    bool,
))
    requires
        page@.len() < 0x1_0000_0000,
        config.compress ==> forall|k: int| 0 <= k < page@.len() ==> (#[trigger] page@[k])@.len()
            == 90,
    ensures
        r.0@ == page_bytes(*config, page@, first, last, color_in),
        r.1 == color_after(*config, page@.len() as int, color_in),
{
    let ghost rows = page@;
    let mut buf: Vec<u8>;

    let raster_count: u32 = if config.two_colors {
        (page.len() / 2) as u32
    } else {
        page.len() as u32
    };
    buf = build_media_header(config.media, raster_count);

    if first {
        buf.push(0x00);
        buf.push(0x00);
    } else {
        buf.push(0x01);
        buf.push(0x00);
    }

    let ghost base = buf@;
    proof {
        assert(base =~= media_header_bytes(
            config.media,
            raster_count_spec(*config, rows.len() as int) as u32,
        ) + (if first { seq![0x00u8, 0x00u8] } else { seq![0x01u8, 0x00u8] }));
    }

    let mut color = color_in;

    if config.two_colors {
        let mut k: usize = 0;
        proof {
            assert(rows.subrange(0, rows.len() as int) =~= rows);
        }
        while k < page.len()
            invariant
                rows == page@,
                k <= rows.len(),
                base + two_color_row_blocks(rows, color_in) == buf@ + two_color_row_blocks(
                    rows.subrange(k as int, rows.len() as int),
                    color,
                ),
                color == color_after(*config, k as int, color_in),
                config.two_colors,
            decreases rows.len() - k,
        {
            let ghost suffix = rows.subrange(k as int, rows.len() as int);
            let ghost buf_before = buf@;
            buf.push(0x77);
            if color {
                buf.push(0x01);
            } else {
                buf.push(0x02);
            }
            buf.push(90);
            let row = &page[k];
            let mut j: usize = 0;
            let ghost mid = buf@;
            while j < row.len()
                invariant
                    j <= row@.len(),
                    buf@ == mid + row@.subrange(0, j as int),
                decreases row@.len() - j,
            {
                buf.push(row[j]);
                proof {
                    assert(buf@ =~= mid + row@.subrange(0, j + 1));
                }
                j += 1;
            }
            proof {
                assert(row@.subrange(0, row@.len() as int) =~= row@);
                assert(suffix[0] == rows[k as int]);
                assert(suffix.subrange(1, suffix.len() as int) =~= rows.subrange(
                    k + 1,
                    rows.len() as int,
                ));
                assert(two_color_row_blocks(suffix, color) == seq![
                    0x77u8,
                    if color { 0x01u8 } else { 0x02u8 },
                    90u8,
                ] + rows[k as int]@ + two_color_row_blocks(
                    rows.subrange(k + 1, rows.len() as int),
                    !color,
                ));
                assert(buf@ =~= buf_before + seq![
                    0x77u8,
                    if color { 0x01u8 } else { 0x02u8 },
                    90u8,
                ] + rows[k as int]@);
                assert(buf@ + two_color_row_blocks(rows.subrange(k + 1, rows.len() as int), !color)
                    =~= buf_before + two_color_row_blocks(suffix, color));
            }
            color = !color;
            k += 1;
        }
        proof {
            assert(rows.subrange(rows.len() as int, rows.len() as int) =~= Seq::<Vec<u8>>::empty());
            assert(two_color_row_blocks(
                rows.subrange(rows.len() as int, rows.len() as int),
                color,
            ) == Seq::<u8>::empty());
            assert(buf@ =~= base + two_color_row_blocks(rows, color_in));
        }
    } else if config.compress {
        let mut k: usize = 0;
        proof {
            assert(rows.subrange(0, rows.len() as int) =~= rows);
        }
        while k < page.len()
            invariant
                rows == page@,
                k <= rows.len(),
                base + packed_row_blocks(rows) == buf@ + packed_row_blocks(
                    rows.subrange(k as int, rows.len() as int),
                ),
                forall|m: int| 0 <= m < rows.len() ==> (#[trigger] rows[m])@.len() == 90,
            decreases rows.len() - k,
        {
            let ghost suffix = rows.subrange(k as int, rows.len() as int);
            let ghost buf_before = buf@;
            let row = &page[k];
            let mut packed = pack_bits(row.as_slice());
            let len8: u8 = packed.len() as u8;
            buf.push(0x67);
            buf.push(0x00);
            buf.push(len8);
            let ghost mid = buf@;
            let mut j: usize = 0;
            while j < packed.len()
                invariant
                    j <= packed@.len(),
                    buf@ == mid + packed@.subrange(0, j as int),
                decreases packed@.len() - j,
            {
                buf.push(packed[j]);
                proof {
                    assert(buf@ =~= mid + packed@.subrange(0, j + 1));
                }
                j += 1;
            }
            proof {
                let p = pack_bits_spec(rows[k as int]@);
                assert(packed@.subrange(0, packed@.len() as int) =~= packed@);
                assert(suffix[0] == rows[k as int]);
                assert(suffix.subrange(1, suffix.len() as int) =~= rows.subrange(
                    k + 1,
                    rows.len() as int,
                ));
                assert(packed_row_blocks(suffix) == seq![0x67u8, 0x00u8, p.len() as u8] + p
                    + packed_row_blocks(rows.subrange(k + 1, rows.len() as int)));
                assert(buf@ =~= buf_before + seq![0x67u8, 0x00u8, p.len() as u8] + p);
                assert(buf@ + packed_row_blocks(rows.subrange(k + 1, rows.len() as int)) =~=
                buf_before + packed_row_blocks(suffix));
            }
            k += 1;
        }
        proof {
            assert(rows.subrange(rows.len() as int, rows.len() as int) =~= Seq::<Vec<u8>>::empty());
            assert(buf@ =~= base + packed_row_blocks(rows));
        }
    } else {
        let mut k: usize = 0;
        proof {
            assert(rows.subrange(0, rows.len() as int) =~= rows);
        }
        while k < page.len()
            invariant
                rows == page@,
                k <= rows.len(),
                base + plain_row_blocks(rows) == buf@ + plain_row_blocks(
                    rows.subrange(k as int, rows.len() as int),
                ),
            decreases rows.len() - k,
        {
            let ghost suffix = rows.subrange(k as int, rows.len() as int);
            let ghost buf_before = buf@;
            buf.push(0x67);
            buf.push(0x00);
            buf.push(90);
            let row = &page[k];
            let ghost mid = buf@;
            let mut j: usize = 0;
            while j < row.len()
                invariant
                    j <= row@.len(),
                    buf@ == mid + row@.subrange(0, j as int),
                decreases row@.len() - j,
            {
                buf.push(row[j]);
                proof {
                    assert(buf@ =~= mid + row@.subrange(0, j + 1));
                }
                j += 1;
            }
            proof {
                assert(row@.subrange(0, row@.len() as int) =~= row@);
                assert(suffix[0] == rows[k as int]);
                assert(suffix.subrange(1, suffix.len() as int) =~= rows.subrange(
                    k + 1,
                    rows.len() as int,
                ));
                assert(plain_row_blocks(suffix) == seq![0x67u8, 0x00u8, 90u8] + rows[k as int]@
                    + plain_row_blocks(rows.subrange(k + 1, rows.len() as int)));
                assert(buf@ =~= buf_before + seq![0x67u8, 0x00u8, 90u8] + rows[k as int]@);
                assert(buf@ + plain_row_blocks(rows.subrange(k + 1, rows.len() as int)) =~=
                buf_before + plain_row_blocks(suffix));
            }
            k += 1;
        }
        proof {
            assert(rows.subrange(rows.len() as int, rows.len() as int) =~= Seq::<Vec<u8>>::empty());
            assert(buf@ =~= base + plain_row_blocks(rows));
        }
    }

    buf.push(if last { 0x1A } else { 0x0C });

    proof {
        assert(buf@ =~= page_bytes(*config, rows, first, last, color_in));
    }
    (buf, color)
}

/// The color-plane flag in force when page `k` starts: false at the first
/// page, then carried through every earlier page.
pub open spec fn color_before_page(c: Config, pages: Seq<Vec<Vec<u8>>>, k: int) -> bool
    decreases k,
{
    if k <= 0 {
        false
    } else {
        color_after(c, pages[k - 1]@.len() as int, color_before_page(c, pages, k - 1))
    }
}

/// The write buffer of page `k` of a job: the job preamble on the first
/// page, then the page's own bytes, terminated by print-and-feed between
/// pages and print-and-eject on the last.
pub open spec fn stream_page_bytes(c: Config, pages: Seq<Vec<Vec<u8>>>, k: int) -> Seq<u8> {
    (if k == 0 {
        preamble_bytes(c)
    } else {
        Seq::empty()
    }) + page_bytes(c, pages[k]@, k == 0, k == pages.len() - 1, color_before_page(c, pages, k))
}

/// Build the whole job as one write buffer per page.
///
/// The device is sent one buffer at a time, reading a status frame between
/// pages; the buffers carry everything, so callers only move bytes.
/// Rejects a configuration whose feed amount the selected media does not
/// allow, before anything else is built.
pub fn build_print_stream(config: &Config, pages: &Vec<Vec<Vec<u8>>>) -> (r: Result<
    Vec<Vec<u8>>,
    Error,
>)
    requires
        forall|k: int| 0 <= k < pages@.len() ==> (#[trigger] pages@[k])@.len() < 0x1_0000_0000,
        config.compress ==> forall|k: int, j: int|
            0 <= k < pages@.len() && 0 <= j < pages@[k]@.len() ==> (#[trigger] pages@[k]@[j])@.len() == 90,
    ensures
        r is Ok <==> config.media.feed_ok_spec(config.feed),
        r matches Ok(bufs) ==> bufs@.len() == pages@.len() && forall|k: int|
            0 <= k < pages@.len() ==> (#[trigger] bufs@[k])@ == stream_page_bytes(
                *config,
                pages@,
                k,
            ),
        r matches Err(e) ==> e == Error::InvalidConfig(config.media.feed_err_spec(config.feed)),
{
    let mut preamble = match build_preamble(config) {
        Ok(p) => p,
        Err(e) => {
            return Err(e);
        }
    };

    let mut out: Vec<Vec<u8>> = Vec::new();
    let mut color: bool = false;
    let n = pages.len();
    let mut k: usize = 0;

    while k < n
        invariant
            n == pages@.len(),
            k <= n,
            out@.len() == k,
            config.media.feed_ok_spec(config.feed),
            k == 0 ==> preamble@ == preamble_bytes(*config),
            color == color_before_page(*config, pages@, k as int),
            forall|m: int| 0 <= m < k ==> (#[trigger] out@[m])@ == stream_page_bytes(
                *config,
                pages@,
                m,
            ),
            forall|m: int| 0 <= m < pages@.len() ==> (#[trigger] pages@[m])@.len()
                < 0x1_0000_0000,
            config.compress ==> forall|m: int, j: int|
                0 <= m < pages@.len() && 0 <= j < pages@[m]@.len() ==> (#[trigger] pages@[m]@[j])@.len() == 90,
        decreases n - k,
    {
        let ghost ki = k as int;
        let mut buf: Vec<u8> = Vec::new();
        if k == 0 {
            buf.append(&mut preamble);
            proof {
                assert(buf@ =~= preamble_bytes(*config));
            }
        }
        let page = &pages[k];
        let ghost buf_head = buf@;
        let (mut tail, color_out) = build_page_bytes(config, page, k == 0, k + 1 == n, color);
        buf.append(&mut tail);
        proof {
            assert(pages@[ki] == page);
            assert((ki == 0) == (k == 0));
            assert((ki == pages@.len() - 1) == (k + 1 == n));
            assert(buf_head =~= if ki == 0 {
                preamble_bytes(*config)
            } else {
                Seq::<u8>::empty()
            });
            assert(buf@ =~= buf_head + page_bytes(
                *config,
                pages@[ki]@,
                ki == 0,
                ki == pages@.len() - 1,
                color_before_page(*config, pages@, ki),
            ));
            assert(buf@ == stream_page_bytes(*config, pages@, ki));
            assert(color_out == color_before_page(*config, pages@, ki + 1));
        }
        out.push(buf);
        color = color_out;
        k += 1;
    }

    Ok(out)
}

} // verus!
