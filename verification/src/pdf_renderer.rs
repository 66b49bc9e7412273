//! The rasterize/encode stage.
//!
//! The external rasterizer itself (a native library the host loads) is a
//! collaborator: the host opens the intermediate document, asks it for
//! page sizes and raw RGBA buffers, and hands those buffers in as plain
//! values. Everything this crate decides about them is verified: the
//! DPI-to-pixel scaling rule, background compositing when the alpha
//! channel is disabled, PNG encoding of each buffer (through one trusted
//! call into the `png` crate), page numbering and output naming.

use vstd::prelude::*;

use vstd::arithmetic::div_mod::lemma_mod_multiples_basic;
use vstd::arithmetic::mul::{lemma_mul_is_associative, lemma_mul_is_commutative};

use crate::config::{PngPage, RenderConfig, Rgb};
use crate::error::{ConvResult, ConversionError};
use crate::text;

verus! {

/// Pixel size of a page dimension of `points` typographic points rendered
/// at `dpi`: `points * dpi / 72` rounded to the nearest pixel, saturated
/// at the pixel type's limit.
pub open spec fn scaled_pixels(points: u32, dpi: u32) -> int {
    if (points * dpi + 36) / 72 > u32::MAX {
        u32::MAX as int
    } else {
        (points * dpi + 36) / 72
    }
}

/// Information about a single page of an intermediate document.
#[derive(Debug, Clone, Copy, PartialEq, Eq, Structural)]
pub struct PageInfo {
    /// Page number (1-indexed).
    pub page_number: usize,
    /// Width in typographic points (1/72 inch).
    pub width_points: u32,
    /// Height in typographic points (1/72 inch).
    pub height_points: u32,
}

impl PageInfo {
    /// Width in pixels at the given resolution.
    pub fn width_pixels(&self, dpi: u32) -> (r: u32)
        ensures
            r == scaled_pixels(self.width_points, dpi),
    {
        scale_to_pixels(self.width_points, dpi)
    }

    /// Height in pixels at the given resolution.
    pub fn height_pixels(&self, dpi: u32) -> (r: u32)
        ensures
            r == scaled_pixels(self.height_points, dpi),
    {
        scale_to_pixels(self.height_points, dpi)
    }
}

/// Information about an intermediate document.
#[derive(Debug, Clone)]
pub struct PdfInfo {
    /// Number of pages.
    pub page_count: usize,
    /// Per-page information.
    pub pages: Vec<PageInfo>,
}

/// Compute `points * dpi / 72`, rounded to the nearest pixel, without
/// overflow, saturating at the pixel type's limit.
pub fn scale_to_pixels(points: u32, dpi: u32) -> (r: u32)
    ensures
        r == scaled_pixels(points, dpi),
{
    proof {
        assert((points as int) * (dpi as int) <= 0xffff_ffff * 0xffff_ffff) by (nonlinear_arith)
            requires
                points as int <= 0xffff_ffff,
                dpi as int <= 0xffff_ffff,
                0 <= points as int,
                0 <= dpi as int,
        ;
    }
    let q: u64 = ((points as u64) * (dpi as u64) + 36) / 72;
    if q > u32::MAX as u64 {
        u32::MAX
    } else {
        q as u32
    }
}

/// One channel composited over the background:
/// `(src * alpha + bg * (255 - alpha)) / 255`.
pub open spec fn blend_channel(c: u8, a: u8, bg: u8) -> u8 {
    (((c as int) * (a as int) + (bg as int) * (255 - a as int)) / 255) as u8
}

/// The background colour channel a byte at offset `k` within its pixel is
/// composited over.
pub open spec fn bg_channel(bg: Rgb, k: int) -> u8 {
    if k == 0 {
        bg.r
    } else if k == 1 {
        bg.g
    } else {
        bg.b
    }
}

/// An RGBA buffer with every semi-transparent pixel composited over the
/// background colour and forced fully opaque; fully opaque pixels are
/// untouched.
pub open spec fn composited(data: Seq<u8>, bg: Rgb) -> Seq<u8> {
    Seq::new(
        data.len(),
        |k: int|
            {
                let a = data[4 * (k / 4) + 3];
                if a == 255 {
                    data[k]
                } else if k % 4 == 3 {
                    255u8
                } else {
                    blend_channel(data[k], a, bg_channel(bg, k % 4))
                }
            },
    )
}

/// Blend one channel over the background.
fn blend_channel_exec(c: u8, a: u8, bg: u8) -> (r: u8)
    ensures
        r == blend_channel(c, a, bg),
{
    proof {
        assert((c as int) * (a as int) + (bg as int) * (255 - a as int) <= 255 * 255) by (nonlinear_arith)
            requires
                c as int <= 255,
                bg as int <= 255,
                0 <= a as int <= 255,
        ;
        assert((c as int) * (a as int) >= 0 && (bg as int) * (255 - a as int) >= 0)
            by (nonlinear_arith)
            requires
                0 <= c as int,
                0 <= bg as int,
                0 <= a as int <= 255,
        ;
    }
    let num: u32 = (c as u32) * (a as u32) + (bg as u32) * (255 - a as u32);
    (num / 255) as u8
}

/// Composite every semi-transparent pixel of an RGBA buffer over the
/// background colour, in place.
pub fn apply_background(data: &mut Vec<u8>, bg: Rgb)
    requires
        old(data)@.len() % 4 == 0,
    ensures
        final(data)@ == composited(old(data)@, bg),
{
    let len = data.len();
    let mut p: usize = 0;
    while 4 * p < len
        invariant
            len == data@.len(),
            len == old(data)@.len(),
            len % 4 == 0,
            4 * p <= len,
            forall|k: int| 0 <= k < 4 * p ==> data@[k] == composited(old(data)@, bg)[k],
            forall|k: int| 4 * p <= k < len ==> data@[k] == old(data)@[k],
        decreases len - 4 * p,
    {
        let base = 4 * p;
        let a = data[base + 3];
        if a != 255 {
            let ghost pre = data@;
            let r0 = blend_channel_exec(data[base], a, bg.r);
            let g0 = blend_channel_exec(data[base + 1], a, bg.g);
            let b0 = blend_channel_exec(data[base + 2], a, bg.b);
            data[base] = r0;
            data[base + 1] = g0;
            data[base + 2] = b0;
            data[base + 3] = 255;
            proof {
                assert(forall|k: int|
                    0 <= k < len && !(base <= k < base + 4) ==> data@[k] == pre[k]);
                assert(4 * ((base as int) / 4) == base && 4 * ((base + 1) / 4) == base && 4 * ((
                base + 2) / 4) == base && 4 * ((base + 3) / 4) == base) by (nonlinear_arith)
                    requires
                        (base as int) % 4 == 0,
                ;
                assert(data@[base as int] == composited(old(data)@, bg)[base as int]);
                assert(data@[base + 1] == composited(old(data)@, bg)[base + 1]);
                assert(data@[base + 2] == composited(old(data)@, bg)[base + 2]);
                assert(data@[base + 3] == composited(old(data)@, bg)[base + 3]);
            }
        } else {
            proof {
                assert(4 * ((base as int) / 4) == base && 4 * ((base + 1) / 4) == base && 4 * ((
                base + 2) / 4) == base && 4 * ((base + 3) / 4) == base) by (nonlinear_arith)
                    requires
                        (base as int) % 4 == 0,
                ;
                assert(data@[base as int] == composited(old(data)@, bg)[base as int]);
                assert(data@[base + 1] == composited(old(data)@, bg)[base + 1]);
                assert(data@[base + 2] == composited(old(data)@, bg)[base + 2]);
                assert(data@[base + 3] == composited(old(data)@, bg)[base + 3]);
            }
        }
        p = p + 1;
    }
}

/// What the PNG encoder produces for an RGBA buffer of the given size:
/// a pure function of its arguments, named rather than spelt out.
pub uninterp spec fn png_encoding(data: Seq<u8>, width: nat, height: nat) -> Seq<u8>;

/// Every PNG file opens with the eight-byte PNG signature.
pub open spec fn starts_with_png_signature(bytes: Seq<u8>) -> bool {
    &&& bytes.len() >= 8
    &&& bytes[0] == 137
    &&& bytes[1] == 80
    &&& bytes[2] == 78
    &&& bytes[3] == 71
    &&& bytes[4] == 13
    &&& bytes[5] == 10
    &&& bytes[6] == 26
    &&& bytes[7] == 10
}

/// Relies on png::Encoder driven with fixed settings (RGBA colour,
/// eight-bit depth, fast compression): the encoding is a deterministic
/// function of the pixel buffer and dimensions alone; the encoder first
/// writes the eight-byte PNG signature; and with nonzero dimensions and
/// a matching buffer length, writing into an in-memory buffer has no
/// failure path, so success is owed.
#[verifier::external_body]
fn encode_rgba_png(data: &Vec<u8>, width: u32, height: u32) -> (r: ConvResult<Vec<u8>>)
    requires
        data@.len() == 4 * width * height,
    ensures
        r matches Ok(bytes) ==> bytes@ == png_encoding(data@, width as nat, height as nat)
            && starts_with_png_signature(bytes@),
        r matches Err(e) ==> e matches ConversionError::PngEncodingError(_),
        width >= 1 && height >= 1 ==> r is Ok,
{
    let mut buffer = std::io::Cursor::new(Vec::new());
    let mut encoder = png::Encoder::new(&mut buffer, width, height);
    encoder.set_color(png::ColorType::Rgba);
    encoder.set_depth(png::BitDepth::Eight);
    encoder.set_compression(png::Compression::Fast);
    let mut writer = encoder
        .write_header()
        .map_err(|e| ConversionError::PngEncodingError(e.to_string()))?;
    writer
        .write_image_data(data)
        .map_err(|e| ConversionError::PngEncodingError(e.to_string()))?;
    drop(writer);
    Ok(buffer.into_inner())
}

/// One rasterized page as the host hands it in: a raw RGBA buffer and its
/// dimensions.
#[derive(Debug, Clone)]
pub struct RawPage {
    /// Width in pixels.
    pub width: u32,
    /// Height in pixels.
    pub height: u32,
    /// RGBA bytes, four per pixel.
    pub rgba: Vec<u8>,
}

impl RawPage {
    /// The buffer length matches the dimensions.
    pub open spec fn wf(&self) -> bool {
        self.rgba@.len() == 4 * self.width * self.height
    }
}

/// The pixel data a page's image is encoded from: the raw buffer when the
/// alpha channel is kept, otherwise the buffer composited over the
/// configured background.
pub open spec fn final_pixels(config: RenderConfig, raw: Seq<u8>) -> Seq<u8> {
    if config.use_alpha {
        raw
    } else {
        composited(raw, config.background_color)
    }
}

/// The rasterize/encode stage: holds the render configuration the
/// verified pixel pipeline runs under. The host pairs it with the loaded
/// rasterizer library.
#[derive(Debug, Clone)]
pub struct PdfRenderer {
    /// Render configuration.
    pub config: RenderConfig,
}

impl PdfRenderer {
    /// Create a new renderer over a validated configuration.
    pub fn new(config: RenderConfig) -> (r: ConvResult<PdfRenderer>)
        ensures
            config.valid() ==> (r matches Ok(p) && p.config == config),
            !config.valid() ==> (r matches Err(e) && e matches ConversionError::InvalidConfig(_)),
    {
        match config.validate() {
            Ok(_) => Ok(PdfRenderer { config }),
            Err(e) => Err(e),
        }
    }

    /// The configured resolution.
    pub fn dpi(&self) -> (r: u32)
        ensures
            r == self.config.dpi,
    {
        self.config.dpi
    }

    /// The pixel dimensions a page of the given point size is rasterized
    /// at under this configuration.
    pub fn target_size(&self, width_points: u32, height_points: u32) -> (r: (u32, u32))
        ensures
            r.0 == scaled_pixels(width_points, self.config.dpi),
            r.1 == scaled_pixels(height_points, self.config.dpi),
    {
        (scale_to_pixels(width_points, self.config.dpi), scale_to_pixels(
            height_points,
            self.config.dpi,
        ))
    }

    /// Composite (unless alpha is kept) and encode one rasterized page.
    /// The page number is 1-indexed.
    pub fn encode_page(&self, page_number: usize, raw: RawPage) -> (r: ConvResult<PngPage>)
        requires
            raw.wf(),
        ensures
            r matches Ok(p) ==> p.page_number == page_number && p.width == raw.width && p.height
                == raw.height && p.data@ == png_encoding(
                final_pixels(self.config, raw.rgba@),
                raw.width as nat,
                raw.height as nat,
            ) && starts_with_png_signature(p.data@) && p.output_path is None,
            r matches Err(e) ==> e matches ConversionError::PngEncodingError(_),
            raw.width >= 1 && raw.height >= 1 ==> r is Ok,
    {
        let RawPage { width, height, rgba } = raw;
        let mut pixels = rgba;
        if !self.config.use_alpha {
            proof {
                lemma_pixel_len(width, height);
            }
            apply_background(&mut pixels, self.config.background_color);
        }
        match encode_rgba_png(&pixels, width, height) {
            Ok(bytes) => {
                Ok(
                    PngPage {
                        page_number,
                        data: bytes,
                        width,
                        height,
                        output_path: None,
                    },
                )
            },
            Err(e) => Err(e),
        }
    }

    /// Composite and encode a whole document's rasterized pages, in page
    /// order: page `i` of the result is page `i + 1` of the document, so
    /// the output is ordered by page number. An empty document yields an
    /// empty result and no error; the first page that fails to encode
    /// fails the document.
    #[verifier::loop_isolation(false)]
    pub fn render_all_pages(&self, raw_pages: Vec<RawPage>) -> (r: ConvResult<Vec<PngPage>>)
        requires
            forall|i: int| 0 <= i < raw_pages@.len() ==> raw_pages@[i].wf(),
        ensures
            r matches Ok(pages) ==> pages@.len() == raw_pages@.len() && pages_match(
                self.config,
                pages@,
                raw_pages@,
                raw_pages@.len() as int,
            ),
            r matches Err(e) ==> e matches ConversionError::PngEncodingError(_),
            raw_pages@.len() == 0 ==> r is Ok,
            (forall|i: int|
                0 <= i < raw_pages@.len() ==> (#[trigger] raw_pages@[i]).width >= 1
                    && raw_pages@[i].height >= 1) ==> r is Ok,
    {
        let n = raw_pages.len();
        let mut pages: Vec<PngPage> = Vec::new();
        let mut raw_pages = raw_pages;
        let ghost all_raw = raw_pages@;
        let mut i: usize = 0;
        while i < n
            invariant
                raw_pages@ =~= all_raw.skip(i as int),
                n == all_raw.len(),
                i <= n,
                forall|j: int| 0 <= j < all_raw.len() ==> all_raw[j].wf(),
                pages@.len() == i,
                pages_match(self.config, pages@, all_raw, i as int),
            decreases n - i,
        {
            let raw = raw_pages.remove(0);
            proof {
                assert(all_raw.skip(i as int)[0] == all_raw[i as int]);
                assert(raw == all_raw[i as int]);
                assert(raw_pages@ =~= all_raw.skip(i as int + 1));
            }
            match self.encode_page(i + 1, raw) {
                Ok(p) => {
                    let ghost prev = pages@;
                    pages.push(p);
                    proof {
                        assert(page_matches(self.config, p, all_raw[i as int], i as int));
                        assert forall|j: int|
                            0 <= j < i + 1 implies #[trigger] page_matches(
                            self.config,
                            pages@[j],
                            all_raw[j],
                            j,
                        ) by {
                            if j < i {
                                assert(pages@[j] == prev[j]);
                                assert(page_matches(self.config, prev[j], all_raw[j], j));
                            } else {
                                assert(pages@[j] == p);
                            }
                        }
                    }
                },
                Err(e) => {
                    proof {
                        assert(!(all_raw[i as int].width >= 1 && all_raw[i as int].height >= 1));
                    }
                    return Err(e);
                },
            }
            i = i + 1;
        }
        Ok(pages)
    }
}

/// One encoded page agrees with the raw page it came from: numbered
/// `j + 1`, same dimensions, its data the PNG encoding of the (possibly
/// composited) pixels, not yet written to disk.
pub open spec fn page_matches(config: RenderConfig, p: PngPage, raw: RawPage, j: int) -> bool {
    &&& p.page_number == j + 1
    &&& p.width == raw.width
    &&& p.height == raw.height
    &&& p.data@ == png_encoding(final_pixels(config, raw.rgba@), raw.width as nat, raw.height as nat)
    &&& starts_with_png_signature(p.data@)
    &&& p.output_path is None
}

/// Every encoded page up to `n` agrees with its raw page.
pub open spec fn pages_match(config: RenderConfig, pages: Seq<PngPage>, raw: Seq<RawPage>, n: int) -> bool {
    forall|j: int| 0 <= j < n ==> #[trigger] page_matches(config, pages[j], raw[j], j)
}

/// The consumption state of a lazy page sequence: finite, its length
/// known up front, never restartable once advanced. The host pairs it
/// with the open document handle and rasterizes one page per step, so a
/// caller can consume page one before the last page exists.
#[derive(Debug, Clone, Copy, PartialEq, Eq, Structural)]
pub struct PageCursor {
    /// Index of the next page to produce (0-based).
    pub current_page: usize,
    /// Total number of pages in the document.
    pub total_pages: usize,
}

impl PageCursor {
    /// A cursor over a document of `total_pages` pages, positioned at the
    /// first.
    pub fn new(total_pages: usize) -> (c: Self)
        ensures
            c.current_page == 0,
            c.total_pages == total_pages,
    {
        PageCursor { current_page: 0, total_pages }
    }

    /// Step to the next page: yields each 0-based index exactly once, in
    /// order, then `None` forever.
    pub fn advance(&mut self) -> (r: Option<usize>)
        ensures
            final(self).total_pages == old(self).total_pages,
            old(self).current_page < old(self).total_pages ==> (r == Some(old(self).current_page)
                && final(self).current_page == old(self).current_page + 1),
            old(self).current_page >= old(self).total_pages ==> r is None
                && final(self).current_page == old(self).current_page,
    {
        if self.current_page >= self.total_pages {
            return None;
        }
        let page = self.current_page;
        self.current_page = self.current_page + 1;
        Some(page)
    }

    /// How many pages are still to come.
    pub fn remaining(&self) -> (r: usize)
        ensures
            r == if self.current_page < self.total_pages {
                self.total_pages - self.current_page
            } else {
                0
            },
    {
        if self.current_page < self.total_pages {
            self.total_pages - self.current_page
        } else {
            0
        }
    }
}

/// The output file name for one page: `<prefix>_page_<NNNN>.png`, the
/// page number 1-indexed and zero-padded to at least four digits.
pub open spec fn page_file_name(prefix: Seq<char>, page_number: nat) -> Seq<char> {
    prefix + "_page_"@ + padded4(page_number) + ".png"@
}

/// A page number zero-padded to at least four decimal digits.
pub open spec fn padded4(n: nat) -> Seq<char> {
    if n < 10 {
        "000"@ + text::dec_rep(n)
    } else if n < 100 {
        "00"@ + text::dec_rep(n)
    } else if n < 1000 {
        "0"@ + text::dec_rep(n)
    } else {
        text::dec_rep(n)
    }
}

/// Build the output file name for one page.
pub fn output_filename(prefix: &str, page_number: usize) -> (r: String)
    ensures
        r@ == page_file_name(prefix@, page_number as nat),
{
    let mut s = String::from_str(prefix);
    s.append("_page_");
    if page_number < 10 {
        s.append("000");
    } else if page_number < 100 {
        s.append("00");
    } else if page_number < 1000 {
        s.append("0");
    }
    let digits = text::usize_to_string(page_number);
    s.append(digits.as_str());
    s.append(".png");
    proof {
        assert(s@ =~= page_file_name(prefix@, page_number as nat));
    }
    s
}

/// Record on every page the path it is saved under:
/// `<dir>/<prefix>_page_<NNNN>.png`. Nothing else about a page changes;
/// the host then writes each page's data to exactly that path.
pub fn assign_output_paths(pages: &mut Vec<PngPage>, output_dir: &str, prefix: &str)
    ensures
        final(pages)@.len() == old(pages)@.len(),
        forall|i: int|
            0 <= i < old(pages)@.len() ==> (#[trigger] final(pages)@[i]).page_number == old(pages)@[i].page_number && final(pages)@[i].data == old(pages)@[i].data && final(pages)@[i].width == old(pages)@[i].width && final(pages)@[i].height == old(pages)@[i].height && (final(pages)@[i].output_path matches Some(s) && s@ == output_dir@
                + "/"@ + page_file_name(prefix@, old(pages)@[i].page_number as nat)),
{
    let n = pages.len();
    let mut i: usize = 0;
    while i < n
        invariant
            n == pages@.len(),
            n == old(pages)@.len(),
            i <= n,
            forall|j: int| i <= j < n ==> pages@[j] == old(pages)@[j],
            forall|j: int|
                0 <= j < i ==> (#[trigger] pages@[j]).page_number == old(pages)@[j].page_number
                    && pages@[j].data == old(pages)@[j].data && pages@[j].width == old(pages)@[j].width && pages@[j].height == old(pages)@[j].height && (
                pages@[j].output_path matches Some(s) && s@ == output_dir@ + "/"@ + page_file_name(
                    prefix@,
                    old(pages)@[j].page_number as nat,
                )),
        decreases n - i,
    {
        let name = output_filename(prefix, pages[i].page_number);
        let mut full = String::from_str(output_dir);
        full.append("/");
        full.append(name.as_str());
        let page = &mut pages[i];
        page.output_path = Some(full);
        i = i + 1;
    }
}

/// The recorded output paths of a page list, in page order, skipping
/// pages that were never saved.
pub open spec fn saved_paths(pages: Seq<PngPage>) -> Seq<String>
    decreases pages.len(),
{
    if pages.len() == 0 {
        Seq::empty()
    } else {
        saved_paths(pages.drop_last()) + match pages.last().output_path {
            Some(p) => seq![p],
            None => Seq::empty(),
        }
    }
}

/// Collect the recorded output paths of a page list, in page order.
pub fn collect_output_paths(pages: &Vec<PngPage>) -> (r: Vec<String>)
    ensures
        r@ == saved_paths(pages@),
{
    let n = pages.len();
    let mut r: Vec<String> = Vec::new();
    let mut i: usize = 0;
    while i < n
        invariant
            n == pages@.len(),
            i <= n,
            r@ == saved_paths(pages@.take(i as int)),
        decreases n - i,
    {
        proof {
            assert(pages@.take(i as int + 1).drop_last() =~= pages@.take(i as int));
            assert(pages@.take(i as int + 1).last() == pages@[i as int]);
        }
        match &pages[i].output_path {
            Some(p) => {
                r.push(p.clone());
            },
            None => (),
        }
        i = i + 1;
    }
    proof {
        assert(pages@.take(n as int) =~= pages@);
    }
    r
}

/// A wf raw page's buffer length is a multiple of four.
proof fn lemma_pixel_len(width: u32, height: u32)
    ensures
        (4 * width * height) as int % 4 == 0,
{
    lemma_mul_is_associative(4, width as int, height as int);
    lemma_mul_is_commutative(4, (width as int) * (height as int));
    lemma_mod_multiples_basic((width as int) * (height as int), 4);
}

} // verus!
