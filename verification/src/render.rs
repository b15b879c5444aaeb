//! Read-only renderings of a generated field: an aligned text grid, a
//! grayscale pixel buffer, and a PNG data URI.
//!
//! Every cell value is clamped between zero and one on read and rescaled —
//! into the declared height range for text, onto a byte for pixels. A field
//! that was never generated renders as empty text and an all-zero buffer.

use crate::field::FieldError;
use crate::field::HeightField;
use crate::scalar::add_bits;
use crate::scalar::byte_of_bits;
use crate::scalar::clamp01_bits;
use crate::scalar::fixed1_text;
use crate::scalar::log10_usize_of;
use crate::scalar::mul_bits;
use crate::scalar::scalar_add;
use crate::scalar::scalar_clamp01;
use crate::scalar::scalar_format_fixed1;
use crate::scalar::scalar_log10_usize;
use crate::scalar::scalar_mul;
use crate::scalar::scalar_sub;
use crate::scalar::scalar_to_byte;
use crate::scalar::sub_bits;
use crate::scalar::MAX_BYTE_BITS;
use vstd::arithmetic::div_mod::lemma_fundamental_div_mod;
use vstd::arithmetic::div_mod::lemma_fundamental_div_mod_converse;
use vstd::prelude::*;
use vstd::string::StringExecFns;

verus! {

/// The text the base64 coder yields for the given bytes, standard alphabet.
pub uninterp spec fn base64_text(bytes: Seq<u8>) -> Seq<char>;

/// The PNG serialization of an equal-channel pixel buffer with the given
/// dimensions.
pub uninterp spec fn png_bytes(pixels: Seq<u8>, w: int, h: int) -> Seq<u8>;

/// A cell's value on read: clamped between zero and one, then rescaled into
/// the declared height range.
pub open spec fn normalized_cell_bits(f: HeightField, i: int) -> u32 {
    add_bits(
        mul_bits(clamp01_bits(f.spec_data()[i]), sub_bits(f.spec_max_bits(), f.spec_min_bits())),
        f.spec_min_bits(),
    )
}

/// Width each table cell is right-aligned to, derived from the magnitude of
/// the range's upper bound (saturating at the machine's limit).
pub open spec fn cell_width_of(f: HeightField) -> int {
    if (log10_usize_of(f.spec_max_bits()) as int) + 3 <= usize::MAX as int {
        (log10_usize_of(f.spec_max_bits()) as int) + 3
    } else {
        usize::MAX as int
    }
}

/// What the table holds for cell i: its aligned text, then a row break after
/// the last cell of every row but the final one, else a single space.
pub open spec fn cell_chunk(f: HeightField, i: int) -> Seq<char> {
    fixed1_text(normalized_cell_bits(f, i), cell_width_of(f)) + (if (i + 1) % f.spec_width() == 0
        && i + 1 != f.spec_data().len() {
        seq!['\r', '\n']
    } else {
        seq![' ']
    })
}

/// The table text of the first n cells.
pub open spec fn table_text_upto(f: HeightField, n: int) -> Seq<char>
    decreases n,
{
    if n <= 0 {
        Seq::empty()
    } else {
        table_text_upto(f, n - 1) + cell_chunk(f, n - 1)
    }
}

/// The whole table text: empty for a field that was never generated.
pub open spec fn table_text(f: HeightField) -> Seq<char> {
    table_text_upto(f, f.spec_data().len() as int)
}

/// How many carriage returns a text holds.
pub open spec fn cr_count(s: Seq<char>) -> int
    decreases s.len(),
{
    if s.len() == 0 {
        0
    } else {
        cr_count(s.drop_last()) + if s.last() == '\r' {
            1int
        } else {
            0int
        }
    }
}

/// How many row breaks stand after the first i cells of a grid of n cells
/// and row length w: one after each completed row but the last.
pub open spec fn break_count_upto(w: int, n: int, i: int) -> int
    decreases i,
{
    if i <= 0 {
        0
    } else {
        break_count_upto(w, n, i - 1) + if i % w == 0 && i != n {
            1int
        } else {
            0int
        }
    }
}

proof fn lemma_cr_count_concat(a: Seq<char>, b: Seq<char>)
    ensures
        cr_count(a + b) == cr_count(a) + cr_count(b),
    decreases b.len(),
{
    if b.len() == 0 {
        assert(a + b =~= a);
    } else {
        assert((a + b).drop_last() =~= a + b.drop_last());
        lemma_cr_count_concat(a, b.drop_last());
    }
}

proof fn lemma_cr_count_none(s: Seq<char>)
    requires
        forall|i: int| 0 <= i < s.len() ==> s[i] != '\r',
    ensures
        cr_count(s) == 0,
    decreases s.len(),
{
    if s.len() > 0 {
        lemma_cr_count_none(s.drop_last());
    }
}

proof fn lemma_break_count_prefix(w: int, n: int, i: int)
    requires
        1 <= w,
        0 <= i < n,
    ensures
        break_count_upto(w, n, i) == i / w,
    decreases i,
{
    if i == 0 {
    } else {
        lemma_break_count_prefix(w, n, i - 1);
        lemma_fundamental_div_mod(i, w);
        if i % w == 0 {
            assert((i / w - 1) * w + (w - 1) == i - 1) by (nonlinear_arith)
                requires
                    i == w * (i / w) + i % w,
                    i % w == 0,
            ;
            lemma_fundamental_div_mod_converse(i - 1, w, i / w - 1, w - 1);
        } else {
            assert((i / w) * w + (i % w - 1) == i - 1) by (nonlinear_arith)
                requires
                    i == w * (i / w) + i % w,
            ;
            lemma_fundamental_div_mod_converse(i - 1, w, i / w, i % w - 1);
        }
    }
}

proof fn lemma_break_count_total(w: int, h: int)
    requires
        1 <= w,
        1 <= h,
    ensures
        break_count_upto(w, w * h, w * h) == h - 1,
{
    let n = w * h;
    assert(1 <= w * h) by (nonlinear_arith)
        requires
            1 <= w,
            1 <= h,
    ;
    lemma_break_count_prefix(w, n, n - 1);
    assert((h - 1) * w + (w - 1) == w * h - 1) by (nonlinear_arith);
    lemma_fundamental_div_mod_converse(n - 1, w, h - 1, w - 1);
}

/// The grayscale buffer: three equal channels per cell, row-major, each the
/// cell's clamped value scaled onto a byte; all zero when never generated.
pub open spec fn pixel_data(f: HeightField) -> Seq<u8> {
    Seq::new(
        (3 * f.spec_width() * f.spec_height()) as nat,
        |j: int|
            if f.is_generated() {
                byte_of_bits(mul_bits(clamp01_bits(f.spec_data()[j / 3]), MAX_BYTE_BITS))
            } else {
                0u8
            },
    )
}

impl HeightField {
    /// Every cell's value on read: clamped and rescaled into the height
    /// range, in iteration order. Empty until the field is generated.
    pub fn normalized_heights(&self) -> (r: Vec<u32>)
        requires
            self.wf(),
        ensures
            r@.len() == self.spec_data().len(),
            forall|i: int| 0 <= i < r@.len() ==> r@[i] == normalized_cell_bits(*self, i),
    {
        let range = scalar_sub(self.max_bits, self.min_bits);
        let n = self.data.len();
        let mut r: Vec<u32> = Vec::new();
        let mut i: usize = 0;
        while i < n
            invariant
                i <= n,
                n == self.spec_data().len(),
                r@.len() == i,
                range == sub_bits(self.spec_max_bits(), self.spec_min_bits()),
                forall|j: int| 0 <= j < i ==> r@[j] == normalized_cell_bits(*self, j),
            decreases n - i,
        {
            let v = scalar_add(scalar_mul(scalar_clamp01(self.data[i]), range), self.min_bits);
            r.push(v);
            i += 1;
        }
        r
    }

    /// Renders the field as text: one line per row, cells right-aligned with
    /// one fractional digit, rows separated by a carriage return and line
    /// feed. The text is a function of the field alone, so repeated calls
    /// yield identical text; it is empty until the field is generated, and a
    /// generated field's text holds exactly one separator per completed row:
    /// height minus one carriage returns (cells themselves hold none).
    pub fn to_table(&self) -> (r: String)
        requires
            self.wf(),
        ensures
            r@ == table_text(*self),
            cr_count(r@) == if self.is_generated() {
                self.spec_height() - 1
            } else {
                0
            },
    {
        let w = self.width;
        let pad = scalar_log10_usize(self.max_bits);
        let cw = if pad <= usize::MAX - 3 {
            pad + 3
        } else {
            usize::MAX
        };
        let range = scalar_sub(self.max_bits, self.min_bits);
        let n = self.data.len();
        let mut s = String::new();
        let mut i: usize = 0;
        while i < n
            invariant
                i <= n,
                n == self.spec_data().len(),
                w == self.spec_width(),
                1 <= w,
                cw as int == cell_width_of(*self),
                range == sub_bits(self.spec_max_bits(), self.spec_min_bits()),
                s@ == table_text_upto(*self, i as int),
                cr_count(s@) == break_count_upto(w as int, n as int, i as int),
            decreases n - i,
        {
            let v = scalar_add(scalar_mul(scalar_clamp01(self.data[i]), range), self.min_bits);
            let cell = scalar_format_fixed1(v, cw);
            let ghost s0 = s@;
            s.append(cell.as_str());
            let ghost s1 = s@;
            if (i + 1) % w == 0 && i + 1 != n {
                s.append("\r\n");
            } else {
                s.append(" ");
            }
            proof {
                reveal_strlit(" ");
                reveal_strlit("\r\n");
                assert(" "@ =~= seq![' ']);
                assert("\r\n"@ =~= seq!['\r', '\n']);
                lemma_cr_count_concat(s0, cell@);
                lemma_cr_count_none(cell@);
                if ((i as int) + 1) % (w as int) == 0 && (i as int) + 1 != n as int {
                    lemma_cr_count_concat(s1, "\r\n"@);
                    assert(seq!['\r', '\n'].drop_last() =~= seq!['\r']);
                    assert(seq!['\r'].drop_last() =~= Seq::<char>::empty());
                    assert(cr_count(Seq::<char>::empty()) == 0);
                    assert(cr_count(seq!['\r']) == 1);
                    assert(cr_count(seq!['\r', '\n']) == 1);
                    assert(cr_count("\r\n"@) == 1);
                } else {
                    lemma_cr_count_concat(s1, " "@);
                    lemma_cr_count_none(" "@);
                }
                assert(s@ =~= table_text_upto(*self, i as int + 1));
                assert(cr_count(s@) == break_count_upto(w as int, n as int, i as int + 1));
            }
            i += 1;
        }
        proof {
            if n != 0 {
                lemma_break_count_total(w as int, self.spec_height());
            }
        }
        s
    }

    /// The grayscale rendering: a row-major buffer of three equal channels
    /// per cell, the field's exact dimensions, all zero until generated.
    pub fn to_pixels(&self) -> (r: Vec<u8>)
        requires
            self.wf(),
        ensures
            r@ == pixel_data(*self),
    {
        let w = self.width;
        let h = self.height;
        proof {
            assert(3 * ((w as int) * (h as int)) == 3 * (w as int) * (h as int)) by (nonlinear_arith);
            assert(1 <= (w as int) * (h as int)) by (nonlinear_arith)
                requires
                    1 <= w,
                    1 <= h,
            ;
        }
        let n = w * h;
        let total = 3 * n;
        let mut r: Vec<u8> = Vec::new();
        if self.data.len() == n {
            let mut i: usize = 0;
            while i < n
                invariant
                    i <= n,
                    n == self.spec_data().len(),
                    self.is_generated(),
                    3 * n == pixel_data(*self).len(),
                    r@.len() == 3 * i,
                    forall|j: int| 0 <= j < 3 * i ==> r@[j] == pixel_data(*self)[j],
                decreases n - i,
            {
                let c = scalar_to_byte(scalar_mul(scalar_clamp01(self.data[i]), MAX_BYTE_BITS));
                r.push(c);
                r.push(c);
                r.push(c);
                proof {
                    lemma_fundamental_div_mod_converse(3 * (i as int), 3, i as int, 0);
                    lemma_fundamental_div_mod_converse(3 * (i as int) + 1, 3, i as int, 1);
                    lemma_fundamental_div_mod_converse(3 * (i as int) + 2, 3, i as int, 2);
                }
                i += 1;
            }
            proof {
                assert(r@ =~= pixel_data(*self));
            }
        } else {
            let mut j: usize = 0;
            while j < total
                invariant
                    j <= total,
                    total == pixel_data(*self).len(),
                    !self.is_generated(),
                    r@.len() == j,
                    forall|t: int| 0 <= t < j ==> r@[t] == 0u8,
                decreases total - j,
            {
                r.push(0u8);
                j += 1;
            }
            proof {
                assert(r@ =~= pixel_data(*self));
            }
        }
        r
    }

    /// Renders the field as a PNG image embedded in a data URI. For a
    /// well-formed field the encoding always succeeds; the error variant
    /// stands only for the taxonomy's encoder-failure case, which the
    /// contract of the encoder rules out here.
    pub fn to_data_uri(&self) -> (r: Result<String, FieldError>)
        requires
            self.wf(),
            self.spec_width() <= u32::MAX as int,
            self.spec_height() <= u32::MAX as int,
        ensures
            r is Ok,
            r matches Ok(s) ==> s@ == "data:image/png;base64,"@ + base64_text(
                png_bytes(pixel_data(*self), self.spec_width(), self.spec_height()),
            ),
    {
        let pixels = self.to_pixels();
        proof {
            assert(pixels@.len() == 3 * self.spec_width() * self.spec_height());
        }
        match encode_png(self.width, self.height, &pixels) {
            Some(png) => {
                let b = encode_base64(&png);
                let mut s = "data:image/png;base64,".to_owned();
                s.append(b.as_str());
                Ok(s)
            },
            None => Err(FieldError::RenderFailed),
        }
    }
}

/// Relies on image's RgbImage::from_raw and write_to with the PNG format:
/// from_raw accepts any buffer of exactly three bytes per cell, and encoding
/// a positive-dimension image into an in-memory cursor does not fail, so the
/// call yields the PNG serialization of the given buffer, a function of
/// buffer and dimensions alone.
#[verifier::external_body]
fn encode_png(w: usize, h: usize, pixels: &Vec<u8>) -> (r: Option<Vec<u8>>)
    requires
        1 <= w,
        1 <= h,
        w <= u32::MAX as int,
        h <= u32::MAX as int,
        pixels@.len() == 3 * w * h,
    ensures
        r is Some,
        r matches Some(png) ==> png@ == png_bytes(pixels@, w as int, h as int),
{
    let img = match image::RgbImage::from_raw(w as _, h as _, pixels.clone()) {
        Some(i) => i,
        None => return None,
    };
    let mut out: Vec<u8> = Vec::new();
    match img.write_to(&mut std::io::Cursor::new(&mut out), image::ImageOutputFormat::Png) {
        Ok(()) => Some(out),
        Err(_) => None,
    }
}

/// Relies on base64::encode: the standard-alphabet, padded encoding of the
/// given bytes, a function of the bytes alone, four characters for every
/// three bytes rounded up.
#[verifier::external_body]
fn encode_base64(bytes: &Vec<u8>) -> (r: String)
    ensures
        r@ == base64_text(bytes@),
        r@.len() == 4 * ((bytes@.len() + 2) / 3),
{
    base64::encode(bytes.as_slice())
}

/// Idempotent rendering: the table text is a function of the field alone, so
/// two renderings of one field are the same text.
pub proof fn lemma_rendering_idempotent(f: HeightField, s1: Seq<char>, s2: Seq<char>)
    requires
        s1 == table_text(f),
        s2 == table_text(f),
    ensures
        s1 == s2,
{
}

} // verus!
