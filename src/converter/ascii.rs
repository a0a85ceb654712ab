//! ASCII art to PNG.
//!
//! Each character of the text becomes one luma sample, by the symbol table.
//! The raster is then scaled up to a viewable size, narrowed by half because
//! fonts draw characters taller than wide, and encoded as PNG.

use vstd::prelude::*;
use crate::converter::codec::{encode_png, png_encoding, resize_triangle, triangle_resize};
use crate::converter::dimension::{scaled_up, Dimension};
use crate::converter::raster::Raster;
use crate::converter::symbol_map::{
    brightness_at,
    brightness_for_symbol,
    is_symbol,
    position_of,
};
use crate::converter::ConvertError;

verus! {

/// The least size, in pixels, of the larger side of an image made from ASCII art.
pub const MIN_IMAGE_DIMENSION: u32 = 500;

/// Reading `s` one character at a time: the lines finished so far and the
/// line being read.
pub open spec fn line_scan(s: Seq<char>) -> (Seq<Seq<char>>, Seq<char>)
    decreases s.len(),
{
    if s.len() == 0 {
        (Seq::empty(), Seq::empty())
    } else {
        let (done, cur) = line_scan(s.drop_last());
        if s.last() == '\n' {
            (done.push(without_carriage_return(cur)), Seq::empty())
        } else {
            (done, cur.push(s.last()))
        }
    }
}

/// A line with a `\r` at its end dropped.
pub open spec fn without_carriage_return(line: Seq<char>) -> Seq<char> {
    if line.len() > 0 && line.last() == '\r' {
        line.drop_last()
    } else {
        line
    }
}

/// The lines of `s`: split at each `\n`, with a `\r` just before it dropped;
/// a final `\n` starts no further line.
pub open spec fn lines_of(s: Seq<char>) -> Seq<Seq<char>> {
    let (done, cur) = line_scan(s);
    if cur.len() == 0 {
        done
    } else {
        done.push(cur)
    }
}

/// The length of the longest line.
pub open spec fn longest_line(ls: Seq<Seq<char>>) -> nat
    decreases ls.len(),
{
    if ls.len() == 0 {
        0
    } else {
        let m = longest_line(ls.drop_last());
        if ls.last().len() > m {
            ls.last().len()
        } else {
            m
        }
    }
}

/// The first character of `cs` that is not in the symbol table.
pub open spec fn first_unknown(cs: Seq<char>) -> Option<char>
    decreases cs.len(),
{
    if cs.len() == 0 {
        None
    } else {
        match first_unknown(cs.drop_last()) {
            Some(c) => Some(c),
            None => if is_symbol(cs.last()) {
                None
            } else {
                Some(cs.last())
            },
        }
    }
}

/// The first character, line by line, that is not in the symbol table.
pub open spec fn first_unknown_line(ls: Seq<Seq<char>>) -> Option<char>
    decreases ls.len(),
{
    if ls.len() == 0 {
        None
    } else {
        match first_unknown_line(ls.drop_last()) {
            Some(c) => Some(c),
            None => first_unknown(ls.last()),
        }
    }
}

/// The brightness of a character of the table.
pub open spec fn symbol_brightness(c: char) -> u8 {
    brightness_at(position_of(c)) as u8
}

/// One raster row of `width` samples for a line: the brightness of each
/// character, then zero where the line is shorter.
pub open spec fn pixel_row(line: Seq<char>, width: nat) -> Seq<u8> {
    Seq::new(width, |x: int| if x < line.len() { symbol_brightness(line[x]) } else { 0u8 })
}

/// The raster rows of all lines, one after another.
pub open spec fn raster_rows(ls: Seq<Seq<char>>, width: nat) -> Seq<u8>
    decreases ls.len(),
{
    if ls.len() == 0 {
        Seq::empty()
    } else {
        raster_rows(ls.drop_last(), width) + pixel_row(ls.last(), width)
    }
}

/// The size of the image made from lines `ls`: scaled up so that the larger
/// side is at least the minimum, then with the width halved.
pub open spec fn output_size(ls: Seq<Seq<char>>) -> (u32, u32) {
    let (w, h) = scaled_up(longest_line(ls) as u32, ls.len() as u32, MIN_IMAGE_DIMENSION);
    (w / 2, h)
}

/// Whether the buffers that resampling needs fit in memory.
pub open spec fn resample_fits(ls: Seq<Seq<char>>) -> bool {
    let (w, h) = output_size(ls);
    &&& longest_line(ls) * h * 4 <= usize::MAX
    &&& w * h * 4 <= usize::MAX
}

/// The PNG file made from lines `ls` that are all in the symbol table, or
/// `None` where the encoder refuses the raster.
pub open spec fn image_of_lines(ls: Seq<Seq<char>>) -> Option<Seq<u8>> {
    let (w, h) = output_size(ls);
    let pixels = triangle_resize(
        raster_rows(ls, longest_line(ls)),
        longest_line(ls) as u32,
        ls.len() as u32,
        w,
        h,
    );
    png_encoding(pixels, w, h)
}

/// What converting text `s` to an image may give: the first character not
/// in the symbol table fails the conversion; an image too large for memory,
/// or one with no columns or no rows, is a write error; otherwise the
/// conversion succeeds with the PNG file made from the lines.
pub open spec fn converted_image(s: Seq<char>, r: Result<Vec<u8>, ConvertError>) -> bool {
    let ls = lines_of(s);
    match first_unknown_line(ls) {
        Some(c) => r == Err::<Vec<u8>, ConvertError>(ConvertError::UnknownASCIISymbol(c)),
        None => if !resample_fits(ls) || output_size(ls).0 == 0 || output_size(ls).1 == 0 {
            r == Err::<Vec<u8>, ConvertError>(ConvertError::WriteError)
        } else {
            r matches Ok(b) && image_of_lines(ls) == Some(b@)
        },
    }
}

/// Converting the same text twice gives the same outcome: both succeed with
/// the same PNG file, or both fail with the same error.
pub proof fn lemma_image_conversion_deterministic(
    s: Seq<char>,
    r1: Result<Vec<u8>, ConvertError>,
    r2: Result<Vec<u8>, ConvertError>,
)
    requires
        converted_image(s, r1),
        converted_image(s, r2),
    ensures
        r1 is Ok <==> r2 is Ok,
        r1 is Ok ==> r1->Ok_0@ == r2->Ok_0@,
        r1 is Err ==> r1 == r2,
{
}

/// ASCII art text to be converted to an image.
pub struct Ascii<'a> {
    /// The ASCII art.
    data: &'a str,
}

impl<'a> Ascii<'a> {
    /// The text held.
    pub closed spec fn text(&self) -> Seq<char> {
        self.data@
    }

    /// Hold `data` for conversion.
    pub fn new(data: &'a str) -> (r: Ascii<'a>)
        ensures
            r.text() == data@,
    {
        Ascii { data }
    }

    /// The size of the text: the length of its longest line and the number of lines.
    pub fn get_dimensions(&self) -> (r: Dimension)
        requires
            self.text().len() <= u32::MAX,
        ensures
            r.width == longest_line(lines_of(self.text())),
            r.height == lines_of(self.text()).len(),
    {
        let lines = split_lines(self.data);
        dimension_of_lines(&lines, Ghost(self.data@))
    }

    /// Convert the text to a PNG image.
    ///
    /// The first character, line by line, that is not in the symbol table
    /// gives [`ConvertError::UnknownASCIISymbol`]; an image with no columns or no
    /// rows, or one too large for memory, gives
    /// [`ConvertError::WriteError`].
    pub fn convert_to_image(&self) -> (r: Result<Vec<u8>, ConvertError>)
        requires
            self.text().len() <= u32::MAX,
        ensures
            converted_image(self.text(), r),
    {
        let lines = split_lines(self.data);
        let ghost ls = line_views(lines@);
        let mut dimension = dimension_of_lines(&lines, Ghost(self.data@));
        let raster = match fill_raster(&lines, dimension.width) {
            Ok(pixels) => Raster { width: dimension.width, height: dimension.height, pixels },
            Err(e) => return Err(e),
        };
        proof {
            let (w, h) = (raster.width as int, raster.height as int);
            lemma_raster_rows_len(ls, w as nat);
            assert(ls.len() * w == w * h) by (nonlinear_arith)
                requires
                    ls.len() == h,
            ;
        }
        dimension.scale_up(MIN_IMAGE_DIMENSION);
        // fonts draw characters taller than wide
        let new_width = dimension.width / 2;
        let new_height = dimension.height;
        proof {
            assert(raster.width as int * new_height as int <= u64::MAX) by (nonlinear_arith);
            assert(new_width as int * new_height as int <= u64::MAX) by (nonlinear_arith);
        }
        let source_cells: u64 = raster.width as u64 * new_height as u64;
        let target_cells: u64 = new_width as u64 * new_height as u64;
        if source_cells > usize::MAX as u64 / 4 || target_cells > usize::MAX as u64 / 4 {
            return Err(ConvertError::WriteError);
        }
        let resized = resize_triangle(&raster, new_width, new_height);
        match encode_png(&resized) {
            Ok(bytes) => Ok(bytes),
            Err(_) => Err(ConvertError::WriteError),
        }
    }
}

/// The contents of each line.
pub open spec fn line_views(v: Seq<Vec<char>>) -> Seq<Seq<char>> {
    v.map_values(|l: Vec<char>| l@)
}

fn chars_of(s: &str) -> (r: Vec<char>)
    ensures
        r@ == s@,
{
    let mut cs: Vec<char> = Vec::new();
    for c in it: s.chars()
        invariant
            cs@ == it.seq().take(it.index() as int),
    {
        cs.push(c);
    }
    cs
}

fn split_lines(s: &str) -> (r: Vec<Vec<char>>)
    ensures
        line_views(r@) == lines_of(s@),
{
    let cs = chars_of(s);
    let mut lines: Vec<Vec<char>> = Vec::new();
    let mut cur: Vec<char> = Vec::new();
    let mut i: usize = 0;
    while i < cs.len()
        invariant
            i <= cs.len(),
            cs@ == s@,
            (line_views(lines@), cur@) == line_scan(s@.take(i as int)),
        decreases cs.len() - i,
    {
        let c = cs[i];
        assert(s@.take(i + 1).drop_last() == s@.take(i as int));
        if c == '\n' {
            let n = cur.len();
            if n > 0 && cur[n - 1] == '\r' {
                cur.pop();
            }
            let ghost before = line_views(lines@);
            lines.push(cur);
            assert(line_views(lines@) =~= before.push(cur@));
            cur = Vec::new();
        } else {
            cur.push(c);
        }
        i += 1;
    }
    assert(s@.take(cs.len() as int) == s@);
    if cur.len() > 0 {
        let ghost before = line_views(lines@);
        lines.push(cur);
        assert(line_views(lines@) =~= before.push(cur@));
    }
    lines
}

proof fn lemma_line_scan_bounded(s: Seq<char>)
    ensures
        line_scan(s).0.len() + line_scan(s).1.len() <= s.len(),
        forall|k: int| 0 <= k < line_scan(s).0.len() ==> #[trigger] line_scan(s).0[k].len() <= s.len(),
    decreases s.len(),
{
    if s.len() > 0 {
        lemma_line_scan_bounded(s.drop_last());
    }
}

proof fn lemma_lines_bounded(s: Seq<char>)
    ensures
        lines_of(s).len() <= s.len(),
        forall|k: int| 0 <= k < lines_of(s).len() ==> #[trigger] lines_of(s)[k].len() <= s.len(),
{
    lemma_line_scan_bounded(s);
}

proof fn lemma_longest_line_bounded(ls: Seq<Seq<char>>, b: nat)
    requires
        forall|k: int| 0 <= k < ls.len() ==> #[trigger] ls[k].len() <= b,
    ensures
        longest_line(ls) <= b,
    decreases ls.len(),
{
    if ls.len() > 0 {
        lemma_longest_line_bounded(ls.drop_last(), b);
    }
}

proof fn lemma_longest_line_is_max(ls: Seq<Seq<char>>)
    ensures
        forall|k: int| 0 <= k < ls.len() ==> #[trigger] ls[k].len() <= longest_line(ls),
    decreases ls.len(),
{
    if ls.len() > 0 {
        lemma_longest_line_is_max(ls.drop_last());
        assert forall|k: int| 0 <= k < ls.len() implies #[trigger] ls[k].len() <= longest_line(ls) by {
            if k < ls.len() - 1 {
                assert(ls[k] == ls.drop_last()[k]);
            }
        }
    }
}

proof fn lemma_raster_rows_len(ls: Seq<Seq<char>>, width: nat)
    ensures
        raster_rows(ls, width).len() == ls.len() * width,
    decreases ls.len(),
{
    if ls.len() > 0 {
        lemma_raster_rows_len(ls.drop_last(), width);
        assert((ls.len() - 1) * width + width == ls.len() * width) by (nonlinear_arith);
    }
}

proof fn lemma_first_unknown_prefix(cs: Seq<char>, n: int)
    requires
        0 <= n <= cs.len(),
        first_unknown(cs.take(n)) is Some,
    ensures
        first_unknown(cs) == first_unknown(cs.take(n)),
    decreases cs.len(),
{
    if n < cs.len() {
        assert(cs.drop_last().take(n) == cs.take(n));
        lemma_first_unknown_prefix(cs.drop_last(), n);
    } else {
        assert(cs.take(n) == cs);
    }
}

proof fn lemma_first_unknown_line_prefix(ls: Seq<Seq<char>>, n: int)
    requires
        0 <= n <= ls.len(),
        first_unknown_line(ls.take(n)) is Some,
    ensures
        first_unknown_line(ls) == first_unknown_line(ls.take(n)),
    decreases ls.len(),
{
    if n < ls.len() {
        assert(ls.drop_last().take(n) == ls.take(n));
        lemma_first_unknown_line_prefix(ls.drop_last(), n);
    } else {
        assert(ls.take(n) == ls);
    }
}

fn dimension_of_lines(lines: &Vec<Vec<char>>, Ghost(text): Ghost<Seq<char>>) -> (r: Dimension)
    requires
        line_views(lines@) == lines_of(text),
        text.len() <= u32::MAX,
    ensures
        r.width == longest_line(lines_of(text)),
        r.height == lines_of(text).len(),
{
    let ghost ls = line_views(lines@);
    proof {
        lemma_lines_bounded(text);
    }
    let mut dimension = Dimension::new();
    let mut i: usize = 0;
    while i < lines.len()
        invariant
            ls == line_views(lines@),
            ls == lines_of(text),
            ls.len() <= text.len() <= u32::MAX,
            forall|k: int| 0 <= k < ls.len() ==> #[trigger] ls[k].len() <= text.len(),
            i <= lines.len(),
            dimension.height == i,
            dimension.width == longest_line(ls.take(i as int)),
        decreases lines.len() - i,
    {
        assert(ls.take(i + 1).drop_last() == ls.take(i as int));
        assert(ls.take(i + 1).last() == ls[i as int]);
        dimension.height += 1;
        let w = lines[i].len() as u32;
        // the longest line is the width
        if w > dimension.width {
            dimension.width = w;
        }
        i += 1;
    }
    assert(ls.take(lines.len() as int) == ls);
    dimension
}

fn fill_raster(lines: &Vec<Vec<char>>, width: u32) -> (r: Result<Vec<u8>, ConvertError>)
    requires
        width == longest_line(line_views(lines@)),
    ensures
        match first_unknown_line(line_views(lines@)) {
            Some(c) => r == Err::<Vec<u8>, ConvertError>(ConvertError::UnknownASCIISymbol(c)),
            None => r matches Ok(p) && p@ == raster_rows(line_views(lines@), width as nat),
        },
{
    let ghost ls = line_views(lines@);
    proof {
        lemma_longest_line_is_max(ls);
    }
    let mut pixels: Vec<u8> = Vec::new();
    let mut y: usize = 0;
    while y < lines.len()
        invariant
            ls == line_views(lines@),
            width == longest_line(ls),
            forall|k: int| 0 <= k < ls.len() ==> #[trigger] ls[k].len() <= width,
            y <= lines.len(),
            first_unknown_line(ls.take(y as int)) is None,
            pixels@ == raster_rows(ls.take(y as int), width as nat),
        decreases lines.len() - y,
    {
        let line = &lines[y];
        assert(ls[y as int] == line@);
        assert(ls.take(y + 1).drop_last() == ls.take(y as int));
        assert(ls.take(y + 1).last() == line@);
        let mut row: Vec<u8> = Vec::new();
        let mut x: u32 = 0;
        while x < width
            invariant
                line@ == ls[y as int],
                ls == line_views(lines@),
                ls.len() == lines@.len(),
                y < lines@.len(),
                line@.len() <= width,
                x <= width,
                row@ == pixel_row(line@, width as nat).take(x as int),
                x <= line@.len() ==> first_unknown(line@.take(x as int)) is None,
                x > line@.len() ==> first_unknown(line@) is None,
                ls.take(y + 1).drop_last() == ls.take(y as int),
                ls.take(y + 1).last() == line@,
                first_unknown_line(ls.take(y as int)) is None,
            decreases width - x,
        {
            if (x as usize) < line.len() {
                let c = line[x as usize];
                assert(line@.take(x + 1).drop_last() == line@.take(x as int));
                assert(line@.take(x + 1).last() == c);
                match brightness_for_symbol(c) {
                    Ok(b) => {
                        row.push(b);
                    },
                    Err(e) => {
                        proof {
                            assert(first_unknown(line@.take(x + 1)) == Some(c));
                            lemma_first_unknown_prefix(line@, x + 1);
                            assert(first_unknown_line(ls.take(y + 1)) == Some(c));
                            lemma_first_unknown_line_prefix(ls, y + 1);
                        }
                        return Err(e);
                    },
                }
            } else {
                proof {
                    if x as int == line@.len() {
                        assert(line@.take(x as int) == line@);
                    }
                }
                row.push(0);
            }
            assert(row@ =~= pixel_row(line@, width as nat).take(x + 1));
            x += 1;
            proof {
                if x as int == line@.len() {
                    assert(line@.take(x as int) == line@);
                }
            }
        }
        proof {
            assert(row@ =~= pixel_row(line@, width as nat));
            if line@.len() == width {
                assert(line@.take(width as int) == line@);
            }
        }
        pixels.append(&mut row);
        y += 1;
    }
    assert(ls.take(lines.len() as int) == ls);
    Ok(pixels)
}

} // verus!
