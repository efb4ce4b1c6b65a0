//! The playfield framebuffer and the conversion of any region's bit map into
//! a colored RGBA pixel buffer.
//!
//! One bit is one dot; a byte is an 8-dot vertical strip.  Pixel conversion
//! scans every bit in row-major pixel order and maps it to a
//! 4-byte color: an unset bit is opaque black, a set bit takes the region's
//! color — in the playfield a color banded by char row, or a single alert
//! color everywhere while the player is exploding.

use vstd::prelude::*;

use vstd::arithmetic::div_mod::{
    lemma_div_pos_is_pos, lemma_fundamental_div_mod, lemma_mod_bound, lemma_mod_multiples_vanish,
    lemma_small_mod,
};

use crate::array_sprite::{dot_lit, get_byte, put_byte, rows_wf};
use crate::canvas::{GAME_HEIGHT, GAME_WIDTH};

verus! {

#[derive(Debug, Clone, Copy, PartialEq, Eq, Structural)]
pub enum Color {
    Red,
    Purple,
    Blue,
    Green,
    Turquoise,
    Yellow,
    White,
}

/// Byte `k` (of r, g, b, a) of a color's RGBA encoding.
pub open spec fn color_byte(c: Color, k: int) -> u8 {
    match c {
        Color::Red => if k == 0 { 210 } else if k == 3 { 255 } else { 0 },
        Color::Purple => if k == 0 { 220 } else if k == 1 { 20 } else if k == 2 { 230 } else { 255 },
        Color::Blue => if k == 0 { 83 } else if k == 1 { 83 } else if k == 2 { 241 } else { 255 },
        Color::Green => if k == 0 { 98 } else if k == 1 { 222 } else if k == 2 { 109 } else { 255 },
        Color::Turquoise => if k == 0 { 68 } else if k == 1 { 200 } else if k == 2 { 210 } else { 255 },
        Color::Yellow => if k == 0 { 220 } else if k == 1 { 210 } else if k == 2 { 30 } else { 255 },
        Color::White => if k == 3 { 255 } else { 220 },
    }
}

/// Byte `k` of opaque black, the color of every unset dot.
pub open spec fn black_byte(k: int) -> u8 {
    if k == 3 { 255 } else { 0 }
}

/// Byte `k` of the RGBA encoding of one dot: black when the dot is unset,
/// the given color when it is set.
pub open spec fn pixel_byte(b: u8, bit: u8, c: Color, k: int) -> u8 {
    if dot_lit(b, bit) { color_byte(c, k) } else { black_byte(k) }
}

/// Position of byte `k` of the pixel `(x, i * 8 + bit)` in a pixel buffer
/// that starts at `base` and covers a region `cols` dots wide.
pub open spec fn pix_idx(base: int, cols: int, i: int, bit: int, x: int, k: int) -> int {
    base + ((i * 8 + bit) * cols + x) * 4 + k
}

/// The RGBA encoding of a color.
pub fn set_color(color: Color) -> (r: [u8; 4])
    ensures
        r@.len() == 4,
        forall|k: int| 0 <= k < 4 ==> r@[k] == color_byte(color, k),
{
    match color {
        Color::Red => [210, 0, 0, 255],
        Color::Purple => [220, 20, 230, 255],
        Color::Blue => [83, 83, 241, 255],
        Color::Green => [98, 222, 109, 255],
        Color::Turquoise => [68, 200, 210, 255],
        Color::Yellow => [220, 210, 30, 255],
        Color::White => [220, 220, 220, 255],
    }
}

/// The playfield's color band for char row `char_y`: seven fixed bands
/// covering the full playfield height.
pub open spec fn game_row_color(char_y: int) -> Color {
    if char_y == 0 || (20 <= char_y && char_y <= 22) || char_y == 25 {
        Color::Red
    } else if char_y == 1 || (12 <= char_y && char_y <= 15) {
        Color::Purple
    } else if char_y == 2 || char_y == 3 {
        Color::Blue
    } else if 4 <= char_y && char_y <= 7 {
        Color::Green
    } else if (8 <= char_y && char_y <= 11) || char_y == 23 || char_y == 24 {
        Color::Turquoise
    } else {
        Color::Yellow
    }
}

/// The playfield color band of a char row, as an exec value.  A row outside
/// the playfield is a programming error, excluded by the precondition.
pub fn row_color(char_y: usize) -> (c: Color)
    requires
        char_y < 26,
    ensures
        c == game_row_color(char_y as int),
{
    if char_y == 0 || (20 <= char_y && char_y <= 22) || char_y == 25 {
        Color::Red
    } else if char_y == 1 || (12 <= char_y && char_y <= 15) {
        Color::Purple
    } else if char_y == 2 || char_y == 3 {
        Color::Blue
    } else if 4 <= char_y && char_y <= 7 {
        Color::Green
    } else if (8 <= char_y && char_y <= 11) || char_y == 23 || char_y == 24 {
        Color::Turquoise
    } else {
        Color::Yellow
    }
}

/// The RGBA encoding of the playfield color band of char row `char_y`.
pub fn pos2rgba(char_y: usize) -> (r: [u8; 4])
    requires
        char_y < 26,
    ensures
        r@.len() == 4,
        forall|k: int| 0 <= k < 4 ==> r@[k] == color_byte(game_row_color(char_y as int), k),
{
    set_color(row_color(char_y))
}

/// A zero-filled region framebuffer.
#[verifier::loop_isolation(false)]
pub fn zero_grid(rows: usize, cols: usize) -> (g: Vec<Vec<u8>>)
    ensures
        g@.len() == rows,
        forall|r: int| 0 <= r < rows ==> (#[trigger] g@[r])@.len() == cols,
        forall|r: int, c: int| 0 <= r < rows && 0 <= c < cols ==> #[trigger] g@[r]@[c] == 0,
{
    let mut g: Vec<Vec<u8>> = Vec::new();
    let mut r: usize = 0;
    while r < rows
        invariant
            r <= rows,
            g@.len() == r,
            forall|j: int| 0 <= j < r ==> (#[trigger] g@[j])@.len() == cols,
            forall|j: int, c: int| 0 <= j < r && 0 <= c < cols ==> #[trigger] g@[j]@[c] == 0,
        decreases rows - r,
    {
        let mut row: Vec<u8> = Vec::new();
        let mut c: usize = 0;
        while c < cols
            invariant
                c <= cols,
                row@.len() == c,
                forall|j: int| 0 <= j < c ==> #[trigger] row@[j] == 0,
            decreases cols - c,
        {
            row.push(0);
            c += 1;
        }
        g.push(row);
        r += 1;
    }
    g
}

/// `(i * 8 + bit) * cols + x` enumerates the region's pixels without gaps.
proof fn lemma_pix_bound(i: int, bit: int, x: int, rows: int, cols: int)
    by (nonlinear_arith)
    requires
        0 <= i < rows,
        0 <= bit < 8,
        0 <= x < cols,
    ensures
        0 <= (i * 8 + bit) * cols + x < (rows * 8) * cols,
{
}

/// Distinct pixel coordinates get distinct positions in the enumeration.
proof fn lemma_pix_inj(i1: int, b1: int, x1: int, i2: int, b2: int, x2: int, cols: int)
    by (nonlinear_arith)
    requires
        0 <= b1 < 8,
        0 <= b2 < 8,
        0 <= x1 < cols,
        0 <= x2 < cols,
        (i1 * 8 + b1) * cols + x1 == (i2 * 8 + b2) * cols + x2,
    ensures
        i1 == i2,
        b1 == b2,
        x1 == x2,
{
}

/// Appends the RGBA pixel bytes of one region to `out`, scanning every dot
/// in row-major pixel order; row `i` of the region is rendered in color
/// `colors[i]` where a dot is set and opaque black where it is not.
#[verifier::loop_isolation(false)]
pub fn append_region_bytes(out: &mut Vec<u8>, map: &Vec<Vec<u8>>, colors: &Vec<Color>, cols: usize)
    requires
        map@.len() == colors@.len(),
        forall|r: int| 0 <= r < map@.len() ==> (#[trigger] map@[r])@.len() == cols,
    ensures
        final(out)@.len() == old(out)@.len() + 4 * ((map@.len() * 8) * cols),
        forall|j: int| 0 <= j < old(out)@.len() ==> #[trigger] final(out)@[j] == old(out)@[j],
        forall|i: int, bit: u8, x: int, k: int|
            0 <= i < map@.len() && bit < 8 && 0 <= x < cols && 0 <= k < 4
                ==> final(out)@[#[trigger] pix_idx(
                    old(out)@.len() as int,
                    cols as int,
                    i,
                    bit as int,
                    x,
                    k,
                )] == pixel_byte(map@[i]@[x], bit, colors@[i], k),
{
    let rows = map.len();
    let ghost base = out@.len() as int;
    let ghost mut n: int = 0;
    let mut i: usize = 0;
    while i < rows
        invariant
            i <= rows,
            n == (i * 8) * cols,
            out@.len() == base + 4 * n,
            forall|j: int| 0 <= j < base ==> #[trigger] out@[j] == old(out)@[j],
            forall|i2: int, b2: u8, x2: int, k2: int|
                0 <= i2 < rows && b2 < 8 && 0 <= x2 < cols && 0 <= k2 < 4
                    && (i2 * 8 + b2) * cols + x2 < n
                    ==> out@[#[trigger] pix_idx(base, cols as int, i2, b2 as int, x2, k2)]
                        == pixel_byte(map@[i2]@[x2], b2, colors@[i2], k2),
        decreases rows - i,
    {
        let mut bit: u8 = 0;
        while bit < 8
            invariant
                bit <= 8,
                i < rows,
                n == (i * 8 + bit) * cols,
                out@.len() == base + 4 * n,
                forall|j: int| 0 <= j < base ==> #[trigger] out@[j] == old(out)@[j],
                forall|i2: int, b2: u8, x2: int, k2: int|
                    0 <= i2 < rows && b2 < 8 && 0 <= x2 < cols && 0 <= k2 < 4
                        && (i2 * 8 + b2) * cols + x2 < n
                        ==> out@[#[trigger] pix_idx(base, cols as int, i2, b2 as int, x2, k2)]
                            == pixel_byte(map@[i2]@[x2], b2, colors@[i2], k2),
            decreases 8 - bit,
        {
            let mut x: usize = 0;
            while x < cols
                invariant
                    x <= cols,
                    i < rows,
                    bit < 8,
                    n == (i * 8 + bit) * cols + x,
                    out@.len() == base + 4 * n,
                    forall|j: int| 0 <= j < base ==> #[trigger] out@[j] == old(out)@[j],
                    forall|i2: int, b2: u8, x2: int, k2: int|
                        0 <= i2 < rows && b2 < 8 && 0 <= x2 < cols && 0 <= k2 < 4
                            && (i2 * 8 + b2) * cols + x2 < n
                            ==> out@[#[trigger] pix_idx(base, cols as int, i2, b2 as int, x2, k2)]
                                == pixel_byte(map@[i2]@[x2], b2, colors@[i2], k2),
                decreases cols - x,
            {
                let b = get_byte(map, i, x);
                if (b >> bit) & 1 == 1 {
                    let rgba = set_color(colors[i]);
                    out.push(rgba[0]);
                    out.push(rgba[1]);
                    out.push(rgba[2]);
                    out.push(rgba[3]);
                } else {
                    out.push(0);
                    out.push(0);
                    out.push(0);
                    out.push(255);
                }
                proof {
                    assert forall|k: int| 0 <= k < 4 implies out@[base + 4 * n + k]
                        == pixel_byte(map@[i as int]@[x as int], bit, colors@[i as int], k) by {
                    }
                    assert forall|i2: int, b2: u8, x2: int, k2: int|
                        0 <= i2 < rows && b2 < 8 && 0 <= x2 < cols && 0 <= k2 < 4
                            && (i2 * 8 + b2) * cols + x2 < n + 1
                            implies out@[#[trigger] pix_idx(base, cols as int, i2, b2 as int, x2, k2)]
                                == pixel_byte(map@[i2]@[x2], b2, colors@[i2], k2) by {
                        if (i2 * 8 + b2) * cols + x2 == n {
                            lemma_pix_inj(
                                i2, b2 as int, x2,
                                i as int, bit as int, x as int,
                                cols as int,
                            );
                        }
                    }
                    n = n + 1;
                }
                x += 1;
            }
            proof {
                assert(n == (i * 8 + bit + 1) * cols) by (nonlinear_arith)
                    requires n == (i * 8 + bit) * cols + cols,
                ;
            }
            bit += 1;
        }
        i += 1;
    }
    proof {
        assert forall|i2: int, b2: u8, x2: int, k2: int|
            0 <= i2 < rows && b2 < 8 && 0 <= x2 < cols && 0 <= k2 < 4
                implies out@[#[trigger] pix_idx(base, cols as int, i2, b2 as int, x2, k2)]
                    == pixel_byte(map@[i2]@[x2], b2, colors@[i2], k2) by {
            lemma_pix_bound(i2, b2 as int, x2, rows as int, cols as int);
        }
    }
}

/// A run of `rows` identical region colors.
#[verifier::loop_isolation(false)]
pub fn uniform_colors(rows: usize, c: Color) -> (v: Vec<Color>)
    ensures
        v@.len() == rows,
        forall|i: int| 0 <= i < rows ==> #[trigger] v@[i] == c,
{
    let mut v: Vec<Color> = Vec::new();
    let mut i: usize = 0;
    while i < rows
        invariant
            i <= rows,
            v@.len() == i,
            forall|j: int| 0 <= j < i ==> #[trigger] v@[j] == c,
        decreases rows - i,
    {
        v.push(c);
        i += 1;
    }
    v
}

/// The playfield's banded row colors, or the alert color everywhere while
/// the player is exploding.
#[verifier::loop_isolation(false)]
pub fn game_colors(player_exploding: bool) -> (v: Vec<Color>)
    ensures
        v@.len() == 26,
        forall|i: int|
            0 <= i < 26 ==> #[trigger] v@[i] == (if player_exploding {
                Color::Red
            } else {
                game_row_color(i)
            }),
{
    let mut v: Vec<Color> = Vec::new();
    let mut i: usize = 0;
    while i < 26
        invariant
            i <= 26,
            v@.len() == i,
            forall|j: int|
                0 <= j < i ==> #[trigger] v@[j] == (if player_exploding {
                    Color::Red
                } else {
                    game_row_color(j)
                }),
        decreases 26 - i,
    {
        if player_exploding {
            v.push(Color::Red);
        } else {
            v.push(row_color(i));
        }
        i += 1;
    }
    v
}

/// The main playfield framebuffer: 26 char rows of 224 byte columns.
pub struct DotMap {
    pub map: Vec<Vec<u8>>,
}

impl DotMap {
    /// Every char row holds exactly one byte per column of the playfield.
    pub open spec fn wf(self) -> bool {
        rows_wf(self.map@, (GAME_HEIGHT / 8) as int, GAME_WIDTH as int)
    }

    /// All dots of the playfield are unset.
    pub open spec fn all_zero(self) -> bool {
        forall|r: int, c: int|
            0 <= r < (GAME_HEIGHT / 8) && 0 <= c < GAME_WIDTH ==> #[trigger] self.map@[r]@[c] == 0
    }

    pub fn new() -> (m: DotMap)
        ensures
            m.wf(),
            m.all_zero(),
    {
        DotMap { map: zero_grid((GAME_HEIGHT / 8) as usize, GAME_WIDTH as usize) }
    }

    /// Resets every byte to zero.
    pub fn all_clear(&mut self)
        ensures
            final(self).wf(),
            final(self).all_zero(),
    {
        self.map = zero_grid((GAME_HEIGHT / 8) as usize, GAME_WIDTH as usize);
    }

    /// Lights the whole horizontal dot row `y` (the floor line).
    #[verifier::loop_isolation(false)]
    pub fn draw_holizon_line(&mut self, y: i32)
        requires
            old(self).wf(),
            0 <= y < GAME_HEIGHT,
        ensures
            final(self).wf(),
            forall|r: int, c: int|
                0 <= r < (GAME_HEIGHT / 8) && 0 <= c < GAME_WIDTH
                    ==> #[trigger] final(self).map@[r]@[c] == (if r == y / 8 {
                        old(self).map@[r]@[c] | (1u8 << ((y % 8) as u8))
                    } else {
                        old(self).map@[r]@[c]
                    }),
    {
        let char_y: usize = (y / 8) as usize;
        let mask: u8 = 1u8 << ((y % 8) as u8);
        let mut x: usize = 0;
        while x < GAME_WIDTH as usize
            invariant
                x <= GAME_WIDTH as usize,
                self.map@.len() == old(self).map@.len(),
                forall|r: int| 0 <= r < (GAME_HEIGHT / 8) ==> (#[trigger] self.map@[r])@.len()
                    == old(self).map@[r]@.len(),
                forall|r: int, c: int|
                    0 <= r < (GAME_HEIGHT / 8) && 0 <= c < GAME_WIDTH
                        ==> #[trigger] self.map@[r]@[c] == (if r == char_y && c < x {
                            old(self).map@[r]@[c] | mask
                        } else {
                            old(self).map@[r]@[c]
                        }),
            decreases GAME_WIDTH as usize - x,
        {
            let b = get_byte(&self.map, char_y, x) | mask;
            put_byte(&mut self.map, char_y, x, b);
            x += 1;
        }
    }

    /// Renders the three stitched regions — status bar, playfield, status
    /// footer — into one RGBA byte buffer of the combined image.
    pub fn convert_to_color_bytes(
        &self,
        top: &Vec<Vec<u8>>,
        bottom: &Vec<Vec<u8>>,
        player_exploding: bool,
    ) -> (r: Vec<u8>)
        requires
            self.wf(),
            rows_wf(top@, 4, GAME_WIDTH as int),
            rows_wf(bottom@, 2, GAME_WIDTH as int),
        ensures
            r@.len() == 229376,
            forall|i: int, bit: u8, x: int, k: int|
                0 <= i < 4 && bit < 8 && 0 <= x < 224 && 0 <= k < 4
                    ==> r@[#[trigger] pix_idx(0, 224, i, bit as int, x, k)]
                        == pixel_byte(
                        top@[i]@[x],
                        bit,
                        (if player_exploding { Color::Red } else { Color::White }),
                        k,
                    ),
            forall|i: int, bit: u8, x: int, k: int|
                0 <= i < 26 && bit < 8 && 0 <= x < 224 && 0 <= k < 4
                    ==> r@[#[trigger] pix_idx(28672, 224, i, bit as int, x, k)]
                        == pixel_byte(
                        self.map@[i]@[x],
                        bit,
                        (if player_exploding { Color::Red } else { game_row_color(i) }),
                        k,
                    ),
            forall|i: int, bit: u8, x: int, k: int|
                0 <= i < 2 && bit < 8 && 0 <= x < 224 && 0 <= k < 4
                    ==> r@[#[trigger] pix_idx(215040, 224, i, bit as int, x, k)]
                        == pixel_byte(
                        bottom@[i]@[x],
                        bit,
                        (if player_exploding { Color::Red } else { Color::Turquoise }),
                        k,
                    ),
    {
        let mut out: Vec<u8> = Vec::new();
        let top_colors = uniform_colors(4, if player_exploding { Color::Red } else { Color::White });
        append_region_bytes(&mut out, top, &top_colors, 224);
        let mid_colors = game_colors(player_exploding);
        append_region_bytes(&mut out, &self.map, &mid_colors, 224);
        let bot_colors = uniform_colors(
            2,
            if player_exploding { Color::Red } else { Color::Turquoise },
        );
        append_region_bytes(&mut out, bottom, &bot_colors, 224);
        proof {
            assert forall|i: int, bit: u8, x: int, k: int|
                0 <= i < 4 && bit < 8 && 0 <= x < 224 && 0 <= k < 4
                    implies 0 <= #[trigger] pix_idx(0, 224, i, bit as int, x, k) < 28672 by {
                lemma_pix_bound(i, bit as int, x, 4, 224);
            }
            assert forall|i: int, bit: u8, x: int, k: int|
                0 <= i < 26 && bit < 8 && 0 <= x < 224 && 0 <= k < 4
                    implies 28672 <= #[trigger] pix_idx(28672, 224, i, bit as int, x, k) < 215040 by {
                lemma_pix_bound(i, bit as int, x, 26, 224);
            }
        }
        out
    }
}

/// A cleared region converts to an all-black, fully opaque buffer: with
/// every region byte zero, every pixel's four bytes are those of opaque
/// black, and the buffer has exactly 4 bytes per dot of the region.
pub proof fn lemma_cleared_region_converts_black(
    bytes: Seq<u8>,
    m: Seq<Vec<u8>>,
    colors: Seq<Color>,
    base: int,
    cols: int,
)
    requires
        forall|r: int, c: int|
            0 <= r < m.len() && 0 <= c < cols ==> #[trigger] m[r]@[c] == 0,
        forall|i: int, bit: u8, x: int, k: int|
            0 <= i < m.len() && bit < 8 && 0 <= x < cols && 0 <= k < 4
                ==> bytes[#[trigger] pix_idx(base, cols, i, bit as int, x, k)]
                    == pixel_byte(m[i]@[x], bit, colors[i], k),
    ensures
        forall|i: int, bit: u8, x: int, k: int|
            0 <= i < m.len() && bit < 8 && 0 <= x < cols && 0 <= k < 4
                ==> bytes[#[trigger] pix_idx(base, cols, i, bit as int, x, k)] == black_byte(k),
{
    assert forall|i: int, bit: u8, x: int, k: int|
        0 <= i < m.len() && bit < 8 && 0 <= x < cols && 0 <= k < 4
            implies bytes[#[trigger] pix_idx(base, cols, i, bit as int, x, k)]
                == black_byte(k) by {
        assert(m[i]@[x] == 0);
        assert((0u8 >> bit) & 1 == 0) by (bit_vector);
        assert(!dot_lit(0u8, bit));
    }
}

/// Every byte position of a region's pixel-buffer segment is the position
/// of some pixel byte in the enumeration.
proof fn lemma_pix_idx_covers(base: int, cols: int, rows: int, p: int)
    requires
        cols > 0,
        rows >= 0,
        base <= p < base + 4 * ((rows * 8) * cols),
    ensures
        exists|i: int, bit: u8, x: int, k: int|
            0 <= i < rows && bit < 8 && 0 <= x < cols && 0 <= k < 4 && p == pix_idx(
                base,
                cols,
                i,
                bit as int,
                x,
                k,
            ),
{
    let q = p - base;
    let k = q % 4;
    let pix = q / 4;
    let x = pix % cols;
    let rb = pix / cols;
    let bit = rb % 8;
    let i = rb / 8;
    lemma_fundamental_div_mod(q, 4);
    lemma_mod_bound(q, 4);
    lemma_div_pos_is_pos(q, 4);
    lemma_fundamental_div_mod(pix, cols);
    lemma_mod_bound(pix, cols);
    lemma_div_pos_is_pos(pix, cols);
    lemma_fundamental_div_mod(rb, 8);
    lemma_mod_bound(rb, 8);
    lemma_div_pos_is_pos(rb, 8);
    assert(pix < (rows * 8) * cols);
    assert(rb < rows * 8) by {
        if rb >= rows * 8 {
            assert(cols * rb >= cols * (rows * 8)) by (nonlinear_arith)
                requires
                    cols > 0,
                    rb >= rows * 8,
            ;
            assert(cols * (rows * 8) == (rows * 8) * cols) by (nonlinear_arith);
        }
    }
    assert(i < rows);
    let bu: u8 = bit as u8;
    assert(p == pix_idx(base, cols, i, bu as int, x, k)) by {
        assert((i * 8 + bit) * cols == cols * (8 * i + bit)) by (nonlinear_arith);
    }
    assert(0 <= i < rows && bu < 8 && 0 <= x < cols && 0 <= k < 4);
}

/// Region clear followed by pixel conversion yields an all-black, fully
/// opaque buffer: with every region byte zero, every byte of the buffer
/// segment is 0 except every fourth — the alpha channel — which is 255,
/// and the segment holds exactly 4 bytes per dot of the region.
pub proof fn lemma_cleared_region_black_buffer(
    bytes: Seq<u8>,
    m: Seq<Vec<u8>>,
    colors: Seq<Color>,
    base: int,
    cols: int,
)
    requires
        cols > 0,
        forall|r: int, c: int|
            0 <= r < m.len() && 0 <= c < cols ==> #[trigger] m[r]@[c] == 0,
        forall|i: int, bit: u8, x: int, k: int|
            0 <= i < m.len() && bit < 8 && 0 <= x < cols && 0 <= k < 4
                ==> bytes[#[trigger] pix_idx(base, cols, i, bit as int, x, k)]
                    == pixel_byte(m[i]@[x], bit, colors[i], k),
    ensures
        forall|p: int|
            base <= p < base + 4 * ((m.len() * 8) * cols) ==> bytes[p] == (if (p - base) % 4 == 3 {
                255u8
            } else {
                0u8
            }),
{
    lemma_cleared_region_converts_black(bytes, m, colors, base, cols);
    assert forall|p: int| base <= p < base + 4 * ((m.len() * 8) * cols) implies bytes[p] == (if (p
        - base) % 4 == 3 {
        255u8
    } else {
        0u8
    }) by {
        lemma_pix_idx_covers(base, cols, m.len() as int, p);
        let (i, bit, x, k) = choose|i: int, bit: u8, x: int, k: int|
            0 <= i < m.len() && bit < 8 && 0 <= x < cols && 0 <= k < 4 && p == pix_idx(
                base,
                cols,
                i,
                bit as int,
                x,
                k,
            );
        assert(bytes[pix_idx(base, cols, i, bit as int, x, k)] == black_byte(k));
        lemma_mod_multiples_vanish((i * 8 + bit as int) * cols + x, k, 4);
        lemma_small_mod(k as nat, 4);
    }
}

} // verus!
