//! Sprite compositor: the only code that writes entity pixels into a region
//! framebuffer.
//!
//! A region framebuffer is a `Vec<Vec<u8>>`: one `Vec<u8>` of bytes per char
//! row (8-dot-tall strip), one byte per column; bit `b` of byte `[row][x]` is
//! the dot at `(x, row * 8 + b)`.
//!
//! Three composition modes exist:
//! - `array_sprite`: transparent OR-blit — drawing never clears a lit dot;
//! - `erase_sprite`: masked AND-NOT — clears exactly the sprite's own dots;
//! - `array_sprite_replace`: plain overwrite, used for digit sprites.
//!
//! All three require the sprite's 8-dot band to sit on a single byte row
//! (`pos.y % 8 == 0`); a straddling placement is a caller error.  One-column
//! shifted variants exist for projectiles, which move by less than 8 dots.

use vstd::prelude::*;

use crate::math::Vec2;

verus! {

/// Every char row of the region holds exactly `cols` bytes.
pub open spec fn rows_wf(m: Seq<Vec<u8>>, rows: int, cols: int) -> bool {
    &&& m.len() == rows
    &&& forall|r: int| 0 <= r < rows ==> (#[trigger] m[r])@.len() == cols
}

/// The dot at bit `bit` of byte `b` is lit.
pub open spec fn dot_lit(b: u8, bit: u8) -> bool {
    (b >> bit) & 1 == 1
}

/// Writes one byte of one row, leaving every other byte alone.
pub(crate) fn put_byte(map: &mut Vec<Vec<u8>>, y: usize, x: usize, v: u8)
    requires
        y < old(map)@.len(),
        x < old(map)@[y as int]@.len(),
    ensures
        final(map)@.len() == old(map)@.len(),
        forall|r: int| 0 <= r < old(map)@.len() && r != y ==> final(map)@[r] == old(map)@[r],
        final(map)@[y as int]@ == old(map)@[y as int]@.update(x as int, v),
{
    let row = &mut map[y];
    row.set(x, v);
}

/// Reads one byte of one row.
pub(crate) fn get_byte(map: &Vec<Vec<u8>>, y: usize, x: usize) -> (b: u8)
    requires
        y < map@.len(),
        x < map@[y as int]@.len(),
    ensures
        b == map@[y as int]@[x as int],
{
    map[y][x]
}

/// Transparent OR-blit of a byte-row-aligned sprite.
#[verifier::loop_isolation(false)]
pub fn array_sprite(map: &mut Vec<Vec<u8>>, pos: Vec2, sprite: &Vec<u8>)
    requires
        0 <= pos.y,
        pos.y % 8 == 0,
        pos.y / 8 < old(map)@.len(),
        0 <= pos.x,
        pos.x + sprite@.len() <= old(map)@[pos.y as int / 8]@.len(),
    ensures
        final(map)@.len() == old(map)@.len(),
        forall|r: int|
            0 <= r < old(map)@.len() && r != pos.y / 8 ==> final(map)@[r] == old(map)@[r],
        final(map)@[pos.y as int / 8]@.len() == old(map)@[pos.y as int / 8]@.len(),
        forall|r: int, c: int|
            0 <= r < old(map)@.len() && 0 <= c < old(map)@[r]@.len()
                && (r != pos.y / 8 || !(pos.x <= c < pos.x + sprite@.len()))
                ==> #[trigger] final(map)@[r]@[c] == old(map)@[r]@[c],
        forall|dx: int|
            0 <= dx < sprite@.len()
                ==> final(map)@[pos.y as int / 8]@[pos.x + dx]
                    == (old(map)@[pos.y as int / 8]@[pos.x + dx] | #[trigger] sprite@[dx]),
{
    let char_y: usize = (pos.y / 8) as usize;
    let x0: usize = pos.x as usize;
    let cols: usize = map[char_y].len();
    proof {
        assert(x0 + sprite@.len() <= cols);
    }
    let mut dx: usize = 0;
    while dx < sprite.len()
        invariant
            dx <= sprite@.len(),
            map@.len() == old(map)@.len(),
            forall|r: int| 0 <= r < old(map)@.len() && r != char_y ==> map@[r] == old(map)@[r],
            map@[char_y as int]@.len() == old(map)@[char_y as int]@.len(),
            forall|r: int, c: int|
                0 <= r < old(map)@.len() && 0 <= c < old(map)@[r]@.len()
                    && (r != char_y || !(x0 <= c < x0 + dx))
                    ==> #[trigger] map@[r]@[c] == old(map)@[r]@[c],
            forall|i: int|
                0 <= i < dx
                    ==> map@[char_y as int]@[x0 + i]
                        == (old(map)@[char_y as int]@[x0 + i] | #[trigger] sprite@[i]),
        decreases sprite@.len() - dx,
    {
        let b = get_byte(map, char_y, x0 + dx) | sprite[dx];
        put_byte(map, char_y, x0 + dx, b);
        dx += 1;
    }
}

/// Masked erase: clears exactly the sprite's own dots, leaving every other
/// lit dot (another entity's pixels, the floor line) untouched.
#[verifier::loop_isolation(false)]
pub fn erase_sprite(map: &mut Vec<Vec<u8>>, pos: Vec2, sprite: &Vec<u8>)
    requires
        0 <= pos.y,
        pos.y % 8 == 0,
        pos.y / 8 < old(map)@.len(),
        0 <= pos.x,
        pos.x + sprite@.len() <= old(map)@[pos.y as int / 8]@.len(),
    ensures
        final(map)@.len() == old(map)@.len(),
        forall|r: int|
            0 <= r < old(map)@.len() && r != pos.y / 8 ==> final(map)@[r] == old(map)@[r],
        final(map)@[pos.y as int / 8]@.len() == old(map)@[pos.y as int / 8]@.len(),
        forall|r: int, c: int|
            0 <= r < old(map)@.len() && 0 <= c < old(map)@[r]@.len()
                && (r != pos.y / 8 || !(pos.x <= c < pos.x + sprite@.len()))
                ==> #[trigger] final(map)@[r]@[c] == old(map)@[r]@[c],
        forall|dx: int|
            0 <= dx < sprite@.len()
                ==> final(map)@[pos.y as int / 8]@[pos.x + dx]
                    == (old(map)@[pos.y as int / 8]@[pos.x + dx] & !(#[trigger] sprite@[dx])),
{
    let char_y: usize = (pos.y / 8) as usize;
    let x0: usize = pos.x as usize;
    let cols: usize = map[char_y].len();
    proof {
        assert(x0 + sprite@.len() <= cols);
    }
    let mut dx: usize = 0;
    while dx < sprite.len()
        invariant
            dx <= sprite@.len(),
            map@.len() == old(map)@.len(),
            forall|r: int| 0 <= r < old(map)@.len() && r != char_y ==> map@[r] == old(map)@[r],
            map@[char_y as int]@.len() == old(map)@[char_y as int]@.len(),
            forall|r: int, c: int|
                0 <= r < old(map)@.len() && 0 <= c < old(map)@[r]@.len()
                    && (r != char_y || !(x0 <= c < x0 + dx))
                    ==> #[trigger] map@[r]@[c] == old(map)@[r]@[c],
            forall|i: int|
                0 <= i < dx
                    ==> map@[char_y as int]@[x0 + i]
                        == (old(map)@[char_y as int]@[x0 + i] & !(#[trigger] sprite@[i])),
        decreases sprite@.len() - dx,
    {
        let b = get_byte(map, char_y, x0 + dx) & !sprite[dx];
        put_byte(map, char_y, x0 + dx, b);
        dx += 1;
    }
}

/// Opaque overwrite of a byte-row-aligned sprite (digit rendering).
#[verifier::loop_isolation(false)]
pub fn array_sprite_replace(map: &mut Vec<Vec<u8>>, pos: Vec2, sprite: &Vec<u8>)
    requires
        0 <= pos.y,
        pos.y % 8 == 0,
        pos.y / 8 < old(map)@.len(),
        0 <= pos.x,
        pos.x + sprite@.len() <= old(map)@[pos.y as int / 8]@.len(),
    ensures
        final(map)@.len() == old(map)@.len(),
        forall|r: int|
            0 <= r < old(map)@.len() && r != pos.y / 8 ==> final(map)@[r] == old(map)@[r],
        final(map)@[pos.y as int / 8]@.len() == old(map)@[pos.y as int / 8]@.len(),
        forall|r: int, c: int|
            0 <= r < old(map)@.len() && 0 <= c < old(map)@[r]@.len()
                && (r != pos.y / 8 || !(pos.x <= c < pos.x + sprite@.len()))
                ==> #[trigger] final(map)@[r]@[c] == old(map)@[r]@[c],
        forall|dx: int|
            0 <= dx < sprite@.len()
                ==> final(map)@[pos.y as int / 8]@[pos.x + dx] == #[trigger] sprite@[dx],
{
    let char_y: usize = (pos.y / 8) as usize;
    let x0: usize = pos.x as usize;
    let cols: usize = map[char_y].len();
    proof {
        assert(x0 + sprite@.len() <= cols);
    }
    let mut dx: usize = 0;
    while dx < sprite.len()
        invariant
            dx <= sprite@.len(),
            map@.len() == old(map)@.len(),
            forall|r: int| 0 <= r < old(map)@.len() && r != char_y ==> map@[r] == old(map)@[r],
            map@[char_y as int]@.len() == old(map)@[char_y as int]@.len(),
            forall|r: int, c: int|
                0 <= r < old(map)@.len() && 0 <= c < old(map)@[r]@.len()
                    && (r != char_y || !(x0 <= c < x0 + dx))
                    ==> #[trigger] map@[r]@[c] == old(map)@[r]@[c],
            forall|i: int| 0 <= i < dx ==> map@[char_y as int]@[x0 + i] == #[trigger] sprite@[i],
        decreases sprite@.len() - dx,
    {
        put_byte(map, char_y, x0 + dx, sprite[dx]);
        dx += 1;
    }
}

/// Collision probe: does any dot of the (aligned) sprite overlap a lit dot?
#[verifier::loop_isolation(false)]
pub fn test_overlap(map: &Vec<Vec<u8>>, pos: Vec2, sprite: &Vec<u8>) -> (r: bool)
    requires
        0 <= pos.y,
        pos.y % 8 == 0,
        pos.y / 8 < map@.len(),
        0 <= pos.x,
        pos.x + sprite@.len() <= map@[pos.y as int / 8]@.len(),
    ensures
        r == exists|dx: int|
            0 <= dx < sprite@.len()
                && (map@[pos.y as int / 8]@[pos.x + dx] & #[trigger] sprite@[dx]) != 0,
{
    let char_y: usize = (pos.y / 8) as usize;
    let x0: usize = pos.x as usize;
    let cols: usize = map[char_y].len();
    proof {
        assert(x0 + sprite@.len() <= cols);
    }
    let mut dx: usize = 0;
    while dx < sprite.len()
        invariant
            dx <= sprite@.len(),
            forall|i: int|
                0 <= i < dx ==> (map@[char_y as int]@[x0 + i] & #[trigger] sprite@[i]) == 0,
        decreases sprite@.len() - dx,
    {
        if get_byte(map, char_y, x0 + dx) & sprite[dx] != 0 {
            proof {
                assert((map@[pos.y as int / 8]@[pos.x + dx as int] & sprite@[dx as int]) != 0);
            }
            return true;
        }
        dx += 1;
    }
    false
}

/// One-column OR-blit at an arbitrary vertical offset: the mask byte is
/// split over the two char rows it covers.  Used by projectiles, which move
/// by less than 8 dots per tick.
pub fn draw_column_shifted(map: &mut Vec<Vec<u8>>, pos: Vec2, mask: u8)
    requires
        0 <= pos.y,
        pos.y / 8 < old(map)@.len(),
        pos.y % 8 != 0 ==> pos.y / 8 + 1 < old(map)@.len(),
        0 <= pos.x < old(map)@[pos.y as int / 8]@.len(),
        pos.y % 8 != 0 ==> pos.x < old(map)@[pos.y as int / 8 + 1]@.len(),
    ensures
        final(map)@.len() == old(map)@.len(),
        forall|r: int|
            0 <= r < old(map)@.len() ==> (#[trigger] final(map)@[r])@.len() == old(map)@[r]@.len(),
        forall|r: int|
            0 <= r < old(map)@.len() && r != pos.y / 8 && !(pos.y % 8 != 0 && r == pos.y / 8 + 1)
                ==> final(map)@[r] == old(map)@[r],
        forall|r: int, c: int|
            0 <= r < old(map)@.len() && 0 <= c < old(map)@[r]@.len() && c != pos.x
                ==> #[trigger] final(map)@[r]@[c] == old(map)@[r]@[c],
        final(map)@[pos.y as int / 8]@[pos.x as int]
            == (old(map)@[pos.y as int / 8]@[pos.x as int] | (mask << ((pos.y % 8) as u8))),
        pos.y % 8 != 0 ==> final(map)@[pos.y as int / 8 + 1]@[pos.x as int]
            == (old(map)@[pos.y as int / 8 + 1]@[pos.x as int]
                | (mask >> ((8 - pos.y % 8) as u8))),
{
    let char_y: usize = (pos.y / 8) as usize;
    let x: usize = pos.x as usize;
    let sh: u8 = (pos.y % 8) as u8;
    let lo = get_byte(map, char_y, x) | (mask << sh);
    put_byte(map, char_y, x, lo);
    if sh != 0 {
        let hi = get_byte(map, char_y + 1, x) | (mask >> (8 - sh));
        put_byte(map, char_y + 1, x, hi);
    }
}

/// One-column masked erase at an arbitrary vertical offset.
pub fn erase_column_shifted(map: &mut Vec<Vec<u8>>, pos: Vec2, mask: u8)
    requires
        0 <= pos.y,
        pos.y / 8 < old(map)@.len(),
        pos.y % 8 != 0 ==> pos.y / 8 + 1 < old(map)@.len(),
        0 <= pos.x < old(map)@[pos.y as int / 8]@.len(),
        pos.y % 8 != 0 ==> pos.x < old(map)@[pos.y as int / 8 + 1]@.len(),
    ensures
        final(map)@.len() == old(map)@.len(),
        forall|r: int|
            0 <= r < old(map)@.len() ==> (#[trigger] final(map)@[r])@.len() == old(map)@[r]@.len(),
        forall|r: int|
            0 <= r < old(map)@.len() && r != pos.y / 8 && !(pos.y % 8 != 0 && r == pos.y / 8 + 1)
                ==> final(map)@[r] == old(map)@[r],
        forall|r: int, c: int|
            0 <= r < old(map)@.len() && 0 <= c < old(map)@[r]@.len() && c != pos.x
                ==> #[trigger] final(map)@[r]@[c] == old(map)@[r]@[c],
        final(map)@[pos.y as int / 8]@[pos.x as int]
            == (old(map)@[pos.y as int / 8]@[pos.x as int] & !(mask << ((pos.y % 8) as u8))),
        pos.y % 8 != 0 ==> final(map)@[pos.y as int / 8 + 1]@[pos.x as int]
            == (old(map)@[pos.y as int / 8 + 1]@[pos.x as int]
                & !(mask >> ((8 - pos.y % 8) as u8))),
{
    let char_y: usize = (pos.y / 8) as usize;
    let x: usize = pos.x as usize;
    let sh: u8 = (pos.y % 8) as u8;
    let lo = get_byte(map, char_y, x) & !(mask << sh);
    put_byte(map, char_y, x, lo);
    if sh != 0 {
        let hi = get_byte(map, char_y + 1, x) & !(mask >> (8 - sh));
        put_byte(map, char_y + 1, x, hi);
    }
}

/// Collision probe for a one-column mask at an arbitrary vertical offset.
pub fn test_overlap_column(map: &Vec<Vec<u8>>, pos: Vec2, mask: u8) -> (r: bool)
    requires
        0 <= pos.y,
        pos.y / 8 < map@.len(),
        pos.y % 8 != 0 ==> pos.y / 8 + 1 < map@.len(),
        0 <= pos.x < map@[pos.y as int / 8]@.len(),
        pos.y % 8 != 0 ==> pos.x < map@[pos.y as int / 8 + 1]@.len(),
    ensures
        r == {
            ||| (map@[pos.y as int / 8]@[pos.x as int] & (mask << ((pos.y % 8) as u8))) != 0
            ||| (pos.y % 8 != 0
                && (map@[pos.y as int / 8 + 1]@[pos.x as int]
                    & (mask >> ((8 - pos.y % 8) as u8))) != 0)
        },
{
    let char_y: usize = (pos.y / 8) as usize;
    let x: usize = pos.x as usize;
    let sh: u8 = (pos.y % 8) as u8;
    if get_byte(map, char_y, x) & (mask << sh) != 0 {
        return true;
    }
    if sh != 0 && get_byte(map, char_y + 1, x) & (mask >> (8 - sh)) != 0 {
        return true;
    }
    false
}

/// OR-ing a mask into a byte and then clearing the same bits restores the
/// byte, provided none of the mask's bits were set to begin with.
proof fn lemma_u8_or_then_clear(a: u8, s: u8)
    by (bit_vector)
    requires
        a & s == 0,
    ensures
        (a | s) & !s == a,
{
}

/// Bits outside the mask survive both the OR-blit and the masked erase.
proof fn lemma_u8_bit_outside_mask(a: u8, s: u8, bit: u8)
    by (bit_vector)
    requires
        bit < 8,
        (s >> bit) & 1 == 0,
    ensures
        ((a | s) >> bit) & 1 == (a >> bit) & 1,
        ((a & !s) >> bit) & 1 == (a >> bit) & 1,
{
}

/// Draw-then-erase round trip: drawing a sprite on a framebuffer in which
/// none of the sprite's dots were already lit, then erasing it at the same
/// position, restores the framebuffer exactly.
///
/// `m0` is the framebuffer before `array_sprite`, `m1` the one after it, and
/// `m2` the one after `erase_sprite`; the hypotheses are exactly what those
/// two functions ensure for a sprite `s` blitted at row `row`, column `x`.
pub proof fn lemma_draw_then_erase_restores(
    m0: Seq<Vec<u8>>,
    m1: Seq<Vec<u8>>,
    m2: Seq<Vec<u8>>,
    row: int,
    x: int,
    s: Seq<u8>,
)
    requires
        0 <= row < m0.len(),
        m1.len() == m0.len(),
        m2.len() == m1.len(),
        0 <= x,
        x + s.len() <= m0[row]@.len(),
        m1[row]@.len() == m0[row]@.len(),
        m2[row]@.len() == m1[row]@.len(),
        forall|r: int| 0 <= r < m0.len() && r != row ==> m1[r] == m0[r],
        forall|r: int| 0 <= r < m1.len() && r != row ==> m2[r] == m1[r],
        forall|r: int, c: int|
            0 <= r < m0.len() && 0 <= c < m0[r]@.len() && (r != row || !(x <= c < x + s.len()))
                ==> #[trigger] m1[r]@[c] == m0[r]@[c],
        forall|r: int, c: int|
            0 <= r < m1.len() && 0 <= c < m1[r]@.len() && (r != row || !(x <= c < x + s.len()))
                ==> #[trigger] m2[r]@[c] == m1[r]@[c],
        forall|dx: int|
            0 <= dx < s.len() ==> m1[row]@[x + dx] == (m0[row]@[x + dx] | #[trigger] s[dx]),
        forall|dx: int|
            0 <= dx < s.len() ==> m2[row]@[x + dx] == (m1[row]@[x + dx] & !(#[trigger] s[dx])),
        forall|dx: int| 0 <= dx < s.len() ==> (m0[row]@[x + dx] & #[trigger] s[dx]) == 0,
    ensures
        forall|r: int| 0 <= r < m0.len() ==> (#[trigger] m2[r])@ =~= m0[r]@,
{
    assert forall|r: int| 0 <= r < m0.len() implies (#[trigger] m2[r])@ =~= m0[r]@ by {
        if r != row {
            assert(m1[r] == m0[r]);
            assert(m2[r] == m1[r]);
        } else {
            assert forall|c: int| 0 <= c < m0[row]@.len() implies m2[row]@[c] == m0[row]@[c] by {
                if x <= c < x + s.len() {
                    let dx = c - x;
                    assert(m1[row]@[x + dx] == (m0[row]@[x + dx] | s[dx]));
                    assert(m2[row]@[x + dx] == (m1[row]@[x + dx] & !s[dx]));
                    assert((m0[row]@[x + dx] & s[dx]) == 0);
                    lemma_u8_or_then_clear(m0[row]@[x + dx], s[dx]);
                } else {
                    assert(m1[row]@[c] == m0[row]@[c]);
                    assert(m2[row]@[c] == m1[row]@[c]);
                }
            }
            assert(m2[row]@ =~= m0[row]@);
        }
    }
}

/// Locality of the OR-blit: every byte outside the sprite's span is
/// unchanged, and within the span every dot whose sprite bit is unset keeps
/// its value.  The hypotheses are exactly what `array_sprite` ensures.
pub proof fn lemma_draw_leaves_rest(
    m0: Seq<Vec<u8>>,
    m1: Seq<Vec<u8>>,
    row: int,
    x: int,
    s: Seq<u8>,
)
    requires
        0 <= row < m0.len(),
        m1.len() == m0.len(),
        0 <= x,
        x + s.len() <= m0[row]@.len(),
        m1[row]@.len() == m0[row]@.len(),
        forall|r: int| 0 <= r < m0.len() && r != row ==> m1[r] == m0[r],
        forall|r: int, c: int|
            0 <= r < m0.len() && 0 <= c < m0[r]@.len() && (r != row || !(x <= c < x + s.len()))
                ==> #[trigger] m1[r]@[c] == m0[r]@[c],
        forall|dx: int|
            0 <= dx < s.len() ==> m1[row]@[x + dx] == (m0[row]@[x + dx] | #[trigger] s[dx]),
    ensures
        forall|dx: int, bit: u8|
            0 <= dx < s.len() && bit < 8 && !(#[trigger] dot_lit(s[dx], bit))
                ==> dot_lit(m1[row]@[x + dx], bit) == dot_lit(m0[row]@[x + dx], bit),
{
    assert forall|dx: int, bit: u8|
        0 <= dx < s.len() && bit < 8 && !(#[trigger] dot_lit(s[dx], bit))
            implies dot_lit(m1[row]@[x + dx], bit) == dot_lit(m0[row]@[x + dx], bit) by {
        let sv = s[dx];
        assert((sv >> bit) & 1 == 0 || (sv >> bit) & 1 == 1) by (bit_vector);
        lemma_u8_bit_outside_mask(m0[row]@[x + dx], s[dx], bit);
        assert(m1[row]@[x + dx] == (m0[row]@[x + dx] | s[dx]));
    }
}

/// Locality of the masked erase, the counterpart of `lemma_draw_leaves_rest`:
/// the hypotheses are exactly what `erase_sprite` ensures.
pub proof fn lemma_erase_leaves_rest(
    m0: Seq<Vec<u8>>,
    m1: Seq<Vec<u8>>,
    row: int,
    x: int,
    s: Seq<u8>,
)
    requires
        0 <= row < m0.len(),
        m1.len() == m0.len(),
        0 <= x,
        x + s.len() <= m0[row]@.len(),
        m1[row]@.len() == m0[row]@.len(),
        forall|r: int| 0 <= r < m0.len() && r != row ==> m1[r] == m0[r],
        forall|r: int, c: int|
            0 <= r < m0.len() && 0 <= c < m0[r]@.len() && (r != row || !(x <= c < x + s.len()))
                ==> #[trigger] m1[r]@[c] == m0[r]@[c],
        forall|dx: int|
            0 <= dx < s.len() ==> m1[row]@[x + dx] == (m0[row]@[x + dx] & !(#[trigger] s[dx])),
    ensures
        forall|dx: int, bit: u8|
            0 <= dx < s.len() && bit < 8 && !(#[trigger] dot_lit(s[dx], bit))
                ==> dot_lit(m1[row]@[x + dx], bit) == dot_lit(m0[row]@[x + dx], bit),
{
    assert forall|dx: int, bit: u8|
        0 <= dx < s.len() && bit < 8 && !(#[trigger] dot_lit(s[dx], bit))
            implies dot_lit(m1[row]@[x + dx], bit) == dot_lit(m0[row]@[x + dx], bit) by {
        let sv = s[dx];
        assert((sv >> bit) & 1 == 0 || (sv >> bit) & 1 == 1) by (bit_vector);
        lemma_u8_bit_outside_mask(m0[row]@[x + dx], s[dx], bit);
        assert(m1[row]@[x + dx] == (m0[row]@[x + dx] & !s[dx]));
    }
}

} // verus!
