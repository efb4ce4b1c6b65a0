//! Status bar above the playfield: a 28 x 4 char region showing the score
//! as five digit sprites.

use vstd::prelude::*;

use crate::array_sprite::{array_sprite, rows_wf};
use crate::canvas::{GAME_WIDTH, TOP_HEIGHT};
use crate::dot_map::{append_region_bytes, pix_idx, pixel_byte, uniform_colors, zero_grid, Color};
use crate::math::Vec2;

verus! {

/// The ten digit sprites: one 8-byte column strip per digit.
pub open spec fn num_sprites_wf(num: Seq<Vec<u8>>) -> bool {
    &&& num.len() == 10
    &&& forall|d: int| 0 <= d < 10 ==> (#[trigger] num[d])@.len() == 8
}

/// Decimal digit of weight `10^e` of a score, as it is displayed.
pub open spec fn score_digit(score: int, e: int) -> int {
    if e == 0 {
        score % 10
    } else if e == 1 {
        (score / 10) % 10
    } else if e == 2 {
        (score / 100) % 10
    } else if e == 3 {
        (score / 1000) % 10
    } else {
        (score / 10000) % 10
    }
}

pub struct TopArea {
    pub top: Vec<Vec<u8>>,
    pub num_sprite: Vec<Vec<u8>>,
}

impl TopArea {
    pub open spec fn wf(self) -> bool {
        &&& rows_wf(self.top@, (TOP_HEIGHT / 8) as int, GAME_WIDTH as int)
        &&& num_sprites_wf(self.num_sprite@)
    }

    /// All dots of the region are unset.
    pub open spec fn all_zero(self) -> bool {
        forall|r: int, c: int|
            0 <= r < (TOP_HEIGHT / 8) && 0 <= c < GAME_WIDTH ==> #[trigger] self.top@[r]@[c] == 0
    }

    pub fn new(num_sprite: Vec<Vec<u8>>) -> (t: TopArea)
        requires
            num_sprites_wf(num_sprite@),
        ensures
            t.wf(),
            t.all_zero(),
            t.num_sprite@ == num_sprite@,
    {
        TopArea {
            top: zero_grid((TOP_HEIGHT / 8) as usize, GAME_WIDTH as usize),
            num_sprite,
        }
    }

    /// Resets every byte to zero.
    pub fn all_clear(&mut self)
        requires
            old(self).wf(),
        ensures
            final(self).wf(),
            final(self).all_zero(),
            final(self).num_sprite@ == old(self).num_sprite@,
            rows_wf(final(self).top@, (TOP_HEIGHT / 8) as int, GAME_WIDTH as int),
    {
        self.top = zero_grid((TOP_HEIGHT / 8) as usize, GAME_WIDTH as usize);
    }

    /// Draws the low five decimal digits of the score at the fixed score
    /// position, most significant digit first, OR-ing each digit sprite in.
    #[verifier::loop_isolation(false)]
    pub fn draw_score(&mut self, score: i32)
        requires
            old(self).wf(),
            0 <= score,
        ensures
            final(self).wf(),
            final(self).num_sprite@ == old(self).num_sprite@,
            forall|r: int, c: int|
                0 <= r < (TOP_HEIGHT / 8) && 0 <= c < GAME_WIDTH && !(r == 3 && 24 <= c < 64)
                    ==> #[trigger] final(self).top@[r]@[c] == old(self).top@[r]@[c],
            forall|m: int, dx: int|
                0 <= m < 5 && 0 <= dx < 8
                    ==> #[trigger] final(self).top@[3]@[24 + 8 * m + dx]
                        == (old(self).top@[3]@[24 + 8 * m + dx]
                            | old(self).num_sprite@[score_digit(score as int, 4 - m)]@[dx]),
    {
        let d0 = (score % 10) as usize;
        let d1 = ((score / 10) % 10) as usize;
        let d2 = ((score / 100) % 10) as usize;
        let d3 = ((score / 1000) % 10) as usize;
        let d4 = ((score / 10000) % 10) as usize;
        array_sprite(&mut self.top, Vec2::new(24, 24), &self.num_sprite[d4]);
        array_sprite(&mut self.top, Vec2::new(32, 24), &self.num_sprite[d3]);
        array_sprite(&mut self.top, Vec2::new(40, 24), &self.num_sprite[d2]);
        array_sprite(&mut self.top, Vec2::new(48, 24), &self.num_sprite[d1]);
        array_sprite(&mut self.top, Vec2::new(56, 24), &self.num_sprite[d0]);
    }

    /// Renders the region into an RGBA byte buffer: white digits on black,
    /// or the alert color while the player is exploding.
    pub fn convert_to_color_bytes(&self, player_exploding: bool) -> (r: Vec<u8>)
        requires
            self.wf(),
        ensures
            r@.len() == 28672,
            forall|i: int, bit: u8, x: int, k: int|
                0 <= i < 4 && bit < 8 && 0 <= x < 224 && 0 <= k < 4
                    ==> r@[#[trigger] pix_idx(0, 224, i, bit as int, x, k)]
                        == pixel_byte(
                        self.top@[i]@[x],
                        bit,
                        (if player_exploding { Color::Red } else { Color::White }),
                        k,
                    ),
    {
        let mut out: Vec<u8> = Vec::new();
        let colors = uniform_colors(4, if player_exploding { Color::Red } else { Color::White });
        append_region_bytes(&mut out, &self.top, &colors, 224);
        out
    }
}

} // verus!
