//! Status footer below the playfield: a 28 x 2 char region showing the
//! remaining-lives count as a digit plus one player sprite per spare life.

use vstd::prelude::*;

use crate::array_sprite::{array_sprite, rows_wf};
use crate::canvas::{BOTTOM_HEIGHT, GAME_WIDTH};
use crate::dot_map::{append_region_bytes, pix_idx, pixel_byte, uniform_colors, zero_grid, Color};
use crate::math::Vec2;
use crate::top_area::num_sprites_wf;

verus! {

pub struct BottomArea {
    pub bottom: Vec<Vec<u8>>,
    pub num_sprite: Vec<Vec<u8>>,
    pub player_sprite: Vec<u8>,
}

impl BottomArea {
    pub open spec fn wf(self) -> bool {
        &&& rows_wf(self.bottom@, (BOTTOM_HEIGHT / 8) as int, GAME_WIDTH as int)
        &&& num_sprites_wf(self.num_sprite@)
        &&& self.player_sprite@.len() == 16
    }

    /// All dots of the region are unset.
    pub open spec fn all_zero(self) -> bool {
        forall|r: int, c: int|
            0 <= r < (BOTTOM_HEIGHT / 8) && 0 <= c < GAME_WIDTH ==> #[trigger] self.bottom@[r]@[c]
                == 0
    }

    pub fn new(num_sprite: Vec<Vec<u8>>, player_sprite: Vec<u8>) -> (b: BottomArea)
        requires
            num_sprites_wf(num_sprite@),
            player_sprite@.len() == 16,
        ensures
            b.wf(),
            b.all_zero(),
            b.num_sprite@ == num_sprite@,
            b.player_sprite@ == player_sprite@,
    {
        BottomArea {
            bottom: zero_grid((BOTTOM_HEIGHT / 8) as usize, GAME_WIDTH as usize),
            num_sprite,
            player_sprite,
        }
    }

    /// Resets every byte to zero.
    pub fn all_clear(&mut self)
        ensures
            final(self).all_zero(),
            final(self).num_sprite@ == old(self).num_sprite@,
            final(self).player_sprite@ == old(self).player_sprite@,
            rows_wf(final(self).bottom@, (BOTTOM_HEIGHT / 8) as int, GAME_WIDTH as int),
    {
        self.bottom = zero_grid((BOTTOM_HEIGHT / 8) as usize, GAME_WIDTH as usize);
    }

    /// Redraws the footer from scratch: the life count as a digit at the
    /// fixed position, then one player sprite per remaining spare life.
    #[verifier::loop_isolation(false)]
    pub fn draw(&mut self, player_life: i32)
        requires
            old(self).wf(),
            0 <= player_life <= 9,
        ensures
            final(self).wf(),
            final(self).num_sprite@ == old(self).num_sprite@,
            final(self).player_sprite@ == old(self).player_sprite@,
            forall|dx: int|
                0 <= dx < 8 ==> #[trigger] final(self).bottom@[0]@[8 + dx]
                    == old(self).num_sprite@[player_life as int]@[dx],
            forall|m: int, dx: int|
                0 <= m < player_life - 1 && 0 <= dx < 16
                    ==> #[trigger] final(self).bottom@[0]@[24 + 16 * m + dx]
                        == old(self).player_sprite@[dx],
            forall|r: int, c: int|
                0 <= r < (BOTTOM_HEIGHT / 8) && 0 <= c < GAME_WIDTH
                    && !(r == 0 && (8 <= c < 16 || 24 <= c < 24 + 16 * (player_life - 1)))
                    ==> #[trigger] final(self).bottom@[r]@[c] == 0,
    {
        self.all_clear();
        array_sprite(&mut self.bottom, Vec2::new(8, 0), &self.num_sprite[player_life as usize]);
        proof {
            lemma_u8_or_zero_all();
        }
        let mut m: i32 = 0;
        let mut x: i32 = 24;
        while m < player_life - 1
            invariant
                0 <= m,
                player_life <= 9,
                m <= 9,
                m == 0 || m <= player_life - 1,
                x == 24 + 16 * m,
                rows_wf(self.bottom@, (BOTTOM_HEIGHT / 8) as int, GAME_WIDTH as int),
                self.num_sprite@ == old(self).num_sprite@,
                self.player_sprite@ == old(self).player_sprite@,
                forall|dx: int|
                    0 <= dx < 8 ==> #[trigger] self.bottom@[0]@[8 + dx]
                        == old(self).num_sprite@[player_life as int]@[dx],
                forall|j: int, dx: int|
                    0 <= j < m && 0 <= dx < 16
                        ==> #[trigger] self.bottom@[0]@[24 + 16 * j + dx]
                            == old(self).player_sprite@[dx],
                forall|r: int, c: int|
                    0 <= r < (BOTTOM_HEIGHT / 8) && 0 <= c < GAME_WIDTH
                        && !(r == 0 && (8 <= c < 16 || 24 <= c < 24 + 16 * m))
                        ==> #[trigger] self.bottom@[r]@[c] == 0,
            decreases player_life - m,
        {
            array_sprite(&mut self.bottom, Vec2::new(x, 0), &self.player_sprite);
            x += 16;
            m += 1;
        }
    }

    /// Renders the region into an RGBA byte buffer: turquoise on black, or
    /// the alert color while the player is exploding.
    pub fn convert_to_color_bytes(&self, player_exploding: bool) -> (r: Vec<u8>)
        requires
            self.wf(),
        ensures
            r@.len() == 14336,
            forall|i: int, bit: u8, x: int, k: int|
                0 <= i < 2 && bit < 8 && 0 <= x < 224 && 0 <= k < 4
                    ==> r@[#[trigger] pix_idx(0, 224, i, bit as int, x, k)]
                        == pixel_byte(
                        self.bottom@[i]@[x],
                        bit,
                        (if player_exploding { Color::Red } else { Color::Turquoise }),
                        k,
                    ),
    {
        let mut out: Vec<u8> = Vec::new();
        let colors = uniform_colors(2, if player_exploding { Color::Red } else { Color::Turquoise });
        append_region_bytes(&mut out, &self.bottom, &colors, 224);
        out
    }
}

/// OR-ing into a cleared byte writes the sprite byte itself.
proof fn lemma_u8_or_zero_all()
    by (bit_vector)
    ensures
        forall|s: u8| #[trigger] (0u8 | s) == s,
{
}

} // verus!
