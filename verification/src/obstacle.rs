//! The wall that the dragon has to pass, and the gap in it.

use vstd::prelude::*;
use bracket_lib::prelude::RandomNumberGenerator;
use crate::chance::roll_range;
use crate::player::Player;
use crate::screen::SCREEN_HEIGHT;

verus! {

/// Size of the gap at score 0. Each point takes one row off.
pub const GAP_BASELINE: i32 = 20;

/// First row in which the centre of a gap can lie.
pub const GAP_BAND_START: i32 = 10;

/// Row that follows the last one in which the centre of a gap can lie.
pub const GAP_BAND_END: i32 = 40;

/// A wall with a gap. There is one wall at a time; once the player is past
/// it, another one takes its place.
#[derive(Clone, Copy, Debug, PartialEq, Eq, Structural)]
pub struct Obstacle {
    /// Column in the world.
    pub x: i32,
    /// Row of the middle of the gap.
    pub gap_center_y: i32,
    /// Height of the gap in rows.
    pub size: i32,
}

/// Half of `n`, rounded towards zero.
pub open spec fn half(n: int) -> int {
    if n >= 0 {
        n / 2
    } else {
        -((-n) / 2)
    }
}

/// Size of the gap at `score` with the minimum `min_gap`: [`GAP_BASELINE`]
/// less the score, but not less than the minimum. Where the difference is
/// more than an `i32` can hold, the largest `i32` stands in for it.
pub open spec fn gap_size(score: int, min_gap: int) -> int {
    let shrunk = if GAP_BASELINE - score > i32::MAX {
        i32::MAX as int
    } else {
        GAP_BASELINE - score
    };
    if min_gap >= shrunk {
        min_gap
    } else {
        shrunk
    }
}

impl Obstacle {
    /// The wall at column `x` whose gap is centred on row `gap_center_y`, for
    /// a game at `score` with the minimum gap `min_gap_size`.
    pub open spec fn generated(x: i32, gap_center_y: i32, score: i32, min_gap_size: i32) -> Obstacle {
        Obstacle { x, gap_center_y, size: gap_size(score as int, min_gap_size as int) as i32 }
    }

    /// Half the height of the gap.
    pub open spec fn half_size(self) -> int {
        half(self.size as int)
    }

    /// The topmost row of the gap.
    pub open spec fn gap_top(self) -> int {
        self.gap_center_y - self.half_size()
    }

    /// The lowest row of the gap.
    pub open spec fn gap_bottom(self) -> int {
        self.gap_center_y + self.half_size()
    }

    /// Whether the player has hit the wall: it is in the wall's column and
    /// above the top or below the bottom of the gap.
    pub open spec fn collides(self, player: Player) -> bool {
        player.x == self.x && (player.y < self.gap_top() || player.y > self.gap_bottom())
    }

    /// Whether the centre of the gap lies in the band from which it is drawn.
    pub open spec fn centered_in_band(self) -> bool {
        GAP_BAND_START <= self.gap_center_y < GAP_BAND_END
    }

    /// Whether the whole gap lies on the screen.
    pub open spec fn fits_screen(self) -> bool {
        0 <= self.gap_top() && self.gap_bottom() < SCREEN_HEIGHT
    }

    /// A wall as the game makes them: the centre of its gap in the band, and
    /// the gap between one row and [`GAP_BASELINE`] rows high.
    pub open spec fn well_formed(self) -> bool {
        self.centered_in_band() && 1 <= self.size <= GAP_BASELINE
    }

    /// Whether the wall fills `row` in its column. The wall stands above the
    /// gap and from the lowest row of the gap downwards.
    pub open spec fn fills(self, row: int) -> bool {
        row < self.gap_top() || row >= self.gap_bottom()
    }

    /// The wall at column `x` with the given centre of the gap. The size of
    /// the gap follows from the score and the minimum.
    pub fn with_gap_center(x: i32, gap_center_y: i32, score: i32, min_gap_size: i32) -> (o: Obstacle)
        ensures
            o == Obstacle::generated(x, gap_center_y, score, min_gap_size),
    {
        let shrunk: i32 = if score < GAP_BASELINE - i32::MAX {
            i32::MAX
        } else {
            GAP_BASELINE - score
        };
        let size: i32 = if min_gap_size >= shrunk {
            min_gap_size
        } else {
            shrunk
        };
        Obstacle { x, gap_center_y, size }
    }

    /// A new wall at column `x`. The centre of its gap is drawn by chance
    /// from the band; everything else is as in [`Obstacle::generated`].
    pub fn new(x: i32, score: i32, min_gap_size: i32) -> (o: Obstacle)
        ensures
            o == Obstacle::generated(x, o.gap_center_y, score, min_gap_size),
            o.centered_in_band(),
    {
        let mut random = RandomNumberGenerator::new();
        let gap_center_y: i32 = roll_range(&mut random, GAP_BAND_START, GAP_BAND_END);
        Obstacle::with_gap_center(x, gap_center_y, score, min_gap_size)
    }

    /// Whether `player` has hit this wall.
    pub fn hit_obstacle(&self, player: &Player) -> (hit: bool)
        ensures
            hit == self.collides(*player),
    {
        let half_size: i64 = (self.size / 2) as i64;
        let does_x_match = player.x == self.x;
        let player_above_gap = (player.y as i64) < self.gap_center_y as i64 - half_size;
        let player_below_gap = (player.y as i64) > self.gap_center_y as i64 + half_size;
        does_x_match && (player_above_gap || player_below_gap)
    }

    /// Column of the screen in which the wall shows while the player is at
    /// column `player_x` of the world.
    pub fn screen_x(&self, player_x: i32) -> (column: i64)
        ensures
            column == self.x - player_x,
    {
        self.x as i64 - player_x as i64
    }

    /// Whether the wall is to be drawn in `row`.
    pub fn is_wall(&self, row: i32) -> (wall: bool)
        ensures
            wall == self.fills(row as int),
    {
        let half_size: i64 = (self.size / 2) as i64;
        (row as i64) < self.gap_center_y as i64 - half_size
            || (row as i64) >= self.gap_center_y as i64 + half_size
    }
}

/// From score 0 on, the gap is [`GAP_BASELINE`] less the score, and the
/// minimum where that is more.
pub proof fn lemma_gap_size(score: i32, min_gap: i32)
    requires
        score >= 0,
    ensures
        gap_size(score as int, min_gap as int) == if min_gap >= GAP_BASELINE - score {
            min_gap as int
        } else {
            GAP_BASELINE - score
        },
        gap_size(score as int, min_gap as int) >= min_gap,
        i32::MIN <= gap_size(score as int, min_gap as int) <= i32::MAX,
{
}

/// The gap never grows with the score.
pub proof fn lemma_gap_shrinks(score: i32, later: i32, min_gap: i32)
    requires
        score <= later,
    ensures
        gap_size(later as int, min_gap as int) <= gap_size(score as int, min_gap as int),
{
}

/// A player in another column than the wall does not collide with it,
/// whatever its row.
pub proof fn lemma_miss_off_column(o: Obstacle, p: Player)
    requires
        p.x != o.x,
    ensures
        !o.collides(p),
{
}

/// A player in the column of the wall collides with it exactly when its row
/// is outside the closed range from the top to the bottom of the gap.
pub proof fn lemma_hit_in_column(o: Obstacle, p: Player)
    requires
        p.x == o.x,
    ensures
        o.collides(p) <==> !(o.gap_top() <= p.y <= o.gap_bottom()),
{
}

/// A well-formed wall has its whole gap on the screen.
pub proof fn lemma_gap_on_screen(o: Obstacle)
    requires
        o.well_formed(),
    ensures
        o.fits_screen(),
{
}

/// With a minimum gap from 1 to 10 and a score that is not negative, a wall
/// whose gap is centred in the band is well formed, and its gap is not
/// smaller than the minimum.
pub proof fn lemma_generated_well_formed(x: i32, gap_center_y: i32, score: i32, min_gap: i32)
    requires
        GAP_BAND_START <= gap_center_y < GAP_BAND_END,
        score >= 0,
        1 <= min_gap <= 10,
    ensures
        Obstacle::generated(x, gap_center_y, score, min_gap).well_formed(),
        Obstacle::generated(x, gap_center_y, score, min_gap).size >= min_gap,
{
}

} // verus!
