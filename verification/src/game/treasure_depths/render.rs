//! Scrolling of the treasure-depths world view.

use vstd::prelude::*;

use super::game::{max_int, min_int, DEEPEST_ROW, SKY_HEIGHT};

verus! {

/// the topmost row in view after following the player at row `y`
pub open spec fn scrolled(scroll: i64, y: i64, height: usize) -> i64 {
    max_int(min_int(scroll as int, y - SKY_HEIGHT), y + SKY_HEIGHT - height) as i64
}

/// On a canvas at least twice the sky's height tall, the player is always in
/// view after scrolling, with the sky's height of room above.
pub proof fn law_player_stays_in_view(scroll: i64, y: i64, height: usize)
    requires
        SKY_HEIGHT - 1 <= y <= DEEPEST_ROW,
        2 * SKY_HEIGHT <= height <= DEEPEST_ROW,
    ensures
        scrolled(scroll, y, height) <= y - SKY_HEIGHT,
        y < scrolled(scroll, y, height) + height,
{
}

/// follows the player up and down the world
pub struct Renderer {
    scroll: i64,
}

impl Renderer {
    pub closed spec fn spec_scroll(&self) -> i64 {
        self.scroll
    }

    pub fn new() -> (r: Self)
        ensures
            r.spec_scroll() == 0,
    {
        Self { scroll: 0 }
    }

    /// Keeps the player in view on a canvas `height` rows tall: the view
    /// scrolls up when the player nears its top and down when the player
    /// nears its bottom, keeping a margin of the sky's height.
    pub fn update_scroll(&mut self, player_y: i64, height: usize)
        requires
            SKY_HEIGHT - 1 <= player_y <= DEEPEST_ROW,
            height <= DEEPEST_ROW,
        ensures
            final(self).spec_scroll() == scrolled(old(self).spec_scroll(), player_y, height),
    {
        // scroll up if the player is in the top of the screen
        let up = player_y - SKY_HEIGHT;
        if up < self.scroll {
            self.scroll = up;
        }
        // scroll down if the player is in the bottom of the screen
        let down = player_y + SKY_HEIGHT - height as i64;
        if down > self.scroll {
            self.scroll = down;
        }
    }

    /// the topmost world row in view
    pub fn scroll(&self) -> (r: i64)
        ensures
            r == self.spec_scroll(),
    {
        self.scroll
    }
}

} // verus!
