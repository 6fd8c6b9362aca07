//! The rules of snake: a snake that moves on a grid, turns on command,
//! grows when it eats and dies when it leaves the board or bites itself.

use std::collections::VecDeque;

use rand::RngExt;
use vstd::prelude::*;

verus! {

#[derive(Debug, Clone, Copy, PartialEq, Eq, Structural)]
pub enum Dir {
    Up,
    Down,
    Left,
    Right,
}

/// the direction pointing the other way
pub open spec fn opposite(d: Dir) -> Dir {
    match d {
        Dir::Up => Dir::Down,
        Dir::Down => Dir::Up,
        Dir::Left => Dir::Right,
        Dir::Right => Dir::Left,
    }
}

/// whether a direction is horizontal
pub open spec fn horizontal(d: Dir) -> bool {
    d == Dir::Left || d == Dir::Right
}

impl Dir {
    /// `dir` when it is a quarter turn from `self`, otherwise `self`
    pub open spec fn spec_turn(self, dir: Dir) -> Dir {
        if horizontal(self) != horizontal(dir) { dir } else { self }
    }

    pub open spec fn spec_is_perpendicular(self, other: Dir) -> bool {
        horizontal(self) != horizontal(other)
    }

    pub fn turn(&self, dir: Self) -> (r: Self)
        ensures
            r == self.spec_turn(dir),
    {
        match (self, dir) {
            (Dir::Up, Dir::Left) => Dir::Left,
            (Dir::Up, Dir::Right) => Dir::Right,
            (Dir::Down, Dir::Left) => Dir::Left,
            (Dir::Down, Dir::Right) => Dir::Right,
            (Dir::Left, Dir::Up) => Dir::Up,
            (Dir::Left, Dir::Down) => Dir::Down,
            (Dir::Right, Dir::Up) => Dir::Up,
            (Dir::Right, Dir::Down) => Dir::Down,
            (s, _) => *s,
        }
    }

    pub fn is_perpendicular(&self, other: Self) -> (r: bool)
        ensures
            r == self.spec_is_perpendicular(other),
    {
        match (self, other) {
            (Dir::Right, Dir::Up) | (Dir::Right, Dir::Down) | (Dir::Left, Dir::Up) | (
                Dir::Left,
                Dir::Down,
            ) | (Dir::Up, Dir::Right) | (Dir::Up, Dir::Left) | (Dir::Down, Dir::Right) | (
                Dir::Down,
                Dir::Left,
            ) => true,
            _ => false,
        }
    }
}

/// A turn never sends the snake straight back into itself, and a turn
/// either takes the new direction or keeps the old one.
pub proof fn law_turn_never_reverses(d: Dir, t: Dir)
    ensures
        d.spec_turn(t) != opposite(d),
        d.spec_turn(t) == t || d.spec_turn(t) == d,
        d.spec_is_perpendicular(t) == t.spec_is_perpendicular(d),
{
}

/// whether `cell` lies on the `width` x `height` board
pub open spec fn on_board(width: i64, height: i64, cell: (i64, i64)) -> bool {
    0 <= cell.0 < width && 0 <= cell.1 < height
}

/// some board cell is not taken by `taken`
pub open spec fn has_free_cell(width: i64, height: i64, taken: Seq<(i64, i64)>) -> bool {
    exists|x: i64, y: i64| on_board(width, height, (x, y)) && !taken.contains((x, y))
}

/// the free cells of row `y` among its first `n` columns, left to right
pub open spec fn free_in_row(y: i64, n: int, exclude: Seq<(i64, i64)>) -> Seq<(i64, i64)>
    decreases n,
{
    if n <= 0 {
        Seq::empty()
    } else {
        let prev = free_in_row(y, n - 1, exclude);
        let c = ((n - 1) as i64, y);
        if exclude.contains(c) {
            prev
        } else {
            prev.push(c)
        }
    }
}

/// the free cells of the first `m` rows of a board `width` wide, row by row
pub open spec fn free_in_rows(width: i64, m: int, exclude: Seq<(i64, i64)>) -> Seq<(i64, i64)>
    decreases m,
{
    if m <= 0 {
        Seq::empty()
    } else {
        free_in_rows(width, m - 1, exclude) + free_in_row((m - 1) as i64, width as int, exclude)
    }
}

/// the board cells outside `exclude`, in reading order: row by row from the
/// top, each row left to right
pub open spec fn free_cells(width: i64, height: i64, exclude: Seq<(i64, i64)>) -> Seq<(i64, i64)> {
    free_in_rows(width, height as int, exclude)
}

/// the snake a new game starts with: three cells, head in the center,
/// trailing to the left
pub open spec fn initial_snake(width: i64, height: i64) -> Seq<(i64, i64)> {
    let cx = crate::clock::trunc_div(width as int, 2);
    let cy = crate::clock::trunc_div(height as int, 2) as i64;
    seq![(cx as i64, cy), ((cx - 1) as i64, cy), ((cx - 2) as i64, cy)]
}

/// the cell one step from `cell` in direction `d`
pub open spec fn step(cell: (i64, i64), d: Dir) -> (i64, i64) {
    match d {
        Dir::Up => (cell.0, (cell.1 - 1) as i64),
        Dir::Down => (cell.0, (cell.1 + 1) as i64),
        Dir::Left => ((cell.0 - 1) as i64, cell.1),
        Dir::Right => ((cell.0 + 1) as i64, cell.1),
    }
}

/// a cell whose neighbours all fit in `i64`
pub open spec fn steppable(cell: (i64, i64)) -> bool {
    i64::MIN < cell.0 < i64::MAX && i64::MIN < cell.1 < i64::MAX
}

/// A random index below `n`, by `rand::rng().random_range(0..n)`, which
/// draws uniformly from the range; only that the index is below `n` is
/// stated, since the draw is left to chance.
#[verifier::external_body]
pub(crate) fn random_index(n: usize) -> (r: usize)
    requires
        n > 0,
    ensures
        r < n,
{
    rand::rng().random_range(0..n)
}

/// whether `cells` holds `cell`
fn holds(cells: &VecDeque<(i64, i64)>, cell: (i64, i64)) -> (r: bool)
    ensures
        r == cells@.contains(cell),
{
    let mut i: usize = 0;
    while i < cells.len()
        invariant
            0 <= i <= cells@.len(),
            forall|j: int| 0 <= j < i ==> cells@[j] != cell,
        decreases cells@.len() - i,
    {
        let c = cells[i];
        if c.0 == cell.0 && c.1 == cell.1 {
            assert(cells@[i as int] == cell);
            return true;
        }
        i = i + 1;
    }
    false
}

/// the direction a snake heading `dir` takes on its next step, given the
/// turns waiting to be applied
pub open spec fn dir_after(dir: Dir, pending: Seq<Dir>) -> Dir {
    if pending.len() > 0 {
        dir.spec_turn(pending[0])
    } else {
        dir
    }
}

/// the turns still waiting after one step
pub open spec fn pending_after_step(pending: Seq<Dir>) -> Seq<Dir> {
    if pending.len() > 0 {
        pending.drop_first()
    } else {
        pending
    }
}

/// the turns waiting after the player asks for `d`: it is queued unless two
/// are already waiting or it would not change the direction the snake will
/// have by then
pub open spec fn pending_after_turn(dir: Dir, pending: Seq<Dir>, d: Dir) -> Seq<Dir> {
    let effective = if pending.len() > 0 {
        pending.last()
    } else {
        dir
    };
    if pending.len() < MAX_PENDING_TURNS && d.spec_is_perpendicular(effective) {
        pending.push(d)
    } else {
        pending
    }
}

/// whether the first `n` of `cells` hold `cell`
fn holds_prefix(cells: &VecDeque<(i64, i64)>, n: usize, cell: (i64, i64)) -> (r: bool)
    requires
        n <= cells@.len(),
    ensures
        r == cells@.take(n as int).contains(cell),
{
    let mut i: usize = 0;
    while i < n
        invariant
            0 <= i <= n <= cells@.len(),
            forall|j: int| 0 <= j < i ==> cells@[j] != cell,
        decreases n - i,
    {
        let c = cells[i];
        if c.0 == cell.0 && c.1 == cell.1 {
            assert(cells@.take(n as int)[i as int] == cell);
            return true;
        }
        i = i + 1;
    }
    assert forall|j: int| 0 <= j < n implies cells@.take(n as int)[j] != cell by {}
    false
}

/// whether some board cell is neither `extra` nor among the first `n` of
/// `cells`
fn free_cell_besides(width: i64, height: i64, cells: &VecDeque<(i64, i64)>, n: usize, extra: (i64, i64)) -> (r: bool)
    requires
        n <= cells@.len(),
    ensures
        r == has_free_cell(width, height, seq![extra] + cells@.take(n as int)),
{
    let ghost pre = cells@.take(n as int);
    let ghost taken = seq![extra] + pre;
    assert forall|c: (i64, i64)| taken.contains(c) <==> (c == extra || pre.contains(c)) by {
        if pre.contains(c) {
            let k = choose|k: int| 0 <= k < pre.len() && pre[k] == c;
            assert(taken[k + 1] == c);
        }
        if taken.contains(c) && c != extra {
            let k = choose|k: int| 0 <= k < taken.len() && taken[k] == c;
            assert(pre[k - 1] == c);
        }
        if c == extra {
            assert(taken[0] == c);
        }
    }
    let mut y: i64 = 0;
    while y < height
        invariant
            0 <= y,
            y <= height || height <= 0,
            n <= cells@.len(),
            pre == cells@.take(n as int),
            taken == seq![extra] + pre,
            forall|c: (i64, i64)| taken.contains(c) <==> (c == extra || pre.contains(c)),
            forall|cx: i64, cy: i64| on_board(width, height, (cx, cy)) && cy < y ==> taken.contains((cx, cy)),
        decreases height - y,
    {
        let mut x: i64 = 0;
        while x < width
            invariant
                0 <= y < height,
                0 <= x,
                x <= width || width <= 0,
                n <= cells@.len(),
                pre == cells@.take(n as int),
                taken == seq![extra] + pre,
                forall|c: (i64, i64)| taken.contains(c) <==> (c == extra || pre.contains(c)),
                forall|cx: i64, cy: i64| on_board(width, height, (cx, cy)) && (cy < y || (cy == y && cx < x)) ==> taken.contains((cx, cy)),
            decreases width - x,
        {
            if !(x == extra.0 && y == extra.1) && !holds_prefix(cells, n, (x, y)) {
                assert(on_board(width, height, (x, y)) && !taken.contains((x, y)));
                return true;
            }
            x = x + 1;
        }
        y = y + 1;
    }
    assert(!has_free_cell(width, height, taken));
    false
}

pub struct SnakeGame {
    pub width: i64,
    pub height: i64,
    pub food: (i64, i64),
    pub snake: VecDeque<(i64, i64)>,
    dir: Dir,
    /// a queue of turn directions. one is consumed on each call to `advance()`
    pending_turns: VecDeque<Dir>,
}

/// the most turns that can wait to be applied
pub const MAX_PENDING_TURNS: usize = 2;

impl SnakeGame {
    pub closed spec fn spec_width(&self) -> i64 {
        self.width
    }

    pub closed spec fn spec_height(&self) -> i64 {
        self.height
    }

    pub closed spec fn spec_food(&self) -> (i64, i64) {
        self.food
    }

    pub closed spec fn spec_snake(&self) -> Seq<(i64, i64)> {
        self.snake@
    }

    /// the board's width, as the contracts name it
    pub fn board_width(&self) -> (r: i64)
        ensures
            r == self.spec_width(),
    {
        self.width
    }

    /// the board's height, as the contracts name it
    pub fn board_height(&self) -> (r: i64)
        ensures
            r == self.spec_height(),
    {
        self.height
    }

    /// where the food lies, as the contracts name it
    pub fn food_cell(&self) -> (r: (i64, i64))
        ensures
            r == self.spec_food(),
    {
        self.food
    }

    /// the snake's cells, head first, as the contracts name them
    pub fn snake_cells(&self) -> (r: &VecDeque<(i64, i64)>)
        ensures
            r@ == self.spec_snake(),
    {
        &self.snake
    }

    pub closed spec fn spec_dir(&self) -> Dir {
        self.dir
    }

    pub closed spec fn spec_pending(&self) -> Seq<Dir> {
        self.pending_turns@
    }

    /// the direction the snake will move in on the next step
    pub open spec fn next_dir(&self) -> Dir {
        dir_after(self.spec_dir(), self.spec_pending())
    }

    /// where the head goes on the next step
    pub open spec fn next_head(&self) -> (i64, i64) {
        step(self.spec_snake()[0], self.next_dir())
    }

    /// the snake after one step without eating: new head, tail cell dropped
    pub open spec fn moved_snake(&self) -> Seq<(i64, i64)> {
        seq![self.next_head()] + self.spec_snake().drop_last()
    }

    /// the snake after one step that eats the food: it keeps its tail cell
    pub open spec fn grown_snake(&self) -> Seq<(i64, i64)> {
        seq![self.next_head()] + self.spec_snake()
    }

    /// whether the next step eats the food
    pub open spec fn will_eat(&self) -> bool {
        self.next_head() == self.spec_food()
    }

    /// the board cells outside `exclude`, in reading order
    pub fn free_cells_list(width: i64, height: i64, exclude: &VecDeque<(i64, i64)>) -> (r: Vec<(i64, i64)>)
        ensures
            r@ == free_cells(width, height, exclude@),
            forall|k: int| 0 <= k < r@.len() ==> on_board(width, height, #[trigger] r@[k]) && !exclude@.contains(r@[k]),
            has_free_cell(width, height, exclude@) ==> r@.len() > 0,
    {
        let mut free: Vec<(i64, i64)> = Vec::new();
        let mut y: i64 = 0;
        while y < height
            invariant
                0 <= y,
                y <= height || height <= 0,
                height <= 0 ==> y == 0,
                free@ == free_in_rows(width, y as int, exclude@),
                forall|k: int| 0 <= k < free@.len() ==> on_board(width, height, #[trigger] free@[k]) && !exclude@.contains(free@[k]),
                forall|cx: i64, cy: i64| on_board(width, height, (cx, cy)) && cy < y && !exclude@.contains((cx, cy)) ==> free@.contains((cx, cy)),
            decreases height - y,
        {
            let mut x: i64 = 0;
            let ghost rows = free@;
            while x < width
                invariant
                    0 <= y < height,
                    0 <= x,
                    x <= width || width <= 0,
                    width <= 0 ==> x == 0,
                    rows == free_in_rows(width, y as int, exclude@),
                    free@ == rows + free_in_row(y, x as int, exclude@),
                    forall|k: int| 0 <= k < free@.len() ==> on_board(width, height, #[trigger] free@[k]) && !exclude@.contains(free@[k]),
                    forall|cx: i64, cy: i64| on_board(width, height, (cx, cy)) && (cy < y || (cy == y && cx < x)) && !exclude@.contains((cx, cy)) ==> free@.contains((cx, cy)),
                decreases width - x,
            {
                if !holds(exclude, (x, y)) {
                    let ghost prev = free@;
                    free.push((x, y));
                    assert(free@[free@.len() - 1] == (x, y));
                    assert forall|c: (i64, i64)| prev.contains(c) implies free@.contains(c) by {
                        let k = choose|k: int| 0 <= k < prev.len() && prev[k] == c;
                        assert(free@[k] == c);
                    }
                    assert(free@ =~= rows + free_in_row(y, x + 1, exclude@));
                } else {
                    assert(free@ =~= rows + free_in_row(y, x + 1, exclude@));
                }
                x = x + 1;
            }
            assert(free_in_row(y, x as int, exclude@) == free_in_row(y, width as int, exclude@));
            assert(free@ =~= free_in_rows(width, y + 1, exclude@));
            y = y + 1;
        }
        proof {
            if has_free_cell(width, height, exclude@) {
                let (wx, wy) = choose|wx: i64, wy: i64| on_board(width, height, (wx, wy)) && !exclude@.contains((wx, wy));
                assert(free@.contains((wx, wy)));
            }
        }
        free
    }

    /// the food's cell for a draw `k` among the free cells: the `k`th free
    /// cell in reading order
    pub fn food_for_draw(width: i64, height: i64, exclude: &VecDeque<(i64, i64)>, k: usize) -> (r: (i64, i64))
        requires
            k < free_cells(width, height, exclude@).len(),
        ensures
            r == free_cells(width, height, exclude@)[k as int],
            on_board(width, height, r),
            !exclude@.contains(r),
    {
        let free = Self::free_cells_list(width, height, exclude);
        free[k]
    }

    /// a random board cell outside `exclude`: the free cells are counted,
    /// one of them is drawn uniformly, and `food_for_draw` places it
    fn gen_food_loc(width: i64, height: i64, exclude: &VecDeque<(i64, i64)>) -> (r: (i64, i64))
        requires
            has_free_cell(width, height, exclude@),
        ensures
            on_board(width, height, r),
            !exclude@.contains(r),
            exists|k: int| 0 <= k < free_cells(width, height, exclude@).len() && r == free_cells(width, height, exclude@)[k],
    {
        let n = Self::free_cells_list(width, height, exclude).len();
        let k = random_index(n);
        Self::food_for_draw(width, height, exclude, k)
    }

    pub fn new(width: i64, height: i64) -> (g: Self)
        requires
            has_free_cell(width, height, initial_snake(width, height)),
        ensures
            g.spec_width() == width,
            g.spec_height() == height,
            g.spec_snake() == initial_snake(width, height),
            on_board(width, height, g.spec_food()),
            !g.spec_snake().contains(g.spec_food()),
            exists|k: int|
                0 <= k < free_cells(width, height, initial_snake(width, height)).len() && g.spec_food() == free_cells(
                    width,
                    height,
                    initial_snake(width, height),
                )[k],
            g.spec_dir() == Dir::Right,
            g.spec_pending().len() == 0,
    {
        let center = (width / 2, height / 2);
        proof {
            let (x, y) = choose|x: i64, y: i64| on_board(width, height, (x, y)) && !initial_snake(width, height).contains((x, y));
        }
        let mut snake: VecDeque<(i64, i64)> = VecDeque::new();
        snake.push_back(center);
        snake.push_back((center.0 - 1, center.1));
        snake.push_back((center.0 - 2, center.1));
        assert(snake@ =~= initial_snake(width, height));
        let food = Self::gen_food_loc(width, height, &snake);
        Self { width, height, food, snake, dir: Dir::Right, pending_turns: VecDeque::new() }
    }

    fn head_pos(&self) -> (r: (i64, i64))
        requires
            self.spec_snake().len() > 0,
        ensures
            r == self.spec_snake()[0],
    {
        self.snake[0]
    }

    /// moves the snake one step, first applying the oldest pending turn;
    /// eating the food grows the snake and places new food
    pub fn advance(&mut self)
        requires
            old(self).spec_snake().len() > 0,
            steppable(old(self).spec_snake()[0]),
            old(self).will_eat() ==> has_free_cell(old(self).spec_width(), old(self).spec_height(), old(self).moved_snake()),
        ensures
            final(self).spec_width() == old(self).spec_width(),
            final(self).spec_height() == old(self).spec_height(),
            final(self).spec_dir() == old(self).next_dir(),
            final(self).spec_pending() == pending_after_step(old(self).spec_pending()),
            old(self).will_eat() ==> {
                &&& final(self).spec_snake() == old(self).grown_snake()
                &&& on_board(final(self).spec_width(), final(self).spec_height(), final(self).spec_food())
                &&& !old(self).moved_snake().contains(final(self).spec_food())
                &&& exists|k: int|
                    0 <= k < free_cells(old(self).spec_width(), old(self).spec_height(), old(self).moved_snake()).len()
                        && final(self).spec_food() == free_cells(
                        old(self).spec_width(),
                        old(self).spec_height(),
                        old(self).moved_snake(),
                    )[k]
            },
            !old(self).will_eat() ==> final(self).spec_snake() == old(self).moved_snake() && final(self).spec_food()
                == old(self).spec_food(),
    {
        // turn if there's a pending turn
        if let Some(dir) = self.pending_turns.pop_front() {
            self.dir = self.dir.turn(dir);
        }

        // move forward
        let mut new_head = self.head_pos();
        match self.dir {
            Dir::Up => new_head.1 = new_head.1 - 1,
            Dir::Down => new_head.1 = new_head.1 + 1,
            Dir::Left => new_head.0 = new_head.0 - 1,
            Dir::Right => new_head.0 = new_head.0 + 1,
        }

        let last = self.snake.pop_back();
        self.snake.push_front(new_head);

        // eat?
        if new_head.0 == self.food.0 && new_head.1 == self.food.1 {
            // the new food is placed clear of the moved snake, before it
            // grows back its tail cell
            assert(self.spec_snake() =~= old(self).moved_snake());
            self.food = Self::gen_food_loc(self.width, self.height, &self.snake);
            if let Some(last) = last {
                self.snake.push_back(last);
            }
            assert(self.spec_snake() =~= old(self).grown_snake());
        } else {
            assert(self.spec_snake() =~= old(self).moved_snake());
        }
    }

    /// queues a turn, unless two are already waiting or it would not change
    /// the direction the snake will have by then
    pub fn turn(&mut self, dir: Dir)
        ensures
            final(self).spec_width() == old(self).spec_width(),
            final(self).spec_height() == old(self).spec_height(),
            final(self).spec_food() == old(self).spec_food(),
            final(self).spec_snake() == old(self).spec_snake(),
            final(self).spec_dir() == old(self).spec_dir(),
            final(self).spec_pending() == pending_after_turn(old(self).spec_dir(), old(self).spec_pending(), dir),
    {
        // don't queue too many turns at once
        if self.pending_turns.len() >= MAX_PENDING_TURNS {
            return;
        }

        // make sure incoming turn is perpendicular to what will be the
        // snake's direction when this is applied
        let n = self.pending_turns.len();
        let effective_dir = if n > 0 {
            self.pending_turns[n - 1]
        } else {
            self.dir
        };

        // only queue this if it's a real turn
        if dir.is_perpendicular(effective_dir) {
            self.pending_turns.push_back(dir);
        }
    }

    /// the snake has left the board or run into itself
    pub open spec fn spec_is_dead(&self) -> bool {
        let head = self.spec_snake()[0];
        !on_board(self.spec_width(), self.spec_height(), head) || self.spec_snake().drop_first().contains(head)
    }

    pub fn is_dead(&self) -> (r: bool)
        requires
            self.spec_snake().len() > 0,
        ensures
            r == self.spec_is_dead(),
    {
        let head = self.head_pos();
        if head.0 < 0 || head.0 >= self.width || head.1 < 0 || head.1 >= self.height {
            return true;
        }
        let mut i: usize = 1;
        while i < self.snake.len()
            invariant
                1 <= i <= self.spec_snake().len(),
                head == self.spec_snake()[0],
                forall|j: int| 1 <= j < i ==> self.spec_snake()[j] != head,
            decreases self.spec_snake().len() - i,
        {
            let c = self.snake[i];
            if c.0 == head.0 && c.1 == head.1 {
                assert(self.spec_snake().drop_first()[i - 1] == head);
                return true;
            }
            i = i + 1;
        }
        assert forall|j: int| 0 <= j < self.spec_snake().drop_first().len() implies self.spec_snake().drop_first()[j] != head by {
            assert(self.spec_snake().drop_first()[j] == self.spec_snake()[j + 1]);
        }
        false
    }

    /// the next step can be taken: the head's neighbours fit in `i64`, and a
    /// step that eats the food leaves a cell outside the moved snake for new
    /// food
    pub open spec fn spec_can_advance(&self) -> bool {
        &&& self.spec_snake().len() > 0
        &&& steppable(self.spec_snake()[0])
        &&& self.will_eat() ==> has_free_cell(self.spec_width(), self.spec_height(), self.moved_snake())
    }

    pub fn can_advance(&self) -> (r: bool)
        ensures
            r == self.spec_can_advance(),
    {
        if self.snake.len() == 0 {
            return false;
        }
        let head = self.head_pos();
        if head.0 == i64::MIN || head.0 == i64::MAX || head.1 == i64::MIN || head.1 == i64::MAX {
            return false;
        }
        let n = self.pending_turns.len();
        let d = if n > 0 {
            self.dir.turn(self.pending_turns[0])
        } else {
            self.dir
        };
        let next = match d {
            Dir::Up => (head.0, head.1 - 1),
            Dir::Down => (head.0, head.1 + 1),
            Dir::Left => (head.0 - 1, head.1),
            Dir::Right => (head.0 + 1, head.1),
        };
        assert(next == self.next_head());
        if next.0 == self.food.0 && next.1 == self.food.1 {
            let n = self.snake.len() - 1;
            assert(self.spec_snake().drop_last() =~= self.spec_snake().take(n as int));
            free_cell_besides(self.width, self.height, &self.snake, n, next)
        } else {
            true
        }
    }

    /// one point per cell grown beyond the starting three
    pub fn score(&self) -> (r: u64)
        ensures
            r == if self.spec_snake().len() >= 3 { self.spec_snake().len() - 3 } else { 0 },
    {
        self.snake.len().saturating_sub(3) as u64
    }
}

/// Moving without eating keeps the snake's length; eating adds one cell,
/// so the score goes up by exactly one per food eaten.
pub proof fn law_length_changes_only_by_eating(g: SnakeGame)
    requires
        g.spec_snake().len() > 0,
    ensures
        g.moved_snake().len() == g.spec_snake().len(),
        g.grown_snake().len() == g.spec_snake().len() + 1,
{
}

/// A snake whose head lies on any other of its cells has bitten itself and
/// is dead, wherever on the board it is.
pub proof fn law_biting_itself_is_death(g: SnakeGame, j: int)
    requires
        1 <= j < g.spec_snake().len(),
        g.spec_snake()[j] == g.spec_snake()[0],
    ensures
        g.spec_is_dead(),
{
    assert(g.spec_snake().drop_first()[j - 1] == g.spec_snake()[0]);
}

/// A snake whose head has left the board is dead.
pub proof fn law_leaving_the_board_is_death(g: SnakeGame)
    requires
        g.spec_snake().len() > 0,
        g.spec_snake()[0].0 < 0 || g.spec_snake()[0].0 >= g.spec_width() || g.spec_snake()[0].1 < 0
            || g.spec_snake()[0].1 >= g.spec_height(),
    ensures
        g.spec_is_dead(),
{
}

/// Nothing else kills: a snake whose head is on the board and on none of
/// its other cells is alive.
pub proof fn law_only_walls_and_itself_kill(g: SnakeGame)
    requires
        g.spec_snake().len() > 0,
        0 <= g.spec_snake()[0].0 < g.spec_width(),
        0 <= g.spec_snake()[0].1 < g.spec_height(),
        forall|j: int| 1 <= j < g.spec_snake().len() ==> #[trigger] g.spec_snake()[j] != g.spec_snake()[0],
    ensures
        !g.spec_is_dead(),
{
    if g.spec_snake().drop_first().contains(g.spec_snake()[0]) {
        let k = choose|k: int| 0 <= k < g.spec_snake().drop_first().len() && g.spec_snake().drop_first()[k] == g.spec_snake()[0];
        assert(g.spec_snake()[k + 1] == g.spec_snake()[0]);
    }
}

/// A step that does not eat and moves the head onto a cell of the body
/// that stays (any but the tail, which moves away) leaves a dead snake:
/// the game `after` holding the moved snake, on the same board, is dead.
pub proof fn law_stepping_into_the_body_is_death(g: SnakeGame, after: SnakeGame, j: int)
    requires
        g.spec_snake().len() > 0,
        0 <= j < g.spec_snake().len() - 1,
        g.spec_snake()[j] == g.next_head(),
        after.spec_snake() == g.moved_snake(),
        after.spec_width() == g.spec_width(),
        after.spec_height() == g.spec_height(),
    ensures
        after.spec_is_dead(),
{
    assert(after.spec_snake()[j + 1] == g.spec_snake()[j]);
    law_biting_itself_is_death(after, j + 1);
}

} // verus!
