use crate::grid::{advance, opposite, Direction, GridPosition, GRID_HEIGHT, GRID_WIDTH};
use crate::rng::rand_below;
use oorandom::Rand32;
use std::collections::VecDeque;
use vstd::prelude::*;

verus! {

/// A cell of the snake's body.
#[derive(Clone, Copy, Debug, PartialEq, Eq, Structural)]
pub struct Segment {
    pub pos: GridPosition,
}

/// The food the snake is after.
#[derive(Clone, Copy, Debug, PartialEq, Eq, Structural)]
pub struct Food {
    pub pos: GridPosition,
}

/// What the head ran into on the last tick.
#[derive(Clone, Copy, Debug, PartialEq, Eq, Structural)]
pub enum Ate {
    Itself,
    Food,
}

/// The snake: its head, its body (front = the cell the head just left,
/// back = the tail), the direction it travels, the last direction a tick
/// applied, at most one buffered turn, and its segment count.
pub struct Snake {
    pub head: Segment,
    pub dir: Direction,
    pub body: VecDeque<Segment>,
    pub ate: Option<Ate>,
    pub last_update_dir: Direction,
    pub next_dir: Option<Direction>,
    pub num_segments: u32,
}

/// Position of a cell when the field is read column by column.
pub open spec fn cell_index(p: GridPosition) -> int {
    p.x * GRID_HEIGHT + p.y
}

/// The `k`-th cell of the field when it is read column by column.
pub open spec fn cell_at(k: int) -> GridPosition {
    GridPosition { x: (k / (GRID_HEIGHT as int)) as i16, y: (k % (GRID_HEIGHT as int)) as i16 }
}

/// Direction inputs never turn the snake back onto its own neck. For
/// every well-formed snake and any two inputs between ticks: the direction
/// still does not reverse the last move, and the next tick does not step
/// onto the segment behind the head. When the first input is a turn from a direction already applied,
/// the second input is buffered or dropped, and the next tick moves in the
/// direction of that first turn.
pub proof fn lemma_no_reversal_into_neck(s: Snake, d1: Direction, d2: Direction)
    requires
        s.wf(),
    ensures
        ({
            let last = s.last_update_dir;
            let (a, n1) = steered(s.dir, last, s.next_dir, d1);
            let (b, n2) = steered(a, last, n1, d2);
            &&& opposite(b) != last
            &&& advance(s.head.pos, heading_of(b, last, n2)) != s.body@[0].pos
            &&& (s.dir == last && d1 != last && opposite(d1) != last) ==> {
                &&& b == d1
                &&& heading_of(b, last, n2) == d1
            }
        }),
{
    let last = s.last_update_dir;
    let (a, n1) = steered(s.dir, last, s.next_dir, d1);
    let (b, n2) = steered(a, last, n1, d2);
    let h = heading_of(b, last, n2);
    assert(h != opposite(last));
    crate::grid::lemma_advance_injective(s.head.pos, h, opposite(last));
}

/// A snake of fewer cells than the field has leaves some cell of the
/// field free.
pub proof fn lemma_short_snake_leaves_room(s: &Snake)
    requires
        s.cells().len() < GRID_WIDTH * GRID_HEIGHT,
    ensures
        exists|p: GridPosition| p.in_grid() && !s.covers(p),
{
    let idx = s.cells().map_values(|c: Segment| cell_index(c.pos));
    let all = vstd::set_lib::set_int_range(0, GRID_WIDTH * GRID_HEIGHT);
    if !(exists|p: GridPosition| p.in_grid() && !s.covers(p)) {
        assert forall|k: int| all.contains(k) implies idx.to_set().contains(k) by {
            let p = cell_at(k);
            assert(0 <= k / 20 < 30 && 0 <= k % 20 < 20 && (k / 20) * 20 + k % 20 == k)
                by (nonlinear_arith)
                requires 0 <= k < 600;
            assert(p.in_grid());
            assert(cell_index(p) == k);
            assert(s.covers(p));
            let i = choose|i: int| 0 <= i < s.cells().len() && #[trigger] s.cells()[i].pos == p;
            assert(idx[i] == k);
        }
        idx.lemma_cardinality_of_set();
        vstd::seq_lib::seq_to_set_is_finite(idx);
        vstd::set_lib::lemma_int_range(0, GRID_WIDTH * GRID_HEIGHT);
        vstd::set_lib::lemma_len_subset(all, idx.to_set());
        assert(false);
    }
}

/// The direction a tick moves in, given the current direction, the last
/// applied one and the buffered turn: the buffered turn once the current
/// direction has been applied, unless it would reverse the last move; else
/// the current direction.
pub open spec fn heading_of(dir: Direction, last: Direction, next: Option<Direction>) -> Direction {
    if last == dir && next is Some && opposite(next->Some_0) != last {
        next->Some_0
    } else {
        dir
    }
}

/// The direction and buffered turn after a direction input `d`. While a
/// turn is still unapplied, `d` is buffered (replacing any earlier buffered
/// turn) unless it reverses that turn, in which case it is dropped.
/// Otherwise `d` takes effect at once unless it reverses the last move, in
/// which case it is dropped.
pub open spec fn steered(dir: Direction, last: Direction, next: Option<Direction>, d: Direction) -> (
    Direction,
    Option<Direction>,
) {
    if dir != last {
        if opposite(d) != dir {
            (dir, Some(d))
        } else {
            (dir, next)
        }
    } else if opposite(d) != last {
        (d, next)
    } else {
        (dir, next)
    }
}

impl Segment {
    pub fn new(pos: GridPosition) -> (r: Self)
        ensures
            r.pos == pos,
    {
        Segment { pos }
    }
}

impl Food {
    pub fn new(pos: GridPosition) -> (r: Self)
        ensures
            r.pos == pos,
    {
        Food { pos }
    }
}

impl Snake {
    /// Every cell the snake covers, head first.
    pub open spec fn cells(&self) -> Seq<Segment> {
        seq![self.head] + self.body@
    }

    /// The snake covers cell `p`.
    pub open spec fn covers(&self, p: GridPosition) -> bool {
        exists|i: int| 0 <= i < self.cells().len() && #[trigger] self.cells()[i].pos == p
    }

    /// Well-formed: every cell on the field, a body of at least one
    /// segment, the segment behind the head lying one step against the
    /// last applied direction, and a current direction that does not
    /// reverse it.
    pub open spec fn wf(&self) -> bool {
        &&& self.head.pos.in_grid()
        &&& self.body@.len() >= 1
        &&& forall|i: int| 0 <= i < self.body@.len() ==> (#[trigger] self.body@[i]).pos.in_grid()
        &&& self.body@[0].pos == advance(self.head.pos, opposite(self.last_update_dir))
        &&& opposite(self.dir) != self.last_update_dir
    }

    /// The direction the next tick moves in: the buffered turn if the
    /// current direction has already been applied, else the current one.
    pub open spec fn heading(&self) -> Direction {
        heading_of(self.dir, self.last_update_dir, self.next_dir)
    }

    /// Where the head goes on the next tick.
    pub open spec fn next_head(&self) -> GridPosition {
        advance(self.head.pos, self.heading())
    }

    /// What the next tick runs into, with food at `food`: the snake itself
    /// before the food.
    pub open spec fn outcome(&self, food: GridPosition) -> Option<Ate> {
        if self.covers(self.next_head()) {
            Some(Ate::Itself)
        } else if self.next_head() == food {
            Some(Ate::Food)
        } else {
            None
        }
    }

    /// `s` is this snake one tick later, with food at `food`: the buffered
    /// turn taken if due, the head one step on, the old head pushed onto
    /// the body, what was hit recorded, the tail dropped only if nothing
    /// was hit, and the count raised on food.
    pub open spec fn stepped(&self, s: &Snake, food: GridPosition) -> bool {
        &&& s.dir == self.heading()
        &&& s.last_update_dir == self.heading()
        &&& s.next_dir == (if self.last_update_dir == self.dir && self.next_dir is Some {
            None
        } else {
            self.next_dir
        })
        &&& s.head.pos == self.next_head()
        &&& s.ate == self.outcome(food)
        &&& s.body@ == (if s.ate is None {
            self.cells().drop_last()
        } else {
            self.cells()
        })
        &&& s.num_segments == (if s.ate == Some(Ate::Food) {
            self.num_segments + 1
        } else {
            self.num_segments as int
        })
    }

    /// `s` is this snake after the direction input `d`: only the direction
    /// and the buffered turn change, as `steered` says.
    pub open spec fn turned(&self, s: &Snake, d: Direction) -> bool {
        &&& (s.dir, s.next_dir) == steered(self.dir, self.last_update_dir, self.next_dir, d)
        &&& s.head == self.head
        &&& s.body@ == self.body@
        &&& s.ate == self.ate
        &&& s.last_update_dir == self.last_update_dir
        &&& s.num_segments == self.num_segments
    }

    /// The cells among the first `n` of the field (read column by column)
    /// that the snake leaves free, in that order.
    pub open spec fn free_prefix(&self, n: nat) -> Seq<GridPosition>
        decreases n,
    {
        if n == 0 {
            Seq::empty()
        } else {
            let prev = self.free_prefix((n - 1) as nat);
            if self.covers(cell_at(n - 1)) {
                prev
            } else {
                prev.push(cell_at(n - 1))
            }
        }
    }

    /// Every free cell of the field, in column-by-column order.
    pub open spec fn free_list(&self) -> Seq<GridPosition> {
        self.free_prefix((GRID_WIDTH * GRID_HEIGHT) as nat)
    }

    /// A snake of two cells: the head at `pos` and one segment one step
    /// towards `direction`, travelling away from it.
    pub fn new(pos: GridPosition, direction: Direction) -> (r: Self)
        ensures
            r.head.pos == pos,
            r.body@ == seq![Segment { pos: advance(pos, direction) }],
            r.dir == opposite(direction),
            r.last_update_dir == opposite(direction),
            r.next_dir is None,
            r.ate is None,
            r.num_segments == 2,
            pos.in_grid() ==> r.wf(),
    {
        let mut body: VecDeque<Segment> = VecDeque::new();
        let pos2 = GridPosition::new_from_move(pos, direction);
        body.push_back(Segment::new((pos2.x, pos2.y).into()));
        let num_segments: u32 = (body.len() + 1) as u32;
        let dir = direction.inverse();
        proof {
            if pos.in_grid() {
                crate::grid::lemma_advance_inverse(pos, direction);
            }
        }
        Snake {
            head: Segment::new(pos),
            dir,
            body,
            ate: None,
            last_update_dir: dir,
            next_dir: None,
            num_segments,
        }
    }

    /// The head is on the food.
    pub fn eats(&self, food: &Food) -> (r: bool)
        ensures
            r == (self.head.pos == food.pos),
    {
        self.head.pos == food.pos
    }

    /// The head is on a segment of the body.
    pub fn eats_self(&self) -> (r: bool)
        ensures
            r == exists|i: int| 0 <= i < self.body@.len() && #[trigger] self.body@[i].pos == self.head.pos,
    {
        let n = self.body.len();
        let mut i: usize = 0;
        while i < n
            invariant
                n == self.body@.len(),
                0 <= i <= n,
                forall|j: int| 0 <= j < i ==> (#[trigger] self.body@[j]).pos != self.head.pos,
            decreases n - i,
        {
            if self.body[i].pos == self.head.pos {
                return true;
            }
            i += 1;
        }
        false
    }

    /// The snake covers `pos`, with its head or a body segment.
    pub fn occupies(&self, pos: GridPosition) -> (r: bool)
        ensures
            r == self.covers(pos),
    {
        if self.head.pos == pos {
            assert(self.cells()[0].pos == pos);
            return true;
        }
        let n = self.body.len();
        let mut i: usize = 0;
        while i < n
            invariant
                n == self.body@.len(),
                0 <= i <= n,
                self.head.pos != pos,
                forall|j: int| 0 <= j < i ==> (#[trigger] self.body@[j]).pos != pos,
            decreases n - i,
        {
            if self.body[i].pos == pos {
                assert(self.cells()[i + 1] == self.body@[i as int]);
                return true;
            }
            i += 1;
        }
        assert forall|k: int| 0 <= k < self.cells().len() implies #[trigger] self.cells()[k].pos != pos by {
            if k > 0 {
                assert(self.cells()[k] == self.body@[k - 1]);
            }
        }
        false
    }

    /// One tick: take the buffered turn if the current direction has been
    /// applied and the turn does not reverse it (the buffer is cleared
    /// either way), step the head, then check what it ran into. Unless it ran
    /// into something the tail is dropped, so the snake moves; on food the
    /// snake grows by one.
    pub fn update(&mut self, food: &Food)
        requires
            old(self).num_segments < u32::MAX,
        ensures
            old(self).stepped(&*final(self), food.pos),
            final(self).ate == Some(Ate::Itself) <==> old(self).covers(old(self).next_head()),
            final(self).ate is None ==> {
                &&& final(self).body@.len() == old(self).body@.len()
                &&& final(self).cells() == seq![final(self).head] + old(self).cells().drop_last()
            },
            old(self).wf() ==> final(self).wf(),
            old(self).wf() ==> final(self).head.pos != old(self).body@[0].pos,
    {
        if self.last_update_dir == self.dir && self.next_dir.is_some() {
            let turn = self.next_dir.unwrap();
            if turn.inverse() != self.last_update_dir {
                self.dir = turn;
            }
            self.next_dir = None;
        }
        let new_head_pos = GridPosition::new_from_move(self.head.pos, self.dir);
        let new_head = Segment::new(new_head_pos);

        let ghost before = self.cells();
        self.body.push_front(self.head);
        self.head = new_head;
        assert(self.body@ == before);

        let hit_self = self.eats_self();
        proof {
            if hit_self {
                let i = choose|i: int|
                    0 <= i < self.body@.len() && #[trigger] self.body@[i].pos == self.head.pos;
                assert(before[i].pos == new_head_pos);
            } else {
                assert forall|i: int| 0 <= i < before.len() implies #[trigger] before[i].pos
                    != new_head_pos by {
                    assert(self.body@[i] == before[i]);
                }
            }
        }
        assert(before =~= old(self).cells());
        assert(hit_self == old(self).covers(new_head_pos));
        if hit_self {
            self.ate = Some(Ate::Itself);
        } else if self.eats(food) {
            self.ate = Some(Ate::Food);
            self.num_segments += 1;
        } else {
            self.ate = None;
        }

        if self.ate.is_none() {
            self.body.pop_back();
        }
        self.last_update_dir = self.dir;
        proof {
            if old(self).wf() {
                crate::grid::lemma_advance_inverse(old(self).head.pos, self.dir);
                crate::grid::lemma_advance_injective(
                    old(self).head.pos,
                    self.dir,
                    opposite(old(self).last_update_dir),
                );
            }
        }
    }
}

impl Snake {
    /// Handles a direction input between ticks (see `steered`); only the
    /// direction and the buffered turn change.
    pub fn steer(&mut self, d: Direction)
        ensures
            old(self).turned(&*final(self), d),
            old(self).wf() ==> final(self).wf(),
    {
        if self.dir != self.last_update_dir {
            if d.inverse() != self.dir {
                self.next_dir = Some(d);
            }
        } else if d.inverse() != self.last_update_dir {
            self.dir = d;
        }
    }

    /// Every free cell of the field, each once, in column-by-column order.
    pub fn free_cells(&self) -> (r: Vec<GridPosition>)
        ensures
            r@ == self.free_list(),
            forall|k: int| 0 <= k < r@.len() ==> (#[trigger] r@[k]).in_grid() && !self.covers(r@[k]),
            forall|p: GridPosition| p.in_grid() && !self.covers(p) ==> r@.contains(p),
            forall|k: int, l: int|
                0 <= k < l < r@.len() ==> cell_index(#[trigger] r@[k]) < cell_index(#[trigger] r@[l]),
            r@.len() <= GRID_WIDTH * GRID_HEIGHT,
    {
        let mut r: Vec<GridPosition> = Vec::new();
        let mut x: i16 = 0;
        while x < GRID_WIDTH
            invariant
                0 <= x <= GRID_WIDTH,
                r@ == self.free_prefix((x * GRID_HEIGHT) as nat),
                r@.len() <= x * GRID_HEIGHT,
                forall|k: int|
                    0 <= k < r@.len() ==> (#[trigger] r@[k]).in_grid() && !self.covers(r@[k])
                        && cell_index(r@[k]) < x * GRID_HEIGHT,
                forall|p: GridPosition|
                    p.in_grid() && !self.covers(p) && cell_index(p) < x * GRID_HEIGHT
                        ==> r@.contains(p),
                forall|k: int, l: int|
                    0 <= k < l < r@.len() ==> cell_index(#[trigger] r@[k]) < cell_index(
                        #[trigger] r@[l],
                    ),
            decreases GRID_WIDTH - x,
        {
            let mut y: i16 = 0;
            while y < GRID_HEIGHT
                invariant
                    0 <= x < GRID_WIDTH,
                    0 <= y <= GRID_HEIGHT,
                    r@ == self.free_prefix((x * GRID_HEIGHT + y) as nat),
                    r@.len() <= x * GRID_HEIGHT + y,
                    forall|k: int|
                        0 <= k < r@.len() ==> (#[trigger] r@[k]).in_grid() && !self.covers(r@[k])
                            && cell_index(r@[k]) < x * GRID_HEIGHT + y,
                    forall|p: GridPosition|
                        p.in_grid() && !self.covers(p) && cell_index(p) < x * GRID_HEIGHT + y
                            ==> r@.contains(p),
                    forall|k: int, l: int|
                        0 <= k < l < r@.len() ==> cell_index(#[trigger] r@[k]) < cell_index(
                            #[trigger] r@[l],
                        ),
                decreases GRID_HEIGHT - y,
            {
                let position = GridPosition::new(x, y);
                let ghost prev = r@;
                proof {
                    let k = x * GRID_HEIGHT + y;
                    assert(k / (GRID_HEIGHT as int) == x && k % (GRID_HEIGHT as int) == y) by (nonlinear_arith)
                        requires k == x * 20 + y, 0 <= y < 20, 0 <= x;
                    assert(cell_at(k) == position);
                }
                if !self.occupies(position) {
                    r.push(position);
                    assert(r@[prev.len() as int] == position);
                }
                assert forall|p: GridPosition|
                    p.in_grid() && !self.covers(p) && cell_index(p) < x * GRID_HEIGHT + y + 1
                        implies r@.contains(p) by {
                    if cell_index(p) < x * GRID_HEIGHT + y {
                        let k = choose|k: int| 0 <= k < prev.len() && prev[k] == p;
                        assert(r@[k] == p);
                    } else {
                        assert(p == position);
                        assert(r@[r@.len() - 1] == p);
                    }
                }
                y += 1;
            }
            x += 1;
        }
        r
    }

    /// The free cell at position `i` of the column-by-column list of free
    /// cells; `None` past its end.
    pub fn free_cell_at(&self, i: u32) -> (r: Option<GridPosition>)
        ensures
            r == (if i < self.free_list().len() {
                Some(self.free_list()[i as int])
            } else {
                None::<GridPosition>
            }),
            r matches Some(p) ==> p.in_grid() && !self.covers(p),
    {
        let free = self.free_cells();
        if (i as usize) < free.len() {
            Some(free[i as usize])
        } else {
            None
        }
    }

    /// A free cell for the food: the free cell at a position drawn
    /// uniformly from `rng` (see `free_cell_at`); `None` when the snake
    /// covers the whole field, in which case `rng` is not used.
    pub fn get_food_space(&self, rng: &mut Rand32) -> (r: Option<GridPosition>)
        ensures
            r is Some <==> exists|p: GridPosition| p.in_grid() && !self.covers(p),
            r is Some <==> self.free_list().len() > 0,
            r matches Some(p) ==> p.in_grid() && !self.covers(p) && self.free_list().contains(p),
            r is None ==> *final(rng) == *old(rng),
    {
        let n = self.free_cells().len();
        if n == 0 {
            assert forall|p: GridPosition| p.in_grid() implies self.covers(p) by {
                if !self.covers(p) {
                    assert(self.free_list().contains(p));
                }
            }
            None
        } else {
            let i = rand_below(rng, n as u32);
            let r = self.free_cell_at(i);
            assert(self.free_list()[i as int] == r->Some_0);
            r
        }
    }
}

} // verus!
