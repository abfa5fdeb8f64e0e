use vstd::prelude::*;

use crate::components::wanderdata::{Pedometer, PedometerView};
use crate::resources::save::{tiles_of, Agent, BallRecord, PathSegmentRecord, Tile};

verus! {

/// Whether some tile of the path holds the grid point `(x, y)`.
pub open spec fn has_hit(tiles: Seq<Tile>, x: int, y: int) -> bool {
    exists|i: int| 0 <= i < tiles.len() && #[trigger] tiles[i].contains(x, y)
}

/// Whether tile `i` is the first of the path, in walking order, that holds
/// the grid point `(x, y)`.
pub open spec fn is_first_hit(tiles: Seq<Tile>, x: int, y: int, i: int) -> bool {
    &&& 0 <= i < tiles.len()
    &&& tiles[i].contains(x, y)
    &&& forall|j: int| 0 <= j < i ==> !#[trigger] tiles[j].contains(x, y)
}

/// The place in the path of the first tile that holds `(x, y)`, if any
/// does.
pub open spec fn first_hit(tiles: Seq<Tile>, x: int, y: int) -> Option<int> {
    if has_hit(tiles, x, y) {
        Some(choose|i: int| is_first_hit(tiles, x, y, i))
    } else {
        None
    }
}

/// Whichever tile is the first to hold a point, `first_hit` names it.
pub proof fn lemma_first_hit_is_unique(tiles: Seq<Tile>, x: int, y: int, i: int)
    requires
        is_first_hit(tiles, x, y, i),
    ensures
        first_hit(tiles, x, y) == Some(i),
{
    let c = choose|c: int| is_first_hit(tiles, x, y, c);
    assert(is_first_hit(tiles, x, y, c));
    if c < i {
        assert(tiles[c].contains(x, y));
    } else if i < c {
        assert(tiles[i].contains(x, y));
    }
}

/// The ball and the pedometer after the ball has tried to move along one
/// axis, the horizontal one or the vertical one, by `amount * speed`. With
/// no input the ball stays. Otherwise it moves if the place it would come to
/// can be written down and lies on some tile of the path, and then the
/// first such tile in walking order is entered; if not, the ball stays.
pub open spec fn axis_move(
    agent: Agent,
    pedometer: PedometerView,
    tiles: Seq<Tile>,
    horizontal: bool,
    amount: int,
    speed: int,
) -> (Agent, PedometerView) {
    let x = if horizontal {
        agent.x + amount * speed
    } else {
        agent.x
    };
    let y = if horizontal {
        agent.y
    } else {
        agent.y + amount * speed
    };
    if amount != 0 && i32::MIN <= x <= i32::MAX && i32::MIN <= y <= i32::MAX && has_hit(
        tiles,
        x,
        y,
    ) {
        (
            Agent { x, y, z: agent.z, radius: agent.radius },
            pedometer.visit(tiles[first_hit(tiles, x, y).unwrap()].identity() as u64),
        )
    } else {
        (agent, pedometer)
    }
}

/// The ball and the pedometer after one tick: the ball tries the horizontal
/// axis first and then, from where that left it, the vertical one.
pub open spec fn tick_move(
    agent: Agent,
    pedometer: PedometerView,
    tiles: Seq<Tile>,
    movement_x: int,
    movement_y: int,
    speed: int,
) -> (Agent, PedometerView) {
    let after_x = axis_move(agent, pedometer, tiles, true, movement_x, speed);
    axis_move(after_x.0, after_x.1, tiles, false, movement_y, speed)
}

/// A move along one axis leaves the ball where it was or on a tile of the
/// path, changes neither its height above the path nor its size, and only
/// adds to the pedometer.
pub proof fn lemma_axis_move_stays_on_path(
    agent: Agent,
    pedometer: PedometerView,
    tiles: Seq<Tile>,
    horizontal: bool,
    amount: int,
    speed: int,
)
    ensures
        ({
            let after = axis_move(agent, pedometer, tiles, horizontal, amount, speed);
            &&& after.0 == agent || has_hit(tiles, after.0.x, after.0.y)
            &&& horizontal ==> after.0.y == agent.y
            &&& !horizontal ==> after.0.x == agent.x
            &&& after.0.z == agent.z
            &&& after.0.radius == agent.radius
            &&& after.1.steps >= pedometer.steps
            &&& pedometer.visited.subset_of(after.1.visited)
        }),
{
}

/// After a tick the ball is where it was before the tick or on a tile of
/// the path.
pub proof fn lemma_tick_stays_on_path(
    agent: Agent,
    pedometer: PedometerView,
    tiles: Seq<Tile>,
    movement_x: int,
    movement_y: int,
    speed: int,
)
    ensures
        ({
            let after = tick_move(agent, pedometer, tiles, movement_x, movement_y, speed);
            (after.0.x == agent.x && after.0.y == agent.y) || has_hit(tiles, after.0.x, after.0.y)
        }),
{
    let after_x = axis_move(agent, pedometer, tiles, true, movement_x, speed);
    lemma_axis_move_stays_on_path(agent, pedometer, tiles, true, movement_x, speed);
    lemma_axis_move_stays_on_path(after_x.0, after_x.1, tiles, false, movement_y, speed);
}

/// A tick never lowers the count of steps and never forgets a tile.
pub proof fn lemma_tick_only_adds(
    agent: Agent,
    pedometer: PedometerView,
    tiles: Seq<Tile>,
    movement_x: int,
    movement_y: int,
    speed: int,
)
    ensures
        ({
            let after = tick_move(agent, pedometer, tiles, movement_x, movement_y, speed);
            &&& after.1.steps >= pedometer.steps
            &&& pedometer.visited.subset_of(after.1.visited)
        }),
{
    let after_x = axis_move(agent, pedometer, tiles, true, movement_x, speed);
    lemma_axis_move_stays_on_path(agent, pedometer, tiles, true, movement_x, speed);
    lemma_axis_move_stays_on_path(after_x.0, after_x.1, tiles, false, movement_y, speed);
}

/// A tick without input on either axis changes nothing.
pub proof fn lemma_no_input_is_no_move(
    agent: Agent,
    pedometer: PedometerView,
    tiles: Seq<Tile>,
    speed: int,
)
    ensures
        tick_move(agent, pedometer, tiles, 0, 0, speed) == (agent, pedometer),
{
}

/// Keeps the ball on the path and counts the tiles it enters.
#[derive(Debug, Clone, Copy, PartialEq, Eq, Structural)]
pub struct BallSystem;

impl BallSystem {
    /// Finds the first segment of the path, in walking order, that holds
    /// the grid point `(x, y)`.
    pub fn find_segment(path_segments: &Vec<PathSegmentRecord>, x: i64, y: i64) -> (hit: Option<
        usize,
    >)
        ensures
            match hit {
                Some(i) => i < path_segments@.len() && first_hit(
                    tiles_of(path_segments@),
                    x as int,
                    y as int,
                ) == Some(i as int),
                None => first_hit(tiles_of(path_segments@), x as int, y as int) is None,
            },
    {
        let mut i: usize = 0;
        while i < path_segments.len()
            invariant
                0 <= i <= path_segments@.len(),
                forall|j: int|
                    0 <= j < i ==> !#[trigger] tiles_of(path_segments@)[j].contains(
                        x as int,
                        y as int,
                    ),
            decreases path_segments@.len() - i,
        {
            if path_segments[i].contains(x, y) {
                proof {
                    lemma_first_hit_is_unique(
                        tiles_of(path_segments@),
                        x as int,
                        y as int,
                        i as int,
                    );
                }
                return Some(i);
            }
            i += 1;
        }
        None
    }

    /// Lets the ball try to move along one axis by `amount * speed`, and
    /// tells whether it entered a tile for the first time.
    pub fn move_along(
        &self,
        horizontal: bool,
        ball: &mut BallRecord,
        pedometer: &mut Pedometer,
        path_segments: &Vec<PathSegmentRecord>,
        amount: i32,
        speed: i32,
    ) -> (stepped: bool)
        ensures
            (final(ball)@, final(pedometer)@) == axis_move(
                old(ball)@,
                old(pedometer)@,
                tiles_of(path_segments@),
                horizontal,
                amount as int,
                speed as int,
            ),
            stepped == (final(pedometer)@.visited != old(pedometer)@.visited),
    {
        if amount == 0 {
            return false;
        }
        assert(-0x4000_0000_0000_0000 <= amount * speed <= 0x4000_0000_0000_0000)
            by (nonlinear_arith)
            requires
                -0x8000_0000 <= amount <= 0x7fff_ffff,
                -0x8000_0000 <= speed <= 0x7fff_ffff,
        ;
        let by: i64 = (amount as i64) * (speed as i64);
        let x: i64 = if horizontal {
            ball.transform.x as i64 + by
        } else {
            ball.transform.x as i64
        };
        let y: i64 = if horizontal {
            ball.transform.y as i64
        } else {
            ball.transform.y as i64 + by
        };
        if x < i32::MIN as i64 || x > i32::MAX as i64 || y < i32::MIN as i64 || y > i32::MAX as i64 {
            return false;
        }
        match Self::find_segment(path_segments, x, y) {
            Some(i) => {
                ball.transform.x = x as i32;
                ball.transform.y = y as i32;
                let fresh = pedometer.visit(path_segments[i].identity());
                proof {
                    let id = path_segments@[i as int]@.identity() as u64;
                    assert(tiles_of(path_segments@)[i as int] == path_segments@[i as int]@);
                    if fresh {
                        assert(pedometer@.visited.contains(id));
                    } else {
                        assert(pedometer@.visited =~= old(pedometer)@.visited);
                    }
                }
                fresh
            },
            None => false,
        }
    }

    /// One tick of the ball: it tries to move along x by
    /// `movement_x * speed`, then along y by `movement_y * speed`, each
    /// only where that keeps it on the path. Tells whether the ball
    /// entered a tile for the first time.
    pub fn run(
        &self,
        ball: &mut BallRecord,
        pedometer: &mut Pedometer,
        path_segments: &Vec<PathSegmentRecord>,
        movement_x: i32,
        movement_y: i32,
        speed: i32,
    ) -> (stepped: bool)
        ensures
            (final(ball)@, final(pedometer)@) == tick_move(
                old(ball)@,
                old(pedometer)@,
                tiles_of(path_segments@),
                movement_x as int,
                movement_y as int,
                speed as int,
            ),
            stepped == (final(pedometer)@.visited != old(pedometer)@.visited),
            (final(ball)@.x == old(ball)@.x && final(ball)@.y == old(ball)@.y) || has_hit(
                tiles_of(path_segments@),
                final(ball)@.x,
                final(ball)@.y,
            ),
            final(ball)@.z == old(ball)@.z,
            final(ball)@.radius == old(ball)@.radius,
            final(pedometer)@.steps >= old(pedometer)@.steps,
            old(pedometer)@.visited.subset_of(final(pedometer)@.visited),
            movement_x == 0 && movement_y == 0 ==> final(ball)@ == old(ball)@,
            movement_x == 0 && movement_y == 0 ==> final(pedometer)@ == old(pedometer)@,
    {
        let ghost before = (ball@, pedometer@);
        let stepped_x = self.move_along(true, ball, pedometer, path_segments, movement_x, speed);
        let ghost between = (ball@, pedometer@);
        let stepped_y = self.move_along(false, ball, pedometer, path_segments, movement_y, speed);
        proof {
            let tiles = tiles_of(path_segments@);
            lemma_axis_move_stays_on_path(
                before.0,
                before.1,
                tiles,
                true,
                movement_x as int,
                speed as int,
            );
            lemma_axis_move_stays_on_path(
                between.0,
                between.1,
                tiles,
                false,
                movement_y as int,
                speed as int,
            );
            if stepped_x {
                let x = before.0.x + movement_x * speed;
                let id = tiles[first_hit(tiles, x, before.0.y).unwrap()].identity() as u64;
                if before.1.visited.contains(id) {
                    assert(before.1.visited.insert(id) =~= before.1.visited);
                }
                assert(pedometer@.visited.contains(id));
            } else if stepped_y {
                let y = between.0.y + movement_y * speed;
                let id = tiles[first_hit(tiles, between.0.x, y).unwrap()].identity() as u64;
                if between.1.visited.contains(id) {
                    assert(between.1.visited.insert(id) =~= between.1.visited);
                }
                assert(pedometer@.visited.contains(id));
            }
        }
        stepped_x || stepped_y
    }
}

} // verus!
