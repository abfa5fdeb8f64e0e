use rand::rngs::StdRng;
use rand::Rng;
use vstd::prelude::*;

use crate::components::shapes::rectangle::Rectangle;
use crate::components::transform::Transform;
use crate::config::{stride, WanderballConfig};
use crate::resources::save::{edge_adjacent, tiles_of, PathSegmentRecord, Tile};

verus! {

/// The four ways a path can go. A draw of 0, 1, 2, 3 means up, left, down,
/// right.
#[derive(Debug, Clone, Copy, PartialEq, Eq, Structural)]
pub enum Direction {
    Up,
    Left,
    Down,
    Right,
}

impl Direction {
    /// Whether the direction is up or down.
    pub open spec fn is_vertical(self) -> bool {
        self == Direction::Up || self == Direction::Down
    }

    /// The direction that leads straight back.
    pub open spec fn opposite(self) -> Direction {
        match self {
            Direction::Up => Direction::Down,
            Direction::Left => Direction::Right,
            Direction::Down => Direction::Up,
            Direction::Right => Direction::Left,
        }
    }

    /// The direction that a draw stands for, if it stands for one.
    pub open spec fn of_index(n: int) -> Option<Direction> {
        if n == 0 {
            Some(Direction::Up)
        } else if n == 1 {
            Some(Direction::Left)
        } else if n == 2 {
            Some(Direction::Down)
        } else if n == 3 {
            Some(Direction::Right)
        } else {
            None
        }
    }

    /// Tests whether the direction is up or down.
    pub fn vertical(self) -> (v: bool)
        ensures
            v == self.is_vertical(),
    {
        match self {
            Direction::Up => true,
            Direction::Left => false,
            Direction::Down => true,
            Direction::Right => false,
        }
    }

    /// Gives the direction that leads straight back.
    pub fn reverse(self) -> (d: Direction)
        ensures
            d == self.opposite(),
    {
        match self {
            Direction::Up => Direction::Down,
            Direction::Left => Direction::Right,
            Direction::Down => Direction::Up,
            Direction::Right => Direction::Left,
        }
    }

    /// The direction that the draw `n` stands for; a number that is no draw
    /// stands for none.
    pub fn from_index(n: u8) -> (d: Option<Direction>)
        ensures
            d == Direction::of_index(n as int),
    {
        if n == 0 {
            Some(Direction::Up)
        } else if n == 1 {
            Some(Direction::Left)
        } else if n == 2 {
            Some(Direction::Down)
        } else if n == 3 {
            Some(Direction::Right)
        } else {
            None
        }
    }
}

/// Where the laying of a path stands: the centre of the segment laid last
/// and the direction in which it was laid.
pub struct Cursor {
    pub x: int,
    pub y: int,
    pub heading: Direction,
}

/// The point `amount` away from `(x, y)` in direction `d`.
pub open spec fn shifted(x: int, y: int, d: Direction, amount: int) -> (int, int) {
    match d {
        Direction::Up => (x, y + amount),
        Direction::Left => (x - amount, y),
        Direction::Down => (x, y - amount),
        Direction::Right => (x + amount, y),
    }
}

/// The direction a segment is laid in when `drawn` comes up after a segment
/// laid in direction `last`: the drawn one, unless that would lead straight
/// back over the last segment, in which case the path goes on as before.
pub open spec fn taken(last: Direction, drawn: Direction) -> Direction {
    if drawn == last.opposite() {
        last
    } else {
        drawn
    }
}

/// The cursor after one more segment of size `width` by `height` has been
/// laid for the draw `drawn`. Going straight on moves the centre by the
/// segment's width. A turn moves it by half the difference of width and
/// height along the horizontal one of the two directions and by half their
/// sum along the vertical one, which puts the new segment flush against the
/// side of the old one.
pub open spec fn advance(c: Cursor, drawn: Direction, width: int, height: int) -> Cursor {
    let heading = taken(c.heading, drawn);
    if heading == c.heading {
        let p = shifted(c.x, c.y, heading, width);
        Cursor { x: p.0, y: p.1, heading }
    } else {
        let across = if heading.is_vertical() {
            c.heading
        } else {
            heading
        };
        let along = if heading.is_vertical() {
            heading
        } else {
            c.heading
        };
        let p = shifted(c.x, c.y, across, (width - height) / 2);
        let q = shifted(p.0, p.1, along, (width + height) / 2);
        Cursor { x: q.0, y: q.1, heading }
    }
}

/// The tile laid at a cursor: as wide as a segment is when the path runs
/// left or right, turned a quarter turn when it runs up or down.
pub open spec fn tile_at(c: Cursor, z: int, width: int, height: int) -> Tile {
    if c.heading.is_vertical() {
        Tile { x: c.x, y: c.y, z, width: height, height: width, rotated: true }
    } else {
        Tile { x: c.x, y: c.y, z, width, height, rotated: false }
    }
}

/// The cursor after the draws `draws`, from a first segment that lies at the
/// start as if the path had come from the right.
pub open spec fn cursor_after(config: WanderballConfig, draws: Seq<Direction>) -> Cursor
    decreases draws.len(),
{
    if draws.len() == 0 {
        Cursor { x: config.start_x as int, y: config.start_y as int, heading: Direction::Left }
    } else {
        advance(
            cursor_after(config, draws.drop_last()),
            draws.last(),
            config.path_segment_width as int,
            config.path_segment_height as int,
        )
    }
}

/// The path that the draws `draws` give: one tile at the start and one more
/// for each draw, each laid where the cursor stands after the draws so far.
pub open spec fn walk(config: WanderballConfig, draws: Seq<Direction>) -> Seq<Tile> {
    Seq::new(
        draws.len() + 1,
        |i: int|
            tile_at(
                cursor_after(config, draws.take(i)),
                config.start_path_z as int,
                config.path_segment_width as int,
                config.path_segment_height as int,
            ),
    )
}

/// One step never carries the cursor farther than `stride` along either
/// axis.
pub proof fn lemma_advance_is_bounded(c: Cursor, drawn: Direction, width: int, height: int)
    requires
        width >= 0,
        height >= 0,
        width % 2 == 0,
        height % 2 == 0,
    ensures
        c.x - stride(width, height) <= advance(c, drawn, width, height).x <= c.x + stride(
            width,
            height,
        ),
        c.y - stride(width, height) <= advance(c, drawn, width, height).y <= c.y + stride(
            width,
            height,
        ),
{
}

/// After `draws` the cursor is no farther from the start than `stride` times
/// the number of draws, along either axis.
pub proof fn lemma_cursor_is_bounded(config: WanderballConfig, draws: Seq<Direction>)
    requires
        config.path_segment_width % 2 == 0,
        config.path_segment_height % 2 == 0,
    ensures
        ({
            let c = cursor_after(config, draws);
            let reach = draws.len() * stride(
                config.path_segment_width as int,
                config.path_segment_height as int,
            );
            &&& config.start_x - reach <= c.x <= config.start_x + reach
            &&& config.start_y - reach <= c.y <= config.start_y + reach
        }),
    decreases draws.len(),
{
    let s = stride(config.path_segment_width as int, config.path_segment_height as int);
    if draws.len() > 0 {
        lemma_cursor_is_bounded(config, draws.drop_last());
        lemma_advance_is_bounded(
            cursor_after(config, draws.drop_last()),
            draws.last(),
            config.path_segment_width as int,
            config.path_segment_height as int,
        );
        assert(draws.len() * s == draws.drop_last().len() * s + s) by (nonlinear_arith)
            requires
                draws.len() == draws.drop_last().len() + 1,
        ;
    } else {
        assert(draws.len() * s == 0) by (nonlinear_arith)
            requires
                draws.len() == 0,
        ;
    }
}

/// A tile and the tile laid after it have a stretch of edge in common and no
/// area.
pub proof fn lemma_step_is_adjacent(c: Cursor, drawn: Direction, z: int, width: int, height: int)
    requires
        width > 0,
        height > 0,
        width % 2 == 0,
        height % 2 == 0,
    ensures
        edge_adjacent(
            tile_at(c, z, width, height),
            tile_at(advance(c, drawn, width, height), z, width, height),
        ),
{
}

/// The cursor after the first `i + 1` draws is the cursor after the first
/// `i`, advanced by draw `i`.
pub proof fn lemma_cursor_unfolds(config: WanderballConfig, draws: Seq<Direction>, i: int)
    requires
        0 <= i < draws.len(),
    ensures
        cursor_after(config, draws.take(i + 1)) == advance(
            cursor_after(config, draws.take(i)),
            draws[i],
            config.path_segment_width as int,
            config.path_segment_height as int,
        ),
{
    assert(draws.take(i + 1).drop_last() =~= draws.take(i));
    assert(draws.take(i + 1).last() == draws[i]);
}

/// In every path that `walk` gives, each tile and the next have a stretch of
/// edge in common and no area: there is no gap between them and they do not
/// lie over each other.
pub proof fn lemma_walk_is_connected(config: WanderballConfig, draws: Seq<Direction>, i: int)
    requires
        config.path_segment_width > 0,
        config.path_segment_height > 0,
        config.path_segment_width % 2 == 0,
        config.path_segment_height % 2 == 0,
        0 <= i < draws.len(),
    ensures
        edge_adjacent(walk(config, draws)[i], walk(config, draws)[i + 1]),
{
    lemma_cursor_unfolds(config, draws, i);
    lemma_step_is_adjacent(
        cursor_after(config, draws.take(i)),
        draws[i],
        config.start_path_z as int,
        config.path_segment_width as int,
        config.path_segment_height as int,
    );
}

/// The same start, segment size and draws give the same path, tile for tile,
/// whatever else differs in the two configurations.
pub proof fn lemma_walk_is_determined(
    a: WanderballConfig,
    b: WanderballConfig,
    draws_a: Seq<Direction>,
    draws_b: Seq<Direction>,
)
    requires
        a.start_x == b.start_x,
        a.start_y == b.start_y,
        a.start_path_z == b.start_path_z,
        a.path_segment_width == b.path_segment_width,
        a.path_segment_height == b.path_segment_height,
        draws_a.len() == draws_b.len(),
        forall|i: int| 0 <= i < draws_a.len() ==> draws_a[i] == draws_b[i],
    ensures
        walk(a, draws_a) == walk(b, draws_b),
{
    assert(draws_a =~= draws_b);
    assert forall|i: int| 0 <= i <= draws_a.len() implies #[trigger] walk(a, draws_a)[i] == walk(
        b,
        draws_b,
    )[i] by {
        lemma_cursor_ignores_the_rest(a, b, draws_a.take(i));
    }
    assert(walk(a, draws_a) =~= walk(b, draws_b));
}

/// The cursor depends on the start, the segment size and the draws alone.
proof fn lemma_cursor_ignores_the_rest(a: WanderballConfig, b: WanderballConfig, draws: Seq<Direction>)
    requires
        a.start_x == b.start_x,
        a.start_y == b.start_y,
        a.path_segment_width == b.path_segment_width,
        a.path_segment_height == b.path_segment_height,
    ensures
        cursor_after(a, draws) == cursor_after(b, draws),
    decreases draws.len(),
{
    if draws.len() > 0 {
        lemma_cursor_ignores_the_rest(a, b, draws.drop_last());
    }
}

/// A longer run of draws lays the same tiles first: the path for the first
/// `n` draws is the beginning of the path for all of them.
pub proof fn lemma_walk_grows_at_the_end(config: WanderballConfig, draws: Seq<Direction>, n: int)
    requires
        0 <= n <= draws.len(),
    ensures
        walk(config, draws.take(n)) == walk(config, draws).take(n + 1),
{
    assert forall|i: int| 0 <= i <= n implies #[trigger] walk(config, draws.take(n))[i] == walk(
        config,
        draws,
    )[i] by {
        assert(draws.take(n).take(i) =~= draws.take(i));
    }
    assert(walk(config, draws.take(n)) =~= walk(config, draws).take(n + 1));
}

/// Gives the point `amount` away from `(x, y)` in direction `d`.
fn shift(x: i64, y: i64, d: Direction, amount: i64) -> (p: (i64, i64))
    requires
        -0x1_0000_0000 <= x <= 0x1_0000_0000,
        -0x1_0000_0000 <= y <= 0x1_0000_0000,
        -0x1_0000_0000 <= amount <= 0x1_0000_0000,
    ensures
        (p.0 as int, p.1 as int) == shifted(x as int, y as int, d, amount as int),
{
    match d {
        Direction::Up => (x, y + amount),
        Direction::Left => (x - amount, y),
        Direction::Down => (x, y - amount),
        Direction::Right => (x + amount, y),
    }
}

/// Where the laying of a path stands, as the laying code holds it.
#[derive(Debug, Clone, Copy, PartialEq, Eq, Structural)]
pub struct PathCursor {
    pub x: i32,
    pub y: i32,
    pub heading: Direction,
}

impl View for PathCursor {
    type V = Cursor;

    open spec fn view(&self) -> Cursor {
        Cursor { x: self.x as int, y: self.y as int, heading: self.heading }
    }
}

impl PathCursor {
    /// The cursor before any draw: at the start, as if come from the right.
    pub fn start(config: &WanderballConfig) -> (c: PathCursor)
        ensures
            c@ == cursor_after(*config, Seq::empty()),
    {
        PathCursor { x: config.start_x, y: config.start_y, heading: Direction::Left }
    }

    /// The cursor after one more segment has been laid for the draw `drawn`.
    pub fn advance(self, drawn: Direction, config: &WanderballConfig) -> (next: PathCursor)
        requires
            config.segments_are_valid(),
            i32::MIN <= advance(
                self@,
                drawn,
                config.path_segment_width as int,
                config.path_segment_height as int,
            ).x <= i32::MAX,
            i32::MIN <= advance(
                self@,
                drawn,
                config.path_segment_width as int,
                config.path_segment_height as int,
            ).y <= i32::MAX,
        ensures
            next@ == advance(
                self@,
                drawn,
                config.path_segment_width as int,
                config.path_segment_height as int,
            ),
    {
        let width: i64 = config.path_segment_width as i64;
        let height: i64 = config.path_segment_height as i64;
        let x: i64 = self.x as i64;
        let y: i64 = self.y as i64;
        let heading = if drawn == self.heading.reverse() {
            self.heading
        } else {
            drawn
        };
        let (nx, ny): (i64, i64) = if heading == self.heading {
            shift(x, y, heading, width)
        } else {
            let half_sum: i64 = (width + height) / 2;
            let half_difference: i64 = if width >= height {
                (width - height) / 2
            } else {
                -((height - width) / 2)
            };
            let (across, along) = if heading.vertical() {
                (self.heading, heading)
            } else {
                (heading, self.heading)
            };
            let (px, py): (i64, i64) = shift(x, y, across, half_difference);
            shift(px, py, along, half_sum)
        };
        PathCursor { x: nx as i32, y: ny as i32, heading }
    }

    /// The segment laid where the cursor stands.
    pub fn segment(&self, config: &WanderballConfig) -> (s: PathSegmentRecord)
        ensures
            s@ == tile_at(
                self@,
                config.start_path_z as int,
                config.path_segment_width as int,
                config.path_segment_height as int,
            ),
    {
        if self.heading.vertical() {
            PathSegmentRecord {
                transform: Transform {
                    x: self.x,
                    y: self.y,
                    z: config.start_path_z,
                    quarter_turn: true,
                },
                rectangle: Rectangle::new(config.path_segment_height, config.path_segment_width),
            }
        } else {
            PathSegmentRecord {
                transform: Transform {
                    x: self.x,
                    y: self.y,
                    z: config.start_path_z,
                    quarter_turn: false,
                },
                rectangle: Rectangle::new(config.path_segment_width, config.path_segment_height),
            }
        }
    }
}

/// Lays the path that the draws `draws` give: the first segment at the
/// start, then one segment for each draw.
pub fn lay_path(config: &WanderballConfig, draws: &Vec<Direction>) -> (path: Vec<PathSegmentRecord>)
    requires
        config.segments_are_valid(),
        config.walk_fits(draws@.len()),
    ensures
        tiles_of(path@) == walk(*config, draws@),
        path@.len() == draws@.len() + 1,
        forall|i: int|
            0 <= i < draws@.len() ==> edge_adjacent(#[trigger] path@[i]@, path@[i + 1]@),
{
    let mut path: Vec<PathSegmentRecord> = Vec::new();
    let mut cursor = PathCursor::start(config);
    assert(draws@.take(0) =~= Seq::empty());
    path.push(cursor.segment(config));
    let mut i: usize = 0;
    while i < draws.len()
        invariant
            0 <= i <= draws@.len(),
            config.segments_are_valid(),
            config.walk_fits(draws@.len()),
            cursor@ == cursor_after(*config, draws@.take(i as int)),
            path@.len() == i + 1,
            forall|j: int| 0 <= j <= i ==> (#[trigger] path@[j])@ == walk(*config, draws@)[j],
        decreases draws@.len() - i,
    {
        proof {
            let s = stride(config.path_segment_width as int, config.path_segment_height as int);
            lemma_cursor_unfolds(*config, draws@, i as int);
            lemma_cursor_is_bounded(*config, draws@.take(i + 1));
            assert((i + 1) * s <= draws@.len() * s) by (nonlinear_arith)
                requires
                    i + 1 <= draws@.len(),
                    s >= 0,
            ;
        }
        cursor = cursor.advance(draws[i], config);
        path.push(cursor.segment(config));
        i += 1;
    }
    proof {
        assert(tiles_of(path@) =~= walk(*config, draws@));
        assert forall|i: int| 0 <= i < draws@.len() implies edge_adjacent(
            #[trigger] path@[i]@,
            path@[i + 1]@,
        ) by {
            lemma_walk_is_connected(*config, draws@, i);
        }
    }
    path
}

/// `rand::rngs::StdRng`, a generator of random numbers. Nothing is said of
/// what is inside it.
#[verifier::external_type_specification]
#[verifier::external_body]
pub struct ExStdRng(StdRng);

/// `rand::Rng::gen_range` with the bounds 0 and 4, on a `StdRng`: a number
/// that is at least the lower bound and less than the upper one. Which one
/// it is depends on the state of the generator, of which nothing is said.
#[verifier::external_body]
fn draw_index(rng: &mut StdRng) -> (n: u8)
    ensures
        n < 4,
{
    rng.gen_range(0u8, 4u8)
}

/// Draws `count` directions from `rng`.
pub fn draw_directions(rng: &mut StdRng, count: usize) -> (draws: Vec<Direction>)
    ensures
        draws@.len() == count,
{
    let mut draws: Vec<Direction> = Vec::new();
    let mut i: usize = 0;
    while i < count
        invariant
            i <= count,
            draws@.len() == i,
        decreases count - i,
    {
        let n: u8 = draw_index(rng);
        draws.push(Direction::from_index(n).unwrap());
        i += 1;
    }
    draws
}

/// Lays a path of `config.segment_count()` segments by a random walk: the
/// first segment at the start, each further one in a direction drawn from
/// `rng`. What is returned is the path that `walk` gives for the directions
/// drawn; whatever they were, each segment and the next have a stretch of
/// edge in common and no area.
pub fn initialize_path(config: &WanderballConfig, rng: &mut StdRng) -> (path: Vec<
    PathSegmentRecord,
>)
    requires
        config.path_is_valid(),
    ensures
        path@.len() == config.segment_count(),
        exists|draws: Seq<Direction>|
            draws.len() + 1 == config.segment_count() && tiles_of(path@) == #[trigger] walk(
                *config,
                draws,
            ),
        path@[0]@ == tile_at(
            cursor_after(*config, Seq::empty()),
            config.start_path_z as int,
            config.path_segment_width as int,
            config.path_segment_height as int,
        ),
        forall|i: int|
            0 <= i < path@.len() - 1 ==> edge_adjacent(#[trigger] path@[i]@, path@[i + 1]@),
{
    let count: usize = if config.path_length == 0 {
        0
    } else {
        config.path_length - 1
    };
    let draws = draw_directions(rng, count);
    let path = lay_path(config, &draws);
    proof {
        assert(draws@.take(0) =~= Seq::empty());
        assert(tiles_of(path@)[0] == path@[0]@);
    }
    path
}

} // verus!
