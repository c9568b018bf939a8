//! The arena grid and the directional height-diff engine.
//!
//! The field is a square grid of non-negative block heights, replaced
//! wholesale on every server snapshot. From it the diff engine derives,
//! once per replacement, four matrices of height deltas (one per axis
//! direction); a positive delta means the cell stands above its neighbor
//! in that direction and must render the wall face on that side.

use vstd::prelude::*;

verus! {

/// Side length of the square arena grid.
pub const FIELD_SIZE: usize = 32;

/// One of the four axis directions on the grid.
///
/// `Up` is towards greater x (rows), `Down` towards smaller x,
/// `Right` towards greater z (columns), `Left` towards smaller z.
#[derive(Clone, Copy, PartialEq, Eq, Structural, Debug)]
pub enum Direction {
    Up,
    Down,
    Left,
    Right,
}

impl Direction {
    /// The direction pointing back at this one.
    pub open spec fn spec_opposite(self) -> Direction {
        match self {
            Direction::Up => Direction::Down,
            Direction::Down => Direction::Up,
            Direction::Left => Direction::Right,
            Direction::Right => Direction::Left,
        }
    }

    pub fn opposite(self) -> (r: Direction)
        ensures
            r == self.spec_opposite(),
    {
        match self {
            Direction::Up => Direction::Down,
            Direction::Down => Direction::Up,
            Direction::Left => Direction::Right,
            Direction::Right => Direction::Left,
        }
    }
}

/// Whether `(x, z)` lies on the grid.
pub open spec fn in_bounds(x: int, z: int) -> bool {
    0 <= x < FIELD_SIZE && 0 <= z < FIELD_SIZE
}

/// Index of cell `(x, z)` in a row-major flat buffer.
pub open spec fn cell_index(x: int, z: int) -> int {
    x * (FIELD_SIZE as int) + z
}

/// A well-formed flat grid: one height per cell, all non-negative.
pub open spec fn grid_wf(g: Seq<i32>) -> bool {
    &&& g.len() == FIELD_SIZE * FIELD_SIZE
    &&& forall|i: int| 0 <= i < g.len() ==> #[trigger] g[i] >= 0
}

/// Height of cell `(x, z)` in grid `g`.
pub open spec fn height_at(g: Seq<i32>, x: int, z: int) -> int {
    g[cell_index(x, z)] as int
}

/// x coordinate of the neighbor of a cell at row `x` in direction `d`.
pub open spec fn neighbor_x(x: int, d: Direction) -> int {
    match d {
        Direction::Up => x + 1,
        Direction::Down => x - 1,
        Direction::Left => x,
        Direction::Right => x,
    }
}

/// z coordinate of the neighbor of a cell at column `z` in direction `d`.
pub open spec fn neighbor_z(z: int, d: Direction) -> int {
    match d {
        Direction::Up => z,
        Direction::Down => z,
        Direction::Left => z - 1,
        Direction::Right => z + 1,
    }
}

/// Height of the neighbor of `(x, z)` in direction `d`; space outside the
/// grid counts as height 0.
pub open spec fn neighbor_height(g: Seq<i32>, x: int, z: int, d: Direction) -> int {
    if in_bounds(neighbor_x(x, d), neighbor_z(z, d)) {
        height_at(g, neighbor_x(x, d), neighbor_z(z, d))
    } else {
        0
    }
}

/// Directional height delta of cell `(x, z)`: its own height minus the
/// height of its neighbor in direction `d`.
pub open spec fn diff_at(g: Seq<i32>, x: int, z: int, d: Direction) -> int {
    height_at(g, x, z) - neighbor_height(g, x, z, d)
}

/// How a rendered wall face is classified for the player.
///
/// A step of exactly one block is survivable; any taller drop is lethal.
#[derive(Clone, Copy, PartialEq, Eq, Structural, Debug)]
pub enum FaceKind {
    SafeLedge,
    DangerousDrop,
}

/// Classification of a face whose owning cell stands `diff` blocks above
/// its neighbor; meaningful for `diff > 0` only.
pub open spec fn face_kind_of(diff: int) -> FaceKind {
    if diff == 1 {
        FaceKind::SafeLedge
    } else {
        FaceKind::DangerousDrop
    }
}

/// Classifies a positive height delta.
pub fn face_kind(diff: i32) -> (r: FaceKind)
    requires
        diff > 0,
    ensures
        r == face_kind_of(diff as int),
{
    if diff == 1 {
        FaceKind::SafeLedge
    } else {
        FaceKind::DangerousDrop
    }
}

/// One wall face the renderer must draw: cell `(x, z)` stands `drop`
/// blocks above its neighbor in direction `dir`, its top at `top`.
#[derive(Clone, Copy, PartialEq, Eq, Structural, Debug)]
pub struct WallFace {
    pub x: usize,
    pub z: usize,
    pub dir: Direction,
    pub top: i32,
    pub drop: i32,
    pub kind: FaceKind,
}

/// The face cell `(x, z)` contributes in direction `d`: a singleton when
/// it stands above that neighbor, empty otherwise (the higher neighbor
/// draws the shared boundary, so no face is ever drawn twice).
pub open spec fn spec_dir_face(g: Seq<i32>, x: int, z: int, d: Direction) -> Seq<WallFace> {
    if diff_at(g, x, z, d) > 0 {
        seq![
            WallFace {
                x: x as usize,
                z: z as usize,
                dir: d,
                top: g[cell_index(x, z)],
                drop: diff_at(g, x, z, d) as i32,
                kind: face_kind_of(diff_at(g, x, z, d)),
            },
        ]
    } else {
        Seq::empty()
    }
}

/// All faces of one cell, in the fixed direction order up, down, left,
/// right.
pub open spec fn spec_cell_faces(g: Seq<i32>, x: int, z: int) -> Seq<WallFace> {
    spec_dir_face(g, x, z, Direction::Up) + spec_dir_face(g, x, z, Direction::Down) + spec_dir_face(
        g,
        x,
        z,
        Direction::Left,
    ) + spec_dir_face(g, x, z, Direction::Right)
}

/// Faces of the first `n` cells in row-major order.
pub open spec fn spec_faces_upto(g: Seq<i32>, n: int) -> Seq<WallFace>
    decreases n,
{
    if n <= 0 {
        Seq::empty()
    } else {
        spec_faces_upto(g, n - 1) + spec_cell_faces(
            g,
            (n - 1) / (FIELD_SIZE as int),
            (n - 1) % (FIELD_SIZE as int),
        )
    }
}

/// Every wall face of the grid, cells in row-major order.
pub open spec fn spec_faces(g: Seq<i32>) -> Seq<WallFace> {
    spec_faces_upto(g, FIELD_SIZE * FIELD_SIZE)
}

/// The arena's height grid, stored row-major.
#[derive(Debug)]
pub struct FieldGrid {
    heights: Vec<i32>,
}

impl View for FieldGrid {
    type V = Seq<i32>;

    closed spec fn view(&self) -> Seq<i32> {
        self.heights@
    }
}

impl FieldGrid {
    #[verifier::type_invariant]
    pub closed spec fn type_wf(self) -> bool {
        grid_wf(self.heights@)
    }

    /// Every grid value is well formed; constructors enforce it, and
    /// `use_type_invariant` supplies `type_wf` at any use site.
    pub proof fn lemma_wf(&self)
        requires
            self.type_wf(),
        ensures
            grid_wf(self@),
    {
    }

    /// The all-zero grid the client starts from.
    pub fn new() -> (r: FieldGrid)
        ensures
            r@.len() == FIELD_SIZE * FIELD_SIZE,
            forall|i: int| 0 <= i < r@.len() ==> #[trigger] r@[i] == 0,
    {
        let mut heights: Vec<i32> = Vec::new();
        let mut i: usize = 0;
        while i < FIELD_SIZE * FIELD_SIZE
            invariant
                i <= FIELD_SIZE * FIELD_SIZE,
                heights@.len() == i,
                forall|j: int| 0 <= j < i ==> #[trigger] heights@[j] == 0,
            decreases FIELD_SIZE * FIELD_SIZE - i,
        {
            heights.push(0);
            i += 1;
        }
        FieldGrid { heights }
    }

    /// Builds a grid from a flat row-major buffer; `None` if the buffer
    /// has the wrong length or holds a negative height.
    pub fn from_heights(h: Vec<i32>) -> (r: Option<FieldGrid>)
        ensures
            r is Some <==> grid_wf(h@),
            r matches Some(g) ==> g@ == h@,
    {
        if h.len() != FIELD_SIZE * FIELD_SIZE {
            return None;
        }
        let mut i: usize = 0;
        while i < h.len()
            invariant
                i <= h@.len(),
                forall|j: int| 0 <= j < i ==> #[trigger] h@[j] >= 0,
            decreases h@.len() - i,
        {
            if h[i] < 0 {
                return None;
            }
            i += 1;
        }
        Some(FieldGrid { heights: h })
    }

    /// Builds a grid from a flat row-major buffer already known to be
    /// well formed.
    pub fn from_valid_heights(h: Vec<i32>) -> (r: FieldGrid)
        requires
            grid_wf(h@),
        ensures
            r@ == h@,
    {
        FieldGrid { heights: h }
    }

    /// Height of cell `(x, z)`.
    pub fn height(&self, x: usize, z: usize) -> (r: i32)
        requires
            x < FIELD_SIZE,
            z < FIELD_SIZE,
        ensures
            r == height_at(self@, x as int, z as int),
            r >= 0,
    {
        proof {
            use_type_invariant(self);
        }
        self.heights[x * FIELD_SIZE + z]
    }
}

/// The four directional delta matrices derived from one grid.
pub struct FieldDiff {
    up: Vec<i32>,
    down: Vec<i32>,
    left: Vec<i32>,
    right: Vec<i32>,
}

impl FieldDiff {
    #[verifier::type_invariant]
    spec fn type_wf(self) -> bool {
        &&& self.up@.len() == FIELD_SIZE * FIELD_SIZE
        &&& self.down@.len() == FIELD_SIZE * FIELD_SIZE
        &&& self.left@.len() == FIELD_SIZE * FIELD_SIZE
        &&& self.right@.len() == FIELD_SIZE * FIELD_SIZE
    }

    /// The delta matrix for direction `d`, as a flat row-major sequence.
    pub closed spec fn matrix(&self, d: Direction) -> Seq<i32> {
        match d {
            Direction::Up => self.up@,
            Direction::Down => self.down@,
            Direction::Left => self.left@,
            Direction::Right => self.right@,
        }
    }

    /// This diff is exactly the one derived from grid `g`.
    pub open spec fn matches(&self, g: Seq<i32>) -> bool {
        forall|x: int, z: int, d: Direction|
            in_bounds(x, z) ==> #[trigger] self.matrix(d)[cell_index(x, z)] == diff_at(g, x, z, d)
    }

    /// The delta of cell `(x, z)` in direction `d`.
    pub fn delta(&self, x: usize, z: usize, d: Direction) -> (r: i32)
        requires
            x < FIELD_SIZE,
            z < FIELD_SIZE,
        ensures
            r == self.matrix(d)[cell_index(x as int, z as int)],
    {
        proof {
            use_type_invariant(self);
        }
        match d {
            Direction::Up => self.up[x * FIELD_SIZE + z],
            Direction::Down => self.down[x * FIELD_SIZE + z],
            Direction::Left => self.left[x * FIELD_SIZE + z],
            Direction::Right => self.right[x * FIELD_SIZE + z],
        }
    }
}

/// Height of the in-grid neighbor of `(x, z)` in direction `d`, or 0 when
/// that neighbor falls outside the grid.
fn neighbor_height_exec(grid: &FieldGrid, x: usize, z: usize, d: Direction) -> (r: i32)
    requires
        x < FIELD_SIZE,
        z < FIELD_SIZE,
    ensures
        r == neighbor_height(grid@, x as int, z as int, d),
        r >= 0,
{
    match d {
        Direction::Up => {
            if x + 1 < FIELD_SIZE {
                grid.height(x + 1, z)
            } else {
                0
            }
        },
        Direction::Down => {
            if x > 0 {
                grid.height(x - 1, z)
            } else {
                0
            }
        },
        Direction::Left => {
            if z > 0 {
                grid.height(x, z - 1)
            } else {
                0
            }
        },
        Direction::Right => {
            if z + 1 < FIELD_SIZE {
                grid.height(x, z + 1)
            } else {
                0
            }
        },
    }
}

/// Recomputes the four delta matrices for `grid`.
///
/// Runs once per grid replacement, not once per rendered frame.
pub fn make_diff(grid: &FieldGrid) -> (d: FieldDiff)
    ensures
        d.matches(grid@),
{
    proof {
        use_type_invariant(grid);
        grid.lemma_wf();
    }
    let mut up: Vec<i32> = Vec::new();
    let mut down: Vec<i32> = Vec::new();
    let mut left: Vec<i32> = Vec::new();
    let mut right: Vec<i32> = Vec::new();
    let mut x: usize = 0;
    while x < FIELD_SIZE
        invariant
            x <= FIELD_SIZE,
            grid_wf(grid@),
            up@.len() == x * FIELD_SIZE,
            down@.len() == x * FIELD_SIZE,
            left@.len() == x * FIELD_SIZE,
            right@.len() == x * FIELD_SIZE,
            forall|xx: int, zz: int|
                0 <= xx && 0 <= zz < FIELD_SIZE && cell_index(xx, zz) < x * FIELD_SIZE ==> {
                    &&& #[trigger] up@[cell_index(xx, zz)] == diff_at(grid@, xx, zz, Direction::Up)
                    &&& down@[cell_index(xx, zz)] == diff_at(grid@, xx, zz, Direction::Down)
                    &&& left@[cell_index(xx, zz)] == diff_at(grid@, xx, zz, Direction::Left)
                    &&& right@[cell_index(xx, zz)] == diff_at(grid@, xx, zz, Direction::Right)
                },
        decreases FIELD_SIZE - x,
    {
        let mut z: usize = 0;
        while z < FIELD_SIZE
            invariant
                x < FIELD_SIZE,
                z <= FIELD_SIZE,
                grid_wf(grid@),
                up@.len() == x * FIELD_SIZE + z,
                down@.len() == x * FIELD_SIZE + z,
                left@.len() == x * FIELD_SIZE + z,
                right@.len() == x * FIELD_SIZE + z,
                forall|xx: int, zz: int|
                    0 <= xx && 0 <= zz < FIELD_SIZE && cell_index(xx, zz) < x * FIELD_SIZE + z
                        ==> {
                        &&& #[trigger] up@[cell_index(xx, zz)] == diff_at(
                            grid@,
                            xx,
                            zz,
                            Direction::Up,
                        )
                        &&& down@[cell_index(xx, zz)] == diff_at(grid@, xx, zz, Direction::Down)
                        &&& left@[cell_index(xx, zz)] == diff_at(grid@, xx, zz, Direction::Left)
                        &&& right@[cell_index(xx, zz)] == diff_at(grid@, xx, zz, Direction::Right)
                    },
            decreases FIELD_SIZE - z,
        {
            let h = grid.height(x, z);
            up.push(h - neighbor_height_exec(grid, x, z, Direction::Up));
            down.push(h - neighbor_height_exec(grid, x, z, Direction::Down));
            left.push(h - neighbor_height_exec(grid, x, z, Direction::Left));
            right.push(h - neighbor_height_exec(grid, x, z, Direction::Right));
            proof {
                assert forall|xx: int, zz: int|
                    0 <= xx && 0 <= zz < FIELD_SIZE && cell_index(xx, zz) == x * FIELD_SIZE
                        + z implies xx == x && zz == z by {
                    assert(xx == x && zz == z) by (nonlinear_arith)
                        requires
                            xx * (FIELD_SIZE as int) + zz == x * (FIELD_SIZE as int) + z,
                            0 <= zz < FIELD_SIZE,
                            0 <= z < FIELD_SIZE,
                            0 <= xx,
                            0 <= x,
                    ;
                }
            }
            z += 1;
        }
        x += 1;
    }
    let d = FieldDiff { up, down, left, right };
    proof {
        assert forall|xx: int, zz: int, dir: Direction| in_bounds(xx, zz) implies #[trigger] d.matrix(
            dir,
        )[cell_index(xx, zz)] == diff_at(grid@, xx, zz, dir) by {
            assert(d.up@[cell_index(xx, zz)] == diff_at(grid@, xx, zz, Direction::Up));
            assert(d.down@[cell_index(xx, zz)] == diff_at(grid@, xx, zz, Direction::Down));
            assert(d.left@[cell_index(xx, zz)] == diff_at(grid@, xx, zz, Direction::Left));
            assert(d.right@[cell_index(xx, zz)] == diff_at(grid@, xx, zz, Direction::Right));
        }
    }
    d
}

/// The faces one cell exposes, in the fixed direction order up, down,
/// left, right.
fn cell_faces(grid: &FieldGrid, diff: &FieldDiff, x: usize, z: usize) -> (r: Vec<WallFace>)
    requires
        diff.matches(grid@),
        x < FIELD_SIZE,
        z < FIELD_SIZE,
    ensures
        r@ == spec_cell_faces(grid@, x as int, z as int),
{
    proof {
        use_type_invariant(grid);
        grid.lemma_wf();
    }
    let ghost f_up = spec_dir_face(grid@, x as int, z as int, Direction::Up);
    let ghost f_down = spec_dir_face(grid@, x as int, z as int, Direction::Down);
    let ghost f_left = spec_dir_face(grid@, x as int, z as int, Direction::Left);
    let ghost f_right = spec_dir_face(grid@, x as int, z as int, Direction::Right);
    let mut r: Vec<WallFace> = Vec::new();
    let h = grid.height(x, z);
    let du = diff.delta(x, z, Direction::Up);
    if du > 0 {
        r.push(WallFace { x, z, dir: Direction::Up, top: h, drop: du, kind: face_kind(du) });
    }
    proof {
        assert(r@ =~= f_up);
    }
    let dd = diff.delta(x, z, Direction::Down);
    if dd > 0 {
        r.push(WallFace { x, z, dir: Direction::Down, top: h, drop: dd, kind: face_kind(dd) });
    }
    proof {
        assert(r@ =~= f_up + f_down);
    }
    let dl = diff.delta(x, z, Direction::Left);
    if dl > 0 {
        r.push(WallFace { x, z, dir: Direction::Left, top: h, drop: dl, kind: face_kind(dl) });
    }
    proof {
        assert(r@ =~= f_up + f_down + f_left);
    }
    let dr = diff.delta(x, z, Direction::Right);
    if dr > 0 {
        r.push(WallFace { x, z, dir: Direction::Right, top: h, drop: dr, kind: face_kind(dr) });
    }
    proof {
        assert(r@ =~= f_up + f_down + f_left + f_right);
    }
    r
}

/// Lists every wall face the grid exposes, from its diff matrices.
///
/// Each listed face has a positive delta toward its direction and carries
/// the safe-or-lethal classification; cells come in row-major order, each
/// cell's faces in the order up, down, left, right.
pub fn wall_faces(grid: &FieldGrid, diff: &FieldDiff) -> (r: Vec<WallFace>)
    requires
        diff.matches(grid@),
    ensures
        r@ == spec_faces(grid@),
{
    let mut r: Vec<WallFace> = Vec::new();
    let mut x: usize = 0;
    while x < FIELD_SIZE
        invariant
            x <= FIELD_SIZE,
            diff.matches(grid@),
            r@ == spec_faces_upto(grid@, x * FIELD_SIZE),
        decreases FIELD_SIZE - x,
    {
        let mut z: usize = 0;
        while z < FIELD_SIZE
            invariant
                x < FIELD_SIZE,
                z <= FIELD_SIZE,
                diff.matches(grid@),
                r@ == spec_faces_upto(grid@, x * FIELD_SIZE + z),
            decreases FIELD_SIZE - z,
        {
            let ghost idx = x * FIELD_SIZE + z;
            let ghost r0 = r@;
            let mut cf = cell_faces(grid, diff, x, z);
            let ghost cf0 = cf@;
            r.append(&mut cf);
            proof {
                assert(idx / (FIELD_SIZE as int) == x && idx % (FIELD_SIZE as int) == z)
                    by (nonlinear_arith)
                    requires
                        idx == x * FIELD_SIZE + z,
                        0 <= z < FIELD_SIZE,
                        0 <= x,
                ;
                assert(spec_faces_upto(grid@, idx + 1) == spec_faces_upto(grid@, idx)
                    + spec_cell_faces(grid@, x as int, z as int));
                assert(r@ == r0 + cf0);
            }
            z += 1;
        }
        x += 1;
    }
    r
}

/// The shared boundary of two in-grid neighbors is walled from the higher
/// side only: the two facing deltas are exact negatives of each other, so
/// they are never both positive and no face is drawn twice.
pub proof fn lemma_opposite_faces(g: Seq<i32>, x: int, z: int, d: Direction)
    requires
        in_bounds(x, z),
        in_bounds(neighbor_x(x, d), neighbor_z(z, d)),
    ensures
        diff_at(g, x, z, d) == -diff_at(
            g,
            neighbor_x(x, d),
            neighbor_z(z, d),
            d.spec_opposite(),
        ),
        !(diff_at(g, x, z, d) > 0 && diff_at(
            g,
            neighbor_x(x, d),
            neighbor_z(z, d),
            d.spec_opposite(),
        ) > 0),
{
}

/// A field of uniform height has no wall between any two of its cells:
/// every delta toward an in-grid neighbor is zero. When the uniform
/// height is zero, the four diff matrices are entirely zero, boundary
/// included (a boundary cell above height zero always walls its outward
/// side, against the implicit height-0 surroundings).
pub proof fn lemma_flat_field_zero_diffs(g: Seq<i32>, h: i32)
    requires
        grid_wf(g),
        forall|i: int| 0 <= i < g.len() ==> #[trigger] g[i] == h,
    ensures
        forall|x: int, z: int, d: Direction|
            in_bounds(x, z) && in_bounds(neighbor_x(x, d), neighbor_z(z, d)) ==> #[trigger] diff_at(
                g,
                x,
                z,
                d,
            ) == 0,
        h == 0 ==> forall|x: int, z: int, d: Direction|
            in_bounds(x, z) ==> #[trigger] diff_at(g, x, z, d) == 0,
{
}

/// A cell standing `h` blocks above all four of its neighbors walls all
/// four of its sides with delta exactly `h`, and none of those neighbors
/// walls its side facing back.
pub proof fn lemma_raised_cell(g: Seq<i32>, x: int, z: int, h: i32)
    requires
        grid_wf(g),
        1 <= x < FIELD_SIZE - 1,
        1 <= z < FIELD_SIZE - 1,
        h >= 0,
        forall|d: Direction| #[trigger] height_at(g, neighbor_x(x, d), neighbor_z(z, d))
            == height_at(g, x, z) - h,
    ensures
        forall|d: Direction| #[trigger] diff_at(g, x, z, d) == h,
        forall|d: Direction| #[trigger] diff_at(
            g,
            neighbor_x(x, d),
            neighbor_z(z, d),
            d.spec_opposite(),
        ) <= 0,
{
    assert forall|d: Direction| #[trigger] diff_at(
        g,
        neighbor_x(x, d),
        neighbor_z(z, d),
        d.spec_opposite(),
    ) <= 0 by {
        assert(height_at(g, neighbor_x(x, d), neighbor_z(z, d)) == height_at(g, x, z) - h);
        assert(neighbor_x(neighbor_x(x, d), d.spec_opposite()) == x);
        assert(neighbor_z(neighbor_z(z, d), d.spec_opposite()) == z);
    }
}

/// The server's row axis runs opposite to the client's x axis; every
/// ingested row index is mirrored once.
pub open spec fn spec_local_x(row: int) -> int {
    FIELD_SIZE - 1 - row
}

/// Mirrors a server row index into the client's x coordinate.
pub fn server_row_to_local_x(row: i32) -> (r: i32)
    requires
        0 <= row < FIELD_SIZE as i32,
    ensures
        r == spec_local_x(row as int),
        0 <= r < FIELD_SIZE as i32,
{
    (FIELD_SIZE as i32) - 1 - row
}

/// The row mirror is its own inverse: applying it twice returns the
/// original row.
pub proof fn lemma_row_transform_self_inverse(row: int)
    requires
        0 <= row < FIELD_SIZE,
    ensures
        spec_local_x(spec_local_x(row)) == row,
{
}

} // verus!
