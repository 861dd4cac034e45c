//! Dimension policies: the side length of a cubic chunk and the fixed
//! linearization between a 3D coordinate `[y, x, z]` and a flat index.
//!
//! The mapping is `index = y * SIDE_LEN^2 + x + z * SIDE_LEN`, which is not
//! row-major order; callers index chunks by coordinate triples and rely on
//! this exact mapping, so it is stated once here and proved bijective.

use vstd::prelude::*;

verus! {

/// Number of cells in one plane of a cube with side length `s`.
pub open spec fn spec_quad_len(s: int) -> int {
    s * s
}

/// Number of cells in a cube with side length `s`.
pub open spec fn spec_cube_len(s: int) -> int {
    s * s * s
}

/// Flat index of the coordinate `[y, x, z]` in a cube with side length `s`.
pub open spec fn index_of(s: int, y: int, x: int, z: int) -> int {
    y * spec_quad_len(s) + x + z * s
}

/// The `y` component encoded in the flat index `i`.
pub open spec fn y_of(s: int, i: int) -> int {
    i / spec_quad_len(s)
}

/// The `z` component encoded in the flat index `i`.
pub open spec fn z_of(s: int, i: int) -> int {
    (i - y_of(s, i) * spec_quad_len(s)) / s
}

/// The `x` component encoded in the flat index `i`.
pub open spec fn x_of(s: int, i: int) -> int {
    i - (z_of(s, i) * s + y_of(s, i) * spec_quad_len(s))
}

/// A side length is usable when it is positive and the full cube still fits
/// in a `usize`, so that every flat index is representable.
pub open spec fn side_ok(s: int) -> bool {
    1 <= s && spec_cube_len(s) <= usize::MAX as int
}

/// A coordinate triple is in range when each component is below the side
/// length.
pub open spec fn coord_ok(s: int, pos: [usize; 3]) -> bool {
    pos[0] < s && pos[1] < s && pos[2] < s
}

/// For a positive side length the derived sizes are ordered: a row fits in a
/// plane and a plane in the cube.
pub proof fn lemma_side_bounds(s: int)
    by (nonlinear_arith)
    requires
        1 <= s,
    ensures
        1 <= spec_quad_len(s),
        1 <= spec_cube_len(s),
        s <= spec_cube_len(s),
        spec_quad_len(s) <= spec_cube_len(s),
        2 <= s ==> s + 1 <= spec_cube_len(s),
{
}

/// Every in-range coordinate maps to a flat index inside the cube, and each
/// partial sum of the linearization stays below the cube size.
pub proof fn lemma_index_in_cube(s: int, y: int, x: int, z: int)
    by (nonlinear_arith)
    requires
        1 <= s,
        0 <= y < s,
        0 <= x < s,
        0 <= z < s,
    ensures
        0 <= index_of(s, y, x, z) < spec_cube_len(s),
        0 <= y * spec_quad_len(s) <= index_of(s, y, x, z),
        0 <= z * s,
{
}

/// Tracks the dimensions of a chunk: the number of cells along one edge and
/// the linearization between coordinates and flat offsets. A policy has no
/// runtime state; the side length is fixed per type so every chunk built over
/// it shares one layout.
pub trait Accessor: Sized {
    /// Number of cells in a row or column.
    spec fn spec_side_len() -> usize;

    /// Number of cells in a row or column.
    fn side_len() -> (r: usize)
        ensures
            r == Self::spec_side_len(),
    ;

    /// Number of cells in a plane.
    fn quad_len() -> (r: usize)
        requires
            side_ok(Self::spec_side_len() as int),
        ensures
            r == spec_quad_len(Self::spec_side_len() as int),
    {
        let s: usize = Self::side_len();
        proof {
            lemma_side_bounds(s as int);
        }
        s * s
    }

    /// Number of cells in the whole cube.
    fn cube_len() -> (r: usize)
        requires
            side_ok(Self::spec_side_len() as int),
        ensures
            r == spec_cube_len(Self::spec_side_len() as int),
    {
        let s: usize = Self::side_len();
        proof {
            lemma_side_bounds(s as int);
        }
        s * s * s
    }

    /// Flat offset of the coordinate triple `[y, x, z]`.
    fn to_index(pos: [usize; 3]) -> (i: usize)
        requires
            side_ok(Self::spec_side_len() as int),
            coord_ok(Self::spec_side_len() as int, pos),
        ensures
            i == index_of(
                Self::spec_side_len() as int,
                pos[0] as int,
                pos[1] as int,
                pos[2] as int,
            ),
            i < spec_cube_len(Self::spec_side_len() as int),
    {
        let s: usize = Self::side_len();
        proof {
            lemma_side_bounds(s as int);
            lemma_index_in_cube(s as int, pos[0] as int, pos[1] as int, pos[2] as int);
        }
        pos[0] * (s * s) + pos[1] + pos[2] * s
    }

    /// Coordinate components, in the order `[y, x, z]`, of the flat index `i`.
    fn from_index(i: usize) -> (pos: [usize; 3])
        requires
            side_ok(Self::spec_side_len() as int),
            i < spec_cube_len(Self::spec_side_len() as int),
        ensures
            pos[0] == y_of(Self::spec_side_len() as int, i as int),
            pos[1] == x_of(Self::spec_side_len() as int, i as int),
            pos[2] == z_of(Self::spec_side_len() as int, i as int),
            coord_ok(Self::spec_side_len() as int, pos),
    {
        let s: usize = Self::side_len();
        proof {
            lemma_side_bounds(s as int);
            lemma_coord_in_range(s as int, i as int);
        }
        let q: usize = s * s;
        let y: usize = i / q;
        let z: usize = (i - y * q) / s;
        let x: usize = i - (z * s + y * q);
        [y, x, z]
    }
}

/// The coordinate components decoded from an in-cube index are in range.
pub proof fn lemma_coord_in_range(s: int, i: int)
    by (nonlinear_arith)
    requires
        1 <= s,
        0 <= i < spec_cube_len(s),
    ensures
        0 <= y_of(s, i) < s,
        0 <= z_of(s, i) < s,
        0 <= x_of(s, i) < s,
        y_of(s, i) * spec_quad_len(s) <= i,
        z_of(s, i) * s + y_of(s, i) * spec_quad_len(s) <= i,
{
}

/// The remainder of the linearization below the `y` term is small enough to
/// leave `y`, and then `z`, recoverable by division.
proof fn lemma_remainder_bounds(s: int, x: int, z: int)
    by (nonlinear_arith)
    requires
        1 <= s,
        0 <= x < s,
        0 <= z < s,
    ensures
        0 <= x + z * s < spec_quad_len(s),
{
}

/// Decoding the flat index of an in-range coordinate returns that coordinate:
/// for every valid side length, `from_index` inverts `to_index`.
pub proof fn lemma_coord_round_trip(s: int, y: int, x: int, z: int)
    requires
        1 <= s,
        0 <= y < s,
        0 <= x < s,
        0 <= z < s,
    ensures
        y_of(s, index_of(s, y, x, z)) == y,
        x_of(s, index_of(s, y, x, z)) == x,
        z_of(s, index_of(s, y, x, z)) == z,
{
    let i = index_of(s, y, x, z);
    lemma_side_bounds(s);
    lemma_remainder_bounds(s, x, z);
    // i == y * quad + (x + z * s) with the remainder below quad, so i / quad == y.
    vstd::arithmetic::div_mod::lemma_fundamental_div_mod_converse(
        i,
        spec_quad_len(s),
        y,
        x + z * s,
    );
    // x + z * s == z * s + x with x below s, so dividing the remainder by s leaves z.
    vstd::arithmetic::div_mod::lemma_fundamental_div_mod_converse(x + z * s, s, z, x);
}

/// Encoding the coordinate decoded from an in-cube index returns that index:
/// for every valid side length, `to_index` inverts `from_index`.
pub proof fn lemma_index_round_trip(s: int, i: int)
    requires
        1 <= s,
        0 <= i < spec_cube_len(s),
    ensures
        index_of(s, y_of(s, i), x_of(s, i), z_of(s, i)) == i,
{
}

/// The linearization never sends two distinct in-range coordinates to the
/// same flat index: together with `lemma_index_round_trip`, it is a bijection
/// between the coordinate domain and `[0, CUBE_LEN)`.
pub proof fn lemma_to_index_injective(s: int, y1: int, x1: int, z1: int, y2: int, x2: int, z2: int)
    requires
        1 <= s,
        0 <= y1 < s,
        0 <= x1 < s,
        0 <= z1 < s,
        0 <= y2 < s,
        0 <= x2 < s,
        0 <= z2 < s,
        index_of(s, y1, x1, z1) == index_of(s, y2, x2, z2),
    ensures
        y1 == y2 && x1 == x2 && z1 == z2,
{
    lemma_coord_round_trip(s, y1, x1, z1);
    lemma_coord_round_trip(s, y2, x2, z2);
}

/// The dimension policy for a cube with `S` cells along each edge.
#[derive(Clone, Copy, Debug, PartialEq, Eq, Hash)]
pub struct Dimensions<const S: usize>;

impl<const S: usize> Accessor for Dimensions<S> {
    open spec fn spec_side_len() -> usize {
        S
    }

    fn side_len() -> usize {
        S
    }
}

/// The lattice of cell corners of a chunk: one more point than cells along
/// each edge.
pub trait ChunkPlots: Accessor {
    /// Number of corner points along one edge.
    fn side_vert() -> (r: usize)
        requires
            side_ok(Self::spec_side_len() as int),
        ensures
            r == Self::spec_side_len() + 1,
    ;

    /// Number of corner points of the whole cube.
    fn num_verts() -> (r: usize)
        requires
            side_ok(Self::spec_side_len() as int),
            spec_cube_len(Self::spec_side_len() as int + 1) <= usize::MAX as int,
        ensures
            r == spec_cube_len(Self::spec_side_len() as int + 1),
    ;
}

impl<A: Accessor> ChunkPlots for A {
    fn side_vert() -> usize {
        let s: usize = A::side_len();
        proof {
            lemma_side_bounds(s as int);
        }
        s + 1
    }

    fn num_verts() -> usize {
        let v: usize = Self::side_vert();
        proof {
            lemma_side_bounds(v as int);
        }
        v * v * v
    }
}

/// A wire-frame view of a chunk's corner lattice, for callers that build
/// index and vertex buffers from it. Implementations choose the layout.
pub trait ChunkWireFrame: ChunkPlots {
    /// Indices into the corner lattice, in the implementation's layout.
    fn indices() -> Vec<u16>;

    /// Corner positions, in the implementation's layout.
    fn vertices() -> Vec<u16>;
}

} // verus!
