//! Fixed-capacity voxel stores. A `Chunk` owns one cell value per position of
//! a cube and is indexed through an [`Accessor`](crate::access::Accessor)
//! dimension policy; a `ChunkVec` is the growable, unchecked variant.

use vstd::prelude::*;

use crate::access::{
    coord_ok, index_of, side_ok, spec_cube_len, Accessor,
};
use crate::mesh::{
    corner_of_solid, instance_at, instances_upto, is_corner_of, spec_mesh_instances, Instance,
    Point, Position, Rotation,
};

verus! {

/// The element contract for chunk cells: a plain, copyable, thread-shareable
/// value with a distinguished default (the "empty/air" cell) and a solidity
/// test that the meshing step drives. Both are total and fixed by the type,
/// so chunks can be duplicated and handed to concurrent readers without
/// per-cell bookkeeping or locking.
pub trait Unit: Sized + Copy + Send + Sync + 'static {
    /// The default, empty cell value.
    spec fn spec_default() -> Self;

    /// Whether this cell counts as solid for meshing.
    spec fn spec_solid(self) -> bool;

    /// The default, empty cell value.
    fn unit_default() -> (r: Self)
        ensures
            r == Self::spec_default(),
    ;

    /// Whether this cell counts as solid for meshing.
    fn is_solid(&self) -> (b: bool)
        ensures
            b == self.spec_solid(),
    ;

    /// Whether two cells hold the same value.
    fn unit_eq(&self, other: &Self) -> (b: bool)
        ensures
            b == (self == other),
    ;
}

impl Unit for bool {
    open spec fn spec_default() -> bool {
        false
    }

    open spec fn spec_solid(self) -> bool {
        self
    }

    fn unit_default() -> bool {
        false
    }

    fn is_solid(&self) -> bool {
        *self
    }

    fn unit_eq(&self, other: &bool) -> bool {
        *self == *other
    }
}

impl Unit for u8 {
    open spec fn spec_default() -> u8 {
        0
    }

    open spec fn spec_solid(self) -> bool {
        self != 0
    }

    fn unit_default() -> u8 {
        0
    }

    fn is_solid(&self) -> bool {
        *self != 0
    }

    fn unit_eq(&self, other: &u8) -> bool {
        *self == *other
    }
}

impl Unit for u16 {
    open spec fn spec_default() -> u16 {
        0
    }

    open spec fn spec_solid(self) -> bool {
        self != 0
    }

    fn unit_default() -> u16 {
        0
    }

    fn is_solid(&self) -> bool {
        *self != 0
    }

    fn unit_eq(&self, other: &u16) -> bool {
        *self == *other
    }
}

impl Unit for u32 {
    open spec fn spec_default() -> u32 {
        0
    }

    open spec fn spec_solid(self) -> bool {
        self != 0
    }

    fn unit_default() -> u32 {
        0
    }

    fn is_solid(&self) -> bool {
        *self != 0
    }

    fn unit_eq(&self, other: &u32) -> bool {
        *self == *other
    }
}

impl Unit for u64 {
    open spec fn spec_default() -> u64 {
        0
    }

    open spec fn spec_solid(self) -> bool {
        self != 0
    }

    fn unit_default() -> u64 {
        0
    }

    fn is_solid(&self) -> bool {
        *self != 0
    }

    fn unit_eq(&self, other: &u64) -> bool {
        *self == *other
    }
}

impl Unit for usize {
    open spec fn spec_default() -> usize {
        0
    }

    open spec fn spec_solid(self) -> bool {
        self != 0
    }

    fn unit_default() -> usize {
        0
    }

    fn is_solid(&self) -> bool {
        *self != 0
    }

    fn unit_eq(&self, other: &usize) -> bool {
        *self == *other
    }
}

/// Generic chunk data: `N` cells in flat linearization order. `N` must equal
/// the cube size of the dimension policy `A`; every constructor establishes
/// that, closing the capacity/policy mismatch left open where the two are
/// specified separately.
#[derive(Debug, Hash)]
pub struct Chunk<A: Accessor, T: Unit, const N: usize> {
    data: Vec<T>,
    state: core::marker::PhantomData<A>,
}

impl<A: Accessor, T: Unit, const N: usize> View for Chunk<A, T, N> {
    type V = Seq<T>;

    closed spec fn view(&self) -> Seq<T> {
        self.data@
    }
}

impl<A: Accessor, T: Unit, const N: usize> Chunk<A, T, N> {
    /// The chunk's capacity matches its dimension policy: the policy is
    /// usable and the flat storage holds exactly one cell per cube position.
    /// Established by every constructor and preserved by every method.
    pub closed spec fn wf(self) -> bool {
        &&& side_ok(A::spec_side_len() as int)
        &&& N as int == spec_cube_len(A::spec_side_len() as int)
        &&& self.data.len() == N
    }

    /// A well-formed chunk holds exactly `N` cells, one per position of its
    /// policy's cube.
    pub proof fn lemma_wf_len(self)
        requires
            self.wf(),
        ensures
            self@.len() == N,
            side_ok(A::spec_side_len() as int),
            N as int == spec_cube_len(A::spec_side_len() as int),
    {
    }

    /// A chunk with every cell set to the default value of the cell type.
    pub fn default() -> (c: Self)
        requires
            side_ok(A::spec_side_len() as int),
            N as int == spec_cube_len(A::spec_side_len() as int),
        ensures
            c.wf(),
            c@.len() == N,
            forall|i: int| 0 <= i < N ==> c@[i] == T::spec_default(),
    {
        let mut data: Vec<T> = Vec::new();
        let mut n: usize = 0;
        while n < N
            invariant
                n <= N,
                data.len() == n,
                forall|i: int| 0 <= i < n ==> data@[i] == T::spec_default(),
            decreases N - n,
        {
            data.push(T::unit_default());
            n = n + 1;
        }
        Chunk { data, state: core::marker::PhantomData }
    }

    /// Wraps a flat cell buffer, validating that its length matches both the
    /// declared capacity `N` and the policy's cube size. Returns `None`
    /// exactly when the lengths disagree.
    pub fn from_cells(data: Vec<T>) -> (r: Option<Self>)
        requires
            side_ok(A::spec_side_len() as int),
        ensures
            match r {
                Some(c) => c.wf() && c@ == data@ && data@.len() == N,
                None => data@.len() != N || N as int != spec_cube_len(
                    A::spec_side_len() as int,
                ),
            },
    {
        let cube: usize = A::cube_len();
        if data.len() == N && cube == N {
            Some(Chunk { data, state: core::marker::PhantomData })
        } else {
            None
        }
    }

    /// The cell at the coordinate `pos`, in `[y, x, z]` order.
    pub fn index(&self, pos: [usize; 3]) -> (r: &T)
        requires
            self.wf(),
            coord_ok(A::spec_side_len() as int, pos),
        ensures
            *r == self@[index_of(
                A::spec_side_len() as int,
                pos[0] as int,
                pos[1] as int,
                pos[2] as int,
            )],
    {
        let i: usize = A::to_index(pos);
        &self.data[i]
    }

    /// A mutable borrow of the cell at the coordinate `pos`, in `[y, x, z]`
    /// order: the chunk afterwards holds whatever the caller left behind the
    /// borrow, and every other cell is unchanged.
    pub fn index_mut(&mut self, pos: [usize; 3]) -> (r: &mut T)
        requires
            old(self).wf(),
            coord_ok(A::spec_side_len() as int, pos),
        ensures
            final(self).wf(),
            *r == old(self)@[index_of(
                A::spec_side_len() as int,
                pos[0] as int,
                pos[1] as int,
                pos[2] as int,
            )],
            final(self)@ == old(self)@.update(
                index_of(
                    A::spec_side_len() as int,
                    pos[0] as int,
                    pos[1] as int,
                    pos[2] as int,
                ),
                *final(r),
            ),
    {
        let i: usize = A::to_index(pos);
        &mut self.data[i]
    }

    /// The cell at the coordinate `pos`, or `None` exactly when a component
    /// is out of range. Callers that cannot establish bounds statically use
    /// this instead of wrapping or clamping, which would corrupt the
    /// linearization.
    pub fn try_index(&self, pos: [usize; 3]) -> (r: Option<&T>)
        requires
            self.wf(),
        ensures
            match r {
                Some(c) => coord_ok(A::spec_side_len() as int, pos) && *c == self@[index_of(
                    A::spec_side_len() as int,
                    pos[0] as int,
                    pos[1] as int,
                    pos[2] as int,
                )],
                None => !coord_ok(A::spec_side_len() as int, pos),
            },
    {
        let s: usize = A::side_len();
        if pos[0] < s && pos[1] < s && pos[2] < s {
            Some(self.index(pos))
        } else {
            None
        }
    }

    /// Writes `val` at the coordinate `pos` and leaves every other cell
    /// unchanged.
    pub fn set(&mut self, pos: [usize; 3], val: T)
        requires
            old(self).wf(),
            coord_ok(A::spec_side_len() as int, pos),
        ensures
            final(self).wf(),
            final(self)@ == old(self)@.update(
                index_of(
                    A::spec_side_len() as int,
                    pos[0] as int,
                    pos[1] as int,
                    pos[2] as int,
                ),
                val,
            ),
    {
        let i: usize = A::to_index(pos);
        self.data[i] = val;
    }

    /// A duplicate holding the same cells. Cells are plain copyable data, so
    /// the duplicate shares nothing with the original: mutating either one
    /// afterwards leaves the other as it was.
    pub fn shallow_copy(&self) -> (r: Self)
        ensures
            r@ == self@,
            self.wf() ==> r.wf(),
    {
        let mut data: Vec<T> = Vec::new();
        let mut n: usize = 0;
        while n < self.data.len()
            invariant
                n <= self.data.len(),
                data@ == self.data@.take(n as int),
            decreases self.data.len() - n,
        {
            data.push(self.data[n]);
            n = n + 1;
        }
        proof {
            assert(data@ == self.data@);
        }
        Chunk { data, state: core::marker::PhantomData }
    }

    /// Reinterprets the same flat storage under a different dimension policy,
    /// without moving the data. The new policy's cube size must still equal
    /// the element count `N`; that is checked here at verification time
    /// instead of being left to the caller.
    pub fn new_accessor<A2: Accessor>(self) -> (r: Chunk<A2, T, N>)
        requires
            self.wf(),
            side_ok(A2::spec_side_len() as int),
            N as int == spec_cube_len(A2::spec_side_len() as int),
        ensures
            r.wf(),
            r@ == self@,
    {
        Chunk { data: self.data, state: core::marker::PhantomData }
    }

    /// The cells as a slice, in flat linearization order.
    pub fn iter_slice(&self) -> (r: &[T])
        ensures
            r@ == self@,
    {
        self.data.as_slice()
    }

    /// A mutable borrow of all cells, in flat linearization order. The chunk
    /// afterwards holds whatever the caller left in the buffer; it stays
    /// well-formed as long as the caller keeps the length.
    pub fn iter_slice_mut(&mut self) -> (r: &mut Vec<T>)
        ensures
            r@ == old(self)@,
            final(self)@ == final(r)@,
            old(self).wf() && final(r)@.len() == old(self)@.len() ==> final(self).wf(),
    {
        &mut self.data
    }

    /// Meshes the chunk under the naive policy: one placement per solid cell,
    /// in flat-index order, each at the cell's `(x, y, z)` position with the
    /// identity rotation and no face culling.
    pub fn mesh_instances(&self) -> (r: Vec<Instance>)
        requires
            self.wf(),
        ensures
            r@ == spec_mesh_instances(A::spec_side_len() as int, self@),
    {
        let ghost s = A::spec_side_len() as int;
        let mut res: Vec<Instance> = Vec::new();
        let mut i: usize = 0;
        while i < self.data.len()
            invariant
                self.wf(),
                i <= self.data.len(),
                s == A::spec_side_len() as int,
                res@ == instances_upto(s, self@, i as int),
            decreases self.data.len() - i,
        {
            if self.data[i].is_solid() {
                let pos = A::from_index(i);
                res.push(
                    Instance {
                        position: Position { x: pos[1], y: pos[0], z: pos[2] },
                        rotation: Rotation::Identity,
                    },
                );
                proof {
                    assert(res@.last() == instance_at(s, i as int));
                }
            }
            i = i + 1;
        }
        res
    }

    /// Meshes the chunk into the set of cell corner points of its solid
    /// cells: for each solid cell the eight corners of its unit cube, with
    /// duplicates shared between neighbouring cells emitted once. Only set
    /// membership is guaranteed, not emission order.
    pub fn mesh(&self) -> (r: Vec<Point>)
        requires
            self.wf(),
        ensures
            r@.no_duplicates(),
            forall|p: Point| #[trigger] r@.contains(p) <==> corner_of_solid(
                A::spec_side_len() as int,
                self@,
                self@.len() as int,
                p,
            ),
    {
        let ghost s = A::spec_side_len() as int;
        let mut res: Vec<Point> = Vec::new();
        let mut i: usize = 0;
        while i < self.data.len()
            invariant
                self.wf(),
                i <= self.data.len(),
                s == A::spec_side_len() as int,
                res@.no_duplicates(),
                forall|p: Point| #[trigger] res@.contains(p) <==> corner_of_solid(
                    s,
                    self@,
                    i as int,
                    p,
                ),
            decreases self.data.len() - i,
        {
            let ghost prev = res@;
            if self.data[i].is_solid() {
                let pos = A::from_index(i);
                let y: usize = pos[0];
                let x: usize = pos[1];
                let z: usize = pos[2];
                push_if_new(&mut res, Point { y, x, z });
                push_if_new(&mut res, Point { y, x: x + 1, z });
                push_if_new(&mut res, Point { y, x: x + 1, z: z + 1 });
                push_if_new(&mut res, Point { y, x, z: z + 1 });
                push_if_new(&mut res, Point { y: y + 1, x, z });
                push_if_new(&mut res, Point { y: y + 1, x: x + 1, z });
                push_if_new(&mut res, Point { y: y + 1, x: x + 1, z: z + 1 });
                push_if_new(&mut res, Point { y: y + 1, x, z: z + 1 });
                proof {
                    assert forall|p: Point| #[trigger] res@.contains(p) implies corner_of_solid(
                        s,
                        self@,
                        i as int + 1,
                        p,
                    ) by {
                        if prev.contains(p) {
                            assert(corner_of_solid(s, self@, i as int, p));
                        } else {
                            assert(is_corner_of(s, i as int, p));
                            assert(self@[i as int].spec_solid());
                        }
                    }
                    assert forall|p: Point| corner_of_solid(
                        s,
                        self@,
                        i as int + 1,
                        p,
                    ) implies #[trigger] res@.contains(p) by {
                        let k = choose|k: int|
                            0 <= k < i as int + 1 && (#[trigger] self@[k].spec_solid())
                                && is_corner_of(s, k, p);
                        if k < i as int {
                            assert(corner_of_solid(s, self@, i as int, p));
                            assert(prev.contains(p));
                        } else {
                            assert(is_corner_of(s, i as int, p));
                        }
                    }
                }
            } else {
                proof {
                    assert forall|p: Point| #[trigger] res@.contains(p) <==> corner_of_solid(
                        s,
                        self@,
                        i as int + 1,
                        p,
                    ) by {
                        if corner_of_solid(s, self@, i as int + 1, p) {
                            let k = choose|k: int|
                                0 <= k < i as int + 1 && (#[trigger] self@[k].spec_solid())
                                    && is_corner_of(s, k, p);
                            assert(k < i as int);
                            assert(corner_of_solid(s, self@, i as int, p));
                        }
                        if corner_of_solid(s, self@, i as int, p) {
                            assert(corner_of_solid(s, self@, i as int + 1, p));
                        }
                    }
                }
            }
            i = i + 1;
        }
        res
    }
}

/// Whether the vector already holds the point.
fn contains_point(v: &Vec<Point>, p: Point) -> (b: bool)
    ensures
        b == v@.contains(p),
{
    let mut j: usize = 0;
    while j < v.len()
        invariant
            j <= v.len(),
            forall|k: int| 0 <= k < j ==> v@[k] != p,
        decreases v.len() - j,
    {
        if v[j] == p {
            return true;
        }
        j = j + 1;
    }
    false
}

/// Appends the point unless it is already present, keeping the vector free of
/// duplicates.
fn push_if_new(v: &mut Vec<Point>, p: Point)
    requires
        old(v)@.no_duplicates(),
    ensures
        final(v)@.no_duplicates(),
        forall|q: Point| #[trigger] final(v)@.contains(q) <==> old(v)@.contains(q) || q == p,
{
    if !contains_point(v, p) {
        let ghost prev = v@;
        v.push(p);
        proof {
            assert forall|q: Point| #[trigger] v@.contains(q) implies prev.contains(q) || q
                == p by {
                let k = choose|k: int| 0 <= k < v@.len() && v@[k] == q;
                if k < prev.len() {
                    assert(prev[k] == q);
                }
            }
            assert forall|q: Point| prev.contains(q) || q == p implies #[trigger] v@.contains(
                q,
            ) by {
                if prev.contains(q) {
                    let k = choose|k: int| 0 <= k < prev.len() && prev[k] == q;
                    assert(v@[k] == q);
                } else {
                    assert(v@[prev.len() as int] == q);
                }
            }
            assert forall|k1: int, k2: int|
                0 <= k1 < v@.len() && 0 <= k2 < v@.len() && k1 != k2 implies v@[k1]
                != v@[k2] by {
                if k1 < prev.len() && k2 < prev.len() {
                    assert(prev[k1] != prev[k2]);
                } else if k1 < prev.len() {
                    assert(!prev.contains(p));
                    assert(prev[k1] != p);
                } else if k2 < prev.len() {
                    assert(!prev.contains(p));
                    assert(prev[k2] != p);
                }
            }
        }
    }
}

/// Whether two cell buffers hold the same cells in the same order.
fn cells_equal<T: Unit>(a: &Vec<T>, b: &Vec<T>) -> (r: bool)
    ensures
        r == (a@ == b@),
{
    if a.len() != b.len() {
        return false;
    }
    let mut j: usize = 0;
    while j < a.len()
        invariant
            a@.len() == b@.len(),
            j <= a.len(),
            forall|k: int| 0 <= k < j ==> a@[k] == b@[k],
        decreases a.len() - j,
    {
        if !a[j].unit_eq(&b[j]) {
            return false;
        }
        j = j + 1;
    }
    proof {
        assert(a@ =~= b@);
    }
    true
}

impl<A: Accessor, T: Unit, const N: usize> PartialEq for Chunk<A, T, N> {
    /// Two chunks are equal exactly when all `N` cells are equal in flat
    /// order.
    fn eq(&self, other: &Self) -> (r: bool) {
        cells_equal(&self.data, &other.data)
    }
}

impl<A: Accessor, T: Unit, const N: usize> vstd::std_specs::cmp::PartialEqSpecImpl for Chunk<A, T, N> {
    open spec fn obeys_eq_spec() -> bool {
        true
    }

    open spec fn eq_spec(&self, other: &Self) -> bool {
        self@ == other@
    }
}

/// Growable chunk data indexed through a dimension policy. Unlike [`Chunk`],
/// its length is not tied to the policy's cube size; every access checks
/// against the actual length instead.
#[derive(Debug, Hash)]
pub struct ChunkVec<T: Unit, A: Accessor> {
    data: Vec<T>,
    state: core::marker::PhantomData<A>,
}

impl<T: Unit, A: Accessor> View for ChunkVec<T, A> {
    type V = Seq<T>;

    closed spec fn view(&self) -> Seq<T> {
        self.data@
    }
}

impl<A: Accessor, T: Unit> ChunkVec<T, A> {
    /// An empty store with room reserved for `size` cells.
    pub fn with_capacity(size: usize) -> (r: Self)
        ensures
            r@.len() == 0,
    {
        ChunkVec { data: Vec::with_capacity(size), state: core::marker::PhantomData }
    }

    /// Moves a fixed-capacity chunk's cells into a growable store, keeping
    /// their flat order.
    pub fn from_chunk<const N: usize>(c: Chunk<A, T, N>) -> (r: Self)
        ensures
            r@ == c@,
    {
        ChunkVec { data: c.data, state: core::marker::PhantomData }
    }

    /// Appends a cell at the next flat index.
    pub fn push(&mut self, val: T)
        ensures
            final(self)@ == old(self)@.push(val),
    {
        self.data.push(val);
    }

    /// The cell at the coordinate `pos`, in `[y, x, z]` order.
    pub fn index(&self, pos: [usize; 3]) -> (r: &T)
        requires
            side_ok(A::spec_side_len() as int),
            coord_ok(A::spec_side_len() as int, pos),
            index_of(
                A::spec_side_len() as int,
                pos[0] as int,
                pos[1] as int,
                pos[2] as int,
            ) < self@.len(),
        ensures
            *r == self@[index_of(
                A::spec_side_len() as int,
                pos[0] as int,
                pos[1] as int,
                pos[2] as int,
            )],
    {
        let i: usize = A::to_index(pos);
        &self.data[i]
    }

    /// Writes `val` at the coordinate `pos` and leaves every other cell
    /// unchanged.
    pub fn set(&mut self, pos: [usize; 3], val: T)
        requires
            side_ok(A::spec_side_len() as int),
            coord_ok(A::spec_side_len() as int, pos),
            index_of(
                A::spec_side_len() as int,
                pos[0] as int,
                pos[1] as int,
                pos[2] as int,
            ) < old(self)@.len(),
        ensures
            final(self)@ == old(self)@.update(
                index_of(
                    A::spec_side_len() as int,
                    pos[0] as int,
                    pos[1] as int,
                    pos[2] as int,
                ),
                val,
            ),
    {
        let i: usize = A::to_index(pos);
        self.data[i] = val;
    }
}

impl<T: Unit, A: Accessor> PartialEq for ChunkVec<T, A> {
    /// Two stores are equal exactly when they hold the same cells in the same
    /// order.
    fn eq(&self, other: &Self) -> (r: bool) {
        cells_equal(&self.data, &other.data)
    }
}

impl<T: Unit, A: Accessor> vstd::std_specs::cmp::PartialEqSpecImpl for ChunkVec<T, A> {
    open spec fn obeys_eq_spec() -> bool {
        true
    }

    open spec fn eq_spec(&self, other: &Self) -> bool {
        self@ == other@
    }
}

/// An owning cursor over a chunk's cells in flat-index order: finite, and a
/// fresh one always starts from index zero.
pub struct ChunkFlatIter<D: Accessor, T: Unit, const N: usize> {
    index: usize,
    chunk: Vec<T>,
    state: core::marker::PhantomData<D>,
}

impl<D: Accessor, T: Unit, const N: usize> View for ChunkFlatIter<D, T, N> {
    type V = Seq<T>;

    closed spec fn view(&self) -> Seq<T> {
        self.chunk@
    }
}

impl<D: Accessor, T: Unit, const N: usize> ChunkFlatIter<D, T, N> {
    /// The iterator holds one cell per position of the chunk it was made
    /// from.
    pub closed spec fn wf(self) -> bool {
        self.chunk.len() == N
    }

    /// The flat index the cursor stands at.
    pub closed spec fn cursor(self) -> usize {
        self.index
    }

    /// A fresh traversal over a snapshot of the chunk's cells, starting at
    /// flat index zero.
    pub fn new(c: &Chunk<D, T, N>) -> (r: Self)
        requires
            c.wf(),
        ensures
            r.wf(),
            r@ == c@,
            r.cursor() == 0,
    {
        ChunkFlatIter { index: 0, chunk: c.shallow_copy().data, state: core::marker::PhantomData }
    }

    /// The cell at the cursor, advancing the cursor by one; `None` once every
    /// cell has been yielded.
    pub fn next(&mut self) -> (r: Option<T>)
        requires
            old(self).wf(),
        ensures
            final(self).wf(),
            final(self)@ == old(self)@,
            old(self).cursor() < N ==> r == Some(old(self)@[old(self).cursor() as int])
                && final(self).cursor() == old(self).cursor() + 1,
            old(self).cursor() >= N ==> r is None && final(self).cursor() == old(self).cursor(),
    {
        if self.index < N {
            let val: T = self.chunk[self.index];
            self.index = self.index + 1;
            Some(val)
        } else {
            None
        }
    }
}

} // verus!
