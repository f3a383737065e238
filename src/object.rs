use vstd::prelude::*;
use crate::chunk::{sphere_cells, Chunk, Coord};

verus! {

/// Position of chunk `c` when the chunks of an `n`-sided cube are listed
/// x-major.
pub open spec fn object_index(c: Coord, n: int) -> int {
    (c.x * n + c.y) * n + c.z
}

/// A set of chunks, each at its own coordinate.
pub struct Object {
    chunks: Vec<(Coord, Chunk)>,
}

impl View for Object {
    type V = Seq<(Coord, Seq<u16>)>;

    closed spec fn view(&self) -> Seq<(Coord, Seq<u16>)> {
        self.chunks@.map_values(|e: (Coord, Chunk)| (e.0, e.1@))
    }
}

impl Object {
    /// No two chunks share a coordinate, and every chunk is well formed.
    pub open spec fn wf(&self) -> bool {
        &&& forall|i: int, j: int|
            0 <= i < self@.len() && 0 <= j < self@.len() && #[trigger] self@[i].0 == #[trigger] self@[j].0
                ==> i == j
        &&& forall|i: int| 0 <= i < self@.len() ==> (#[trigger] self@[i]).1.len() == 32768
    }

    /// A cube of `n` chunks a side, each holding the sphere of `Chunk::test1`,
    /// listed x-major.
    pub fn test(n: usize) -> (r: Object)
        ensures
            r.wf(),
            r@.len() == n * n * n,
            forall|i: int|
                0 <= i < r@.len() ==> {
                    let c = (#[trigger] r@[i]).0;
                    &&& c.x < n && c.y < n && c.z < n
                    &&& object_index(c, n as int) == i
                    &&& r@[i].1 == sphere_cells()
                },
    {
        let mut chunks: Vec<(Coord, Chunk)> = Vec::new();
        let mut x: usize = 0;
        while x < n
            invariant
                x <= n,
                chunks@.len() == x * n * n,
                forall|i: int|
                    0 <= i < chunks@.len() ==> {
                        let c = (#[trigger] chunks@[i]).0;
                        &&& c.x < n && c.y < n && c.z < n
                        &&& object_index(c, n as int) == i
                        &&& chunks@[i].1@ == sphere_cells()
                    },
            decreases n - x,
        {
            let mut y: usize = 0;
            while y < n
                invariant
                    x < n,
                    y <= n,
                    chunks@.len() == (x * n + y) * n,
                    forall|i: int|
                        0 <= i < chunks@.len() ==> {
                            let c = (#[trigger] chunks@[i]).0;
                            &&& c.x < n && c.y < n && c.z < n
                            &&& object_index(c, n as int) == i
                            &&& chunks@[i].1@ == sphere_cells()
                        },
                decreases n - y,
            {
                let mut z: usize = 0;
                while z < n
                    invariant
                        x < n,
                        y < n,
                        z <= n,
                        chunks@.len() == (x * n + y) * n + z,
                        forall|i: int|
                            0 <= i < chunks@.len() ==> {
                                let c = (#[trigger] chunks@[i]).0;
                                &&& c.x < n && c.y < n && c.z < n
                                &&& object_index(c, n as int) == i
                                &&& chunks@[i].1@ == sphere_cells()
                            },
                    decreases n - z,
                {
                    let coord = Coord::new(x, y, z);
                    chunks.push((coord, Chunk::test1()));
                    z = z + 1;
                }
                assert((x * n + y) * n + n == (x * n + (y + 1)) * n) by (nonlinear_arith);
                y = y + 1;
            }
            assert((x * n + n) * n == (x + 1) * n * n) by (nonlinear_arith);
            x = x + 1;
        }
        assert(x * n * n == n * n * n);
        let r = Object { chunks };
        assert forall|i: int, j: int|
            0 <= i < r@.len() && 0 <= j < r@.len() && #[trigger] r@[i].0 == #[trigger] r@[j].0
            implies i == j by {
            assert(object_index(r@[i].0, n as int) == i);
        }
        r
    }

    /// Number of chunks.
    pub fn len(&self) -> (r: usize)
        ensures
            r == self@.len(),
    {
        self.chunks.len()
    }

    /// The chunk at coordinate `c`, if there is one.
    pub fn get(&self, c: Coord) -> (r: Option<&Chunk>)
        ensures
            r is None <==> forall|i: int| 0 <= i < self@.len() ==> (#[trigger] self@[i]).0 != c,
            r matches Some(ch) ==> exists|i: int|
                0 <= i < self@.len() && (#[trigger] self@[i]).0 == c && self@[i].1 == ch@,
    {
        let mut i: usize = 0;
        while i < self.chunks.len()
            invariant
                i <= self@.len(),
                forall|j: int| 0 <= j < i ==> (#[trigger] self@[j]).0 != c,
            decreases self@.len() - i,
        {
            if self.chunks[i].0 == c {
                assert(self@[i as int].0 == c);
                return Some(&self.chunks[i].1);
            }
            i = i + 1;
        }
        None
    }
}

} // verus!
