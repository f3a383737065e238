use vstd::prelude::*;

verus! {

/// Edge length of a chunk, in cells.
pub const CHUNK_SIZE: usize = 32;

/// Number of cells in one layer of a chunk.
pub const CHUNK_SIZE2: usize = 1024;

/// Number of cells in a chunk.
pub const CHUNK_SIZE3: usize = 32768;

/// Whether a coordinate lies inside a chunk.
pub open spec fn in_bounds(x: int, y: int, z: int) -> bool {
    0 <= x < 32 && 0 <= y < 32 && 0 <= z < 32
}

/// Position of the cell `(x, y, z)` in the x-major cell order.
pub open spec fn cell_index(x: int, y: int, z: int) -> int {
    x * 1024 + y * 32 + z
}

/// Whether the cell `(x, y, z)` of the grid `g` holds a block; outside the
/// grid every cell is empty.
pub open spec fn occupied(g: Seq<u16>, x: int, y: int, z: int) -> bool {
    in_bounds(x, y, z) && g[cell_index(x, y, z)] != 0
}

/// Packs a face record: 5 bits for each coordinate, then 3 bits of direction.
pub open spec fn face_word(x: u32, y: u32, z: u32, d: u32) -> u32 {
    x | (y << 5u32) | (z << 10u32) | (d << 15u32)
}

/// The fields of a face record: x, y and z coordinates and direction.
pub open spec fn face_x(w: u32) -> u32 {
    w & 31u32
}

pub open spec fn face_y(w: u32) -> u32 {
    (w >> 5u32) & 31u32
}

pub open spec fn face_z(w: u32) -> u32 {
    (w >> 10u32) & 31u32
}

pub open spec fn face_dir(w: u32) -> u32 {
    (w >> 15u32) & 7u32
}

/// The coordinate of the cell behind `(x, y, z)` in direction `d`, in the
/// order +x, -x, +y, -y, +z, -z.
pub open spec fn neighbor(x: int, y: int, z: int, d: int) -> (int, int, int) {
    if d == 0 {
        (x + 1, y, z)
    } else if d == 1 {
        (x - 1, y, z)
    } else if d == 2 {
        (x, y + 1, z)
    } else if d == 3 {
        (x, y - 1, z)
    } else if d == 4 {
        (x, y, z + 1)
    } else {
        (x, y, z - 1)
    }
}

/// Whether the face of `(x, y, z)` in direction `d` borders an empty cell.
pub open spec fn exposed(g: Seq<u16>, x: int, y: int, z: int, d: int) -> bool {
    let n = neighbor(x, y, z, d);
    !occupied(g, n.0, n.1, n.2)
}

/// The face records of cell `(x, y, z)` for the directions below `n`, in
/// direction order, whether or not the cell itself is occupied.
pub open spec fn dir_faces(g: Seq<u16>, x: int, y: int, z: int, n: int) -> Seq<u32>
    decreases n,
{
    if n <= 0 {
        Seq::empty()
    } else {
        dir_faces(g, x, y, z, n - 1) + if exposed(g, x, y, z, n - 1) {
            seq![face_word(x as u32, y as u32, z as u32, (n - 1) as u32)]
        } else {
            Seq::empty()
        }
    }
}

/// Coordinates of the cell at position `i` of the x-major order.
pub open spec fn cell_x(i: int) -> int {
    i / 1024
}

pub open spec fn cell_y(i: int) -> int {
    (i / 32) % 32
}

pub open spec fn cell_z(i: int) -> int {
    i % 32
}

/// The face records of the cell at position `i`: none if it is empty, else
/// one for each exposed direction.
pub open spec fn cell_faces(g: Seq<u16>, i: int) -> Seq<u32> {
    if occupied(g, cell_x(i), cell_y(i), cell_z(i)) {
        dir_faces(g, cell_x(i), cell_y(i), cell_z(i), 6)
    } else {
        Seq::empty()
    }
}

/// The face records of the first `n` cells, in cell order.
pub open spec fn faces_upto(g: Seq<u16>, n: int) -> Seq<u32>
    decreases n,
{
    if n <= 0 {
        Seq::empty()
    } else {
        faces_upto(g, n - 1) + cell_faces(g, n - 1)
    }
}

/// The face list of a grid: every exposed face of every occupied cell, in
/// x-major cell order and then in direction order.
pub open spec fn mesh(g: Seq<u16>) -> Seq<u32> {
    faces_upto(g, 32768)
}

/// Whether the cell `(x, y, z)` lies strictly inside the sphere of radius 16
/// centred on `(16, 16, 16)`.
pub open spec fn in_sphere(x: int, y: int, z: int) -> bool {
    (x - 16) * (x - 16) + (y - 16) * (y - 16) + (z - 16) * (z - 16) < 256
}

/// The cells of a chunk holding block 1 exactly inside that sphere.
pub open spec fn sphere_cells() -> Seq<u16> {
    Seq::new(
        32768,
        |i: int|
            if in_sphere(cell_x(i), cell_y(i), cell_z(i)) {
                1u16
            } else {
                0u16
            },
    )
}

/// A cubic grid of block ids, 0 being empty, stored in x-major order.
pub struct Chunk {
    blocks: Vec<u16>,
}

impl View for Chunk {
    type V = Seq<u16>;

    closed spec fn view(&self) -> Seq<u16> {
        self.blocks@
    }
}

impl Default for Chunk {
    /// An empty chunk.
    fn default() -> (r: Chunk)
        ensures
            r.wf(),
            forall|i: int| 0 <= i < 32768 ==> r@[i] == 0,
    {
        Chunk { blocks: vec![0u16; CHUNK_SIZE3] }
    }
}

impl Chunk {
    /// Every chunk holds exactly one block id per cell.
    pub open spec fn wf(&self) -> bool {
        self@.len() == 32768
    }

    /// A chunk holding block 1 in every cell inside the sphere of radius 16
    /// around its centre, and nothing elsewhere.
    pub fn test1() -> (r: Chunk)
        ensures
            r.wf(),
            r@ == sphere_cells(),
    {
        let mut blocks: Vec<u16> = Vec::new();
        let mut i: usize = 0;
        while i < CHUNK_SIZE3
            invariant
                i <= 32768,
                blocks@.len() == i,
                forall|j: int|
                    0 <= j < i ==> blocks@[j] == if in_sphere(cell_x(j), cell_y(j), cell_z(j)) {
                        1u16
                    } else {
                        0u16
                    },
            decreases 32768 - i,
        {
            let dx: i64 = (i / CHUNK_SIZE2) as i64 - 16;
            let dy: i64 = ((i / CHUNK_SIZE) % CHUNK_SIZE) as i64 - 16;
            let dz: i64 = (i % CHUNK_SIZE) as i64 - 16;
            assert(-16 <= dx <= 16 && -16 <= dy <= 16 && -16 <= dz <= 16);
            assert(0 <= dx * dx <= 256 && 0 <= dy * dy <= 256 && 0 <= dz * dz <= 256) by (nonlinear_arith)
                requires
                    -16 <= dx <= 16,
                    -16 <= dy <= 16,
                    -16 <= dz <= 16,
            ;
            let block: u16 = if dx * dx + dy * dy + dz * dz < 256 {
                1
            } else {
                0
            };
            blocks.push(block);
            i = i + 1;
        }
        assert(blocks@ =~= sphere_cells());
        Chunk { blocks }
    }

    /// A chunk holding block 1 in every cell.
    pub fn test2() -> (r: Chunk)
        ensures
            r.wf(),
            forall|i: int| 0 <= i < 32768 ==> r@[i] == 1,
    {
        Chunk { blocks: vec![1u16; CHUNK_SIZE3] }
    }

    /// Places `block` at `(x, y, z)`.
    pub fn set(&mut self, x: usize, y: usize, z: usize, block: u16)
        requires
            old(self).wf(),
            in_bounds(x as int, y as int, z as int),
        ensures
            final(self).wf(),
            final(self)@ == old(self)@.update(cell_index(x as int, y as int, z as int), block),
    {
        self.blocks.set(x * CHUNK_SIZE2 + y * CHUNK_SIZE + z, block);
    }

    /// The block id at `(x, y, z)`, if that cell lies inside the chunk.
    pub fn get(&self, x: usize, y: usize, z: usize) -> (r: Option<bool>)
        requires
            self.wf(),
        ensures
            r == if in_bounds(x as int, y as int, z as int) {
                Some(occupied(self@, x as int, y as int, z as int))
            } else {
                None::<bool>
            },
    {
        if x < CHUNK_SIZE && y < CHUNK_SIZE && z < CHUNK_SIZE {
            Some(self.blocks[x * CHUNK_SIZE2 + y * CHUNK_SIZE + z] != 0)
        } else {
            None
        }
    }

    /// Whether `(x, y, z)` holds a block; cells outside the chunk are empty.
    pub fn get2(&self, x: usize, y: usize, z: usize) -> (r: bool)
        requires
            self.wf(),
        ensures
            r == occupied(self@, x as int, y as int, z as int),
    {
        match self.get(x, y, z) {
            Some(b) => b,
            None => false,
        }
    }

    /// Packs the face of `(x, y, z)` in direction `f` into one word.
    pub fn face(x: usize, y: usize, z: usize, f: usize) -> (r: u32)
        requires
            x < 32,
            y < 32,
            z < 32,
            f < 6,
        ensures
            r == face_word(x as u32, y as u32, z as u32, f as u32),
    {
        (x as u32) | ((y as u32) << 5u32) | ((z as u32) << 10u32) | ((f as u32) << 15u32)
    }

    /// Splits a face record into its coordinates and direction.
    pub fn decode_face(word: u32) -> (r: (usize, usize, usize, usize))
        ensures
            r == (face_x(word) as usize, face_y(word) as usize, face_z(word) as usize, face_dir(
                word,
            ) as usize),
    {
        (
            (word & 31u32) as usize,
            ((word >> 5u32) & 31u32) as usize,
            ((word >> 10u32) & 31u32) as usize,
            ((word >> 15u32) & 7u32) as usize,
        )
    }

    /// Whether the face of `(x, y, z)` in direction `d` borders an empty cell.
    fn is_exposed(&self, x: usize, y: usize, z: usize, d: usize) -> (r: bool)
        requires
            self.wf(),
            x < 32,
            y < 32,
            z < 32,
            d < 6,
        ensures
            r == exposed(self@, x as int, y as int, z as int, d as int),
    {
        if d == 0 {
            !self.get2(x + 1, y, z)
        } else if d == 1 {
            x == 0 || !self.get2(x - 1, y, z)
        } else if d == 2 {
            !self.get2(x, y + 1, z)
        } else if d == 3 {
            y == 0 || !self.get2(x, y - 1, z)
        } else if d == 4 {
            !self.get2(x, y, z + 1)
        } else {
            z == 0 || !self.get2(x, y, z - 1)
        }
    }

    /// The packed face list of the chunk: one record for each face of an
    /// occupied cell whose neighbor is empty or outside the chunk.
    pub fn faces(&self) -> (r: Vec<u32>)
        requires
            self.wf(),
        ensures
            r@ == mesh(self@),
    {
        let mut faces: Vec<u32> = Vec::new();
        let mut i: usize = 0;
        while i < CHUNK_SIZE3
            invariant
                self.wf(),
                i <= 32768,
                faces@ == faces_upto(self@, i as int),
            decreases 32768 - i,
        {
            let x: usize = i / CHUNK_SIZE2;
            let y: usize = (i / CHUNK_SIZE) % CHUNK_SIZE;
            let z: usize = i % CHUNK_SIZE;
            if self.get2(x, y, z) {
                let ghost base = faces@;
                let mut d: usize = 0;
                while d < 6
                    invariant
                        self.wf(),
                        x < 32,
                        y < 32,
                        z < 32,
                        d <= 6,
                        faces@ == base + dir_faces(self@, x as int, y as int, z as int, d as int),
                    decreases 6 - d,
                {
                    if self.is_exposed(x, y, z, d) {
                        faces.push(Self::face(x, y, z, d));
                    }
                    proof {
                        assert(faces@ =~= base + dir_faces(self@, x as int, y as int, z as int, d + 1));
                    }
                    d = d + 1;
                }
            }
            proof {
                assert(faces@ =~= faces_upto(self@, i + 1));
            }
            i = i + 1;
        }
        faces
    }
}

/// Integer coordinates of a chunk within an object.
#[derive(Clone, Copy, PartialEq, Eq, Structural, Hash, Debug)]
pub struct Coord {
    pub x: usize,
    pub y: usize,
    pub z: usize,
}

impl Coord {
    pub fn new(x: usize, y: usize, z: usize) -> (r: Coord)
        ensures
            r == (Coord { x, y, z }),
    {
        Coord { x, y, z }
    }
}

} // verus!
