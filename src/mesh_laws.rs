//! What the face list of a chunk holds, and how face records pack.

use vstd::prelude::*;
use crate::chunk::{
    cell_faces, cell_index, cell_x, cell_y, cell_z, dir_faces, exposed, face_dir, face_word,
    face_x, face_y, face_z, faces_upto, in_bounds, mesh, neighbor, occupied,
};

verus! {

/// Packing a face record and reading its fields back gives the coordinates
/// and the direction that went in.
pub proof fn lemma_face_round_trip(x: u32, y: u32, z: u32, d: u32)
    requires
        x < 32,
        y < 32,
        z < 32,
        d < 6,
    ensures
        face_x(face_word(x, y, z, d)) == x,
        face_y(face_word(x, y, z, d)) == y,
        face_z(face_word(x, y, z, d)) == z,
        face_dir(face_word(x, y, z, d)) == d,
{
    assert((x | (y << 5u32) | (z << 10u32) | (d << 15u32)) & 31u32 == x) by (bit_vector)
        requires
            x < 32u32,
            y < 32u32,
            z < 32u32,
            d < 6u32,
    ;
    assert(((x | (y << 5u32) | (z << 10u32) | (d << 15u32)) >> 5u32) & 31u32 == y)
        by (bit_vector)
        requires
            x < 32u32,
            y < 32u32,
            z < 32u32,
            d < 6u32,
    ;
    assert(((x | (y << 5u32) | (z << 10u32) | (d << 15u32)) >> 10u32) & 31u32 == z)
        by (bit_vector)
        requires
            x < 32u32,
            y < 32u32,
            z < 32u32,
            d < 6u32,
    ;
    assert(((x | (y << 5u32) | (z << 10u32) | (d << 15u32)) >> 15u32) & 7u32 == d)
        by (bit_vector)
        requires
            x < 32u32,
            y < 32u32,
            z < 32u32,
            d < 6u32,
    ;
}

/// Cell positions and in-bounds coordinates correspond one to one.
proof fn lemma_cell_coords(x: int, y: int, z: int)
    requires
        in_bounds(x, y, z),
    ensures
        0 <= cell_index(x, y, z) < 32768,
        cell_x(cell_index(x, y, z)) == x,
        cell_y(cell_index(x, y, z)) == y,
        cell_z(cell_index(x, y, z)) == z,
{
}

proof fn lemma_cell_index(i: int)
    requires
        0 <= i < 32768,
    ensures
        in_bounds(cell_x(i), cell_y(i), cell_z(i)),
        cell_index(cell_x(i), cell_y(i), cell_z(i)) == i,
{
}

/// The number of directions below `n` in which `(x, y, z)` has an occupied
/// neighbor inside the chunk.
pub open spec fn occupied_neighbors_upto(g: Seq<u16>, x: int, y: int, z: int, n: int) -> int
    decreases n,
{
    if n <= 0 {
        0
    } else {
        let c = neighbor(x, y, z, n - 1);
        occupied_neighbors_upto(g, x, y, z, n - 1) + if occupied(g, c.0, c.1, c.2) {
            1int
        } else {
            0int
        }
    }
}

/// The number of occupied in-bounds neighbors of `(x, y, z)`.
pub open spec fn occupied_neighbors(g: Seq<u16>, x: int, y: int, z: int) -> int {
    occupied_neighbors_upto(g, x, y, z, 6)
}

/// The sum, over the occupied cells among the first `n`, of six less the
/// number of their occupied neighbors.
pub open spec fn open_face_total(g: Seq<u16>, n: int) -> int
    decreases n,
{
    if n <= 0 {
        0
    } else {
        open_face_total(g, n - 1) + if occupied(g, cell_x(n - 1), cell_y(n - 1), cell_z(n - 1)) {
            6 - occupied_neighbors(g, cell_x(n - 1), cell_y(n - 1), cell_z(n - 1))
        } else {
            0int
        }
    }
}

proof fn lemma_dir_faces_len(g: Seq<u16>, x: int, y: int, z: int, n: int)
    requires
        0 <= n,
    ensures
        dir_faces(g, x, y, z, n).len() == n - occupied_neighbors_upto(g, x, y, z, n),
    decreases n,
{
    if n > 0 {
        lemma_dir_faces_len(g, x, y, z, n - 1);
    }
}

proof fn lemma_faces_upto_len(g: Seq<u16>, n: int)
    requires
        0 <= n,
    ensures
        faces_upto(g, n).len() == open_face_total(g, n),
    decreases n,
{
    if n > 0 {
        lemma_faces_upto_len(g, n - 1);
        lemma_dir_faces_len(g, cell_x(n - 1), cell_y(n - 1), cell_z(n - 1), 6);
    }
}

/// The face list of a chunk has one record for each face of an occupied
/// cell, less one for each occupied neighbor inside the chunk.
pub proof fn lemma_face_count(g: Seq<u16>)
    requires
        g.len() == 32768,
    ensures
        mesh(g).len() == open_face_total(g, 32768),
{
    lemma_faces_upto_len(g, 32768);
}

/// Whether `w` is the record of an exposed face of an occupied cell.
pub open spec fn is_open_face(g: Seq<u16>, w: u32) -> bool {
    &&& face_dir(w) < 6
    &&& w == face_word(face_x(w), face_y(w), face_z(w), face_dir(w))
    &&& occupied(g, face_x(w) as int, face_y(w) as int, face_z(w) as int)
    &&& exposed(g, face_x(w) as int, face_y(w) as int, face_z(w) as int, face_dir(w) as int)
}

proof fn lemma_dir_faces_shape(g: Seq<u16>, x: int, y: int, z: int, n: int)
    requires
        in_bounds(x, y, z),
        occupied(g, x, y, z),
        0 <= n <= 6,
    ensures
        dir_faces(g, x, y, z, n).no_duplicates(),
        forall|k: int|
            0 <= k < dir_faces(g, x, y, z, n).len() ==> {
                let w = #[trigger] dir_faces(g, x, y, z, n)[k];
                &&& is_open_face(g, w)
                &&& face_x(w) == x && face_y(w) == y && face_z(w) == z
                &&& face_dir(w) < n
            },
        forall|d: int|
            0 <= d < n && exposed(g, x, y, z, d) ==> dir_faces(g, x, y, z, n).contains(
                face_word(x as u32, y as u32, z as u32, d as u32),
            ),
    decreases n,
{
    if n > 0 {
        lemma_dir_faces_shape(g, x, y, z, n - 1);
        let prev = dir_faces(g, x, y, z, n - 1);
        let w = face_word(x as u32, y as u32, z as u32, (n - 1) as u32);
        lemma_face_round_trip(x as u32, y as u32, z as u32, (n - 1) as u32);
        let cur = dir_faces(g, x, y, z, n);
        if exposed(g, x, y, z, n - 1) {
            assert(cur == prev.push(w));
            assert(cur[prev.len() as int] == w);
            assert forall|d: int|
                0 <= d < n && exposed(g, x, y, z, d) implies cur.contains(
                face_word(x as u32, y as u32, z as u32, d as u32),
            ) by {
                if d < n - 1 {
                    let k = choose|k: int|
                        0 <= k < prev.len() && prev[k] == face_word(
                            x as u32,
                            y as u32,
                            z as u32,
                            d as u32,
                        );
                    assert(cur[k] == prev[k]);
                }
            }
        } else {
            assert(cur =~= prev);
        }
    }
}

proof fn lemma_faces_upto_shape(g: Seq<u16>, n: int)
    requires
        g.len() == 32768,
        0 <= n <= 32768,
    ensures
        faces_upto(g, n).no_duplicates(),
        forall|k: int|
            0 <= k < faces_upto(g, n).len() ==> {
                let w = #[trigger] faces_upto(g, n)[k];
                &&& is_open_face(g, w)
                &&& cell_index(face_x(w) as int, face_y(w) as int, face_z(w) as int) < n
            },
        forall|i: int, d: int|
            0 <= i < n && 0 <= d < 6 && occupied(g, cell_x(i), cell_y(i), cell_z(i)) && exposed(
                g,
                cell_x(i),
                cell_y(i),
                cell_z(i),
                d,
            ) ==> #[trigger] faces_upto(g, n).contains(
                face_word(cell_x(i) as u32, cell_y(i) as u32, cell_z(i) as u32, d as u32),
            ),
    decreases n,
{
    if n > 0 {
        let i0 = n - 1;
        lemma_faces_upto_shape(g, i0);
        lemma_cell_index(i0);
        let prev = faces_upto(g, i0);
        let add = cell_faces(g, i0);
        let cur = faces_upto(g, n);
        assert(cur == prev + add);
        let (x, y, z) = (cell_x(i0), cell_y(i0), cell_z(i0));
        if occupied(g, x, y, z) {
            lemma_dir_faces_shape(g, x, y, z, 6);
        } else {
            assert(add =~= Seq::<u32>::empty());
        }
        assert forall|k: int|
            0 <= k < add.len() implies is_open_face(g, #[trigger] add[k]) && cell_index(
                face_x(add[k]) as int,
                face_y(add[k]) as int,
                face_z(add[k]) as int,
            ) == i0 by {
            assert(add[k] == dir_faces(g, x, y, z, 6)[k]);
        }
        assert forall|k: int|
            0 <= k < cur.len() implies {
                let w = #[trigger] cur[k];
                &&& is_open_face(g, w)
                &&& cell_index(face_x(w) as int, face_y(w) as int, face_z(w) as int) < n
            } by {
            if k < prev.len() {
                assert(cur[k] == prev[k]);
            } else {
                assert(cur[k] == add[k - prev.len()]);
            }
        }
        assert forall|a: int, b: int|
            0 <= a < cur.len() && 0 <= b < cur.len() && a != b implies cur[a] != cur[b] by {
            if a < prev.len() && b < prev.len() {
                assert(cur[a] == prev[a] && cur[b] == prev[b]);
            } else if a >= prev.len() && b >= prev.len() {
                assert(cur[a] == add[a - prev.len()] && cur[b] == add[b - prev.len()]);
            } else if a < prev.len() {
                assert(cur[a] == prev[a] && cur[b] == add[b - prev.len()]);
            } else {
                assert(cur[b] == prev[b] && cur[a] == add[a - prev.len()]);
            }
        }
        assert forall|i: int, d: int|
            0 <= i < n && 0 <= d < 6 && occupied(g, cell_x(i), cell_y(i), cell_z(i)) && exposed(
                g,
                cell_x(i),
                cell_y(i),
                cell_z(i),
                d,
            ) implies #[trigger] cur.contains(
                face_word(cell_x(i) as u32, cell_y(i) as u32, cell_z(i) as u32, d as u32),
            ) by {
            let w = face_word(cell_x(i) as u32, cell_y(i) as u32, cell_z(i) as u32, d as u32);
            if i < i0 {
                assert(prev.contains(w));
                let k = choose|k: int| 0 <= k < prev.len() && prev[k] == w;
                assert(cur[k] == prev[k]);
            } else {
                assert(add.contains(w));
                let k = choose|k: int| 0 <= k < add.len() && add[k] == w;
                assert(cur[prev.len() + k] == add[k]);
            }
        }
    }
}

/// The face list of a chunk holds exactly one record for each face of an
/// occupied cell whose neighbor in that direction is empty or outside the
/// chunk, and no other record.
pub proof fn lemma_mesh_exact(g: Seq<u16>)
    requires
        g.len() == 32768,
    ensures
        mesh(g).no_duplicates(),
        forall|k: int| 0 <= k < mesh(g).len() ==> is_open_face(g, #[trigger] mesh(g)[k]),
        forall|x: u32, y: u32, z: u32, d: u32|
            x < 32 && y < 32 && z < 32 && d < 6 ==> (#[trigger] mesh(g).contains(
                face_word(x, y, z, d),
            ) <==> occupied(g, x as int, y as int, z as int) && exposed(
                g,
                x as int,
                y as int,
                z as int,
                d as int,
            )),
{
    lemma_faces_upto_shape(g, 32768);
    assert forall|x: u32, y: u32, z: u32, d: u32|
        x < 32 && y < 32 && z < 32 && d < 6 implies (#[trigger] mesh(g).contains(
        face_word(x, y, z, d),
    ) <==> occupied(g, x as int, y as int, z as int) && exposed(
        g,
        x as int,
        y as int,
        z as int,
        d as int,
    )) by {
        let w = face_word(x, y, z, d);
        lemma_face_round_trip(x, y, z, d);
        lemma_cell_coords(x as int, y as int, z as int);
        let i = cell_index(x as int, y as int, z as int);
        if mesh(g).contains(w) {
            let k = choose|k: int| 0 <= k < mesh(g).len() && mesh(g)[k] == w;
            assert(is_open_face(g, mesh(g)[k]));
        }
        if occupied(g, x as int, y as int, z as int) && exposed(
            g,
            x as int,
            y as int,
            z as int,
            d as int,
        ) {
            assert(faces_upto(g, 32768).contains(
                face_word(cell_x(i) as u32, cell_y(i) as u32, cell_z(i) as u32, d as u32),
            ));
        }
    }
}

/// A chunk with no block has an empty face list.
pub proof fn lemma_empty_mesh(g: Seq<u16>)
    requires
        g.len() == 32768,
        forall|i: int| 0 <= i < 32768 ==> g[i] == 0,
    ensures
        mesh(g).len() == 0,
{
    lemma_mesh_exact(g);
    if mesh(g).len() > 0 {
        let w = mesh(g)[0];
        assert(is_open_face(g, w));
        assert(g[cell_index(face_x(w) as int, face_y(w) as int, face_z(w) as int)] != 0);
    }
}

} // verus!
