use voxel_render::chunk::{CHUNK_SIZE, CHUNK_SIZE3};
use voxel_render::{Chunk, Coord, Object};

fn exposed_count(c: &Chunk) -> usize {
    let n = CHUNK_SIZE as i64;
    let occ = |x: i64, y: i64, z: i64| -> bool {
        x >= 0 && y >= 0 && z >= 0 && x < n && y < n && z < n
            && c.get2(x as usize, y as usize, z as usize)
    };
    let mut total = 0;
    for x in 0..n {
        for y in 0..n {
            for z in 0..n {
                if occ(x, y, z) {
                    let neighbors = [
                        occ(x + 1, y, z),
                        occ(x - 1, y, z),
                        occ(x, y + 1, z),
                        occ(x, y - 1, z),
                        occ(x, y, z + 1),
                        occ(x, y, z - 1),
                    ];
                    total += 6 - neighbors.iter().filter(|b| **b).count();
                }
            }
        }
    }
    total
}

#[test]
fn empty_chunk_has_no_faces() {
    let c = Chunk::default();
    assert_eq!(c.faces().len(), 0);
}

#[test]
fn full_chunk_has_only_boundary_faces() {
    let c = Chunk::test2();
    let faces = c.faces();
    assert_eq!(faces.len(), 6 * 32 * 32);
    for w in faces {
        let (x, y, z, d) = Chunk::decode_face(w);
        let on_boundary = match d {
            0 => x == 31,
            1 => x == 0,
            2 => y == 31,
            3 => y == 0,
            4 => z == 31,
            5 => z == 0,
            _ => false,
        };
        assert!(on_boundary, "interior face {} {} {} {}", x, y, z, d);
    }
}

#[test]
fn single_block_has_six_faces_in_direction_order() {
    let mut c = Chunk::default();
    c.set(3, 4, 5, 7);
    let faces = c.faces();
    let expected: Vec<u32> = (0..6).map(|d| Chunk::face(3, 4, 5, d)).collect();
    assert_eq!(faces, expected);
}

#[test]
fn adjacent_blocks_hide_shared_faces() {
    let mut c = Chunk::default();
    c.set(10, 10, 10, 1);
    c.set(11, 10, 10, 2);
    let faces = c.faces();
    assert_eq!(faces.len(), 10);
    assert!(!faces.contains(&Chunk::face(10, 10, 10, 0)));
    assert!(!faces.contains(&Chunk::face(11, 10, 10, 1)));
    assert!(faces.contains(&Chunk::face(10, 10, 10, 1)));
    assert!(faces.contains(&Chunk::face(11, 10, 10, 0)));
}

#[test]
fn corner_block_faces_are_emitted_at_the_edge() {
    let mut c = Chunk::default();
    c.set(0, 0, 0, 1);
    c.set(31, 31, 31, 1);
    let faces = c.faces();
    assert_eq!(faces.len(), 12);
    assert_eq!(faces[0], Chunk::face(0, 0, 0, 0));
    assert_eq!(faces[6], Chunk::face(31, 31, 31, 0));
}

#[test]
fn face_count_matches_open_neighbor_sum() {
    let mut c = Chunk::default();
    let mut seed: u32 = 12345;
    for _ in 0..4000 {
        seed = seed.wrapping_mul(1103515245).wrapping_add(12345);
        let x = ((seed >> 16) % 32) as usize;
        seed = seed.wrapping_mul(1103515245).wrapping_add(12345);
        let y = ((seed >> 16) % 32) as usize;
        seed = seed.wrapping_mul(1103515245).wrapping_add(12345);
        let z = ((seed >> 16) % 32) as usize;
        c.set(x, y, z, 3);
    }
    let faces = c.faces();
    assert_eq!(faces.len(), exposed_count(&c));
    let mut sorted = faces.clone();
    sorted.sort();
    sorted.dedup();
    assert_eq!(sorted.len(), faces.len());
}

#[test]
fn sphere_chunk_face_count() {
    let c = Chunk::test1();
    assert!(c.get2(16, 16, 16));
    assert!(!c.get2(0, 0, 0));
    assert!(c.get2(1, 16, 16));
    assert!(!c.get2(0, 16, 16));
    let faces = c.faces();
    assert!(!faces.is_empty());
    assert_eq!(faces.len(), exposed_count(&c));
}

#[test]
fn face_packing_round_trips() {
    for x in 0..32 {
        for y in 0..32 {
            for z in 0..32 {
                for d in 0..6 {
                    let w = Chunk::face(x, y, z, d);
                    assert_eq!(Chunk::decode_face(w), (x, y, z, d));
                }
            }
        }
    }
}

#[test]
fn face_word_exact_value() {
    assert_eq!(Chunk::face(1, 2, 3, 4), 1 | (2 << 5) | (3 << 10) | (4 << 15));
    assert_eq!(Chunk::face(1, 2, 3, 4), 134209);
    assert_eq!(Chunk::face(31, 31, 31, 5), 0x2_FFFF);
}

#[test]
fn out_of_range_lookups_are_empty() {
    let c = Chunk::test2();
    assert_eq!(c.get(32, 0, 0), None);
    assert_eq!(c.get(0, 32, 0), None);
    assert_eq!(c.get(0, 0, usize::MAX), None);
    assert_eq!(c.get(31, 31, 31), Some(true));
    assert!(!c.get2(40, 1, 1));
    assert!(c.get2(0, 0, 0));
    assert_eq!(CHUNK_SIZE3, 32 * 32 * 32);
}

#[test]
fn object_holds_one_sphere_per_coordinate() {
    let o = Object::test(2);
    assert_eq!(o.len(), 8);
    let sphere = Chunk::test1().faces();
    for x in 0..2 {
        for y in 0..2 {
            for z in 0..2 {
                let ch = o.get(Coord::new(x, y, z)).expect("chunk present");
                assert_eq!(ch.faces(), sphere);
            }
        }
    }
    assert!(o.get(Coord::new(2, 0, 0)).is_none());
    assert_eq!(Object::test(0).len(), 0);
}

#[test]
fn coord_new_keeps_fields() {
    let c = Coord::new(1, 2, 3);
    assert_eq!((c.x, c.y, c.z), (1, 2, 3));
}
