use voxl::access::Dimensions;
use voxl::chunk::Chunk;
use voxl::mesh::{Instance, Point, Position, Rotation};

#[test]
fn meshing_a_default_chunk_yields_nothing() {
    let c: Chunk<Dimensions<4>, bool, 64> = Chunk::default();
    assert_eq!(c.mesh_instances(), vec![]);
    assert_eq!(c.mesh(), vec![]);
}

#[test]
fn one_solid_cell_yields_one_identity_placement() {
    // Exactly one solid cell at (y, x, z) = (2, 3, 1): the naive policy emits
    // exactly one placement, at position (x = 3, y = 2, z = 1), unrotated.
    let mut c: Chunk<Dimensions<4>, bool, 64> = Chunk::default();
    c.set([2, 3, 1], true);
    let placements = c.mesh_instances();
    assert_eq!(
        placements,
        vec![Instance {
            position: Position { x: 3, y: 2, z: 1 },
            rotation: Rotation::Identity,
        }]
    );
}

#[test]
fn placements_come_in_flat_index_order() {
    let mut c: Chunk<Dimensions<2>, bool, 8> = Chunk::default();
    c.set([1, 1, 1], true); // flat index 7
    c.set([0, 0, 0], true); // flat index 0
    c.set([0, 0, 1], true); // flat index 2
    let placements = c.mesh_instances();
    assert_eq!(
        placements,
        vec![
            Instance { position: Position { x: 0, y: 0, z: 0 }, rotation: Rotation::Identity },
            Instance { position: Position { x: 0, y: 0, z: 1 }, rotation: Rotation::Identity },
            Instance { position: Position { x: 1, y: 1, z: 1 }, rotation: Rotation::Identity },
        ]
    );
}

#[test]
fn solid_u32_cells_are_the_nonzero_ones() {
    let mut c: Chunk<Dimensions<2>, u32, 8> = Chunk::default();
    c.set([0, 1, 0], 100);
    let placements = c.mesh_instances();
    assert_eq!(
        placements,
        vec![Instance { position: Position { x: 1, y: 0, z: 0 }, rotation: Rotation::Identity }]
    );
}

#[test]
fn corner_mesh_of_one_cell_has_its_eight_corners() {
    let mut c: Chunk<Dimensions<4>, bool, 64> = Chunk::default();
    c.set([2, 3, 1], true);
    let points = c.mesh();
    assert_eq!(points.len(), 8);
    for dy in 0..2 {
        for dx in 0..2 {
            for dz in 0..2 {
                let p = Point { y: 2 + dy, x: 3 + dx, z: 1 + dz };
                assert!(points.contains(&p), "missing corner {:?}", p);
            }
        }
    }
}

#[test]
fn corner_mesh_deduplicates_shared_corners() {
    // Two cells adjacent along x share a face of four corners: 16 corners in
    // all, 4 shared, so 12 distinct points, each emitted once.
    let mut c: Chunk<Dimensions<4>, bool, 64> = Chunk::default();
    c.set([1, 1, 1], true);
    c.set([1, 2, 1], true);
    let points = c.mesh();
    assert_eq!(points.len(), 12);
    let mut sorted = points.clone();
    sorted.sort_by_key(|p| (p.y, p.x, p.z));
    sorted.dedup();
    assert_eq!(sorted.len(), 12);
    for x in 1..4 {
        for dy in 0..2 {
            for dz in 0..2 {
                assert!(points.contains(&Point { y: 1 + dy, x, z: 1 + dz }));
            }
        }
    }
}
