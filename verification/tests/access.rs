use voxl::access::{Accessor, ChunkPlots, Dimensions};

#[test]
fn to_index_matches_linearization() {
    // index = y * SIDE_LEN^2 + x + z * SIDE_LEN
    assert_eq!(Dimensions::<8>::to_index([0, 0, 0]), 0);
    assert_eq!(Dimensions::<8>::to_index([1, 0, 0]), 64);
    assert_eq!(Dimensions::<8>::to_index([0, 1, 0]), 1);
    assert_eq!(Dimensions::<8>::to_index([0, 0, 1]), 8);
    assert_eq!(Dimensions::<8>::to_index([2, 3, 1]), 2 * 64 + 3 + 8);
    assert_eq!(Dimensions::<16>::to_index([15, 15, 15]), 4095);
}

#[test]
fn to_index_of_last_coordinate_is_last_index() {
    // side 8: [7,7,7] -> 7*64 + 7 + 7*8 == 511, the last valid index.
    assert_eq!(Dimensions::<8>::to_index([7, 7, 7]), 511);
}

#[test]
fn from_index_inverts_to_index_everywhere() {
    for y in 0..8 {
        for x in 0..8 {
            for z in 0..8 {
                let i = Dimensions::<8>::to_index([y, x, z]);
                assert_eq!(Dimensions::<8>::from_index(i), [y, x, z]);
            }
        }
    }
}

#[test]
fn to_index_inverts_from_index_everywhere() {
    for i in 0..512 {
        let pos = Dimensions::<8>::from_index(i);
        assert!(pos[0] < 8 && pos[1] < 8 && pos[2] < 8);
        assert_eq!(Dimensions::<8>::to_index(pos), i);
    }
}

#[test]
fn to_index_is_injective() {
    let mut seen = vec![false; 27];
    for y in 0..3 {
        for x in 0..3 {
            for z in 0..3 {
                let i = Dimensions::<3>::to_index([y, x, z]);
                assert!(i < 27);
                assert!(!seen[i], "two coordinates map to index {}", i);
                seen[i] = true;
            }
        }
    }
    assert!(seen.iter().all(|&b| b));
}

#[test]
fn side_one_has_single_index() {
    assert_eq!(Dimensions::<1>::side_len(), 1);
    assert_eq!(Dimensions::<1>::cube_len(), 1);
    assert_eq!(Dimensions::<1>::to_index([0, 0, 0]), 0);
    assert_eq!(Dimensions::<1>::from_index(0), [0, 0, 0]);
}

#[test]
fn derived_lengths() {
    assert_eq!(Dimensions::<16>::side_len(), 16);
    assert_eq!(Dimensions::<16>::quad_len(), 256);
    assert_eq!(Dimensions::<16>::cube_len(), 4096);
}

#[test]
fn plot_lattice_counts() {
    assert_eq!(Dimensions::<16>::side_vert(), 17);
    assert_eq!(Dimensions::<16>::num_verts(), 17 * 17 * 17);
    assert_eq!(Dimensions::<1>::side_vert(), 2);
    assert_eq!(Dimensions::<1>::num_verts(), 8);
}
