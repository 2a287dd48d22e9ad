use cloth_simulation::topology::{
    build_springs, live_springs, neighbor_index, slot_kind_of, slot_offset, SpringKind,
    SpringLink, TopologyError, SLOTS_PER_VERTEX,
};

fn sentinels_of(links: &[SpringLink], v: usize, sentinel: u32) -> usize {
    links[12 * v..12 * v + 12].iter().filter(|l| l.neighbor == sentinel).count()
}

#[test]
fn spring_count_is_twelve_per_vertex() {
    for r in 2u32..10 {
        let links = build_springs(r).unwrap();
        assert_eq!(links.len(), 12 * (r * r) as usize);
        for (i, l) in links.iter().enumerate() {
            assert_eq!(l.origin as usize, i / 12);
        }
    }
}

#[test]
fn building_twice_gives_the_same_table() {
    for r in [2u32, 3, 7, 25] {
        assert_eq!(build_springs(r).unwrap(), build_springs(r).unwrap());
    }
}

#[test]
fn grids_below_two_are_refused() {
    assert_eq!(build_springs(0), Err(TopologyError::GridTooSmall));
    assert_eq!(build_springs(1), Err(TopologyError::GridTooSmall));
}

#[test]
fn smallest_grid_is_accepted() {
    let links = build_springs(2).unwrap();
    assert_eq!(links.len(), 48);
    // vertex 0 of a 2x2 grid: right neighbour 1, lower neighbour 2, diagonal 3
    let n: Vec<u32> = links[0..12].iter().map(|l| l.neighbor).collect();
    assert_eq!(n, vec![4, 4, 1, 2, 4, 4, 3, 4, 4, 4, 4, 4]);
}

#[test]
fn kinds_follow_slot_ranges() {
    let links = build_springs(4).unwrap();
    for (i, l) in links.iter().enumerate() {
        let expected = match i % 12 {
            0..=3 => SpringKind::Axial,
            4..=7 => SpringKind::Shear,
            _ => SpringKind::Bend,
        };
        assert_eq!(l.kind, expected);
    }
}

#[test]
fn rest_lengths_match_categories() {
    let cloth_size = 35.0f32;
    let r = 25u32;
    let unit = cloth_size / (r - 1) as f32;
    let links = build_springs(r).unwrap();
    for l in &links {
        let rest = unit * (l.kind.rest_length_squared_in_units() as f32).sqrt();
        let expected = match l.kind {
            SpringKind::Axial => unit,
            SpringKind::Shear => unit * 2f32.sqrt(),
            SpringKind::Bend => unit * 2.0,
        };
        assert!((rest - expected).abs() <= 1e-5);
    }
    assert_eq!(SpringKind::Axial.rest_length_squared_in_units(), 1);
    assert_eq!(SpringKind::Shear.rest_length_squared_in_units(), 2);
    assert_eq!(SpringKind::Bend.rest_length_squared_in_units(), 4);
}

#[test]
fn corners_have_at_least_six_sentinels() {
    for r in [2u32, 3, 4, 5, 25] {
        let links = build_springs(r).unwrap();
        let s = r * r;
        let n = r as usize;
        for v in [0, n - 1, n * (n - 1), n * n - 1] {
            assert!(sentinels_of(&links, v, s) >= 6);
        }
    }
}

#[test]
fn interior_vertices_have_no_sentinels() {
    for r in 5u32..10 {
        let links = build_springs(r).unwrap();
        let n = r as usize;
        for row in 2..=n - 3 {
            for col in 2..=n - 3 {
                assert_eq!(sentinels_of(&links, row * n + col, r * r), 0);
            }
        }
    }
}

#[test]
fn center_of_three_by_three() {
    let r = 3u32;
    let cloth_size = 2.0f32;
    let unit = cloth_size / (r - 1) as f32;
    assert_eq!(unit, 1.0);
    let links = build_springs(r).unwrap();
    let block = &links[12 * 4..12 * 4 + 12];
    let n: Vec<u32> = block.iter().map(|l| l.neighbor).collect();
    assert_eq!(&n[0..4], &[3, 1, 5, 7]);
    let mut shear = n[4..8].to_vec();
    shear.sort();
    assert_eq!(shear, vec![0, 2, 6, 8]);
    assert_eq!(&n[8..12], &[9, 9, 9, 9]);
    for (k, l) in block.iter().enumerate() {
        assert_eq!(l.origin, 4);
        let rest = unit * (l.kind.rest_length_squared_in_units() as f32).sqrt();
        let expected = if k < 4 {
            1.0
        } else if k < 8 {
            2f32.sqrt()
        } else {
            2.0
        };
        assert!((rest - expected).abs() <= 1e-6);
    }
}

#[test]
fn neighbor_offsets_in_slot_order() {
    let offsets: Vec<(i64, i64)> = (0..SLOTS_PER_VERTEX).map(slot_offset).collect();
    assert_eq!(
        offsets,
        vec![
            (0, -1),
            (-1, 0),
            (0, 1),
            (1, 0),
            (-1, -1),
            (1, -1),
            (1, 1),
            (-1, 1),
            (0, -2),
            (-2, 0),
            (0, 2),
            (2, 0)
        ]
    );
    assert_eq!(slot_kind_of(0), SpringKind::Axial);
    assert_eq!(slot_kind_of(5), SpringKind::Shear);
    assert_eq!(slot_kind_of(11), SpringKind::Bend);
}

#[test]
fn neighbor_index_on_a_five_grid() {
    // vertex 12 is row 2, column 2 of a 5x5 grid
    let n: Vec<u32> = (0..SLOTS_PER_VERTEX).map(|k| neighbor_index(5, 12, k)).collect();
    assert_eq!(n, vec![11, 7, 13, 17, 6, 16, 18, 8, 10, 2, 14, 22]);
    assert_eq!(neighbor_index(5, 4, 2), 25);
    assert_eq!(neighbor_index(5, 20, 3), 25);
}

#[test]
fn live_springs_skip_sentinels() {
    let links = build_springs(3).unwrap();
    let corner = live_springs(&links, 0, 9);
    assert_eq!(
        corner,
        vec![
            (1, SpringKind::Axial),
            (3, SpringKind::Axial),
            (4, SpringKind::Shear),
            (2, SpringKind::Bend),
            (6, SpringKind::Bend)
        ]
    );
    let center = live_springs(&links, 4, 9);
    assert_eq!(center.len(), 8);
    assert!(center.iter().all(|(n, _)| *n < 9));
}

#[test]
fn live_springs_take_the_category_of_the_slot() {
    let mut block: Vec<SpringLink> = (0..12u32)
        .map(|k| SpringLink { origin: 0, neighbor: k, kind: SpringKind::Bend })
        .collect();
    block[3].neighbor = 50;
    let live = live_springs(&block, 0, 12);
    assert_eq!(live.len(), 11);
    assert_eq!(live[0], (0, SpringKind::Axial));
    assert_eq!(live[3], (4, SpringKind::Shear));
    assert_eq!(live[10], (11, SpringKind::Bend));
}
