use std::collections::BTreeSet;

use mousai::utils::consecutive_groups;

#[test]
fn consecutive_groups_empty() {
    assert_eq!(consecutive_groups(&BTreeSet::new()), vec![]);
}

#[test]
fn consecutive_groups_single() {
    assert_eq!(consecutive_groups(&BTreeSet::from([3])), vec![(3, 1)]);
    assert_eq!(consecutive_groups(&BTreeSet::from([3, 3])), vec![(3, 1)]);
    assert_eq!(consecutive_groups(&BTreeSet::from([3, 3, 3])), vec![(3, 1)]);

    assert_eq!(consecutive_groups(&BTreeSet::from([0])), vec![(0, 1)]);
}

#[test]
fn consecutive_groups_two() {
    assert_eq!(consecutive_groups(&BTreeSet::from([1, 2])), vec![(1, 2)]);
    assert_eq!(consecutive_groups(&BTreeSet::from([2, 2, 1])), vec![(1, 2)]);
    assert_eq!(consecutive_groups(&BTreeSet::from([1, 2, 1])), vec![(1, 2)]);
    assert_eq!(
        consecutive_groups(&BTreeSet::from([2, 1, 2, 1])),
        vec![(1, 2)]
    );

    assert_eq!(consecutive_groups(&BTreeSet::from([5, 6])), vec![(5, 2)]);
}

#[test]
fn consecutive_groups_many() {
    assert_eq!(
        consecutive_groups(&BTreeSet::from([1, 2, 3, 4, 5])),
        vec![(1, 5)]
    );
    assert_eq!(
        consecutive_groups(&BTreeSet::from([5, 4, 3, 2, 1])),
        vec![(1, 5)]
    );
    assert_eq!(
        consecutive_groups(&BTreeSet::from([5, 3, 4, 2, 1])),
        vec![(1, 5)]
    );
    assert_eq!(
        consecutive_groups(&BTreeSet::from([5, 3, 4, 4, 3, 4, 2, 1])),
        vec![(1, 5)]
    );

    assert_eq!(
        consecutive_groups(&BTreeSet::from([5, 6, 7, 8, 9])),
        vec![(5, 5)]
    );
}

#[test]
fn consecutive_groups_many_non_consecutives() {
    assert_eq!(
        consecutive_groups(&BTreeSet::from([1, 2, 3, 5, 6, 10, 12])),
        vec![(1, 3), (5, 2), (10, 1), (12, 1)]
    );
    assert_eq!(
        consecutive_groups(&BTreeSet::from([12, 1, 3, 2, 3, 6, 5, 6, 3, 10, 12, 12])),
        vec![(1, 3), (5, 2), (10, 1), (12, 1)]
    );

    assert_eq!(
        consecutive_groups(&BTreeSet::from([7, 8, 9, 11, 12, 14, 16])),
        vec![(7, 3), (11, 2), (14, 1), (16, 1)]
    );
}

#[test]
fn consecutive_groups_many_non_consecutives_large_num() {
    assert_eq!(
        consecutive_groups(&BTreeSet::from([
            100_000_001,
            100_000_002,
            100_000_003,
            100_000_005,
            100_000_006,
            100_000_010,
            100_000_012
        ])),
        vec![
            (100_000_001, 3),
            (100_000_005, 2),
            (100_000_010, 1),
            (100_000_012, 1)
        ]
    );
    assert_eq!(
        consecutive_groups(&BTreeSet::from([
            100_000_012,
            100_000_001,
            100_000_003,
            100_000_002,
            100_000_003,
            100_000_006,
            100_000_005,
            100_000_006,
            100_000_003,
            100_000_010,
            100_000_012,
            100_000_012
        ])),
        vec![
            (100_000_001, 3),
            (100_000_005, 2),
            (100_000_010, 1),
            (100_000_012, 1)
        ]
    );
}
