use hyperbolic_maze::walls::wall_order;

#[test]
fn walls_are_ordered_nearest_first() {
    assert_eq!(wall_order(&vec![30, 10, 20]), vec![1, 2, 0]);
    assert_eq!(wall_order(&vec![5, 4, 3, 2, 1]), vec![4, 3, 2, 1, 0]);
}

#[test]
fn equally_near_walls_keep_their_order() {
    assert_eq!(wall_order(&vec![7, 3, 7, 3, 1]), vec![4, 1, 3, 0, 2]);
    assert_eq!(wall_order(&vec![2, 2, 2]), vec![0, 1, 2]);
}

#[test]
fn ordering_no_walls() {
    assert_eq!(wall_order(&vec![]), Vec::<usize>::new());
    assert_eq!(wall_order(&vec![u64::MAX]), vec![0]);
}
