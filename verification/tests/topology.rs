use consensus_node::topology::static_outbound;

#[test]
fn ring_of_five_with_two_peers() {
    assert_eq!(
        static_outbound(5, 2),
        vec![
            vec![1, 2],
            vec![2, 3],
            vec![3, 4],
            vec![4, 0],
            vec![0, 1]
        ]
    );
}

#[test]
fn ring_wraps_around_more_than_once() {
    assert_eq!(
        static_outbound(2, 5),
        vec![vec![1, 0, 1, 0, 1], vec![0, 1, 0, 1, 0]]
    );
    assert_eq!(static_outbound(1, 3), vec![vec![0, 0, 0]]);
}

#[test]
fn ring_without_nodes_or_peers() {
    assert_eq!(static_outbound(0, 3), Vec::<Vec<usize>>::new());
    assert_eq!(
        static_outbound(3, 0),
        vec![Vec::<usize>::new(), vec![], vec![]]
    );
}
