use pdf_spreads::spreads::{page_has_neighbor, partition_spreads, spread_renames};

#[test]
fn mutual_neighbors_are_kept_and_loners_rejected() {
    let pages = vec![1, 2, 31, 32, 15];
    let (kept, rejected) = partition_spreads(&pages);
    assert_eq!(kept, vec![1, 2, 31, 32]);
    assert_eq!(rejected, vec![15]);
}

#[test]
fn a_full_spread_list_is_kept_whole() {
    let pages = vec![1, 2, 31, 32];
    let (kept, rejected) = partition_spreads(&pages);
    assert_eq!(kept, vec![1, 2, 31, 32]);
    assert_eq!(rejected, Vec::new());
}

#[test]
fn an_empty_request_keeps_nothing() {
    let pages = Vec::new();
    let (kept, rejected) = partition_spreads(&pages);
    assert_eq!(kept, Vec::new());
    assert_eq!(rejected, Vec::new());
}

#[test]
fn duplicates_are_not_their_own_neighbors() {
    let pages = vec![2, 2];
    let (kept, rejected) = partition_spreads(&pages);
    assert_eq!(kept, Vec::new());
    assert_eq!(rejected, vec![2, 2]);
}

#[test]
fn neighbor_pairs_at_the_ends_of_the_range() {
    assert!(page_has_neighbor(&vec![0, 1], 0));
    assert!(page_has_neighbor(&vec![0, 1], 1));
    assert!(page_has_neighbor(&vec![254, 255], 255));
    assert!(!page_has_neighbor(&vec![255], 255));
    assert!(!page_has_neighbor(&vec![0], 0));
}

#[test]
fn kept_pages_get_their_rename_pairs_in_order() {
    let renames = spread_renames(&vec![1, 2]);
    assert_eq!(
        renames,
        vec![
            ("1.png".to_string(), "1s.png".to_string()),
            ("2.png".to_string(), "2s.png".to_string()),
        ]
    );
}
