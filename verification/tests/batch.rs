use eclipse_warmup::modules::batch::{chunk_size, split_into_batches};

#[test]
fn chunk_size_rounds_up() {
    assert_eq!(chunk_size(10, 3), 4);
    assert_eq!(chunk_size(9, 3), 3);
    assert_eq!(chunk_size(1, 8), 1);
    assert_eq!(chunk_size(0, 8), 0);
}

#[test]
fn batches_cover_ids_exactly_once() {
    let ids: Vec<i32> = (1..=10).collect();
    let batches = split_into_batches(&ids, 3);
    assert_eq!(batches, vec![vec![1, 2, 3, 4], vec![5, 6, 7, 8], vec![9, 10]]);
    let joined: Vec<i32> = batches.into_iter().flatten().collect();
    assert_eq!(joined, ids);
}

#[test]
fn more_workers_than_ids_gives_single_id_batches() {
    let ids = vec![7, 8, 9];
    let batches = split_into_batches(&ids, 16);
    assert_eq!(batches, vec![vec![7], vec![8], vec![9]]);
}

#[test]
fn no_ids_give_no_batch() {
    let batches = split_into_batches(&Vec::new(), 4);
    assert!(batches.is_empty());
}
