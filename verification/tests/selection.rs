use pump69_program::select_winner;
use pump69_program::selection::reduce_random;
use pump69_program::selection::sum_weights;

fn random_of(value: u64) -> [u8; 32] {
    let mut bytes = [0u8; 32];
    bytes[24..32].copy_from_slice(&value.to_be_bytes());
    bytes
}

#[test]
fn nobody_wins_an_empty_draw() {
    assert_eq!(select_winner(&vec![], &random_of(7)), None);
}

#[test]
fn single_participant_always_wins() {
    assert_eq!(select_winner(&vec![5], &random_of(0)), Some(0));
    assert_eq!(select_winner(&vec![5], &random_of(4)), Some(0));
    assert_eq!(select_winner(&vec![0], &[0xff; 32]), Some(0));
}

#[test]
fn equal_scores_split_the_range_in_halves() {
    let scores: Vec<u32> = vec![1, 1];
    assert_eq!(select_winner(&scores, &random_of(0)), Some(0));
    assert_eq!(select_winner(&scores, &random_of(1)), Some(1));
    assert_eq!(select_winner(&scores, &random_of(2)), Some(0));
    assert_eq!(select_winner(&scores, &random_of(3)), Some(1));
}

#[test]
fn ranges_follow_the_weights_in_joining_order() {
    let scores: Vec<u32> = vec![3, 1, 2];
    assert_eq!(select_winner(&scores, &random_of(0)), Some(0));
    assert_eq!(select_winner(&scores, &random_of(2)), Some(0));
    assert_eq!(select_winner(&scores, &random_of(3)), Some(1));
    assert_eq!(select_winner(&scores, &random_of(4)), Some(2));
    assert_eq!(select_winner(&scores, &random_of(5)), Some(2));
    assert_eq!(select_winner(&scores, &random_of(6)), Some(0));
}

#[test]
fn zero_scores_draw_with_the_floor_weight() {
    let scores: Vec<u32> = vec![0, 0, 0];
    assert_eq!(select_winner(&scores, &random_of(0)), Some(0));
    assert_eq!(select_winner(&scores, &random_of(1)), Some(1));
    assert_eq!(select_winner(&scores, &random_of(2)), Some(2));
    let mixed: Vec<u32> = vec![0, 4];
    assert_eq!(select_winner(&mixed, &random_of(0)), Some(0));
    assert_eq!(select_winner(&mixed, &random_of(1)), Some(1));
    assert_eq!(select_winner(&mixed, &random_of(4)), Some(1));
    assert_eq!(select_winner(&mixed, &random_of(5)), Some(0));
}

#[test]
fn random_output_is_read_as_a_256_bit_number() {
    // 2^256 - 1 is odd and a multiple of 3.
    assert_eq!(select_winner(&vec![1, 1], &[0xff; 32]), Some(1));
    assert_eq!(select_winner(&vec![1, 1, 1], &[0xff; 32]), Some(0));
    // 2^248 leaves 1 modulo 3.
    let mut high = [0u8; 32];
    high[0] = 1;
    assert_eq!(select_winner(&vec![1, 1, 1], &high), Some(1));
    assert_eq!(select_winner(&vec![1, 1], &high), Some(0));
}

#[test]
fn largest_scores_do_not_overflow() {
    let scores: Vec<u32> = vec![u32::MAX, u32::MAX, u32::MAX];
    assert_eq!(sum_weights(&scores), 3 * (u32::MAX as u128));
    assert_eq!(select_winner(&scores, &random_of(u32::MAX as u64 - 1)), Some(0));
    assert_eq!(select_winner(&scores, &random_of(u32::MAX as u64)), Some(1));
    assert_eq!(select_winner(&scores, &random_of(2 * (u32::MAX as u64))), Some(2));
}

#[test]
fn weights_add_up_with_the_floor() {
    assert_eq!(sum_weights(&vec![]), 0);
    assert_eq!(sum_weights(&vec![0]), 1);
    assert_eq!(sum_weights(&vec![0, 7, 0, 2]), 11);
}

#[test]
fn random_is_reduced_most_significant_byte_first() {
    let mut bytes = [0u8; 32];
    bytes[30] = 1;
    assert_eq!(reduce_random(&bytes, 100), 56);
    assert_eq!(reduce_random(&bytes, 257), 256);
    assert_eq!(reduce_random(&random_of(u64::MAX), 1 << 64), u64::MAX as u128);
    assert_eq!(reduce_random(&[0xff; 32], 1 << 64), u64::MAX as u128);
    assert_eq!(reduce_random(&[0xff; 32], 1), 0);
    assert_eq!(reduce_random(&[0u8; 32], 12345), 0);
}
