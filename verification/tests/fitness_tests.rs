use shapefit::fitness::score;
use shapefit::fitness::sq_diff_exec;

#[test]
fn score_of_buffer_with_itself_is_zero() {
    let a: Vec<u8> = (0..=255).collect();
    assert_eq!(score(&a, &a), 0);
}

#[test]
fn score_of_empty_buffers_is_zero() {
    let a: Vec<u8> = Vec::new();
    let b: Vec<u8> = Vec::new();
    assert_eq!(score(&a, &b), 0);
}

#[test]
fn score_exact_value() {
    let a: Vec<u8> = vec![0, 3];
    let b: Vec<u8> = vec![1, 1];
    // (0-1)^2 + (3-1)^2
    assert_eq!(score(&a, &b), 5);
}

#[test]
fn score_is_symmetric() {
    let a: Vec<u8> = vec![10, 200, 7, 0, 255, 3];
    let b: Vec<u8> = vec![12, 100, 7, 255, 0, 4];
    assert_eq!(score(&a, &b), score(&b, &a));
}

#[test]
fn score_extreme_difference() {
    let a: Vec<u8> = vec![255; 4];
    let b: Vec<u8> = vec![0; 4];
    assert_eq!(score(&a, &b), 4 * 65025);
}

#[test]
fn score_strictly_increases_in_one_channel_delta() {
    let a: Vec<u8> = vec![100, 100, 100];
    let near: Vec<u8> = vec![100, 105, 100];
    let far: Vec<u8> = vec![100, 110, 100];
    let s_near = score(&a, &near);
    let s_far = score(&a, &far);
    assert!(s_near < s_far);
    assert_eq!(s_near, 25);
    assert_eq!(s_far, 100);
}

#[test]
fn score_large_buffer_matches_sequential_sum() {
    // Large enough that the parallel reduction actually splits the range.
    let n: usize = 1 << 18;
    let a: Vec<u8> = (0..n).map(|i| (i % 251) as u8).collect();
    let b: Vec<u8> = (0..n).map(|i| (i % 83) as u8).collect();
    let expected: u64 = a
        .iter()
        .zip(b.iter())
        .map(|(x, y)| {
            let d = *x as i64 - *y as i64;
            (d * d) as u64
        })
        .sum();
    assert_eq!(score(&a, &b), expected);
}

#[test]
fn sq_diff_exec_exact_values() {
    assert_eq!(sq_diff_exec(255, 0), 65025);
    assert_eq!(sq_diff_exec(0, 255), 65025);
    assert_eq!(sq_diff_exec(7, 7), 0);
    assert_eq!(sq_diff_exec(1, 4), 9);
}
