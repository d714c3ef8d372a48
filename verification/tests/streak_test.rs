use diem_backend::streak::{current_streak, has_day};

#[test]
fn streak_empty_is_zero() {
    assert_eq!(current_streak(&vec![], 100), 0);
}

#[test]
fn streak_counts_days_after_today_in_the_run() {
    assert_eq!(current_streak(&vec![10, 11, 12, 9, 7], 10), 4);
}

#[test]
fn streak_ignores_repeated_days() {
    assert_eq!(current_streak(&vec![5, 5, 4, 4, 3], 5), 3);
}

#[test]
fn streak_unordered_input() {
    assert_eq!(current_streak(&vec![3, 1, 2, 20, 19], 2), 3);
}

#[test]
fn streak_at_extremes_of_day_range() {
    assert_eq!(current_streak(&vec![i32::MIN, i32::MIN + 1], i32::MIN), 2);
    assert_eq!(current_streak(&vec![i32::MAX, i32::MAX - 1], i32::MAX), 2);
}

#[test]
fn check_in_today_extends_yesterdays_streak() {
    let mut days = vec![99, 98, 96];
    let yesterday = current_streak(&days, 99);
    days.push(100);
    assert_eq!(current_streak(&days, 100), yesterday + 1);
}

#[test]
fn has_day_finds_member() {
    assert!(has_day(&vec![1, 2, 3], 2));
    assert!(!has_day(&vec![1, 2, 3], 4));
    assert!(!has_day(&vec![1, 2, 3], i64::MAX));
}

#[test]
fn more_check_ins_never_shorten_the_streak() {
    let fewer = vec![10, 9, 7];
    let more = vec![10, 9, 8, 7, 11];
    assert_eq!(current_streak(&fewer, 10), 2);
    assert_eq!(current_streak(&more, 10), 5);
}
