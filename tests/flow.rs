use rust_basics::flow::{age_group, count_with_skip, countdown, grade, number_size, scan_until};

#[test]
fn grade_chain() {
    assert_eq!(grade(85), 'B');
    assert_eq!(grade(90), 'A');
    assert_eq!(grade(79), 'C');
    assert_eq!(grade(70), 'C');
    assert_eq!(grade(0), 'F');
}

#[test]
fn age_group_ranges() {
    assert_eq!(age_group(25), "Adult");
    assert_eq!(age_group(0), "Child");
    assert_eq!(age_group(12), "Child");
    assert_eq!(age_group(13), "Teenager");
    assert_eq!(age_group(19), "Teenager");
    assert_eq!(age_group(64), "Adult");
    assert_eq!(age_group(65), "Senior");
}

#[test]
fn number_size_alternatives() {
    assert_eq!(number_size(2), "Small number");
    assert_eq!(number_size(5), "Medium number");
    assert_eq!(number_size(7), "Large number");
    assert_eq!(number_size(0), "Large number");
}

#[test]
fn countdown_from_three() {
    assert_eq!(countdown(3), vec![3, 2, 1]);
    assert_eq!(countdown(0), Vec::<u32>::new());
}

#[test]
fn count_skips_three_stops_at_eight() {
    assert_eq!(count_with_skip(10, 3, 8), vec![1, 2, 4, 5, 6, 7]);
    assert_eq!(count_with_skip(4, 0, 0), vec![1, 2, 3, 4]);
    assert_eq!(count_with_skip(u32::MAX, 1, 3), vec![2]);
}

#[test]
fn labeled_scan_breaks_at_two_two() {
    let (visited, stopped) = scan_until(3, 2, 2);
    assert_eq!(visited, vec![(1, 1), (1, 2), (1, 3), (2, 1)]);
    assert_eq!(stopped, Some((2, 2)));
    assert!(!visited.contains(&(2, 2)));
    assert!(visited.iter().all(|&(i, _)| i != 3));
}

#[test]
fn scan_without_stop_reads_whole_grid() {
    let (visited, stopped) = scan_until(2, 3, 1);
    assert_eq!(visited, vec![(1, 1), (1, 2), (2, 1), (2, 2)]);
    assert_eq!(stopped, None);
}
