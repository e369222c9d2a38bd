use cpbar::display::CLEAR;
use cpbar::progress::ProgressBar;

#[test]
fn new_bar_has_taken_nothing() {
    let bar = ProgressBar::new(vec![1, 2, 3].into_iter(), 42);
    assert_eq!(bar.index(), 0);
    assert_eq!(bar.elapsed(42), 0);
}

#[test]
fn elements_pass_through_unchanged() {
    let words = vec!["alpha".to_string(), "beta".to_string(), "gamma".to_string()];
    let mut bar = ProgressBar::new(words.clone().into_iter(), 0);
    let mut seen: Vec<String> = Vec::new();
    while let Some(word) = bar.next() {
        seen.push(word);
    }
    assert_eq!(seen, words);
}

#[test]
fn bounded_elements_pass_through_unchanged() {
    let numbers: Vec<i64> = vec![-3, 0, 9, i64::MAX, i64::MIN];
    let mut bar = ProgressBar::new(numbers.iter(), 0).with_bounds(0).with_delims(('(', ')'));
    let mut seen: Vec<i64> = Vec::new();
    while let Some(number) = bar.next() {
        seen.push(*number);
    }
    assert_eq!(seen, numbers);
}

#[test]
fn every_request_is_counted() {
    let mut bar = ProgressBar::new(0..2u8, 0);
    assert_eq!(bar.next(), Some(0));
    assert_eq!(bar.index(), 1);
    assert_eq!(bar.next(), Some(1));
    assert_eq!(bar.index(), 2);
    assert_eq!(bar.next(), None);
    assert_eq!(bar.index(), 3);
    assert_eq!(bar.next(), None);
    assert_eq!(bar.index(), 4);
}

#[test]
fn elapsed_is_the_distance_from_the_start() {
    let bar = ProgressBar::new(0..2u8, 1_000);
    assert_eq!(bar.elapsed(1_000), 0);
    assert_eq!(bar.elapsed(1_001), 1);
    assert_eq!(bar.elapsed(5_000_000_000), 4_999_999_000);
    assert_eq!(bar.elapsed(u64::MAX), u64::MAX - 1_000);
}

#[test]
fn reading_before_the_start_is_no_time() {
    let bar = ProgressBar::new(0..2u8, 1_000);
    assert_eq!(bar.elapsed(999), 0);
    assert_eq!(bar.elapsed(0), 0);
}

#[test]
fn fixing_the_total_restarts_the_clock() {
    for spent in [0u64, 1, 250, 1_000_000_000_000] {
        let mut bar = ProgressBar::new(0..10u8, 100);
        bar.next();
        let now = 100 + spent;
        assert_eq!(bar.elapsed(now), spent);
        let bar = bar.with_bounds(now);
        assert_eq!(bar.elapsed(now), 0);
        assert_eq!(bar.elapsed(now + 7), 7);
    }
}

#[test]
fn supplied_total_restarts_the_clock() {
    let bar = ProgressBar::new(0..10u8, 0);
    assert_eq!(bar.elapsed(900), 900);
    let bar = bar.with_total(10, 900);
    assert_eq!(bar.elapsed(900), 0);
    assert_eq!(bar.elapsed(1_000), 100);
}

#[test]
fn fixing_the_total_keeps_the_counter() {
    let mut bar = ProgressBar::new(0..10u8, 0);
    for _ in 0..3 {
        bar.next();
    }
    let mut bar = bar.with_bounds(0);
    assert_eq!(bar.index(), 3);
    // Seven elements are left, so the total is seven.
    assert_eq!(
        bar.render("0.0000").unwrap(),
        format!("{}42% [▓▓▓░░░░] 3/7 0.0000 Secs", CLEAR)
    );
    assert_eq!(bar.next(), Some(3));
    assert_eq!(bar.index(), 4);
}

#[test]
fn total_is_what_the_iterator_has_left() {
    let items: Vec<u16> = (0..17).collect();
    let bar = ProgressBar::new(items.iter(), 0).with_bounds(0);
    assert!(bar.render("0.0000").unwrap().ends_with(" 0/17 0.0000 Secs"));
    let bar = ProgressBar::new(items.iter().skip(5), 0).with_bounds(0);
    assert!(bar.render("0.0000").unwrap().ends_with(" 0/12 0.0000 Secs"));
}

#[test]
fn supplied_total_is_taken_as_given() {
    let bar = ProgressBar::new(0..3u8, 0).with_total(8, 0);
    assert_eq!(
        bar.render("0.0000").unwrap(),
        format!("{}0% [░░░░░░░░] 0/8 0.0000 Secs", CLEAR)
    );
}

#[test]
fn setting_delimiters_keeps_counter_total_and_clock() {
    let mut bar = ProgressBar::new(0..6u8, 50);
    bar.next();
    bar.next();
    let bar = bar.with_bounds(80).with_delims(('<', '>'));
    assert_eq!(bar.index(), 2);
    assert_eq!(bar.elapsed(100), 20);
    assert_eq!(
        bar.render("0.0000").unwrap(),
        format!("{}50% <▓▓░░> 2/4 0.0000 Secs", CLEAR)
    );
}

#[test]
fn taking_an_element_leaves_clock_and_mode() {
    let mut bar = ProgressBar::new(0..6u8, 50).with_bounds(60).with_delims(('<', '>'));
    bar.next();
    assert_eq!(bar.elapsed(100), 40);
    assert_eq!(
        bar.render("0.0000").unwrap(),
        format!("{}16% <▓░░░░░> 1/6 0.0000 Secs", CLEAR)
    );
}
