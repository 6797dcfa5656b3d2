use open_accountability::analyzer::analyze_text;
use open_accountability::blacklist::Blacklist;
use open_accountability::saturating_increment;

fn blacklist_of(words: &[&str]) -> Blacklist {
    let high: Vec<String> = words.iter().map(|w| w.to_string()).collect();
    Blacklist::from_keywords(high, Vec::new(), Vec::new())
}

fn count_of(bl: &Blacklist, key: &str) -> i32 {
    for (k, c) in bl.entries.iter() {
        if k == key {
            return *c;
        }
    }
    panic!("key not on the blacklist");
}

#[test]
fn ocr_text_with_one_match_reports_that_keyword_once() {
    // An OCR engine returning this text for one slice, against the
    // blacklist {"urgent": 0, "ignore": 0}, yields {"urgent": 1,
    // "ignore": 0}, and the posted report holds only {"urgent": 1}.
    let mut bl = blacklist_of(&["urgent", "ignore"]);
    analyze_text(&mut bl, "urgent notice please respond");
    assert_eq!(count_of(&bl, "urgent"), 1);
    assert_eq!(count_of(&bl, "ignore"), 0);

    let report = bl.build_event_report();
    assert_eq!(report.len(), 1);
    assert_eq!(report[0].0, "urgent".to_string());
    assert_eq!(report[0].1, 1);
}

#[test]
fn case_and_punctuation_are_folded_before_matching() {
    let mut bl = blacklist_of(&["urgent"]);
    analyze_text(&mut bl, "Urgent, URGENT; (urgent) \"urgent.\" urgently");
    assert_eq!(count_of(&bl, "urgent"), 4);
}

#[test]
fn counts_accumulate_across_slices() {
    let mut bl = blacklist_of(&["alpha", "beta"]);
    analyze_text(&mut bl, "alpha beta");
    analyze_text(&mut bl, "beta alpha beta");
    assert_eq!(count_of(&bl, "alpha"), 2);
    assert_eq!(count_of(&bl, "beta"), 3);
}

#[test]
fn empty_text_changes_nothing() {
    let mut bl = blacklist_of(&["alpha"]);
    analyze_text(&mut bl, "");
    assert_eq!(count_of(&bl, "alpha"), 0);
    assert!(bl.build_event_report().is_empty());
}

#[test]
fn cycle_with_no_matches_posts_empty_report() {
    let mut bl = blacklist_of(&["alpha", "beta"]);
    analyze_text(&mut bl, "nothing of interest here");
    assert!(bl.build_event_report().is_empty());
}

#[test]
fn reset_then_no_capture_posts_empty_report() {
    // Resetting the counts at cycle start and then running a cycle with no
    // capturable displays yields an empty report.
    let mut bl = blacklist_of(&["alpha", "beta"]);
    analyze_text(&mut bl, "alpha alpha");
    bl.reset_counts();
    assert_eq!(count_of(&bl, "alpha"), 0);
    assert!(bl.build_event_report().is_empty());
}

#[test]
fn duplicate_keywords_across_tiers_are_merged() {
    let high = vec!["alpha".to_string(), "beta".to_string()];
    let mid = vec!["beta".to_string(), "gamma".to_string()];
    let low = vec!["alpha".to_string()];
    let bl = Blacklist::from_keywords(high, mid, low);
    assert_eq!(bl.entries.len(), 3);
    assert!(bl.contains_key(&"alpha".to_string()));
    assert!(bl.contains_key(&"beta".to_string()));
    assert!(bl.contains_key(&"gamma".to_string()));
    assert!(!bl.contains_key(&"delta".to_string()));
}

#[test]
fn report_keeps_every_positive_count() {
    let mut bl = blacklist_of(&["alpha", "beta", "gamma"]);
    analyze_text(&mut bl, "gamma alpha gamma");
    let report = bl.build_event_report();
    assert_eq!(report.len(), 2);
    assert!(report.contains(&("alpha".to_string(), 1)));
    assert!(report.contains(&("gamma".to_string(), 2)));
}

#[test]
fn counter_holds_still_at_the_top() {
    assert_eq!(saturating_increment(5), 6);
    assert_eq!(saturating_increment(i32::MAX), i32::MAX);
}
