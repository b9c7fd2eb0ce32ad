use ltrait_plugins::filter::Filter;
use ltrait_plugins::nucleo::{
    rate, words_fit, CaseMatching, Context, Normalization, NucleoMatcher, MAX_PATTERN_BYTES,
    MAX_WORD_BYTES,
};
use ltrait_plugins::scorer::{Scorer, ScorerExt};
use ltrait_plugins::sorter::{Order, Sorter};

fn ctx(text: &str) -> Context {
    Context { match_string: text.to_string() }
}

#[test]
fn rate_turns_no_match_into_zero() {
    assert_eq!(rate(None), 0);
    assert_eq!(rate(Some(0)), 0);
    assert_eq!(rate(Some(168)), 168);
}

#[test]
fn scores_of_paths() {
    let scorer = NucleoMatcher::new(true, CaseMatching::Ignore, Normalization::Smart);
    assert_eq!(scorer.predicate_score(&ctx("foo/bar"), "foo bar"), 168);
    assert_eq!(scorer.predicate_score(&ctx("bar/foo"), "foo bar"), 168);
    assert_eq!(scorer.predicate_score(&ctx("foobar"), "foo bar"), 140);
}

#[test]
fn no_match_scores_zero() {
    let scorer = NucleoMatcher::new(false, CaseMatching::Smart, Normalization::Smart);
    assert_eq!(scorer.predicate_score(&ctx("banana"), "xyz"), 0);
    assert_eq!(scorer.predicate_score(&ctx("bar/foo"), "^foo"), 0);
    assert!(scorer.predicate_score(&ctx("foo/bar"), "^foo") > 0);
}

#[test]
fn empty_query_scores_zero() {
    let scorer = NucleoMatcher::new(false, CaseMatching::Smart, Normalization::Smart);
    assert_eq!(scorer.predicate_score(&ctx("anything"), ""), 0);
    assert_eq!(scorer.predicate_score(&ctx(""), ""), 0);
}

#[test]
fn case_is_respected_on_request() {
    let strict = NucleoMatcher::new(false, CaseMatching::Respect, Normalization::Never);
    let loose = NucleoMatcher::new(false, CaseMatching::Ignore, Normalization::Never);
    assert_eq!(strict.predicate_score(&ctx("Firefox"), "fire"), 0);
    assert!(loose.predicate_score(&ctx("Firefox"), "fire") > 0);
    assert!(strict.predicate_score(&ctx("Firefox"), "Fire") > 0);
}

#[test]
fn the_same_call_gives_the_same_score() {
    let scorer = NucleoMatcher::new(true, CaseMatching::Smart, Normalization::Smart);
    let first = scorer.predicate_score(&ctx("src/ui/list.rs"), "ui list");
    let _ = scorer.predicate_score(&ctx("Cargo.toml"), "toml");
    assert_eq!(scorer.predicate_score(&ctx("src/ui/list.rs"), "ui list"), first);
    assert!(first > 0);
}

#[test]
fn scores_under_the_default_settings() {
    let scorer = NucleoMatcher::new(false, CaseMatching::Ignore, Normalization::Smart);
    assert_eq!(scorer.predicate_score(&ctx("foo bar"), "foo\\ bar"), 192);
    assert_eq!(scorer.predicate_score(&ctx("foobar"), "foo\\ bar"), 0);
    assert_eq!(scorer.predicate_score(&ctx("foobar"), "foo bar"), 144);
}

#[test]
fn an_oversized_word_scores_zero() {
    let scorer = NucleoMatcher::new(false, CaseMatching::Ignore, Normalization::Never);
    let text = "a".repeat(MAX_WORD_BYTES + 1);
    assert_eq!(scorer.predicate_score(&ctx(&text), &text), 0);
    let text = "a".repeat(MAX_WORD_BYTES);
    assert!(scorer.predicate_score(&ctx(&text), &text) > 0);
}

#[test]
fn a_word_of_backslashes_at_the_bound_is_scored() {
    let scorer = NucleoMatcher::new(false, CaseMatching::Ignore, Normalization::Smart);
    let word = format!("\u{e9}{}", "\\".repeat(MAX_WORD_BYTES - 2));
    assert_eq!(word.len(), MAX_WORD_BYTES);
    let text = format!("\u{e9}{}", "\\".repeat(2 * (MAX_WORD_BYTES - 2) - 1));
    assert_eq!(text.chars().count(), 2 * MAX_WORD_BYTES - 4);
    assert_eq!(scorer.predicate_score(&ctx(&text), &word), 36 + 26 * (2 * MAX_WORD_BYTES as u32 - 5));
    let shorter = format!("\u{e9}{}", "\\".repeat(MAX_WORD_BYTES - 2));
    assert_eq!(scorer.predicate_score(&ctx(&shorter), &word), 0);
}

#[test]
fn a_word_of_backslashes_over_the_bound_scores_zero() {
    let scorer = NucleoMatcher::new(false, CaseMatching::Ignore, Normalization::Smart);
    let word = format!("\u{e9}{}", "\\".repeat(MAX_WORD_BYTES - 1));
    assert_eq!(word.len(), MAX_WORD_BYTES + 1);
    let text = format!("\u{e9}{}", "\\".repeat(2 * (MAX_WORD_BYTES - 1) - 1));
    assert_eq!(scorer.predicate_score(&ctx(&text), &word), 0);
}

#[test]
fn a_long_query_of_short_words_is_scored() {
    let scorer = NucleoMatcher::new(false, CaseMatching::Ignore, Normalization::Never);
    let query = vec!["fire"; 1000].join(" ");
    assert!(query.len() > 4 * MAX_WORD_BYTES);
    assert_eq!(scorer.predicate_score(&ctx("firefox"), &query), 1000 * scorer.predicate_score(&ctx("firefox"), "fire"));
    assert!(scorer.predicate_score(&ctx("firefox"), "fire") > 0);
}

#[test]
fn an_oversized_query_scores_zero() {
    let scorer = NucleoMatcher::new(false, CaseMatching::Ignore, Normalization::Never);
    let query = "a ".repeat(MAX_PATTERN_BYTES / 2 + 1);
    assert!(query.len() > MAX_PATTERN_BYTES);
    assert_eq!(scorer.predicate_score(&ctx("a"), &query), 0);
}

#[test]
fn words_are_parted_by_unescaped_spaces() {
    assert!(words_fit(b"", 0));
    assert!(words_fit(b"   ", 0));
    assert!(!words_fit(b"a", 0));
    assert!(words_fit(b"abc de f", 3));
    assert!(!words_fit(b"abc defg", 3));
    assert!(!words_fit(b"ab\\ c", 4));
    assert!(words_fit(b"ab\\ c", 5));
    assert!(words_fit(b"ab \\ c", 3));
    assert!(!words_fit(b"ab \\ c", 2));
    assert!(words_fit(b" a b c ", 1));
}

#[test]
fn better_matches_sort_higher() {
    let sorter = NucleoMatcher::new(false, CaseMatching::Smart, Normalization::Smart).into_sorter();
    assert_eq!(sorter.compare(&ctx("foo/bar"), &ctx("foobar"), "foo bar"), Order::Greater);
    assert_eq!(sorter.compare(&ctx("banana"), &ctx("grape"), "zzz"), Order::Equal);
}

#[test]
fn filter_by_score() {
    let filter = NucleoMatcher::new(false, CaseMatching::Smart, Normalization::Smart).into_filter(|score| score > 40);
    assert!(filter.predicate(&ctx("firefox"), "fire"));
    assert!(!filter.predicate(&ctx("chromium"), "fire"));
}
