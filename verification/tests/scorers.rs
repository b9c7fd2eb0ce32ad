use ltrait_plugins::filter::Filter;
use ltrait_plugins::scorer::{Scorer, ScorerExt, ScorerFilter, ScorerSorter};
use ltrait_plugins::sorter::{Order, Sorter};

struct CommonPrefix;

impl Scorer for CommonPrefix {
    type Context = String;

    fn predicate_score(&self, ctx: &String, input: &str) -> u32 {
        ctx.chars().zip(input.chars()).take_while(|(a, b)| a == b).count() as u32
    }
}

fn s(text: &str) -> String {
    text.to_string()
}

#[test]
fn scorer_sorter_orders_by_score() {
    let sorter = ScorerSorter::new(CommonPrefix);
    assert_eq!(sorter.compare(&s("apple"), &s("apricot"), "app"), Order::Greater);
    assert_eq!(sorter.compare(&s("apricot"), &s("apple"), "app"), Order::Less);
    assert_eq!(sorter.compare(&s("apple"), &s("application"), "app"), Order::Equal);
    assert_eq!(sorter.compare(&s("banana"), &s("grape"), "app"), Order::Equal);
}

#[test]
fn into_sorter_keeps_the_scorer() {
    let sorter = CommonPrefix.into_sorter();
    assert_eq!(sorter.0.predicate_score(&s("apple"), "apx"), 2);
    assert_eq!(sorter.compare(&s("a"), &s("apple"), "ap"), Order::Less);
}

#[test]
fn scorer_filter_tests_the_score() {
    let filter = ScorerFilter::new(CommonPrefix, |score| score > 1);
    assert!(filter.predicate(&s("apple"), "ap"));
    assert!(!filter.predicate(&s("avocado"), "ap"));
    assert!(!filter.predicate(&s("banana"), "ap"));
}

#[test]
fn into_filter_with_a_threshold() {
    let filter = CommonPrefix.into_filter(|score| score > 40);
    assert!(!filter.predicate(&s("apple"), "apple"));
    let filter = CommonPrefix.into_filter(|score| score == 0);
    assert!(filter.predicate(&s("banana"), "apple"));
    assert!(!filter.predicate(&s("apple"), "apple"));
}

#[test]
fn scorer_filter_hands_out_its_parts() {
    let filter = ScorerFilter::new(CommonPrefix, |score| score > 1);
    {
        let (scorer, threshold) = filter.parts();
        assert_eq!(scorer.predicate_score(&s("apple"), "apx"), 2);
        assert!(threshold(2));
        assert!(!threshold(1));
    }
    let (scorer, threshold) = filter.into_parts();
    assert_eq!(scorer.predicate_score(&s("grape"), "gr"), 2);
    assert!(threshold(40));
}
