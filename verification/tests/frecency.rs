use std::time::Duration;

use ltrait_plugins::frecency::{Context, Frecency, FrecencyConfig};
use ltrait_plugins::sorter::{Order, Sorter, SorterExt};

fn config() -> FrecencyConfig {
    FrecencyConfig {
        half_life: Duration::from_secs(30 * 60 * 60 * 24),
        type_ident: "simple-test".into(),
    }
}

fn ctx(ident: &str) -> Context {
    Context { ident: ident.to_string() }
}

fn rows(items: &[(&str, i64)]) -> Vec<(String, i64)> {
    items.iter().map(|(ident, standing)| (ident.to_string(), *standing)).collect()
}

#[test]
fn config_clone_keeps_both_fields() {
    let config = config();
    let copy = config.clone();
    assert_eq!(copy.half_life, Duration::from_secs(2_592_000));
    assert_eq!(copy.type_ident, "simple-test");
    assert_eq!(config.type_ident, "simple-test");
}

#[test]
fn stored_standings_are_found_again() {
    let frecency = Frecency::new(config(), rows(&[("firefox", 30), ("vim", 45), ("gimp", -2)]));
    assert_eq!(frecency.standing("firefox"), 30);
    assert_eq!(frecency.standing("vim"), 45);
    assert_eq!(frecency.standing("gimp"), -2);
    assert_eq!(frecency.config().type_ident, "simple-test");
}

#[test]
fn an_unseen_identifier_stands_at_zero() {
    let frecency = Frecency::new(config(), rows(&[("firefox", 30)]));
    assert_eq!(frecency.standing("emacs"), 0);
    assert_eq!(frecency.standing(""), 0);
    assert_eq!(Frecency::new(config(), Vec::new()).standing("firefox"), 0);
}

#[test]
fn a_later_row_replaces_an_earlier_one() {
    let frecency = Frecency::new(config(), rows(&[("vim", 45), ("firefox", 30), ("vim", 7)]));
    assert_eq!(frecency.standing("vim"), 7);
    assert_eq!(frecency.standing("firefox"), 30);
}

#[test]
fn entries_are_ordered_by_their_standings() {
    let frecency = Frecency::new(config(), rows(&[("firefox", 30), ("vim", 45), ("gimp", -2)]));
    assert_eq!(frecency.compare(&ctx("firefox"), &ctx("vim"), ""), Order::Less);
    assert_eq!(frecency.compare(&ctx("vim"), &ctx("firefox"), "any query"), Order::Greater);
    assert_eq!(frecency.compare(&ctx("vim"), &ctx("vim"), ""), Order::Equal);
    assert_eq!(frecency.compare(&ctx("gimp"), &ctx("emacs"), ""), Order::Less);
    assert_eq!(frecency.compare(&ctx("emacs"), &ctx("nano"), ""), Order::Equal);
    assert_eq!(frecency.compare_idents("firefox", "emacs"), Order::Greater);
}

#[test]
fn the_most_used_entry_comes_first_when_reversed() {
    let frecency = Frecency::new(config(), rows(&[("firefox", 30), ("vim", 45)])).reverse();
    assert_eq!(frecency.compare(&ctx("vim"), &ctx("firefox"), ""), Order::Less);
    assert_eq!(frecency.compare(&ctx("emacs"), &ctx("firefox"), ""), Order::Greater);
}
