use std::cell::Cell;

use ltrait::color_eyre::eyre::Report;
use ltrait_plugins::action::{Action, ActionExt, ActionIf, ActionWrapper};

struct Count<'a> {
    runs: &'a Cell<u32>,
    fail: bool,
}

impl Action for Count<'_> {
    type Context = u32;

    fn act(&self, ctx: &u32) -> Result<(), Report> {
        self.runs.set(self.runs.get() + *ctx);
        if self.fail {
            Err(Report::msg("the store is closed"))
        } else {
            Ok(())
        }
    }
}

#[test]
fn wrapper_hands_the_projection_to_the_action() {
    let runs = Cell::new(0);
    let wrapped = ActionWrapper::new(Count { runs: &runs, fail: false }, |c: &(u32, bool)| c.0);
    assert!(wrapped.act(&(7, true)).is_ok());
    assert_eq!(runs.get(), 7);
}

#[test]
fn guard_false_succeeds_without_running() {
    let runs = Cell::new(0);
    let guarded = ActionIf::new(Count { runs: &runs, fail: true }, |_: &u32| false, |c: &u32| *c);
    assert!(guarded.act(&5).is_ok());
    assert!(guarded.act(&1).is_ok());
    assert_eq!(runs.get(), 0);
}

#[test]
fn guard_true_runs_the_action_once() {
    let runs = Cell::new(0);
    let guarded = Count { runs: &runs, fail: false }.to_if(|c: &(u32, bool)| c.1, |c: &(u32, bool)| c.0);
    assert!(guarded.act(&(3, true)).is_ok());
    assert_eq!(runs.get(), 3);
    assert!(guarded.act(&(4, false)).is_ok());
    assert_eq!(runs.get(), 3);
}

#[test]
fn guard_true_passes_the_error_on() {
    let runs = Cell::new(0);
    let guarded = Count { runs: &runs, fail: true }.to_if(|_: &u32| true, |c: &u32| *c);
    let outcome = guarded.act(&2);
    assert_eq!(outcome.unwrap_err().to_string(), "the store is closed");
    assert_eq!(runs.get(), 2);
}
