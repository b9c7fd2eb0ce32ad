use std::time::Duration;
use vstd::hash_map::StringHashMap;
use vstd::prelude::*;
use crate::sorter::{Order, ReversedSorter, Sorter};

verus! {

/// How a frecency score store is set up.
///
/// `half_life` is the time after which an untouched score has halved;
/// `type_ident` names the set of entries that share one store, so that
/// identifiers need to be unique only within it.
#[derive(Debug)]
pub struct FrecencyConfig {
    pub half_life: Duration,
    pub type_ident: String,
}

impl Clone for FrecencyConfig {
    fn clone(&self) -> (copy: Self)
        ensures
            copy.half_life == self.half_life,
            copy.type_ident@ == self.type_ident@,
    {
        Self { half_life: self.half_life, type_ident: self.type_ident.clone() }
    }
}

/// What the frecency sorter reads of an entry: the identifier its score is
/// stored under.
pub struct Context {
    pub ident: String,
}

/// The standings that a list of stored rows amounts to. Each row is an
/// identifier with its standing; a later row replaces an earlier one of the
/// same identifier.
pub open spec fn standings_of(rows: Seq<(String, i64)>) -> Map<Seq<char>, i64>
    decreases rows.len(),
{
    if rows.len() == 0 {
        Map::empty()
    } else {
        standings_of(rows.drop_last()).insert(rows.last().0@, rows.last().1)
    }
}

/// The standing of an identifier: the stored one, or `0`, the standing of the
/// score zero, for an identifier that has none.
pub open spec fn standing_in(standings: Map<Seq<char>, i64>, ident: Seq<char>) -> i64 {
    if standings.contains_key(ident) {
        standings[ident]
    } else {
        0
    }
}

/// How two standings stand to each other.
pub open spec fn order_of_standings(lhs: i64, rhs: i64) -> Order {
    if lhs < rhs {
        Order::Less
    } else if lhs == rhs {
        Order::Equal
    } else {
        Order::Greater
    }
}

/// Standings compare as a total order does: exchanging the two sides reverses
/// the outcome, equal standings and no others compare `Equal`, and `Less`
/// carries over a chain of three.
pub proof fn lemma_standings_are_ordered(a: i64, b: i64, c: i64)
    ensures
        order_of_standings(b, a) == order_of_standings(a, b).reversed(),
        order_of_standings(a, b) == Order::Equal <==> a == b,
        order_of_standings(a, b) == Order::Less && order_of_standings(b, c) == Order::Less
            ==> order_of_standings(a, c) == Order::Less,
{
}

/// The frecency sorter: entries are ordered by the score stored for them,
/// read as it was when the sorter was made.
///
/// A score is held by its standing, an integer that is larger for a larger
/// score and `0` for the score zero, so that comparing standings is comparing
/// scores.
pub struct Frecency {
    entries: StringHashMap<i64>,
    config: FrecencyConfig,
}

impl Frecency {
    /// The standing stored for each identifier.
    pub closed spec fn standings(&self) -> Map<Seq<char>, i64> {
        self.entries@
    }

    /// The configuration the sorter was made with.
    pub closed spec fn config_spec(&self) -> FrecencyConfig {
        self.config
    }

    /// A sorter over the rows of a store, in the order they were read.
    pub fn new(config: FrecencyConfig, rows: Vec<(String, i64)>) -> (frecency: Self)
        ensures
            frecency.standings() == standings_of(rows@),
            frecency.config_spec() == config,
    {
        let mut entries: StringHashMap<i64> = StringHashMap::new();
        let mut index: usize = 0;
        while index < rows.len()
            invariant
                index <= rows.len(),
                entries@ == standings_of(rows@.subrange(0, index as int)),
            decreases rows.len() - index,
        {
            let ident = rows[index].0.clone();
            entries.insert(ident, rows[index].1);
            proof {
                let read = rows@.subrange(0, index + 1);
                assert(read.drop_last() == rows@.subrange(0, index as int));
                assert(read.last() == rows@[index as int]);
            }
            index += 1;
        }
        proof {
            assert(rows@.subrange(0, rows@.len() as int) == rows@);
        }
        Self { entries, config }
    }

    pub fn config(&self) -> (config: &FrecencyConfig)
        ensures
            *config == self.config_spec(),
    {
        &self.config
    }

    /// The standing of the entry stored under `ident`.
    pub fn standing(&self, ident: &str) -> (standing: i64)
        ensures
            standing == standing_in(self.standings(), ident@),
    {
        match self.entries.get(ident) {
            Some(stored) => *stored,
            None => 0,
        }
    }

    /// How the entry stored under `lhs` stands to the one stored under `rhs`.
    pub fn compare_idents(&self, lhs: &str, rhs: &str) -> (outcome: Order)
        ensures
            outcome == order_of_standings(
                standing_in(self.standings(), lhs@),
                standing_in(self.standings(), rhs@),
            ),
    {
        let left = self.standing(lhs);
        let right = self.standing(rhs);
        if left < right {
            Order::Less
        } else if left == right {
            Order::Equal
        } else {
            Order::Greater
        }
    }
}

impl Sorter for Frecency {
    type Context = Context;

    /// The one outcome for a pair: how the stored standings of the two
    /// identifiers stand to each other, whatever the query.
    open spec fn ranks(&self, lhs: &Context, rhs: &Context, input: Seq<char>, outcome: Order) -> bool {
        outcome == order_of_standings(
            standing_in(self.standings(), lhs.ident@),
            standing_in(self.standings(), rhs.ident@),
        )
    }

    fn compare(&self, lhs: &Context, rhs: &Context, _input: &str) -> (outcome: Order) {
        self.compare_idents(lhs.ident.as_str(), rhs.ident.as_str())
    }
}

/// The frecency sorter gives a pair and the exchanged pair opposite outcomes,
/// so its reversal compares every pair as the sorter compares the exchanged
/// pair.
pub proof fn lemma_reversed_frecency_swaps(
    frecency: Frecency,
    reversed: ReversedSorter<Frecency, Context>,
    lhs: &Context,
    rhs: &Context,
    input: Seq<char>,
    outcome: Order,
)
    requires
        reversed.inner() == frecency,
    ensures
        reversed.ranks(lhs, rhs, input, outcome) == frecency.ranks(rhs, lhs, input, outcome),
{
    lemma_standings_are_ordered(
        standing_in(frecency.standings(), lhs.ident@),
        standing_in(frecency.standings(), rhs.ident@),
        0,
    );
}

} // verus!
