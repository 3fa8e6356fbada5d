pub mod actions;
pub mod batch;
pub mod config;
pub mod filters;
pub mod utils;

use vstd::prelude::*;
use crate::actions::{selects, EntryError};
use crate::batch::{Batch, Stage};
use crate::filters::{chain_matches, filters_match};
use crate::utils::FileMetaData;

verus! {

/// An entry that a walk of a rule's location reached, with its depth below
/// the location (the location itself at depth 0).
#[derive(Clone, Debug)]
pub struct WalkEntry {
    pub meta: FileMetaData,
    pub depth: usize,
}

/// How a rule ended.
#[derive(Clone, Debug)]
pub enum RuleOutcome {
    NoMatches,
    Success,
    CompletedWithErrors(Vec<EntryError>),
}

/// How deep a walk of the rule's locations goes: without bound when
/// recursive, else to the configured depth, one level by default.
pub open spec fn depth_bound(rule: config::Rule) -> Option<usize> {
    if rule.recursive {
        None
    } else {
        match rule.max_depth {
            Some(d) => Some(d),
            None => Some(1),
        }
    }
}

/// Whether an entry at this depth lies in the rule's scope.
pub open spec fn in_scope(rule: config::Rule, depth: usize) -> bool {
    match depth_bound(rule) {
        Some(d) => depth <= d,
        None => true,
    }
}

/// Whether a walked entry joins the rule's match set: in scope, not a
/// directory, and kept by the whole filter chain.
pub open spec fn kept(rule: config::Rule, e: WalkEntry) -> bool {
    in_scope(rule, e.depth) && !e.meta.is_dir && filters_match(rule.filters, e.meta)
}

/// The match set of a rule over the walked entries, in walk order.
pub open spec fn selected(rule: config::Rule, es: Seq<WalkEntry>) -> Seq<FileMetaData>
    decreases es.len(),
{
    if es.len() == 0 {
        Seq::empty()
    } else {
        let p = selected(rule, es.drop_last());
        if kept(rule, es.last()) {
            p.push(es.last().meta)
        } else {
            p
        }
    }
}

/// The depth to which the rule's locations are walked; `None` for no bound.
pub fn walk_depth(rule: &config::Rule) -> (r: Option<usize>)
    ensures
        r == depth_bound(*rule),
{
    if rule.recursive {
        None
    } else {
        match rule.max_depth {
            Some(d) => Some(d),
            None => Some(1),
        }
    }
}

/// Evaluates the rule's filter chain over every walked entry and collects
/// the matches.
pub fn collect_matches(rule: &config::Rule, entries: &Vec<WalkEntry>) -> (r: Vec<FileMetaData>)
    ensures
        r@ == selected(*rule, entries@),
{
    let chain = filters::parse(&rule.filters);
    let bound = walk_depth(rule);
    let mut matches: Vec<FileMetaData> = Vec::new();
    let mut i: usize = 0;
    while i < entries.len()
        invariant
            i <= entries@.len(),
            bound == depth_bound(*rule),
            forall|m: FileMetaData| filters::chain_spec(chain@, m) == filters_match(rule.filters, m),
            matches@ == selected(*rule, entries@.subrange(0, i as int)),
        decreases entries@.len() - i,
    {
        let e = &entries[i];
        let in_bound = match bound {
            Some(d) => e.depth <= d,
            None => true,
        };
        proof {
            assert(entries@.subrange(0, i + 1).drop_last() =~= entries@.subrange(0, i as int));
        }
        if in_bound && !e.meta.is_dir && chain_matches(&chain, &e.meta) {
            matches.push(e.meta.duplicate());
        }
        i = i + 1;
    }
    proof {
        assert(entries@.subrange(0, entries@.len() as int) =~= entries@);
    }
    matches
}

/// Starts the rule's action over its match set, unless the set is empty:
/// then the rule ends without touching the filesystem.
pub fn start_rule<'a>(rule: &'a config::Rule, entries: &Vec<WalkEntry>) -> (r: Option<Batch<'a>>)
    ensures
        r is None <==> selected(*rule, entries@).len() == 0,
        r is Some ==> selects(rule.action, r->0.action) && r->0.matches@ == selected(
            *rule,
            entries@,
        ) && r->0.next == 0 && r->0.stage == Stage::Start && r->0.errors@.len() == 0,
{
    let matches = collect_matches(rule, entries);
    if matches.len() == 0 {
        None
    } else {
        Some(Batch::new(actions::parse(&rule.action), matches))
    }
}

/// The outcome of a rule: no matches when the match set was empty, else
/// success when the action reported no failure, else the failures.
pub fn conclude(match_count: usize, errors: Vec<EntryError>) -> (r: RuleOutcome)
    ensures
        match_count == 0 ==> r is NoMatches,
        match_count > 0 && errors@.len() == 0 ==> r is Success,
        match_count > 0 && errors@.len() > 0 ==> (r is CompletedWithErrors && r->CompletedWithErrors_0
            == errors),
{
    if match_count == 0 {
        RuleOutcome::NoMatches
    } else if errors.len() == 0 {
        RuleOutcome::Success
    } else {
        RuleOutcome::CompletedWithErrors(errors)
    }
}

} // verus!
