//! Picking the wanted peripheral out of a stream of advertisements.

use vstd::prelude::*;
use crate::first::{
    first_index, is_first, lemma_first_ignores_tail, lemma_first_index, lemma_first_index_agrees,
    lemma_first_or_none, none_of,
};
use crate::text::text_eq;

verus! {

/// The text shown for a peripheral that advertises no name.
pub const NAME_UNAVAILABLE: &'static str = "<Name N/A>";

/// One scan event: what a peripheral advertised, and the caller's handle for it.
#[derive(Clone, Debug, PartialEq, Eq)]
pub struct AdvertisementReport {
    /// The advertised name, if the advertisement carried one.
    pub name: Option<String>,
    /// The caller's handle for the device. The matcher never reads it.
    pub device: u64,
}

impl AdvertisementReport {
    /// The advertised name as a sequence of characters, if there is one.
    pub open spec fn advertised(&self) -> Option<Seq<char>> {
        match self.name {
            Some(n) => Some(n@),
            None => None,
        }
    }

    /// The name to show for this report: the advertised one, or the placeholder.
    pub open spec fn resolved(&self) -> Seq<char> {
        match self.name {
            Some(n) => n@,
            None => NAME_UNAVAILABLE@,
        }
    }

    /// Whether this report is the peripheral called `target`. A report
    /// without a name is nobody's peripheral, whatever `target` is.
    pub open spec fn is_named(&self, target: Seq<char>) -> bool {
        self.advertised() == Some(target)
    }

    /// The name to show for this report: the advertised one, or the
    /// placeholder where the report has none.
    pub fn resolve_name(&self) -> (shown: String)
        ensures
            shown@ == self.resolved(),
    {
        match &self.name {
            Some(n) => n.clone(),
            None => NAME_UNAVAILABLE.to_owned(),
        }
    }

    /// Whether this report is the peripheral called `target`: it has a
    /// name, and the name is `target` character for character.
    pub fn matches(&self, target: &str) -> (hit: bool)
        ensures
            hit == self.is_named(target@),
    {
        match &self.name {
            Some(n) => text_eq(n.as_str(), target),
            None => false,
        }
    }
}

/// The test that a scan for `target` puts each report to.
pub open spec fn named(target: Seq<char>) -> spec_fn(AdvertisementReport) -> bool {
    |report: AdvertisementReport| report.is_named(target)
}

/// `i` is the position of the first report in `reports` that is the
/// peripheral called `target`.
pub open spec fn is_first_match(
    reports: Seq<AdvertisementReport>,
    target: Seq<char>,
    i: int,
) -> bool {
    is_first(reports, named(target), i)
}

/// No report in `reports` is the peripheral called `target`.
pub open spec fn no_match(reports: Seq<AdvertisementReport>, target: Seq<char>) -> bool {
    none_of(reports, named(target))
}

/// The position of the first report that is the peripheral called
/// `target`, if there is one.
pub open spec fn first_match(reports: Seq<AdvertisementReport>, target: Seq<char>) -> Option<int> {
    first_index(reports, named(target))
}

/// Goes through `reports` in order and stops at the first one whose
/// advertised name is exactly `target`. Finding none is an ordinary answer,
/// not a failure.
pub fn find_by_name(target: &str, reports: &Vec<AdvertisementReport>) -> (found: Option<usize>)
    ensures
        match found {
            Some(i) => is_first_match(reports@, target@, i as int),
            None => no_match(reports@, target@),
        },
        match found {
            Some(i) => first_match(reports@, target@) == Some(i as int),
            None => first_match(reports@, target@) is None,
        },
{
    let mut i: usize = 0;
    while i < reports.len()
        invariant
            i <= reports.len(),
            forall|j: int| 0 <= j < i ==> !named(target@)(#[trigger] reports@[j]),
        decreases reports.len() - i,
    {
        if reports[i].matches(target) {
            proof {
                lemma_first_index(reports@, named(target@));
            }
            return Some(i);
        }
        i += 1;
    }
    None
}

/// The test for a report that is shown under the name `target`.
pub open spec fn shown_as(target: Seq<char>) -> spec_fn(AdvertisementReport) -> bool {
    |report: AdvertisementReport| report.resolved() == target
}

/// For every target but the placeholder, the first match is the first
/// report whose name as shown is the target. The same holds for the
/// placeholder too where every report has a name.
pub proof fn lemma_first_match_by_resolved_name(
    reports: Seq<AdvertisementReport>,
    target: Seq<char>,
)
    requires
        target != NAME_UNAVAILABLE@ || forall|j: int|
            0 <= j < reports.len() ==> (#[trigger] reports[j]).name is Some,
    ensures
        first_match(reports, target) == first_index(reports, shown_as(target)),
{
    assert forall|j: int| 0 <= j < reports.len() implies named(target)(#[trigger] reports[j])
        == shown_as(target)(reports[j]) by {
        lemma_match_by_resolved_name(reports[j], target);
    }
    lemma_first_index_agrees(reports, named(target), shown_as(target));
}

/// The answer of a scan is decided by the reports alone: there is a first
/// match or there is none, and a first match is the only one.
pub proof fn lemma_first_match_decided(reports: Seq<AdvertisementReport>, target: Seq<char>)
    ensures
        match first_match(reports, target) {
            Some(i) => is_first_match(reports, target, i),
            None => no_match(reports, target),
        },
        forall|i: int| is_first_match(reports, target, i) ==> first_match(reports, target) == Some(i),
        no_match(reports, target) <==> !exists|i: int| is_first_match(reports, target, i),
{
    lemma_first_index(reports, named(target));
    lemma_first_or_none(reports, named(target));
}

/// What follows the first match plays no part in the answer: two scans that
/// agree up to and including the match have the same first match.
pub proof fn lemma_match_ignores_tail(
    a: Seq<AdvertisementReport>,
    b: Seq<AdvertisementReport>,
    target: Seq<char>,
    i: int,
)
    requires
        is_first_match(a, target, i),
        i < b.len(),
        a.take(i + 1) == b.take(i + 1),
    ensures
        is_first_match(b, target, i),
        first_match(b, target) == first_match(a, target),
{
    lemma_first_ignores_tail(a, b, named(target), i);
}

/// A report without a name matches no target, the placeholder included.
pub proof fn lemma_nameless_never_matches(report: AdvertisementReport, target: Seq<char>)
    requires
        report.name is None,
    ensures
        !report.is_named(target),
        !report.is_named(NAME_UNAVAILABLE@),
        report.resolved() == NAME_UNAVAILABLE@,
{
}

/// Matching goes by the name as shown, except that the placeholder shown
/// for a nameless report is not a name.
pub proof fn lemma_match_by_resolved_name(report: AdvertisementReport, target: Seq<char>)
    ensures
        report.is_named(target) ==> report.resolved() == target,
        report.name is Some || target != NAME_UNAVAILABLE@ ==> (report.is_named(target)
            <==> report.resolved() == target),
{
}

} // verus!
