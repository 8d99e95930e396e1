//! The planning agent. In its discovery state it stores the structured
//! project scope the model derived and decides whether external dependency
//! URLs are needed at all; in its unit-testing state it takes the probe
//! outcome of every stored URL and removes the faulty ones — an
//! order-preserving filter over the original list. A URL is faulty when its
//! probe errored or returned a status other than 200.

use vstd::prelude::*;

use crate::agent_traits::{planner_writes_only, FactSheet, ProjectScope};
use crate::basic_agent_traits::BasicAgentTrait;
use crate::basic_agents::{same_identity, AgentState, BasicAgent};
use crate::common::ProbeOutcome;

verus! {

/// A probe outcome marks its URL as faulty when the request errored or came
/// back with a status other than 200.
pub open spec fn spec_is_faulty(outcome: ProbeOutcome) -> bool {
    match outcome {
        ProbeOutcome::Status(code) => code != 200,
        ProbeOutcome::TransportError => true,
    }
}

/// The faulty URLs of a probed list: the URLs whose outcome (at the same
/// position) marks them faulty, in their original order.
pub open spec fn spec_faulty_urls(urls: Seq<Seq<char>>, outcomes: Seq<ProbeOutcome>) -> Seq<
    Seq<char>,
>
    decreases urls.len(),
{
    if urls.len() == 0 || outcomes.len() != urls.len() {
        Seq::empty()
    } else {
        let rest = spec_faulty_urls(urls.drop_last(), outcomes.drop_last());
        if spec_is_faulty(outcomes.last()) {
            rest.push(urls.last())
        } else {
            rest
        }
    }
}

/// An order-preserving filter of a URL list: keeps exactly the entries that
/// do not occur in the faulty list.
pub open spec fn spec_retained_urls(urls: Seq<Seq<char>>, faulty: Seq<Seq<char>>) -> Seq<Seq<char>>
    decreases urls.len(),
{
    if urls.len() == 0 {
        Seq::empty()
    } else {
        let rest = spec_retained_urls(urls.drop_last(), faulty);
        if !faulty.contains(urls.last()) {
            rest.push(urls.last())
        } else {
            rest
        }
    }
}

/// What the stored URL list looks like after validation: the faulty entries
/// are removed, but only when at least one was found — otherwise the list
/// is left exactly as it was.
pub open spec fn spec_validated_urls(urls: Seq<Seq<char>>, outcomes: Seq<ProbeOutcome>) -> Seq<
    Seq<char>,
> {
    let faulty = spec_faulty_urls(urls, outcomes);
    if faulty.len() > 0 {
        spec_retained_urls(urls, faulty)
    } else {
        urls
    }
}

/// The healthy URLs of a probed list: the URLs whose outcome (at the same
/// position) is a status of exactly 200, in their original order.
pub open spec fn spec_healthy_urls(urls: Seq<Seq<char>>, outcomes: Seq<ProbeOutcome>) -> Seq<
    Seq<char>,
>
    decreases urls.len(),
{
    if urls.len() == 0 || outcomes.len() != urls.len() {
        Seq::empty()
    } else {
        let rest = spec_healthy_urls(urls.drop_last(), outcomes.drop_last());
        if spec_is_faulty(outcomes.last()) {
            rest
        } else {
            rest.push(urls.last())
        }
    }
}

/// Every faulty URL comes from the probed list itself.
proof fn lemma_faulty_urls_subset(urls: Seq<Seq<char>>, outcomes: Seq<ProbeOutcome>, url: Seq<char>)
    requires
        spec_faulty_urls(urls, outcomes).contains(url),
    ensures
        urls.contains(url),
    decreases urls.len(),
{
    if urls.len() == 0 || outcomes.len() != urls.len() {
        // The faulty list is empty, so it cannot contain anything.
    } else {
        let rest = spec_faulty_urls(urls.drop_last(), outcomes.drop_last());
        let faulty = spec_faulty_urls(urls, outcomes);
        if url == urls.last() {
            assert(urls[urls.len() - 1] == url);
        } else {
            let i = choose|i: int| 0 <= i < faulty.len() && faulty[i] == url;
            assert(rest[i] == url);
            lemma_faulty_urls_subset(urls.drop_last(), outcomes.drop_last(), url);
            let j = choose|j: int| 0 <= j < urls.drop_last().len() && urls.drop_last()[j] == url;
            assert(urls[j] == url);
        }
    }
}

/// A URL that does not occur in a list makes no difference to which of its
/// entries a faulty set removes.
proof fn lemma_retained_ignores_absent(
    urls: Seq<Seq<char>>,
    faulty: Seq<Seq<char>>,
    extra: Seq<char>,
)
    requires
        !urls.contains(extra),
    ensures
        spec_retained_urls(urls, faulty.push(extra)) == spec_retained_urls(urls, faulty),
    decreases urls.len(),
{
    if urls.len() == 0 {
    } else {
        let prefix = urls.drop_last();
        assert(!prefix.contains(extra)) by {
            if prefix.contains(extra) {
                let j = choose|j: int| 0 <= j < prefix.len() && prefix[j] == extra;
                assert(urls[j] == extra);
            }
        }
        lemma_retained_ignores_absent(prefix, faulty, extra);
        assert(urls.last() != extra) by {
            assert(urls[urls.len() - 1] == urls.last());
        }
        assert(faulty.push(extra).contains(urls.last()) == faulty.contains(urls.last())) by {
            if faulty.contains(urls.last()) {
                let i = choose|i: int| 0 <= i < faulty.len() && faulty[i] == urls.last();
                assert(faulty.push(extra)[i] == urls.last());
            }
            if faulty.push(extra).contains(urls.last()) {
                let i = choose|i: int|
                    0 <= i < faulty.push(extra).len() && faulty.push(extra)[i] == urls.last();
                if i < faulty.len() {
                    assert(faulty[i] == urls.last());
                }
            }
        }
    }
}

/// On a duplicate-free list, removing the faulty URLs keeps exactly the
/// healthy ones.
proof fn lemma_retained_of_faulty_is_healthy(urls: Seq<Seq<char>>, outcomes: Seq<ProbeOutcome>)
    requires
        urls.no_duplicates(),
        outcomes.len() == urls.len(),
    ensures
        spec_retained_urls(urls, spec_faulty_urls(urls, outcomes)) == spec_healthy_urls(
            urls,
            outcomes,
        ),
    decreases urls.len(),
{
    if urls.len() == 0 {
    } else {
        let prefix = urls.drop_last();
        let prefix_outcomes = outcomes.drop_last();
        let faulty = spec_faulty_urls(urls, outcomes);
        let prefix_faulty = spec_faulty_urls(prefix, prefix_outcomes);

        assert(prefix.no_duplicates());
        assert(!prefix.contains(urls.last())) by {
            if prefix.contains(urls.last()) {
                let j = choose|j: int| 0 <= j < prefix.len() && prefix[j] == urls.last();
                assert(urls[j] == urls[urls.len() - 1] && j != urls.len() - 1);
            }
        }
        lemma_retained_of_faulty_is_healthy(prefix, prefix_outcomes);

        if spec_is_faulty(outcomes.last()) {
            assert(faulty == prefix_faulty.push(urls.last()));
            assert(faulty.contains(urls.last())) by {
                assert(faulty[prefix_faulty.len() as int] == urls.last());
            }
            lemma_retained_ignores_absent(prefix, prefix_faulty, urls.last());
        } else {
            assert(faulty == prefix_faulty);
            assert(!faulty.contains(urls.last())) by {
                if faulty.contains(urls.last()) {
                    lemma_faulty_urls_subset(prefix, prefix_outcomes, urls.last());
                }
            }
        }
    }
}

/// When no URL probed faulty, every URL was healthy: the list is already
/// exactly the healthy one.
proof fn lemma_no_faulty_all_healthy(urls: Seq<Seq<char>>, outcomes: Seq<ProbeOutcome>)
    requires
        outcomes.len() == urls.len(),
        spec_faulty_urls(urls, outcomes).len() == 0,
    ensures
        spec_healthy_urls(urls, outcomes) == urls,
    decreases urls.len(),
{
    if urls.len() == 0 {
        assert(urls =~= Seq::<Seq<char>>::empty());
    } else {
        lemma_no_faulty_all_healthy(urls.drop_last(), outcomes.drop_last());
        assert(urls.drop_last().push(urls.last()) =~= urls);
    }
}

/// Validation keeps exactly the healthy URLs. For a duplicate-free URL list
/// probed once per entry, in order, the validated list is exactly the list
/// of URLs whose probe returned status 200, in their original relative
/// order. (With duplicates this can fail: one faulty occurrence of a URL
/// removes every occurrence of it.)
pub proof fn lemma_validated_urls_are_the_healthy_ones(
    urls: Seq<Seq<char>>,
    outcomes: Seq<ProbeOutcome>,
)
    requires
        urls.no_duplicates(),
        outcomes.len() == urls.len(),
    ensures
        spec_validated_urls(urls, outcomes) == spec_healthy_urls(urls, outcomes),
{
    if spec_faulty_urls(urls, outcomes).len() > 0 {
        lemma_retained_of_faulty_is_healthy(urls, outcomes);
    } else {
        lemma_no_faulty_all_healthy(urls, outcomes);
    }
}

/// The planning agent: derives the project scope and validates the external
/// dependency URLs by live probing.
#[derive(Debug)]
pub struct SolutionArchitect {
    pub attributes: BasicAgent,
}

impl SolutionArchitect {
    pub fn new() -> (agent: Self)
        ensures
            agent.attributes.objective@ == "Gather information and solutions for web developement"@,
            agent.attributes.position@ == "Solution Architect"@,
            agent.attributes.state == AgentState::Discovery,
            agent.attributes.memory@ == Seq::<crate::large_language_model::Message>::empty(),
    {
        Self {
            attributes: BasicAgent::new(
                "Gather information and solutions for web developement".to_owned(),
                "Solution Architect".to_owned(),
            ),
        }
    }

    /// Discovery work, first half: store the scope the model derived. The
    /// agent is finished unless the scope asks for external URLs; the
    /// returned flag tells the caller whether to request a candidate URL
    /// list next.
    pub fn apply_project_scope(
        &mut self,
        factsheet: &mut FactSheet,
        scope: ProjectScope,
    ) -> (urls_needed: bool)
        requires
            old(self).attributes.state == AgentState::Discovery,
        ensures
            urls_needed == scope.is_external_urls_required,
            final(factsheet).project_scope == Some(scope),
            final(self).attributes.state == AgentState::Finished,
            planner_writes_only(*old(factsheet), *final(factsheet)),
            final(factsheet).external_urls == old(factsheet).external_urls,
            same_identity(old(self).attributes, final(self).attributes),
    {
        factsheet.project_scope = Some(scope);
        self.attributes.update_state(AgentState::Finished);
        scope.is_external_urls_required
    }

    /// Discovery work, second half, only reached when the scope asked for
    /// external URLs: store the candidate list and move on to validating it.
    pub fn apply_site_urls(&mut self, factsheet: &mut FactSheet, urls: Vec<String>)
        ensures
            final(factsheet).external_urls == Some(urls),
            final(self).attributes.state == AgentState::UnitTesting,
            planner_writes_only(*old(factsheet), *final(factsheet)),
            final(factsheet).project_scope == old(factsheet).project_scope,
            same_identity(old(self).attributes, final(self).attributes),
    {
        factsheet.external_urls = Some(urls);
        self.attributes.update_state(AgentState::UnitTesting);
    }

    /// Read access to the agent's identity and lifecycle state, for whoever
    /// drives it.
    pub fn get_attributes(&self) -> (attributes: &BasicAgent)
        ensures
            attributes == &self.attributes,
    {
        &self.attributes
    }

    /// The fallback of the planning agent's dispatcher: any state it has no
    /// work for is treated as terminal.
    pub fn on_unhandled_stage(&mut self)
        ensures
            final(self).attributes.state == AgentState::Finished,
            same_identity(old(self).attributes, final(self).attributes),
    {
        self.attributes.update_state(AgentState::Finished);
    }
}

/// Unit-testing work: given the probe outcome of every stored URL (in
/// order), remove the faulty URLs from the record — only if at least one was
/// found — and finish the agent.
pub fn on_unit_testing_stage(
    agent: &mut SolutionArchitect,
    factsheet: &mut FactSheet,
    outcomes: &Vec<ProbeOutcome>,
)
    requires
        old(agent).attributes.state == AgentState::UnitTesting,
        old(factsheet).external_urls matches Some(urls) && urls@.len() == outcomes@.len(),
    ensures
        final(agent).attributes.state == AgentState::Finished,
        planner_writes_only(*old(factsheet), *final(factsheet)),
        final(factsheet).project_scope == old(factsheet).project_scope,
        old(factsheet).external_urls matches Some(urls) ==> {
            &&& final(factsheet).external_urls matches Some(kept)
            &&& kept.deep_view() == spec_validated_urls(urls.deep_view(), outcomes@)
        },
        same_identity(old(agent).attributes, final(agent).attributes),
{
    let faulty = match &factsheet.external_urls {
        Some(raw_urls) => get_faulty_urls(raw_urls, outcomes),
        None => {
            proof {
                assert(false);
            }
            Vec::new()
        },
    };

    if faulty.len() > 0 {
        let kept = match &factsheet.external_urls {
            Some(raw_urls) => retain_urls(raw_urls, &faulty),
            None => {
                proof {
                    assert(false);
                }
                Vec::new()
            },
        };
        factsheet.external_urls = Some(kept);
    }

    agent.attributes.update_state(AgentState::Finished);
}

/// The URLs of `raw_urls` whose probe outcome (at the same position) marks
/// them faulty, in their original order.
pub fn get_faulty_urls(
    raw_urls: &Vec<String>,
    outcomes: &Vec<ProbeOutcome>,
) -> (faulty: Vec<String>)
    requires
        raw_urls@.len() == outcomes@.len(),
    ensures
        faulty.deep_view() == spec_faulty_urls(raw_urls.deep_view(), outcomes@),
{
    let mut faulty: Vec<String> = Vec::new();
    let mut i: usize = 0;
    while i < raw_urls.len()
        invariant
            i <= raw_urls@.len(),
            raw_urls@.len() == outcomes@.len(),
            faulty.deep_view() == spec_faulty_urls(
                raw_urls.deep_view().take(i as int),
                outcomes@.take(i as int),
            ),
        decreases raw_urls@.len() - i,
    {
        let ghost prev = faulty.deep_view();
        let is_faulty = match outcomes[i] {
            ProbeOutcome::Status(code) => code != 200,
            ProbeOutcome::TransportError => true,
        };
        if is_faulty {
            faulty.push(raw_urls[i].clone());
        }
        proof {
            let u = raw_urls.deep_view();
            let o = outcomes@;
            assert(u.take(i + 1).drop_last() =~= u.take(i as int));
            assert(o.take(i + 1).drop_last() =~= o.take(i as int));
            assert(u.take(i + 1).last() == raw_urls@[i as int]@);
            assert(o.take(i + 1).last() == o[i as int]);
            if is_faulty {
                assert(faulty.deep_view() =~= prev.push(raw_urls@[i as int]@));
            }
        }
        i += 1;
    }
    proof {
        assert(raw_urls.deep_view().take(raw_urls@.len() as int) =~= raw_urls.deep_view());
        assert(outcomes@.take(outcomes@.len() as int) =~= outcomes@);
    }
    faulty
}

/// Order-preserving filter: the entries of `urls` that do not occur in
/// `faulty`.
fn retain_urls(urls: &Vec<String>, faulty: &Vec<String>) -> (kept: Vec<String>)
    ensures
        kept.deep_view() == spec_retained_urls(urls.deep_view(), faulty.deep_view()),
{
    let mut kept: Vec<String> = Vec::new();
    let mut i: usize = 0;
    while i < urls.len()
        invariant
            i <= urls@.len(),
            kept.deep_view() == spec_retained_urls(
                urls.deep_view().take(i as int),
                faulty.deep_view(),
            ),
        decreases urls@.len() - i,
    {
        let ghost prev = kept.deep_view();
        let keep_it = !contains_string(faulty, &urls[i]);
        if keep_it {
            kept.push(urls[i].clone());
        }
        proof {
            let u = urls.deep_view();
            assert(u.take(i + 1).drop_last() =~= u.take(i as int));
            assert(u.take(i + 1).last() == urls@[i as int]@);
            if keep_it {
                assert(kept.deep_view() =~= prev.push(urls@[i as int]@));
            }
        }
        i += 1;
    }
    proof {
        assert(urls.deep_view().take(urls@.len() as int) =~= urls.deep_view());
    }
    kept
}

/// Whether `target` occurs in `items`, compared by contents.
fn contains_string(items: &Vec<String>, target: &String) -> (found: bool)
    ensures
        found == items.deep_view().contains(target@),
{
    let mut i: usize = 0;
    while i < items.len()
        invariant
            i <= items@.len(),
            forall|j: int| 0 <= j < i ==> items.deep_view()[j] != target@,
        decreases items@.len() - i,
    {
        if items[i] == *target {
            proof {
                assert(items.deep_view()[i as int] == target@);
            }
            return true;
        }
        i += 1;
    }
    false
}

} // verus!
