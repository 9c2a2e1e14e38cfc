//! Keeping the number of live previews bounded.
//!
//! After a preview has been created, the previews of the environment are
//! counted, the new one included. Where there are more than the limit allows,
//! the oldest are deleted, as many as are over. How old a preview is shows in
//! its deployment history; one whose age cannot be told counts as the oldest.

use crate::config::preview_prefix;
use crate::listing::{
    list_composes_with_prefix, pointees, previews_of, project_composes, retain_others, without_id,
};
use crate::models::dokploy::{Compose, ComposeDetail, Deployment, Project};
use crate::text::copy_text;
use crate::order::{is_selection, select_first};
use crate::timestamp::{instant_of_opt, is_key_before, key_before, parse_ts_opt, Timestamp};
use vstd::prelude::*;

verus! {

/// The later of two keys; a missing instant is earlier than any instant.
pub open spec fn later(a: Option<Timestamp>, b: Option<Timestamp>) -> Option<Timestamp> {
    if key_before(a, b) {
        b
    } else {
        a
    }
}

/// The latest of the instants that are there; none where none is.
pub open spec fn latest_of(instants: Seq<Option<Timestamp>>) -> Option<Timestamp>
    decreases instants.len(),
{
    if instants.len() == 0 {
        None
    } else {
        later(latest_of(instants.drop_last()), instants.last())
    }
}

/// The latest instant is one of those given and none of them is later.
pub proof fn latest_is_the_greatest_present(instants: Seq<Option<Timestamp>>)
    ensures
        forall|i: int|
            0 <= i < instants.len() ==> !key_before(latest_of(instants), #[trigger] instants[i]),
        latest_of(instants) is Some ==> instants.contains(latest_of(instants)),
        latest_of(instants) is None ==> forall|i: int|
            0 <= i < instants.len() ==> #[trigger] instants[i] is None,
    decreases instants.len(),
{
    if instants.len() > 0 {
        let front = instants.drop_last();
        latest_is_the_greatest_present(front);
        assert forall|i: int| 0 <= i < instants.len() implies !key_before(
            latest_of(instants),
            #[trigger] instants[i],
        ) by {
            if i < front.len() {
                assert(front[i] == instants[i]);
            }
        }
        if latest_of(instants) is Some {
            if latest_of(instants) == instants.last() {
                assert(instants[instants.len() - 1] == latest_of(instants));
            } else {
                let k = choose|k: int| 0 <= k < front.len() && front[k] == latest_of(front);
                assert(instants[k] == latest_of(instants));
            }
        } else {
            assert forall|i: int| 0 <= i < instants.len() implies #[trigger] instants[i] is None by {
                if i < front.len() {
                    assert(front[i] == instants[i]);
                }
            }
        }
    }
}

/// Executable form of [`latest_of`].
pub fn latest_instant(instants: &Vec<Option<Timestamp>>) -> (r: Option<Timestamp>)
    ensures
        r == latest_of(instants@),
{
    let mut best: Option<Timestamp> = None;
    let mut i: usize = 0;
    while i < instants.len()
        invariant
            i <= instants.len(),
            best == latest_of(instants@.take(i as int)),
        decreases instants.len() - i,
    {
        assert(instants@.take(i + 1).drop_last() =~= instants@.take(i as int));
        if is_key_before(&best, &instants[i]) {
            best = instants[i];
        }
        i += 1;
    }
    assert(instants@.take(i as int) =~= instants@);
    best
}

/// The instants at which the deployments of a history finished.
pub open spec fn finished_instants(deployments: Seq<Deployment>) -> Seq<Option<Timestamp>> {
    Seq::new(deployments.len(), |i: int| instant_of_opt(deployments[i].finished_at))
}

/// The instants at which the deployments of a history started.
pub open spec fn started_instants(deployments: Seq<Deployment>) -> Seq<Option<Timestamp>> {
    Seq::new(deployments.len(), |i: int| instant_of_opt(deployments[i].started_at))
}

/// The instants at which the deployments of a history were created.
pub open spec fn created_instants(deployments: Seq<Deployment>) -> Seq<Option<Timestamp>> {
    Seq::new(deployments.len(), |i: int| instant_of_opt(deployments[i].created_at))
}

/// When a preview was last active: the latest instant at which one of its
/// deployments finished; failing that, the latest at which one started;
/// failing that, the latest at which one was created; failing that, the
/// instant at which the compose resource itself was created. Text that is no
/// date and time counts as missing.
pub open spec fn last_activity_of(detail: ComposeDetail) -> Option<Timestamp> {
    let finished = latest_of(finished_instants(detail.deployments@));
    let started = latest_of(started_instants(detail.deployments@));
    let created = latest_of(created_instants(detail.deployments@));
    if finished is Some {
        finished
    } else if started is Some {
        started
    } else if created is Some {
        created
    } else {
        instant_of_opt(detail.created_at)
    }
}

/// The key by which a preview is aged: its last activity, or nothing where
/// its detail could not be had.
pub open spec fn activity_key_of(detail: Option<ComposeDetail>) -> Option<Timestamp> {
    match detail {
        Some(d) => last_activity_of(d),
        None => None,
    }
}

/// Which of the three instants of a deployment is meant.
#[derive(Clone, Copy, Debug, PartialEq, Eq, Structural)]
pub enum Phase {
    Created,
    Started,
    Finished,
}

/// The instants of one phase over a deployment history.
pub open spec fn phase_instants(deployments: Seq<Deployment>, phase: Phase) -> Seq<
    Option<Timestamp>,
> {
    match phase {
        Phase::Created => created_instants(deployments),
        Phase::Started => started_instants(deployments),
        Phase::Finished => finished_instants(deployments),
    }
}

/// Reads the instants of one phase of every deployment of a history.
pub fn read_phase(deployments: &Vec<Deployment>, phase: Phase) -> (r: Vec<Option<Timestamp>>)
    ensures
        r@ == phase_instants(deployments@, phase),
{
    let mut r: Vec<Option<Timestamp>> = Vec::new();
    let mut i: usize = 0;
    while i < deployments.len()
        invariant
            i <= deployments.len(),
            r@ == phase_instants(deployments@, phase).take(i as int),
        decreases deployments.len() - i,
    {
        let d = &deployments[i];
        let t = match phase {
            Phase::Created => parse_ts_opt(&d.created_at),
            Phase::Started => parse_ts_opt(&d.started_at),
            Phase::Finished => parse_ts_opt(&d.finished_at),
        };
        r.push(t);
        i += 1;
    }
    r
}

/// When a preview was last active.
pub fn last_activity(detail: &ComposeDetail) -> (r: Option<Timestamp>)
    ensures
        r == last_activity_of(*detail),
{
    let finished = latest_instant(&read_phase(&detail.deployments, Phase::Finished));
    if finished.is_some() {
        return finished;
    }
    let started = latest_instant(&read_phase(&detail.deployments, Phase::Started));
    if started.is_some() {
        return started;
    }
    let created = latest_instant(&read_phase(&detail.deployments, Phase::Created));
    if created.is_some() {
        return created;
    }
    parse_ts_opt(&detail.created_at)
}

/// The keys of a list of previews, one for each detail that was asked for.
pub open spec fn activity_keys_of(details: Seq<Option<ComposeDetail>>) -> Seq<Option<Timestamp>> {
    Seq::new(details.len(), |i: int| activity_key_of(details[i]))
}

/// Computes the key of every preview of a list.
pub fn activity_keys(details: &Vec<Option<ComposeDetail>>) -> (r: Vec<Option<Timestamp>>)
    ensures
        r@ == activity_keys_of(details@),
{
    let mut r: Vec<Option<Timestamp>> = Vec::new();
    let mut i: usize = 0;
    while i < details.len()
        invariant
            i <= details.len(),
            r@ == activity_keys_of(details@).take(i as int),
        decreases details.len() - i,
    {
        let k = match &details[i] {
            Some(d) => last_activity(d),
            None => None,
        };
        r.push(k);
        i += 1;
    }
    r
}

/// How many previews have to go: with `remaining` previews beside the new
/// one there are `remaining + 1` in all; what is over the limit goes, though
/// never the new one.
pub open spec fn excess(remaining: nat, limit: nat) -> nat {
    if remaining + 1 > limit {
        if remaining + 1 - limit > remaining {
            remaining
        } else {
            (remaining + 1 - limit) as nat
        }
    } else {
        0
    }
}

/// Executable form of [`excess`].
pub fn victim_count(remaining: usize, limit: usize) -> (r: usize)
    ensures
        r == excess(remaining as nat, limit as nat),
        r <= remaining,
{
    if remaining < limit {
        0
    } else if limit == 0 {
        remaining
    } else {
        remaining - limit + 1
    }
}

/// What the victims of a pruning are: the identifiers of the
/// [`excess`] oldest candidates, oldest first.
pub open spec fn is_pruning(
    candidates: Seq<&Compose>,
    keys: Seq<Option<Timestamp>>,
    limit: nat,
    victims: Seq<String>,
) -> bool {
    exists|picked: Seq<usize>|
        {
            &&& #[trigger] is_selection(keys, excess(candidates.len(), limit), picked)
            &&& victims.len() == picked.len()
            &&& forall|a: int|
                0 <= a < picked.len() ==> (#[trigger] victims[a])@ == candidates[picked[a] as int].compose_id@
        }
}

/// The compose identifiers of the previews to delete so that, the new preview
/// included, no more than `limit` are left (or, where the limit is zero, the
/// new one alone). `candidates` are the previews beside the new one, `keys`
/// their last activity, one for each.
pub fn select_victims(
    candidates: &Vec<&Compose>,
    keys: &Vec<Option<Timestamp>>,
    limit: usize,
) -> (victims: Vec<String>)
    requires
        keys.len() == candidates.len(),
    ensures
        is_pruning(candidates@, keys@, limit as nat, victims@),
        victims.len() == excess(candidates.len() as nat, limit as nat),
{
    let count = victim_count(candidates.len(), limit);
    let picked = select_first(keys, count);
    let mut victims: Vec<String> = Vec::new();
    let mut a: usize = 0;
    while a < picked.len()
        invariant
            a <= picked.len(),
            victims.len() == a,
            keys.len() == candidates.len(),
            forall|b: int| 0 <= b < picked.len() ==> (#[trigger] picked@[b]) < keys.len(),
            forall|b: int|
                0 <= b < a ==> (#[trigger] victims@[b])@ == candidates@[picked@[b] as int].compose_id@,
        decreases picked.len() - a,
    {
        let ghost before = victims@;
        victims.push(copy_text(candidates[picked[a]].compose_id.as_str()));
        proof {
            assert forall|b: int| 0 <= b < a + 1 implies (#[trigger] victims@[b])@
                == candidates@[picked@[b] as int].compose_id@ by {
                if b < a {
                    assert(victims@[b] == before[b]);
                }
            }
        }
        a += 1;
    }
    victims
}

/// The key of the candidate at `i`, given the details that were fetched:
/// that of its detail, and nothing where none was fetched for it.
pub open spec fn candidate_key(details: Seq<Option<ComposeDetail>>, i: int) -> Option<Timestamp> {
    if 0 <= i < details.len() {
        activity_key_of(details[i])
    } else {
        None
    }
}

/// The keys of `count` candidates, given the details that were fetched.
pub open spec fn candidate_keys(details: Seq<Option<ComposeDetail>>, count: nat) -> Seq<
    Option<Timestamp>,
> {
    Seq::new(count, |i: int| candidate_key(details, i))
}

/// The previews beside the new one among which the victims are chosen: the
/// previews of the environment, without the one just created.
pub fn prune_candidates<'a>(
    projects: &'a Vec<Project>,
    environment_id: &str,
    exclude_compose_id: &str,
) -> (r: Vec<&'a Compose>)
    ensures
        pointees(r@) == without_id(
            previews_of(project_composes(projects@), environment_id@, preview_prefix()),
            exclude_compose_id@,
        ),
{
    let previews = list_composes_with_prefix(projects, environment_id, "preview-");
    retain_others(&previews, exclude_compose_id)
}

/// The compose identifiers of the previews to delete, oldest first, given
/// the candidates and, for each, its detail where that could be fetched. A
/// candidate without a detail counts as the oldest.
pub fn prune_victims(
    candidates: &Vec<&Compose>,
    details: &Vec<Option<ComposeDetail>>,
    limit: usize,
) -> (victims: Vec<String>)
    ensures
        is_pruning(
            candidates@,
            candidate_keys(details@, candidates.len() as nat),
            limit as nat,
            victims@,
        ),
        victims.len() == excess(candidates.len() as nat, limit as nat),
{
    let mut keys: Vec<Option<Timestamp>> = Vec::new();
    let mut i: usize = 0;
    while i < candidates.len()
        invariant
            i <= candidates.len(),
            keys@ == candidate_keys(details@, i as nat),
        decreases candidates.len() - i,
    {
        let key = if i < details.len() {
            match &details[i] {
                Some(d) => last_activity(d),
                None => None,
            }
        } else {
            None
        };
        keys.push(key);
        assert(keys@ =~= candidate_keys(details@, (i + 1) as nat));
        i += 1;
    }
    select_victims(candidates, &keys, limit)
}

} // verus!
