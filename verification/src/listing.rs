//! Finding compose resources in what the platform lists.
//!
//! The platform lists its projects, each with its environments, each with
//! the compose resources deployed in it. A preview is looked up in that
//! listing by its name; the previews of an environment are those whose
//! application name carries the preview prefix.

use crate::models::dokploy::{Compose, Environment, Project};
use crate::text::{chars_of, same_text, starts_with, texts};
use vstd::prelude::*;

verus! {

/// The compose resources of some environments, in the order listed.
pub open spec fn environment_composes(environments: Seq<Environment>) -> Seq<Compose>
    decreases environments.len(),
{
    if environments.len() == 0 {
        Seq::empty()
    } else {
        environment_composes(environments.drop_last()) + environments.last().compose@
    }
}

/// The compose resources of some projects, in the order listed.
pub open spec fn project_composes(projects: Seq<Project>) -> Seq<Compose>
    decreases projects.len(),
{
    if projects.len() == 0 {
        Seq::empty()
    } else {
        project_composes(projects.drop_last()) + environment_composes(
            projects.last().environments@,
        )
    }
}

/// The values that a vector of references points to.
pub open spec fn pointees(refs: Seq<&Compose>) -> Seq<Compose> {
    Seq::new(refs.len(), |i: int| *refs[i])
}

/// Every compose resource of the listing, in the order listed.
pub fn all_composes(projects: &Vec<Project>) -> (r: Vec<&Compose>)
    ensures
        pointees(r@) == project_composes(projects@),
{
    let mut r: Vec<&Compose> = Vec::new();
    let mut p: usize = 0;
    while p < projects.len()
        invariant
            p <= projects.len(),
            pointees(r@) == project_composes(projects@.take(p as int)),
        decreases projects.len() - p,
    {
        let environments = &projects[p].environments;
        let ghost base = pointees(r@);
        let mut e: usize = 0;
        while e < environments.len()
            invariant
                e <= environments.len(),
                pointees(r@) == base + environment_composes(environments@.take(e as int)),
            decreases environments.len() - e,
        {
            let composes = &environments[e].compose;
            let ghost inner = pointees(r@);
            let mut c: usize = 0;
            while c < composes.len()
                invariant
                    c <= composes.len(),
                    pointees(r@) == inner + composes@.take(c as int),
                decreases composes.len() - c,
            {
                let ghost before = r@;
                r.push(&composes[c]);
                proof {
                    assert(r@ == before.push(&composes@[c as int]));
                    assert(pointees(r@) =~= pointees(before).push(composes@[c as int]));
                    assert(composes@.take(c + 1) =~= composes@.take(c as int).push(
                        composes@[c as int],
                    ));
                }
                c += 1;
            }
            proof {
                assert(composes@.take(c as int) =~= composes@);
                assert(environments@.take(e + 1).drop_last() =~= environments@.take(e as int));
                assert(pointees(r@) =~= base + environment_composes(environments@.take(e + 1)));
            }
            e += 1;
        }
        proof {
            assert(environments@.take(e as int) =~= environments@);
            assert(projects@.take(p + 1).drop_last() =~= projects@.take(p as int));
        }
        p += 1;
    }
    assert(projects@.take(p as int) =~= projects@);
    r
}

/// The compose resources among `composes` that bear the name `name`.
pub open spec fn named(composes: Seq<Compose>, name: Seq<char>) -> Seq<Compose>
    decreases composes.len(),
{
    if composes.len() == 0 {
        Seq::empty()
    } else if composes.last().name@ == name {
        named(composes.drop_last(), name).push(composes.last())
    } else {
        named(composes.drop_last(), name)
    }
}

/// Why a lookup by name failed.
#[derive(Debug, Clone, PartialEq, Eq)]
pub enum LookupError {
    /// More than one compose resource bears the name. Their identifiers are
    /// given in the order listed. None of them is picked: the configuration
    /// is wrong and a guess would hide it.
    AmbiguousIdentifier { compose_ids: Vec<String> },
}

/// The identifiers of some compose resources.
pub open spec fn ids_of(composes: Seq<Compose>) -> Seq<Seq<char>> {
    Seq::new(composes.len(), |i: int| composes[i].compose_id@)
}

/// The compose resources of the listing that bear the name.
pub fn composes_named<'a>(projects: &'a Vec<Project>, name: &str) -> (r: Vec<&'a Compose>)
    ensures
        pointees(r@) == named(project_composes(projects@), name@),
{
    let all = all_composes(projects);
    let mut r: Vec<&Compose> = Vec::new();
    let mut i: usize = 0;
    while i < all.len()
        invariant
            i <= all.len(),
            pointees(r@) == named(pointees(all@).take(i as int), name@),
        decreases all.len() - i,
    {
        assert(pointees(all@).take(i + 1).drop_last() =~= pointees(all@).take(i as int));
        if same_text(all[i].name.as_str(), name) {
            r.push(all[i]);
            assert(pointees(r@) =~= named(pointees(all@).take(i as int), name@).push(*all@[i as int]));
        }
        i += 1;
    }
    assert(pointees(all@).take(i as int) =~= pointees(all@));
    r
}

/// What a lookup by name gives for the compose resources that bear the
/// name: none for none, the one for one, an error for more.
pub open spec fn looked_up(matching: Seq<Compose>) -> Result<Option<Compose>, Seq<Seq<char>>> {
    if matching.len() == 0 {
        Ok(None)
    } else if matching.len() == 1 {
        Ok(Some(matching[0]))
    } else {
        Err(ids_of(matching))
    }
}

/// Looks a compose resource up by its name. None bears it: `Ok(None)`. One
/// does: that one. Several do: `AmbiguousIdentifier`, with the identifiers of
/// all of them.
pub fn find_compose_by_name<'a>(projects: &'a Vec<Project>, compose_name: &str) -> (r: Result<
    Option<&'a Compose>,
    LookupError,
>)
    ensures
        match looked_up(named(project_composes(projects@), compose_name@)) {
            Ok(None) => r == Ok::<Option<&Compose>, LookupError>(None),
            Ok(Some(c)) => r matches Ok(Some(found)) && *found == c,
            Err(ids) => r matches Err(LookupError::AmbiguousIdentifier { compose_ids })
                && texts(compose_ids@) == ids,
        },
{
    let matching = composes_named(projects, compose_name);
    if matching.len() == 0 {
        Ok(None)
    } else if matching.len() == 1 {
        Ok(Some(matching[0]))
    } else {
        let mut compose_ids: Vec<String> = Vec::new();
        let mut i: usize = 0;
        while i < matching.len()
            invariant
                i <= matching.len(),
                texts(compose_ids@) == ids_of(pointees(matching@)).take(i as int),
            decreases matching.len() - i,
        {
            let ghost before = compose_ids@;
            compose_ids.push(crate::text::copy_text(matching[i].compose_id.as_str()));
            assert(texts(compose_ids@) =~= texts(before).push(matching@[i as int].compose_id@));
            i += 1;
        }
        Err(LookupError::AmbiguousIdentifier { compose_ids })
    }
}

/// Whether a compose resource is a preview of the environment: it is
/// deployed in it and its application name begins with the prefix.
pub open spec fn is_preview_of(compose: Compose, environment_id: Seq<char>, prefix: Seq<char>) -> bool {
    compose.environment_id@ == environment_id && prefix.is_prefix_of(compose.app_name@)
}

/// The previews of the environment among `composes`.
pub open spec fn previews_of(
    composes: Seq<Compose>,
    environment_id: Seq<char>,
    prefix: Seq<char>,
) -> Seq<Compose>
    decreases composes.len(),
{
    if composes.len() == 0 {
        Seq::empty()
    } else if is_preview_of(composes.last(), environment_id, prefix) {
        previews_of(composes.drop_last(), environment_id, prefix).push(composes.last())
    } else {
        previews_of(composes.drop_last(), environment_id, prefix)
    }
}

/// The previews of the environment, in the order listed.
pub fn list_composes_with_prefix<'a>(
    projects: &'a Vec<Project>,
    environment_id: &str,
    prefix: &str,
) -> (r: Vec<&'a Compose>)
    ensures
        pointees(r@) == previews_of(project_composes(projects@), environment_id@, prefix@),
{
    let all = all_composes(projects);
    let wanted = chars_of(prefix);
    let mut r: Vec<&Compose> = Vec::new();
    let mut i: usize = 0;
    while i < all.len()
        invariant
            i <= all.len(),
            wanted@ == prefix@,
            pointees(r@) == previews_of(pointees(all@).take(i as int), environment_id@, prefix@),
        decreases all.len() - i,
    {
        assert(pointees(all@).take(i + 1).drop_last() =~= pointees(all@).take(i as int));
        let c = all[i];
        if same_text(c.environment_id.as_str(), environment_id) && starts_with(
            &chars_of(c.app_name.as_str()),
            &wanted,
        ) {
            r.push(c);
            assert(pointees(r@) =~= previews_of(
                pointees(all@).take(i as int),
                environment_id@,
                prefix@,
            ).push(*all@[i as int]));
        }
        i += 1;
    }
    assert(pointees(all@).take(i as int) =~= pointees(all@));
    r
}

/// `composes` without those whose identifier is `exclude`.
pub open spec fn without_id(composes: Seq<Compose>, exclude: Seq<char>) -> Seq<Compose>
    decreases composes.len(),
{
    if composes.len() == 0 {
        Seq::empty()
    } else if composes.last().compose_id@ != exclude {
        without_id(composes.drop_last(), exclude).push(composes.last())
    } else {
        without_id(composes.drop_last(), exclude)
    }
}

/// Drops the compose resources whose identifier is `exclude`.
pub fn retain_others<'a>(composes: &Vec<&'a Compose>, exclude: &str) -> (r: Vec<&'a Compose>)
    ensures
        pointees(r@) == without_id(pointees(composes@), exclude@),
{
    let mut r: Vec<&Compose> = Vec::new();
    let mut i: usize = 0;
    while i < composes.len()
        invariant
            i <= composes.len(),
            pointees(r@) == without_id(pointees(composes@).take(i as int), exclude@),
        decreases composes.len() - i,
    {
        assert(pointees(composes@).take(i + 1).drop_last() =~= pointees(composes@).take(i as int));
        if !same_text(composes[i].compose_id.as_str(), exclude) {
            r.push(composes[i]);
            assert(pointees(r@) =~= without_id(pointees(composes@).take(i as int), exclude@).push(
                *composes@[i as int],
            ));
        }
        i += 1;
    }
    assert(pointees(composes@).take(i as int) =~= pointees(composes@));
    r
}

} // verus!
