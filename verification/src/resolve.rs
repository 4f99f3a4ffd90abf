//! Target resolution: from the catalog of discovered targets to the one
//! target that a request means, or to the error that tells the caller how to
//! correct the request.

use vstd::prelude::*;
use vstd::string::*;
use crate::config::{LaunchConfigTrait, LaunchSettings};
use crate::error::{Error, ErrorDetails, ErrorDetailsView, ErrorView};
use crate::target::{BevyTarget, BevyTargetView, TargetType};
use crate::text::{owned_optional_str, str_equal};

verus! {

/// Whether a target has the requested name and, where a kind is asked for,
/// that kind.
pub open spec fn matches_request(
    target: BevyTargetView,
    name: Seq<char>,
    kind: Option<TargetType>,
) -> bool {
    target.name == name && match kind {
        Some(k) => target.target_type == k,
        None => true,
    }
}

/// The targets of a catalog that match a request, in catalog order.
pub open spec fn matching_targets(
    catalog: Seq<BevyTargetView>,
    name: Seq<char>,
    kind: Option<TargetType>,
) -> Seq<BevyTargetView> {
    catalog.filter(|t: BevyTargetView| matches_request(t, name, kind))
}

/// The relative paths of a list of targets, in order.
pub open spec fn relative_paths(targets: Seq<BevyTargetView>) -> Seq<Seq<char>> {
    Seq::new(targets.len(), |i: int| targets[i].relative_path)
}

/// The paths to report beside a launch: those of the candidates where there
/// is more than one, nothing otherwise.
pub open spec fn duplicate_paths(candidates: Seq<BevyTargetView>) -> Option<Seq<Seq<char>>> {
    if candidates.len() > 1 {
        Some(relative_paths(candidates))
    } else {
        None
    }
}

/// The first candidate whose relative path is exactly `path`.
pub open spec fn first_at_path(candidates: Seq<BevyTargetView>, path: Seq<char>) -> Option<
    BevyTargetView,
>
    decreases candidates.len(),
{
    if candidates.len() == 0 {
        None
    } else if candidates[0].relative_path == path {
        Some(candidates[0])
    } else {
        first_at_path(candidates.drop_first(), path)
    }
}

/// The candidate that a request selects: with a path hint the first
/// candidate at exactly that path, without one the only candidate.
pub open spec fn selected_target(
    candidates: Seq<BevyTargetView>,
    path_hint: Option<Seq<char>>,
) -> Option<BevyTargetView> {
    match path_hint {
        Some(path) => first_at_path(candidates, path),
        None => if candidates.len() == 1 {
            Some(candidates[0])
        } else {
            None
        },
    }
}

/// The outcome of resolution among the candidates for a name and kind.
pub open spec fn resolution(
    candidates: Seq<BevyTargetView>,
    name: Seq<char>,
    kind: TargetType,
    path_hint: Option<Seq<char>>,
) -> Result<BevyTargetView, ErrorView> {
    match selected_target(candidates, path_hint) {
        Some(target) => Ok(target),
        None => if candidates.len() > 1 {
            Err(
                ErrorView::PathDisambiguation {
                    available_paths: relative_paths(candidates),
                    target_name: name,
                    target_type: kind,
                },
            )
        } else if candidates.len() == 0 {
            Err(ErrorView::NoTargetsFound { target_name: name, target_type: kind })
        } else {
            Err(
                ErrorView::TargetNotFoundAtSpecifiedPath {
                    target_name: name,
                    target_type: kind,
                    searched_path: path_hint,
                    available_paths: relative_paths(candidates),
                },
            )
        },
    }
}

/// Collects the targets of the catalog that have the given name and, where
/// a kind is given, that kind.
pub fn find_all_targets_by_name<'a>(
    target_name: &str,
    target_type: Option<TargetType>,
    catalog: &'a Vec<BevyTarget>,
) -> (r: Vec<&'a BevyTarget>)
    ensures
        r.deep_view() == matching_targets(catalog.deep_view(), target_name@, target_type),
{
    let ghost pred = |t: BevyTargetView| matches_request(t, target_name@, target_type);
    let mut found: Vec<&'a BevyTarget> = Vec::new();
    let mut i: usize = 0;
    proof {
        reveal(Seq::filter);
        assert(catalog.deep_view().take(0) =~= Seq::empty());
        assert(found.deep_view() =~= Seq::empty());
    }
    while i < catalog.len()
        invariant
            i <= catalog.len(),
            pred == |t: BevyTargetView| matches_request(t, target_name@, target_type),
            found.deep_view() == catalog.deep_view().take(i as int).filter(pred),
        decreases catalog.len() - i,
    {
        let target = &catalog[i];
        let kind_matches = match target_type {
            Some(k) => target.target_type == k,
            None => true,
        };
        let ghost before = found.deep_view();
        proof {
            let head = catalog.deep_view().take(i as int);
            head.lemma_filter_push(target@, pred);
            assert(head.push(target@) =~= catalog.deep_view().take(i + 1));
        }
        if kind_matches && str_equal(target.name.as_str(), target_name) {
            found.push(target);
            assert(found.deep_view() =~= before.push(target@));
        }
        i += 1;
    }
    assert(catalog.deep_view().take(catalog.len() as int) =~= catalog.deep_view());
    found
}

/// The relative paths of the candidates, in order.
pub fn candidate_paths(candidates: &Vec<&BevyTarget>) -> (r: Vec<String>)
    ensures
        r.deep_view() == relative_paths(candidates.deep_view()),
{
    let mut paths: Vec<String> = Vec::new();
    let mut i: usize = 0;
    while i < candidates.len()
        invariant
            i <= candidates.len(),
            paths.deep_view() == relative_paths(candidates.deep_view()).take(i as int),
        decreases candidates.len() - i,
    {
        let ghost before = paths.deep_view();
        paths.push(candidates[i].relative_path.clone());
        assert(paths.deep_view() =~= before.push(candidates@[i as int].relative_path@));
        assert(paths.deep_view() =~= relative_paths(candidates.deep_view()).take(i + 1));
        i += 1;
    }
    assert(relative_paths(candidates.deep_view()).take(candidates.len() as int)
        =~= relative_paths(candidates.deep_view()));
    paths
}

/// The paths to report beside a launch: those of the candidates where there
/// is more than one.
pub fn duplicate_paths_of(candidates: &Vec<&BevyTarget>) -> (r: Option<Vec<String>>)
    ensures
        r.deep_view() == duplicate_paths(candidates.deep_view()),
{
    if candidates.len() > 1 {
        Some(candidate_paths(candidates))
    } else {
        None
    }
}

/// Picks the candidate that the request selects, if it selects one.
pub fn find_required_target_with_path<'a>(
    path_hint: Option<&str>,
    candidates: &Vec<&'a BevyTarget>,
) -> (r: Option<&'a BevyTarget>)
    ensures
        r.deep_view() == selected_target(candidates.deep_view(), path_hint.deep_view()),
{
    match path_hint {
        Some(path) => {
            let ghost all = candidates.deep_view();
            let mut i: usize = 0;
            assert(all.skip(0) =~= all);
            while i < candidates.len()
                invariant
                    i <= candidates.len(),
                    all == candidates.deep_view(),
                    path_hint == Some(path),
                    first_at_path(all, path@) == first_at_path(all.skip(i as int), path@),
                decreases candidates.len() - i,
            {
                let candidate: &'a BevyTarget = candidates[i];
                assert(all.skip(i as int)[0] == candidate@);
                if str_equal(candidate.relative_path.as_str(), path) {
                    assert(first_at_path(all.skip(i as int), path@) == Some(candidate@));
                    assert(path_hint.deep_view() == Some(path@));
                    return Some(candidate);
                }
                assert(all.skip(i as int).drop_first() =~= all.skip(i + 1));
                i += 1;
            }
            None
        },
        None => {
            if candidates.len() == 1 {
                Some(candidates[0])
            } else {
                None
            }
        },
    }
}

/// The candidates of a request in a catalog: the targets of its name and
/// kind.
pub open spec fn candidates_of<T: LaunchConfigTrait>(
    settings: LaunchSettings,
    catalog: Seq<BevyTargetView>,
) -> Seq<BevyTargetView> {
    matching_targets(catalog, settings.target_name, Some(T::spec_target_type()))
}

/// The outcome of resolution for a request in a catalog.
pub open spec fn resolved_target<T: LaunchConfigTrait>(
    settings: LaunchSettings,
    catalog: Seq<BevyTargetView>,
) -> Result<BevyTargetView, ErrorView> {
    resolution(
        candidates_of::<T>(settings, catalog),
        settings.target_name,
        T::spec_target_type(),
        settings.path,
    )
}

/// Picks the target that a configuration means among the candidates for
/// its name and kind, or says why none can be picked.
pub fn select_target<T: LaunchConfigTrait>(config: &T, candidates: &Vec<&BevyTarget>) -> (r:
    Result<BevyTarget, Error>)
    ensures
        match r {
            Ok(target) => resolution(
                candidates.deep_view(),
                config.settings().target_name,
                T::spec_target_type(),
                config.settings().path,
            ) == Ok::<BevyTargetView, ErrorView>(target@),
            Err(e) => resolution(
                candidates.deep_view(),
                config.settings().target_name,
                T::spec_target_type(),
                config.settings().path,
            ) == Err::<BevyTargetView, ErrorView>(e@),
        },
{
    let target_type = T::target_type();
    let duplicates = duplicate_paths_of(candidates);
    match find_required_target_with_path(config.path(), candidates) {
        Some(target) => Ok(target.clone()),
        None => {
            if let Some(available_paths) = duplicates {
                return Err(
                    Error::PathDisambiguation {
                        available_paths,
                        target_name: String::from_str(config.target_name()),
                        target_type,
                    },
                );
            }
            if candidates.len() == 0 {
                Err(
                    Error::NoTargetsFound {
                        target_name: String::from_str(config.target_name()),
                        target_type,
                    },
                )
            } else {
                Err(
                    Error::TargetNotFoundAtSpecifiedPath {
                        target_name: String::from_str(config.target_name()),
                        target_type,
                        searched_path: owned_optional_str(config.path()),
                        available_paths: candidate_paths(candidates),
                    },
                )
            }
        },
    }
}

/// Finds the target that a configuration means. All targets of the name and
/// kind are collected first; then the path hint, or the lack of one, picks
/// among them.
pub fn find_and_validate_target<T: LaunchConfigTrait>(config: &T, catalog: &Vec<BevyTarget>) -> (r:
    Result<BevyTarget, Error>)
    ensures
        match r {
            Ok(target) => resolved_target::<T>(config.settings(), catalog.deep_view()) == Ok::<
                BevyTargetView,
                ErrorView,
            >(target@),
            Err(e) => resolved_target::<T>(config.settings(), catalog.deep_view()) == Err::<
                BevyTargetView,
                ErrorView,
            >(e@),
        },
{
    let all_targets = find_all_targets_by_name(
        config.target_name(),
        Some(T::target_type()),
        catalog,
    );
    select_target(config, &all_targets)
}

/// The context of a failed launch request.
pub open spec fn error_details<T: LaunchConfigTrait>(
    settings: LaunchSettings,
    duplicates: Option<Seq<Seq<char>>>,
) -> ErrorDetailsView {
    ErrorDetailsView::Launch {
        target_name: settings.target_name,
        target_type: T::spec_target_type(),
        profile: settings.profile,
        path: settings.path,
        port: settings.port.0,
        duplicate_paths: duplicates,
    }
}

/// Gathers the context of a failed launch request.
pub fn create_error_details<T: LaunchConfigTrait>(
    config: &T,
    duplicate_paths: Option<Vec<String>>,
) -> (r: ErrorDetails)
    ensures
        r@ == error_details::<T>(config.settings(), duplicate_paths.deep_view()),
{
    ErrorDetails::Launch {
        target_name: String::from_str(config.target_name()),
        target_type: T::target_type(),
        profile: String::from_str(config.profile()),
        path: owned_optional_str(config.path()),
        port: config.port().0,
        duplicate_paths,
    }
}

/// What becomes of an error of target discovery: a resolution error stays as
/// it is; any other error becomes a generic failure with the message of the
/// error, and with that message and the chain of the error as its details.
pub open spec fn discovery_error(error: ErrorView) -> ErrorView {
    if error.is_structured() {
        error
    } else {
        ErrorView::ToolCall {
            message: error.message(),
            details: Some(
                ErrorDetailsView::Cause { error: error.message(), error_chain: error.chain() },
            ),
        }
    }
}

/// Hands a resolution error on unchanged and wraps any other error.
pub fn handle_target_discovery_error(error: Error) -> (r: Error)
    ensures
        r@ == discovery_error(error@),
{
    if error.is_structured() {
        return error;
    }
    let message = error.message();
    let details = ErrorDetails::Cause { error: message.clone(), error_chain: error.chain() };
    Error::tool_call_failed_with_details(message, details)
}

/// The candidates for a name and kind are the targets of the catalog that
/// have the name and the kind: every candidate is such a target of the
/// catalog, and every such target of the catalog is a candidate.
pub proof fn lemma_candidates_are_the_matching_targets(
    catalog: Seq<BevyTargetView>,
    name: Seq<char>,
    kind: Option<TargetType>,
)
    ensures
        forall|t: BevyTargetView| #[trigger]
            matching_targets(catalog, name, kind).contains(t) <==> catalog.contains(t)
                && matches_request(t, name, kind),
{
    let pred = |t: BevyTargetView| matches_request(t, name, kind);
    let found = matching_targets(catalog, name, kind);
    assert forall|t: BevyTargetView| #[trigger] found.contains(t) implies catalog.contains(t)
        && matches_request(t, name, kind) by {
        catalog.lemma_filter_contains_rev(pred, t);
        let i = choose|i: int| 0 <= i < found.len() && found[i] == t;
        catalog.lemma_filter_pred(pred, i);
    }
    assert forall|t: BevyTargetView| catalog.contains(t) && matches_request(t, name, kind) implies
        #[trigger] found.contains(t) by {
        let i = choose|i: int| 0 <= i < catalog.len() && catalog[i] == t;
        catalog.lemma_filter_contains(pred, i);
    }
}

/// With no candidate, resolution reports that no target was found, whatever
/// the hint.
pub proof fn lemma_no_candidates(name: Seq<char>, kind: TargetType, path_hint: Option<Seq<char>>)
    ensures
        resolution(Seq::empty(), name, kind, path_hint) == Err::<BevyTargetView, ErrorView>(
            ErrorView::NoTargetsFound { target_name: name, target_type: kind },
        ),
{
}

/// A request whose name and kind no target of the catalog has finds no
/// target, whatever its hint.
pub proof fn lemma_unmatched_request_finds_nothing<T: LaunchConfigTrait>(
    settings: LaunchSettings,
    catalog: Seq<BevyTargetView>,
)
    requires
        forall|i: int|
            0 <= i < catalog.len() ==> !matches_request(
                #[trigger] catalog[i],
                settings.target_name,
                Some(T::spec_target_type()),
            ),
    ensures
        resolved_target::<T>(settings, catalog) == Err::<BevyTargetView, ErrorView>(
            ErrorView::NoTargetsFound {
                target_name: settings.target_name,
                target_type: T::spec_target_type(),
            },
        ),
{
    let pred = |t: BevyTargetView|
        matches_request(t, settings.target_name, Some(T::spec_target_type()));
    catalog.lemma_all_neg_filter_empty(pred);
    assert(candidates_of::<T>(settings, catalog) =~= Seq::empty());
}

/// With exactly one candidate and a hint that is not its path, resolution
/// reports that the target is not at the path, and lists the one path.
pub proof fn lemma_single_candidate_elsewhere(
    candidate: BevyTargetView,
    name: Seq<char>,
    kind: TargetType,
    hint: Seq<char>,
)
    requires
        candidate.relative_path != hint,
    ensures
        resolution(seq![candidate], name, kind, Some(hint)) == Err::<BevyTargetView, ErrorView>(
            ErrorView::TargetNotFoundAtSpecifiedPath {
                target_name: name,
                target_type: kind,
                searched_path: Some(hint),
                available_paths: seq![candidate.relative_path],
            },
        ),
{
    let candidates = seq![candidate];
    assert(candidates.drop_first() =~= Seq::empty());
    assert(first_at_path(candidates.drop_first(), hint) is None);
    assert(relative_paths(candidates) =~= seq![candidate.relative_path]);
}

/// With exactly one candidate, resolution succeeds where no hint is given
/// and where the hint is the candidate's path.
pub proof fn lemma_single_candidate_resolves(
    candidate: BevyTargetView,
    name: Seq<char>,
    kind: TargetType,
    path_hint: Option<Seq<char>>,
)
    requires
        path_hint matches Some(hint) ==> candidate.relative_path == hint,
    ensures
        resolution(seq![candidate], name, kind, path_hint) == Ok::<BevyTargetView, ErrorView>(
            candidate,
        ),
{
}

/// No candidate at a path means that no candidate has that path.
pub proof fn lemma_first_at_path_none(candidates: Seq<BevyTargetView>, path: Seq<char>)
    ensures
        first_at_path(candidates, path) is None <==> forall|i: int|
            0 <= i < candidates.len() ==> (#[trigger] candidates[i]).relative_path != path,
        first_at_path(candidates, path) matches Some(t) ==> t.relative_path == path
            && candidates.contains(t),
    decreases candidates.len(),
{
    if candidates.len() > 0 {
        let rest = candidates.drop_first();
        lemma_first_at_path_none(rest, path);
        if candidates[0].relative_path != path {
            assert forall|i: int| 0 <= i < rest.len() implies rest[i] == candidates[i + 1] by {}
            if first_at_path(rest, path) is None {
                assert forall|i: int| 0 <= i < candidates.len() implies (
                #[trigger] candidates[i]).relative_path != path by {
                    if i > 0 {
                        assert(rest[i - 1] == candidates[i]);
                    }
                }
            } else {
                let t = first_at_path(rest, path)->0;
                let j = choose|j: int| 0 <= j < rest.len() && rest[j] == t;
                assert(candidates[j + 1] == t);
            }
        } else {
            assert(candidates[0] == first_at_path(candidates, path)->0);
        }
    }
}

/// With two or more candidates and no hint, or a hint that is the path of
/// none of them, resolution asks for disambiguation and lists the paths of
/// all candidates.
pub proof fn lemma_several_candidates_unresolved(
    candidates: Seq<BevyTargetView>,
    name: Seq<char>,
    kind: TargetType,
    path_hint: Option<Seq<char>>,
)
    requires
        candidates.len() >= 2,
        path_hint matches Some(hint) ==> forall|i: int|
            0 <= i < candidates.len() ==> (#[trigger] candidates[i]).relative_path != hint,
    ensures
        resolution(candidates, name, kind, path_hint) == Err::<BevyTargetView, ErrorView>(
            ErrorView::PathDisambiguation {
                available_paths: relative_paths(candidates),
                target_name: name,
                target_type: kind,
            },
        ),
        relative_paths(candidates).len() == candidates.len(),
{
    if let Some(hint) = path_hint {
        lemma_first_at_path_none(candidates, hint);
    }
}

/// Resolution either picks one of the candidates or fails with one of the
/// three resolution errors.
pub proof fn lemma_resolution_outcomes(
    candidates: Seq<BevyTargetView>,
    name: Seq<char>,
    kind: TargetType,
    path_hint: Option<Seq<char>>,
)
    ensures
        match resolution(candidates, name, kind, path_hint) {
            Ok(target) => candidates.contains(target),
            Err(e) => e.is_structured(),
        },
{
    if let Some(hint) = path_hint {
        lemma_first_at_path_none(candidates, hint);
    } else if candidates.len() == 1 {
        assert(candidates[0] == candidates[0]);
    }
}

} // verus!
