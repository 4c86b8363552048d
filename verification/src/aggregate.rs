//! Per-tick aggregation: folds the store's per-handle load states into
//! the single aggregate state.

use vstd::prelude::*;
use crate::dispatch::HandleSet;
use crate::dispatch::HandleSetView;
use crate::dispatch::spec_load_fonts;
use crate::state::FontLoadState;
use crate::state::LoadState;

verus! {

/// A handle no longer blocks the aggregate once its own load has finished,
/// successfully or not: per-file failures are absorbed (after a warning),
/// not propagated.
pub open spec fn handle_satisfied(s: LoadState) -> bool {
    s == LoadState::Loaded || s == LoadState::Failed
}

pub open spec fn all_satisfied(states: Seq<LoadState>) -> bool {
    forall|i: int| 0 <= i < states.len() ==> handle_satisfied(states[i])
}

/// Aggregate for the per-file branch: `Loaded` once no handle is still
/// pending, `NotLoaded` otherwise. This branch never yields `Loading` (it
/// does not track partial progress) and never yields `Failed`.
pub open spec fn spec_aggregate_files(states: Seq<LoadState>) -> LoadState {
    if all_satisfied(states) {
        LoadState::Loaded
    } else {
        LoadState::NotLoaded
    }
}

/// One aggregation step, given the store's current answer for each
/// handle: the folder branch copies the store's recursive dependency
/// state through unchanged; the file branch folds the individual states.
pub open spec fn spec_update(handles: HandleSetView, states: Seq<LoadState>) -> LoadState
    recommends
        handles is Folder ==> states.len() == 1,
{
    match handles {
        HandleSetView::Folder(_) => states[0],
        HandleSetView::Files(_) => spec_aggregate_files(states),
    }
}

/// The paths (among the first `n`) whose own load failed, in handle
/// order: each is reported once as a warning, then counted as satisfied.
pub open spec fn spec_failed_prefix(
    paths: Seq<Seq<char>>,
    states: Seq<LoadState>,
    n: int,
) -> Seq<Seq<char>>
    decreases n,
{
    if n <= 0 {
        Seq::empty()
    } else {
        let rest = spec_failed_prefix(paths, states, n - 1);
        if states[n - 1] == LoadState::Failed {
            rest.push(paths[n - 1])
        } else {
            rest
        }
    }
}

/// The warnings one aggregation step emits: the failed file paths in the
/// file branch, nothing in the folder branch.
pub open spec fn spec_warnings(handles: HandleSetView, states: Seq<LoadState>) -> Seq<Seq<char>> {
    match handles {
        HandleSetView::Folder(_) => Seq::empty(),
        HandleSetView::Files(ps) => spec_failed_prefix(ps, states, ps.len() as int),
    }
}

/// One run of the aggregation routine (one tick). `states` holds the
/// store's current answer for each handle, in handle order: for the
/// folder branch its one entry is the store's recursive dependency state
/// of the folder handle; for the file branch entry `i` is the state of
/// file handle `i`. Returns the paths of the failed files, for the host
/// to log as warnings.
pub fn update_font_assets_load_state(
    font_load_state: &mut FontLoadState,
    handles: &HandleSet,
    states: &Vec<LoadState>,
) -> (warnings: Vec<String>)
    requires
        handles@ matches HandleSetView::Folder(_) ==> states@.len() == 1,
        handles@ matches HandleSetView::Files(ps) ==> states@.len() == ps.len(),
    ensures
        final(font_load_state).0 == spec_update(handles@, states@),
        warnings.deep_view() == spec_warnings(handles@, states@),
{
    match handles {
        HandleSet::Folder(_) => {
            font_load_state.0 = states[0];
            let warnings: Vec<String> = Vec::new();
            proof {
                assert(warnings.deep_view() =~~= spec_warnings(handles@, states@));
            }
            warnings
        },
        HandleSet::Files(ps) => {
            let mut warnings: Vec<String> = Vec::new();
            let mut all_loaded: bool = true;
            let mut i: usize = 0;
            while i < ps.len()
                invariant
                    i <= ps@.len(),
                    states@.len() == ps@.len(),
                    all_loaded <==> (forall|j: int| 0 <= j < i ==> handle_satisfied(states@[j])),
                    warnings.deep_view() == spec_failed_prefix(ps.deep_view(), states@, i as int),
                decreases ps@.len() - i,
            {
                let s = states[i];
                if s == LoadState::Failed {
                    warnings.push(ps[i].clone());
                } else if !(s == LoadState::Loaded) {
                    all_loaded = false;
                }
                proof {
                    assert(warnings.deep_view() =~~= spec_failed_prefix(
                        ps.deep_view(),
                        states@,
                        i + 1,
                    ));
                }
                i = i + 1;
            }
            font_load_state.0 = if all_loaded {
                LoadState::Loaded
            } else {
                LoadState::NotLoaded
            };
            proof {
                assert(warnings.deep_view() =~~= spec_warnings(handles@, states@));
            }
            warnings
        },
    }
}

/// A run of the tick loop: starting from `state`, apply one aggregation
/// step per tick (entry `t` of `reports` gives the store's answers on
/// tick `t`), except that a `Loaded` aggregate is never ticked again —
/// the host scheduler gates the aggregator off at that point.
pub open spec fn spec_run(
    handles: HandleSetView,
    state: LoadState,
    reports: Seq<Seq<LoadState>>,
) -> LoadState
    decreases reports.len(),
{
    if reports.len() == 0 || state == LoadState::Loaded {
        state
    } else {
        spec_run(handles, spec_update(handles, reports.first()), reports.drop_first())
    }
}

/// Law: with the empty explicit list — supplied as such, or defaulted on
/// a restricted target with no list — dispatch yields no file handles at
/// all, and the very first aggregation tick (over no per-handle states)
/// already reaches `Loaded`: satisfaction over an empty collection is
/// vacuous.
pub proof fn lemma_empty_list_first_tick(dir: Seq<char>, restricted: bool)
    ensures
        spec_load_fonts(dir, Some(Seq::empty()), restricted) matches HandleSetView::Files(ps)
            && ps.len() == 0,
        spec_update(spec_load_fonts(dir, Some(Seq::empty()), restricted), Seq::empty())
            == LoadState::Loaded,
        spec_update(spec_load_fonts(dir, None, true), Seq::empty()) == LoadState::Loaded,
{
}

/// Law: in the per-file branch failures are absorbed — even if every
/// handle's individual state is `Failed`, the aggregate still becomes
/// `Loaded`, never `Failed`.
pub proof fn lemma_failures_absorbed(paths: Seq<Seq<char>>, states: Seq<LoadState>)
    requires
        forall|i: int| 0 <= i < states.len() ==> states[i] == LoadState::Failed,
    ensures
        spec_update(HandleSetView::Files(paths), states) == LoadState::Loaded,
{
    assert forall|i: int| 0 <= i < states.len() implies handle_satisfied(states[i]) by {
        assert(states[i] == LoadState::Failed);
    }
}

/// Law: in the folder branch the store's `Failed` state passes through
/// and is terminal — from any not-yet-`Loaded` aggregate, while the store
/// keeps reporting `Failed`, the aggregate is `Failed` after every later
/// tick. (A `Loaded` aggregate is excluded because the scheduler never
/// ticks it again.)
pub proof fn lemma_folder_failed_terminal(
    dir: Seq<char>,
    state: LoadState,
    reports: Seq<Seq<LoadState>>,
)
    requires
        state != LoadState::Loaded,
        reports.len() > 0,
        forall|t: int| 0 <= t < reports.len() ==> (#[trigger] reports[t]).len() == 1
            && reports[t][0] == LoadState::Failed,
    ensures
        spec_run(HandleSetView::Folder(dir), state, reports) == LoadState::Failed,
    decreases reports.len(),
{
    let next = spec_update(HandleSetView::Folder(dir), reports.first());
    assert(next == LoadState::Failed);
    if reports.len() > 1 {
        assert forall|t: int| 0 <= t < reports.drop_first().len() implies (#[trigger] reports
            .drop_first()[t]).len() == 1 && reports.drop_first()[t][0] == LoadState::Failed by {
            assert(reports.drop_first()[t] == reports[t + 1]);
        }
        lemma_folder_failed_terminal(dir, next, reports.drop_first());
    }
}

/// Law: `Loaded` is terminal — once the aggregate is `Loaded`, the
/// scheduler gates the aggregator off, so no number of further ticks
/// changes the state (and no further store queries are performed).
pub proof fn lemma_loaded_is_terminal(handles: HandleSetView, reports: Seq<Seq<LoadState>>)
    ensures
        spec_run(handles, LoadState::Loaded, reports) == LoadState::Loaded,
{
}

} // verus!
