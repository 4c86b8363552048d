//! The aggregate load state and the readiness predicate derived from it.

use vstd::prelude::*;

verus! {

/// Load state of a single asset (with its dependencies), and of the
/// aggregate over all requested font assets.
#[derive(Clone, Copy, Debug, PartialEq, Eq, Structural)]
pub enum LoadState {
    NotLoaded,
    Loading,
    Loaded,
    Failed,
}

/// The shared aggregate state cell: created once at startup (initially
/// `NotLoaded`), rewritten only by the per-tick aggregation routine, and
/// read by any host system through `font_assets_loaded`.
#[derive(Clone, Copy, Debug, PartialEq, Eq, Structural)]
pub struct FontLoadState(pub LoadState);

impl Default for FontLoadState {
    /// The aggregate starts out `NotLoaded`.
    fn default() -> (r: Self)
        ensures
            r.0 == LoadState::NotLoaded,
    {
        FontLoadState(LoadState::NotLoaded)
    }
}

/// The readiness gate: true exactly when the aggregate state is `Loaded`,
/// and false for each of `NotLoaded`, `Loading` and `Failed`.
pub fn font_assets_loaded(font_load_state: &FontLoadState) -> (r: bool)
    ensures
        r <==> font_load_state.0 == LoadState::Loaded,
{
    font_load_state.0 == LoadState::Loaded
}

/// The scheduling guard for the aggregation routine: the host runs the
/// aggregator on a tick only while this returns true, so once the aggregate
/// reaches `Loaded` no further store queries are made.
pub fn aggregator_should_run(font_load_state: &FontLoadState) -> (r: bool)
    ensures
        r <==> font_load_state.0 != LoadState::Loaded,
{
    !(font_load_state.0 == LoadState::Loaded)
}

} // verus!
