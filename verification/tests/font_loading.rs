use trve_font::aggregate::update_font_assets_load_state;
use trve_font::config::setup_resources;
use trve_font::config::FontAssetFolder;
use trve_font::config::FontAssetList;
use trve_font::dispatch::load_fonts;
use trve_font::dispatch::HandleSet;
use trve_font::state::aggregator_should_run;
use trve_font::state::font_assets_loaded;
use trve_font::state::FontLoadState;
use trve_font::state::LoadState;

#[test]
fn default_folder_is_fonts() {
    let folder = FontAssetFolder::default();
    assert_eq!(folder.path(), "fonts");
}

#[test]
fn setup_keeps_supplied_configuration() {
    let folder = FontAssetFolder::new(String::from("ui/fonts"));
    let list = FontAssetList::new(vec![String::from("a.ttf")]);
    let (folder, list) = setup_resources(Some(folder), Some(list), false);
    assert_eq!(folder.path(), "ui/fonts");
    let list = list.expect("the supplied list must be kept");
    assert_eq!(list.len(), 1);
    assert_eq!(list.get(0), "a.ttf");
}

#[test]
fn setup_defaults_folder_when_absent() {
    let (folder, list) = setup_resources(None, None, false);
    assert_eq!(folder.path(), "fonts");
    assert!(list.is_none());
}

#[test]
fn setup_defaults_list_to_empty_on_restricted_target() {
    let (_, list) = setup_resources(None, None, true);
    let list = list.expect("a restricted target must get a list");
    assert_eq!(list.len(), 0);
}

#[test]
fn dispatch_without_list_unrestricted_is_one_folder_handle() {
    let folder = FontAssetFolder::default();
    match load_fonts(&folder, None, false) {
        HandleSet::Folder(path) => assert_eq!(path, "fonts"),
        HandleSet::Files(_) => panic!("expected the bulk-directory strategy"),
    }
}

#[test]
fn dispatch_with_list_is_one_handle_per_entry_in_order() {
    let folder = FontAssetFolder::default();
    let list = FontAssetList::new(vec![
        String::from("font1.ttf"),
        String::from("font2.ttf"),
        String::from("font3.ttf"),
    ]);
    match load_fonts(&folder, Some(&list), false) {
        HandleSet::Files(paths) => {
            assert_eq!(paths, vec!["fonts/font1.ttf", "fonts/font2.ttf", "fonts/font3.ttf"]);
        }
        HandleSet::Folder(_) => panic!("expected the per-file strategy"),
    }
}

#[test]
fn dispatch_with_list_uses_configured_directory() {
    let folder = FontAssetFolder::new(String::from("ui/fonts"));
    let list = FontAssetList::new(vec![String::from("a.ttf")]);
    match load_fonts(&folder, Some(&list), true) {
        HandleSet::Files(paths) => assert_eq!(paths, vec!["ui/fonts/a.ttf"]),
        HandleSet::Folder(_) => panic!("expected the per-file strategy"),
    }
}

#[test]
fn dispatch_without_list_on_restricted_target_requests_nothing() {
    let folder = FontAssetFolder::default();
    match load_fonts(&folder, None, true) {
        HandleSet::Files(paths) => assert!(paths.is_empty()),
        HandleSet::Folder(_) => panic!("a restricted target cannot bulk-load a directory"),
    }
}

#[test]
fn empty_list_reaches_loaded_on_first_tick() {
    let folder = FontAssetFolder::default();
    let list = FontAssetList::new(Vec::new());
    let handles = load_fonts(&folder, Some(&list), false);
    let mut state = FontLoadState::default();
    assert_eq!(state, FontLoadState(LoadState::NotLoaded));
    let states: Vec<LoadState> = Vec::new();
    let warnings = update_font_assets_load_state(&mut state, &handles, &states);
    assert_eq!(state, FontLoadState(LoadState::Loaded));
    assert!(warnings.is_empty());
    assert!(font_assets_loaded(&state));
}

#[test]
fn all_failed_files_still_reach_loaded() {
    let folder = FontAssetFolder::default();
    let list = FontAssetList::new(vec![String::from("a.ttf"), String::from("b.ttf")]);
    let handles = load_fonts(&folder, Some(&list), false);
    let mut state = FontLoadState::default();
    let warnings = update_font_assets_load_state(
        &mut state,
        &handles,
        &vec![LoadState::Failed, LoadState::Failed],
    );
    assert_eq!(state, FontLoadState(LoadState::Loaded));
    assert_eq!(warnings, vec!["fonts/a.ttf", "fonts/b.ttf"]);
}

#[test]
fn pending_file_keeps_aggregate_not_loaded() {
    let folder = FontAssetFolder::default();
    let list = FontAssetList::new(vec![String::from("a.ttf"), String::from("b.ttf")]);
    let handles = load_fonts(&folder, Some(&list), false);
    let mut state = FontLoadState::default();
    let warnings = update_font_assets_load_state(
        &mut state,
        &handles,
        &vec![LoadState::Loaded, LoadState::Loading],
    );
    // the file branch reports no partial progress: NotLoaded, not Loading
    assert_eq!(state, FontLoadState(LoadState::NotLoaded));
    assert!(warnings.is_empty());
}

#[test]
fn folder_failure_passes_through_and_stays_failed() {
    let folder = FontAssetFolder::default();
    let handles = load_fonts(&folder, None, false);
    let mut state = FontLoadState::default();
    update_font_assets_load_state(&mut state, &handles, &vec![LoadState::Failed]);
    assert_eq!(state, FontLoadState(LoadState::Failed));
    // the store still reports Failed on the next tick: no transition
    update_font_assets_load_state(&mut state, &handles, &vec![LoadState::Failed]);
    assert_eq!(state, FontLoadState(LoadState::Failed));
    assert!(!font_assets_loaded(&state));
}

#[test]
fn readiness_gate_is_true_exactly_on_loaded() {
    assert!(!font_assets_loaded(&FontLoadState(LoadState::NotLoaded)));
    assert!(!font_assets_loaded(&FontLoadState(LoadState::Loading)));
    assert!(font_assets_loaded(&FontLoadState(LoadState::Loaded)));
    assert!(!font_assets_loaded(&FontLoadState(LoadState::Failed)));
}

fn run_gated_tick(
    state: &mut FontLoadState,
    handles: &HandleSet,
    store_answer: LoadState,
    queries: &mut usize,
) {
    if !aggregator_should_run(state) {
        return;
    }
    let states: Vec<LoadState> = match handles {
        HandleSet::Folder(_) => {
            *queries += 1;
            vec![store_answer]
        }
        HandleSet::Files(paths) => paths
            .iter()
            .map(|_| {
                *queries += 1;
                store_answer
            })
            .collect(),
    };
    update_font_assets_load_state(state, handles, &states);
}

#[test]
fn no_store_queries_after_loaded() {
    let folder = FontAssetFolder::default();
    let list = FontAssetList::new(vec![String::from("a.ttf"), String::from("b.ttf")]);
    let handles = load_fonts(&folder, Some(&list), false);
    let mut state = FontLoadState::default();
    let mut queries: usize = 0;
    run_gated_tick(&mut state, &handles, LoadState::Loading, &mut queries);
    assert_eq!(queries, 2);
    run_gated_tick(&mut state, &handles, LoadState::Loaded, &mut queries);
    assert_eq!(queries, 4);
    assert!(font_assets_loaded(&state));
    // further ticks are gated off: the store is not queried again
    run_gated_tick(&mut state, &handles, LoadState::Loaded, &mut queries);
    run_gated_tick(&mut state, &handles, LoadState::Failed, &mut queries);
    assert_eq!(queries, 4);
    assert!(font_assets_loaded(&state));
}

#[test]
fn directory_strategy_tracks_store_across_ticks() {
    let folder = FontAssetFolder::default();
    let handles = load_fonts(&folder, None, false);
    let mut state = FontLoadState::default();
    assert_eq!(state, FontLoadState(LoadState::NotLoaded));
    update_font_assets_load_state(&mut state, &handles, &vec![LoadState::Loading]);
    assert_eq!(state, FontLoadState(LoadState::Loading));
    update_font_assets_load_state(&mut state, &handles, &vec![LoadState::Loaded]);
    assert_eq!(state, FontLoadState(LoadState::Loaded));
}

#[test]
fn one_failed_file_is_absorbed_with_a_warning() {
    let folder = FontAssetFolder::default();
    let list = FontAssetList::new(vec![String::from("a.ttf"), String::from("b.ttf")]);
    let handles = load_fonts(&folder, Some(&list), false);
    let mut state = FontLoadState::default();
    let warnings = update_font_assets_load_state(
        &mut state,
        &handles,
        &vec![LoadState::Loaded, LoadState::Failed],
    );
    assert_eq!(state, FontLoadState(LoadState::Loaded));
    assert!(font_assets_loaded(&state));
    assert_eq!(warnings.len(), 1);
    assert!(warnings[0].contains("b.ttf"));
    assert_eq!(warnings[0], "fonts/b.ttf");
}
