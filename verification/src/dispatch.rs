//! Dispatch: turns the finalized configuration into load requests, once,
//! at startup.

use vstd::prelude::*;
use vstd::string::StringExecFns;
use crate::config::FontAssetFolder;
use crate::config::FontAssetList;

verus! {

/// The load requests that dispatch produced: either a single bulk request
/// for the whole directory, or one request per listed file — never both.
/// Each variant records the requested asset path(s), which identify the
/// store's handles for the corresponding requests.
pub enum HandleSet {
    /// One bulk-directory request, carrying the requested directory path.
    Folder(String),
    /// One request per listed file, carrying the requested file paths in
    /// list order (possibly none at all).
    Files(Vec<String>),
}

/// Mathematical image of a `HandleSet`.
#[verifier::ext_equal]
pub enum HandleSetView {
    Folder(Seq<char>),
    Files(Seq<Seq<char>>),
}

impl View for HandleSet {
    type V = HandleSetView;

    open spec fn view(&self) -> HandleSetView {
        match self {
            HandleSet::Folder(p) => HandleSetView::Folder(p@),
            HandleSet::Files(ps) => HandleSetView::Files(ps.deep_view()),
        }
    }
}

/// The full asset path of one listed file: the directory, a slash, and
/// the file's relative name.
pub open spec fn full_path(dir: Seq<char>, entry: Seq<char>) -> Seq<char> {
    dir + "/"@ + entry
}

/// What dispatch requests, as a function of the directory, the optional
/// explicit list, and whether the target is restricted (no bulk-directory
/// loading available).
pub open spec fn spec_load_fonts(
    dir: Seq<char>,
    list: Option<Seq<Seq<char>>>,
    restricted: bool,
) -> HandleSetView {
    match list {
        None => if restricted {
            HandleSetView::Files(Seq::empty())
        } else {
            HandleSetView::Folder(dir)
        },
        Some(entries) => HandleSetView::Files(
            Seq::new(entries.len(), |i: int| full_path(dir, entries[i])),
        ),
    }
}

/// The view of an optional borrowed file list.
pub open spec fn list_view(list: Option<&FontAssetList>) -> Option<Seq<Seq<char>>> {
    match list {
        Some(l) => Some(l@),
        None => None,
    }
}

/// Dispatch, run exactly once at startup: on an unrestricted target with
/// no explicit list, issue one bulk request against the configured
/// directory; otherwise issue one request per listed file, joining each
/// name onto the directory, in list order. On a restricted target a
/// missing list counts as empty, so nothing is requested.
pub fn load_fonts(
    font_folder: &FontAssetFolder,
    font_asset_list: Option<&FontAssetList>,
    restricted: bool,
) -> (handles: HandleSet)
    ensures
        handles@ == spec_load_fonts(font_folder@, list_view(font_asset_list), restricted),
{
    match font_asset_list {
        None => {
            if restricted {
                let handles = HandleSet::Files(Vec::new());
                proof {
                    assert(handles@ =~~= spec_load_fonts(
                        font_folder@,
                        list_view(font_asset_list),
                        restricted,
                    ));
                }
                handles
            } else {
                HandleSet::Folder(font_folder.path().clone())
            }
        },
        Some(list) => {
            let mut paths: Vec<String> = Vec::new();
            let mut i: usize = 0;
            while i < list.len()
                invariant
                    i <= list@.len(),
                    paths@.len() == i,
                    forall|j: int| 0 <= j < i ==> paths@[j]@ == full_path(font_folder@, list@[j]),
                decreases list@.len() - i,
            {
                let mut p: String = font_folder.path().clone();
                p.append("/");
                p.append(list.get(i).as_str());
                paths.push(p);
                i = i + 1;
            }
            let handles = HandleSet::Files(paths);
            proof {
                assert(handles@ =~~= spec_load_fonts(
                    font_folder@,
                    list_view(font_asset_list),
                    restricted,
                ));
            }
            handles
        },
    }
}

/// Law: with no explicit list on an unrestricted target, dispatch yields
/// exactly one folder handle, for the configured directory, and no file
/// handles.
pub proof fn lemma_dispatch_folder_strategy(dir: Seq<char>)
    ensures
        spec_load_fonts(dir, None, false) == HandleSetView::Folder(dir),
{
}

/// Law: with an explicit list of length `n` (on any target), dispatch
/// yields exactly `n` file handles and no folder handle; the handle at
/// position `i` is requested at the path of entry `i`, so list order is
/// preserved.
pub proof fn lemma_dispatch_list_strategy(
    dir: Seq<char>,
    entries: Seq<Seq<char>>,
    restricted: bool,
)
    ensures
        spec_load_fonts(dir, Some(entries), restricted) matches HandleSetView::Files(ps)
            && ps.len() == entries.len()
            && forall|i: int| 0 <= i < entries.len() ==> ps[i] == full_path(dir, entries[i]),
{
}

} // verus!
