//! Configuration: the source directory for bulk loads and the optional
//! explicit list of font files to load individually.

use vstd::prelude::*;
use vstd::string::StringExecFns;

verus! {

/// The directory (inside the host's asset root) from which fonts are
/// loaded. When the host supplies no override it is `"fonts"`.
///
/// When an explicit file list is present, this directory is only the base
/// directory that the listed file names are joined onto.
pub struct FontAssetFolder {
    path: String,
}

/// The default directory name for font assets.
pub open spec fn default_font_folder() -> Seq<char> {
    "fonts"@
}

impl View for FontAssetFolder {
    type V = Seq<char>;

    closed spec fn view(&self) -> Seq<char> {
        self.path@
    }
}

impl FontAssetFolder {
    /// Wraps a host-supplied directory path.
    pub fn new(path: String) -> (r: Self)
        ensures
            r@ == path@,
    {
        FontAssetFolder { path }
    }

    /// The configured directory path.
    pub fn path(&self) -> (r: &String)
        ensures
            r@ == self@,
    {
        &self.path
    }
}

impl Default for FontAssetFolder {
    /// Without a host override the directory is `"fonts"`.
    fn default() -> (r: Self)
        ensures
            r@ == default_font_folder(),
    {
        FontAssetFolder { path: String::from_str("fonts") }
    }
}

/// The optional explicit list of font files, as file names (with their
/// extension) relative to the configured directory.
///
/// An absent list and an empty list are distinct: absent selects the
/// bulk-directory strategy (where available), while an empty list selects
/// the per-file strategy and loads nothing.
pub struct FontAssetList {
    paths: Vec<String>,
}

impl View for FontAssetList {
    type V = Seq<Seq<char>>;

    closed spec fn view(&self) -> Seq<Seq<char>> {
        self.paths.deep_view()
    }
}

impl FontAssetList {
    /// Wraps a host-supplied list of relative file names, keeping its order.
    pub fn new(paths: Vec<String>) -> (r: Self)
        ensures
            r@ == paths.deep_view(),
    {
        FontAssetList { paths }
    }

    /// The number of listed files.
    pub fn len(&self) -> (n: usize)
        ensures
            n == self@.len(),
    {
        self.paths.len()
    }

    /// The file name at position `i`.
    pub fn get(&self, i: usize) -> (r: &String)
        requires
            i < self@.len(),
        ensures
            r@ == self@[i as int],
    {
        &self.paths[i]
    }
}

impl Default for FontAssetList {
    /// The default list is empty.
    fn default() -> (r: Self)
        ensures
            r@ == Seq::<Seq<char>>::empty(),
    {
        FontAssetList { paths: Vec::new() }
    }
}

/// Finalizes the configuration before dispatch: a missing directory
/// configuration defaults to `"fonts"`, and on a restricted target (where
/// bulk-directory loading is unavailable) a missing file list is defaulted
/// to the empty list, since the per-file strategy is mandatory there.
pub fn setup_resources(
    font_folder: Option<FontAssetFolder>,
    font_asset_list: Option<FontAssetList>,
    restricted: bool,
) -> (r: (FontAssetFolder, Option<FontAssetList>))
    ensures
        (font_folder matches Some(f) ==> r.0@ == f@),
        (font_folder is None ==> r.0@ == default_font_folder()),
        (font_asset_list matches Some(l) ==> (r.1 matches Some(rl) && rl@ == l@)),
        (font_asset_list is None && restricted ==> (r.1 matches Some(rl) && rl@
            == Seq::<Seq<char>>::empty())),
        (font_asset_list is None && !restricted ==> r.1 is None),
{
    let folder = match font_folder {
        Some(f) => f,
        None => FontAssetFolder::default(),
    };
    let list = match font_asset_list {
        Some(l) => Some(l),
        None => if restricted {
            Some(FontAssetList::default())
        } else {
            None
        },
    };
    (folder, list)
}

} // verus!
