//! A database of presets that are FX chains, and the search within it.

use vstd::prelude::*;
use vstd::string::*;
use wildmatch::WildMatch;

verus! {

/// The id of the content type "factory".
pub const CONTENT_TYPE_FACTORY_ID: u32 = 2;

/// The id of the favorite state "favorite".
pub const FAVORITE_FAVORITE_ID: u32 = 1;

/// The id of a preset within its database.
#[derive(Copy, Clone, Debug, PartialEq, Eq, Hash, Structural)]
pub struct InnerPresetId(pub u32);

/// The id of an item of a filter. An item without id stands for "none".
#[derive(Copy, Clone, Debug, PartialEq, Eq, Hash, Structural)]
pub struct FilterItemId(pub Option<u32>);

/// The kinds of filters.
#[derive(Copy, Clone, Debug, PartialEq, Eq, Hash, Structural)]
pub enum PotFilterItemKind {
    Database,
    NksContentType,
    NksProductType,
    NksFavorite,
    NksBank,
    NksSubBank,
    NksCategory,
    NksSubCategory,
    NksMode,
}

/// What is searched for.
#[derive(Debug)]
pub struct BuildInput {
    /// For each kind of filter the item that is set, if any.
    pub filter_settings: Vec<(PotFilterItemKind, Option<FilterItemId>)>,
    pub search_expression: String,
    pub use_wildcard_search: bool,
}

/// A preset that was found: its id and its name.
#[derive(Debug)]
pub struct SortablePresetId {
    pub inner_preset_id: InnerPresetId,
    pub preset_name: String,
}

/// A preset as it is handed out.
#[derive(Debug)]
pub struct Preset {
    pub favorite_id: String,
    pub name: String,
    pub file_name: String,
    pub file_ext: String,
}

/// An FX chain: its name and its path below the directory of the database.
#[derive(Debug)]
pub struct RfxChain {
    pub preset_name: String,
    pub relative_path: String,
}

/// Why a database could not be opened.
#[derive(Copy, Clone, Debug, PartialEq, Eq, Structural)]
pub enum RfxChainError {
    DirectoryMissing,
}

impl RfxChainError {
    pub fn description(&self) -> (text: &'static str)
        ensures
            text@ == "path to FX chains directory doesn't exist"@,
    {
        "path to FX chains directory doesn't exist"
    }
}

/// The lower-case form of a text, as `str::to_lowercase` of std gives it.
pub uninterp spec fn lowercase_of(text: Seq<char>) -> Seq<char>;

/// A text without the white space at its ends, as `str::trim` of std gives it.
pub uninterp spec fn trimmed(text: Seq<char>) -> Seq<char>;

/// `pattern` occurs in `text`.
pub open spec fn contains_text(text: Seq<char>, pattern: Seq<char>) -> bool {
    exists|i: int|
        0 <= i <= text.len() - pattern.len() && #[trigger] text.subrange(i, i + pattern.len())
            == pattern
}

/// The whole of `text` matches `pattern`, in which `?` stands for any one character and `*`
/// for any number of characters.
pub open spec fn wildcard_matches(pattern: Seq<char>, text: Seq<char>) -> bool
    decreases pattern.len(), text.len(),
{
    if pattern.len() == 0 {
        text.len() == 0
    } else if pattern[0] == '*' {
        wildcard_matches(pattern.drop_first(), text) || (text.len() > 0 && wildcard_matches(
            pattern,
            text.drop_first(),
        ))
    } else if text.len() == 0 {
        false
    } else {
        (pattern[0] == '?' || pattern[0] == text[0]) && wildcard_matches(
            pattern.drop_first(),
            text.drop_first(),
        )
    }
}

/// A filter of the given kind that is set to `filter` lets FX chains pass. FX chains are
/// made by the user, are no favorites, and belong to no product, bank, category or mode.
pub open spec fn filter_admits(kind: PotFilterItemKind, filter: Option<FilterItemId>) -> bool {
    match kind {
        PotFilterItemKind::NksContentType => filter != Some(
            FilterItemId(Some(CONTENT_TYPE_FACTORY_ID)),
        ),
        PotFilterItemKind::NksFavorite => filter != Some(FilterItemId(Some(FAVORITE_FAVORITE_ID))),
        PotFilterItemKind::NksProductType
        | PotFilterItemKind::NksBank
        | PotFilterItemKind::NksSubBank
        | PotFilterItemKind::NksCategory
        | PotFilterItemKind::NksSubCategory
        | PotFilterItemKind::NksMode => filter.is_none() || filter == Some(FilterItemId(None)),
        PotFilterItemKind::Database => true,
    }
}

/// All filters let FX chains pass.
pub open spec fn filters_admit(settings: Seq<(PotFilterItemKind, Option<FilterItemId>)>) -> bool {
    forall|i: int| 0 <= i < settings.len() ==> filter_admits(settings[i].0, settings[i].1)
}

/// The search term: the search expression without the white space at its ends, in lower
/// case.
pub open spec fn search_term(search_expression: Seq<char>) -> Seq<char> {
    lowercase_of(trimmed(search_expression))
}

/// A preset of the given name is found by the search term: every preset if the term is
/// empty; otherwise, compared in lower case, the presets whose name matches the term as a
/// wildcard pattern or holds it, as the kind of search has it.
pub open spec fn name_matches(term: Seq<char>, use_wildcard_search: bool, preset_name: Seq<char>) -> bool {
    if term.len() == 0 {
        true
    } else if use_wildcard_search {
        wildcard_matches(term, lowercase_of(preset_name))
    } else {
        contains_text(lowercase_of(preset_name), term)
    }
}

/// The presets among the first `count` FX chains that the search term finds, as pairs of
/// id and name, in the order of their ids.
pub open spec fn found_presets(
    chains: Seq<RfxChain>,
    term: Seq<char>,
    use_wildcard_search: bool,
    count: int,
) -> Seq<(u32, Seq<char>)>
    decreases count,
{
    if count <= 0 {
        Seq::empty()
    } else {
        let rest = found_presets(chains, term, use_wildcard_search, count - 1);
        if name_matches(term, use_wildcard_search, chains[count - 1].preset_name@) {
            rest.push(((count - 1) as u32, chains[count - 1].preset_name@))
        } else {
            rest
        }
    }
}

/// The presets that are handed out are those of `presets`.
pub open spec fn presets_are(found: Seq<SortablePresetId>, presets: Seq<(u32, Seq<char>)>) -> bool {
    &&& found.len() == presets.len()
    &&& forall|i: int|
        0 <= i < found.len() ==> (#[trigger] found[i]).inner_preset_id == InnerPresetId(
            presets[i].0,
        ) && found[i].preset_name@ == presets[i].1
}

/// `str::to_lowercase` of std. Trusted: the result is the lower-case form of the text.
#[verifier::external_body]
fn to_lowercase(text: &str) -> (lowercase: String)
    ensures
        lowercase@ == lowercase_of(text@),
{
    text.to_lowercase()
}

/// `str::trim` of std. Trusted: the result is the text without the white space at its ends.
#[verifier::external_body]
fn trim(text: &str) -> (rest: &str)
    ensures
        rest@ == trimmed(text@),
{
    text.trim()
}

/// `str::contains` of std, for a pattern that is a text. Trusted: it says whether the
/// pattern occurs in the text.
#[verifier::external_body]
fn contains(text: &str, pattern: &str) -> (found: bool)
    ensures
        found == contains_text(text@, pattern@),
{
    text.contains(pattern)
}

/// `WildMatch::new` and `WildMatch::matches` of `wildmatch`. Trusted: the pattern is compared
/// with the whole text character by character, `?` matches exactly one character and `*`
/// any number of them, and upper and lower case differ.
#[verifier::external_body]
fn wild_match(pattern: &str, text: &str) -> (matched: bool)
    ensures
        matched == wildcard_matches(pattern@, text@),
{
    WildMatch::new(pattern).matches(text)
}

/// The FX chains below one directory. The id of a chain is its position in the database.
#[derive(Debug)]
pub struct RfxChainDatabase {
    root_dir: String,
    rfx_chains: Vec<RfxChain>,
}

impl RfxChainDatabase {
    #[verifier::type_invariant]
    spec fn inv(self) -> bool {
        self.rfx_chains@.len() <= u32::MAX
    }

    /// The directory of the database.
    pub closed spec fn root_dir(&self) -> String {
        self.root_dir
    }

    /// The FX chains of the database, by id.
    pub closed spec fn chains(&self) -> Seq<RfxChain> {
        self.rfx_chains@
    }

    /// Opens the database of the directory `root_dir`, which exists or not as
    /// `root_dir_exists` says. The database of an existing directory is empty until it is
    /// refreshed.
    pub fn open(root_dir: String, root_dir_exists: bool) -> (database: Result<Self, RfxChainError>)
        ensures
            !root_dir_exists ==> database == Err::<Self, RfxChainError>(
                RfxChainError::DirectoryMissing,
            ),
            root_dir_exists ==> (database matches Ok(db) && db.root_dir() == root_dir
                && db.chains() == Seq::<RfxChain>::empty()),
    {
        if !root_dir_exists {
            return Err(RfxChainError::DirectoryMissing);
        }
        let db = Self { root_dir, rfx_chains: Vec::new() };
        Ok(db)
    }

    /// Returns the name of the filter item that stands for this database.
    pub fn filter_item_name(&self) -> (name: String)
        ensures
            name@ == "FX chains"@,
    {
        String::from_str("FX chains")
    }

    /// Replaces the FX chains of the database by those that were found in its directory.
    /// Each of them must have room for an id.
    pub fn refresh(&mut self, rfx_chains: Vec<RfxChain>)
        requires
            rfx_chains@.len() <= u32::MAX,
        ensures
            final(self).chains() == rfx_chains@,
            final(self).root_dir() == old(self).root_dir(),
    {
        self.rfx_chains = rfx_chains;
    }

    /// Returns the number of FX chains.
    pub fn len(&self) -> (count: usize)
        ensures
            count == self.chains().len(),
    {
        self.rfx_chains.len()
    }

    /// Returns the presets that the search of `input` finds: none if one of the filters
    /// excludes FX chains, otherwise those whose name the search term finds.
    pub fn build_collections(&self, input: &BuildInput) -> (found: Vec<SortablePresetId>)
        ensures
            !filters_admit(input.filter_settings@) ==> found@.len() == 0,
            filters_admit(input.filter_settings@) ==> presets_are(
                found@,
                found_presets(
                    self.chains(),
                    search_term(input.search_expression@),
                    input.use_wildcard_search,
                    self.chains().len() as int,
                ),
            ),
    {
        proof {
            use_type_invariant(self);
        }
        let mut found: Vec<SortablePresetId> = Vec::new();
        let mut k: usize = 0;
        while k < input.filter_settings.len()
            invariant
                k <= input.filter_settings@.len(),
                found@.len() == 0,
                forall|i: int|
                    0 <= i < k ==> filter_admits(
                        input.filter_settings@[i].0,
                        input.filter_settings@[i].1,
                    ),
            decreases input.filter_settings@.len() - k,
        {
            let kind = input.filter_settings[k].0;
            let filter = input.filter_settings[k].1;
            if !filter_matches(kind, filter) {
                return found;
            }
            k = k + 1;
        }
        let lowercase_search_expression = to_lowercase(trim(input.search_expression.as_str()));
        let ghost term = search_term(input.search_expression@);
        let mut i: usize = 0;
        while i < self.rfx_chains.len()
            invariant
                i <= self.rfx_chains@.len(),
                self.rfx_chains@.len() <= u32::MAX,
                lowercase_search_expression@ == term,
                presets_are(
                    found@,
                    found_presets(self.rfx_chains@, term, input.use_wildcard_search, i as int),
                ),
            decreases self.rfx_chains@.len() - i,
        {
            let rfx_chain = &self.rfx_chains[i];
            let matches = if lowercase_search_expression.as_str().is_empty() {
                true
            } else {
                let lowercase_preset_name = to_lowercase(rfx_chain.preset_name.as_str());
                if input.use_wildcard_search {
                    wild_match(
                        lowercase_search_expression.as_str(),
                        lowercase_preset_name.as_str(),
                    )
                } else {
                    contains(lowercase_preset_name.as_str(), lowercase_search_expression.as_str())
                }
            };
            if matches {
                found.push(
                    SortablePresetId {
                        inner_preset_id: InnerPresetId(i as u32),
                        preset_name: rfx_chain.preset_name.clone(),
                    },
                );
            }
            i = i + 1;
        }
        found
    }

    /// Returns the preset with the given id, if there is one.
    pub fn find_preset_by_id(&self, preset_id: InnerPresetId) -> (preset: Option<Preset>)
        ensures
            preset.is_some() <==> preset_id.0 < self.chains().len(),
            preset matches Some(p) ==> p.favorite_id@ == self.chains()[preset_id.0 as int].relative_path@
                && p.name@ == self.chains()[preset_id.0 as int].preset_name@ && p.file_name@
                == self.chains()[preset_id.0 as int].relative_path@ && p.file_ext@ == "RfxChain"@,
    {
        if (preset_id.0 as usize) >= self.rfx_chains.len() {
            return None;
        }
        let rfx_chain = &self.rfx_chains[preset_id.0 as usize];
        let preset = Preset {
            favorite_id: rfx_chain.relative_path.clone(),
            name: rfx_chain.preset_name.clone(),
            file_name: rfx_chain.relative_path.clone(),
            file_ext: String::from_str("RfxChain"),
        };
        Some(preset)
    }
}

/// Returns whether a filter of the given kind that is set to `filter` lets FX chains pass.
pub fn filter_matches(kind: PotFilterItemKind, filter: Option<FilterItemId>) -> (admitted: bool)
    ensures
        admitted == filter_admits(kind, filter),
{
    match kind {
        PotFilterItemKind::NksContentType => !is_item(filter, CONTENT_TYPE_FACTORY_ID),
        PotFilterItemKind::NksFavorite => !is_item(filter, FAVORITE_FAVORITE_ID),
        PotFilterItemKind::NksProductType
        | PotFilterItemKind::NksBank
        | PotFilterItemKind::NksSubBank
        | PotFilterItemKind::NksCategory
        | PotFilterItemKind::NksSubCategory
        | PotFilterItemKind::NksMode => match filter {
            None => true,
            Some(FilterItemId(None)) => true,
            Some(FilterItemId(Some(_))) => false,
        },
        PotFilterItemKind::Database => true,
    }
}

fn is_item(filter: Option<FilterItemId>, id: u32) -> (same: bool)
    ensures
        same == (filter == Some(FilterItemId(Some(id)))),
{
    match filter {
        Some(FilterItemId(Some(item))) => item == id,
        _ => false,
    }
}

} // verus!
