//! What the mod index answers: one entry of a search, the full record of a
//! mod, and a page of search results.

use crate::decimal::{decimal_text, push_decimal};
use crate::percent::{percent_encode, percent_encoded};
use vstd::prelude::*;
use vstd::std_specs::convert::FromSpecImpl;
use vstd::string::{StringExecFns, StringSliceAdditionalSpecFns};

verus! {

/// One mod as a search lists it.
#[derive(Debug)]
pub struct SearchedModrinthMod {
    pub mod_id: String,
    pub author: String,
    pub title: String,
    pub description: String,
    pub categories: Vec<String>,
    pub versions: Vec<String>,
    pub downloads: i32,
    pub page_url: String,
    pub icon_url: String,
    pub author_url: String,
    pub date_created: String,
    pub date_modified: String,
    pub latest_version: String,
    pub host: String,
}

/// One mod as its own page describes it.
#[derive(Debug)]
pub struct FullModrinthMod {
    pub id: String,
    pub team: String,
    pub title: String,
    pub description: String,
    pub body_url: String,
    pub published: String,
    pub updated: String,
    pub status: String,
    pub downloads: i32,
    pub categories: Vec<String>,
    pub versions: Vec<String>,
    pub icon_url: String,
    pub issues_url: Option<String>,
    pub source_url: Option<String>,
    pub wiki_url: Option<String>,
}

/// A page of search results.
#[derive(Debug)]
pub struct ModrinthModSearch {
    pub hits: Vec<SearchedModrinthMod>,
    pub offset: i32,
    pub limit: i32,
    pub total_hits: i32,
}

/// How many results a search asks for, and so how many a menu of results
/// shows at most.
pub const SEARCH_LIMIT: usize = 5;

/// Whether `searched` lists the mod that `full_mod` describes: what both
/// hold is carried over, and what a full record does not hold is filled with
/// the name of the field.
pub open spec fn lists(searched: SearchedModrinthMod, full_mod: FullModrinthMod) -> bool {
    &&& searched.mod_id == full_mod.id
    &&& searched.author@ == "author"@
    &&& searched.title == full_mod.title
    &&& searched.description == full_mod.description
    &&& searched.categories == full_mod.categories
    &&& searched.versions == full_mod.versions
    &&& searched.downloads == full_mod.downloads
    &&& searched.page_url@ == "page_url"@
    &&& searched.icon_url == full_mod.icon_url
    &&& searched.author_url@ == "author_url"@
    &&& searched.date_created == full_mod.published
    &&& searched.date_modified == full_mod.updated
    &&& searched.latest_version@ == "latest_version"@
    &&& searched.host@ == "host"@
}

/// The address under which at most `limit` mods that match `query` are
/// asked for, the best match first.
pub open spec fn search_url_text(limit: nat, query: Seq<u8>) -> Seq<char> {
    "https://api.modrinth.com/api/v1/mod?limit="@ + decimal_text(limit) + "&index=relevance&"@
        + "query="@ + percent_encoded(query) + "&"@
}

/// The address under which a search is asked for. The query is
/// percent-encoded, so that no character of it is read as part of the
/// address.
pub fn search_url(limit: u64, query: &str) -> (url: String)
    ensures
        url@ == search_url_text(limit as nat, query.spec_bytes()),
{
    let mut url = String::from_str("https://api.modrinth.com/api/v1/mod?limit=");
    push_decimal(&mut url, limit);
    url.append("&index=relevance&");
    url.append("query=");
    let encoded = percent_encode(query);
    url.append(encoded.as_str());
    url.append("&");
    url
}

impl ModrinthModSearch {
    /// Whether the search found nothing to show.
    pub fn found_nothing(&self) -> (nothing: bool)
        ensures
            nothing == (self.total_hits < 1 || self.hits@.len() == 0),
    {
        self.total_hits < 1 || self.hits.len() == 0
    }

    /// The number of pages that a menu of these results has: one for each
    /// hit, and no more than a search asks for.
    pub fn page_count(&self) -> (count: usize)
        ensures
            count == if self.hits@.len() < SEARCH_LIMIT {
                self.hits@.len()
            } else {
                SEARCH_LIMIT as nat
            },
    {
        if self.hits.len() < SEARCH_LIMIT {
            self.hits.len()
        } else {
            SEARCH_LIMIT
        }
    }
}

impl From<FullModrinthMod> for SearchedModrinthMod {
    /// Lists a mod from its full record.
    fn from(full_mod: FullModrinthMod) -> (searched: SearchedModrinthMod)
        ensures
            lists(searched, full_mod),
    {
        SearchedModrinthMod {
            mod_id: full_mod.id,
            author: String::from_str("author"),
            title: full_mod.title,
            description: full_mod.description,
            categories: full_mod.categories,
            versions: full_mod.versions,
            downloads: full_mod.downloads,
            page_url: String::from_str("page_url"),
            icon_url: full_mod.icon_url,
            author_url: String::from_str("author_url"),
            date_created: full_mod.published,
            date_modified: full_mod.updated,
            latest_version: String::from_str("latest_version"),
            host: String::from_str("host"),
        }
    }
}

/// The conversion is specified by [`lists`], which fixes every field by its
/// characters. It does not claim to return one particular value, since two
/// strings of the same characters are not known to be the same value.
impl FromSpecImpl<FullModrinthMod> for SearchedModrinthMod {
    open spec fn obeys_from_spec() -> bool {
        false
    }

    open spec fn from_spec(full_mod: FullModrinthMod) -> SearchedModrinthMod {
        choose|searched: SearchedModrinthMod| lists(searched, full_mod)
    }
}

} // verus!
