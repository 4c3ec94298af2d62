//! Data structures that the responses of the API are read into.

use std::collections::HashMap;
use vstd::prelude::*;

verus! {

/// An instant in UTC: seconds since the start of 1970, and the nanoseconds
/// into that second.
#[derive(Debug, Clone, Copy, PartialEq, Eq, Structural)]
pub struct Timestamp {
    pub seconds: i64,
    pub nanoseconds: u32,
}

/// A calendar date.
#[derive(Debug, Clone, Copy, PartialEq, Eq, Structural)]
pub struct Date {
    pub year: i32,
    pub month: u32,
    pub day: u32,
}


/// Paging information of a listing.
#[derive(Debug, Clone)]
pub struct Meta {
    pub total: u64,
    pub next_page: Option<String>,
    pub prev_page: Option<String>,
}

/// Links from a crate to what belongs to it.
#[derive(Debug, Clone)]
pub struct CrateLinks {
    pub owner_team: String,
    pub owner_user: String,
    pub owners: String,
    pub reverse_dependencies: String,
    pub version_downloads: String,
    pub versions: Option<String>,
}

/// A crate, as listings and summaries show it.
#[derive(Debug, Clone)]
pub struct Crate {
    pub id: String,
    pub name: String,
    pub description: Option<String>,
    pub license: Option<String>,
    pub documentation: Option<String>,
    pub homepage: Option<String>,
    pub repository: Option<String>,
    pub downloads: u64,
    pub recent_downloads: Option<u64>,
    pub categories: Option<Vec<String>>,
    pub keywords: Option<Vec<String>>,
    pub versions: Option<Vec<u64>>,
    pub max_version: String,
    pub links: CrateLinks,
    pub created_at: Timestamp,
    pub updated_at: Timestamp,
    pub exact_match: Option<bool>,
}

/// A page of crates.
#[derive(Debug, Clone)]
pub struct Crates {
    pub crates: Vec<Crate>,
    pub meta: Meta,
}

/// Links from a version to what belongs to it.
#[derive(Debug, Clone)]
pub struct VersionLinks {
    pub authors: String,
    pub dependencies: String,
    pub version_downloads: String,
}

/// One version of a crate.
#[derive(Debug, Clone)]
pub struct Version {
    /// The name of the crate; `crate` on the wire.
    pub crate_name: String,
    pub created_at: Timestamp,
    pub updated_at: Timestamp,
    pub dl_path: String,
    pub downloads: u64,
    pub features: HashMap<String, Vec<String>>,
    pub id: u64,
    pub num: String,
    pub yanked: bool,
    pub license: Option<String>,
    pub readme_path: Option<String>,
    pub links: VersionLinks,
    pub crate_size: Option<u64>,
    pub published_by: Option<User>,
}

/// A category of the registry.
#[derive(Debug, Clone)]
pub struct Category {
    pub category: String,
    pub crates_cnt: u64,
    pub created_at: Timestamp,
    pub description: String,
    pub id: String,
    pub slug: String,
}

/// A keyword of the registry.
#[derive(Debug, Clone)]
pub struct Keyword {
    pub id: String,
    pub keyword: String,
    pub crates_cnt: u64,
    pub created_at: Timestamp,
}

/// A page of the registry's categories.
#[derive(Debug, Clone)]
pub struct Categories {
    pub categories: Vec<Category>,
    pub meta: Meta,
}

/// A page of the registry's keywords.
#[derive(Debug, Clone)]
pub struct Keywords {
    pub keywords: Vec<Keyword>,
    pub meta: Meta,
}

/// A crate with its categories, keywords and versions.
#[derive(Debug, Clone)]
pub struct CrateResponse {
    pub categories: Vec<Category>,
    /// The crate itself; `crate` on the wire.
    pub crate_data: Crate,
    pub keywords: Vec<Keyword>,
    pub versions: Vec<Version>,
}

/// The summary of the whole registry.
#[derive(Debug, Clone)]
pub struct Summary {
    pub just_updated: Vec<Crate>,
    pub most_downloaded: Vec<Crate>,
    pub new_crates: Vec<Crate>,
    pub most_recently_downloaded: Vec<Crate>,
    pub num_crates: u64,
    pub num_downloads: u64,
    pub popular_categories: Vec<Category>,
    pub popular_keywords: Vec<Keyword>,
}

/// The downloads of one version on one day.
#[derive(Debug, Clone)]
pub struct VersionDownloads {
    pub date: Date,
    pub downloads: u64,
    pub version: u64,
}

/// The downloads of all other versions on one day.
#[derive(Debug, Clone)]
pub struct ExtraDownloads {
    pub date: Date,
    pub downloads: u64,
}

/// What a download statistic says beyond the listed versions.
#[derive(Debug, Clone)]
pub struct DownloadsMeta {
    pub extra_downloads: Vec<ExtraDownloads>,
}

/// The download statistics of a crate.
#[derive(Debug, Clone)]
pub struct Downloads {
    pub version_downloads: Vec<VersionDownloads>,
    pub meta: DownloadsMeta,
}

/// A user of the registry.
#[derive(Debug, Clone)]
pub struct User {
    pub avatar: Option<String>,
    pub email: Option<String>,
    pub id: u64,
    pub kind: Option<String>,
    pub login: String,
    pub name: Option<String>,
    pub url: String,
}

/// The names of the authors of a version.
#[derive(Debug, Clone)]
pub struct AuthorsMeta {
    pub names: Vec<String>,
}

/// The authors of a version, as the registry sends them.
#[derive(Debug, Clone)]
pub struct AuthorsResponse {
    pub meta: AuthorsMeta,
    pub users: Vec<User>,
}

/// The authors of a version.
#[derive(Debug, Clone)]
pub struct Authors {
    pub names: Vec<String>,
    pub users: Vec<User>,
}

/// The owners of a crate.
#[derive(Debug, Clone)]
pub struct Owners {
    pub users: Vec<User>,
}

/// One dependency of a version.
#[derive(Debug, Clone)]
pub struct Dependency {
    pub crate_id: String,
    pub default_features: bool,
    pub downloads: u64,
    pub features: Vec<String>,
    pub id: u64,
    pub kind: String,
    pub optional: bool,
    pub req: String,
    pub target: Option<String>,
    pub version_id: u64,
}

/// The dependencies of a version.
#[derive(Debug, Clone)]
pub struct Dependencies {
    pub dependencies: Vec<Dependency>,
}

impl Authors {
    /// The authors of a version, out of the response that names them.
    pub fn from_response(response: AuthorsResponse) -> (authors: Authors)
        ensures
            authors.names == response.meta.names,
            authors.users == response.users,
    {
        Authors { names: response.meta.names, users: response.users }
    }
}

} // verus!
