//! The URLs of the registry's endpoints, as text.

use crate::query::{Category, QueryView, Sorting};
use crate::text::decimal;
use vstd::prelude::*;

verus! {

/// `prefix` and the value, or nothing where there is no value.
pub open spec fn part(prefix: Seq<char>, value: Option<Seq<char>>) -> Seq<char> {
    match value {
        Some(value) => prefix + value,
        None => Seq::empty(),
    }
}

/// A number written in decimal.
pub open spec fn number_text(number: Option<nat>) -> Option<Seq<char>> {
    match number {
        Some(number) => Some(decimal(number)),
        None => None,
    }
}

/// The registry's name of a sorting scheme.
pub open spec fn sort_text(sort: Option<Sorting>) -> Option<Seq<char>> {
    match sort {
        Some(sort) => Some(sort.name()),
        None => None,
    }
}

/// The registry's name of a category.
pub open spec fn category_text(category: Option<Category>) -> Option<Seq<char>> {
    match category {
        Some(category) => Some(category.name()),
        None => None,
    }
}

/// The page and the page size of a query, as they stand in a URL.
pub open spec fn paging(query: QueryView) -> Seq<char> {
    part("page="@, number_text(query.page)) + part("&per_page="@, number_text(query.per_page))
}

/// A page of crates that match a query.
pub open spec fn crates(base: Seq<char>, query: QueryView) -> Seq<char> {
    base + "crates?"@ + paging(query) + part("&sort="@, sort_text(query.sort))
        + part("&q="@, query.string) + part("&category="@, category_text(query.category))
        + part("&keyword="@, query.keyword)
}

/// One crate.
pub open spec fn crate_info(base: Seq<char>, crate_id: Seq<char>) -> Seq<char> {
    base + "crates/"@ + crate_id
}

/// One version of a crate.
pub open spec fn crate_version(
    base: Seq<char>,
    crate_id: Seq<char>,
    version: Seq<char>,
) -> Seq<char> {
    base + "crates/"@ + crate_id + "/"@ + version
}

/// The download statistics of a crate.
pub open spec fn crate_downloads(base: Seq<char>, crate_id: Seq<char>) -> Seq<char> {
    base + "crates/"@ + crate_id + "/downloads"@
}

/// The dependencies of one version of a crate.
pub open spec fn crate_dependencies(
    base: Seq<char>,
    crate_id: Seq<char>,
    version: Seq<char>,
) -> Seq<char> {
    base + "crates/"@ + crate_id + "/"@ + version + "/dependencies"@
}

/// The owners of a crate.
pub open spec fn crate_owners(base: Seq<char>, crate_id: Seq<char>) -> Seq<char> {
    base + "crates/"@ + crate_id + "/owners"@
}

/// The authors of one version of a crate.
pub open spec fn crate_authors(
    base: Seq<char>,
    crate_id: Seq<char>,
    version: Seq<char>,
) -> Seq<char> {
    base + "crates/"@ + crate_id + "/"@ + version + "/authors"@
}

/// The readme of one version of a crate.
pub open spec fn crate_readme(
    base: Seq<char>,
    crate_id: Seq<char>,
    version: Seq<char>,
) -> Seq<char> {
    base + "crates/"@ + crate_id + "/"@ + version + "/readme"@
}

/// The summary of the whole registry.
pub open spec fn registry_summary(base: Seq<char>) -> Seq<char> {
    base + "summary"@
}

/// The category that a query names: its search string if it has one, else
/// its category.
pub open spec fn category_slug(query: QueryView) -> Option<Seq<char>> {
    match query.string {
        Some(string) => Some(string),
        None => category_text(query.category),
    }
}

/// One category, if the query names one.
pub open spec fn category(base: Seq<char>, query: QueryView) -> Option<Seq<char>> {
    match category_slug(query) {
        Some(slug) => Some(base + "categories/"@ + slug),
        None => None,
    }
}

/// A page of the registry's categories.
pub open spec fn categories(base: Seq<char>, query: QueryView) -> Seq<char> {
    base + "categories?"@ + paging(query)
}

/// The keyword that a query names: its search string if it has one, else
/// its keyword.
pub open spec fn keyword_slug(query: QueryView) -> Option<Seq<char>> {
    match query.string {
        Some(string) => Some(string),
        None => query.keyword,
    }
}

/// One keyword, if the query names one.
pub open spec fn keyword(base: Seq<char>, query: QueryView) -> Option<Seq<char>> {
    match keyword_slug(query) {
        Some(slug) => Some(base + "keywords/"@ + slug),
        None => None,
    }
}

/// A page of the registry's keywords.
pub open spec fn keywords(base: Seq<char>, query: QueryView) -> Seq<char> {
    base + "keywords?"@ + paging(query)
}

} // verus!
