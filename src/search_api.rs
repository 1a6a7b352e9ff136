use vstd::prelude::*;

verus! {

/// Request headers understood by the web search service.
pub enum BraveSearchHeader {
    SubscriptionToken,
    LocCountry,
}

/// The header's name on the wire.
pub open spec fn header_name(h: BraveSearchHeader) -> Seq<char> {
    match h {
        BraveSearchHeader::SubscriptionToken => "X-Subscription-Token"@,
        BraveSearchHeader::LocCountry => "X-Loc-Country"@,
    }
}

impl BraveSearchHeader {
    pub fn as_str(&self) -> (r: &'static str)
        ensures
            r@ == header_name(*self),
    {
        match self {
            BraveSearchHeader::SubscriptionToken => "X-Subscription-Token",
            BraveSearchHeader::LocCountry => "X-Loc-Country",
        }
    }
}

/// How the search service understood a query; empty texts in its answer become `None`.
#[derive(Default, Debug, Clone)]
pub struct BraveSearchResponseQuery {
    pub original: String,
    pub show_strict_warning: bool,
    pub is_navigational: bool,
    pub is_news_breaking: bool,
    pub spellcheck_off: bool,
    pub country: Option<String>,
    pub bad_results: bool,
    pub should_fallback: bool,
    pub postal_code: Option<String>,
    pub city: Option<String>,
    pub header_country: Option<String>,
    pub more_results_available: bool,
    pub state: Option<String>,
}

/// The site that published a result.
#[derive(Default, Debug, Clone)]
pub struct Profile {
    pub name: String,
    pub url: String,
    pub long_name: String,
    pub img: String,
}

/// The parts of a result's address.
#[derive(Default, Debug, Clone)]
pub struct MetaUrl {
    pub scheme: String,
    pub netloc: String,
    pub hostname: String,
    pub favicon: String,
    pub path: String,
}

/// A result's preview image.
#[derive(Default, Debug, Clone)]
pub struct Thumbnail {
    pub src: String,
    pub original: String,
    pub logo: bool,
}

/// One web result.
#[derive(Debug, Clone)]
pub struct SearchResultItem {
    pub title: String,
    /// The result's address, as the service wrote it.
    pub url: String,
    pub is_source_local: bool,
    pub is_source_both: bool,
    pub description: String,
    pub page_age: Option<String>,
    pub profile: Profile,
    pub language: String,
    pub family_friendly: bool,
    pub kind: String,
    pub subtype: Option<String>,
    pub meta_url: Option<MetaUrl>,
    pub thumbnail: Option<Thumbnail>,
    pub age: Option<String>,
}

/// The web results of a search.
#[derive(Default, Debug, Clone)]
pub struct SearchResult {
    pub kind: String,
    pub results: Vec<SearchResultItem>,
}

/// A whole answer of the search service.
#[derive(Debug, Clone)]
pub struct BraveSearchResponse {
    pub query: BraveSearchResponseQuery,
    pub kind: String,
    pub web: SearchResult,
}

/// The address of the best web result, if there is any.
pub fn first_result_url(response: &BraveSearchResponse) -> (r: Option<String>)
    ensures
        response.web.results@.len() == 0 <==> r is None,
        r matches Some(u) ==> u@ == response.web.results@[0].url@,
{
    if response.web.results.len() == 0 {
        None
    } else {
        Some(response.web.results[0].url.clone())
    }
}

/// The address of the web search endpoint.
pub fn web_search_endpoint() -> (r: &'static str)
    ensures
        r@ == "https://api.search.brave.com/res/v1/web/search"@,
{
    "https://api.search.brave.com/res/v1/web/search"
}

} // verus!
