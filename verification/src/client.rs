//! The client: where the registry lives, who is asking, and the rate
//! limiter that every request has to pass.

use crate::decode::Format;
use crate::endpoint;
use crate::error::{RequestError, TransportError};
use crate::limiter::{Admission, RateLimiter, Window};
use crate::query::Query;
use crate::text::push_decimal;
use crate::uri::{check_url, well_formed_url};
use vstd::prelude::*;
use vstd::string::StringExecFns;

verus! {

/// Base url of the API.
pub const BASE_URL: &'static str = "https://crates.io/api/v1/";

/// Rate limit of one second is the smallest value tolerated by `crates.io`.
/// In nanoseconds.
pub const RATE_LIMIT: u64 = 1_000_000_000;

/// How long a blocking request waits before it asks for admission again.
/// In nanoseconds; well below the rate limit.
pub const RETRY_INTERVAL: u64 = 60_000_000;

/// Whether a request waits for the rate limiter.
#[derive(Clone, Copy, Debug, PartialEq, Eq, Structural)]
pub enum Mode {
    /// The request waits until the rate limiter admits it.
    Blocking,
    /// The request fails at once if the rate limiter denies it.
    NonBlocking,
}

/// A request that is ready to be put to the rate limiter.
#[derive(Clone, Debug)]
pub struct Request {
    /// Where the request goes.
    pub url: String,
    /// Whether it waits for the rate limiter.
    pub mode: Mode,
    /// How the body of the response is written.
    pub format: Format,
}

/// What a request holds, as plain values.
pub struct RequestView {
    pub url: Seq<char>,
    pub mode: Mode,
    pub format: Format,
}

impl View for Request {
    type V = RequestView;

    open spec fn view(&self) -> RequestView {
        RequestView { url: self.url@, mode: self.mode, format: self.format }
    }
}

/// What the caller does next with a request.
#[derive(Clone, Copy, Debug, PartialEq, Eq, Structural)]
pub enum Step {
    /// The request was admitted: send it now.
    Fetch,
    /// The request was denied: wait this many nanoseconds, then ask again.
    Retry(u64),
    /// The request is over, and this is why.
    Fail(RequestError),
}

/// The text of a URL, or why there is none.
pub open spec fn url_of(url: Result<String, RequestError>) -> Result<Seq<char>, RequestError> {
    match url {
        Ok(url) => Ok(url@),
        Err(error) => Err(error),
    }
}

/// What a request holds, or why there is none.
pub open spec fn plan_of(
    request: Result<Request, RequestError>,
) -> Result<RequestView, RequestError> {
    match request {
        Ok(request) => Ok(request@),
        Err(error) => Err(error),
    }
}

/// The request for a URL, or the reason why there is no URL.
pub open spec fn planned(
    url: Result<Seq<char>, RequestError>,
    mode: Mode,
    format: Format,
) -> Result<RequestView, RequestError> {
    match url {
        Ok(url) => Ok(RequestView { url, mode, format }),
        Err(error) => Err(error),
    }
}

/// A URL that there is.
pub open spec fn found(url: Seq<char>) -> Result<Seq<char>, RequestError> {
    Ok(url)
}

/// The URL of one category or keyword, or the given error where the query
/// names none.
pub open spec fn named(
    url: Option<Seq<char>>,
    error: RequestError,
) -> Result<Seq<char>, RequestError> {
    match url {
        Some(url) => Ok(url),
        None => Err(error),
    }
}

/// What an admitted request does next: it is sent if its URL is one that a
/// request can be sent to.
pub open spec fn admitted_step(url: Seq<char>) -> Step {
    if well_formed_url(url) {
        Step::Fetch
    } else {
        Step::Fail(RequestError::Transport(TransportError::MalformedUrl))
    }
}

/// What a non-blocking request made at `now` does next: a denied request
/// is over at once.
pub open spec fn non_blocking_step(window: Window, url: Seq<char>, now: int) -> Step {
    if window.permits(now) {
        admitted_step(url)
    } else {
        Step::Fail(RequestError::WouldBlock)
    }
}

/// What a blocking request made at `now` does next: a denied request waits
/// and asks again, so that rate limiting never fails it.
pub open spec fn blocking_step(window: Window, url: Seq<char>, now: int) -> Step {
    if window.permits(now) {
        admitted_step(url)
    } else {
        Step::Retry(RETRY_INTERVAL)
    }
}

/// What a request made at `now` does next.
pub open spec fn next_step(window: Window, mode: Mode, url: Seq<char>, now: int) -> Step {
    match mode {
        Mode::Blocking => blocking_step(window, url, now),
        Mode::NonBlocking => non_blocking_step(window, url, now),
    }
}

/// API client abstraction.
pub struct Client {
    /// Base url used by the client
    base_url: String,
    /// User-Agent header used by the client
    user_agent: String,
    /// The rate limiter, which holds the time of the last request
    limiter: RateLimiter,
}

/// What a client holds, as plain values.
pub struct ClientView {
    pub base_url: Seq<char>,
    pub user_agent: Seq<char>,
    pub window: Window,
}

impl ClientView {
    /// The client after a request made at `now`: only the window moves.
    pub open spec fn after(self, now: int) -> ClientView {
        ClientView { window: self.window.after(now), ..self }
    }
}

impl View for Client {
    type V = ClientView;

    closed spec fn view(&self) -> ClientView {
        ClientView {
            base_url: self.base_url@,
            user_agent: self.user_agent@,
            window: self.limiter@,
        }
    }
}

/// Appends `prefix` and the text, where there is a text.
fn push_text(url: &mut String, prefix: &str, value: &Option<String>)
    ensures
        final(url)@ == old(url)@ + endpoint::part(prefix@, crate::query::text_of(*value)),
{
    match value {
        Some(value) => {
            url.append(prefix);
            url.append(value.as_str());
            assert(url@ =~= old(url)@ + (prefix@ + value@));
        },
        None => {
            assert(url@ =~= old(url)@ + Seq::<char>::empty());
        },
    }
}

/// Appends `prefix` and the number in decimal, where there is a number.
fn push_number(url: &mut String, prefix: &str, value: Option<usize>)
    ensures
        final(url)@ == old(url)@ + endpoint::part(
            prefix@,
            endpoint::number_text(crate::query::number_of(value)),
        ),
{
    match value {
        Some(value) => {
            url.append(prefix);
            push_decimal(url, value);
            assert(url@ =~= old(url)@ + (prefix@ + crate::text::decimal(value as nat)));
        },
        None => {
            assert(url@ =~= old(url)@ + Seq::<char>::empty());
        },
    }
}

/// Appends the page and the page size of a query.
fn push_paging(url: &mut String, query: &Query)
    ensures
        final(url)@ == old(url)@ + endpoint::paging(query@),
{
    push_number(url, "page=", query.page);
    push_number(url, "&per_page=", query.per_page);
    assert(url@ =~= old(url)@ + endpoint::paging(query@));
}

impl Client {
    /// Creates a new client with the given user agent string. `now` is the
    /// time of its creation: the first request is admitted at once.
    ///
    /// # User-agent requirement
    ///
    /// `crates.io` requires the requests to include a user-agent header.
    /// Here are a few examples of proper user-agent strings you can use:
    /// ```text
    /// my_crawler (my_crawler.com/info)
    /// my_crawler (help@my_crawler.com)
    /// my_crawler (github.com/me/my_crawler)
    /// ```
    pub fn new(user_agent: &str, now: u64) -> (client: Client)
        ensures
            client@ == (ClientView {
                base_url: BASE_URL@,
                user_agent: user_agent@,
                window: Window::opened_at(now as int, RATE_LIMIT as int),
            }),
    {
        Client::new_with_base_url(BASE_URL, user_agent, now)
    }

    /// Creates a new client with the given base url and user agent string.
    pub fn new_with_base_url(base_url: &str, user_agent: &str, now: u64) -> (client: Client)
        ensures
            client@ == (ClientView {
                base_url: base_url@,
                user_agent: user_agent@,
                window: Window::opened_at(now as int, RATE_LIMIT as int),
            }),
    {
        Client {
            base_url: String::from_str(base_url),
            user_agent: String::from_str(user_agent),
            limiter: RateLimiter::new(now, RATE_LIMIT),
        }
    }

    /// Base url used by the client.
    pub fn base_url(&self) -> (base_url: &str)
        ensures
            base_url@ == self@.base_url,
    {
        self.base_url.as_str()
    }

    /// User-Agent header that every request of the client carries.
    pub fn user_agent(&self) -> (user_agent: &str)
        ensures
            user_agent@ == self@.user_agent,
    {
        self.user_agent.as_str()
    }

    /// The URL of a page of crates that match a query.
    pub fn url_crates(&self, query: Query) -> (url: Result<String, RequestError>)
        ensures
            url_of(url) == found(endpoint::crates(self@.base_url, query@)),
    {
        let mut url = self.base_url.clone();
        url.append("crates?");
        push_paging(&mut url, &query);
        match query.sort {
            Some(sort) => {
                url.append("&sort=");
                url.append(sort.to_str());
            },
            None => {},
        }
        push_text(&mut url, "&q=", &query.string);
        match query.category {
            Some(category) => {
                url.append("&category=");
                url.append(category.to_str());
            },
            None => {},
        }
        push_text(&mut url, "&keyword=", &query.keyword);
        assert(url@ =~= endpoint::crates(self@.base_url, query@));
        Ok(url)
    }

    /// The URL of one crate.
    pub fn url_crate(&self, crate_id: &str) -> (url: Result<String, RequestError>)
        ensures
            url_of(url) == found(endpoint::crate_info(self@.base_url, crate_id@)),
    {
        let mut url = self.base_url.clone();
        url.append("crates/");
        url.append(crate_id);
        assert(url@ =~= endpoint::crate_info(self@.base_url, crate_id@));
        Ok(url)
    }

    /// The URL of one version of a crate.
    pub fn url_crate_version(
        &self,
        crate_id: &str,
        crate_version: &str,
    ) -> (url: Result<String, RequestError>)
        ensures
            url_of(url) == found(
                endpoint::crate_version(self@.base_url, crate_id@, crate_version@),
            ),
    {
        let mut url = self.base_url.clone();
        url.append("crates/");
        url.append(crate_id);
        url.append("/");
        url.append(crate_version);
        assert(url@ =~= endpoint::crate_version(self@.base_url, crate_id@, crate_version@));
        Ok(url)
    }

    /// The URL of the download statistics of a crate.
    pub fn url_crate_downloads(&self, crate_id: &str) -> (url: Result<String, RequestError>)
        ensures
            url_of(url) == found(endpoint::crate_downloads(self@.base_url, crate_id@)),
    {
        let mut url = self.base_url.clone();
        url.append("crates/");
        url.append(crate_id);
        url.append("/downloads");
        assert(url@ =~= endpoint::crate_downloads(self@.base_url, crate_id@));
        Ok(url)
    }

    /// The URL of the dependencies of one version of a crate.
    pub fn url_crate_dependencies(
        &self,
        crate_id: &str,
        crate_version: &str,
    ) -> (url: Result<String, RequestError>)
        ensures
            url_of(url) == found(
                endpoint::crate_dependencies(self@.base_url, crate_id@, crate_version@),
            ),
    {
        let mut url = self.base_url.clone();
        url.append("crates/");
        url.append(crate_id);
        url.append("/");
        url.append(crate_version);
        url.append("/dependencies");
        assert(url@ =~= endpoint::crate_dependencies(self@.base_url, crate_id@, crate_version@));
        Ok(url)
    }

    /// The URL of the owners of a crate.
    pub fn url_crate_owners(&self, crate_id: &str) -> (url: Result<String, RequestError>)
        ensures
            url_of(url) == found(endpoint::crate_owners(self@.base_url, crate_id@)),
    {
        let mut url = self.base_url.clone();
        url.append("crates/");
        url.append(crate_id);
        url.append("/owners");
        assert(url@ =~= endpoint::crate_owners(self@.base_url, crate_id@));
        Ok(url)
    }

    /// The URL of the authors of one version of a crate.
    pub fn url_crate_authors(
        &self,
        crate_id: &str,
        crate_version: &str,
    ) -> (url: Result<String, RequestError>)
        ensures
            url_of(url) == found(
                endpoint::crate_authors(self@.base_url, crate_id@, crate_version@),
            ),
    {
        let mut url = self.base_url.clone();
        url.append("crates/");
        url.append(crate_id);
        url.append("/");
        url.append(crate_version);
        url.append("/authors");
        assert(url@ =~= endpoint::crate_authors(self@.base_url, crate_id@, crate_version@));
        Ok(url)
    }

    /// The URL of the readme of one version of a crate.
    pub fn url_crate_readme(
        &self,
        crate_id: &str,
        crate_version: &str,
    ) -> (url: Result<String, RequestError>)
        ensures
            url_of(url) == found(endpoint::crate_readme(self@.base_url, crate_id@, crate_version@)),
    {
        let mut url = self.base_url.clone();
        url.append("crates/");
        url.append(crate_id);
        url.append("/");
        url.append(crate_version);
        url.append("/readme");
        assert(url@ =~= endpoint::crate_readme(self@.base_url, crate_id@, crate_version@));
        Ok(url)
    }

    /// The URL of the summary of the whole registry.
    pub fn url_registry_summary(&self) -> (url: Result<String, RequestError>)
        ensures
            url_of(url) == found(endpoint::registry_summary(self@.base_url)),
    {
        let mut url = self.base_url.clone();
        url.append("summary");
        assert(url@ =~= endpoint::registry_summary(self@.base_url));
        Ok(url)
    }

    /// The URL of the category that a query names by its search string or,
    /// without one, by its category.
    pub fn url_category(&self, query: Query) -> (url: Result<String, RequestError>)
        ensures
            url_of(url) == named(
                endpoint::category(self@.base_url, query@),
                RequestError::MissingCategory,
            ),
    {
        let mut url = self.base_url.clone();
        url.append("categories/");
        match query.string {
            Some(string) => {
                url.append(string.as_str());
            },
            None => match query.category {
                Some(category) => {
                    url.append(category.to_str());
                },
                None => {
                    return Err(RequestError::MissingCategory);
                },
            },
        }
        assert(url@ =~= endpoint::category(self@.base_url, query@).unwrap());
        Ok(url)
    }

    /// The URL of a page of the registry's categories. Of the query, only
    /// the page and the page size count.
    pub fn url_categories(&self, query: Query) -> (url: Result<String, RequestError>)
        ensures
            url_of(url) == found(endpoint::categories(self@.base_url, query@)),
    {
        let mut url = self.base_url.clone();
        url.append("categories?");
        push_paging(&mut url, &query);
        assert(url@ =~= endpoint::categories(self@.base_url, query@));
        Ok(url)
    }

    /// The URL of the keyword that a query names by its search string or,
    /// without one, by its keyword.
    pub fn url_keyword(&self, query: Query) -> (url: Result<String, RequestError>)
        ensures
            url_of(url) == named(
                endpoint::keyword(self@.base_url, query@),
                RequestError::MissingKeyword,
            ),
    {
        let mut url = self.base_url.clone();
        url.append("keywords/");
        match query.string {
            Some(string) => {
                url.append(string.as_str());
            },
            None => match query.keyword {
                Some(keyword) => {
                    url.append(keyword.as_str());
                },
                None => {
                    return Err(RequestError::MissingKeyword);
                },
            },
        }
        assert(url@ =~= endpoint::keyword(self@.base_url, query@).unwrap());
        Ok(url)
    }

    /// The URL of a page of the registry's keywords. Of the query, only the
    /// page and the page size count.
    pub fn url_keywords(&self, query: Query) -> (url: Result<String, RequestError>)
        ensures
            url_of(url) == found(endpoint::keywords(self@.base_url, query@)),
    {
        let mut url = self.base_url.clone();
        url.append("keywords?");
        push_paging(&mut url, &query);
        assert(url@ =~= endpoint::keywords(self@.base_url, query@));
        Ok(url)
    }

    /// The request for a URL, where there is one.
    fn request(
        url: Result<String, RequestError>,
        mode: Mode,
        format: Format,
    ) -> (request: Result<Request, RequestError>)
        ensures
            plan_of(request) == planned(url_of(url), mode, format),
    {
        match url {
            Ok(url) => Ok(Request { url, mode, format }),
            Err(error) => Err(error),
        }
    }

    /// Gets a page of crates, using a set of query options.
    pub fn get_crates(&self, query: Query) -> (request: Result<Request, RequestError>)
        ensures
            plan_of(request) == planned(
                found(endpoint::crates(self@.base_url, query@)),
                Mode::Blocking,
                Format::Json,
            ),
    {
        Client::request(self.url_crates(query), Mode::Blocking, Format::Json)
    }

    /// Tries to get a page of crates, using a set of query options.
    pub fn try_get_crates(&self, query: Query) -> (request: Result<Request, RequestError>)
        ensures
            plan_of(request) == planned(
                found(endpoint::crates(self@.base_url, query@)),
                Mode::NonBlocking,
                Format::Json,
            ),
    {
        Client::request(self.url_crates(query), Mode::NonBlocking, Format::Json)
    }

    /// Gets information about a particular crate.
    pub fn get_crate(&self, crate_id: &str) -> (request: Result<Request, RequestError>)
        ensures
            plan_of(request) == planned(
                found(endpoint::crate_info(self@.base_url, crate_id@)),
                Mode::Blocking,
                Format::Json,
            ),
    {
        Client::request(self.url_crate(crate_id), Mode::Blocking, Format::Json)
    }

    /// Tries to get information about a particular crate.
    pub fn try_get_crate(&self, crate_id: &str) -> (request: Result<Request, RequestError>)
        ensures
            plan_of(request) == planned(
                found(endpoint::crate_info(self@.base_url, crate_id@)),
                Mode::NonBlocking,
                Format::Json,
            ),
    {
        Client::request(self.url_crate(crate_id), Mode::NonBlocking, Format::Json)
    }

    /// Gets crate information for a particular version of the given crate.
    pub fn get_crate_version(
        &self,
        crate_id: &str,
        crate_version: &str,
    ) -> (request: Result<Request, RequestError>)
        ensures
            plan_of(request) == planned(
                found(endpoint::crate_version(self@.base_url, crate_id@, crate_version@)),
                Mode::Blocking,
                Format::Json,
            ),
    {
        Client::request(
            self.url_crate_version(crate_id, crate_version),
            Mode::Blocking,
            Format::Json,
        )
    }

    /// Tries to get crate information for a particular version of the given
    /// crate.
    pub fn try_get_crate_version(
        &self,
        crate_id: &str,
        crate_version: &str,
    ) -> (request: Result<Request, RequestError>)
        ensures
            plan_of(request) == planned(
                found(endpoint::crate_version(self@.base_url, crate_id@, crate_version@)),
                Mode::NonBlocking,
                Format::Json,
            ),
    {
        Client::request(
            self.url_crate_version(crate_id, crate_version),
            Mode::NonBlocking,
            Format::Json,
        )
    }

    /// Gets information about the download stats for the given crate.
    pub fn get_crate_downloads(&self, crate_id: &str) -> (request: Result<Request, RequestError>)
        ensures
            plan_of(request) == planned(
                found(endpoint::crate_downloads(self@.base_url, crate_id@)),
                Mode::Blocking,
                Format::Json,
            ),
    {
        Client::request(self.url_crate_downloads(crate_id), Mode::Blocking, Format::Json)
    }

    /// Tries to get information about the download stats for the given crate.
    pub fn try_get_crate_downloads(
        &self,
        crate_id: &str,
    ) -> (request: Result<Request, RequestError>)
        ensures
            plan_of(request) == planned(
                found(endpoint::crate_downloads(self@.base_url, crate_id@)),
                Mode::NonBlocking,
                Format::Json,
            ),
    {
        Client::request(self.url_crate_downloads(crate_id), Mode::NonBlocking, Format::Json)
    }

    /// Gets a list of dependencies for a particular version of the given crate.
    pub fn get_crate_dependencies(
        &self,
        crate_id: &str,
        crate_version: &str,
    ) -> (request: Result<Request, RequestError>)
        ensures
            plan_of(request) == planned(
                found(endpoint::crate_dependencies(self@.base_url, crate_id@, crate_version@)),
                Mode::Blocking,
                Format::Json,
            ),
    {
        Client::request(
            self.url_crate_dependencies(crate_id, crate_version),
            Mode::Blocking,
            Format::Json,
        )
    }

    /// Tries to get a list of dependencies for a particular version of the
    /// given crate.
    pub fn try_get_crate_dependencies(
        &self,
        crate_id: &str,
        crate_version: &str,
    ) -> (request: Result<Request, RequestError>)
        ensures
            plan_of(request) == planned(
                found(endpoint::crate_dependencies(self@.base_url, crate_id@, crate_version@)),
                Mode::NonBlocking,
                Format::Json,
            ),
    {
        Client::request(
            self.url_crate_dependencies(crate_id, crate_version),
            Mode::NonBlocking,
            Format::Json,
        )
    }

    /// Gets information about the owners of the given crate.
    pub fn get_crate_owners(&self, crate_id: &str) -> (request: Result<Request, RequestError>)
        ensures
            plan_of(request) == planned(
                found(endpoint::crate_owners(self@.base_url, crate_id@)),
                Mode::Blocking,
                Format::Json,
            ),
    {
        Client::request(self.url_crate_owners(crate_id), Mode::Blocking, Format::Json)
    }

    /// Tries to get information about the owners of the given crate.
    pub fn try_get_crate_owners(&self, crate_id: &str) -> (request: Result<Request, RequestError>)
        ensures
            plan_of(request) == planned(
                found(endpoint::crate_owners(self@.base_url, crate_id@)),
                Mode::NonBlocking,
                Format::Json,
            ),
    {
        Client::request(self.url_crate_owners(crate_id), Mode::NonBlocking, Format::Json)
    }

    /// Gets information about the authors for a particular version of the
    /// given crate.
    pub fn get_crate_authors(
        &self,
        crate_id: &str,
        crate_version: &str,
    ) -> (request: Result<Request, RequestError>)
        ensures
            plan_of(request) == planned(
                found(endpoint::crate_authors(self@.base_url, crate_id@, crate_version@)),
                Mode::Blocking,
                Format::Json,
            ),
    {
        Client::request(
            self.url_crate_authors(crate_id, crate_version),
            Mode::Blocking,
            Format::Json,
        )
    }

    /// Tries to get information about the authors for a particular version of
    /// the given crate.
    pub fn try_get_crate_authors(
        &self,
        crate_id: &str,
        crate_version: &str,
    ) -> (request: Result<Request, RequestError>)
        ensures
            plan_of(request) == planned(
                found(endpoint::crate_authors(self@.base_url, crate_id@, crate_version@)),
                Mode::NonBlocking,
                Format::Json,
            ),
    {
        Client::request(
            self.url_crate_authors(crate_id, crate_version),
            Mode::NonBlocking,
            Format::Json,
        )
    }

    /// Gets the readme for a particular version of the given crate. The readme
    /// is plain text.
    pub fn get_crate_readme(
        &self,
        crate_id: &str,
        crate_version: &str,
    ) -> (request: Result<Request, RequestError>)
        ensures
            plan_of(request) == planned(
                found(endpoint::crate_readme(self@.base_url, crate_id@, crate_version@)),
                Mode::Blocking,
                Format::Text,
            ),
    {
        Client::request(
            self.url_crate_readme(crate_id, crate_version),
            Mode::Blocking,
            Format::Text,
        )
    }

    /// Tries to get the readme for a particular version of the given crate. The
    /// readme is plain text.
    pub fn try_get_crate_readme(
        &self,
        crate_id: &str,
        crate_version: &str,
    ) -> (request: Result<Request, RequestError>)
        ensures
            plan_of(request) == planned(
                found(endpoint::crate_readme(self@.base_url, crate_id@, crate_version@)),
                Mode::NonBlocking,
                Format::Text,
            ),
    {
        Client::request(
            self.url_crate_readme(crate_id, crate_version),
            Mode::NonBlocking,
            Format::Text,
        )
    }

    /// Gets registry-wide summary.
    pub fn get_registry_summary(&self) -> (request: Result<Request, RequestError>)
        ensures
            plan_of(request) == planned(
                found(endpoint::registry_summary(self@.base_url)),
                Mode::Blocking,
                Format::Json,
            ),
    {
        Client::request(self.url_registry_summary(), Mode::Blocking, Format::Json)
    }

    /// Tries to get registry-wide summary.
    pub fn try_get_registry_summary(&self) -> (request: Result<Request, RequestError>)
        ensures
            plan_of(request) == planned(
                found(endpoint::registry_summary(self@.base_url)),
                Mode::NonBlocking,
                Format::Json,
            ),
    {
        Client::request(self.url_registry_summary(), Mode::NonBlocking, Format::Json)
    }

    /// Gets information about a category.
    ///
    /// # Query details
    ///
    /// This function accepts a `Query` object but can only use it's `string`
    /// or `category` fields.
    pub fn get_category(&self, query: Query) -> (request: Result<Request, RequestError>)
        ensures
            plan_of(request) == planned(
                named(endpoint::category(self@.base_url, query@), RequestError::MissingCategory),
                Mode::Blocking,
                Format::Json,
            ),
    {
        Client::request(self.url_category(query), Mode::Blocking, Format::Json)
    }

    /// Tries to get information about a category.
    ///
    /// # Query details
    ///
    /// This function accepts a `Query` object but can only use it's `string`
    /// or `category` fields.
    pub fn try_get_category(&self, query: Query) -> (request: Result<Request, RequestError>)
        ensures
            plan_of(request) == planned(
                named(endpoint::category(self@.base_url, query@), RequestError::MissingCategory),
                Mode::NonBlocking,
                Format::Json,
            ),
    {
        Client::request(self.url_category(query), Mode::NonBlocking, Format::Json)
    }

    /// Gets a paged list of categories available with the registry.
    ///
    /// # Query details
    ///
    /// This function accepts a `Query` object but can only use it's `page`
    /// and `per_page` fields.
    pub fn get_categories(&self, query: Query) -> (request: Result<Request, RequestError>)
        ensures
            plan_of(request) == planned(
                found(endpoint::categories(self@.base_url, query@)),
                Mode::Blocking,
                Format::Json,
            ),
    {
        Client::request(self.url_categories(query), Mode::Blocking, Format::Json)
    }

    /// Tries to get a paged list of categories available with the registry.
    ///
    /// # Query details
    ///
    /// This function accepts a `Query` object but can only use it's `page`
    /// and `per_page` fields.
    pub fn try_get_categories(&self, query: Query) -> (request: Result<Request, RequestError>)
        ensures
            plan_of(request) == planned(
                found(endpoint::categories(self@.base_url, query@)),
                Mode::NonBlocking,
                Format::Json,
            ),
    {
        Client::request(self.url_categories(query), Mode::NonBlocking, Format::Json)
    }

    /// Gets information about a keyword.
    ///
    /// # Query details
    ///
    /// This function accepts a `Query` object but can only use it's `string`
    /// or `keyword` fields.
    pub fn get_keyword(&self, query: Query) -> (request: Result<Request, RequestError>)
        ensures
            plan_of(request) == planned(
                named(endpoint::keyword(self@.base_url, query@), RequestError::MissingKeyword),
                Mode::Blocking,
                Format::Json,
            ),
    {
        Client::request(self.url_keyword(query), Mode::Blocking, Format::Json)
    }

    /// Tries to get information about a keyword.
    ///
    /// # Query details
    ///
    /// This function accepts a `Query` object but can only use it's `string`
    /// or `keyword` fields.
    pub fn try_get_keyword(&self, query: Query) -> (request: Result<Request, RequestError>)
        ensures
            plan_of(request) == planned(
                named(endpoint::keyword(self@.base_url, query@), RequestError::MissingKeyword),
                Mode::NonBlocking,
                Format::Json,
            ),
    {
        Client::request(self.url_keyword(query), Mode::NonBlocking, Format::Json)
    }

    /// Gets a paged list of keywords used by crates within the registry.
    ///
    /// # Query details
    ///
    /// This function accepts a `Query` object but can only use it's `page`
    /// and `per_page` fields.
    pub fn get_keywords(&self, query: Query) -> (request: Result<Request, RequestError>)
        ensures
            plan_of(request) == planned(
                found(endpoint::keywords(self@.base_url, query@)),
                Mode::Blocking,
                Format::Json,
            ),
    {
        Client::request(self.url_keywords(query), Mode::Blocking, Format::Json)
    }

    /// Tries to get a paged list of keywords used by crates within the
    /// registry.
    ///
    /// # Query details
    ///
    /// This function accepts a `Query` object but can only use it's `page`
    /// and `per_page` fields.
    pub fn try_get_keywords(&self, query: Query) -> (request: Result<Request, RequestError>)
        ensures
            plan_of(request) == planned(
                found(endpoint::keywords(self@.base_url, query@)),
                Mode::NonBlocking,
                Format::Json,
            ),
    {
        Client::request(self.url_keywords(query), Mode::NonBlocking, Format::Json)
    }

    /// Puts a non-blocking request for `url` to the rate limiter at `now`.
    ///
    /// A denied request is over with `WouldBlock`, and nothing has changed.
    /// An admitted request moves the window to `now`, whatever its URL; it
    /// is then to be sent, unless its URL is not one that a request can be
    /// sent to.
    pub fn try_get(&mut self, url: &str, now: u64) -> (step: Step)
        ensures
            step == non_blocking_step(old(self)@.window, url@, now as int),
            final(self)@ == old(self)@.after(now as int),
    {
        match self.limiter.try_admit(now) {
            Admission::Denied => Step::Fail(RequestError::WouldBlock),
            Admission::Admitted => match check_url(url) {
                Ok(()) => Step::Fetch,
                Err(error) => Step::Fail(RequestError::Transport(error)),
            },
        }
    }

    /// Puts a blocking request for `url` to the rate limiter at `now`.
    ///
    /// This is one turn of the wait: a denied request is told how long to
    /// wait before it asks again, and is never failed by rate limiting.
    pub fn get(&mut self, url: &str, now: u64) -> (step: Step)
        ensures
            step == blocking_step(old(self)@.window, url@, now as int),
            final(self)@ == old(self)@.after(now as int),
    {
        match self.try_get(url, now) {
            Step::Fail(RequestError::WouldBlock) => Step::Retry(RETRY_INTERVAL),
            step => step,
        }
    }

    /// Puts a request to the rate limiter at `now`, as its mode asks.
    pub fn poll(&mut self, request: &Request, now: u64) -> (step: Step)
        ensures
            step == next_step(old(self)@.window, request@.mode, request@.url, now as int),
            final(self)@ == old(self)@.after(now as int),
    {
        match request.mode {
            Mode::Blocking => self.get(request.url.as_str(), now),
            Mode::NonBlocking => self.try_get(request.url.as_str(), now),
        }
    }
}

/// Of two non-blocking calls made back to back, the second ends in
/// `WouldBlock` and is never sent: a request that follows an admitted one
/// before the minimum interval has passed is denied.
pub proof fn lemma_second_call_would_block(window: Window, url: Seq<char>, now: int, later: int)
    requires
        0 <= window.min_interval,
        window.permits(now),
        now <= later < now + window.min_interval,
    ensures
        non_blocking_step(window.after(now), url, later) == Step::Fail(RequestError::WouldBlock),
{
}

/// A request is sent only when the rate limiter admits it, whatever its
/// mode.
pub proof fn lemma_fetch_is_admitted(window: Window, mode: Mode, url: Seq<char>, now: int)
    requires
        next_step(window, mode, url, now) == Step::Fetch,
    ensures
        window.permits(now),
{
}

/// Rate limiting alone never ends a blocking request.
pub proof fn lemma_blocking_never_would_block(window: Window, url: Seq<char>, now: int)
    ensures
        blocking_step(window, url, now) != Step::Fail(RequestError::WouldBlock),
{
}

/// Any two requests that are sent are at least the minimum interval apart:
/// whatever requests the callers of one client put to it, in whatever
/// order and mode, no two of them are sent within the same window.
pub proof fn lemma_fetches_are_spaced(
    window: Window,
    times: Seq<int>,
    i: int,
    j: int,
    mode_i: Mode,
    url_i: Seq<char>,
    mode_j: Mode,
    url_j: Seq<char>,
)
    requires
        0 <= window.min_interval,
        0 < window.min_interval || crate::limiter::non_decreasing(times),
        0 <= i < j < times.len(),
        next_step(window.after_all(times.take(i)), mode_i, url_i, times[i]) == Step::Fetch,
        next_step(window.after_all(times.take(j)), mode_j, url_j, times[j]) == Step::Fetch,
    ensures
        times[j] - times[i] >= window.min_interval,
{
    crate::limiter::lemma_admitted_requests_are_spaced(window, times, i, j);
}

} // verus!
