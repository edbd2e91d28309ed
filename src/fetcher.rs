//! The input fetcher: decides, for a (year, day), whether the cache answers
//! or the network must be asked, and stores what the network returned.
//!
//! The network call itself is made by the caller: `get_input_handle_cache`
//! says what to do, and `accept_input` takes the fetched body.

use vstd::prelude::*;

use crate::cache::{text_of, Cache, MemoryCache, NoCache};
use crate::day::AocDay;
use crate::session::Session;
use crate::text::{decimal, decimal_string, has_substring, str_contains};
use crate::year::AocYear;

verus! {

/// What to do when the cache already holds the requested input.
#[derive(Debug, PartialEq, Eq, Structural, Clone, Copy)]
pub enum HandleCacheHitStrategy {
    /// Return the cached text; no network call.
    ReturnCache,
    /// Fetch again and overwrite the cached text.
    OverwriteCache,
    /// Fail with a cache collision; no network call.
    ErrorOnCacheHit,
}

/// Why getting an input failed (network failures are the caller's).
#[derive(Debug, PartialEq, Eq, Structural, Clone, Copy)]
pub enum FetchError {
    /// The cache already holds the input and the strategy forbids using it.
    CacheCollision(AocYear, AocDay),
    /// The site did not accept the session token.
    Unauthenticated,
}

/// The authenticated GET that fetches one input.
#[derive(Debug)]
pub struct InputRequest {
    pub url: String,
    pub cookie: String,
}

/// The next step in getting an input.
#[derive(Debug)]
pub enum InputStep {
    /// The cache answered: this is the input.
    Cached(String),
    /// Send this request, then hand its body to `accept_input`.
    Fetch(InputRequest),
    /// Stop with this error.
    Failed(FetchError),
}

/// The decision alone, without the texts.
pub ghost enum Plan {
    Serve(Seq<char>),
    Fetch,
    Collide,
}

impl InputStep {
    /// The decision this step carries out.
    pub open spec fn plan(&self) -> Plan {
        match self {
            InputStep::Cached(s) => Plan::Serve(s@),
            InputStep::Fetch(_) => Plan::Fetch,
            InputStep::Failed(_) => Plan::Collide,
        }
    }
}

/// The decision for a key whose cache lookup gave `cached`.
pub open spec fn planned(cached: Option<Seq<char>>, strategy: HandleCacheHitStrategy) -> Plan {
    match cached {
        None => Plan::Fetch,
        Some(text) => match strategy {
            HandleCacheHitStrategy::ReturnCache => Plan::Serve(text),
            HandleCacheHitStrategy::OverwriteCache => Plan::Fetch,
            HandleCacheHitStrategy::ErrorOnCacheHit => Plan::Collide,
        },
    }
}

/// The site all requests go to.
pub open spec fn origin() -> Seq<char> {
    "https://adventofcode.com/"@
}

/// The address of a day's input.
pub open spec fn input_url(year: AocYear, day: AocDay) -> Seq<char> {
    origin() + decimal(year@) + "/day/"@ + decimal(day@) + "/input"@
}

/// The cookie header value that carries a session token.
pub open spec fn session_cookie(token: Seq<char>) -> Seq<char> {
    "session="@ + token
}

/// The phrase the site puts in place of an input when it does not know the
/// session.
pub open spec fn unauthenticated_marker() -> Seq<char> {
    "Puzzle inputs differ by user"@
}

/// The cookie header value for `session`.
pub fn cookie_for(session: &Session) -> (r: String)
    ensures
        r@ == session_cookie(session@),
{
    let mut c = "session=".to_string();
    c.append(session.token());
    c
}

/// The address of a day's input.
pub fn input_url_for(year: AocYear, day: AocDay) -> (r: String)
    ensures
        r@ == input_url(year, day),
{
    let mut url = "https://adventofcode.com/".to_string();
    let y = decimal_string(year.number() as u64);
    let d = decimal_string(day.number() as u64);
    url.append(y.as_str());
    url.append("/day/");
    url.append(d.as_str());
    url.append("/input");
    url
}

/// Gets puzzle inputs through a cache of type `C`.
pub struct InputFetcher<C: Cache> {
    session: Session,
    cache: C,
}

impl InputFetcher<NoCache> {
    /// A fetcher that caches nothing.
    pub fn new(session: Session) -> (r: Self)
        ensures
            r.session_token() == session@,
            r.cache_state() == NoCache,
    {
        InputFetcher { session, cache: NoCache::new() }
    }
}

impl InputFetcher<MemoryCache> {
    /// A fetcher with an empty in-memory cache whose writes overwrite.
    pub fn with_memory_cache(session: Session) -> (r: Self)
        ensures
            r.session_token() == session@,
            r.cache_state().entries() == Map::<u128, Seq<char>>::empty(),
            r.cache_state().conflict_policy() == crate::cache::CacheConflictPolicy::Overwrite,
    {
        InputFetcher { session, cache: MemoryCache::new() }
    }
}

impl<C: Cache> InputFetcher<C> {
    /// The token the fetcher authenticates with.
    pub closed spec fn session_token(&self) -> Seq<char> {
        self.session@
    }

    /// The fetcher's cache.
    pub closed spec fn cache_state(&self) -> C {
        self.cache
    }

    /// A fetcher over the given cache.
    pub fn with_cache(session: Session, cache: C) -> (r: Self)
        ensures
            r.session_token() == session@,
            r.cache_state() == cache,
    {
        InputFetcher { session, cache }
    }

    /// The fetcher's cache.
    pub fn cache(&self) -> (r: &C)
        ensures
            *r == self.cache_state(),
    {
        &self.cache
    }

    /// The next step in getting the input of (year, day): the cached text,
    /// a request to send, or a cache collision, as `handle_cache_hit` decides.
    pub fn get_input_handle_cache(
        &self,
        year: AocYear,
        day: AocDay,
        handle_cache_hit: HandleCacheHitStrategy,
    ) -> (r: InputStep)
        ensures
            exists|found: Option<Seq<char>>|
                {
                    &&& self.cache_state().reads_as(year, day, found)
                    &&& r.plan() == planned(found, handle_cache_hit)
                },
            r matches InputStep::Fetch(req) ==> req.url@ == input_url(year, day)
                && req.cookie@ == session_cookie(self.session_token()),
            r matches InputStep::Failed(e) ==> e == FetchError::CacheCollision(year, day),
    {
        let found = self.cache.read(year, day);
        let ghost seen = text_of(found);
        let step = match found {
            Some(cached) => match handle_cache_hit {
                HandleCacheHitStrategy::ReturnCache => InputStep::Cached(cached),
                HandleCacheHitStrategy::OverwriteCache => self.input_request(year, day),
                HandleCacheHitStrategy::ErrorOnCacheHit => InputStep::Failed(
                    FetchError::CacheCollision(year, day),
                ),
            },
            None => self.input_request(year, day),
        };
        assert(self.cache_state().reads_as(year, day, seen) && step.plan() == planned(
            seen,
            handle_cache_hit,
        ));
        step
    }

    fn input_request(&self, year: AocYear, day: AocDay) -> (r: InputStep)
        ensures
            r matches InputStep::Fetch(req) && req.url@ == input_url(year, day) && req.cookie@
                == session_cookie(self.session_token()),
    {
        InputStep::Fetch(
            InputRequest { url: input_url_for(year, day), cookie: cookie_for(&self.session) },
        )
    }

    /// `get_input_handle_cache` with the cached text returned when present.
    pub fn get_input(&self, year: AocYear, day: AocDay) -> (r: InputStep)
        ensures
            exists|found: Option<Seq<char>>|
                {
                    &&& self.cache_state().reads_as(year, day, found)
                    &&& r.plan() == planned(found, HandleCacheHitStrategy::ReturnCache)
                },
            r matches InputStep::Fetch(req) ==> req.url@ == input_url(year, day)
                && req.cookie@ == session_cookie(self.session_token()),
            r is Failed ==> false,
    {
        self.get_input_handle_cache(year, day, HandleCacheHitStrategy::ReturnCache)
    }

    /// Takes the body fetched for (year, day). A body that says the session
    /// was not recognised is an error and is not cached; any other body is
    /// written to the cache and returned, whether or not the write succeeded.
    pub fn accept_input(&mut self, year: AocYear, day: AocDay, body: String) -> (r: Result<
        String,
        FetchError,
    >)
        ensures
            input_accepted(*old(self), *final(self), year, day, body@, r),
    {
        if str_contains(body.as_str(), "Puzzle inputs differ by user") {
            return Err(FetchError::Unauthenticated);
        }
        let ghost prior = self.cache_state();
        let written = self.cache.write(year, day, body.as_str());
        assert(prior.written(year, day, body@, self.cache_state(), written is Ok));
        let r = Ok(body);
        assert(input_accepted(*old(self), *self, year, day, body@, r));
        r
    }
}

/// Whether `after` and `r` are what accepting the fetched `body` for
/// (year, day) leaves and returns: a body with the unauthenticated marker is
/// an error and changes nothing; any other body is returned, and the cache
/// is left as one write of it leaves it, whether or not that write succeeded.
pub open spec fn input_accepted<C: Cache>(
    before: InputFetcher<C>,
    after: InputFetcher<C>,
    year: AocYear,
    day: AocDay,
    body: Seq<char>,
    r: Result<String, FetchError>,
) -> bool {
    if has_substring(body, unauthenticated_marker()) {
        r == Err::<String, FetchError>(FetchError::Unauthenticated) && after == before
    } else {
        &&& r matches Ok(text) && text@ == body
        &&& after.session_token() == before.session_token()
        &&& exists|ok: bool| before.cache_state().written(year, day, body, after.cache_state(), ok)
    }
}

/// With `ReturnCache`, a cache lookup that found a text serves that text
/// and makes no request.
pub proof fn lemma_cache_hit_served(text: Seq<char>)
    ensures
        planned(Some(text), HandleCacheHitStrategy::ReturnCache) == Plan::Serve(text),
{
}

/// With `ErrorOnCacheHit`, a cache lookup that found a text fails with a
/// collision and makes no request.
pub proof fn lemma_cache_hit_collides(text: Seq<char>)
    ensures
        planned(Some(text), HandleCacheHitStrategy::ErrorOnCacheHit) == Plan::Collide,
{
}

/// A fetcher over an in-memory cache: where the cache holds the input,
/// `ReturnCache` serves it and `ErrorOnCacheHit` collides, with no request.
pub proof fn lemma_memory_cache_hit(
    fetcher: InputFetcher<MemoryCache>,
    year: AocYear,
    day: AocDay,
    text: Seq<char>,
    found: Option<Seq<char>>,
)
    requires
        fetcher.cache_state().stored(year, day) == Some(text),
        fetcher.cache_state().reads_as(year, day, found),
    ensures
        planned(found, HandleCacheHitStrategy::ReturnCache) == Plan::Serve(text),
        planned(found, HandleCacheHitStrategy::ErrorOnCacheHit) == Plan::Collide,
{
}

/// With the input not in an in-memory cache, getting it takes exactly one
/// request, whatever the strategy; once a body without the unauthenticated
/// marker is accepted, that body is returned and the cache holds it.
pub proof fn lemma_cache_miss_fetches_once(
    before: InputFetcher<MemoryCache>,
    after: InputFetcher<MemoryCache>,
    year: AocYear,
    day: AocDay,
    strategy: HandleCacheHitStrategy,
    found: Option<Seq<char>>,
    body: Seq<char>,
    r: Result<String, FetchError>,
)
    requires
        before.cache_state().stored(year, day) is None,
        before.cache_state().reads_as(year, day, found),
        !has_substring(body, unauthenticated_marker()),
        input_accepted(before, after, year, day, body, r),
    ensures
        planned(found, strategy) == Plan::Fetch,
        r matches Ok(text) && text@ == body,
        after.cache_state().stored(year, day) == Some(body),
{
}

/// A body with the unauthenticated marker is never returned as input, and
/// leaves the fetcher, its cache included, unchanged.
pub proof fn lemma_unauthenticated_body_rejected<C: Cache>(
    before: InputFetcher<C>,
    after: InputFetcher<C>,
    year: AocYear,
    day: AocDay,
    body: Seq<char>,
    r: Result<String, FetchError>,
)
    requires
        has_substring(body, unauthenticated_marker()),
        input_accepted(before, after, year, day, body, r),
    ensures
        r == Err::<String, FetchError>(FetchError::Unauthenticated),
        after == before,
{
}

} // verus!
