//! The registry client: which calls it makes, and what it makes of the
//! replies.
//!
//! The client neither opens connections nor decodes bodies. It says which
//! call is to be made, with which credential, and the application performs
//! it and reports what came back as a [`Reply`]. From the reply the client
//! derives the result, or the error of the taxonomy that applies.

use crate::clawhub::types::{
    result_of_hit, result_of_item, ApiSearchResponse, ApiSearchResult, GetSkillResponse,
    SearchItem, SearchResponse, SearchResult, SkillMeta,
};
use vstd::prelude::*;

verus! {

/// Why a call to the registry gave no result.
#[derive(Debug, Clone, Copy, PartialEq, Eq, Structural)]
pub enum RegistryError {
    /// The transport failed or timed out, or the registry failed to serve.
    /// Worth another try.
    Network,
    /// The registry answered with something this client does not
    /// understand. Another try will not help.
    BadResponse,
    /// The registry does not know the skill or the version.
    NotFound,
    /// The registry rejected the credential, or its absence.
    Unauthorized,
}

/// A call to the registry.
#[derive(Debug, Clone, PartialEq, Eq)]
pub enum RegistryCall {
    /// The dedicated search endpoint, the only one that filters by query.
    Search { query: String, limit: usize, sort: String },
    /// One page of the list endpoint. `cursor` is the token the previous page
    /// handed out, and is absent for the first page.
    List { cursor: Option<String>, limit: usize, sort: String },
    /// The detail of one skill.
    GetSkill { slug: String },
    /// The artifact of one version of a skill.
    Download { slug: String, version: String },
}

/// A call together with where it goes and the credential it carries.
#[derive(Debug, Clone, PartialEq, Eq)]
pub struct Request {
    /// Base address of the registry.
    pub registry: String,
    /// Bearer credential; absent for anonymous access.
    pub bearer: Option<String>,
    pub call: RegistryCall,
}

/// What came back from a call.
#[derive(Debug, Clone, PartialEq, Eq)]
pub enum Reply<T> {
    /// Nothing came back: the transport failed or timed out.
    Unreachable,
    /// The registry answered with a status that is not a success.
    Status(u16),
    /// The registry answered with success, and a body that does not decode.
    Undecodable,
    /// The registry answered with success, and this body.
    Body(T),
}

/// The error that a status other than success stands for: 401 and 403 reject
/// the credential, 404 is not found, 500 to 599 are failures to serve and
/// count as network errors, and any other status is a bad response.
pub open spec fn error_of_status(status: u16) -> RegistryError {
    if status == 401 || status == 403 {
        RegistryError::Unauthorized
    } else if status == 404 {
        RegistryError::NotFound
    } else if 500 <= status <= 599 {
        RegistryError::Network
    } else {
        RegistryError::BadResponse
    }
}

/// What a reply amounts to.
pub open spec fn outcome_of<T>(reply: Reply<T>) -> Result<T, RegistryError> {
    match reply {
        Reply::Unreachable => Err(RegistryError::Network),
        Reply::Status(status) => Err(error_of_status(status)),
        Reply::Undecodable => Err(RegistryError::BadResponse),
        Reply::Body(body) => Ok(body),
    }
}

/// Whether a status reports success: 200 to 299.
pub open spec fn is_success(status: u16) -> bool {
    200 <= status <= 299
}

impl<T> Reply<T> {
    /// The reply that an answer of the registry amounts to: its body where
    /// the status reports success and the body decoded, `Undecodable` where
    /// the status reports success and the body did not decode, and the
    /// status otherwise.
    pub fn received(status: u16, body: Option<T>) -> (r: Self)
        ensures
            r == if is_success(status) {
                match body {
                    Some(decoded) => Reply::Body(decoded),
                    None => Reply::Undecodable,
                }
            } else {
                Reply::Status(status)
            },
    {
        if 200 <= status && status <= 299 {
            match body {
                Some(decoded) => Reply::Body(decoded),
                None => Reply::Undecodable,
            }
        } else {
            Reply::Status(status)
        }
    }

    /// The body of the reply, or the error the reply stands for.
    pub fn outcome(self) -> (r: Result<T, RegistryError>)
        ensures
            r == outcome_of(self),
    {
        match self {
            Reply::Unreachable => Err(RegistryError::Network),
            Reply::Status(status) => {
                if status == 401 || status == 403 {
                    Err(RegistryError::Unauthorized)
                } else if status == 404 {
                    Err(RegistryError::NotFound)
                } else if 500 <= status && status <= 599 {
                    Err(RegistryError::Network)
                } else {
                    Err(RegistryError::BadResponse)
                }
            },
            Reply::Undecodable => Err(RegistryError::BadResponse),
            Reply::Body(body) => Ok(body),
        }
    }
}

/// `results` lists the first `limit` of `hits`, each normalised, in order.
pub open spec fn lists_hits(results: Seq<SearchResult>, hits: Seq<ApiSearchResult>, limit: usize)
    -> bool {
    &&& results.len() == if hits.len() <= limit {
        hits.len()
    } else {
        limit as nat
    }
    &&& forall|i: int|
        0 <= i < results.len() ==> #[trigger] results[i] == result_of_hit(hits[i])
}

/// `results` lists `earlier`, followed by as many of `items`, each
/// normalised and in order, as `limit` leaves room for.
pub open spec fn lists_items(
    results: Seq<SearchResult>,
    earlier: Seq<SearchResult>,
    items: Seq<SearchItem>,
    limit: usize,
) -> bool {
    let room = if earlier.len() >= limit {
        0
    } else {
        limit - earlier.len()
    };
    let taken = if items.len() <= room {
        items.len() as int
    } else {
        room
    };
    &&& results.len() == earlier.len() + taken
    &&& forall|i: int| 0 <= i < earlier.len() ==> #[trigger] results[i] == earlier[i]
    &&& forall|i: int|
        0 <= i < taken ==> #[trigger] results[earlier.len() + i] == result_of_item(items[i])
}

/// The client of one registry.
#[derive(Debug, Clone)]
pub struct ClawHubClient {
    registry: String,
    token: Option<String>,
}

/// A walk through the pages of the list endpoint.
#[derive(Debug, PartialEq, Eq)]
pub struct Listing {
    /// The most results wanted.
    pub limit: usize,
    /// The ordering asked of the registry.
    pub sort: String,
    /// What the pages read so far have given.
    pub collected: Vec<SearchResult>,
}

/// How a walk through the list endpoint goes on after a page.
#[derive(Debug, PartialEq, Eq)]
pub enum ListStep {
    /// Another page is wanted: make the call, then go on with the listing.
    More { listing: Listing, next: Request },
    /// The walk is over, with these results.
    Done(Vec<SearchResult>),
    /// The walk failed.
    Failed(RegistryError),
}

impl ClawHubClient {
    /// The base address of the registry.
    pub closed spec fn base(&self) -> Seq<char> {
        self.registry@
    }

    /// The credential, if any.
    pub closed spec fn credential(&self) -> Option<Seq<char>> {
        match self.token {
            Some(token) => Some(token@),
            None => None,
        }
    }

    /// `request` goes to this client's registry with this client's
    /// credential.
    pub open spec fn addresses(&self, request: Request) -> bool {
        &&& request.registry@ == self.base()
        &&& match request.bearer {
            Some(bearer) => self.credential() == Some(bearer@),
            None => self.credential() is None,
        }
    }

    /// A client of the registry at `registry`, anonymous where `token` is
    /// absent.
    pub fn new(registry: &str, token: Option<String>) -> (r: Self)
        ensures
            r.base() == registry@,
            r.credential() == match token {
                Some(t) => Some(t@),
                None => None,
            },
    {
        ClawHubClient { registry: registry.to_owned(), token }
    }

    /// Wraps a call with the registry's address and the credential.
    fn request(&self, call: RegistryCall) -> (r: Request)
        ensures
            self.addresses(r),
            r.call == call,
    {
        let bearer = match &self.token {
            Some(token) => Some(token.clone()),
            None => None,
        };
        Request { registry: self.registry.clone(), bearer, call }
    }

    /// The call that searches for `query`. `sort` is handed to the registry
    /// as it is: which orderings exist is for the registry to say.
    pub fn search(&self, query: &str, limit: usize, sort: &str) -> (r: Request)
        ensures
            self.addresses(r),
            r.call matches RegistryCall::Search { query: q, limit: l, sort: s } && q@ == query@ && l
                == limit && s@ == sort@,
    {
        self.request(
            RegistryCall::Search { query: query.to_owned(), limit, sort: sort.to_owned() },
        )
    }

    /// The results of a search: the first `limit` hits of the reply, each
    /// normalised, in the registry's order.
    pub fn search_results(reply: Reply<ApiSearchResponse>, limit: usize) -> (r: Result<
        Vec<SearchResult>,
        RegistryError,
    >)
        ensures
            match outcome_of(reply) {
                Ok(body) => r is Ok && lists_hits(r->Ok_0@, body.results@, limit),
                Err(e) => r == Err::<Vec<SearchResult>, RegistryError>(e),
            },
    {
        let body = match reply.outcome() {
            Ok(body) => body,
            Err(e) => {
                return Err(e);
            },
        };
        let mut hits = body.results;
        let ghost all = hits@;
        hits.truncate(limit);
        let mut results: Vec<SearchResult> = Vec::new();
        for hit in it: hits
            invariant
                it.seq() == hits@,
                hits@.len() <= limit,
                hits@.len() <= all.len(),
                forall|i: int| 0 <= i < hits@.len() ==> hits@[i] == all[i],
                results@.len() == it.index(),
                forall|i: int|
                    0 <= i < results@.len() ==> #[trigger] results@[i] == result_of_hit(all[i]),
        {
            results.push(SearchResult::from(hit));
        }
        Ok(results)
    }

    /// The call that fetches the detail of `slug`.
    pub fn get_skill(&self, slug: &str) -> (r: Request)
        ensures
            self.addresses(r),
            r.call matches RegistryCall::GetSkill { slug: s } && s@ == slug@,
    {
        self.request(RegistryCall::GetSkill { slug: slug.to_owned() })
    }

    /// The skill a detail reply describes.
    pub fn skill_meta(reply: Reply<GetSkillResponse>) -> (r: Result<SkillMeta, RegistryError>)
        ensures
            match outcome_of(reply) {
                Ok(body) => r is Ok && r->Ok_0.is_detail_of(body) && r->Ok_0.at_most_one_latest(),
                Err(e) => r == Err::<SkillMeta, RegistryError>(e),
            },
    {
        match reply.outcome() {
            Ok(body) => Ok(SkillMeta::from(body)),
            Err(e) => Err(e),
        }
    }

    /// The call that fetches the artifact of `version` of `slug`.
    pub fn fetch_artifact(&self, slug: &str, version: &str) -> (r: Request)
        ensures
            self.addresses(r),
            r.call matches RegistryCall::Download { slug: s, version: v } && s@ == slug@ && v@
                == version@,
    {
        self.request(
            RegistryCall::Download { slug: slug.to_owned(), version: version.to_owned() },
        )
    }

    /// The bytes of an artifact reply.
    pub fn artifact(reply: Reply<Vec<u8>>) -> (r: Result<Vec<u8>, RegistryError>)
        ensures
            r == outcome_of(reply),
    {
        reply.outcome()
    }

    /// Starts a walk through the list endpoint for at most `limit` results:
    /// the empty listing, and the call for the first page.
    pub fn list(&self, limit: usize, sort: &str) -> (r: (Listing, Request))
        ensures
            r.0.limit == limit,
            r.0.sort@ == sort@,
            r.0.collected@.len() == 0,
            self.addresses(r.1),
            r.1.call matches RegistryCall::List { cursor, limit: l, sort: s } && cursor is None
                && l == limit && s@ == sort@,
    {
        let listing = Listing { limit, sort: sort.to_owned(), collected: Vec::new() };
        let first = self.request(RegistryCall::List { cursor: None, limit, sort: sort.to_owned() });
        (listing, first)
    }

    /// Takes in one page of the list endpoint.
    ///
    /// A failed reply fails the walk. Otherwise the page's items join the
    /// results, as far as the limit leaves room. The walk is over when the
    /// limit is reached or the page names no next page; else the next call
    /// carries the page's cursor, as the registry handed it out.
    pub fn next_page(&self, listing: Listing, reply: Reply<SearchResponse>) -> (r: ListStep)
        ensures
            match outcome_of(reply) {
                Err(e) => r == ListStep::Failed(e),
                Ok(page) => match r {
                    ListStep::Failed(_) => false,
                    ListStep::Done(results) => {
                        &&& lists_items(results@, listing.collected@, page.items@, listing.limit)
                        &&& (results@.len() >= listing.limit || page.next_cursor is None)
                    },
                    ListStep::More { listing: rest, next } => {
                        &&& lists_items(
                            rest.collected@,
                            listing.collected@,
                            page.items@,
                            listing.limit,
                        )
                        &&& rest.collected@.len() < listing.limit
                        &&& rest.limit == listing.limit
                        &&& rest.sort == listing.sort
                        &&& page.next_cursor is Some
                        &&& self.addresses(next)
                        &&& next.call matches RegistryCall::List { cursor, limit, sort } && cursor
                            == page.next_cursor && limit == listing.limit && sort@
                            == listing.sort@
                    },
                },
            },
    {
        let page = match reply.outcome() {
            Ok(page) => page,
            Err(e) => {
                return ListStep::Failed(e);
            },
        };
        let Listing { limit, sort, collected } = listing;
        let mut collected = collected;
        let ghost earlier = collected@;
        let mut items = page.items;
        let ghost all = items@;
        let room: usize = if collected.len() >= limit {
            0
        } else {
            limit - collected.len()
        };
        items.truncate(room);
        for item in it: items
            invariant
                it.seq() == items@,
                items@.len() <= room,
                items@.len() <= all.len(),
                forall|i: int| 0 <= i < items@.len() ==> items@[i] == all[i],
                collected@.len() == earlier.len() + it.index(),
                forall|i: int| 0 <= i < earlier.len() ==> #[trigger] collected@[i] == earlier[i],
                forall|i: int|
                    0 <= i < it.index() ==> #[trigger] collected@[earlier.len() + i]
                        == result_of_item(all[i]),
        {
            let ghost before = collected@;
            collected.push(SearchResult::from(item));
            assert forall|i: int| 0 <= i < it.index() + 1 implies #[trigger] collected@[earlier.len()
                + i] == result_of_item(all[i]) by {
                if i < it.index() {
                    assert(collected@[earlier.len() + i] == before[earlier.len() + i]);
                }
            }
        }
        if collected.len() >= limit {
            return ListStep::Done(collected);
        }
        match page.next_cursor {
            None => ListStep::Done(collected),
            Some(cursor) => {
                let next = self.request(
                    RegistryCall::List { cursor: Some(cursor), limit, sort: sort.clone() },
                );
                ListStep::More { listing: Listing { limit, sort, collected }, next }
            },
        }
    }
}

} // verus!
