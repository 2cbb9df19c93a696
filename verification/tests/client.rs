use loongclaw::clawhub::client::{
    ClawHubClient, ListStep, Listing, RegistryCall, RegistryError, Reply, Request,
};
use loongclaw::clawhub::install::{InstallAction, InstallOptions, InstallState};
use loongclaw::clawhub::lockfile::{LockfileError, StoredLockfile};
use loongclaw::clawhub::service::{
    ClawHubConfig, ClawHubGateway, Config, RegistryClawHubGateway,
};
use loongclaw::clawhub::types::{
    ApiSearchResponse, ApiSearchResult, GetSkillResponse, LockFile, Owner, SearchItem,
    SearchResponse, SearchResult, SkillItem, SkillStats, VersionItem,
};
use std::collections::HashMap;

fn client() -> ClawHubClient {
    ClawHubClient::new("https://registry.example", Some("SECRET-REDACTED".to_string()))
}

fn request(call: RegistryCall) -> Request {
    Request {
        registry: "https://registry.example".to_string(),
        bearer: Some("SECRET-REDACTED".to_string()),
        call,
    }
}

fn hit(slug: &str) -> ApiSearchResult {
    ApiSearchResult {
        score_bits: 1.5f64.to_bits(),
        slug: slug.to_string(),
        display_name: slug.to_uppercase(),
        summary: format!("about {}", slug),
        version: "1.0.0".to_string(),
        updated_at: 5,
    }
}

fn item(slug: &str, installs: i32) -> SearchItem {
    SearchItem {
        slug: slug.to_string(),
        display_name: slug.to_uppercase(),
        summary: format!("about {}", slug),
        tags: HashMap::new(),
        stats: SkillStats {
            comments: 0,
            downloads: 0,
            installs_all_time: 100,
            installs_current: installs,
            stars: 0,
            versions: 1,
        },
        created_at: 1,
        updated_at: 2,
        latest_version: None,
    }
}

fn found(slug: &str, installs: i32) -> SearchResult {
    SearchResult {
        slug: slug.to_string(),
        name: slug.to_uppercase(),
        description: format!("about {}", slug),
        install_count: installs,
        virustotal: None,
    }
}

#[test]
fn every_call_carries_the_credential() {
    let c = client();
    assert_eq!(
        c.search("web", 10, "downloads"),
        request(RegistryCall::Search {
            query: "web".to_string(),
            limit: 10,
            sort: "downloads".to_string(),
        })
    );
    assert_eq!(
        c.get_skill("web-search"),
        request(RegistryCall::GetSkill { slug: "web-search".to_string() })
    );
    assert_eq!(
        c.fetch_artifact("web-search", "1.0.0"),
        request(RegistryCall::Download {
            slug: "web-search".to_string(),
            version: "1.0.0".to_string(),
        })
    );
    assert_eq!(
        c.list(25, "stars").1,
        request(RegistryCall::List { cursor: None, limit: 25, sort: "stars".to_string() })
    );
}

#[test]
fn anonymous_client_sends_no_credential() {
    let c = ClawHubClient::new("https://registry.example", None);
    let r = c.get_skill("a");
    assert_eq!(r.bearer, None);
    assert_eq!(r.registry, "https://registry.example");
}

#[test]
fn unknown_sort_is_passed_through() {
    let r = client().search("q", 3, "no-such-ordering");
    assert_eq!(
        r.call,
        RegistryCall::Search {
            query: "q".to_string(),
            limit: 3,
            sort: "no-such-ordering".to_string(),
        }
    );
}

#[test]
fn statuses_map_to_the_error_taxonomy() {
    assert_eq!(Reply::<u8>::Unreachable.outcome(), Err(RegistryError::Network));
    assert_eq!(Reply::<u8>::Undecodable.outcome(), Err(RegistryError::BadResponse));
    assert_eq!(Reply::<u8>::Status(401).outcome(), Err(RegistryError::Unauthorized));
    assert_eq!(Reply::<u8>::Status(403).outcome(), Err(RegistryError::Unauthorized));
    assert_eq!(Reply::<u8>::Status(404).outcome(), Err(RegistryError::NotFound));
    assert_eq!(Reply::<u8>::Status(500).outcome(), Err(RegistryError::Network));
    assert_eq!(Reply::<u8>::Status(503).outcome(), Err(RegistryError::Network));
    assert_eq!(Reply::<u8>::Status(599).outcome(), Err(RegistryError::Network));
    assert_eq!(Reply::<u8>::Status(600).outcome(), Err(RegistryError::BadResponse));
    assert_eq!(Reply::<u8>::Status(499).outcome(), Err(RegistryError::BadResponse));
    assert_eq!(Reply::<u8>::Status(400).outcome(), Err(RegistryError::BadResponse));
    assert_eq!(Reply::<u8>::Status(302).outcome(), Err(RegistryError::BadResponse));
    assert_eq!(Reply::Body(7u8).outcome(), Ok(7));
}

#[test]
fn search_results_are_the_first_hits_in_order() {
    let body = ApiSearchResponse { results: vec![hit("a"), hit("b"), hit("c")] };
    assert_eq!(
        ClawHubClient::search_results(Reply::Body(body.clone()), 2),
        Ok(vec![found("a", 0), found("b", 0)])
    );
    assert_eq!(
        ClawHubClient::search_results(Reply::Body(body.clone()), 3),
        Ok(vec![found("a", 0), found("b", 0), found("c", 0)])
    );
    assert_eq!(
        ClawHubClient::search_results(Reply::Body(body.clone()), 50),
        Ok(vec![found("a", 0), found("b", 0), found("c", 0)])
    );
    assert_eq!(ClawHubClient::search_results(Reply::Body(body), 0), Ok(vec![]));
}

#[test]
fn failed_search_reports_its_error() {
    assert_eq!(
        ClawHubClient::search_results(Reply::Unreachable, 5),
        Err(RegistryError::Network)
    );
    assert_eq!(
        ClawHubClient::search_results(Reply::Undecodable, 5),
        Err(RegistryError::BadResponse)
    );
    assert_eq!(
        ClawHubClient::search_results(Reply::Status(401), 5),
        Err(RegistryError::Unauthorized)
    );
}

#[test]
fn skill_detail_or_not_found() {
    let body = GetSkillResponse {
        skill: SkillItem {
            slug: "web-search".to_string(),
            display_name: "Web Search".to_string(),
            summary: "s".to_string(),
            tags: HashMap::new(),
            stats: item("x", 1).stats,
            created_at: 0,
            updated_at: 0,
        },
        latest_version: VersionItem {
            version: "1.0.0".to_string(),
            created_at: 0,
            changelog: String::new(),
        },
        owner: Owner {
            handle: String::new(),
            user_id: String::new(),
            display_name: String::new(),
            image: String::new(),
        },
        moderation: None,
    };
    let meta = ClawHubClient::skill_meta(Reply::Body(body)).unwrap();
    assert_eq!(meta.slug, "web-search");
    assert_eq!(meta.versions.len(), 1);
    assert!(meta.versions[0].latest);
    assert_eq!(
        ClawHubClient::skill_meta(Reply::Status(404)),
        Err(RegistryError::NotFound)
    );
}

#[test]
fn artifact_bytes_or_error() {
    assert_eq!(ClawHubClient::artifact(Reply::Body(vec![1, 2, 3])), Ok(vec![1, 2, 3]));
    assert_eq!(ClawHubClient::artifact(Reply::Status(404)), Err(RegistryError::NotFound));
    assert_eq!(ClawHubClient::artifact(Reply::Unreachable), Err(RegistryError::Network));
}

#[test]
fn listing_follows_the_cursor_until_it_is_absent() {
    let c = client();
    let (listing, first) = c.list(10, "stars");
    assert_eq!(listing, Listing { limit: 10, sort: "stars".to_string(), collected: vec![] });
    assert_eq!(
        first.call,
        RegistryCall::List { cursor: None, limit: 10, sort: "stars".to_string() }
    );
    let page = SearchResponse {
        items: vec![item("a", 1), item("b", 42)],
        next_cursor: Some("opaque-token/=+".to_string()),
    };
    let (listing, next) = match c.next_page(listing, Reply::Body(page)) {
        ListStep::More { listing, next } => (listing, next),
        other => panic!("expected another page, got {:?}", other),
    };
    assert_eq!(listing.collected, vec![found("a", 1), found("b", 42)]);
    assert_eq!(
        next,
        request(RegistryCall::List {
            cursor: Some("opaque-token/=+".to_string()),
            limit: 10,
            sort: "stars".to_string(),
        })
    );
    let page = SearchResponse { items: vec![item("c", 3)], next_cursor: None };
    assert_eq!(
        c.next_page(listing, Reply::Body(page)),
        ListStep::Done(vec![found("a", 1), found("b", 42), found("c", 3)])
    );
}

#[test]
fn listing_stops_at_the_limit() {
    let c = client();
    let (listing, _) = c.list(3, "stars");
    let page = SearchResponse {
        items: vec![item("a", 1), item("b", 2)],
        next_cursor: Some("t1".to_string()),
    };
    let listing = match c.next_page(listing, Reply::Body(page)) {
        ListStep::More { listing, .. } => listing,
        other => panic!("expected another page, got {:?}", other),
    };
    let page = SearchResponse {
        items: vec![item("c", 3), item("d", 4)],
        next_cursor: Some("t2".to_string()),
    };
    assert_eq!(
        c.next_page(listing, Reply::Body(page)),
        ListStep::Done(vec![found("a", 1), found("b", 2), found("c", 3)])
    );
    let (listing, _) = c.list(0, "stars");
    let page = SearchResponse { items: vec![item("a", 1)], next_cursor: Some("t".to_string()) };
    assert_eq!(c.next_page(listing, Reply::Body(page)), ListStep::Done(vec![]));
}

#[test]
fn failed_page_fails_the_listing() {
    let c = client();
    let (listing, _) = c.list(3, "stars");
    assert_eq!(
        c.next_page(listing, Reply::Status(503)),
        ListStep::Failed(RegistryError::Network)
    );
    let (listing, _) = c.list(3, "stars");
    assert_eq!(
        c.next_page(listing, Reply::Undecodable),
        ListStep::Failed(RegistryError::BadResponse)
    );
}

#[test]
fn gateway_is_built_from_the_configuration() {
    let config = Config {
        clawhub: ClawHubConfig {
            registry: "https://registry.example".to_string(),
            token: Some("SECRET-REDACTED".to_string()),
        },
    };
    let gateway = RegistryClawHubGateway::from_config(&config);
    assert_eq!(
        gateway.search("web", 5, "stars"),
        request(RegistryCall::Search {
            query: "web".to_string(),
            limit: 5,
            sort: "stars".to_string(),
        })
    );
    assert_eq!(
        gateway.get_skill("web-search"),
        request(RegistryCall::GetSkill { slug: "web-search".to_string() })
    );
    assert_eq!(
        gateway.client().fetch_artifact("a", "1").call,
        RegistryCall::Download { slug: "a".to_string(), version: "1".to_string() }
    );
}

#[test]
fn gateway_delegates_install_and_lockfile_reading() {
    let config =
        Config { clawhub: ClawHubConfig { registry: "r".to_string(), token: None } };
    let gateway = RegistryClawHubGateway::from_config(&config);
    let (state, action) = gateway.install("web-search", Some("1.0.0"), InstallOptions::default());
    assert_eq!(
        state,
        InstallState::Resolving {
            slug: "web-search".to_string(),
            wanted: Some("1.0.0".to_string()),
            options: InstallOptions::default(),
        }
    );
    assert_eq!(action, InstallAction::GetSkill { slug: "web-search".to_string() });
    assert_eq!(gateway.read_lockfile(StoredLockfile::Missing), Ok(LockFile::new()));
    assert_eq!(
        gateway.read_lockfile(StoredLockfile::Versioned { version: 3, skills: None }),
        Err(LockfileError::UnsupportedSchema { found: 3 })
    );
    assert_eq!(gateway.read_lockfile(StoredLockfile::Malformed), Err(LockfileError::Corrupt));
}

#[test]
fn received_answer_is_classified_by_status() {
    assert_eq!(Reply::received(200, Some(1u8)), Reply::Body(1u8));
    assert_eq!(Reply::received(299, Some(1u8)), Reply::Body(1u8));
    assert_eq!(Reply::<u8>::received(204, None), Reply::Undecodable);
    assert_eq!(Reply::received(199, Some(1u8)), Reply::Status(199));
    assert_eq!(Reply::received(300, Some(1u8)), Reply::Status(300));
    assert_eq!(Reply::received(404, Some(1u8)), Reply::Status(404));
    assert_eq!(Reply::<u8>::received(500, None), Reply::Status(500));
}
