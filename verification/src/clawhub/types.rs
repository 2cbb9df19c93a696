//! Registry wire types and the internal types the rest of the runtime uses.
//!
//! The registry answers in two shapes that overlap without matching: the
//! dedicated search endpoint ([`ApiSearchResponse`]) and the list endpoint
//! ([`SearchResponse`]). Both are normalised into [`SearchResult`], and the
//! skill detail response ([`GetSkillResponse`]) into [`SkillMeta`], by total
//! conversions whose contracts say field by field what is carried over.

pub use crate::clawhub::lockfile::{LockEntry, LockFile};
use std::collections::HashMap;
use vstd::prelude::*;
use vstd::std_specs::convert::FromSpecImpl;

verus! {

// ---------------------------------------------------------------------------
// Wire types
// ---------------------------------------------------------------------------
/// Response of the dedicated search endpoint, the one that filters by query.
#[derive(Debug, Clone)]
pub struct ApiSearchResponse {
    pub results: Vec<ApiSearchResult>,
}

/// One hit of the dedicated search endpoint.
#[derive(Debug, Clone)]
pub struct ApiSearchResult {
    /// Relevance score: the bit pattern of the IEEE-754 double on the wire.
    pub score_bits: u64,
    pub slug: String,
    /// Wire name `displayName`.
    pub display_name: String,
    pub summary: String,
    pub version: String,
    /// Wire name `updatedAt`.
    pub updated_at: i64,
}

/// Response of the list endpoint, which pages through all skills.
#[derive(Debug, Clone)]
pub struct SearchResponse {
    pub items: Vec<SearchItem>,
    /// Wire name `nextCursor`: an opaque token, absent on the last page.
    pub next_cursor: Option<String>,
}

/// One item of the list endpoint.
#[derive(Debug, Clone)]
pub struct SearchItem {
    pub slug: String,
    /// Wire name `displayName`.
    pub display_name: String,
    pub summary: String,
    pub tags: HashMap<String, String>,
    pub stats: SkillStats,
    /// Wire name `createdAt`.
    pub created_at: i64,
    /// Wire name `updatedAt`.
    pub updated_at: i64,
    /// Wire name `latestVersion`.
    pub latest_version: Option<VersionItem>,
}

/// Counters the registry keeps per skill.
#[derive(Debug, Clone, PartialEq, Eq)]
pub struct SkillStats {
    pub comments: i32,
    pub downloads: i32,
    /// Wire name `installsAllTime`.
    pub installs_all_time: i32,
    /// Wire name `installsCurrent`.
    pub installs_current: i32,
    pub stars: i32,
    pub versions: i32,
}

/// A published version as the registry describes it.
#[derive(Debug, Clone, PartialEq, Eq)]
pub struct VersionItem {
    pub version: String,
    /// Wire name `createdAt`.
    pub created_at: i64,
    pub changelog: String,
}

/// Response of the skill detail endpoint.
#[derive(Debug, Clone)]
pub struct GetSkillResponse {
    pub skill: SkillItem,
    /// Wire name `latestVersion`.
    pub latest_version: VersionItem,
    pub owner: Owner,
    pub moderation: Option<serde_json::Value>,
}

/// The skill as the detail endpoint describes it.
#[derive(Debug, Clone)]
pub struct SkillItem {
    pub slug: String,
    /// Wire name `displayName`.
    pub display_name: String,
    pub summary: String,
    pub tags: HashMap<String, String>,
    pub stats: SkillStats,
    /// Wire name `createdAt`.
    pub created_at: i64,
    /// Wire name `updatedAt`.
    pub updated_at: i64,
}

/// Publisher of a skill.
#[derive(Debug, Clone, PartialEq, Eq)]
pub struct Owner {
    pub handle: String,
    /// Wire name `userId`.
    pub user_id: String,
    /// Wire name `displayName`.
    pub display_name: String,
    pub image: String,
}

// ---------------------------------------------------------------------------
// Internal types
// ---------------------------------------------------------------------------
/// Canonical description of a skill.
#[derive(Debug, Clone, PartialEq, Eq)]
pub struct SkillMeta {
    pub slug: String,
    pub name: String,
    pub description: String,
    pub versions: Vec<SkillVersion>,
    pub virustotal: Option<VirusTotal>,
    pub metadata: SkillMetadata,
}

/// A version of a skill, tagged when it is the latest.
#[derive(Debug, Clone, PartialEq, Eq)]
pub struct SkillVersion {
    pub version: String,
    pub latest: bool,
}

/// Scan summary attached to a skill. Informational: nothing here blocks an
/// install.
#[derive(Debug, Clone, PartialEq, Eq)]
pub struct VirusTotal {
    /// Wire name `reportCount`.
    pub report_count: i32,
    /// Wire name `pendingScan`.
    pub pending_scan: bool,
    pub status: String,
}

/// Requirement blocks of a skill, one per runtime family.
#[derive(Debug, Clone, PartialEq, Eq)]
pub struct SkillMetadata {
    pub openclaw: Option<OpenClawMeta>,
    pub clawdbot: Option<ClawdbotMeta>,
}

/// Requirement block under the `openclaw` key.
#[derive(Debug, Clone, PartialEq, Eq)]
pub struct OpenClawMeta {
    pub requires: Option<Requires>,
    /// Operating systems the skill runs on; empty means any.
    pub os: Vec<String>,
}

/// Requirement block under the `clawdbot` key.
#[derive(Debug, Clone, PartialEq, Eq)]
pub struct ClawdbotMeta {
    pub requires: Option<Requires>,
    /// Operating systems the skill runs on; empty means any.
    pub os: Vec<String>,
}

/// What a skill needs from the host.
#[derive(Debug, Clone, PartialEq, Eq)]
pub struct Requires {
    /// Binaries that must all be present.
    pub bins: Vec<String>,
    /// Environment variables that must all be set.
    pub env: Vec<String>,
    /// Alternatives of which one must be present. Wire name `anyBins`.
    pub any_bins: Vec<String>,
}

/// Listing projection of a skill.
#[derive(Debug, Clone, PartialEq, Eq)]
pub struct SearchResult {
    pub slug: String,
    pub name: String,
    pub description: String,
    /// Wire name `installCount`.
    pub install_count: i32,
    pub virustotal: Option<VirusTotal>,
}

// ---------------------------------------------------------------------------
// Defaults
// ---------------------------------------------------------------------------
impl Default for SkillMetadata {
    fn default() -> (r: Self)
        ensures
            r.openclaw is None,
            r.clawdbot is None,
    {
        SkillMetadata { openclaw: None, clawdbot: None }
    }
}

impl Default for OpenClawMeta {
    fn default() -> (r: Self)
        ensures
            r.requires is None,
            r.os@.len() == 0,
    {
        OpenClawMeta { requires: None, os: Vec::new() }
    }
}

impl Default for ClawdbotMeta {
    fn default() -> (r: Self)
        ensures
            r.requires is None,
            r.os@.len() == 0,
    {
        ClawdbotMeta { requires: None, os: Vec::new() }
    }
}

impl Default for Requires {
    fn default() -> (r: Self)
        ensures
            r.bins@.len() == 0,
            r.env@.len() == 0,
            r.any_bins@.len() == 0,
    {
        Requires { bins: Vec::new(), env: Vec::new(), any_bins: Vec::new() }
    }
}

// ---------------------------------------------------------------------------
// Normalisation
// ---------------------------------------------------------------------------
impl SkillMeta {
    /// At most one version is tagged latest.
    pub open spec fn at_most_one_latest(&self) -> bool {
        forall|i: int, j: int|
            0 <= i < self.versions@.len() && 0 <= j < self.versions@.len()
                && #[trigger] self.versions@[i].latest && #[trigger] self.versions@[j].latest
                ==> i == j
    }

    /// `self` is what the detail response `resp` normalises to: identity and
    /// texts carried over, exactly one version, the response's latest, tagged
    /// latest, and neither a scan summary nor requirement blocks, which that
    /// endpoint does not deliver.
    pub open spec fn is_detail_of(&self, resp: GetSkillResponse) -> bool {
        &&& self.slug == resp.skill.slug
        &&& self.name == resp.skill.display_name
        &&& self.description == resp.skill.summary
        &&& self.versions@.len() == 1
        &&& self.versions@[0].version == resp.latest_version.version
        &&& self.versions@[0].latest
        &&& self.virustotal is None
        &&& self.metadata.openclaw is None
        &&& self.metadata.clawdbot is None
    }
}

/// What a hit of the dedicated search endpoint normalises to. That endpoint
/// carries no install count: it is reported as 0.
pub open spec fn result_of_hit(item: ApiSearchResult) -> SearchResult {
    SearchResult {
        slug: item.slug,
        name: item.display_name,
        description: item.summary,
        install_count: 0,
        virustotal: None,
    }
}

/// What an item of the list endpoint normalises to. Its install count is the
/// item's `installsCurrent` counter.
pub open spec fn result_of_item(item: SearchItem) -> SearchResult {
    SearchResult {
        slug: item.slug,
        name: item.display_name,
        description: item.summary,
        install_count: item.stats.installs_current,
        virustotal: None,
    }
}

impl From<ApiSearchResult> for SearchResult {
    fn from(item: ApiSearchResult) -> (r: Self)
        ensures
            r == result_of_hit(item),
    {
        SearchResult {
            slug: item.slug,
            name: item.display_name,
            description: item.summary,
            install_count: 0,
            virustotal: None,
        }
    }
}

impl FromSpecImpl<ApiSearchResult> for SearchResult {
    open spec fn obeys_from_spec() -> bool {
        true
    }

    open spec fn from_spec(item: ApiSearchResult) -> Self {
        result_of_hit(item)
    }
}

impl From<SearchItem> for SearchResult {
    fn from(item: SearchItem) -> (r: Self)
        ensures
            r == result_of_item(item),
    {
        SearchResult {
            slug: item.slug,
            name: item.display_name,
            description: item.summary,
            install_count: item.stats.installs_current,
            virustotal: None,
        }
    }
}

impl FromSpecImpl<SearchItem> for SearchResult {
    open spec fn obeys_from_spec() -> bool {
        true
    }

    open spec fn from_spec(item: SearchItem) -> Self {
        result_of_item(item)
    }
}

impl From<GetSkillResponse> for SkillMeta {
    /// The detail endpoint names the latest version only, so the result lists
    /// that one version and no other.
    fn from(resp: GetSkillResponse) -> (r: Self)
        ensures
            r.is_detail_of(resp),
            r.at_most_one_latest(),
    {
        SkillMeta {
            slug: resp.skill.slug,
            name: resp.skill.display_name,
            description: resp.skill.summary,
            versions: vec![SkillVersion { version: resp.latest_version.version, latest: true }],
            virustotal: None,
            metadata: SkillMetadata::default(),
        }
    }
}

impl FromSpecImpl<GetSkillResponse> for SkillMeta {
    /// The result holds a `Vec`, which no spec expression builds: the
    /// conversion is specified by the `ensures` of `from` instead.
    open spec fn obeys_from_spec() -> bool {
        false
    }

    open spec fn from_spec(resp: GetSkillResponse) -> Self {
        arbitrary()
    }
}

} // verus!
