//! The installer: a state machine that takes a skill from a slug to an
//! entry in the lockfile.
//!
//! The machine does no work outside the library. Each state awaits one
//! event; [`InstallState::step`] takes the event and answers with the next
//! state and the action the application is to perform next. The order of
//! the states is the order of the protocol: the requirement gate is passed
//! before the artifact is asked for, files are placed only for an artifact
//! that is not already installed, and the lockfile is written only after the
//! files are in place.

use crate::clawhub::client::RegistryError;
use crate::clawhub::digest::{content_hash, content_hash_of};
use crate::clawhub::gate::{constraints_of, evaluate, gate, Constraints, GateDecision, GateModel};
use crate::clawhub::lockfile::{
    entries_of, reading, recorded_is_insert, table_is_sound, EntryModel, LockDocument, LockEntry, LockFile, LockModel,
    LockfileError, StoredLockfile,
};
use crate::clawhub::types::{SkillMeta, SkillVersion};
use crate::text::{same_text, texts};
use vstd::prelude::*;

verus! {

/// How an install is to be carried out.
#[derive(Debug, Clone, PartialEq, Eq)]
pub struct InstallOptions {
    /// Place and record the skill even where the same version with the same
    /// content is already installed.
    pub force: bool,
    /// The content hash the artifact must have, where one is known.
    pub expected_hash: Option<String>,
}

impl Default for InstallOptions {
    fn default() -> (r: Self)
        ensures
            !r.force,
            r.expected_hash is None,
    {
        InstallOptions { force: false, expected_hash: None }
    }
}

/// How an install ended.
#[derive(Debug, Clone, Copy, PartialEq, Eq, Structural)]
pub enum InstallOutcome {
    /// The skill was not installed before.
    Installed,
    /// Another version of the skill was installed before.
    Upgraded,
    /// The same version with the same content was installed already, and
    /// nothing was touched.
    Skipped,
}

/// The report of an install that went through.
#[derive(Debug, Clone, PartialEq, Eq)]
pub struct InstallResult {
    pub slug: String,
    pub version: String,
    pub outcome: InstallOutcome,
}

/// Why an install was given up.
#[derive(Debug, Clone, PartialEq, Eq)]
pub enum InstallError {
    /// A call to the registry failed.
    Registry(RegistryError),
    /// The skill has no version to install, or not the one asked for.
    VersionNotFound,
    /// The host does not meet what the skill requires.
    RequirementNotMet { reason: String },
    /// The artifact does not have the content hash that was expected.
    Integrity,
    /// The lockfile could not be read.
    Lockfile(LockfileError),
    /// Placing the files or writing the lockfile failed.
    Io,
}

/// Where an install stands.
#[derive(Debug, PartialEq, Eq)]
pub enum InstallState {
    /// Awaiting the skill's detail, to settle the version.
    Resolving { slug: String, wanted: Option<String>, options: InstallOptions },
    /// Awaiting the host's facts, to pass the requirement gate.
    Gating { slug: String, version: String, meta: SkillMeta, options: InstallOptions },
    /// Awaiting the artifact.
    Fetching { slug: String, version: String, options: InstallOptions },
    /// Awaiting the lockfile, to see whether the artifact is installed
    /// already.
    Verifying { slug: String, version: String, content_hash: String, options: InstallOptions },
    /// Awaiting the placement of the files.
    Placing { slug: String, version: String, content_hash: String },
    /// Awaiting the lockfile as it stands now, read under the lock on it.
    Recording { slug: String, version: String, content_hash: String },
    /// Awaiting the writing of the lockfile.
    Persisting { result: InstallResult },
    /// The install went through.
    Done(InstallResult),
    /// The install was given up.
    Aborted(InstallError),
}

/// What the application reports to the machine.
#[derive(Debug)]
pub enum InstallEvent {
    /// The skill's detail, or why it could not be had.
    Skill(Result<SkillMeta, RegistryError>),
    /// The host's operating system, the binaries it has and the environment
    /// variables that are set.
    Host { os: String, bins: Vec<String>, env: Vec<String> },
    /// The artifact's bytes, or why they could not be had.
    Artifact(Result<Vec<u8>, RegistryError>),
    /// What was found where the lockfile is kept.
    Lockfile(StoredLockfile),
    /// Whether the files were placed.
    Placed(bool),
    /// What was found where the lockfile is kept, read while holding the
    /// lock on it, and the time of that reading.
    Locked { stored: StoredLockfile, at: String },
    /// Whether the lockfile was written.
    Written(bool),
}

/// What the machine asks of the application.
#[derive(Debug, PartialEq, Eq)]
pub enum InstallAction {
    /// Fetch the skill's detail and report it.
    GetSkill { slug: String },
    /// Look up the host's facts and report them.
    ProbeHost,
    /// Fetch the artifact and report it.
    Download { slug: String, version: String },
    /// Read the lockfile and report it.
    ReadLockfile,
    /// Put the artifact's files under `local_path` in the skills root, in
    /// place of whatever was there, and report whether that was done.
    Place { slug: String, local_path: String },
    /// Take the lock on the lockfile, read it and report it with the time.
    LockAndRead,
    /// Write this lockfile, release the lock and report whether the writing
    /// was done.
    Write(LockDocument),
    /// Nothing: the install is over.
    Stop,
    /// Nothing: the event was not the one awaited, and the state is as it
    /// was.
    Wait,
}

// ---------------------------------------------------------------------------
// The machine as plain values
// ---------------------------------------------------------------------------
/// [`InstallOptions`] as plain values.
pub struct OptionsModel {
    pub force: bool,
    pub expected_hash: Option<Seq<char>>,
}

/// [`InstallResult`] as plain values.
pub struct ResultModel {
    pub slug: Seq<char>,
    pub version: Seq<char>,
    pub outcome: InstallOutcome,
}

/// [`InstallError`] as plain values.
pub enum ErrorModel {
    Registry(RegistryError),
    VersionNotFound,
    RequirementNotMet { reason: Seq<char> },
    Integrity,
    Lockfile(LockfileError),
    Io,
}

/// A version of a skill as plain values.
pub struct VersionModel {
    pub version: Seq<char>,
    pub latest: bool,
}

/// What the installer reads of a skill's detail.
pub struct SkillFacts {
    pub versions: Seq<VersionModel>,
    pub constraints: Constraints,
}

/// [`InstallState`] as plain values.
pub enum StateModel {
    Resolving { slug: Seq<char>, wanted: Option<Seq<char>>, options: OptionsModel },
    Gating { slug: Seq<char>, version: Seq<char>, constraints: Constraints, options: OptionsModel },
    Fetching { slug: Seq<char>, version: Seq<char>, options: OptionsModel },
    Verifying {
        slug: Seq<char>,
        version: Seq<char>,
        content_hash: Seq<char>,
        options: OptionsModel,
    },
    Placing { slug: Seq<char>, version: Seq<char>, content_hash: Seq<char> },
    Recording { slug: Seq<char>, version: Seq<char>, content_hash: Seq<char> },
    Persisting { result: ResultModel },
    Done(ResultModel),
    Aborted(ErrorModel),
}

/// [`InstallEvent`] as plain values.
pub enum EventModel {
    Skill(Result<SkillFacts, RegistryError>),
    Host { os: Seq<char>, bins: Seq<Seq<char>>, env: Seq<Seq<char>> },
    Artifact(Result<Seq<u8>, RegistryError>),
    Lockfile(Result<LockModel, LockfileError>),
    Placed(bool),
    Locked { lockfile: Result<LockModel, LockfileError>, at: Seq<char> },
    Written(bool),
}

/// [`InstallAction`] as plain values.
pub enum ActionModel {
    GetSkill { slug: Seq<char> },
    ProbeHost,
    Download { slug: Seq<char>, version: Seq<char> },
    ReadLockfile,
    Place { slug: Seq<char>, local_path: Seq<char> },
    LockAndRead,
    Write(LockModel),
    Stop,
    Wait,
}

impl View for InstallOptions {
    type V = OptionsModel;

    open spec fn view(&self) -> OptionsModel {
        OptionsModel {
            force: self.force,
            expected_hash: match self.expected_hash {
                Some(hash) => Some(hash@),
                None => None,
            },
        }
    }
}

impl View for InstallResult {
    type V = ResultModel;

    open spec fn view(&self) -> ResultModel {
        ResultModel { slug: self.slug@, version: self.version@, outcome: self.outcome }
    }
}

impl View for InstallError {
    type V = ErrorModel;

    open spec fn view(&self) -> ErrorModel {
        match *self {
            InstallError::Registry(e) => ErrorModel::Registry(e),
            InstallError::VersionNotFound => ErrorModel::VersionNotFound,
            InstallError::RequirementNotMet { reason } => ErrorModel::RequirementNotMet {
                reason: reason@,
            },
            InstallError::Integrity => ErrorModel::Integrity,
            InstallError::Lockfile(e) => ErrorModel::Lockfile(e),
            InstallError::Io => ErrorModel::Io,
        }
    }
}

/// The versions of a skill as plain values.
pub open spec fn versions_of(versions: Seq<SkillVersion>) -> Seq<VersionModel> {
    versions.map_values(|v: SkillVersion| VersionModel { version: v.version@, latest: v.latest })
}

/// What the installer reads of a skill's detail.
pub open spec fn facts_of(meta: SkillMeta) -> SkillFacts {
    SkillFacts { versions: versions_of(meta.versions@), constraints: constraints_of(meta) }
}

impl View for InstallState {
    type V = StateModel;

    open spec fn view(&self) -> StateModel {
        match *self {
            InstallState::Resolving { slug, wanted, options } => StateModel::Resolving {
                slug: slug@,
                wanted: match wanted {
                    Some(version) => Some(version@),
                    None => None,
                },
                options: options@,
            },
            InstallState::Gating { slug, version, meta, options } => StateModel::Gating {
                slug: slug@,
                version: version@,
                constraints: constraints_of(meta),
                options: options@,
            },
            InstallState::Fetching { slug, version, options } => StateModel::Fetching {
                slug: slug@,
                version: version@,
                options: options@,
            },
            InstallState::Verifying {
                slug,
                version,
                content_hash,
                options,
            } => StateModel::Verifying {
                slug: slug@,
                version: version@,
                content_hash: content_hash@,
                options: options@,
            },
            InstallState::Placing { slug, version, content_hash } => StateModel::Placing {
                slug: slug@,
                version: version@,
                content_hash: content_hash@,
            },
            InstallState::Recording { slug, version, content_hash } => StateModel::Recording {
                slug: slug@,
                version: version@,
                content_hash: content_hash@,
            },
            InstallState::Persisting { result } => StateModel::Persisting { result: result@ },
            InstallState::Done(result) => StateModel::Done(result@),
            InstallState::Aborted(error) => StateModel::Aborted(error@),
        }
    }
}

impl View for InstallEvent {
    type V = EventModel;

    open spec fn view(&self) -> EventModel {
        match *self {
            InstallEvent::Skill(reply) => EventModel::Skill(
                match reply {
                    Ok(meta) => Ok(facts_of(meta)),
                    Err(e) => Err(e),
                },
            ),
            InstallEvent::Host { os, bins, env } => EventModel::Host {
                os: os@,
                bins: texts(bins@),
                env: texts(env@),
            },
            InstallEvent::Artifact(reply) => EventModel::Artifact(
                match reply {
                    Ok(bytes) => Ok(bytes@),
                    Err(e) => Err(e),
                },
            ),
            InstallEvent::Lockfile(stored) => EventModel::Lockfile(reading(stored)),
            InstallEvent::Placed(ok) => EventModel::Placed(ok),
            InstallEvent::Locked { stored, at } => EventModel::Locked {
                lockfile: reading(stored),
                at: at@,
            },
            InstallEvent::Written(ok) => EventModel::Written(ok),
        }
    }
}

impl View for InstallAction {
    type V = ActionModel;

    open spec fn view(&self) -> ActionModel {
        match *self {
            InstallAction::GetSkill { slug } => ActionModel::GetSkill { slug: slug@ },
            InstallAction::ProbeHost => ActionModel::ProbeHost,
            InstallAction::Download { slug, version } => ActionModel::Download {
                slug: slug@,
                version: version@,
            },
            InstallAction::ReadLockfile => ActionModel::ReadLockfile,
            InstallAction::Place { slug, local_path } => ActionModel::Place {
                slug: slug@,
                local_path: local_path@,
            },
            InstallAction::LockAndRead => ActionModel::LockAndRead,
            InstallAction::Write(doc) => ActionModel::Write(
                LockModel { version: doc.version, entries: entries_of(doc.skills@) },
            ),
            InstallAction::Stop => ActionModel::Stop,
            InstallAction::Wait => ActionModel::Wait,
        }
    }
}

// ---------------------------------------------------------------------------
// The transition relation
// ---------------------------------------------------------------------------
/// The first version tagged latest, if any.
pub open spec fn latest_of(versions: Seq<VersionModel>) -> Option<Seq<char>>
    decreases versions.len(),
{
    if versions.len() == 0 {
        None
    } else if versions[0].latest {
        Some(versions[0].version)
    } else {
        latest_of(versions.drop_first())
    }
}

/// The version to install: the one asked for, else the one tagged latest.
/// A version that was asked for is taken as it is, listed or not: whether
/// the registry has it shows when its artifact is fetched.
pub open spec fn resolved(versions: Seq<VersionModel>, wanted: Option<Seq<char>>) -> Option<
    Seq<char>,
> {
    match wanted {
        Some(version) => Some(version),
        None => latest_of(versions),
    }
}

/// Whether the lockfile has this version of the skill with this content.
pub open spec fn is_installed(
    lock: LockModel,
    slug: Seq<char>,
    version: Seq<char>,
    content_hash: Seq<char>,
) -> bool {
    &&& lock.skills().contains_key(slug)
    &&& lock.skills()[slug].installed_version == version
    &&& lock.skills()[slug].content_hash == content_hash
}

/// How an install that records `version` of `slug` ends: as an upgrade where
/// another version was installed, else as an install.
pub open spec fn outcome_for(lock: LockModel, slug: Seq<char>, version: Seq<char>)
    -> InstallOutcome {
    if lock.skills().contains_key(slug) && lock.skills()[slug].installed_version != version {
        InstallOutcome::Upgraded
    } else {
        InstallOutcome::Installed
    }
}

/// The entry that an install records. The files live under the slug.
pub open spec fn entry_for(
    slug: Seq<char>,
    version: Seq<char>,
    at: Seq<char>,
    content_hash: Seq<char>,
) -> EntryModel {
    EntryModel {
        slug,
        installed_version: version,
        installed_at: at,
        content_hash,
        local_path: slug,
    }
}

/// The next state and the action to perform, for a state and an event.
///
/// An event that the state does not await changes nothing. A final state
/// stays as it is. Otherwise:
///
/// - *Resolving*, on the skill's detail: a failed call aborts; a skill
///   without a version to install aborts with `VersionNotFound`; else the
///   host is to be probed.
/// - *Gating*, on the host's facts: a blocked gate aborts with its reason;
///   else the artifact is to be fetched.
/// - *Fetching*, on the artifact: a version the registry does not know
///   aborts with `VersionNotFound`, any other failed call with its error, a
///   content hash other than the expected one with `Integrity`; else the
///   lockfile is to be read.
/// - *Verifying*, on the lockfile: an unreadable lockfile aborts; where the
///   same version with the same content is installed and the install is not
///   forced, the install is done as `Skipped`; else the files are to be
///   placed.
/// - *Placing*, on the placement: a failure aborts with `Io`; else the
///   lockfile is to be locked and read.
/// - *Recording*, on the locked lockfile: an unreadable lockfile aborts;
///   else the lockfile with the new entry is to be written.
/// - *Persisting*, on the writing: a failure aborts with `Io`; else the
///   install is done.
pub open spec fn next(state: StateModel, event: EventModel) -> (StateModel, ActionModel) {
    match state {
        StateModel::Resolving { slug, wanted, options } => match event {
            EventModel::Skill(Err(e)) => (
                StateModel::Aborted(ErrorModel::Registry(e)),
                ActionModel::Stop,
            ),
            EventModel::Skill(Ok(facts)) => match resolved(facts.versions, wanted) {
                Some(version) => (
                    StateModel::Gating { slug, version, constraints: facts.constraints, options },
                    ActionModel::ProbeHost,
                ),
                None => (StateModel::Aborted(ErrorModel::VersionNotFound), ActionModel::Stop),
            },
            _ => (state, ActionModel::Wait),
        },
        StateModel::Gating { slug, version, constraints, options } => match event {
            EventModel::Host { os, bins, env } => match gate(constraints, os, bins, env) {
                GateModel::Allowed => (
                    StateModel::Fetching { slug, version, options },
                    ActionModel::Download { slug, version },
                ),
                GateModel::Blocked { reason } => (
                    StateModel::Aborted(ErrorModel::RequirementNotMet { reason }),
                    ActionModel::Stop,
                ),
            },
            _ => (state, ActionModel::Wait),
        },
        StateModel::Fetching { slug, version, options } => match event {
            EventModel::Artifact(Err(e)) => if e == RegistryError::NotFound {
                (StateModel::Aborted(ErrorModel::VersionNotFound), ActionModel::Stop)
            } else {
                (StateModel::Aborted(ErrorModel::Registry(e)), ActionModel::Stop)
            },
            EventModel::Artifact(Ok(bytes)) => if options.expected_hash is Some
                && options.expected_hash->0 != content_hash_of(bytes) {
                (StateModel::Aborted(ErrorModel::Integrity), ActionModel::Stop)
            } else {
                (
                    StateModel::Verifying {
                        slug,
                        version,
                        content_hash: content_hash_of(bytes),
                        options,
                    },
                    ActionModel::ReadLockfile,
                )
            },
            _ => (state, ActionModel::Wait),
        },
        StateModel::Verifying { slug, version, content_hash, options } => match event {
            EventModel::Lockfile(Err(e)) => (
                StateModel::Aborted(ErrorModel::Lockfile(e)),
                ActionModel::Stop,
            ),
            EventModel::Lockfile(Ok(lock)) => if !options.force && is_installed(
                lock,
                slug,
                version,
                content_hash,
            ) {
                (
                    StateModel::Done(
                        ResultModel { slug, version, outcome: InstallOutcome::Skipped },
                    ),
                    ActionModel::Stop,
                )
            } else {
                (
                    StateModel::Placing { slug, version, content_hash },
                    ActionModel::Place { slug, local_path: slug },
                )
            },
            _ => (state, ActionModel::Wait),
        },
        StateModel::Placing { slug, version, content_hash } => match event {
            EventModel::Placed(ok) => if ok {
                (StateModel::Recording { slug, version, content_hash }, ActionModel::LockAndRead)
            } else {
                (StateModel::Aborted(ErrorModel::Io), ActionModel::Stop)
            },
            _ => (state, ActionModel::Wait),
        },
        StateModel::Recording { slug, version, content_hash } => match event {
            EventModel::Locked { lockfile: Err(e), at } => (
                StateModel::Aborted(ErrorModel::Lockfile(e)),
                ActionModel::Stop,
            ),
            EventModel::Locked { lockfile: Ok(lock), at } => (
                StateModel::Persisting {
                    result: ResultModel {
                        slug,
                        version,
                        outcome: outcome_for(lock, slug, version),
                    },
                },
                ActionModel::Write(lock.record(entry_for(slug, version, at, content_hash))),
            ),
            _ => (state, ActionModel::Wait),
        },
        StateModel::Persisting { result } => match event {
            EventModel::Written(ok) => if ok {
                (StateModel::Done(result), ActionModel::Stop)
            } else {
                (StateModel::Aborted(ErrorModel::Io), ActionModel::Stop)
            },
            _ => (state, ActionModel::Wait),
        },
        StateModel::Done(_) => (state, ActionModel::Stop),
        StateModel::Aborted(_) => (state, ActionModel::Stop),
    }
}

// ---------------------------------------------------------------------------
// The machine
// ---------------------------------------------------------------------------
/// The version of `meta` tagged latest, the first where several are.
pub fn latest_version(meta: &SkillMeta) -> (r: Option<String>)
    ensures
        match r {
            Some(version) => latest_of(versions_of(meta.versions@)) == Some(version@),
            None => latest_of(versions_of(meta.versions@)) is None,
        },
{
    let mut i: usize = 0;
    assert(versions_of(meta.versions@).skip(0) =~= versions_of(meta.versions@));
    while i < meta.versions.len()
        invariant
            i <= meta.versions@.len(),
            latest_of(versions_of(meta.versions@)) == latest_of(
                versions_of(meta.versions@).skip(i as int),
            ),
        decreases meta.versions@.len() - i,
    {
        let ghost rest = versions_of(meta.versions@).skip(i as int);
        assert(rest[0].version == meta.versions@[i as int].version@);
        assert(rest[0].latest == meta.versions@[i as int].latest);
        assert(rest.drop_first() =~= versions_of(meta.versions@).skip(i + 1));
        if meta.versions[i].latest {
            return Some(meta.versions[i].version.clone());
        }
        i += 1;
    }
    None
}

/// Whether `lock` has `version` of `slug` with the content `content_hash`.
fn already_installed(lock: &LockFile, slug: &str, version: &str, content_hash: &str) -> (r: bool)
    ensures
        r == is_installed(lock@, slug@, version@, content_hash@),
{
    match lock.get(slug) {
        Some(entry) => same_text(entry.installed_version.as_str(), version) && same_text(
            entry.content_hash.as_str(),
            content_hash,
        ),
        None => false,
    }
}

/// How an install that records `version` of `slug` into `lock` ends.
fn outcome_of_recording(lock: &LockFile, slug: &str, version: &str) -> (r: InstallOutcome)
    ensures
        r == outcome_for(lock@, slug@, version@),
{
    match lock.get(slug) {
        Some(entry) => if same_text(entry.installed_version.as_str(), version) {
            InstallOutcome::Installed
        } else {
            InstallOutcome::Upgraded
        },
        None => InstallOutcome::Installed,
    }
}

impl InstallState {
    /// Begins an install of `slug`, of `version` where one is given and of
    /// the latest version where none is: the skill's detail is to be fetched.
    pub fn begin(slug: &str, version: Option<&str>, options: InstallOptions) -> (r: (
        InstallState,
        InstallAction,
    ))
        ensures
            r.0@ == (StateModel::Resolving {
                slug: slug@,
                wanted: match version {
                    Some(v) => Some(v@),
                    None => None,
                },
                options: options@,
            }),
            r.1@ == (ActionModel::GetSkill { slug: slug@ }),
    {
        let wanted = match version {
            Some(v) => Some(v.to_owned()),
            None => None,
        };
        (
            InstallState::Resolving { slug: slug.to_owned(), wanted, options },
            InstallAction::GetSkill { slug: slug.to_owned() },
        )
    }

    /// Takes an event: the next state, and the action to perform next. A
    /// lockfile handed out for writing is sound.
    pub fn step(self, event: InstallEvent) -> (r: (InstallState, InstallAction))
        ensures
            (r.0@, r.1@) == next(self@, event@),
            r.1 matches InstallAction::Write(doc) ==> table_is_sound(doc.skills@),
    {
        match (self, event) {
            (InstallState::Resolving { slug, wanted, options }, InstallEvent::Skill(reply)) => {
                match reply {
                    Err(e) => (InstallState::Aborted(InstallError::Registry(e)), InstallAction::Stop),
                    Ok(meta) => {
                        let version = match wanted {
                            Some(version) => Some(version),
                            None => latest_version(&meta),
                        };
                        match version {
                            Some(version) => (
                                InstallState::Gating { slug, version, meta, options },
                                InstallAction::ProbeHost,
                            ),
                            None => (
                                InstallState::Aborted(InstallError::VersionNotFound),
                                InstallAction::Stop,
                            ),
                        }
                    },
                }
            },
            (
                InstallState::Gating { slug, version, meta, options },
                InstallEvent::Host { os, bins, env },
            ) => {
                match evaluate(&meta, os.as_str(), &bins, &env) {
                    GateDecision::Allowed => {
                        let action = InstallAction::Download {
                            slug: slug.clone(),
                            version: version.clone(),
                        };
                        (InstallState::Fetching { slug, version, options }, action)
                    },
                    GateDecision::Blocked { reason } => (
                        InstallState::Aborted(InstallError::RequirementNotMet { reason }),
                        InstallAction::Stop,
                    ),
                }
            },
            (InstallState::Fetching { slug, version, options }, InstallEvent::Artifact(reply)) => {
                match reply {
                    Err(RegistryError::NotFound) => (
                        InstallState::Aborted(InstallError::VersionNotFound),
                        InstallAction::Stop,
                    ),
                    Err(e) => (InstallState::Aborted(InstallError::Registry(e)), InstallAction::Stop),
                    Ok(bytes) => {
                        let content_hash = content_hash(bytes.as_slice());
                        let as_expected = match &options.expected_hash {
                            Some(expected) => same_text(expected.as_str(), content_hash.as_str()),
                            None => true,
                        };
                        if as_expected {
                            (
                                InstallState::Verifying { slug, version, content_hash, options },
                                InstallAction::ReadLockfile,
                            )
                        } else {
                            (InstallState::Aborted(InstallError::Integrity), InstallAction::Stop)
                        }
                    },
                }
            },
            (
                InstallState::Verifying { slug, version, content_hash, options },
                InstallEvent::Lockfile(stored),
            ) => {
                match LockFile::read(stored) {
                    Err(e) => (InstallState::Aborted(InstallError::Lockfile(e)), InstallAction::Stop),
                    Ok(lock) => {
                        if !options.force && already_installed(
                            &lock,
                            slug.as_str(),
                            version.as_str(),
                            content_hash.as_str(),
                        ) {
                            (
                                InstallState::Done(
                                    InstallResult {
                                        slug,
                                        version,
                                        outcome: InstallOutcome::Skipped,
                                    },
                                ),
                                InstallAction::Stop,
                            )
                        } else {
                            let action = InstallAction::Place {
                                slug: slug.clone(),
                                local_path: slug.clone(),
                            };
                            (InstallState::Placing { slug, version, content_hash }, action)
                        }
                    },
                }
            },
            (InstallState::Placing { slug, version, content_hash }, InstallEvent::Placed(ok)) => {
                if ok {
                    (
                        InstallState::Recording { slug, version, content_hash },
                        InstallAction::LockAndRead,
                    )
                } else {
                    (InstallState::Aborted(InstallError::Io), InstallAction::Stop)
                }
            },
            (
                InstallState::Recording { slug, version, content_hash },
                InstallEvent::Locked { stored, at },
            ) => {
                match LockFile::read(stored) {
                    Err(e) => (InstallState::Aborted(InstallError::Lockfile(e)), InstallAction::Stop),
                    Ok(lock) => {
                        let mut lock = lock;
                        let outcome = outcome_of_recording(&lock, slug.as_str(), version.as_str());
                        let entry = LockEntry {
                            slug: slug.clone(),
                            installed_version: version.clone(),
                            installed_at: at,
                            content_hash,
                            local_path: slug.clone(),
                        };
                        lock.insert(entry);
                        let doc = lock.to_document();
                        (
                            InstallState::Persisting {
                                result: InstallResult { slug, version, outcome },
                            },
                            InstallAction::Write(doc),
                        )
                    },
                }
            },
            (InstallState::Persisting { result }, InstallEvent::Written(ok)) => {
                if ok {
                    (InstallState::Done(result), InstallAction::Stop)
                } else {
                    (InstallState::Aborted(InstallError::Io), InstallAction::Stop)
                }
            },
            (InstallState::Done(result), _) => (InstallState::Done(result), InstallAction::Stop),
            (InstallState::Aborted(error), _) => (
                InstallState::Aborted(error),
                InstallAction::Stop,
            ),
            (state, _) => (state, InstallAction::Wait),
        }
    }
}

// ---------------------------------------------------------------------------
// What holds of every install
// ---------------------------------------------------------------------------
/// Installing the same version of a skill a second time from the same
/// artifact is skipped: once the first install has recorded its entry, the
/// second, unless forced, ends as `Skipped` when it has seen the lockfile,
/// and asks for no placement and no writing, so that the entry and the files
/// stay as the first install left them.
pub proof fn reinstall_is_skipped(
    lock: LockModel,
    slug: Seq<char>,
    version: Seq<char>,
    bytes: Seq<u8>,
    at: Seq<char>,
    options: OptionsModel,
)
    requires
        lock.wf(),
        !options.force,
        options.expected_hash is Some ==> options.expected_hash->0 == content_hash_of(bytes),
    ensures
        ({
            let hash = content_hash_of(bytes);
            let first = next(
                StateModel::Recording { slug, version, content_hash: hash },
                EventModel::Locked { lockfile: Ok(lock), at },
            );
            let fetched = next(
                StateModel::Fetching { slug, version, options },
                EventModel::Artifact(Ok(bytes)),
            );
            &&& first.1 == ActionModel::Write(lock.record(entry_for(slug, version, at, hash)))
            &&& fetched.1 == ActionModel::ReadLockfile
            &&& next(fetched.0, EventModel::Lockfile(Ok(first.1->Write_0))) == (
                StateModel::Done(ResultModel { slug, version, outcome: InstallOutcome::Skipped }),
                ActionModel::Stop,
            )
        }),
{
    let hash = content_hash_of(bytes);
    recorded_is_insert(lock.entries, entry_for(slug, version, at, hash));
}

/// Where at most one version is tagged latest, the version installed by
/// default is the one that is tagged.
pub proof fn latest_is_the_tagged_one(meta: SkillMeta, i: int)
    requires
        meta.at_most_one_latest(),
        0 <= i < meta.versions@.len(),
        meta.versions@[i].latest,
    ensures
        resolved(facts_of(meta).versions, None) == Some(meta.versions@[i].version@),
{
    tagged_is_found(versions_of(meta.versions@), i);
}

/// The first version tagged latest is found, and none before it is tagged.
proof fn tagged_is_found(versions: Seq<VersionModel>, i: int)
    requires
        0 <= i < versions.len(),
        versions[i].latest,
        forall|k: int| 0 <= k < i ==> !(#[trigger] versions[k]).latest,
    ensures
        latest_of(versions) == Some(versions[i].version),
    decreases versions.len(),
{
    if i > 0 {
        let rest = versions.drop_first();
        assert(!versions[0].latest);
        assert forall|k: int| 0 <= k < i - 1 implies !(#[trigger] rest[k]).latest by {
            assert(rest[k] == versions[k + 1]);
        }
        tagged_is_found(rest, i - 1);
    }
}

/// The artifact is asked for only when the requirement gate has allowed the
/// skill: never before gating, and never for a skill that is blocked.
pub proof fn download_only_after_gate(state: StateModel, event: EventModel)
    requires
        next(state, event).1 is Download,
    ensures
        state is Gating,
        event is Host,
        gate(state->Gating_constraints, event->Host_os, event->Host_bins, event->Host_env)
            == GateModel::Allowed,
{
}

/// Files are placed only after the lockfile was read in *Verifying*, and the
/// lockfile is written only in *Recording*, which is reached only after the
/// files were placed: an install that is given up earlier has touched
/// neither.
pub proof fn nothing_is_touched_early(state: StateModel, event: EventModel)
    ensures
        next(state, event).1 is Place ==> state is Verifying,
        next(state, event).1 is Write ==> state is Recording,
        next(state, event).0 is Recording ==> (state is Recording || (state is Placing && event
            == EventModel::Placed(true))),
{
}

/// An install that is over stays as it is, whatever is reported to it.
pub proof fn final_states_stay(state: StateModel, event: EventModel)
    requires
        state is Done || state is Aborted,
    ensures
        next(state, event) == (state, ActionModel::Stop),
{
}

/// What an install records: the lockfile that is written has the new entry
/// under the skill's slug, every other skill as it was, and the report says
/// `Upgraded` exactly where another version was installed before.
pub proof fn recording_inserts_the_entry(
    lock: LockModel,
    slug: Seq<char>,
    version: Seq<char>,
    content_hash: Seq<char>,
    at: Seq<char>,
)
    requires
        lock.wf(),
    ensures
        ({
            let entry = entry_for(slug, version, at, content_hash);
            let stepped = next(
                StateModel::Recording { slug, version, content_hash },
                EventModel::Locked { lockfile: Ok(lock), at },
            );
            &&& stepped.1 is Write
            &&& stepped.1->Write_0.wf()
            &&& stepped.1->Write_0.version == lock.version
            &&& stepped.1->Write_0.skills() == lock.skills().insert(slug, entry)
            &&& stepped.0 is Persisting
            &&& stepped.0->Persisting_result.outcome == InstallOutcome::Upgraded <==> (
            lock.skills().contains_key(slug) && lock.skills()[slug].installed_version != version)
        }),
{
    recorded_is_insert(lock.entries, entry_for(slug, version, at, content_hash));
}

} // verus!
