use loongclaw::clawhub::client::RegistryError;
use loongclaw::clawhub::digest::content_hash;
use loongclaw::clawhub::install::{
    latest_version, InstallAction, InstallError, InstallEvent, InstallOptions, InstallOutcome,
    InstallResult, InstallState,
};
use loongclaw::clawhub::lockfile::{LockDocument, LockfileError, StoredLockfile};
use loongclaw::clawhub::types::{
    LockEntry, LockFile, OpenClawMeta, Requires, SkillMeta, SkillMetadata, SkillVersion,
};

const ARTIFACT: &[u8] = b"skill artifact bytes";

fn web_search(metadata: SkillMetadata) -> SkillMeta {
    SkillMeta {
        slug: "web-search".to_string(),
        name: "Web Search".to_string(),
        description: "Searches the web".to_string(),
        versions: vec![
            SkillVersion { version: "1.0.0".to_string(), latest: true },
            SkillVersion { version: "0.9.0".to_string(), latest: false },
        ],
        virustotal: None,
        metadata,
    }
}

fn host() -> InstallEvent {
    InstallEvent::Host { os: "linux".to_string(), bins: vec![], env: vec![] }
}

fn stored(lock: &LockFile) -> StoredLockfile {
    let doc = lock.to_document();
    StoredLockfile::Versioned { version: doc.version, skills: Some(doc.skills) }
}

fn result(version: &str, outcome: InstallOutcome) -> InstallResult {
    InstallResult { slug: "web-search".to_string(), version: version.to_string(), outcome }
}

fn entry(version: &str, at: &str, bytes: &[u8]) -> LockEntry {
    LockEntry {
        slug: "web-search".to_string(),
        installed_version: version.to_string(),
        installed_at: at.to_string(),
        content_hash: content_hash(bytes),
        local_path: "web-search".to_string(),
    }
}

/// Runs an install of `web-search` up to the point where the lockfile is read.
fn until_verifying(version: Option<&str>, options: InstallOptions, bytes: &[u8]) -> InstallState {
    let (state, action) = InstallState::begin("web-search", version, options);
    assert_eq!(action, InstallAction::GetSkill { slug: "web-search".to_string() });
    let (state, action) =
        state.step(InstallEvent::Skill(Ok(web_search(SkillMetadata::default()))));
    assert_eq!(action, InstallAction::ProbeHost);
    let (state, action) = state.step(host());
    assert!(matches!(action, InstallAction::Download { .. }));
    let (state, action) = state.step(InstallEvent::Artifact(Ok(bytes.to_vec())));
    assert_eq!(action, InstallAction::ReadLockfile);
    state
}

/// Runs an install from the reading of the lockfile to its end.
fn finish(state: InstallState, lock: &LockFile, at: &str) -> (InstallState, Option<LockDocument>) {
    let (state, action) = state.step(InstallEvent::Lockfile(stored(lock)));
    if action == InstallAction::Stop {
        return (state, None);
    }
    assert_eq!(
        action,
        InstallAction::Place {
            slug: "web-search".to_string(),
            local_path: "web-search".to_string(),
        }
    );
    let (state, action) = state.step(InstallEvent::Placed(true));
    assert_eq!(action, InstallAction::LockAndRead);
    let (state, action) =
        state.step(InstallEvent::Locked { stored: stored(lock), at: at.to_string() });
    let doc = match action {
        InstallAction::Write(doc) => doc,
        other => panic!("expected a lockfile to write, got {:?}", other),
    };
    let (state, action) = state.step(InstallEvent::Written(true));
    assert_eq!(action, InstallAction::Stop);
    (state, Some(doc))
}

fn read(doc: LockDocument) -> LockFile {
    LockFile::read(StoredLockfile::Versioned { version: doc.version, skills: Some(doc.skills) })
        .unwrap()
}

#[test]
fn install_of_latest_version_end_to_end() {
    let begun = InstallState::begin("web-search", None, InstallOptions::default());
    assert_eq!(
        begun.0,
        InstallState::Resolving {
            slug: "web-search".to_string(),
            wanted: None,
            options: InstallOptions::default(),
        }
    );
    let (state, action) =
        begun.0.step(InstallEvent::Skill(Ok(web_search(SkillMetadata::default()))));
    assert_eq!(action, InstallAction::ProbeHost);
    let (state, action) = state.step(host());
    assert_eq!(
        action,
        InstallAction::Download { slug: "web-search".to_string(), version: "1.0.0".to_string() }
    );
    let (state, action) = state.step(InstallEvent::Artifact(Ok(ARTIFACT.to_vec())));
    assert_eq!(action, InstallAction::ReadLockfile);
    assert_eq!(
        state,
        InstallState::Verifying {
            slug: "web-search".to_string(),
            version: "1.0.0".to_string(),
            content_hash: content_hash(ARTIFACT),
            options: InstallOptions::default(),
        }
    );

    let (state, doc) = finish(state, &LockFile::new(), "2024-05-01T10:00:00Z");
    assert_eq!(state, InstallState::Done(result("1.0.0", InstallOutcome::Installed)));
    let lock = read(doc.unwrap());
    assert_eq!(lock.len(), 1);
    assert_eq!(lock.version(), 1);
    assert_eq!(lock.get("web-search"), Some(&entry("1.0.0", "2024-05-01T10:00:00Z", ARTIFACT)));

    // The identical call once more is skipped and asks for nothing.
    let again = until_verifying(None, InstallOptions::default(), ARTIFACT);
    let (state, doc) = finish(again, &lock, "2024-05-02T10:00:00Z");
    assert_eq!(state, InstallState::Done(result("1.0.0", InstallOutcome::Skipped)));
    assert_eq!(doc, None);
}

#[test]
fn forced_reinstall_places_and_records_again() {
    let mut lock = LockFile::new();
    lock.insert(entry("1.0.0", "2024-05-01T10:00:00Z", ARTIFACT));
    let options = InstallOptions { force: true, expected_hash: None };
    let state = until_verifying(None, options, ARTIFACT);
    let (state, doc) = finish(state, &lock, "2024-06-01T00:00:00Z");
    assert_eq!(state, InstallState::Done(result("1.0.0", InstallOutcome::Installed)));
    let lock = read(doc.unwrap());
    assert_eq!(lock.len(), 1);
    assert_eq!(lock.get("web-search"), Some(&entry("1.0.0", "2024-06-01T00:00:00Z", ARTIFACT)));
}

#[test]
fn changed_artifact_of_same_version_is_installed_again() {
    let mut lock = LockFile::new();
    lock.insert(entry("1.0.0", "2024-05-01T10:00:00Z", b"older bytes"));
    let state = until_verifying(None, InstallOptions::default(), ARTIFACT);
    let (state, doc) = finish(state, &lock, "2024-06-01T00:00:00Z");
    assert_eq!(state, InstallState::Done(result("1.0.0", InstallOutcome::Installed)));
    assert_eq!(
        read(doc.unwrap()).get("web-search"),
        Some(&entry("1.0.0", "2024-06-01T00:00:00Z", ARTIFACT))
    );
}

#[test]
fn other_version_installed_before_is_an_upgrade() {
    let mut lock = LockFile::new();
    lock.insert(entry("0.9.0", "2024-01-01T00:00:00Z", ARTIFACT));
    let other = LockEntry {
        slug: "pdf".to_string(),
        installed_version: "2.0.0".to_string(),
        installed_at: "2023-01-01T00:00:00Z".to_string(),
        content_hash: "h".to_string(),
        local_path: "pdf".to_string(),
    };
    lock.insert(other.clone());
    let state = until_verifying(None, InstallOptions::default(), ARTIFACT);
    let (state, doc) = finish(state, &lock, "2024-06-01T00:00:00Z");
    assert_eq!(state, InstallState::Done(result("1.0.0", InstallOutcome::Upgraded)));
    let lock = read(doc.unwrap());
    assert_eq!(lock.len(), 2);
    assert_eq!(lock.get("web-search"), Some(&entry("1.0.0", "2024-06-01T00:00:00Z", ARTIFACT)));
    assert_eq!(lock.get("pdf"), Some(&other));
}

#[test]
fn explicit_version_is_taken_as_given() {
    let state = until_verifying(Some("0.9.0"), InstallOptions::default(), ARTIFACT);
    let (state, _) = finish(state, &LockFile::new(), "t");
    assert_eq!(state, InstallState::Done(result("0.9.0", InstallOutcome::Installed)));
}

#[test]
fn skill_without_latest_version_is_version_not_found() {
    let mut meta = web_search(SkillMetadata::default());
    meta.versions[0].latest = false;
    assert_eq!(latest_version(&meta), None);
    let (state, _) = InstallState::begin("web-search", None, InstallOptions::default());
    let (state, action) = state.step(InstallEvent::Skill(Ok(meta)));
    assert_eq!(state, InstallState::Aborted(InstallError::VersionNotFound));
    assert_eq!(action, InstallAction::Stop);
}

#[test]
fn latest_version_is_the_first_tagged() {
    let meta = web_search(SkillMetadata::default());
    assert_eq!(latest_version(&meta), Some("1.0.0".to_string()));
    let mut meta = web_search(SkillMetadata::default());
    meta.versions[0].latest = false;
    meta.versions[1].latest = true;
    assert_eq!(latest_version(&meta), Some("0.9.0".to_string()));
}

#[test]
fn unknown_explicit_version_is_version_not_found() {
    let (state, _) = InstallState::begin("web-search", Some("7.7.7"), InstallOptions::default());
    let (state, _) = state.step(InstallEvent::Skill(Ok(web_search(SkillMetadata::default()))));
    let (state, action) = state.step(host());
    assert_eq!(
        action,
        InstallAction::Download { slug: "web-search".to_string(), version: "7.7.7".to_string() }
    );
    let (state, action) = state.step(InstallEvent::Artifact(Err(RegistryError::NotFound)));
    assert_eq!(state, InstallState::Aborted(InstallError::VersionNotFound));
    assert_eq!(action, InstallAction::Stop);
}

#[test]
fn registry_errors_abort_the_install() {
    for error in [
        RegistryError::Network,
        RegistryError::BadResponse,
        RegistryError::NotFound,
        RegistryError::Unauthorized,
    ] {
        let (state, _) = InstallState::begin("web-search", None, InstallOptions::default());
        let (state, action) = state.step(InstallEvent::Skill(Err(error)));
        assert_eq!(state, InstallState::Aborted(InstallError::Registry(error)));
        assert_eq!(action, InstallAction::Stop);
    }
    for error in [RegistryError::Network, RegistryError::BadResponse, RegistryError::Unauthorized]
    {
        let (state, _) = InstallState::begin("web-search", None, InstallOptions::default());
        let (state, _) =
            state.step(InstallEvent::Skill(Ok(web_search(SkillMetadata::default()))));
        let (state, _) = state.step(host());
        let (state, _) = state.step(InstallEvent::Artifact(Err(error)));
        assert_eq!(state, InstallState::Aborted(InstallError::Registry(error)));
    }
}

#[test]
fn blocked_skill_is_never_downloaded() {
    let metadata = SkillMetadata {
        openclaw: Some(OpenClawMeta {
            requires: Some(Requires {
                bins: vec!["ffmpeg".to_string()],
                env: vec![],
                any_bins: vec![],
            }),
            os: vec!["macos".to_string()],
        }),
        clawdbot: None,
    };
    let (state, _) = InstallState::begin("web-search", None, InstallOptions::default());
    let (state, action) = state.step(InstallEvent::Skill(Ok(web_search(metadata.clone()))));
    assert_eq!(action, InstallAction::ProbeHost);
    let (state, action) = state.step(host());
    assert_eq!(action, InstallAction::Stop);
    assert_eq!(
        state,
        InstallState::Aborted(InstallError::RequirementNotMet {
            reason: "unsupported platform".to_string()
        })
    );

    let (state, _) = InstallState::begin("web-search", None, InstallOptions::default());
    let (state, _) = state.step(InstallEvent::Skill(Ok(web_search(metadata))));
    let (state, action) = state.step(InstallEvent::Host {
        os: "macos".to_string(),
        bins: vec!["git".to_string()],
        env: vec![],
    });
    assert_eq!(action, InstallAction::Stop);
    assert_eq!(
        state,
        InstallState::Aborted(InstallError::RequirementNotMet {
            reason: "missing required binary: ffmpeg".to_string()
        })
    );
}

#[test]
fn unexpected_hash_is_an_integrity_error() {
    let options = InstallOptions { force: false, expected_hash: Some("0000".to_string()) };
    let (state, _) = InstallState::begin("web-search", None, options);
    let (state, _) = state.step(InstallEvent::Skill(Ok(web_search(SkillMetadata::default()))));
    let (state, _) = state.step(host());
    let (state, action) = state.step(InstallEvent::Artifact(Ok(ARTIFACT.to_vec())));
    assert_eq!(state, InstallState::Aborted(InstallError::Integrity));
    assert_eq!(action, InstallAction::Stop);
}

#[test]
fn expected_hash_that_matches_lets_the_install_go_on() {
    let options = InstallOptions { force: false, expected_hash: Some(content_hash(ARTIFACT)) };
    let state = until_verifying(None, options, ARTIFACT);
    let (state, _) = finish(state, &LockFile::new(), "t");
    assert_eq!(state, InstallState::Done(result("1.0.0", InstallOutcome::Installed)));
}

#[test]
fn unreadable_lockfile_aborts_before_anything_is_placed() {
    let state = until_verifying(None, InstallOptions::default(), ARTIFACT);
    let (state, action) = state.step(InstallEvent::Lockfile(StoredLockfile::Malformed));
    assert_eq!(state, InstallState::Aborted(InstallError::Lockfile(LockfileError::Corrupt)));
    assert_eq!(action, InstallAction::Stop);

    let state = until_verifying(None, InstallOptions::default(), ARTIFACT);
    let (state, action) = state.step(InstallEvent::Lockfile(StoredLockfile::Versioned {
        version: 9,
        skills: None,
    }));
    assert_eq!(
        state,
        InstallState::Aborted(InstallError::Lockfile(LockfileError::UnsupportedSchema {
            found: 9
        }))
    );
    assert_eq!(action, InstallAction::Stop);
}

#[test]
fn missing_lockfile_counts_as_empty() {
    let state = until_verifying(None, InstallOptions::default(), ARTIFACT);
    let (state, action) = state.step(InstallEvent::Lockfile(StoredLockfile::Missing));
    assert!(matches!(action, InstallAction::Place { .. }));
    let (state, _) = state.step(InstallEvent::Placed(true));
    let (state, action) = state.step(InstallEvent::Locked {
        stored: StoredLockfile::Missing,
        at: "now".to_string(),
    });
    assert_eq!(
        action,
        InstallAction::Write(LockDocument {
            version: 1,
            skills: vec![("web-search".to_string(), entry("1.0.0", "now", ARTIFACT))],
        })
    );
    assert_eq!(
        state,
        InstallState::Persisting { result: result("1.0.0", InstallOutcome::Installed) }
    );
}

#[test]
fn failed_placement_and_failed_writing_are_io_errors() {
    let state = until_verifying(None, InstallOptions::default(), ARTIFACT);
    let (state, _) = state.step(InstallEvent::Lockfile(StoredLockfile::Missing));
    let (state, action) = state.step(InstallEvent::Placed(false));
    assert_eq!(state, InstallState::Aborted(InstallError::Io));
    assert_eq!(action, InstallAction::Stop);

    let state = until_verifying(None, InstallOptions::default(), ARTIFACT);
    let (state, _) = state.step(InstallEvent::Lockfile(StoredLockfile::Missing));
    let (state, _) = state.step(InstallEvent::Placed(true));
    let (state, _) = state.step(InstallEvent::Locked {
        stored: StoredLockfile::Missing,
        at: "now".to_string(),
    });
    let (state, action) = state.step(InstallEvent::Written(false));
    assert_eq!(state, InstallState::Aborted(InstallError::Io));
    assert_eq!(action, InstallAction::Stop);
}

#[test]
fn lockfile_unreadable_under_the_lock_aborts() {
    let state = until_verifying(None, InstallOptions::default(), ARTIFACT);
    let (state, _) = state.step(InstallEvent::Lockfile(StoredLockfile::Missing));
    let (state, _) = state.step(InstallEvent::Placed(true));
    let (state, action) = state.step(InstallEvent::Locked {
        stored: StoredLockfile::Malformed,
        at: "now".to_string(),
    });
    assert_eq!(state, InstallState::Aborted(InstallError::Lockfile(LockfileError::Corrupt)));
    assert_eq!(action, InstallAction::Stop);
}

#[test]
fn event_that_is_not_awaited_changes_nothing() {
    let (state, _) = InstallState::begin("web-search", None, InstallOptions::default());
    let before = InstallState::Resolving {
        slug: "web-search".to_string(),
        wanted: None,
        options: InstallOptions::default(),
    };
    let (state, action) = state.step(InstallEvent::Placed(true));
    assert_eq!(action, InstallAction::Wait);
    assert_eq!(state, before);
    let (state, action) = state.step(InstallEvent::Artifact(Ok(vec![1, 2, 3])));
    assert_eq!(action, InstallAction::Wait);
    assert_eq!(state, before);
}

#[test]
fn finished_install_stays_finished() {
    let done = InstallState::Done(result("1.0.0", InstallOutcome::Installed));
    let (state, action) = done.step(InstallEvent::Written(false));
    assert_eq!(action, InstallAction::Stop);
    assert_eq!(state, InstallState::Done(result("1.0.0", InstallOutcome::Installed)));
    let aborted = InstallState::Aborted(InstallError::Io);
    let (state, action) = aborted.step(host());
    assert_eq!(action, InstallAction::Stop);
    assert_eq!(state, InstallState::Aborted(InstallError::Io));
}

#[test]
fn two_installs_of_different_slugs_both_appear() {
    let state = until_verifying(None, InstallOptions::default(), ARTIFACT);
    let (_, doc) = finish(state, &LockFile::new(), "t1");
    let after_first = read(doc.unwrap());

    let (state, _) = InstallState::begin("pdf", Some("2.0.0"), InstallOptions::default());
    let mut meta = web_search(SkillMetadata::default());
    meta.slug = "pdf".to_string();
    let (state, _) = state.step(InstallEvent::Skill(Ok(meta)));
    let (state, _) = state.step(host());
    let (state, _) = state.step(InstallEvent::Artifact(Ok(b"pdf bytes".to_vec())));
    // The second install looked at the lockfile before the first had written
    // it, and reads it again under the lock when it records.
    let (state, _) = state.step(InstallEvent::Lockfile(StoredLockfile::Missing));
    let (state, _) = state.step(InstallEvent::Placed(true));
    let (_, action) = state.step(InstallEvent::Locked {
        stored: stored(&after_first),
        at: "t2".to_string(),
    });
    let lock = match action {
        InstallAction::Write(doc) => read(doc),
        other => panic!("expected a lockfile to write, got {:?}", other),
    };
    assert_eq!(lock.len(), 2);
    assert_eq!(lock.get("web-search"), Some(&entry("1.0.0", "t1", ARTIFACT)));
    assert_eq!(lock.get("pdf").unwrap().installed_version, "2.0.0");
    assert_eq!(lock.get("pdf").unwrap().content_hash, content_hash(b"pdf bytes"));
    assert_eq!(lock.get("pdf").unwrap().local_path, "pdf");
}

#[test]
fn default_options_do_not_force() {
    let options = InstallOptions::default();
    assert!(!options.force);
    assert_eq!(options.expected_hash, None);
}
