//! The lockfile: the record of what is installed.
//!
//! A lockfile holds a schema revision and at most one entry per slug.
//! Reading and writing the file is the application's part; what a stored
//! document means, and how entries are looked up, replaced and removed, is
//! decided here.

use crate::clawhub::digest::{content_hash, content_hash_of};
use crate::json::{member_number, number_member};
use crate::text::same_text;
use vstd::prelude::*;

verus! {

/// The schema revision this library writes, and the highest it reads.
pub const CURRENT_SCHEMA: u32 = 1;

/// One installed skill.
#[derive(Debug, Clone, PartialEq, Eq)]
pub struct LockEntry {
    pub slug: String,
    /// Stored as `installedVersion`.
    pub installed_version: String,
    /// When the entry was made. Stored as `installedAt`.
    pub installed_at: String,
    /// Digest of the installed artifact. Stored as `contentHash`.
    pub content_hash: String,
    /// Where the skill's files live, relative to the skills root. Stored as
    /// `localPath`.
    pub local_path: String,
}

/// A [`LockEntry`] as plain values.
pub struct EntryModel {
    pub slug: Seq<char>,
    pub installed_version: Seq<char>,
    pub installed_at: Seq<char>,
    pub content_hash: Seq<char>,
    pub local_path: Seq<char>,
}

impl View for LockEntry {
    type V = EntryModel;

    open spec fn view(&self) -> EntryModel {
        EntryModel {
            slug: self.slug@,
            installed_version: self.installed_version@,
            installed_at: self.installed_at@,
            content_hash: self.content_hash@,
            local_path: self.local_path@,
        }
    }
}

/// Why a stored lockfile was not accepted.
#[derive(Debug, Clone, Copy, PartialEq, Eq, Structural)]
pub enum LockfileError {
    /// The content is not a lockfile.
    Corrupt,
    /// The file states a schema revision newer than [`CURRENT_SCHEMA`].
    UnsupportedSchema { found: u32 },
}

/// The models of a list of entries, in order.
pub open spec fn models(entries: Seq<LockEntry>) -> Seq<EntryModel> {
    entries.map_values(|e: LockEntry| e@)
}

/// No two of the entries share a slug.
pub open spec fn distinct_slugs(entries: Seq<EntryModel>) -> bool {
    forall|i: int, j: int|
        0 <= i < entries.len() && 0 <= j < entries.len() && i != j ==> (#[trigger] entries[i]).slug
            != (#[trigger] entries[j]).slug
}

/// Where the entry for `slug` stands, or the length of the list where there
/// is none.
pub open spec fn position(entries: Seq<EntryModel>, slug: Seq<char>) -> int
    decreases entries.len(),
{
    if entries.len() == 0 {
        0
    } else if entries[0].slug == slug {
        0
    } else {
        1 + position(entries.drop_first(), slug)
    }
}

/// The table that a list of entries stands for: each slug with its entry.
pub open spec fn table(entries: Seq<EntryModel>) -> Map<Seq<char>, EntryModel> {
    Map::new(
        |slug: Seq<char>| position(entries, slug) < entries.len(),
        |slug: Seq<char>| entries[position(entries, slug)],
    )
}

/// `position` finds the first entry with the slug, and nothing before it has
/// the slug.
pub proof fn position_is_first(entries: Seq<EntryModel>, slug: Seq<char>)
    ensures
        0 <= position(entries, slug) <= entries.len(),
        position(entries, slug) < entries.len() ==> entries[position(entries, slug)].slug == slug,
        forall|k: int| 0 <= k < position(entries, slug) ==> (#[trigger] entries[k]).slug != slug,
    decreases entries.len(),
{
    if entries.len() > 0 && entries[0].slug != slug {
        let rest = entries.drop_first();
        position_is_first(rest, slug);
        assert forall|k: int| 0 <= k < position(entries, slug) implies (#[trigger] entries[k]).slug
            != slug by {
            if k > 0 {
                assert(entries[k] == rest[k - 1]);
            }
        }
    }
}

/// Among entries with distinct slugs, each is found at its own place.
pub proof fn position_of_member(entries: Seq<EntryModel>, i: int)
    requires
        distinct_slugs(entries),
        0 <= i < entries.len(),
    ensures
        position(entries, entries[i].slug) == i,
{
    position_is_first(entries, entries[i].slug);
}

/// The entries after `entry` is recorded: it takes the place of the entry
/// with its slug where there is one, and comes last where there is none.
pub open spec fn recorded(entries: Seq<EntryModel>, entry: EntryModel) -> Seq<EntryModel> {
    let at = position(entries, entry.slug);
    if at < entries.len() {
        entries.update(at, entry)
    } else {
        entries.push(entry)
    }
}

/// The entries after the one for `slug` is dropped, the others keeping their
/// order.
pub open spec fn dropped(entries: Seq<EntryModel>, slug: Seq<char>) -> Seq<EntryModel> {
    let at = position(entries, slug);
    if at < entries.len() {
        entries.remove(at)
    } else {
        entries
    }
}

/// Recording keeps slugs distinct, and on the table it is an insertion under
/// the entry's slug.
pub proof fn recorded_is_insert(entries: Seq<EntryModel>, entry: EntryModel)
    requires
        distinct_slugs(entries),
    ensures
        distinct_slugs(recorded(entries, entry)),
        table(recorded(entries, entry)) == table(entries).insert(entry.slug, entry),
{
    let after = recorded(entries, entry);
    let at = position(entries, entry.slug);
    position_is_first(entries, entry.slug);
    assert(distinct_slugs(after));
    assert(after[at] == entry);
    position_of_member(after, at);
    assert forall|slug: Seq<char>| slug != entry.slug implies (position(after, slug) < after.len())
        == (position(entries, slug) < entries.len()) && (position(entries, slug) < entries.len()
        ==> after[position(after, slug)] == entries[position(entries, slug)]) by {
        position_is_first(entries, slug);
        position_is_first(after, slug);
        let a = position(entries, slug);
        let b = position(after, slug);
        if a < entries.len() {
            assert(after[a] == entries[a]);
            if b < a {
                assert(after[b] == entries[b]);
            }
        } else if b < after.len() {
            if b < entries.len() {
                assert(after[b].slug == slug);
                assert(b != at);
                assert(after[b] == entries[b]);
            }
        }
    }
    assert(table(after) =~= table(entries).insert(entry.slug, entry));
}

/// Dropping keeps slugs distinct, and on the table it is a removal of the
/// slug.
pub proof fn dropped_is_remove(entries: Seq<EntryModel>, slug: Seq<char>)
    requires
        distinct_slugs(entries),
    ensures
        distinct_slugs(dropped(entries, slug)),
        table(dropped(entries, slug)) == table(entries).remove(slug),
{
    let after = dropped(entries, slug);
    let at = position(entries, slug);
    position_is_first(entries, slug);
    assert forall|i: int| 0 <= i < after.len() implies #[trigger] after[i] == entries[if i < at {
        i
    } else {
        i + 1
    }] by {}
    assert(distinct_slugs(after)) by {
        assert forall|i: int, j: int|
            0 <= i < after.len() && 0 <= j < after.len() && i != j implies (#[trigger] after[i]).slug
            != (#[trigger] after[j]).slug by {
            let oi = if i < at { i } else { i + 1 };
            let oj = if j < at { j } else { j + 1 };
            assert(after[i] == entries[oi]);
            assert(after[j] == entries[oj]);
        }
    }
    position_is_first(after, slug);
    assert(position(after, slug) == after.len()) by {
        let b = position(after, slug);
        if b < after.len() {
            let ob = if b < at { b } else { b + 1 };
            assert(after[b] == entries[ob]);
            if at < entries.len() {
                assert(entries[ob].slug == entries[at].slug);
            }
        }
    }
    assert forall|other: Seq<char>| other != slug implies (position(after, other) < after.len())
        == (position(entries, other) < entries.len()) && (position(entries, other) < entries.len()
        ==> after[position(after, other)] == entries[position(entries, other)]) by {
        position_is_first(entries, other);
        position_is_first(after, other);
        let a = position(entries, other);
        let b = position(after, other);
        if a < entries.len() {
            let na = if a < at { a } else { a - 1 };
            assert(after[na] == entries[a]);
            if b < na {
                let ob = if b < at { b } else { b + 1 };
                assert(after[b] == entries[ob]);
            }
            if b > na {
                assert(after[na].slug == other);
            }
        } else {
            if b < after.len() {
                let ob = if b < at { b } else { b + 1 };
                assert(after[b] == entries[ob]);
            }
        }
    }
    assert(table(after) =~= table(entries).remove(slug));
}

/// A lockfile as plain values: the schema revision and the entries in the
/// order they are held.
pub struct LockModel {
    pub version: u32,
    pub entries: Seq<EntryModel>,
}

impl LockModel {
    /// The schema revision is one this library knows, and no slug has two
    /// entries.
    pub open spec fn wf(self) -> bool {
        self.version <= CURRENT_SCHEMA && distinct_slugs(self.entries)
    }

    /// The installed skills: each slug with its entry.
    pub open spec fn skills(self) -> Map<Seq<char>, EntryModel> {
        table(self.entries)
    }

    /// The lockfile after `entry` is recorded.
    pub open spec fn record(self, entry: EntryModel) -> LockModel {
        LockModel { version: self.version, entries: recorded(self.entries, entry) }
    }

    /// The lockfile after the entry for `slug` is dropped.
    pub open spec fn forget(self, slug: Seq<char>) -> LockModel {
        LockModel { version: self.version, entries: dropped(self.entries, slug) }
    }
}

/// The record of installed skills: a schema revision that this library
/// knows, and at most one entry per slug.
#[derive(Debug, PartialEq, Eq)]
pub struct LockFile {
    version: u32,
    skills: Vec<LockEntry>,
}

impl View for LockFile {
    type V = LockModel;

    closed spec fn view(&self) -> LockModel {
        LockModel { version: self.version, entries: models(self.skills@) }
    }
}

impl LockEntry {
    /// A copy of the entry.
    pub fn duplicate(&self) -> (r: LockEntry)
        ensures
            r == *self,
    {
        LockEntry {
            slug: self.slug.clone(),
            installed_version: self.installed_version.clone(),
            installed_at: self.installed_at.clone(),
            content_hash: self.content_hash.clone(),
            local_path: self.local_path.clone(),
        }
    }

    /// Whether `artifact` is what the entry was installed from: whether its
    /// content hash is the one recorded.
    pub fn matches_artifact(&self, artifact: &[u8]) -> (r: bool)
        ensures
            r == (self.content_hash@ == content_hash_of(artifact@)),
    {
        let actual = content_hash(artifact);
        same_text(self.content_hash.as_str(), actual.as_str())
    }
}

impl Clone for LockFile {
    fn clone(&self) -> (r: Self)
        ensures
            r@ == self@,
    {
        proof {
            use_type_invariant(self);
        }
        let mut skills: Vec<LockEntry> = Vec::new();
        let mut i: usize = 0;
        while i < self.skills.len()
            invariant
                i <= self.skills@.len(),
                skills@ == self.skills@.take(i as int),
            decreases self.skills@.len() - i,
        {
            skills.push(self.skills[i].duplicate());
            assert(skills@ =~= self.skills@.take(i + 1));
            i += 1;
        }
        assert(skills@ =~= self.skills@);
        LockFile { version: self.version, skills }
    }
}

impl LockFile {
    #[verifier::type_invariant]
    spec fn is_sound(&self) -> bool {
        self.version <= CURRENT_SCHEMA && distinct_slugs(models(self.skills@))
    }

    /// The empty lockfile at the current schema: what a missing file reads
    /// as.
    pub fn new() -> (r: Self)
        ensures
            r@ == (LockModel { version: CURRENT_SCHEMA, entries: Seq::empty() }),
            r@.wf(),
    {
        let lock = LockFile { version: CURRENT_SCHEMA, skills: Vec::new() };
        assert(lock@.entries =~= Seq::<EntryModel>::empty());
        lock
    }

    /// The schema revision.
    pub fn version(&self) -> (r: u32)
        ensures
            r == self@.version,
    {
        self.version
    }

    /// The number of installed skills.
    pub fn len(&self) -> (r: usize)
        ensures
            r == self@.entries.len(),
            self@.wf(),
    {
        proof {
            use_type_invariant(self);
        }
        self.skills.len()
    }

    /// The entries, in the order they are held.
    pub fn entries(&self) -> (r: &Vec<LockEntry>)
        ensures
            models(r@) == self@.entries,
            self@.wf(),
    {
        proof {
            use_type_invariant(self);
        }
        &self.skills
    }

    /// Where the entry for `slug` stands, or the number of entries where
    /// there is none.
    fn find(&self, slug: &str) -> (r: usize)
        ensures
            r == position(self@.entries, slug@),
            r <= self.skills@.len(),
    {
        let mut i: usize = 0;
        proof {
            position_is_first(self@.entries, slug@);
        }
        while i < self.skills.len()
            invariant
                i <= self.skills@.len(),
                forall|k: int| 0 <= k < i ==> (#[trigger] self@.entries[k]).slug != slug@,
                self@.entries == models(self.skills@),
            decreases self.skills@.len() - i,
        {
            assert(self@.entries[i as int] == self.skills@[i as int]@);
            if same_text(self.skills[i].slug.as_str(), slug) {
                proof {
                    position_is_first(self@.entries, slug@);
                }
                return i;
            }
            i += 1;
        }
        proof {
            position_is_first(self@.entries, slug@);
        }
        i
    }

    /// The entry for `slug`, if the skill is installed.
    pub fn get(&self, slug: &str) -> (r: Option<&LockEntry>)
        ensures
            self@.wf(),
            match r {
                Some(entry) => self@.skills().contains_key(slug@) && entry@
                    == self@.skills()[slug@],
                None => !self@.skills().contains_key(slug@),
            },
    {
        proof {
            use_type_invariant(self);
        }
        let at = self.find(slug);
        if at < self.skills.len() {
            assert(self@.entries[at as int] == self.skills@[at as int]@);
            Some(&self.skills[at])
        } else {
            None
        }
    }

    /// Whether the skill `slug` is installed.
    pub fn contains(&self, slug: &str) -> (r: bool)
        ensures
            r == self@.skills().contains_key(slug@),
    {
        let at = self.find(slug);
        at < self.skills.len()
    }

    /// Records `entry`: it replaces the entry with its slug where there is
    /// one, and is added where there is none. Hands back the entry it
    /// replaced.
    pub fn insert(&mut self, entry: LockEntry) -> (previous: Option<LockEntry>)
        ensures
            old(self)@.wf(),
            final(self)@ == old(self)@.record(entry@),
            final(self)@.wf(),
            final(self)@.skills() == old(self)@.skills().insert(entry@.slug, entry@),
            match previous {
                Some(p) => old(self)@.skills().contains_key(entry@.slug) && p@ == old(
                    self,
                )@.skills()[entry@.slug],
                None => !old(self)@.skills().contains_key(entry@.slug),
            },
    {
        proof {
            use_type_invariant(&*self);
            recorded_is_insert(self@.entries, entry@);
        }
        let at = self.find(entry.slug.as_str());
        let ghost before = self.skills@;
        let mut skills: Vec<LockEntry> = Vec::new();
        core::mem::swap(&mut self.skills, &mut skills);
        assert(models(self.skills@) =~= Seq::<EntryModel>::empty());
        let previous = if at < skills.len() {
            skills.push(entry);
            let replaced = skills.swap_remove(at);
            assert(replaced@ == models(before)[at as int]);
            Some(replaced)
        } else {
            skills.push(entry);
            None
        };
        assert(models(skills@) =~= recorded(models(before), entry@));
        self.skills = skills;
        previous
    }

    /// Drops the entry for `slug`, if there is one, and hands it back.
    pub fn remove(&mut self, slug: &str) -> (removed: Option<LockEntry>)
        ensures
            old(self)@.wf(),
            final(self)@ == old(self)@.forget(slug@),
            final(self)@.wf(),
            final(self)@.skills() == old(self)@.skills().remove(slug@),
            match removed {
                Some(p) => old(self)@.skills().contains_key(slug@) && p@ == old(self)@.skills()[slug@],
                None => !old(self)@.skills().contains_key(slug@),
            },
    {
        proof {
            use_type_invariant(&*self);
            dropped_is_remove(self@.entries, slug@);
        }
        let at = self.find(slug);
        let ghost before = self.skills@;
        let mut skills: Vec<LockEntry> = Vec::new();
        core::mem::swap(&mut self.skills, &mut skills);
        assert(models(self.skills@) =~= Seq::<EntryModel>::empty());
        let removed = if at < skills.len() {
            let gone = skills.remove(at);
            assert(gone@ == models(before)[at as int]);
            Some(gone)
        } else {
            None
        };
        assert(models(skills@) =~= dropped(models(before), slug@));
        self.skills = skills;
        removed
    }
}

/// The persisted form of a lockfile: the schema revision and the skills
/// table, each entry under its key.
#[derive(Debug, PartialEq, Eq)]
pub struct LockDocument {
    pub version: u32,
    pub skills: Vec<(String, LockEntry)>,
}

/// What was found where a lockfile is kept.
#[derive(Debug, PartialEq, Eq)]
pub enum StoredLockfile {
    /// There is no file.
    Missing,
    /// The content is not a document that states a schema revision.
    Malformed,
    /// The content states the schema revision `version`. `skills` is its
    /// skills table where that decodes as one, each entry with its key.
    Versioned { version: u32, skills: Option<Vec<(String, LockEntry)>> },
}

impl StoredLockfile {
    /// What a document found where a lockfile is kept amounts to. `skills`
    /// is the document's skills table where it decoded as one.
    ///
    /// The document states a schema revision where its member `version` is
    /// an integer from 0 to the largest `u32`; else it is malformed. The
    /// table is handed on as it is.
    pub fn from_document(document: &serde_json::Value, skills: Option<Vec<(String, LockEntry)>>)
        -> (r: Self)
        ensures
            r == stored_for(number_member(*document, "version"@), skills),
    {
        StoredLockfile::from_version(member_number(document, "version"), skills)
    }

    /// What a document amounts to whose member `version` reads as `version`
    /// (absent where it is no non-negative integer) and whose skills table
    /// is `skills`.
    pub fn from_version(version: Option<u64>, skills: Option<Vec<(String, LockEntry)>>) -> (r:
        Self)
        ensures
            r == stored_for(version, skills),
    {
        match version {
            Some(version) => if version <= 0xffff_ffff {
                StoredLockfile::Versioned { version: version as u32, skills }
            } else {
                StoredLockfile::Malformed
            },
            None => StoredLockfile::Malformed,
        }
    }
}

/// What a document amounts to, by what its member `version` reads as: a
/// number that fits a `u32` is the schema revision the document states, and
/// the skills table is handed on as it is; a larger number, or none, makes
/// the document malformed.
pub open spec fn stored_for(version: Option<u64>, skills: Option<Vec<(String, LockEntry)>>)
    -> StoredLockfile {
    match version {
        Some(number) => if number <= u32::MAX {
            StoredLockfile::Versioned { version: number as u32, skills }
        } else {
            StoredLockfile::Malformed
        },
        None => StoredLockfile::Malformed,
    }
}

/// The entries of a skills table, in order, without their keys.
pub open spec fn entries_of(pairs: Seq<(String, LockEntry)>) -> Seq<EntryModel> {
    pairs.map_values(|pair: (String, LockEntry)| pair.1@)
}

/// Every entry stands under its own slug.
pub open spec fn keys_are_slugs(pairs: Seq<(String, LockEntry)>) -> bool {
    forall|i: int| 0 <= i < pairs.len() ==> (#[trigger] pairs[i]).0@ == pairs[i].1.slug@
}

/// A skills table is sound where every entry stands under its own slug and
/// no slug occurs twice.
pub open spec fn table_is_sound(pairs: Seq<(String, LockEntry)>) -> bool {
    keys_are_slugs(pairs) && distinct_slugs(entries_of(pairs))
}

/// What a stored lockfile reads as.
///
/// A missing file is the empty lockfile at the current schema, not an error.
/// A revision above [`CURRENT_SCHEMA`] is refused as unsupported before
/// anything else of the content is looked at. Content that states no
/// revision, has no skills table, or has an unsound one, is corrupt.
pub open spec fn reading(stored: StoredLockfile) -> Result<LockModel, LockfileError> {
    match stored {
        StoredLockfile::Missing => Ok(
            LockModel { version: CURRENT_SCHEMA, entries: Seq::empty() },
        ),
        StoredLockfile::Malformed => Err(LockfileError::Corrupt),
        StoredLockfile::Versioned { version, skills } => if version > CURRENT_SCHEMA {
            Err(LockfileError::UnsupportedSchema { found: version })
        } else {
            match skills {
                Some(pairs) => if table_is_sound(pairs@) {
                    Ok(LockModel { version, entries: entries_of(pairs@) })
                } else {
                    Err(LockfileError::Corrupt)
                },
                None => Err(LockfileError::Corrupt),
            }
        },
    }
}

impl LockFile {
    /// The lockfile with the given revision and skills table, where the
    /// table is sound.
    fn from_table(version: u32, pairs: &Vec<(String, LockEntry)>) -> (r: Option<LockFile>)
        requires
            version <= CURRENT_SCHEMA,
        ensures
            match r {
                Some(lock) => table_is_sound(pairs@) && lock@.wf() && lock@ == (LockModel {
                    version,
                    entries: entries_of(pairs@),
                }),
                None => !table_is_sound(pairs@),
            },
    {
        let mut lock = LockFile { version, skills: Vec::new() };
        let mut i: usize = 0;
        assert(lock@.entries =~= entries_of(pairs@).take(0));
        while i < pairs.len()
            invariant
                i <= pairs@.len(),
                lock@.version == version,
                lock@.entries == entries_of(pairs@).take(i as int),
                lock@.wf(),
                forall|k: int| 0 <= k < i ==> (#[trigger] pairs@[k]).0@ == pairs@[k].1.slug@,
            decreases pairs@.len() - i,
        {
            let pair = &pairs[i];
            let ghost sofar = lock@.entries;
            if !same_text(pair.0.as_str(), pair.1.slug.as_str()) {
                return None;
            }
            if lock.contains(pair.1.slug.as_str()) {
                proof {
                    position_is_first(sofar, pair.1.slug@);
                    let at = position(sofar, pair.1.slug@);
                    assert(entries_of(pairs@)[at].slug == entries_of(pairs@)[i as int].slug);
                }
                return None;
            }
            lock.insert(pair.1.duplicate());
            proof {
                assert(lock@.entries =~= entries_of(pairs@).take(i + 1));
            }
            i += 1;
        }
        assert(entries_of(pairs@).take(pairs@.len() as int) =~= entries_of(pairs@));
        Some(lock)
    }

    /// Reads a stored lockfile.
    pub fn read(stored: StoredLockfile) -> (r: Result<LockFile, LockfileError>)
        ensures
            match r {
                Ok(lock) => reading(stored) == Ok::<LockModel, LockfileError>(lock@) && lock@.wf(),
                Err(e) => reading(stored) == Err::<LockModel, LockfileError>(e),
            },
    {
        match stored {
            StoredLockfile::Missing => Ok(LockFile::new()),
            StoredLockfile::Malformed => Err(LockfileError::Corrupt),
            StoredLockfile::Versioned { version, skills } => {
                if version > CURRENT_SCHEMA {
                    return Err(LockfileError::UnsupportedSchema { found: version });
                }
                match skills {
                    Some(pairs) => match LockFile::from_table(version, &pairs) {
                        Some(lock) => Ok(lock),
                        None => Err(LockfileError::Corrupt),
                    },
                    None => Err(LockfileError::Corrupt),
                }
            },
        }
    }

    /// The persisted form of the lockfile: every entry under its slug, in the
    /// order the entries are held.
    pub fn to_document(&self) -> (doc: LockDocument)
        ensures
            self@.wf(),
            doc.version == self@.version,
            entries_of(doc.skills@) == self@.entries,
            table_is_sound(doc.skills@),
    {
        proof {
            use_type_invariant(self);
        }
        let mut skills: Vec<(String, LockEntry)> = Vec::new();
        let mut i: usize = 0;
        assert(entries_of(skills@) =~= self@.entries.take(0));
        while i < self.skills.len()
            invariant
                i <= self.skills@.len(),
                self@.entries == models(self.skills@),
                skills@.len() == i,
                entries_of(skills@) == self@.entries.take(i as int),
                keys_are_slugs(skills@),
            decreases self.skills@.len() - i,
        {
            let entry = self.skills[i].duplicate();
            let key = entry.slug.clone();
            let ghost held = skills@;
            skills.push((key, entry));
            proof {
                assert forall|k: int| 0 <= k < i + 1 implies entries_of(skills@)[k]
                    == self@.entries.take(i + 1)[k] by {
                    if k < i {
                        assert(skills@[k] == held[k]);
                        assert(entries_of(held)[k] == self@.entries.take(i as int)[k]);
                    }
                }
                assert(entries_of(skills@) =~= self@.entries.take(i + 1));
            }
            i += 1;
        }
        assert(self@.entries.take(self.skills@.len() as int) =~= self@.entries);
        LockDocument { version: self.version, skills }
    }
}

/// A lockfile reads back from its persisted form as itself: the same
/// revision and the same entries in the same order.
pub proof fn written_then_read_is_same(lock: LockModel, doc: LockDocument)
    requires
        lock.wf(),
        doc.version == lock.version,
        entries_of(doc.skills@) == lock.entries,
        keys_are_slugs(doc.skills@),
    ensures
        reading(StoredLockfile::Versioned { version: doc.version, skills: Some(doc.skills) })
            == Ok::<LockModel, LockfileError>(lock),
{
}

/// A missing lockfile reads as the empty lockfile at the current schema, not
/// as an error.
pub proof fn missing_file_is_empty_lockfile()
    ensures
        reading(StoredLockfile::Missing) == Ok::<LockModel, LockfileError>(
            LockModel { version: CURRENT_SCHEMA, entries: Seq::empty() },
        ),
        reading(StoredLockfile::Missing)->Ok_0.skills() == Map::<Seq<char>, EntryModel>::empty(),
{
    assert(table(Seq::<EntryModel>::empty()) =~= Map::<Seq<char>, EntryModel>::empty());
}

/// A stored lockfile that states a revision above the current schema is
/// refused as unsupported, whatever else it holds.
pub proof fn newer_schema_is_refused(version: u32, skills: Option<Vec<(String, LockEntry)>>)
    requires
        version > CURRENT_SCHEMA,
    ensures
        reading(StoredLockfile::Versioned { version, skills }) == Err::<LockModel, LockfileError>(
            LockfileError::UnsupportedSchema { found: version },
        ),
{
}

/// Two recordings under different slugs, one after the other, lose nothing:
/// both entries are in the table afterwards, every other slug is as before,
/// and the order of the two recordings does not matter to the table.
pub proof fn recordings_of_distinct_slugs_keep_both(
    lock: LockModel,
    first: EntryModel,
    second: EntryModel,
)
    requires
        lock.wf(),
        first.slug != second.slug,
    ensures
        lock.record(first).record(second).wf(),
        lock.record(first).record(second).skills() == lock.skills().insert(
            first.slug,
            first,
        ).insert(second.slug, second),
        lock.record(first).record(second).skills()[first.slug] == first,
        lock.record(first).record(second).skills()[second.slug] == second,
        lock.record(first).record(second).skills() == lock.record(second).record(first).skills(),
{
    recorded_is_insert(lock.entries, first);
    recorded_is_insert(lock.record(first).entries, second);
    recorded_is_insert(lock.entries, second);
    recorded_is_insert(lock.record(second).entries, first);
    assert(lock.skills().insert(first.slug, first).insert(second.slug, second)
        =~= lock.skills().insert(second.slug, second).insert(first.slug, first));
}

/// Recording an entry that is already there, field for field, changes
/// nothing.
pub proof fn recording_again_changes_nothing(lock: LockModel, entry: EntryModel)
    requires
        lock.wf(),
        lock.skills().contains_key(entry.slug),
        lock.skills()[entry.slug] == entry,
    ensures
        lock.record(entry) == lock,
{
    position_is_first(lock.entries, entry.slug);
    assert(lock.record(entry).entries =~= lock.entries);
}

} // verus!
