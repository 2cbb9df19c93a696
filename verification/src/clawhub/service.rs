//! The gateway: the one interface the rest of the application uses.
//!
//! The gateway decides nothing of its own. Each operation hands the work to
//! the client, the installer or the lockfile store, and hands back what they
//! answer.

use crate::clawhub::client::{ClawHubClient, RegistryCall, Request};
use crate::clawhub::install::{ActionModel, InstallAction, InstallOptions, InstallState, StateModel};
use crate::clawhub::lockfile::{reading, LockFile, LockModel, LockfileError, StoredLockfile};
use vstd::prelude::*;

verus! {

/// Where the registry is, and the credential for it.
#[derive(Debug, Clone)]
pub struct ClawHubConfig {
    /// Base address of the registry.
    pub registry: String,
    /// Bearer credential; absent for anonymous access.
    pub token: Option<String>,
}

/// The application's configuration, as far as the registry is concerned.
#[derive(Debug, Clone)]
pub struct Config {
    pub clawhub: ClawHubConfig,
}

/// The operations the rest of the application may ask for. Whatever stands
/// behind a gateway, what it asks of the registry and what it makes of a
/// stored lockfile is the same.
pub trait ClawHubGateway {
    /// The call that searches the registry for `query`.
    fn search(&self, query: &str, limit: usize, sort: &str) -> (r: Request)
        ensures
            r.call matches RegistryCall::Search { query: q, limit: l, sort: s } && q@ == query@ && l
                == limit && s@ == sort@,
    ;

    /// The call that fetches the detail of `slug`.
    fn get_skill(&self, slug: &str) -> (r: Request)
        ensures
            r.call matches RegistryCall::GetSkill { slug: s } && s@ == slug@,
    ;

    /// Begins an install: the first state, and the first action.
    fn install(&self, slug: &str, version: Option<&str>, options: InstallOptions) -> (r: (
        InstallState,
        InstallAction,
    ))
        ensures
            r.0@ == (StateModel::Resolving {
                slug: slug@,
                wanted: match version {
                    Some(v) => Some(v@),
                    None => None,
                },
                options: options@,
            }),
            r.1@ == (ActionModel::GetSkill { slug: slug@ }),
    ;

    /// Reads a stored lockfile.
    fn read_lockfile(&self, stored: StoredLockfile) -> (r: Result<LockFile, LockfileError>)
        ensures
            match r {
                Ok(lock) => reading(stored) == Ok::<LockModel, LockfileError>(lock@) && lock@.wf(),
                Err(e) => reading(stored) == Err::<LockModel, LockfileError>(e),
            },
    ;
}

/// The gateway to a registry.
#[derive(Debug, Clone)]
pub struct RegistryClawHubGateway {
    client: ClawHubClient,
}

impl RegistryClawHubGateway {
    /// The client the gateway works through.
    pub closed spec fn client_spec(&self) -> ClawHubClient {
        self.client
    }

    /// The gateway to the registry that `config` names, with the credential
    /// that `config` holds.
    pub fn from_config(config: &Config) -> (r: Self)
        ensures
            r.client_spec().base() == config.clawhub.registry@,
            r.client_spec().credential() == match config.clawhub.token {
                Some(token) => Some(token@),
                None => None,
            },
    {
        let client = ClawHubClient::new(config.clawhub.registry.as_str(), config.clawhub.token.clone());
        RegistryClawHubGateway { client }
    }

    /// The client the gateway works through.
    pub fn client(&self) -> (r: &ClawHubClient)
        ensures
            *r == self.client_spec(),
    {
        &self.client
    }
}

impl ClawHubGateway for RegistryClawHubGateway {
    fn search(&self, query: &str, limit: usize, sort: &str) -> (r: Request)
        ensures
            self.client_spec().addresses(r),
    {
        self.client.search(query, limit, sort)
    }

    fn get_skill(&self, slug: &str) -> (r: Request)
        ensures
            self.client_spec().addresses(r),
    {
        self.client.get_skill(slug)
    }

    fn install(&self, slug: &str, version: Option<&str>, options: InstallOptions) -> (r: (
        InstallState,
        InstallAction,
    )) {
        InstallState::begin(slug, version, options)
    }

    fn read_lockfile(&self, stored: StoredLockfile) -> (r: Result<LockFile, LockfileError>) {
        LockFile::read(stored)
    }
}

} // verus!
