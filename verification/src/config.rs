//! The service configuration and the modules it selects: exactly one
//! storage backend, and an optional identity verifier. Reading and parsing
//! the configuration file happens outside the library; these types hold
//! the result.

use vstd::prelude::*;
use vstd::pervasive::unreached;
use crate::storage::{ArtifactoryCrateStorage, CrateStorage, FileCrateStorage};
use crate::strutil::clone_string_vec;

verus! {

/// The whole service configuration.
pub struct CaesiumConfig {
    pub registry: CeasiumRegistryConfig,
    pub storage: CaesiumStorageConfig,
    pub authentication: Option<CaesiumAuthenticationConfig>,
    pub server: Option<CaesiumServerConfig>,
}

/// Where the registry index repository lives.
pub struct CeasiumRegistryConfig {
    pub index: String,
}

/// Which storage backend to use; the file variant takes precedence when
/// both are present.
pub struct CaesiumStorageConfig {
    pub file: Option<CaesiumFileStorageConfig>,
    pub artifactory: Option<CaesiumArtifactoryStorageConfig>,
}

/// Root directory of the filesystem backend.
pub struct CaesiumFileStorageConfig {
    pub location: String,
}

/// Address and credential of the remote artifact repository.
pub struct CaesiumArtifactoryStorageConfig {
    pub base_url: String,
    pub api_key: String,
}

/// Identity-verification configuration.
pub struct CaesiumAuthenticationConfig {
    pub oauth2: Option<CaesiumOAuth2Config>,
}

/// The OAuth2 client the verifier authenticates against.
pub struct CaesiumOAuth2Config {
    pub client_id: String,
    pub client_secret: String,
    pub authorization_url: String,
    pub token_url: String,
    pub scope: Vec<String>,
}

/// The listening port, if configured.
pub struct CaesiumServerConfig {
    pub port: Option<u16>,
}

/// The character-level view of an OAuth2 client configuration.
pub open spec fn oauth2_view(c: CaesiumOAuth2Config) -> (
    Seq<char>,
    Seq<char>,
    Seq<char>,
    Seq<char>,
    Seq<Seq<char>>,
) {
    (c.client_id@, c.client_secret@, c.authorization_url@, c.token_url@, c.scope.deep_view())
}

impl CaesiumConfig {
    /// Selects the configured storage backend: the filesystem one when a
    /// file section is present, else the remote one. Some storage section
    /// must be configured.
    pub fn create_storage_module(&self) -> (r: CrateStorage)
        requires
            self.storage.file is Some || self.storage.artifactory is Some,
        ensures
            self.storage.file matches Some(f) ==> r matches CrateStorage::File(b) && b.location@
                == f.location@,
            (self.storage.file is None && self.storage.artifactory is Some) ==> (
            self.storage.artifactory matches Some(a) && r matches CrateStorage::Artifactory(b)
                && b.base_url@ == a.base_url@ && b.api_key@ == a.api_key@),
    {
        match &self.storage.file {
            Some(f) => CrateStorage::File(FileCrateStorage::new(&f.location)),
            None => {
                match &self.storage.artifactory {
                    Some(a) => CrateStorage::Artifactory(
                        ArtifactoryCrateStorage::new(&a.base_url, &a.api_key),
                    ),
                    None => unreached(),
                }
            },
        }
    }

    /// Selects the identity verifier: the OAuth2 client configuration when
    /// one is present, else none.
    pub fn create_authentication_module(&self) -> (r: Option<CaesiumOAuth2Config>)
        ensures
            r is Some <==> (self.authentication matches Some(a) && a.oauth2 is Some),
            self.authentication matches Some(a) ==> a.oauth2 matches Some(o) ==> (r matches Some(
                c,
            ) && oauth2_view(c) == oauth2_view(o)),
    {
        match &self.authentication {
            Some(auth) => {
                match &auth.oauth2 {
                    Some(o) => {
                        let scope = clone_string_vec(&o.scope);
                        let c = CaesiumOAuth2Config {
                            client_id: o.client_id.clone(),
                            client_secret: o.client_secret.clone(),
                            authorization_url: o.authorization_url.clone(),
                            token_url: o.token_url.clone(),
                            scope,
                        };
                        proof {
                            assert(c.scope.deep_view() =~= o.scope.deep_view());
                        }
                        Some(c)
                    },
                    None => None,
                }
            },
            None => None,
        }
    }
}

} // verus!
