//! The service around the publish pipeline: the assembled components, the
//! one route the HTTP surface answers, the response statuses, and the
//! pipeline itself as a state machine. One publish is strictly linear:
//! decode, parse, verify identity, checksum and store, append to the
//! index, commit, push; any stage failure aborts the rest. The whole
//! commit-and-push sequence mutates one shared working copy, so callers
//! must keep at most one of them in flight at a time.

use vstd::prelude::*;
use std::sync::Arc;
use crate::checksum::sha256_hex_of;
use crate::config::{CaesiumConfig, CaesiumOAuth2Config};
use crate::errors::{PublishError, StorageError};
use crate::registry::{AddCratePlan, CargoManifest, Registry, entry_of_manifest, spec_entry_json,
    spec_index_rel_path};
use crate::storage::{CrateStorage, StorageRequest, spec_download_rel_path};
use crate::strutil::str_eq;

verus! {

/// The assembled service: the cloned index working copy, the configuration
/// it came from, the selected identity verifier and storage backend.
pub struct Caesium {
    pub registry: Registry,
    pub config: CaesiumConfig,
    pub authentication: Option<CaesiumOAuth2Config>,
    pub storage: CrateStorage,
}

impl Caesium {
    /// Assembles the service from a loaded configuration: the registry
    /// records the index to clone, and the configured modules are
    /// selected. Some storage section must be configured.
    pub fn new(config: CaesiumConfig) -> (r: Caesium)
        requires
            config.storage.file is Some || config.storage.artifactory is Some,
        ensures
            r.registry.index_url@ == config.registry.index@,
            r.registry.workdir@ == "./repo"@,
            config.storage.file matches Some(f) ==> r.storage matches CrateStorage::File(b)
                && b.location@ == f.location@,
            (config.storage.file is None && config.storage.artifactory is Some) ==> (
            config.storage.artifactory matches Some(a) && r.storage matches
                CrateStorage::Artifactory(b) && b.base_url@ == a.base_url@ && b.api_key@
                == a.api_key@),
            r.authentication is Some <==> (config.authentication matches Some(a) && a.oauth2
                is Some),
            r.config == config,
    {
        let storage = config.create_storage_module();
        let authentication = config.create_authentication_module();
        let registry = Registry::new(config.registry.index.as_str());
        Caesium { registry, config, storage, authentication }
    }

    /// Everything one publish computes between its I/O steps: the storage
    /// request for the archive, the index plan (record, JSON line, shard
    /// file, commit message), and whether an identity check is due.
    pub fn publish_plan(&self, manifest: &CargoManifest, crate_tar: &[u8]) -> (r: PublishPlan)
        requires
            manifest.name@.len() > 0,
        ensures
            entry_of_manifest(r.index.entry, *manifest, sha256_hex_of(crate_tar@)),
            r.index.entry_line@ == spec_entry_json(r.index.entry),
            r.index.index_rel_path@ == spec_index_rel_path(manifest.name@),
            r.index.index_file@ == self.registry.workdir@ + "/"@ + spec_index_rel_path(
                manifest.name@,
            ),
            r.index.commit_message@ == "Adding "@ + manifest.name@ + " "@ + manifest.vers@,
            self.storage matches CrateStorage::File(f) ==> r.storage_request matches
                StorageRequest::WriteFile { path } && path@ == f.location@ + "/"@
                + spec_download_rel_path(manifest.name@, manifest.vers@),
            self.storage matches CrateStorage::Artifactory(a) ==> r.storage_request matches
                StorageRequest::HttpPut { url, header_name, header_value } && url@ == a.base_url@
                + "/"@ + spec_download_rel_path(manifest.name@, manifest.vers@) && header_name@
                == "X-JFrog-Art-Api"@ && header_value@ == a.api_key@,
            r.has_auth == (self.authentication is Some),
    {
        let storage_request = self.storage.upload_request(manifest);
        let index = self.registry.add_crate(manifest, crate_tar);
        let has_auth = self.authentication.is_some();
        PublishPlan { storage_request, index, has_auth }
    }
}

/// The computed part of one publish, handed to the caller that performs
/// the I/O around it.
pub struct PublishPlan {
    pub storage_request: StorageRequest,
    pub index: AddCratePlan,
    pub has_auth: bool,
}

/// One service handle per connection, sharing the assembled service.
pub struct CaesiumService {
    pub caesium: Arc<Caesium>,
}

impl CaesiumService {
    pub fn new(caesium: Arc<Caesium>) -> (r: CaesiumService)
        ensures
            r.caesium == caesium,
    {
        CaesiumService { caesium }
    }
}

/// Where a request is routed: the publish endpoint, or nowhere.
pub enum RouteDecision {
    PublishNew,
    NotFound,
}

/// The one route the service answers: PUT on the publish path. Everything
/// else is not found.
pub fn route_request(method: &str, path: &str) -> (r: RouteDecision)
    ensures
        r is PublishNew <==> (method@ == "PUT"@ && path@ == "/api/v1/crates/new"@),
{
    if str_eq(method, "PUT") && str_eq(path, "/api/v1/crates/new") {
        RouteDecision::PublishNew
    } else {
        RouteDecision::NotFound
    }
}

/// The response to a routed publish: success, or an opaque server error;
/// no internal error detail reaches the client.
pub fn publish_response_status(outcome: &Result<(), PublishError>) -> (r: u16)
    ensures
        outcome is Ok ==> r == 200,
        outcome is Err ==> r == 500,
{
    match outcome {
        Ok(_) => 200,
        Err(_) => 500,
    }
}

/// The response to any other method or path.
pub fn not_found_status() -> (r: u16)
    ensures
        r == 404,
{
    404
}

/// Where one publish stands: which step it awaits, or how it ended.
#[derive(Debug, Clone, Copy, PartialEq, Eq, Structural)]
pub enum PublishStage {
    AwaitManifest,
    AwaitAuth,
    AwaitStorage,
    AwaitIndexWrite,
    AwaitCommit,
    AwaitPush,
    Done,
    Failed(PublishError),
}

/// The result of the step a publish was awaiting.
#[derive(Debug, Clone, Copy, PartialEq, Eq)]
pub enum PublishEvent {
    ManifestParsed(bool),
    AuthChecked(bool),
    StorageFinished(Result<(), StorageError>),
    IndexWritten(bool),
    CommitFinished(bool),
    PushFinished { transport_ok: bool, ref_rejected: bool },
}

/// The publish pipeline's transition function. Each step's success moves
/// to the next step, skipping the identity check when none is configured;
/// each failure ends the publish under that stage's error tag, so no later
/// stage runs and a stored archive is never rolled back. An event that
/// does not belong to the awaited step changes nothing.
pub open spec fn spec_publish_step(
    stage: PublishStage,
    event: PublishEvent,
    has_auth: bool,
) -> PublishStage {
    match (stage, event) {
        (PublishStage::AwaitManifest, PublishEvent::ManifestParsed(ok)) => if !ok {
            PublishStage::Failed(PublishError::ManifestParse)
        } else if has_auth {
            PublishStage::AwaitAuth
        } else {
            PublishStage::AwaitStorage
        },
        (PublishStage::AwaitAuth, PublishEvent::AuthChecked(ok)) => if ok {
            PublishStage::AwaitStorage
        } else {
            PublishStage::Failed(PublishError::Authentication)
        },
        (PublishStage::AwaitStorage, PublishEvent::StorageFinished(res)) => match res {
            Ok(_) => PublishStage::AwaitIndexWrite,
            Err(e) => PublishStage::Failed(PublishError::Storage(e)),
        },
        (PublishStage::AwaitIndexWrite, PublishEvent::IndexWritten(ok)) => if ok {
            PublishStage::AwaitCommit
        } else {
            PublishStage::Failed(PublishError::Index)
        },
        (PublishStage::AwaitCommit, PublishEvent::CommitFinished(ok)) => if ok {
            PublishStage::AwaitPush
        } else {
            PublishStage::Failed(PublishError::Index)
        },
        (PublishStage::AwaitPush, PublishEvent::PushFinished { transport_ok, ref_rejected }) => if transport_ok
            && !ref_rejected {
            PublishStage::Done
        } else {
            PublishStage::Failed(PublishError::PushRejected)
        },
        _ => stage,
    }
}

/// Advances one publish by the result of the step it was awaiting.
pub fn publish_step(stage: &PublishStage, event: &PublishEvent, has_auth: bool) -> (r: PublishStage)
    ensures
        r == spec_publish_step(*stage, *event, has_auth),
{
    match (stage, event) {
        (PublishStage::AwaitManifest, PublishEvent::ManifestParsed(ok)) => if !*ok {
            PublishStage::Failed(PublishError::ManifestParse)
        } else if has_auth {
            PublishStage::AwaitAuth
        } else {
            PublishStage::AwaitStorage
        },
        (PublishStage::AwaitAuth, PublishEvent::AuthChecked(ok)) => if *ok {
            PublishStage::AwaitStorage
        } else {
            PublishStage::Failed(PublishError::Authentication)
        },
        (PublishStage::AwaitStorage, PublishEvent::StorageFinished(res)) => match res {
            Ok(_) => PublishStage::AwaitIndexWrite,
            Err(e) => PublishStage::Failed(PublishError::Storage(*e)),
        },
        (PublishStage::AwaitIndexWrite, PublishEvent::IndexWritten(ok)) => if *ok {
            PublishStage::AwaitCommit
        } else {
            PublishStage::Failed(PublishError::Index)
        },
        (PublishStage::AwaitCommit, PublishEvent::CommitFinished(ok)) => if *ok {
            PublishStage::AwaitPush
        } else {
            PublishStage::Failed(PublishError::Index)
        },
        (PublishStage::AwaitPush, PublishEvent::PushFinished { transport_ok, ref_rejected }) => if *transport_ok
            && !*ref_rejected {
            PublishStage::Done
        } else {
            PublishStage::Failed(PublishError::PushRejected)
        },
        _ => *stage,
    }
}

/// A push rejection fails a publish under `PushRejected`, which is
/// distinct from the `Index` tag an index-write or commit failure carries,
/// even though both are server faults.
pub proof fn lemma_push_rejection_distinct(has_auth: bool)
    ensures
        spec_publish_step(
            PublishStage::AwaitPush,
            PublishEvent::PushFinished { transport_ok: true, ref_rejected: true },
            has_auth,
        ) == PublishStage::Failed(PublishError::PushRejected),
        spec_publish_step(
            PublishStage::AwaitIndexWrite,
            PublishEvent::IndexWritten(false),
            has_auth,
        ) == PublishStage::Failed(PublishError::Index),
        spec_publish_step(PublishStage::AwaitCommit, PublishEvent::CommitFinished(false), has_auth)
            == PublishStage::Failed(PublishError::Index),
        PublishError::PushRejected != PublishError::Index,
{
}

/// A failed publish stays failed: no later event revives it, so a stage
/// failure aborts every remaining stage.
pub proof fn lemma_failure_is_final(err: PublishError, event: PublishEvent, has_auth: bool)
    ensures
        spec_publish_step(PublishStage::Failed(err), event, has_auth) == PublishStage::Failed(err),
{
}

} // verus!
