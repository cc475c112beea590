//! The storage backends that hold published archives: a filesystem tree and
//! a remote artifact repository. Both address an archive under
//! `<name>/<version>/download`. The backend is a closed union; what each
//! upload must perform is computed here as a request value, and the result
//! of performing it is interpreted here, so the I/O itself stays outside
//! the library.

use vstd::prelude::*;
use vstd::string::StringExecFns;
use crate::errors::StorageError;
use crate::registry::CargoManifest;

verus! {

/// The HTTP status the remote artifact repository answers on a successful
/// creation; anything else fails the upload.
pub const CREATED_STATUS: u16 = 201;

/// The path of an archive relative to a backend's root, identical across
/// backends: `<name>/<version>/download`.
pub open spec fn spec_download_rel_path(name: Seq<char>, vers: Seq<char>) -> Seq<char> {
    name + "/"@ + vers + "/download"@
}

/// Computes the relative retrieval path of an archive.
pub fn download_rel_path(name: &str, vers: &str) -> (r: String)
    ensures
        r@ == spec_download_rel_path(name@, vers@),
{
    let mut r = String::new();
    r.append(name);
    r.append("/");
    r.append(vers);
    r.append("/download");
    proof {
        assert(r@ =~= spec_download_rel_path(name@, vers@));
    }
    r
}

/// Filesystem-backed storage: archives live under a root directory.
pub struct FileCrateStorage {
    pub location: String,
}

impl FileCrateStorage {
    /// A filesystem backend rooted at `location`.
    pub fn new(location: &String) -> (r: FileCrateStorage)
        ensures
            r.location@ == location@,
    {
        FileCrateStorage { location: location.clone() }
    }
}

/// Remote-artifact-repository storage: archives are PUT to a base URL with
/// a static API-key header. The URL text is validated where the request is
/// performed.
pub struct ArtifactoryCrateStorage {
    pub base_url: String,
    pub api_key: String,
}

impl ArtifactoryCrateStorage {
    /// A remote backend addressed by `url`, authenticated by `api_key`.
    pub fn new(url: &String, api_key: &String) -> (r: ArtifactoryCrateStorage)
        ensures
            r.base_url@ == url@,
            r.api_key@ == api_key@,
    {
        ArtifactoryCrateStorage { base_url: url.clone(), api_key: api_key.clone() }
    }
}

/// The storage backend a publish stores its archive through: a closed union
/// of the two variants.
pub enum CrateStorage {
    File(FileCrateStorage),
    Artifactory(ArtifactoryCrateStorage),
}

/// What one upload must perform: write the archive bytes at a path,
/// creating missing parent directories, or PUT them to a URL under an
/// API-key header.
pub enum StorageRequest {
    WriteFile { path: String },
    HttpPut { url: String, header_name: String, header_value: String },
}

impl CrateStorage {
    /// The request that stores an archive for the manifest's name and
    /// version: the backend-rooted download path for the filesystem
    /// variant, the authenticated PUT for the remote one.
    pub fn upload_request(&self, manifest: &CargoManifest) -> (r: StorageRequest)
        ensures
            self matches CrateStorage::File(f) ==> r matches StorageRequest::WriteFile { path }
                && path@ == f.location@ + "/"@ + spec_download_rel_path(
                manifest.name@,
                manifest.vers@,
            ),
            self matches CrateStorage::Artifactory(a) ==> r matches StorageRequest::HttpPut {
                url,
                header_name,
                header_value,
            } && url@ == a.base_url@ + "/"@ + spec_download_rel_path(manifest.name@, manifest.vers@)
                && header_name@ == "X-JFrog-Art-Api"@ && header_value@ == a.api_key@,
    {
        let rel = download_rel_path(manifest.name.as_str(), manifest.vers.as_str());
        match self {
            CrateStorage::File(f) => {
                let mut path = f.location.clone();
                path.append("/");
                path.append(rel.as_str());
                proof {
                    assert(path@ =~= f.location@ + "/"@ + spec_download_rel_path(
                        manifest.name@,
                        manifest.vers@,
                    ));
                }
                StorageRequest::WriteFile { path }
            },
            CrateStorage::Artifactory(a) => {
                let mut url = a.base_url.clone();
                url.append("/");
                url.append(rel.as_str());
                proof {
                    assert(url@ =~= a.base_url@ + "/"@ + spec_download_rel_path(
                        manifest.name@,
                        manifest.vers@,
                    ));
                }
                let mut header_name = String::new();
                header_name.append("X-JFrog-Art-Api");
                StorageRequest::HttpPut { url, header_name, header_value: a.api_key.clone() }
            },
        }
    }
}

/// Interprets a filesystem upload: a failure to create the directories or
/// to write the file is an I/O storage error.
pub fn file_upload_outcome(write_ok: bool) -> (r: Result<(), StorageError>)
    ensures
        r is Ok <==> write_ok,
        !write_ok ==> r == Err::<(), StorageError>(StorageError::Io),
{
    if write_ok {
        Ok(())
    } else {
        Err(StorageError::Io)
    }
}

/// Interprets the remote upload's response: success exactly on the
/// "created" status; any other status is reported with its code, and no
/// response at all is a transport failure.
pub fn artifactory_upload_outcome(response_status: Option<u16>) -> (r: Result<(), StorageError>)
    ensures
        r is Ok <==> response_status == Some(CREATED_STATUS),
        response_status is None ==> r == Err::<(), StorageError>(StorageError::Transport),
        response_status matches Some(s) ==> r == (if s == CREATED_STATUS {
            Ok::<(), StorageError>(())
        } else {
            Err::<(), StorageError>(StorageError::UnexpectedStatus(s))
        }),
{
    match response_status {
        None => Err(StorageError::Transport),
        Some(s) => {
            if s == CREATED_STATUS {
                Ok(())
            } else {
                Err(StorageError::UnexpectedStatus(s))
            }
        },
    }
}

} // verus!
