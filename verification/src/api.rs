//! HTTP API types and request handlers for all servers.
//!
//! What each endpoint of the manager API does with a request that was
//! admitted: which file it serves, which command it hands to a manager, and
//! which requests it passes on to the build node.

use crate::builder::{BuildDirCreator, BuildManagerMessage};
use crate::config::{Config, ServerEncryptionKey};
use crate::model::{
    DataEncryptionKey,
    DownloadType,
    ResetDataQueryParam,
    ServerNameText,
    SoftwareOptions,
};
use crate::text::{trim_text, trimmed};
use crate::update::UpdateManagerMessage;
use vstd::prelude::*;

verus! {

pub const PATH_PREFIX: &'static str = "/api/v1/";

pub const PATH_GET_ENCRYPTION_KEY: &'static str = "/manager_api/encryption_key/:server";

pub const PATH_GET_LATEST_SOFTWARE: &'static str = "/manager_api/latest_software";

pub const PATH_POST_REQUEST_BUILD_SOFTWARE: &'static str = "/manager_api/request_build_software";

pub const PATH_POST_RQUEST_SOFTWARE_UPDATE: &'static str = "/manager_api/request_software_update";

pub const PATH_POST_RQUEST_RESTART_OR_RESET_BACKEND: &'static str =
    "/manager_api/request_restart_or_reset_backend";

pub const PATH_GET_SOFTWARE_INFO: &'static str = "/manager_api/software_info";

pub const PATH_GET_SYSTEM_INFO: &'static str = "/manager_api/system_info";

pub const PATH_GET_SYSTEM_INFO_ALL: &'static str = "/manager_api/system_info_all";

/// The status of an answer that reports a failure of the handler.
pub const INTERNAL_SERVER_ERROR: u16 = 500;

/// The index of the first key in `keys` that goes by `server`.
pub open spec fn spec_key_index(keys: Seq<ServerEncryptionKey>, server: Seq<char>) -> Option<int> {
    if exists|i: int| 0 <= i < keys.len() && keys[i].name@ == server {
        Some(
            choose|i: int|
                0 <= i < keys.len() && keys[i].name@ == server && forall|j: int|
                    0 <= j < i ==> keys[j].name@ != server,
        )
    } else {
        None
    }
}

/// The key that this node hands out under the name `server`: the first one
/// that the configuration lists under that name. A name that the
/// configuration does not list is answered with an internal server error.
pub fn get_encryption_key<'a>(keys: &'a [ServerEncryptionKey], server: &ServerNameText) -> (r:
    Result<&'a ServerEncryptionKey, u16>)
    ensures
        r is Ok == spec_key_index(keys@, server.server@) is Some,
        r is Ok ==> *r->Ok_0 == keys@[spec_key_index(keys@, server.server@)->0],
        r is Ok ==> r->Ok_0.name@ == server.server@,
        r is Err ==> r->Err_0 == INTERNAL_SERVER_ERROR,
{
    let mut i: usize = 0;
    while i < keys.len()
        invariant
            i <= keys.len(),
            forall|j: int| 0 <= j < i ==> keys@[j].name@ != server.server@,
        decreases keys.len() - i,
    {
        if keys[i].name == server.server {
            proof {
                let k = choose|k: int|
                    0 <= k < keys@.len() && keys@[k].name@ == server.server@ && forall|j: int|
                        0 <= j < k ==> keys@[j].name@ != server.server@;
                assert(0 <= i < keys@.len() && keys@[i as int].name@ == server.server@
                    && forall|j: int| 0 <= j < i ==> keys@[j].name@ != server.server@);
                assert(k == i);
            }
            return Ok(&keys[i]);
        }
        i = i + 1;
    }
    Err(INTERNAL_SERVER_ERROR)
}

impl ServerEncryptionKey {
    /// The key that the key file holds: its content without the white space
    /// around it.
    pub fn read_encryption_key(content: &str) -> (r: DataEncryptionKey)
        ensures
            r@ == trimmed(content@),
    {
        DataEncryptionKey { key: trim_text(content) }
    }
}

/// Where an answer to a request comes from.
#[derive(Debug)]
pub enum LatestSoftware {
    /// From this node's latest build: the content of the file.
    File(String),
    /// From the build node: the same request is passed on.
    Forward,
}

/// The texts of [`LatestSoftware`].
pub enum LatestSoftwareView {
    File(Seq<char>),
    Forward,
}

impl View for LatestSoftware {
    type V = LatestSoftwareView;

    open spec fn view(&self) -> LatestSoftwareView {
        match self {
            LatestSoftware::File(path) => LatestSoftwareView::File(path@),
            LatestSoftware::Forward => LatestSoftwareView::Forward,
        }
    }
}

/// Where a download of the latest software is served from: a node that
/// builds serves its own latest build, a node that only updates passes the
/// request on to its update provider, and a node that does neither answers
/// with an internal server error.
pub open spec fn spec_latest_software(config: Config, software: SoftwareOptions, download: DownloadType) -> Result<
    LatestSoftwareView,
    u16,
> {
    if config.file().software_builder is Some {
        Ok(LatestSoftwareView::File(BuildDirCreator::data_path(config, software, download)->Ok_0))
    } else if config.file().software_update_provider is Some {
        Ok(LatestSoftwareView::Forward)
    } else {
        Err(INTERNAL_SERVER_ERROR)
    }
}

/// Decides where a download of the latest software is served from.
pub fn get_latest_software(config: &Config, software: SoftwareOptions, download: DownloadType) -> (r:
    Result<LatestSoftware, u16>)
    ensures
        r is Ok == spec_latest_software(*config, software, download) is Ok,
        r is Ok ==> r->Ok_0@ == spec_latest_software(*config, software, download)->Ok_0,
        r is Err ==> r->Err_0 == INTERNAL_SERVER_ERROR,
{
    if config.software_builder().is_some() {
        match BuildDirCreator::get_data(config, software, download) {
            Ok(path) => Ok(LatestSoftware::File(path)),
            Err(_) => Err(INTERNAL_SERVER_ERROR),
        }
    } else if config.software_update_provider().is_some() {
        Ok(LatestSoftware::Forward)
    } else {
        Err(INTERNAL_SERVER_ERROR)
    }
}

/// What becomes of a request for a build.
#[derive(Clone, Copy, Debug, PartialEq, Eq, Structural)]
pub enum BuildRequest {
    /// This node builds: the command goes to its build manager.
    Build(BuildManagerMessage),
    /// The build node builds: the request is passed on.
    Forward,
}

/// Decides what becomes of a request for a build of `software`.
pub fn post_request_build_software(config: &Config, software: SoftwareOptions) -> (r: Result<
    BuildRequest,
    u16,
>)
    ensures
        r == (if config.file().software_builder is Some {
            Ok::<BuildRequest, u16>(
                BuildRequest::Build(
                    match software {
                        SoftwareOptions::Manager => BuildManagerMessage::BuildNewManagerVersion,
                        SoftwareOptions::Backend => BuildManagerMessage::BuildNewBackendVersion,
                    },
                ),
            )
        } else if config.file().software_update_provider is Some {
            Ok::<BuildRequest, u16>(BuildRequest::Forward)
        } else {
            Err::<BuildRequest, u16>(INTERNAL_SERVER_ERROR)
        }),
{
    if config.software_builder().is_some() {
        Ok(BuildRequest::Build(BuildManagerMessage::build_request(software)))
    } else if config.software_update_provider().is_some() {
        Ok(BuildRequest::Forward)
    } else {
        Err(INTERNAL_SERVER_ERROR)
    }
}

/// The command that a request for an update hands to the update manager.
pub fn post_request_software_update(software: SoftwareOptions, reboot: bool, reset_data: ResetDataQueryParam) -> (r:
    UpdateManagerMessage)
    ensures
        r == (UpdateManagerMessage::UpdateSoftware { force_reboot: reboot, reset_data, software }),
{
    UpdateManagerMessage::UpdateSoftware { force_reboot: reboot, reset_data, software }
}

/// The command that a request for a restart hands to the update manager.
pub fn post_request_restart_or_reset_backend(reset_data: ResetDataQueryParam) -> (r:
    UpdateManagerMessage)
    ensures
        r == (UpdateManagerMessage::RestartBackend { reset_data }),
{
    UpdateManagerMessage::RestartBackend { reset_data }
}

} // verus!
