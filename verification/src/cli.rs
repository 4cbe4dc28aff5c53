//! The command line: the commands of the operator's client, and the build
//! identification that the supervisor prints.

use crate::client::{
    HttpMethod,
    ManagerApi,
    PeerConfig,
    PeerConfigView,
    PeerRequest,
    PeerRequestView,
    QueryParamView,
    bool_word,
    form_urlencoded,
    software_word,
};
use crate::model::{DownloadType, ResetDataQueryParam, SoftwareOptions};
use vstd::prelude::*;

verus! {

/// The address of a supervisor on this host that serves without TLS.
pub const DEFAULT_HTTP_LOCALHOST_URL: &'static str = "http://localhost:5000";

/// The address of a supervisor on this host that serves with TLS.
pub const DEFAULT_HTTPS_LOCALHOST_URL: &'static str = "https://localhost:5000";

/// What the operator asks a supervisor for.
#[derive(Debug)]
pub enum ApiCommand {
    EncryptionKey { encryption_key_name: String },
    LatestBuildInfo { software: SoftwareOptions },
    RequestBuildSoftware { software: SoftwareOptions },
    RequestUpdateSoftware { software: SoftwareOptions, reboot: bool, reset_data: bool },
    RequestRestartBackend { reset_data: bool },
    SystemInfoAll,
    SystemInfo,
    SoftwareInfo,
}

/// The texts of an [`ApiCommand`].
pub enum ApiCommandView {
    EncryptionKey { encryption_key_name: Seq<char> },
    LatestBuildInfo { software: SoftwareOptions },
    RequestBuildSoftware { software: SoftwareOptions },
    RequestUpdateSoftware { software: SoftwareOptions, reboot: bool, reset_data: bool },
    RequestRestartBackend { reset_data: bool },
    SystemInfoAll,
    SystemInfo,
    SoftwareInfo,
}

impl View for ApiCommand {
    type V = ApiCommandView;

    open spec fn view(&self) -> ApiCommandView {
        match self {
            ApiCommand::EncryptionKey { encryption_key_name } => ApiCommandView::EncryptionKey {
                encryption_key_name: encryption_key_name@,
            },
            ApiCommand::LatestBuildInfo { software } => ApiCommandView::LatestBuildInfo {
                software: *software,
            },
            ApiCommand::RequestBuildSoftware { software } => ApiCommandView::RequestBuildSoftware {
                software: *software,
            },
            ApiCommand::RequestUpdateSoftware {
                software,
                reboot,
                reset_data,
            } => ApiCommandView::RequestUpdateSoftware {
                software: *software,
                reboot: *reboot,
                reset_data: *reset_data,
            },
            ApiCommand::RequestRestartBackend {
                reset_data,
            } => ApiCommandView::RequestRestartBackend { reset_data: *reset_data },
            ApiCommand::SystemInfoAll => ApiCommandView::SystemInfoAll,
            ApiCommand::SystemInfo => ApiCommandView::SystemInfo,
            ApiCommand::SoftwareInfo => ApiCommandView::SoftwareInfo,
        }
    }
}

impl ApiCommandView {
    /// The request that carries the command to the supervisor at `peer`.
    pub open spec fn request(self, peer: PeerConfigView) -> PeerRequestView {
        match self {
            ApiCommandView::EncryptionKey { encryption_key_name } => PeerRequestView::to(
                peer,
                HttpMethod::Get,
                "/manager_api/encryption_key/"@ + form_urlencoded(encryption_key_name),
                Seq::empty(),
            ),
            ApiCommandView::LatestBuildInfo { software } => PeerRequestView::to(
                peer,
                HttpMethod::Get,
                "/manager_api/latest_software"@,
                seq![
                    QueryParamView { name: "software_options"@, value: software_word(software) },
                    QueryParamView { name: "download_type"@, value: DownloadType::Info.word() },
                ],
            ),
            ApiCommandView::RequestBuildSoftware { software } => PeerRequestView::to(
                peer,
                HttpMethod::Post,
                "/manager_api/request_build_software"@,
                seq![QueryParamView { name: "software_options"@, value: software_word(software) }],
            ),
            ApiCommandView::RequestUpdateSoftware {
                software,
                reboot,
                reset_data,
            } => PeerRequestView::to(
                peer,
                HttpMethod::Post,
                "/manager_api/request_software_update"@,
                seq![
                    QueryParamView { name: "software_options"@, value: software_word(software) },
                    QueryParamView { name: "reboot"@, value: bool_word(reboot) },
                    QueryParamView { name: "reset_data"@, value: bool_word(reset_data) },
                ],
            ),
            ApiCommandView::RequestRestartBackend { reset_data } => PeerRequestView::to(
                peer,
                HttpMethod::Post,
                "/manager_api/request_restart_or_reset_backend"@,
                seq![QueryParamView { name: "reset_data"@, value: bool_word(reset_data) }],
            ),
            ApiCommandView::SystemInfoAll => PeerRequestView::to(
                peer,
                HttpMethod::Get,
                "/manager_api/system_info_all"@,
                Seq::empty(),
            ),
            ApiCommandView::SystemInfo => PeerRequestView::to(
                peer,
                HttpMethod::Get,
                "/manager_api/system_info"@,
                Seq::empty(),
            ),
            ApiCommandView::SoftwareInfo => PeerRequestView::to(
                peer,
                HttpMethod::Get,
                "/manager_api/software_info"@,
                Seq::empty(),
            ),
        }
    }
}

impl ApiCommand {
    /// The request that carries the command to the supervisor at
    /// `configuration`.
    pub fn request(&self, configuration: &PeerConfig) -> (r: PeerRequest)
        ensures
            r@ == self@.request(configuration@),
    {
        match self {
            ApiCommand::EncryptionKey { encryption_key_name } => ManagerApi::get_encryption_key(
                configuration,
                encryption_key_name.as_str(),
            ),
            ApiCommand::LatestBuildInfo { software } => ManagerApi::get_latest_build_info_raw(
                configuration,
                *software,
            ),
            ApiCommand::RequestBuildSoftware {
                software,
            } => ManagerApi::request_build_software_from_build_server(configuration, *software),
            ApiCommand::RequestUpdateSoftware {
                software,
                reboot,
                reset_data,
            } => ManagerApi::request_update_software(
                configuration,
                *software,
                *reboot,
                ResetDataQueryParam { reset_data: *reset_data },
            ),
            ApiCommand::RequestRestartBackend { reset_data } => ManagerApi::restart_backend(
                configuration,
                ResetDataQueryParam { reset_data: *reset_data },
            ),
            ApiCommand::SystemInfoAll => ManagerApi::system_info_all(configuration),
            ApiCommand::SystemInfo => ManagerApi::system_info(configuration),
            ApiCommand::SoftwareInfo => ManagerApi::software_info(configuration),
        }
    }
}

/// How the client reaches the supervisor at `base_url` with `api_key`.
pub fn create_configration(api_key: &str, base_url: &str) -> (r: PeerConfig)
    ensures
        r@ == PeerConfigView::at(base_url@, api_key@, None),
{
    PeerConfig::at(base_url, api_key, None)
}

/// The address that the client calls when it is given none: that of a
/// supervisor on this host, with TLS unless the configuration file in the
/// working directory configures none.
pub fn default_api_url(config_file_exists: bool, tls_configured: bool) -> (r: &'static str)
    ensures
        r@ == (if config_file_exists && !tls_configured {
            DEFAULT_HTTP_LOCALHOST_URL@
        } else {
            DEFAULT_HTTPS_LOCALHOST_URL@
        }),
{
    if config_file_exists && !tls_configured {
        DEFAULT_HTTP_LOCALHOST_URL
    } else {
        DEFAULT_HTTPS_LOCALHOST_URL
    }
}

/// What identifies a build of the supervisor.
#[derive(Debug)]
pub struct BuildIdentification {
    pub git_commit_hash: String,
    pub git_describe: String,
    pub git_branch: String,
    pub rustc_semver: String,
    pub rustc_host_triple: String,
    pub cargo_target_triple: String,
    pub cargo_debug: String,
    pub cargo_features: String,
    pub cargo_opt_level: String,
}

/// One line of the build identification, with the line break before it.
pub open spec fn info_line(label: Seq<char>, value: Seq<char>) -> Seq<char> {
    seq!['\n'] + label + ": "@ + value
}

/// The build identification as the supervisor prints it: one line for each
/// value, each with its label.
pub open spec fn spec_build_info(id: BuildIdentification) -> Seq<char> {
    "git commit hash: "@ + id.git_commit_hash@ + info_line("git describe"@, id.git_describe@)
        + info_line("git branch"@, id.git_branch@) + info_line("rustc semver"@, id.rustc_semver@)
        + info_line("rustc host triple"@, id.rustc_host_triple@) + info_line(
        "cargo target triple"@,
        id.cargo_target_triple@,
    ) + info_line("cargo debug"@, id.cargo_debug@) + info_line(
        "cargo features"@,
        id.cargo_features@,
    ) + info_line("cargo opt level"@, id.cargo_opt_level@)
}

fn add_line(text: &mut String, label: &str, value: &str)
    ensures
        final(text)@ == old(text)@ + info_line(label@, value@),
{
    proof {
        reveal_strlit("\n");
        assert("\n"@ =~= seq!['\n']);
    }
    text.append("\n");
    text.append(label);
    text.append(": ");
    text.append(value);
    assert(text@ =~= old(text)@ + info_line(label@, value@));
}

/// The build identification of the supervisor.
pub fn build_info(id: &BuildIdentification) -> (r: String)
    ensures
        r@ == spec_build_info(*id),
{
    let mut text = String::from_str("git commit hash: ");
    text.append(id.git_commit_hash.as_str());
    add_line(&mut text, "git describe", id.git_describe.as_str());
    add_line(&mut text, "git branch", id.git_branch.as_str());
    add_line(&mut text, "rustc semver", id.rustc_semver.as_str());
    add_line(&mut text, "rustc host triple", id.rustc_host_triple.as_str());
    add_line(&mut text, "cargo target triple", id.cargo_target_triple.as_str());
    add_line(&mut text, "cargo debug", id.cargo_debug.as_str());
    add_line(&mut text, "cargo features", id.cargo_features.as_str());
    add_line(&mut text, "cargo opt level", id.cargo_opt_level.as_str());
    text
}

} // verus!
