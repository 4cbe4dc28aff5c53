//! The peers that this node calls, and the requests it sends them.

use crate::auth::API_KEY_HEADER_STR;
use crate::config::{Config, ManagerInstance};
use crate::model::{DownloadType, ResetDataQueryParam, SoftwareOptions};
use crate::text::{concat, lemma_strip_trailing, spec_strip_trailing, str_eq, strip_trailing};
use vstd::prelude::*;

verus! {

/// What a peer is called for.
#[derive(Clone, Copy, Debug, PartialEq, Eq, Structural)]
pub enum Peer {
    EncryptionKeyProvider,
    SoftwareUpdateProvider,
    SystemInfoRemoteManager,
}

impl Peer {
    /// The name of the peer's configuration.
    pub fn config_name(&self) -> (r: &'static str)
        ensures
            r@ == (match *self {
                Peer::EncryptionKeyProvider => "encryption_key_provider_config"@,
                Peer::SoftwareUpdateProvider => "software_update_provider_config"@,
                Peer::SystemInfoRemoteManager => "system_info_remote_manager_config"@,
            }),
    {
        match self {
            Peer::EncryptionKeyProvider => "encryption_key_provider_config",
            Peer::SoftwareUpdateProvider => "software_update_provider_config",
            Peer::SystemInfoRemoteManager => "system_info_remote_manager_config",
        }
    }
}

#[derive(Clone, Copy, Debug, PartialEq, Eq, Structural)]
pub enum ApiError {
    ClientBuildFailed,
    ApiRequest,
    DatabaseError,
    /// Manager API URL not configured for the peer
    ManagerApiUrlNotConfigured(Peer),
    MissingValue,
    InvalidValue,
    MissingConfiguration,
}

impl ApiError {
    /// The text of the error.
    pub fn message(&self) -> (r: &'static str)
        ensures
            r@ == (match *self {
                ApiError::ClientBuildFailed => "Client build failed"@,
                ApiError::ApiRequest => "API request failed"@,
                ApiError::DatabaseError => "Database call failed"@,
                ApiError::ManagerApiUrlNotConfigured(_) => "Manager API URL not configured"@,
                ApiError::MissingValue => "Missing value"@,
                ApiError::InvalidValue => "Invalid value"@,
                ApiError::MissingConfiguration => "Missing configuration"@,
            }),
    {
        match self {
            ApiError::ClientBuildFailed => "Client build failed",
            ApiError::ApiRequest => "API request failed",
            ApiError::DatabaseError => "Database call failed",
            ApiError::ManagerApiUrlNotConfigured(_) => "Manager API URL not configured",
            ApiError::MissingValue => "Missing value",
            ApiError::InvalidValue => "Invalid value",
            ApiError::MissingConfiguration => "Missing configuration",
        }
    }
}

/// How one peer is reached.
#[derive(Debug)]
pub struct PeerConfig {
    /// The address of the peer's API, without a slash at its end.
    pub base_url: String,
    /// The key that the peer asks for.
    pub api_key: String,
    /// How long a request may take, in seconds; the default of the HTTP
    /// client where there is none.
    pub timeout_seconds: Option<u32>,
}

/// The texts of a [`PeerConfig`].
pub struct PeerConfigView {
    pub base_url: Seq<char>,
    pub api_key: Seq<char>,
    pub timeout_seconds: Option<u32>,
}

impl View for PeerConfig {
    type V = PeerConfigView;

    open spec fn view(&self) -> PeerConfigView {
        PeerConfigView {
            base_url: self.base_url@,
            api_key: self.api_key@,
            timeout_seconds: self.timeout_seconds,
        }
    }
}

impl PeerConfigView {
    /// The peer at `url`: the slashes at the end of the address are cut off.
    pub open spec fn at(url: Seq<char>, api_key: Seq<char>, timeout_seconds: Option<u32>) -> PeerConfigView {
        PeerConfigView { base_url: spec_strip_trailing(url, '/'), api_key, timeout_seconds }
    }
}

impl PeerConfig {
    /// The peer at `url`.
    pub fn at(url: &str, api_key: &str, timeout_seconds: Option<u32>) -> (r: PeerConfig)
        ensures
            r@ == PeerConfigView::at(url@, api_key@, timeout_seconds),
            r@.base_url.len() > 0 ==> r@.base_url.last() != '/',
            r@.base_url == url@.take(r@.base_url.len() as int),
    {
        proof {
            lemma_strip_trailing(url@, '/');
        }
        PeerConfig {
            base_url: strip_trailing(url, '/'),
            api_key: String::from_str(api_key),
            timeout_seconds,
        }
    }
}

impl Clone for PeerConfig {
    fn clone(&self) -> (r: Self)
        ensures
            r@ == self@,
    {
        PeerConfig {
            base_url: self.base_url.clone(),
            api_key: self.api_key.clone(),
            timeout_seconds: self.timeout_seconds,
        }
    }
}

/// A remote manager under its name.
#[derive(Debug)]
pub struct NamedPeer {
    pub name: String,
    pub peer: PeerConfig,
}

/// The texts of a [`NamedPeer`].
pub struct NamedPeerView {
    pub name: Seq<char>,
    pub peer: PeerConfigView,
}

impl View for NamedPeer {
    type V = NamedPeerView;

    open spec fn view(&self) -> NamedPeerView {
        NamedPeerView { name: self.name@, peer: self.peer@ }
    }
}

/// The views of a list of named peers.
pub open spec fn named_peer_views(list: Seq<NamedPeer>) -> Seq<NamedPeerView> {
    list.map_values(|p: NamedPeer| p@)
}

/// The peer that goes by `name`: the one configured last under that name.
pub open spec fn spec_find_peer(list: Seq<NamedPeerView>, name: Seq<char>) -> Option<PeerConfigView>
    decreases list.len(),
{
    if list.len() == 0 {
        None
    } else if list.last().name == name {
        Some(list.last().peer)
    } else {
        spec_find_peer(list.drop_last(), name)
    }
}

/// The peers of this node.
#[derive(Debug)]
pub struct ApiClient {
    encryption_key_provider: Option<PeerConfig>,
    software_update_provider: Option<PeerConfig>,
    system_info_remote_managers: Vec<NamedPeer>,
}

/// What an [`ApiClient`] holds.
pub struct ApiClientView {
    /// The peer that hands out this node's key.
    pub encryption_key_provider: Option<PeerConfigView>,
    /// The peer that serves builds.
    pub software_update_provider: Option<PeerConfigView>,
    /// The peers whose diagnostics this node collects, in the order of the
    /// configuration.
    pub system_info_remote_managers: Seq<NamedPeerView>,
}

impl View for ApiClient {
    type V = ApiClientView;

    closed spec fn view(&self) -> ApiClientView {
        ApiClientView {
            encryption_key_provider: match self.encryption_key_provider {
                Some(p) => Some(p@),
                None => None,
            },
            software_update_provider: match self.software_update_provider {
                Some(p) => Some(p@),
                None => None,
            },
            system_info_remote_managers: named_peer_views(self.system_info_remote_managers@),
        }
    }
}

/// The remote managers that the configuration lists.
pub open spec fn configured_managers(config: Config) -> Seq<ManagerInstance> {
    match config.file().system_info {
        Some(info) => match info.remote_managers {
            Some(list) => list@,
            None => Seq::empty(),
        },
        None => Seq::empty(),
    }
}

impl ApiClientView {
    /// The peers that `config` names. All are called with this node's own API
    /// key; only the key provider has a timeout of its own.
    pub open spec fn of(config: Config) -> ApiClientView {
        let api_key = config.file().api_key@;
        ApiClientView {
            encryption_key_provider: match config.file().secure_storage {
                Some(storage) => Some(
                    PeerConfigView::at(
                        storage.manager_base_url@,
                        api_key,
                        storage.key_download_timeout_seconds,
                    ),
                ),
                None => None,
            },
            software_update_provider: match config.file().software_update_provider {
                Some(provider) => Some(PeerConfigView::at(provider.manager_base_url@, api_key, None)),
                None => None,
            },
            system_info_remote_managers: Self::first_managers(
                config,
                configured_managers(config).len(),
            ),
        }
    }

    /// The remote manager that the configuration lists at `i`.
    pub open spec fn manager_at(config: Config, i: int) -> NamedPeerView {
        NamedPeerView {
            name: configured_managers(config)[i].name@,
            peer: PeerConfigView::at(
                configured_managers(config)[i].manager_base_url@,
                config.file().api_key@,
                None,
            ),
        }
    }

    /// The first `n` remote managers of the configuration.
    pub open spec fn first_managers(config: Config, n: nat) -> Seq<NamedPeerView> {
        Seq::new(n, |i: int| Self::manager_at(config, i))
    }
}

impl ApiClient {
    /// The peers that `config` names.
    pub fn new(config: &Config) -> (r: ApiClient)
        ensures
            r@ == ApiClientView::of(*config),
    {
        let api_key = config.api_key();
        let encryption_key_provider = match config.secure_storage_config() {
            Some(storage) => Some(
                PeerConfig::at(
                    storage.manager_base_url.as_str(),
                    api_key,
                    storage.key_download_timeout_seconds,
                ),
            ),
            None => None,
        };
        let software_update_provider = match config.software_update_provider() {
            Some(provider) => Some(PeerConfig::at(provider.manager_base_url.as_str(), api_key, None)),
            None => None,
        };
        let mut managers: Vec<NamedPeer> = Vec::new();
        match config.system_info() {
            Some(info) => match &info.remote_managers {
                Some(list) => {
                    let mut i: usize = 0;
                    while i < list.len()
                        invariant
                            i <= list.len(),
                            list@ == configured_managers(*config),
                            api_key@ == config.file().api_key@,
                            named_peer_views(managers@) == ApiClientView::first_managers(
                                *config,
                                i as nat,
                            ),
                        decreases list.len() - i,
                    {
                        let service = &list[i];
                        let ghost before = managers@;
                        let entry = NamedPeer {
                            name: service.name.clone(),
                            peer: PeerConfig::at(service.manager_base_url.as_str(), api_key, None),
                        };
                        assert(entry@ == ApiClientView::manager_at(*config, i as int));
                        managers.push(entry);
                        assert(named_peer_views(managers@) =~= named_peer_views(before).push(
                            ApiClientView::manager_at(*config, i as int),
                        ));
                        i = i + 1;
                        assert(named_peer_views(managers@) =~= ApiClientView::first_managers(
                            *config,
                            i as nat,
                        ));
                    }
                },
                None => {
                    assert(named_peer_views(managers@) =~= Seq::<NamedPeerView>::empty());
                },
            },
            None => {
                assert(named_peer_views(managers@) =~= Seq::<NamedPeerView>::empty());
            },
        }
        assert(named_peer_views(managers@) =~= ApiClientView::of(
            *config,
        ).system_info_remote_managers);
        ApiClient {
            encryption_key_provider,
            software_update_provider,
            system_info_remote_managers: managers,
        }
    }

    pub fn encryption_key_provider_config(&self) -> (r: Result<&PeerConfig, ApiError>)
        ensures
            r is Ok == self@.encryption_key_provider is Some,
            r is Ok ==> r->Ok_0@ == self@.encryption_key_provider->0,
            r is Err ==> r->Err_0 == ApiError::ManagerApiUrlNotConfigured(
                Peer::EncryptionKeyProvider,
            ),
    {
        match &self.encryption_key_provider {
            Some(peer) => Ok(peer),
            None => Err(ApiError::ManagerApiUrlNotConfigured(Peer::EncryptionKeyProvider)),
        }
    }

    pub fn software_update_provider_config(&self) -> (r: Result<&PeerConfig, ApiError>)
        ensures
            r is Ok == self@.software_update_provider is Some,
            r is Ok ==> r->Ok_0@ == self@.software_update_provider->0,
            r is Err ==> r->Err_0 == ApiError::ManagerApiUrlNotConfigured(
                Peer::SoftwareUpdateProvider,
            ),
    {
        match &self.software_update_provider {
            Some(peer) => Ok(peer),
            None => Err(ApiError::ManagerApiUrlNotConfigured(Peer::SoftwareUpdateProvider)),
        }
    }

    pub fn system_info_remote_manager_config(&self, manager_name: &str) -> (r: Result<
        &PeerConfig,
        ApiError,
    >)
        ensures
            r is Ok == spec_find_peer(self@.system_info_remote_managers, manager_name@) is Some,
            r is Ok ==> r->Ok_0@ == spec_find_peer(
                self@.system_info_remote_managers,
                manager_name@,
            )->0,
            r is Err ==> r->Err_0 == ApiError::ManagerApiUrlNotConfigured(
                Peer::SystemInfoRemoteManager,
            ),
    {
        let ghost all = named_peer_views(self.system_info_remote_managers@);
        let mut i: usize = self.system_info_remote_managers.len();
        assert(all.take(i as int) == all);
        while i > 0
            invariant
                i <= self.system_info_remote_managers.len(),
                all == named_peer_views(self.system_info_remote_managers@),
                spec_find_peer(all, manager_name@) == spec_find_peer(
                    all.take(i as int),
                    manager_name@,
                ),
            decreases i,
        {
            let entry = &self.system_info_remote_managers[i - 1];
            proof {
                let prefix = all.take(i as int);
                assert(prefix.last() == entry@);
                assert(prefix.drop_last() == all.take(i - 1));
            }
            if str_eq(entry.name.as_str(), manager_name) {
                return Ok(&entry.peer);
            }
            i = i - 1;
        }
        Err(ApiError::ManagerApiUrlNotConfigured(Peer::SystemInfoRemoteManager))
    }
}

/// The verb of a request.
#[derive(Clone, Copy, Debug, PartialEq, Eq, Structural)]
pub enum HttpMethod {
    Get,
    Post,
}

/// One parameter of a query.
#[derive(Debug)]
pub struct QueryParam {
    pub name: String,
    pub value: String,
}

/// The texts of a [`QueryParam`].
pub struct QueryParamView {
    pub name: Seq<char>,
    pub value: Seq<char>,
}

impl View for QueryParam {
    type V = QueryParamView;

    open spec fn view(&self) -> QueryParamView {
        QueryParamView { name: self.name@, value: self.value@ }
    }
}

/// The views of a list of query parameters.
pub open spec fn query_views(list: Seq<QueryParam>) -> Seq<QueryParamView> {
    list.map_values(|p: QueryParam| p@)
}

/// A request to a peer.
#[derive(Debug)]
pub struct PeerRequest {
    pub method: HttpMethod,
    /// The address without the query.
    pub url: String,
    /// The parameters of the query, in order.
    pub query: Vec<QueryParam>,
    /// The name of the header that carries the API key.
    pub api_key_header: String,
    /// The API key.
    pub api_key: String,
    /// How long the request may take, in seconds.
    pub timeout_seconds: Option<u32>,
}

/// The texts of a [`PeerRequest`].
pub struct PeerRequestView {
    pub method: HttpMethod,
    pub url: Seq<char>,
    pub query: Seq<QueryParamView>,
    pub api_key_header: Seq<char>,
    pub api_key: Seq<char>,
    pub timeout_seconds: Option<u32>,
}

impl View for PeerRequest {
    type V = PeerRequestView;

    open spec fn view(&self) -> PeerRequestView {
        PeerRequestView {
            method: self.method,
            url: self.url@,
            query: query_views(self.query@),
            api_key_header: self.api_key_header@,
            api_key: self.api_key@,
            timeout_seconds: self.timeout_seconds,
        }
    }
}

impl PeerRequestView {
    /// The request for `path` at `peer`, with the peer's key in the API key
    /// header.
    pub open spec fn to(peer: PeerConfigView, method: HttpMethod, path: Seq<char>, query: Seq<QueryParamView>) -> PeerRequestView {
        PeerRequestView {
            method,
            url: peer.base_url + path,
            query,
            api_key_header: API_KEY_HEADER_STR@,
            api_key: peer.api_key,
            timeout_seconds: peer.timeout_seconds,
        }
    }
}

/// What `url::form_urlencoded::byte_serialize` makes of a text: the text as
/// it can stand in a query or a path.
pub uninterp spec fn form_urlencoded(text: Seq<char>) -> Seq<char>;

/// `url::form_urlencoded::byte_serialize`: the result is named by
/// [`form_urlencoded`].
#[verifier::external_body]
fn urlencode(text: &str) -> (r: String)
    ensures
        r@ == form_urlencoded(text@),
{
    url::form_urlencoded::byte_serialize(text.as_bytes()).collect()
}

/// The word that stands for a truth value in a query.
pub open spec fn bool_word(value: bool) -> Seq<char> {
    if value {
        "true"@
    } else {
        "false"@
    }
}

/// The word that stands for a software in a query.
pub open spec fn software_word(software: SoftwareOptions) -> Seq<char> {
    match software {
        SoftwareOptions::Manager => "Manager"@,
        SoftwareOptions::Backend => "Backend"@,
    }
}

fn bool_text(value: bool) -> (r: &'static str)
    ensures
        r@ == bool_word(value),
{
    if value {
        "true"
    } else {
        "false"
    }
}

fn software_text(software: SoftwareOptions) -> (r: &'static str)
    ensures
        r@ == software_word(software),
{
    match software {
        SoftwareOptions::Manager => "Manager",
        SoftwareOptions::Backend => "Backend",
    }
}

fn push_query(query: &mut Vec<QueryParam>, name: &str, value: &str)
    ensures
        query_views(final(query)@) == query_views(old(query)@).push(
            QueryParamView { name: name@, value: value@ },
        ),
{
    query.push(QueryParam { name: String::from_str(name), value: String::from_str(value) });
    assert(query_views(query@) =~= query_views(old(query)@).push(
        QueryParamView { name: name@, value: value@ },
    ));
}

fn no_query() -> (r: Vec<QueryParam>)
    ensures
        query_views(r@) == Seq::<QueryParamView>::empty(),
{
    let query: Vec<QueryParam> = Vec::new();
    assert(query_views(query@) =~= Seq::<QueryParamView>::empty());
    query
}

fn request_to(peer: &PeerConfig, method: HttpMethod, path: &str, query: Vec<QueryParam>) -> (r:
    PeerRequest)
    ensures
        r@ == PeerRequestView::to(peer@, method, path@, query_views(query@)),
{
    PeerRequest {
        method,
        url: concat(peer.base_url.as_str(), path),
        query,
        api_key_header: String::from_str(API_KEY_HEADER_STR),
        api_key: peer.api_key.clone(),
        timeout_seconds: peer.timeout_seconds,
    }
}

/// The requests of the manager API, as a peer is sent them.
pub struct ManagerApi;

impl ManagerApi {
    /// The request for the key that goes by `server`.
    pub fn get_encryption_key(configuration: &PeerConfig, server: &str) -> (r: PeerRequest)
        ensures
            r@ == PeerRequestView::to(
                configuration@,
                HttpMethod::Get,
                "/manager_api/encryption_key/"@ + form_urlencoded(server@),
                Seq::empty(),
            ),
    {
        let name = urlencode(server);
        Self::encryption_key_request(configuration, name.as_str())
    }

    /// The request for the key whose name, made fit for an address, is
    /// `encoded_server`.
    pub fn encryption_key_request(configuration: &PeerConfig, encoded_server: &str) -> (r:
        PeerRequest)
        ensures
            r@ == PeerRequestView::to(
                configuration@,
                HttpMethod::Get,
                "/manager_api/encryption_key/"@ + encoded_server@,
                Seq::empty(),
            ),
    {
        let path = concat("/manager_api/encryption_key/", encoded_server);
        request_to(configuration, HttpMethod::Get, path.as_str(), no_query())
    }

    /// The request for an artifact of the latest build.
    pub fn get_latest_software(configuration: &PeerConfig, options: SoftwareOptions, download: DownloadType) -> (r:
        PeerRequest)
        ensures
            r@ == PeerRequestView::to(
                configuration@,
                HttpMethod::Get,
                "/manager_api/latest_software"@,
                seq![
                    QueryParamView { name: "software_options"@, value: software_word(options) },
                    QueryParamView { name: "download_type"@, value: download.word() },
                ],
            ),
    {
        let mut query = no_query();
        push_query(&mut query, "software_options", software_text(options));
        let word = download.to_string();
        push_query(&mut query, "download_type", word.as_str());
        assert(query_views(query@) =~= seq![
            QueryParamView { name: "software_options"@, value: software_word(options) },
            QueryParamView { name: "download_type"@, value: download.word() },
        ]);
        request_to(configuration, HttpMethod::Get, "/manager_api/latest_software", query)
    }

    /// The request for the record of the latest build.
    pub fn get_latest_build_info_raw(configuration: &PeerConfig, options: SoftwareOptions) -> (r:
        PeerRequest)
        ensures
            r@ == PeerRequestView::to(
                configuration@,
                HttpMethod::Get,
                "/manager_api/latest_software"@,
                seq![
                    QueryParamView { name: "software_options"@, value: software_word(options) },
                    QueryParamView { name: "download_type"@, value: DownloadType::Info.word() },
                ],
            ),
    {
        Self::get_latest_software(configuration, options, DownloadType::Info)
    }

    /// The request for the encrypted binary of the latest build.
    pub fn get_latest_encrypted_software_binary(configuration: &PeerConfig, options: SoftwareOptions) -> (r:
        PeerRequest)
        ensures
            r@ == PeerRequestView::to(
                configuration@,
                HttpMethod::Get,
                "/manager_api/latest_software"@,
                seq![
                    QueryParamView { name: "software_options"@, value: software_word(options) },
                    QueryParamView {
                        name: "download_type"@,
                        value: DownloadType::EncryptedBinary.word(),
                    },
                ],
            ),
    {
        Self::get_latest_software(configuration, options, DownloadType::EncryptedBinary)
    }

    /// The request that asks the build node for a build.
    pub fn request_build_software_from_build_server(configuration: &PeerConfig, options: SoftwareOptions) -> (r:
        PeerRequest)
        ensures
            r@ == PeerRequestView::to(
                configuration@,
                HttpMethod::Post,
                "/manager_api/request_build_software"@,
                seq![QueryParamView { name: "software_options"@, value: software_word(options) }],
            ),
    {
        let mut query = no_query();
        push_query(&mut query, "software_options", software_text(options));
        assert(query_views(query@) =~= seq![
            QueryParamView { name: "software_options"@, value: software_word(options) },
        ]);
        request_to(configuration, HttpMethod::Post, "/manager_api/request_build_software", query)
    }

    /// The request that asks a node to update one of its binaries.
    pub fn request_update_software(
        configuration: &PeerConfig,
        options: SoftwareOptions,
        reboot: bool,
        reset_data: ResetDataQueryParam,
    ) -> (r: PeerRequest)
        ensures
            r@ == PeerRequestView::to(
                configuration@,
                HttpMethod::Post,
                "/manager_api/request_software_update"@,
                seq![
                    QueryParamView { name: "software_options"@, value: software_word(options) },
                    QueryParamView { name: "reboot"@, value: bool_word(reboot) },
                    QueryParamView { name: "reset_data"@, value: bool_word(reset_data.reset_data) },
                ],
            ),
    {
        let mut query = no_query();
        push_query(&mut query, "software_options", software_text(options));
        push_query(&mut query, "reboot", bool_text(reboot));
        push_query(&mut query, "reset_data", bool_text(reset_data.reset_data));
        assert(query_views(query@) =~= seq![
            QueryParamView { name: "software_options"@, value: software_word(options) },
            QueryParamView { name: "reboot"@, value: bool_word(reboot) },
            QueryParamView { name: "reset_data"@, value: bool_word(reset_data.reset_data) },
        ]);
        request_to(configuration, HttpMethod::Post, "/manager_api/request_software_update", query)
    }

    /// The request that asks a node to restart its backend.
    pub fn restart_backend(configuration: &PeerConfig, reset_data: ResetDataQueryParam) -> (r:
        PeerRequest)
        ensures
            r@ == PeerRequestView::to(
                configuration@,
                HttpMethod::Post,
                "/manager_api/request_restart_or_reset_backend"@,
                seq![
                    QueryParamView { name: "reset_data"@, value: bool_word(reset_data.reset_data) },
                ],
            ),
    {
        let mut query = no_query();
        push_query(&mut query, "reset_data", bool_text(reset_data.reset_data));
        assert(query_views(query@) =~= seq![
            QueryParamView { name: "reset_data"@, value: bool_word(reset_data.reset_data) },
        ]);
        request_to(
            configuration,
            HttpMethod::Post,
            "/manager_api/request_restart_or_reset_backend",
            query,
        )
    }

    /// The request for the diagnostics of a node.
    pub fn system_info(configuration: &PeerConfig) -> (r: PeerRequest)
        ensures
            r@ == PeerRequestView::to(
                configuration@,
                HttpMethod::Get,
                "/manager_api/system_info"@,
                Seq::empty(),
            ),
    {
        request_to(configuration, HttpMethod::Get, "/manager_api/system_info", no_query())
    }

    /// The request for the diagnostics of a node and of the nodes it asks.
    pub fn system_info_all(configuration: &PeerConfig) -> (r: PeerRequest)
        ensures
            r@ == PeerRequestView::to(
                configuration@,
                HttpMethod::Get,
                "/manager_api/system_info_all"@,
                Seq::empty(),
            ),
    {
        request_to(configuration, HttpMethod::Get, "/manager_api/system_info_all", no_query())
    }

    /// The request for the records of the software that a node has installed.
    pub fn software_info(configuration: &PeerConfig) -> (r: PeerRequest)
        ensures
            r@ == PeerRequestView::to(
                configuration@,
                HttpMethod::Get,
                "/manager_api/software_info"@,
                Seq::empty(),
            ),
    {
        request_to(configuration, HttpMethod::Get, "/manager_api/software_info", no_query())
    }
}

/// The calls that this node makes to its peers.
pub struct ApiManager<'a> {
    config: &'a Config,
    api_client: &'a ApiClient,
}

impl<'a> ApiManager<'a> {
    pub fn new(config: &'a Config, api_client: &'a ApiClient) -> (r: Self)
        ensures
            *r.config() == *config,
            *r.client() == *api_client,
    {
        Self { config, api_client }
    }

    /// The configuration that the calls go by.
    pub closed spec fn config(&self) -> &Config {
        self.config
    }

    /// The peers that the calls go to.
    pub closed spec fn client(&self) -> &ApiClient {
        self.api_client
    }

    /// The request for this node's key: to the key provider, for the key of
    /// the configured name. It cannot be made without a section for the
    /// secure storage.
    pub fn get_encryption_key(&self) -> (r: Result<PeerRequest, ApiError>)
        ensures
            r is Ok == (self.config().file().secure_storage is Some
                && self.client()@.encryption_key_provider is Some),
            r is Ok ==> r->Ok_0@ == PeerRequestView::to(
                self.client()@.encryption_key_provider->0,
                HttpMethod::Get,
                "/manager_api/encryption_key/"@ + form_urlencoded(
                    self.config().file().secure_storage->0.encryption_key_name@,
                ),
                Seq::empty(),
            ),
            r is Err ==> r->Err_0 == (if self.config().file().secure_storage is None {
                ApiError::MissingConfiguration
            } else {
                ApiError::ManagerApiUrlNotConfigured(Peer::EncryptionKeyProvider)
            }),
    {
        match self.config.secure_storage_config() {
            None => Err(ApiError::MissingConfiguration),
            Some(provider) => match self.api_client.encryption_key_provider_config() {
                Ok(peer) => Ok(
                    ManagerApi::get_encryption_key(peer, provider.encryption_key_name.as_str()),
                ),
                Err(e) => Err(e),
            },
        }
    }

    /// The request for an artifact of the latest build, to the update provider.
    pub fn get_latest_software(&self, options: SoftwareOptions, download: DownloadType) -> (r:
        Result<PeerRequest, ApiError>)
        ensures
            r is Ok == self.client()@.software_update_provider is Some,
            r is Ok ==> r->Ok_0@ == PeerRequestView::to(
                self.client()@.software_update_provider->0,
                HttpMethod::Get,
                "/manager_api/latest_software"@,
                seq![
                    QueryParamView { name: "software_options"@, value: software_word(options) },
                    QueryParamView { name: "download_type"@, value: download.word() },
                ],
            ),
            r is Err ==> r->Err_0 == ApiError::ManagerApiUrlNotConfigured(
                Peer::SoftwareUpdateProvider,
            ),
    {
        match self.api_client.software_update_provider_config() {
            Ok(peer) => Ok(ManagerApi::get_latest_software(peer, options, download)),
            Err(e) => Err(e),
        }
    }

    /// The request that asks the build node for a build.
    pub fn request_build_software_from_build_server(&self, options: SoftwareOptions) -> (r: Result<
        PeerRequest,
        ApiError,
    >)
        ensures
            r is Ok == self.client()@.software_update_provider is Some,
            r is Ok ==> r->Ok_0@ == PeerRequestView::to(
                self.client()@.software_update_provider->0,
                HttpMethod::Post,
                "/manager_api/request_build_software"@,
                seq![QueryParamView { name: "software_options"@, value: software_word(options) }],
            ),
            r is Err ==> r->Err_0 == ApiError::ManagerApiUrlNotConfigured(
                Peer::SoftwareUpdateProvider,
            ),
    {
        match self.api_client.software_update_provider_config() {
            Ok(peer) => Ok(ManagerApi::request_build_software_from_build_server(peer, options)),
            Err(e) => Err(e),
        }
    }

    /// The request for the diagnostics of the remote manager `remote_manager_name`.
    pub fn system_info(&self, remote_manager_name: &str) -> (r: Result<PeerRequest, ApiError>)
        ensures
            r is Ok == spec_find_peer(
                self.client()@.system_info_remote_managers,
                remote_manager_name@,
            ) is Some,
            r is Ok ==> r->Ok_0@ == PeerRequestView::to(
                spec_find_peer(self.client()@.system_info_remote_managers, remote_manager_name@)->0,
                HttpMethod::Get,
                "/manager_api/system_info"@,
                Seq::empty(),
            ),
            r is Err ==> r->Err_0 == ApiError::ManagerApiUrlNotConfigured(
                Peer::SystemInfoRemoteManager,
            ),
    {
        match self.api_client.system_info_remote_manager_config(remote_manager_name) {
            Ok(peer) => Ok(ManagerApi::system_info(peer)),
            Err(e) => Err(e),
        }
    }
}

} // verus!
