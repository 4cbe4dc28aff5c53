use app_manager::client::{
    ApiClient, ApiError, ApiManager, HttpMethod, ManagerApi, Peer, PeerConfig, PeerRequest,
};
use app_manager::config::{
    get_config, Config, ConfigFile, ManagerInstance, ScriptsFound, SecureStorageConfig,
    SocketConfig, SoftwareUpdateProviderConfig, SystemInfoConfig, TlsConfig,
};
use app_manager::info::{
    command_output, join_words, remote_system_info, system_info_all, InfoAction, RemoteAnswer,
    SystemInfoError, SystemInfoGetter,
};
use app_manager::model::{
    CommandOutput, DownloadType, ResetDataQueryParam, SoftwareOptions, SystemInfo,
};
use app_manager::operation::Command;
use app_manager::server::{
    unwrap_infallible_result, AppServer, ConnectionDrain, ServerEvent, ServerStep,
    MOUNT_RETRY_SECONDS,
};
use app_manager::step::Outcome;

fn config(secure_storage: bool, updater: bool, managers: Vec<(&str, &str)>) -> Config {
    let file = ConfigFile {
        debug: None,
        api_key: "api-key".to_string(),
        storage_dir: "/storage".to_string(),
        scripts_dir: "/scripts".to_string(),
        socket: SocketConfig {
            public_api: "127.0.0.1:5000".to_string(),
            second_public_api_localhost_only_port: Some(5001),
        },
        server_encryption_keys: None,
        secure_storage: if secure_storage {
            Some(SecureStorageConfig {
                manager_base_url: "https://keys:5000/".to_string(),
                encryption_key_name: "node one".to_string(),
                availability_check_path: "/secure/app".to_string(),
                encryption_key_text: None,
                key_download_timeout_seconds: Some(15),
            })
        } else {
            None
        },
        reboot_if_needed: None,
        software_update_provider: if updater {
            Some(SoftwareUpdateProviderConfig {
                manager_base_url: "https://builder:5000//".to_string(),
                binary_signing_public_key: "/keys/signing.gpg".to_string(),
                manager_install_location: "/bin/app-manager".to_string(),
                backend_install_location: "/bin/app-backend".to_string(),
                backend_data_reset_dir: None,
            })
        } else {
            None
        },
        software_builder: None,
        system_info: Some(SystemInfoConfig {
            log_services: vec!["app-manager".to_string(), "app-backend".to_string()],
            remote_managers: if managers.is_empty() {
                None
            } else {
                Some(
                    managers
                        .iter()
                        .map(|(name, url)| ManagerInstance {
                            name: name.to_string(),
                            manager_base_url: url.to_string(),
                        })
                        .collect(),
                )
            },
        }),
        tls: Some(TlsConfig {
            public_api_cert: "cert.pem".to_string(),
            public_api_key: "key.pem".to_string(),
            root_certificate: "root.pem".to_string(),
        }),
    };
    let found = ScriptsFound {
        open_encryption: true,
        close_encryption: true,
        is_default_encryption_password: true,
        change_encryption_password: true,
        start_backend: true,
        stop_backend: true,
        print_logs: true,
    };
    get_config(file, &found).unwrap()
}

fn query(request: &PeerRequest) -> Vec<(String, String)> {
    request.query.iter().map(|p| (p.name.clone(), p.value.clone())).collect()
}

fn pairs(list: &[(&str, &str)]) -> Vec<(String, String)> {
    list.iter().map(|(n, v)| (n.to_string(), v.to_string())).collect()
}

#[test]
fn peers_are_taken_from_the_configuration() {
    let config = config(true, true, vec![("a", "https://a:5000/"), ("b", "https://b:5000")]);
    let client = ApiClient::new(&config);
    let keys = client.encryption_key_provider_config().unwrap();
    assert_eq!(keys.base_url, "https://keys:5000");
    assert_eq!(keys.api_key, "api-key");
    assert_eq!(keys.timeout_seconds, Some(15));
    let builder = client.software_update_provider_config().unwrap();
    assert_eq!(builder.base_url, "https://builder:5000");
    assert_eq!(builder.api_key, "api-key");
    assert_eq!(builder.timeout_seconds, None);
    assert_eq!(client.system_info_remote_manager_config("a").unwrap().base_url, "https://a:5000");
    assert_eq!(client.system_info_remote_manager_config("b").unwrap().base_url, "https://b:5000");
}

#[test]
fn peers_that_are_not_configured_are_errors() {
    let config = config(false, false, Vec::new());
    let client = ApiClient::new(&config);
    assert_eq!(
        client.encryption_key_provider_config().err(),
        Some(ApiError::ManagerApiUrlNotConfigured(Peer::EncryptionKeyProvider))
    );
    assert_eq!(
        client.software_update_provider_config().err(),
        Some(ApiError::ManagerApiUrlNotConfigured(Peer::SoftwareUpdateProvider))
    );
    assert_eq!(
        client.system_info_remote_manager_config("a").err(),
        Some(ApiError::ManagerApiUrlNotConfigured(Peer::SystemInfoRemoteManager))
    );
    assert_eq!(Peer::EncryptionKeyProvider.config_name(), "encryption_key_provider_config");
    assert_eq!(ApiError::MissingConfiguration.message(), "Missing configuration");
}

#[test]
fn the_manager_configured_last_under_a_name_is_the_one_that_is_called() {
    let config = config(
        false,
        false,
        vec![("a", "https://first"), ("b", "https://b"), ("a", "https://second")],
    );
    let client = ApiClient::new(&config);
    assert_eq!(client.system_info_remote_manager_config("a").unwrap().base_url, "https://second");
    assert_eq!(client.system_info_remote_manager_config("b").unwrap().base_url, "https://b");
    assert!(client.system_info_remote_manager_config("c").is_err());
}

#[test]
fn encryption_key_request() {
    let peer = PeerConfig::at("https://keys:5000/", "k", Some(3));
    let request = ManagerApi::get_encryption_key(&peer, "node one/ä");
    assert_eq!(request.method, HttpMethod::Get);
    assert_eq!(request.url, "https://keys:5000/manager_api/encryption_key/node+one%2F%C3%A4");
    assert!(request.query.is_empty());
    assert_eq!(request.api_key_header, "x-api-key");
    assert_eq!(request.api_key, "k");
    assert_eq!(request.timeout_seconds, Some(3));
}

#[test]
fn latest_software_requests() {
    let peer = PeerConfig::at("https://builder", "k", None);
    let request = ManagerApi::get_latest_build_info_raw(&peer, SoftwareOptions::Backend);
    assert_eq!(request.method, HttpMethod::Get);
    assert_eq!(request.url, "https://builder/manager_api/latest_software");
    assert_eq!(
        query(&request),
        pairs(&[("software_options", "Backend"), ("download_type", "Info")])
    );
    let request = ManagerApi::get_latest_encrypted_software_binary(&peer, SoftwareOptions::Manager);
    assert_eq!(
        query(&request),
        pairs(&[("software_options", "Manager"), ("download_type", "EncryptedBinary")])
    );
    let request = ManagerApi::get_latest_software(
        &peer,
        SoftwareOptions::Manager,
        DownloadType::Info,
    );
    assert_eq!(
        query(&request),
        pairs(&[("software_options", "Manager"), ("download_type", "Info")])
    );
    assert_eq!(request.timeout_seconds, None);
}

#[test]
fn posting_requests() {
    let peer = PeerConfig::at("https://node", "k", None);
    let request = ManagerApi::request_build_software_from_build_server(&peer, SoftwareOptions::Backend);
    assert_eq!(request.method, HttpMethod::Post);
    assert_eq!(request.url, "https://node/manager_api/request_build_software");
    assert_eq!(query(&request), pairs(&[("software_options", "Backend")]));
    let request = ManagerApi::request_update_software(
        &peer,
        SoftwareOptions::Manager,
        true,
        ResetDataQueryParam { reset_data: false },
    );
    assert_eq!(request.method, HttpMethod::Post);
    assert_eq!(request.url, "https://node/manager_api/request_software_update");
    assert_eq!(
        query(&request),
        pairs(&[("software_options", "Manager"), ("reboot", "true"), ("reset_data", "false")])
    );
    let request = ManagerApi::restart_backend(&peer, ResetDataQueryParam { reset_data: true });
    assert_eq!(request.url, "https://node/manager_api/request_restart_or_reset_backend");
    assert_eq!(query(&request), pairs(&[("reset_data", "true")]));
}

#[test]
fn information_requests() {
    let peer = PeerConfig::at("https://node/", "k", None);
    for (request, path) in [
        (ManagerApi::system_info(&peer), "/manager_api/system_info"),
        (ManagerApi::system_info_all(&peer), "/manager_api/system_info_all"),
        (ManagerApi::software_info(&peer), "/manager_api/software_info"),
    ] {
        assert_eq!(request.method, HttpMethod::Get);
        assert_eq!(request.url, format!("https://node{}", path));
        assert!(request.query.is_empty());
        assert_eq!(request.api_key, "k");
    }
}

#[test]
fn calls_go_to_the_configured_peers() {
    let config = config(true, true, vec![("a", "https://a:5000/")]);
    let client = ApiClient::new(&config);
    let api = ApiManager::new(&config, &client);
    let request = api.get_encryption_key().unwrap();
    assert_eq!(request.url, "https://keys:5000/manager_api/encryption_key/node+one");
    assert_eq!(request.timeout_seconds, Some(15));
    let request = api
        .get_latest_software(SoftwareOptions::Backend, DownloadType::EncryptedBinary)
        .unwrap();
    assert_eq!(request.url, "https://builder:5000/manager_api/latest_software");
    let request = api.request_build_software_from_build_server(SoftwareOptions::Backend).unwrap();
    assert_eq!(request.method, HttpMethod::Post);
    assert_eq!(api.system_info("a").unwrap().url, "https://a:5000/manager_api/system_info");
    assert_eq!(
        api.system_info("b").err(),
        Some(ApiError::ManagerApiUrlNotConfigured(Peer::SystemInfoRemoteManager))
    );
}

#[test]
fn calls_without_configuration_are_errors() {
    let config = config(false, false, Vec::new());
    let client = ApiClient::new(&config);
    let api = ApiManager::new(&config, &client);
    assert_eq!(api.get_encryption_key().err(), Some(ApiError::MissingConfiguration));
    assert_eq!(
        api.get_latest_software(SoftwareOptions::Backend, DownloadType::Info).err(),
        Some(ApiError::ManagerApiUrlNotConfigured(Peer::SoftwareUpdateProvider))
    );
    assert_eq!(
        api.request_build_software_from_build_server(SoftwareOptions::Backend).err(),
        Some(ApiError::ManagerApiUrlNotConfigured(Peer::SoftwareUpdateProvider))
    );
}

#[test]
fn words_are_joined_with_spaces() {
    assert_eq!(join_words(&Vec::new()), "");
    assert_eq!(join_words(&vec!["-h".to_string()]), "-h");
    assert_eq!(
        join_words(&vec!["-bn".to_string(), "1".to_string(), "-u".to_string(), "app".to_string()]),
        "-bn 1 -u app"
    );
    assert_eq!(join_words(&vec!["".to_string(), "".to_string()]), " ");
}

#[test]
fn command_output_is_named_after_the_command_line() {
    let command = Command::plain("df", vec!["-h".to_string()]);
    let output = command_output(&command, "out".to_string());
    assert_eq!(output.name, "df -h");
    assert_eq!(output.output, "out");
    let command = Command::plain("uptime", Vec::new());
    assert_eq!(command_output(&command, String::new()).name, "uptime ");
}

fn collect(services: Vec<&str>, outputs: Vec<Outcome>) -> (SystemInfoGetter, Vec<Vec<String>>) {
    let mut getter = SystemInfoGetter::system_info(
        "/scripts/print-logs.sh",
        services.iter().map(|s| s.to_string()).collect(),
    );
    let mut commands = Vec::new();
    for outcome in outputs {
        let command = getter.command().unwrap();
        let mut words = vec![command.program.clone()];
        words.extend(command.args.iter().cloned());
        commands.push(words);
        assert!(getter.accepts(&outcome));
        getter.step(outcome);
    }
    (getter, commands)
}

fn text(value: &str) -> Outcome {
    Outcome::Text(value.to_string())
}

#[test]
fn system_info_is_collected_command_by_command() {
    let (getter, commands) = collect(
        vec!["app-manager", "app-backend"],
        vec![
            text("df"),
            text("inodes"),
            text("up"),
            text("mem"),
            text("logs"),
            text(" app\n"),
            text("top"),
            text("journal 1"),
            text("journal 2"),
            text("node-1\n"),
        ],
    );
    let expected: Vec<Vec<String>> = [
        vec!["df", "-h"],
        vec!["df", "-hi"],
        vec!["uptime"],
        vec!["free", "-h"],
        vec!["sudo", "/scripts/print-logs.sh"],
        vec!["whoami"],
        vec!["top", "-bn", "1", "-u", "app"],
        vec!["journalctl", "--no-pager", "-n", "10", "-u", "app-manager"],
        vec!["journalctl", "--no-pager", "-n", "10", "-u", "app-backend"],
        vec!["hostname"],
    ]
    .iter()
    .map(|c| c.iter().map(|w| w.to_string()).collect())
    .collect();
    assert_eq!(commands, expected);
    assert_eq!(getter.awaiting(), InfoAction::Finish(Ok(())));
    assert!(getter.command().is_none());
    let info = getter.into_system_info();
    assert_eq!(info.name, "node-1");
    let reports: Vec<(String, String)> =
        info.info.iter().map(|c| (c.name.clone(), c.output.clone())).collect();
    assert_eq!(
        reports,
        pairs(&[
            ("df -h", "df"),
            ("df -hi", "inodes"),
            ("uptime ", "up"),
            ("free -h", "mem"),
            ("top -bn 1 -u app", "top"),
            ("sudo /scripts/print-logs.sh", "logs"),
            ("journalctl --no-pager -n 10 -u app-manager", "journal 1"),
            ("journalctl --no-pager -n 10 -u app-backend", "journal 2"),
        ])
    );
}

#[test]
fn system_info_without_services() {
    let (getter, commands) = collect(
        Vec::new(),
        vec![text("a"), text("b"), text("c"), text("d"), text("e"), text("me"), text("f"), text("h")],
    );
    assert_eq!(commands.len(), 8);
    assert_eq!(commands[7], vec!["hostname".to_string()]);
    assert_eq!(getter.awaiting(), InfoAction::Finish(Ok(())));
    assert_eq!(getter.into_system_info().info.len(), 6);
}

#[test]
fn a_failing_command_ends_the_collection() {
    let (getter, _) = collect(Vec::new(), vec![text("a"), Outcome::Exited(Some(1))]);
    assert_eq!(
        getter.awaiting(),
        InfoAction::Finish(Err(SystemInfoError::CommandFailed(Some(1))))
    );
    assert!(!getter.accepts(&text("x")));
    let (getter, _) = collect(Vec::new(), vec![Outcome::SpawnFailed]);
    assert_eq!(
        getter.awaiting(),
        InfoAction::Finish(Err(SystemInfoError::ProcessWaitFailed))
    );
    let (getter, _) = collect(Vec::new(), vec![text("a"), text("b"), Outcome::Invalid]);
    assert_eq!(
        getter.awaiting(),
        InfoAction::Finish(Err(SystemInfoError::InvalidOutput))
    );
    assert_eq!(SystemInfoError::InvalidOutput.message(), "Invalid output");
}

fn node(name: &str) -> SystemInfo {
    SystemInfo {
        name: name.to_string(),
        info: vec![CommandOutput { name: "uptime ".to_string(), output: name.to_string() }],
    }
}

#[test]
fn remote_diagnostics_carry_both_names() {
    let info = remote_system_info("backup", node("node-2"));
    assert_eq!(info.name, "Remote manager backup, remote name: node-2");
    assert_eq!(info.info.len(), 1);
    assert_eq!(info.info[0].output, "node-2");
}

#[test]
fn all_diagnostics_are_this_nodes_and_those_of_the_managers_that_answered() {
    let list = system_info_all(
        node("node-1"),
        vec![
            RemoteAnswer { service: "a".to_string(), info: Some(node("node-2")) },
            RemoteAnswer { service: "b".to_string(), info: None },
            RemoteAnswer { service: "c".to_string(), info: Some(node("node-3")) },
        ],
    );
    let names: Vec<&str> = list.info.iter().map(|i| i.name.as_str()).collect();
    assert_eq!(
        names,
        vec![
            "node-1",
            "Remote manager a, remote name: node-2",
            "Remote manager c, remote name: node-3",
        ]
    );
    let alone = system_info_all(node("node-1"), Vec::new());
    assert_eq!(alone.info.len(), 1);
}

fn walk(server: &mut AppServer, events: Vec<ServerEvent>) -> Vec<ServerStep> {
    let mut steps = vec![server.step];
    for event in events {
        assert!(server.accepts(event), "{:?} {:?}", server.step, event);
        steps.push(server.run(event));
    }
    steps
}

#[test]
fn startup_and_shutdown_of_a_full_node() {
    let config = config(true, true, Vec::new());
    let mut server = AppServer::new(&config);
    let mut events = vec![ServerEvent::Done; 10];
    events.extend([
        ServerEvent::Exists(true),
        ServerEvent::Exists(true),
        ServerEvent::Done,
        ServerEvent::Quit,
    ]);
    events.extend(vec![ServerEvent::Done; 7]);
    assert_eq!(
        walk(&mut server, events),
        vec![
            ServerStep::InitLogging,
            ServerStep::CreateQuitChannel,
            ServerStep::InstallSignalHandlers,
            ServerStep::StartBuildManager,
            ServerStep::CreateApiClient,
            ServerStep::StartRebootManager,
            ServerStep::StartUpdateManager,
            ServerStep::CreateApp,
            ServerStep::BindListeners,
            ServerStep::MountStorage,
            ServerStep::CheckStorageDir,
            ServerStep::CheckBackendInstalled,
            ServerStep::StartBackend,
            ServerStep::WaitForQuit,
            ServerStep::DropQuitHandle,
            ServerStep::JoinListeners,
            ServerStep::JoinBuildManager,
            ServerStep::JoinRebootManager,
            ServerStep::JoinUpdateManager,
            ServerStep::StopBackend,
            ServerStep::Unmount,
            ServerStep::Exit,
        ]
    );
    assert!(!server.accepts(ServerEvent::Done));
}

#[test]
fn a_bare_node_skips_storage_and_backend() {
    let config = config(false, false, Vec::new());
    let mut server = AppServer::new(&config);
    let mut events = vec![ServerEvent::Done; 9];
    events.extend([ServerEvent::Exists(false), ServerEvent::Failed, ServerEvent::Quit]);
    events.extend(vec![ServerEvent::Done; 5]);
    let steps = walk(&mut server, events);
    assert_eq!(
        steps[9..].to_vec(),
        vec![
            ServerStep::CheckStorageDir,
            ServerStep::CreateStorageDir,
            ServerStep::WaitForQuit,
            ServerStep::DropQuitHandle,
            ServerStep::JoinListeners,
            ServerStep::JoinBuildManager,
            ServerStep::JoinRebootManager,
            ServerStep::JoinUpdateManager,
            ServerStep::Exit,
        ]
    );
}

#[test]
fn the_mount_is_retried_every_hour_until_it_works_or_the_node_quits() {
    assert_eq!(MOUNT_RETRY_SECONDS, 3600);
    let config = config(true, false, Vec::new());
    let mut server = AppServer::new(&config);
    walk(&mut server, vec![ServerEvent::Done; 9]);
    assert_eq!(server.step, ServerStep::MountStorage);
    assert_eq!(
        walk(
            &mut server,
            vec![
                ServerEvent::Failed,
                ServerEvent::Done,
                ServerEvent::Failed,
                ServerEvent::Done,
                ServerEvent::Done,
            ]
        ),
        vec![
            ServerStep::MountStorage,
            ServerStep::WaitBeforeMountRetry,
            ServerStep::MountStorage,
            ServerStep::WaitBeforeMountRetry,
            ServerStep::MountStorage,
            ServerStep::CheckStorageDir,
        ]
    );
    let mut server = AppServer::new(&config);
    walk(&mut server, vec![ServerEvent::Done; 9]);
    assert_eq!(
        walk(&mut server, vec![ServerEvent::Failed, ServerEvent::Quit]),
        vec![ServerStep::MountStorage, ServerStep::WaitBeforeMountRetry, ServerStep::Exit]
    );
}

#[test]
fn a_backend_that_is_not_installed_is_not_started_but_stopped_at_shutdown() {
    let config = config(false, true, Vec::new());
    let mut server = AppServer::new(&config);
    walk(&mut server, vec![ServerEvent::Done; 9]);
    let steps = walk(
        &mut server,
        vec![
            ServerEvent::Exists(true),
            ServerEvent::Exists(false),
            ServerEvent::Quit,
            ServerEvent::Done,
            ServerEvent::Done,
            ServerEvent::Done,
            ServerEvent::Done,
            ServerEvent::Done,
            ServerEvent::Failed,
        ],
    );
    assert!(!steps.contains(&ServerStep::StartBackend));
    assert_eq!(
        steps[steps.len() - 3..].to_vec(),
        vec![ServerStep::JoinUpdateManager, ServerStep::StopBackend, ServerStep::Exit]
    );
}

#[test]
fn listener_is_drained_when_it_quit_and_all_connections_ended() {
    let mut drain = ConnectionDrain::new();
    assert!(!drain.is_drained());
    assert!(drain.accept());
    assert!(drain.accept());
    assert_eq!(drain.open, 2);
    drain.quit();
    assert!(!drain.is_drained());
    assert!(!drain.accept());
    assert_eq!(drain.open, 2);
    drain.close();
    assert!(!drain.is_drained());
    drain.close();
    assert!(drain.is_drained());
}

#[test]
fn infallible_result_is_unwrapped() {
    let result: Result<u8, std::convert::Infallible> = Ok(9);
    assert_eq!(unwrap_infallible_result(result), 9);
}
