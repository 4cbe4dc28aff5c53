use app_manager::builder::{send_build_request, BuildError, BuildManagerMessage};
use app_manager::channel::InProgressChannel;
use app_manager::cli::{
    build_info, create_configration, default_api_url, ApiCommand, BuildIdentification,
    DEFAULT_HTTPS_LOCALHOST_URL, DEFAULT_HTTP_LOCALHOST_URL,
};
use app_manager::client::{HttpMethod, ManagerApi, PeerConfig};
use app_manager::config::{
    server_identity, GetConfigError, ScriptLocations, TimeValue, TimeValueError,
};
use app_manager::model::{ResetDataQueryParam, SoftwareOptions};
use app_manager::mount::{MountAction, MountManager, State};
use app_manager::operation::Operation;
use app_manager::step::Outcome;
use app_manager::update::{
    send_message, send_restart_backend_request, send_update_request, UpdateError,
    UpdateManagerMessage,
};

fn peer() -> PeerConfig {
    create_configration("k", "https://localhost:5000/")
}

#[test]
fn client_configuration() {
    let peer = peer();
    assert_eq!(peer.base_url, "https://localhost:5000");
    assert_eq!(peer.api_key, "k");
    assert_eq!(peer.timeout_seconds, None);
    let copy = peer.clone();
    assert_eq!(copy.base_url, peer.base_url);
    assert_eq!(copy.api_key, peer.api_key);
}

#[test]
fn default_api_address() {
    assert_eq!(DEFAULT_HTTP_LOCALHOST_URL, "http://localhost:5000");
    assert_eq!(DEFAULT_HTTPS_LOCALHOST_URL, "https://localhost:5000");
    assert_eq!(default_api_url(false, false), "https://localhost:5000");
    assert_eq!(default_api_url(false, true), "https://localhost:5000");
    assert_eq!(default_api_url(true, true), "https://localhost:5000");
    assert_eq!(default_api_url(true, false), "http://localhost:5000");
}

#[test]
fn commands_of_the_client_become_requests() {
    let peer = peer();
    let request =
        ApiCommand::EncryptionKey { encryption_key_name: "node".to_string() }.request(&peer);
    assert_eq!(request.method, HttpMethod::Get);
    assert_eq!(request.url, "https://localhost:5000/manager_api/encryption_key/node");

    let request = ApiCommand::LatestBuildInfo { software: SoftwareOptions::Backend }.request(&peer);
    assert_eq!(request.method, HttpMethod::Get);
    assert_eq!(request.url, "https://localhost:5000/manager_api/latest_software");
    assert_eq!(request.query.len(), 2);
    assert_eq!(request.query[0].value, "Backend");
    assert_eq!(request.query[1].value, "Info");

    let request =
        ApiCommand::RequestBuildSoftware { software: SoftwareOptions::Manager }.request(&peer);
    assert_eq!(request.method, HttpMethod::Post);
    assert_eq!(request.url, "https://localhost:5000/manager_api/request_build_software");

    let request = ApiCommand::RequestUpdateSoftware {
        software: SoftwareOptions::Backend,
        reboot: false,
        reset_data: true,
    }
    .request(&peer);
    assert_eq!(request.method, HttpMethod::Post);
    assert_eq!(request.url, "https://localhost:5000/manager_api/request_software_update");
    let query: Vec<(&str, &str)> =
        request.query.iter().map(|p| (p.name.as_str(), p.value.as_str())).collect();
    assert_eq!(
        query,
        vec![("software_options", "Backend"), ("reboot", "false"), ("reset_data", "true")]
    );

    let request = ApiCommand::RequestRestartBackend { reset_data: false }.request(&peer);
    assert_eq!(
        request.url,
        "https://localhost:5000/manager_api/request_restart_or_reset_backend"
    );
    assert_eq!(request.query[0].name, "reset_data");
    assert_eq!(request.query[0].value, "false");

    for (command, path) in [
        (ApiCommand::SystemInfoAll, "/manager_api/system_info_all"),
        (ApiCommand::SystemInfo, "/manager_api/system_info"),
        (ApiCommand::SoftwareInfo, "/manager_api/software_info"),
    ] {
        let request = command.request(&peer);
        assert_eq!(request.method, HttpMethod::Get);
        assert_eq!(request.url, format!("https://localhost:5000{}", path));
        assert!(request.query.is_empty());
    }
}

#[test]
fn encryption_key_request_takes_the_encoded_name_as_it_is() {
    let request = ManagerApi::encryption_key_request(&peer(), "node+one");
    assert_eq!(request.url, "https://localhost:5000/manager_api/encryption_key/node+one");
    assert_eq!(request.api_key_header, "x-api-key");
    assert_eq!(request.api_key, "k");
}

#[test]
fn build_identification_is_printed_line_by_line() {
    let id = BuildIdentification {
        git_commit_hash: "abc".to_string(),
        git_describe: "v1-2-gabc".to_string(),
        git_branch: "main".to_string(),
        rustc_semver: "1.80.0".to_string(),
        rustc_host_triple: "x86_64-unknown-linux-gnu".to_string(),
        cargo_target_triple: "x86_64-unknown-linux-gnu".to_string(),
        cargo_debug: "false".to_string(),
        cargo_features: "".to_string(),
        cargo_opt_level: "3".to_string(),
    };
    assert_eq!(
        build_info(&id),
        "git commit hash: abc\ngit describe: v1-2-gabc\ngit branch: main\nrustc semver: 1.80.0\nrustc host triple: x86_64-unknown-linux-gnu\ncargo target triple: x86_64-unknown-linux-gnu\ncargo debug: false\ncargo features: \ncargo opt level: 3"
    );
}

#[test]
fn build_requests_go_through_the_channel() {
    let mut channel: InProgressChannel<BuildManagerMessage> = InProgressChannel::create();
    assert_eq!(send_build_request(&mut channel, SoftwareOptions::Backend), Ok(()));
    assert_eq!(
        send_build_request(&mut channel, SoftwareOptions::Manager),
        Err(BuildError::SendMessageFailed)
    );
    assert_eq!(channel.is_new_message_available(), Ok(true));
    channel.lock_message_container();
    assert_eq!(channel.get_message(), Some(&BuildManagerMessage::BuildNewBackendVersion));
    assert_eq!(
        send_build_request(&mut channel, SoftwareOptions::Manager),
        Err(BuildError::SendMessageFailed)
    );
    channel.release_message_container();
    assert_eq!(send_build_request(&mut channel, SoftwareOptions::Manager), Ok(()));
    channel.lock_message_container();
    assert_eq!(channel.get_message(), Some(&BuildManagerMessage::BuildNewManagerVersion));
}

#[test]
fn update_requests_go_through_the_channel() {
    let mut channel: InProgressChannel<UpdateManagerMessage> = InProgressChannel::create();
    assert_eq!(
        send_update_request(
            &mut channel,
            SoftwareOptions::Manager,
            true,
            ResetDataQueryParam { reset_data: false }
        ),
        Ok(())
    );
    assert_eq!(
        send_restart_backend_request(&mut channel, ResetDataQueryParam { reset_data: true }),
        Err(UpdateError::SendMessageFailed)
    );
    channel.lock_message_container();
    match channel.get_message() {
        Some(UpdateManagerMessage::UpdateSoftware { force_reboot, reset_data, software }) => {
            assert!(*force_reboot);
            assert!(!reset_data.reset_data);
            assert_eq!(*software, SoftwareOptions::Manager);
        }
        other => panic!("{:?}", other),
    }
    channel.release_message_container();
    assert_eq!(
        send_restart_backend_request(&mut channel, ResetDataQueryParam { reset_data: true }),
        Ok(())
    );
    channel.lock_message_container();
    match channel.get_message() {
        Some(UpdateManagerMessage::RestartBackend { reset_data }) => {
            assert!(reset_data.reset_data)
        }
        other => panic!("{:?}", other),
    }
    channel.release_message_container();
    channel.close_receiver();
    assert_eq!(
        send_message(
            &mut channel,
            UpdateManagerMessage::RestartBackend {
                reset_data: ResetDataQueryParam { reset_data: false }
            }
        ),
        Err(UpdateError::SendMessageFailed)
    );
}

#[test]
fn trimmed_time_value() {
    assert_eq!(TimeValue::parse_trimmed("04:30"), Ok(TimeValue { hours: 4, minutes: 30 }));
    assert_eq!(TimeValue::parse_trimmed(" 04:30"), Err(TimeValueError::InvalidHours));
    assert_eq!(TimeValue::parse_trimmed("04:30 "), Err(TimeValueError::InvalidMinutes));
    assert_eq!(TimeValue::parse_trimmed("04.30"), Err(TimeValueError::UnknownValues));
}

#[test]
fn identity_needs_exactly_one_key_and_one_certificate() {
    let identity = server_identity(Some(vec![vec![1]]), Some(vec![vec![2, 3]])).unwrap();
    assert_eq!(identity.key, vec![1]);
    assert_eq!(identity.certificate, vec![2, 3]);
    for (keys, certificates) in [
        (None, Some(vec![vec![2]])),
        (Some(vec![vec![1]]), None),
        (Some(Vec::new()), Some(vec![vec![2]])),
        (Some(vec![vec![1]]), Some(Vec::new())),
        (Some(vec![vec![1], vec![1]]), Some(vec![vec![2]])),
        (Some(vec![vec![1]]), Some(vec![vec![2], vec![2]])),
    ] {
        assert_eq!(
            server_identity(keys, certificates).err(),
            Some(GetConfigError::CreateTlsConfig)
        );
    }
}

#[test]
fn mount_operations() {
    let scripts = ScriptLocations::in_dir("/tools");
    let mut state = State::new();
    let mut manager = MountManager::mount_if_needed(None);
    match manager.operation(&scripts, "/secure/app") {
        Some(Operation::PathExists { path }) => assert_eq!(path, "/secure/app"),
        other => panic!("{:?}", other),
    }
    manager.step(&mut state, Outcome::Exists(false));
    assert!(matches!(
        manager.operation(&scripts, "/secure/app"),
        Some(Operation::FetchEncryptionKey)
    ));
    manager.step(&mut state, Outcome::Text("remote key".to_string()));
    match manager.operation(&scripts, "/secure/app") {
        Some(Operation::Run { command }) => {
            assert_eq!(command.program, "sudo");
            assert_eq!(command.args, vec!["/tools/is-default-encryption-password.sh".to_string()]);
        }
        other => panic!("{:?}", other),
    }
    manager.step(&mut state, Outcome::Succeeded);
    match manager.operation(&scripts, "/secure/app") {
        Some(Operation::RunFed { command, input }) => {
            assert_eq!(command.args, vec!["/tools/change-encryption-password.sh".to_string()]);
            assert_eq!(input, "remote key");
        }
        other => panic!("{:?}", other),
    }
    manager.step(&mut state, Outcome::Succeeded);
    match manager.operation(&scripts, "/secure/app") {
        Some(Operation::RunFed { command, input }) => {
            assert_eq!(command.program, "sudo");
            assert_eq!(command.args, vec!["/tools/open-encryption.sh".to_string()]);
            assert_eq!(input, "remote key");
        }
        other => panic!("{:?}", other),
    }
    assert_eq!(manager.step(&mut state, Outcome::Succeeded), MountAction::Finish(Ok(())));
    assert!(manager.operation(&scripts, "/secure/app").is_none());

    let mut manager = MountManager::unmount_if_needed();
    manager.step(&mut state, Outcome::Exists(true));
    match manager.operation(&scripts, "/secure/app") {
        Some(Operation::Run { command }) => {
            assert_eq!(command.args, vec!["/tools/close-encryption.sh".to_string()]);
        }
        other => panic!("{:?}", other),
    }
}
