use app_manager::config::{
    get_config, Config, ConfigFile, ScriptsFound, SocketConfig, SoftwareUpdateProviderConfig,
    TlsConfig,
};
use app_manager::model::{BuildInfo, ResetDataQueryParam, SoftwareOptions};
use app_manager::operation::Operation;
use app_manager::step::Outcome;
use app_manager::update::{
    UpdateAction, UpdateDirCreator, UpdateError, UpdateManager, UpdateManagerMessage,
    UpdatePaths,
};
use std::collections::{BTreeMap, BTreeSet};

fn update_config(data_dir: Option<&str>, with_updater: bool) -> Config {
    let file = ConfigFile {
        debug: None,
        api_key: "key".to_string(),
        storage_dir: "/storage".to_string(),
        scripts_dir: "/scripts".to_string(),
        socket: SocketConfig {
            public_api: "127.0.0.1:5000".to_string(),
            second_public_api_localhost_only_port: None,
        },
        server_encryption_keys: None,
        secure_storage: None,
        reboot_if_needed: None,
        software_update_provider: if with_updater {
            Some(SoftwareUpdateProviderConfig {
                manager_base_url: "https://builder:5000".to_string(),
                binary_signing_public_key: "/keys/signing.gpg".to_string(),
                manager_install_location: "/home/app/binaries/app-manager".to_string(),
                backend_install_location: "/secure/binaries/app-backend".to_string(),
                backend_data_reset_dir: data_dir.map(|d| d.to_string()),
            })
        } else {
            None
        },
        software_builder: None,
        system_info: None,
        tls: Some(TlsConfig {
            public_api_cert: "cert.pem".to_string(),
            public_api_key: "key.pem".to_string(),
            root_certificate: "root.pem".to_string(),
        }),
    };
    let found = ScriptsFound {
        open_encryption: true,
        close_encryption: true,
        is_default_encryption_password: true,
        change_encryption_password: true,
        start_backend: true,
        stop_backend: true,
        print_logs: true,
    };
    get_config(file, &found).unwrap()
}

fn record(sha: &str) -> BuildInfo {
    BuildInfo::new(
        "bi".to_string(),
        sha.to_string(),
        "backend".to_string(),
        "T1".to_string(),
    )
}

struct World {
    files: BTreeMap<String, Vec<u8>>,
    records: BTreeMap<String, BuildInfo>,
    dirs: BTreeSet<String>,
    executable: BTreeSet<String>,
    peer_record: BuildInfo,
    peer_binary: Option<Vec<u8>>,
    fetched: Vec<u8>,
    reboot_pending: bool,
    reboot_requests: u32,
    commands: Vec<Vec<String>>,
    failing_program: Option<String>,
}

fn world(peer_record: BuildInfo) -> World {
    World {
        files: BTreeMap::new(),
        records: BTreeMap::new(),
        dirs: BTreeSet::new(),
        executable: BTreeSet::new(),
        peer_record,
        peer_binary: Some(vec![0xE1, 0xF2]),
        fetched: Vec::new(),
        reboot_pending: false,
        reboot_requests: 0,
        commands: Vec::new(),
        failing_program: None,
    }
}

fn is_there(world: &World, path: &str) -> bool {
    world.files.contains_key(path) || world.records.contains_key(path) || world.dirs.contains(path)
}

fn rename(world: &mut World, from: &str, to: &str) -> Outcome {
    if let Some(data) = world.files.remove(from) {
        world.files.insert(to.to_string(), data);
        Outcome::Succeeded
    } else if let Some(info) = world.records.remove(from) {
        world.records.insert(to.to_string(), info);
        Outcome::Succeeded
    } else if world.dirs.remove(from) {
        world.dirs.insert(to.to_string());
        Outcome::Succeeded
    } else {
        Outcome::Failed
    }
}

fn perform(world: &mut World, operation: Operation) -> Outcome {
    match operation {
        Operation::CreateDirIfMissing { path } => {
            world.dirs.insert(path);
            Outcome::Succeeded
        }
        Operation::PathExists { path } => Outcome::Exists(is_there(world, &path)),
        Operation::IsDir { path } => Outcome::Exists(world.dirs.contains(&path)),
        Operation::ReadBuildInfo { path } => match world.records.get(&path) {
            Some(info) => Outcome::Info(info.clone()),
            None => Outcome::Failed,
        },
        Operation::WriteBuildInfo { path, info } => {
            world.records.insert(path, info);
            Outcome::Succeeded
        }
        Operation::WriteFetched { path } => {
            world.files.insert(path, world.fetched.clone());
            Outcome::Succeeded
        }
        Operation::CopyFile { from, to } => match world.files.get(&from).cloned() {
            Some(data) => {
                world.files.insert(to, data);
                Outcome::Succeeded
            }
            None => Outcome::Failed,
        },
        Operation::Rename { from, to } => rename(world, &from, &to),
        Operation::RemoveFile { path } => {
            if world.files.remove(&path).is_some() {
                Outcome::Succeeded
            } else {
                Outcome::Failed
            }
        }
        Operation::RemoveDirAll { path } => {
            if world.dirs.remove(&path) {
                Outcome::Succeeded
            } else {
                Outcome::Failed
            }
        }
        Operation::Run { command } => {
            let mut words = vec![command.program.clone()];
            words.extend(command.args.iter().cloned());
            world.commands.push(words.clone());
            if world.failing_program.as_deref() == Some(command.program.as_str()) {
                return Outcome::Exited(Some(2));
            }
            if command.program == "gpg" && words.len() == 5 && words[3] == "--decrypt" {
                match world.files.get(&words[4]).cloned() {
                    Some(encrypted) => {
                        if world.files.contains_key(&words[2]) {
                            return Outcome::Exited(Some(2));
                        }
                        world.files.insert(words[2].clone(), encrypted);
                    }
                    None => return Outcome::Exited(Some(2)),
                }
            }
            if command.program == "chmod" {
                world.executable.insert(words[2].clone());
            }
            Outcome::Succeeded
        }
        Operation::FetchLatestBuildInfo { .. } => Outcome::Info(world.peer_record.clone()),
        Operation::FetchLatestEncryptedBinary { .. } => match world.peer_binary.clone() {
            Some(binary) => {
                world.fetched = binary;
                Outcome::Succeeded
            }
            None => Outcome::Failed,
        },
        Operation::SetRebootPending => {
            world.reboot_pending = true;
            Outcome::Succeeded
        }
        Operation::RequestReboot => {
            world.reboot_requests += 1;
            Outcome::Succeeded
        }
        other => panic!("unexpected operation {:?}", other),
    }
}

fn run(
    world: &mut World,
    config: &Config,
    message: UpdateManagerMessage,
) -> (Result<(), UpdateError>, Vec<UpdateAction>) {
    let mut manager = UpdateManager::handle_message(message, config);
    let paths = UpdatePaths::new(config, manager.software_options());
    let mut actions = Vec::new();
    loop {
        let action = manager.awaiting();
        actions.push(action);
        if let UpdateAction::Finish(result) = action {
            assert!(manager.operation(&paths).is_none());
            return (result, actions);
        }
        let operation = manager.operation(&paths).unwrap();
        let outcome = perform(world, operation);
        assert!(manager.accepts(&outcome), "{:?} {:?}", action, outcome);
        let next = manager.step(outcome);
        assert_eq!(next, manager.awaiting());
    }
}

fn update_backend(force_reboot: bool, reset_data: bool) -> UpdateManagerMessage {
    UpdateManagerMessage::UpdateSoftware {
        force_reboot,
        reset_data: ResetDataQueryParam { reset_data },
        software: SoftwareOptions::Backend,
    }
}

const TARGET: &str = "/secure/binaries/app-backend";

#[test]
fn fresh_install() {
    let config = update_config(None, true);
    let mut world = world(record("abc"));
    let (result, _) = run(&mut world, &config, update_backend(false, false));
    assert_eq!(result, Ok(()));
    assert_eq!(world.files.get("/storage/update/backend"), Some(&vec![0xE1, 0xF2]));
    assert_eq!(world.files.get("/storage/update/backend.gpg"), Some(&vec![0xE1, 0xF2]));
    assert_eq!(world.records.get("/storage/update/backend.json"), Some(&record("abc")));
    assert_eq!(
        world.records.get("/storage/update/backend.json.installed"),
        Some(&record("abc"))
    );
    assert_eq!(world.files.get(TARGET), Some(&vec![0xE1, 0xF2]));
    assert!(world.executable.contains(TARGET));
    assert!(!is_there(&world, "/storage/update/backend.json.installed.old"));
    assert!(!is_there(&world, "/secure/binaries/app-backend.old"));
    assert!(world.reboot_pending);
    assert_eq!(world.reboot_requests, 0);
}

#[test]
fn fresh_install_takes_these_steps() {
    let config = update_config(None, true);
    let mut world = world(record("abc"));
    let (_, actions) = run(&mut world, &config, update_backend(false, false));
    assert_eq!(
        actions,
        vec![
            UpdateAction::EnsureUpdateDir,
            UpdateAction::LookForDownloadedInfo,
            UpdateAction::FetchLatestInfo,
            UpdateAction::FetchEncryptedBinary,
            UpdateAction::WriteEncryptedBinary,
            UpdateAction::ImportSigningKey,
            UpdateAction::LookForStagedBinary,
            UpdateAction::DecryptBinary,
            UpdateAction::WriteDownloadedInfo,
            UpdateAction::LookForInstalledInfo,
            UpdateAction::CheckInstallTarget,
            UpdateAction::CopyBinaryToTarget,
            UpdateAction::MakeTargetExecutable,
            UpdateAction::WriteInstalledInfo,
            UpdateAction::SetRebootPending,
            UpdateAction::Finish(Ok(())),
        ]
    );
    assert_eq!(
        world.commands,
        vec![
            vec!["gpg".to_string(), "--import".to_string(), "/keys/signing.gpg".to_string()],
            vec![
                "gpg".to_string(),
                "--output".to_string(),
                "/storage/update/backend".to_string(),
                "--decrypt".to_string(),
                "/storage/update/backend.gpg".to_string(),
            ],
            vec!["chmod".to_string(), "u+x".to_string(), TARGET.to_string()],
        ]
    );
}

#[test]
fn rolling_update_with_force_reboot() {
    let config = update_config(None, true);
    let mut world = world(record("abc"));
    assert_eq!(run(&mut world, &config, update_backend(false, false)).0, Ok(()));
    world.peer_record = record("def");
    world.peer_binary = Some(vec![0xD3]);
    world.reboot_pending = false;
    let (result, actions) = run(&mut world, &config, update_backend(true, false));
    assert_eq!(result, Ok(()));
    assert_eq!(
        world.records.get("/storage/update/backend.json.installed.old"),
        Some(&record("abc"))
    );
    assert_eq!(
        world.records.get("/storage/update/backend.json.installed"),
        Some(&record("def"))
    );
    assert_eq!(world.files.get(TARGET), Some(&vec![0xD3]));
    assert_eq!(world.files.get("/secure/binaries/app-backend.old"), Some(&vec![0xE1, 0xF2]));
    assert!(world.reboot_pending);
    assert_eq!(world.reboot_requests, 1);
    assert!(actions.contains(&UpdateAction::RemoveStagedBinary));
    assert!(actions.contains(&UpdateAction::RotateInstalledInfo));
    assert!(actions.contains(&UpdateAction::RotateInstallTarget));
    assert_eq!(
        actions.iter().filter(|a| **a == UpdateAction::RequestReboot).count(),
        1
    );
}

#[test]
fn successful_update_leaves_both_records_equal() {
    for software in [SoftwareOptions::Manager, SoftwareOptions::Backend] {
        let config = update_config(None, true);
        let mut world = world(record("abc"));
        let message = UpdateManagerMessage::UpdateSoftware {
            force_reboot: false,
            reset_data: ResetDataQueryParam { reset_data: false },
            software,
        };
        assert_eq!(run(&mut world, &config, message).0, Ok(()));
        let name = software.to_str();
        let downloaded = world.records.get(&format!("/storage/update/{}.json", name));
        let installed = world.records.get(&format!("/storage/update/{}.json.installed", name));
        assert!(downloaded.is_some());
        assert_eq!(downloaded, installed);
    }
}

#[test]
fn second_update_without_upstream_change_has_no_side_effects() {
    let config = update_config(None, true);
    let mut world = world(record("abc"));
    assert_eq!(run(&mut world, &config, update_backend(true, true)).0, Ok(()));
    let files = world.files.clone();
    let records = world.records.clone();
    let commands = world.commands.len();
    let requests = world.reboot_requests;
    let (result, actions) = run(&mut world, &config, update_backend(true, true));
    assert_eq!(result, Ok(()));
    assert_eq!(
        actions,
        vec![
            UpdateAction::EnsureUpdateDir,
            UpdateAction::LookForDownloadedInfo,
            UpdateAction::ReadDownloadedInfo,
            UpdateAction::FetchLatestInfo,
            UpdateAction::LookForInstalledInfo,
            UpdateAction::ReadInstalledInfo,
            UpdateAction::Finish(Ok(())),
        ]
    );
    assert_eq!(world.files, files);
    assert_eq!(world.records, records);
    assert_eq!(world.commands.len(), commands);
    assert_eq!(world.reboot_requests, requests);
}

#[test]
fn downloaded_but_not_installed_software_is_installed_without_download() {
    let config = update_config(None, true);
    let mut world = world(record("abc"));
    world.records.insert("/storage/update/backend.json".to_string(), record("abc"));
    world.files.insert("/storage/update/backend".to_string(), vec![7]);
    world.peer_binary = None;
    let (result, actions) = run(&mut world, &config, update_backend(false, false));
    assert_eq!(result, Ok(()));
    assert!(!actions.contains(&UpdateAction::FetchEncryptedBinary));
    assert_eq!(world.files.get(TARGET), Some(&vec![7]));
    assert_eq!(
        world.records.get("/storage/update/backend.json.installed"),
        Some(&record("abc"))
    );
}

#[test]
fn failed_download_is_an_api_error() {
    let config = update_config(None, true);
    let mut world = world(record("abc"));
    world.peer_binary = None;
    let (result, _) = run(&mut world, &config, update_backend(false, false));
    assert_eq!(result, Err(UpdateError::ApiRequest));
    assert!(world.records.is_empty());
    assert!(!world.reboot_pending);
}

#[test]
fn failed_decryption_stops_the_update() {
    let config = update_config(None, true);
    let mut world = world(record("abc"));
    world.failing_program = Some("gpg".to_string());
    let (result, actions) = run(&mut world, &config, update_backend(true, false));
    assert_eq!(result, Err(UpdateError::CommandFailed(Some(2))));
    assert_eq!(actions.last(), Some(&UpdateAction::Finish(Err(UpdateError::CommandFailed(Some(2))))));
    assert!(!is_there(&world, TARGET));
    assert!(!is_there(&world, "/storage/update/backend.json"));
    assert_eq!(world.reboot_requests, 0);
}

#[test]
fn update_without_updater_section_fails_after_the_download() {
    let config = update_config(None, false);
    let mut world = world(record("abc"));
    let (result, actions) = run(&mut world, &config, update_backend(false, false));
    assert_eq!(result, Err(UpdateError::SoftwareUpdaterConfigMissing));
    assert!(actions.contains(&UpdateAction::WriteEncryptedBinary));
    assert!(!actions.contains(&UpdateAction::ImportSigningKey));
}

#[test]
fn data_is_set_aside_on_request() {
    let config = update_config(Some("/secure/data"), true);
    let mut world = world(record("abc"));
    world.dirs.insert("/secure/data".to_string());
    world.dirs.insert("/secure/data-old".to_string());
    let (result, actions) = run(&mut world, &config, update_backend(false, true));
    assert_eq!(result, Ok(()));
    assert!(actions.contains(&UpdateAction::RemoveOldDataDir));
    assert!(actions.contains(&UpdateAction::RotateDataDir));
    assert!(!world.dirs.contains("/secure/data"));
    assert!(world.dirs.contains("/secure/data-old"));
    assert!(world.reboot_pending);
}

#[test]
fn data_of_the_manager_is_never_set_aside() {
    let config = update_config(Some("/secure/data"), true);
    let mut world = world(record("abc"));
    world.dirs.insert("/secure/data".to_string());
    let message = UpdateManagerMessage::UpdateSoftware {
        force_reboot: false,
        reset_data: ResetDataQueryParam { reset_data: true },
        software: SoftwareOptions::Manager,
    };
    let (result, actions) = run(&mut world, &config, message);
    assert_eq!(result, Ok(()));
    assert!(!actions.contains(&UpdateAction::CheckDataDir));
    assert!(world.dirs.contains("/secure/data"));
}

#[test]
fn missing_data_directory_is_an_error() {
    let config = update_config(Some("/secure/data"), true);
    let mut world = world(record("abc"));
    let (result, _) = run(&mut world, &config, update_backend(false, true));
    assert_eq!(result, Err(UpdateError::ResetDataDirectoryWasNotDirectory));
    // The installation itself was completed before.
    assert_eq!(
        world.records.get("/storage/update/backend.json.installed"),
        Some(&record("abc"))
    );
    assert!(!world.reboot_pending);
}

#[test]
fn data_directory_without_a_name_is_an_error() {
    let config = update_config(Some("/"), true);
    let mut world = world(record("abc"));
    world.dirs.insert("/".to_string());
    let (result, _) = run(&mut world, &config, update_backend(false, true));
    assert_eq!(result, Err(UpdateError::ResetDataDirectoryNoFileName));
}

#[test]
fn restart_backend_stops_resets_and_starts() {
    let config = update_config(Some("/secure/data"), true);
    let mut world = world(record("abc"));
    world.dirs.insert("/secure/data".to_string());
    let message = UpdateManagerMessage::RestartBackend {
        reset_data: ResetDataQueryParam { reset_data: true },
    };
    let (result, actions) = run(&mut world, &config, message);
    assert_eq!(result, Ok(()));
    assert_eq!(
        actions,
        vec![
            UpdateAction::StopBackend,
            UpdateAction::CheckDataDir,
            UpdateAction::CheckOldDataDir,
            UpdateAction::RotateDataDir,
            UpdateAction::StartBackend,
            UpdateAction::Finish(Ok(())),
        ]
    );
    assert_eq!(
        world.commands,
        vec![
            vec!["sudo".to_string(), "/scripts/stop-backend.sh".to_string()],
            vec!["sudo".to_string(), "/scripts/start-backend.sh".to_string()],
        ]
    );
    assert!(world.dirs.contains("/secure/data-old"));
    assert!(!world.reboot_pending);
}

#[test]
fn restart_backend_without_reset() {
    let config = update_config(Some("/secure/data"), true);
    let mut world = world(record("abc"));
    let message = UpdateManagerMessage::RestartBackend {
        reset_data: ResetDataQueryParam { reset_data: false },
    };
    let (result, actions) = run(&mut world, &config, message);
    assert_eq!(result, Ok(()));
    assert_eq!(
        actions,
        vec![
            UpdateAction::StopBackend,
            UpdateAction::StartBackend,
            UpdateAction::Finish(Ok(())),
        ]
    );
}

#[test]
fn failed_stop_fails_the_restart() {
    let config = update_config(None, true);
    let mut world = world(record("abc"));
    world.failing_program = Some("sudo".to_string());
    let message = UpdateManagerMessage::RestartBackend {
        reset_data: ResetDataQueryParam { reset_data: false },
    };
    let (result, actions) = run(&mut world, &config, message);
    assert_eq!(result, Err(UpdateError::StopBackendFailed));
    assert!(!actions.contains(&UpdateAction::StartBackend));
}

#[test]
fn unreadable_record_and_failed_steps_give_their_errors() {
    let config = update_config(None, true);
    let mut manager = UpdateManager::handle_message(update_backend(false, false), &config);
    assert_eq!(manager.step(Outcome::Succeeded), UpdateAction::LookForDownloadedInfo);
    assert_eq!(manager.step(Outcome::Exists(true)), UpdateAction::ReadDownloadedInfo);
    assert_eq!(
        manager.step(Outcome::Invalid),
        UpdateAction::Finish(Err(UpdateError::InvalidInput))
    );
    assert!(!manager.accepts(&Outcome::Succeeded));

    let mut manager = UpdateManager::handle_message(update_backend(false, false), &config);
    manager.step(Outcome::Succeeded);
    manager.step(Outcome::Exists(true));
    assert_eq!(
        manager.step(Outcome::Failed),
        UpdateAction::Finish(Err(UpdateError::FileReadingFailed))
    );

    let mut manager = UpdateManager::handle_message(update_backend(false, false), &config);
    manager.step(Outcome::Succeeded);
    manager.step(Outcome::Exists(false));
    assert_eq!(
        manager.step(Outcome::Failed),
        UpdateAction::Finish(Err(UpdateError::ApiRequest))
    );

    let mut manager = UpdateManager::handle_message(update_backend(true, false), &config);
    manager.step(Outcome::Succeeded);
    manager.step(Outcome::Exists(false));
    assert_eq!(manager.step(Outcome::Info(record("abc"))), UpdateAction::FetchEncryptedBinary);
    assert_eq!(manager.latest(), &record("abc"));
    assert_eq!(manager.step(Outcome::Succeeded), UpdateAction::WriteEncryptedBinary);
    assert_eq!(
        manager.step(Outcome::Failed),
        UpdateAction::Finish(Err(UpdateError::FileWritingFailed))
    );
}

#[test]
fn failed_reboot_request_is_reported() {
    let config = update_config(None, true);
    let mut manager = UpdateManager::handle_message(update_backend(true, false), &config);
    manager.step(Outcome::Succeeded);
    manager.step(Outcome::Exists(false));
    manager.step(Outcome::Info(BuildInfo::default()));
    assert_eq!(manager.awaiting(), UpdateAction::LookForInstalledInfo);
    // Neither record exists and the provider reports the empty record:
    // there is nothing to do.
    assert_eq!(manager.step(Outcome::Exists(false)), UpdateAction::Finish(Ok(())));

    let mut manager = UpdateManager::handle_message(update_backend(true, false), &config);
    manager.step(Outcome::Succeeded);
    manager.step(Outcome::Exists(false));
    manager.step(Outcome::Info(BuildInfo::default()));
    manager.step(Outcome::Exists(true));
    assert_eq!(manager.step(Outcome::Info(record("old"))), UpdateAction::RotateInstalledInfo);
    assert_eq!(manager.step(Outcome::Succeeded), UpdateAction::CheckInstallTarget);
    assert_eq!(manager.step(Outcome::Exists(false)), UpdateAction::CopyBinaryToTarget);
    assert_eq!(manager.step(Outcome::Succeeded), UpdateAction::MakeTargetExecutable);
    assert_eq!(manager.step(Outcome::Succeeded), UpdateAction::WriteInstalledInfo);
    assert_eq!(manager.step(Outcome::Succeeded), UpdateAction::SetRebootPending);
    assert_eq!(manager.step(Outcome::Succeeded), UpdateAction::RequestReboot);
    assert_eq!(
        manager.step(Outcome::Failed),
        UpdateAction::Finish(Err(UpdateError::RebootFailed))
    );
}

#[test]
fn update_paths() {
    let config = update_config(Some("/secure/data/"), true);
    let paths = UpdatePaths::new(&config, SoftwareOptions::Manager);
    assert_eq!(paths.update_dir, "/storage/update");
    assert_eq!(paths.downloaded_info, "/storage/update/manager.json");
    assert_eq!(paths.encrypted_binary, "/storage/update/manager.gpg");
    assert_eq!(paths.staged_binary, "/storage/update/manager");
    assert_eq!(paths.installed_info, "/storage/update/manager.json.installed");
    assert_eq!(paths.installed_old_info, "/storage/update/manager.json.installed.old");
    assert_eq!(paths.signing_key.as_deref(), Some("/keys/signing.gpg"));
    assert_eq!(paths.install_target.as_deref(), Some("/home/app/binaries/app-manager"));
    assert_eq!(
        paths.install_target_old.as_deref(),
        Some("/home/app/binaries/app-manager.old")
    );
    assert_eq!(paths.data_dir.as_deref(), Some("/secure/data/"));
    assert_eq!(paths.old_data_dir.as_deref(), Some("/secure/data-old"));
    assert_eq!(paths.stop_backend, "/scripts/stop-backend.sh");
    assert_eq!(paths.start_backend, "/scripts/start-backend.sh");
    let bare = UpdatePaths::new(&update_config(None, false), SoftwareOptions::Backend);
    assert_eq!(bare.install_target, None);
    assert_eq!(bare.signing_key, None);
    assert_eq!(bare.old_data_dir, None);
}

#[test]
fn update_file_names() {
    assert_eq!(UpdateDirCreator::update_dir("/storage"), "/storage/update");
    assert_eq!(UpdateDirCreator::build_info_json_name("backend"), "backend.json");
    assert_eq!(UpdateDirCreator::encrypted_binary_name("backend"), "backend.gpg");
    assert_eq!(
        UpdateDirCreator::installed_build_info_json_name("backend"),
        "backend.json.installed"
    );
    assert_eq!(
        UpdateDirCreator::installed_old_build_info_json_name("backend"),
        "backend.json.installed.old"
    );
}

#[test]
fn current_software_lists_manager_then_backend() {
    let both = UpdateDirCreator::current_software(Some(record("m")), Some(record("b")));
    assert_eq!(both.current_software, vec![record("m"), record("b")]);
    let backend = UpdateDirCreator::current_software(None, Some(record("b")));
    assert_eq!(backend.current_software, vec![record("b")]);
    let none = UpdateDirCreator::current_software(None, None);
    assert!(none.current_software.is_empty());
}

#[test]
fn update_error_messages() {
    assert_eq!(UpdateError::ApiRequest.message(), "Api request failed");
    assert_eq!(
        UpdateError::CommandFailed(Some(1)).message(),
        "Command failed with exit status"
    );
    assert_eq!(
        UpdateError::ResetDataDirectoryNoFileName.message(),
        "Reset data directory missing file name"
    );
}
