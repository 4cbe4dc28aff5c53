use app_manager::builder::{
    generate_key_command, validate_path, whitelist_chars, BuildAction, BuildDirCreator,
    BuildError, BuildManager, BuildManagerMessage, BuildPaths, GPG_KEY_NAME,
};
use app_manager::config::{
    get_config, Config, ConfigFile, ScriptsFound, SocketConfig, SoftwareBuilderConfig, TlsConfig,
};
use app_manager::model::{BuildInfo, DownloadType, SoftwareOptions};
use app_manager::operation::Operation;
use app_manager::step::Outcome;
use std::collections::{BTreeMap, BTreeSet};

fn build_config(key: Option<&str>, script: Option<&str>, with_builder: bool) -> Config {
    let file = ConfigFile {
        debug: None,
        api_key: "key".to_string(),
        storage_dir: "/storage".to_string(),
        scripts_dir: "/scripts".to_string(),
        socket: SocketConfig {
            public_api: "127.0.0.1:5000".to_string(),
            second_public_api_localhost_only_port: None,
        },
        server_encryption_keys: None,
        secure_storage: None,
        reboot_if_needed: None,
        software_update_provider: None,
        software_builder: if with_builder {
            Some(SoftwareBuilderConfig {
                manager_download_key_path: None,
                manager_download_git_address: "git@host:manager.git".to_string(),
                manager_branch: "main".to_string(),
                manager_binary: "app-manager".to_string(),
                manager_pre_build_script: None,
                backend_download_key_path: key.map(|k| k.to_string()),
                backend_download_git_address: "git@host:backend.git".to_string(),
                backend_branch: "release".to_string(),
                backend_binary: "app-backend".to_string(),
                backend_pre_build_script: script.map(|s| s.to_string()),
            })
        } else {
            None
        },
        system_info: None,
        tls: Some(TlsConfig {
            public_api_cert: "cert.pem".to_string(),
            public_api_key: "key.pem".to_string(),
            root_certificate: "root.pem".to_string(),
        }),
    };
    let found = ScriptsFound {
        open_encryption: true,
        close_encryption: true,
        is_default_encryption_password: true,
        change_encryption_password: true,
        start_backend: true,
        stop_backend: true,
        print_logs: true,
    };
    get_config(file, &found).unwrap()
}

struct World {
    head: String,
    files: BTreeMap<String, String>,
    records: BTreeMap<String, BuildInfo>,
    dirs: BTreeSet<String>,
    secret_keys: String,
    commands: Vec<Vec<String>>,
    failing_word: Option<String>,
}

fn world(head: &str) -> World {
    World {
        head: head.to_string(),
        files: BTreeMap::new(),
        records: BTreeMap::new(),
        dirs: BTreeSet::new(),
        secret_keys: String::new(),
        commands: Vec::new(),
        failing_word: None,
    }
}

const BUILT: &str = "/storage/build/backend/target/release/app-backend";

fn run_command(world: &mut World, words: &[String], dir: Option<&str>) -> Result<String, Outcome> {
    world.commands.push(words.to_vec());
    if let Some(word) = &world.failing_word {
        if words.contains(word) {
            return Err(Outcome::Exited(Some(1)));
        }
    }
    if words.contains(&"clone".to_string()) {
        world.dirs.insert(words[words.len() - 1].clone());
    }
    if words.contains(&"rev-parse".to_string()) {
        return Ok(world.head.clone());
    }
    if words.contains(&"cargo".to_string()) {
        world.files.insert(BUILT.to_string(), format!("binary of {}", world.head));
    }
    if words.contains(&"--build-info".to_string()) {
        return Ok("build info".to_string());
    }
    if words.contains(&"--list-secret-keys".to_string()) {
        return Ok(world.secret_keys.clone());
    }
    if words.contains(&"--quick-generate-key".to_string()) {
        world.secret_keys = "sec".to_string();
    }
    if words.contains(&"--encrypt".to_string()) {
        let source = format!("{}/{}", dir.unwrap(), words[words.len() - 1]);
        let plain = world.files.get(&source).cloned().unwrap();
        world.files.insert(words[2].clone(), format!("encrypted {}", plain));
    }
    Ok(String::new())
}

fn perform(world: &mut World, operation: Operation) -> Outcome {
    match operation {
        Operation::CreateDirIfMissing { path } => {
            world.dirs.insert(path);
            Outcome::Succeeded
        }
        Operation::PathExists { path } => Outcome::Exists(
            world.files.contains_key(&path)
                || world.records.contains_key(&path)
                || world.dirs.contains(&path),
        ),
        Operation::ReadBuildInfo { path } => match world.records.get(&path) {
            Some(info) => Outcome::Info(info.clone()),
            None => Outcome::Failed,
        },
        Operation::WriteBuildInfo { path, info } => {
            world.records.insert(path, info);
            Outcome::Succeeded
        }
        Operation::CopyFile { from, to } => {
            if let Some(data) = world.files.get(&from).cloned() {
                world.files.insert(to, data);
                Outcome::Succeeded
            } else if let Some(info) = world.records.get(&from).cloned() {
                world.records.insert(to, info);
                Outcome::Succeeded
            } else {
                Outcome::Failed
            }
        }
        Operation::Run { command } => {
            let mut words = vec![command.program.clone()];
            words.extend(command.args.iter().cloned());
            match run_command(world, &words, command.current_dir.as_deref()) {
                Ok(_) => Outcome::Succeeded,
                Err(outcome) => outcome,
            }
        }
        Operation::RunCaptured { command } => {
            let mut words = vec![command.program.clone()];
            words.extend(command.args.iter().cloned());
            match run_command(world, &words, command.current_dir.as_deref()) {
                Ok(text) => Outcome::Text(text),
                Err(outcome) => outcome,
            }
        }
        Operation::ReadClock => Outcome::Text("2024-01-02 3:04:05.0 +00:00:00".to_string()),
        other => panic!("unexpected operation {:?}", other),
    }
}

fn run(world: &mut World, config: &Config) -> (Result<(), BuildError>, Vec<BuildAction>) {
    let mut manager = BuildManager::handle_message(BuildManagerMessage::BuildNewBackendVersion, config);
    let mut actions = Vec::new();
    loop {
        let action = manager.awaiting();
        actions.push(action);
        if let BuildAction::Finish(result) = action {
            return (result, actions);
        }
        let paths = BuildPaths::new(config, manager.software_options()).unwrap();
        let operation = manager.operation(&paths).unwrap();
        let outcome = perform(world, operation);
        assert!(manager.accepts(&outcome), "{:?} {:?}", action, outcome);
        manager.step(outcome);
    }
}

fn words(list: &[&str]) -> Vec<String> {
    list.iter().map(|w| w.to_string()).collect()
}

const ARCHIVE: &str = "/storage/build/history/backend-2024-01-02 3:04:05.0 +00:00:00";

#[test]
fn first_build_publishes_the_triple() {
    let config = build_config(None, None, true);
    let mut world = world("abc\n");
    let (result, actions) = run(&mut world, &config);
    assert_eq!(result, Ok(()));
    assert_eq!(
        actions,
        vec![
            BuildAction::EnsureBuildDir,
            BuildAction::CheckRepository,
            BuildAction::GitClone,
            BuildAction::GitPull,
            BuildAction::EnsureLatestDir,
            BuildAction::LookForLatestInfo,
            BuildAction::ReadHeadCommit,
            BuildAction::CargoBuild,
            BuildAction::ReadBinaryBuildInfo,
            BuildAction::ReadClock,
            BuildAction::EnsureHistoryDir,
            BuildAction::CreateArchiveDir,
            BuildAction::ArchiveBinary,
            BuildAction::ListSecretKeys,
            BuildAction::GenerateKey,
            BuildAction::EncryptAndSign,
            BuildAction::ReadCommitForRecord,
            BuildAction::WriteArchiveInfo,
            BuildAction::PublishBinary,
            BuildAction::PublishEncrypted,
            BuildAction::PublishInfo,
            BuildAction::Finish(Ok(())),
        ]
    );
    let record = BuildInfo::new(
        "build info".to_string(),
        "abc\n".to_string(),
        "backend".to_string(),
        "2024-01-02 3:04:05.0 +00:00:00".to_string(),
    );
    assert_eq!(world.records.get("/storage/build/latest/app-backend.json"), Some(&record));
    assert_eq!(
        world.files.get("/storage/build/latest/app-backend"),
        Some(&"binary of abc\n".to_string())
    );
    assert_eq!(
        world.files.get("/storage/build/latest/app-backend.gpg"),
        Some(&"encrypted binary of abc\n".to_string())
    );
    assert_eq!(world.records.get(&format!("{}/app-backend.json", ARCHIVE)), Some(&record));
    assert!(world.files.contains_key(&format!("{}/app-backend", ARCHIVE)));
    assert!(world.files.contains_key(&format!("{}/app-backend.gpg", ARCHIVE)));
}

#[test]
fn build_command_lines() {
    let config = build_config(Some("/keys/backend.key"), Some("/scripts/pre.sh"), true);
    let mut world = world("abc\n");
    world.secret_keys = "sec".to_string();
    assert_eq!(run(&mut world, &config).0, Ok(()));
    assert_eq!(
        world.commands,
        vec![
            words(&[
                "git",
                "clone",
                "-c",
                "core.sshCommand=ssh -i /keys/backend.key",
                "-b",
                "release",
                "git@host:backend.git",
                "/storage/build/backend",
            ]),
            words(&["git", "-C", "/storage/build/backend", "pull", "origin", "release"]),
            words(&["git", "-C", "/storage/build/backend", "rev-parse", "HEAD"]),
            words(&["/bin/bash", "-eux", "/scripts/pre.sh"]),
            words(&["nice", "-n", "19", "cargo", "build", "--bin", "app-backend", "--release"]),
            words(&[BUILT, "--build-info"]),
            words(&["gpg", "--list-secret-keys"]),
            vec![
                "gpg".to_string(),
                "--output".to_string(),
                format!("{}/app-backend.gpg", ARCHIVE),
                "--encrypt".to_string(),
                "--recipient".to_string(),
                "app-manager-software-builder".to_string(),
                "--sign".to_string(),
                "app-backend".to_string(),
            ],
            words(&["git", "-C", "/storage/build/backend", "rev-parse", "HEAD"]),
        ]
    );
}

#[test]
fn commands_run_in_the_repository() {
    let config = build_config(None, Some("/scripts/pre.sh"), true);
    let paths = BuildPaths::new(&config, SoftwareOptions::Backend).unwrap();
    assert_eq!(paths.build_command().current_dir.as_deref(), Some("/storage/build/backend"));
    assert_eq!(paths.clone_command().current_dir, None);
    assert_eq!(paths.pull_command().current_dir, None);
    assert_eq!(paths.head_command().current_dir, None);
    let files = paths.files("T");
    assert_eq!(files.archive_dir, "/storage/build/history/backend-T");
    assert_eq!(
        paths.sign_command(&files).current_dir.as_deref(),
        Some("/storage/build/history/backend-T")
    );
    assert_eq!(paths.clone_command().args, words(&[
        "clone",
        "-b",
        "release",
        "git@host:backend.git",
        "/storage/build/backend",
    ]));
}

#[test]
fn signing_key_is_generated_when_there_is_none() {
    assert_eq!(GPG_KEY_NAME, "app-manager-software-builder");
    let command = generate_key_command();
    assert_eq!(command.program, "gpg");
    assert_eq!(
        command.args,
        words(&[
            "--batch",
            "--passphrase",
            "",
            "--quick-generate-key",
            "app-manager-software-builder",
            "default",
            "default",
            "none",
        ])
    );
}

#[test]
fn no_op_build() {
    let config = build_config(None, None, true);
    let mut world = world("abc\n");
    assert_eq!(run(&mut world, &config).0, Ok(()));
    let files = world.files.clone();
    let records = world.records.clone();
    let dirs = world.dirs.clone();
    world.commands.clear();
    let (result, actions) = run(&mut world, &config);
    assert_eq!(result, Ok(()));
    assert_eq!(
        actions,
        vec![
            BuildAction::EnsureBuildDir,
            BuildAction::CheckRepository,
            BuildAction::GitPull,
            BuildAction::EnsureLatestDir,
            BuildAction::LookForLatestInfo,
            BuildAction::ReadLatestInfo,
            BuildAction::ReadHeadCommit,
            BuildAction::Finish(Ok(())),
        ]
    );
    assert!(world.commands.iter().all(|c| !c.contains(&"cargo".to_string())));
    assert_eq!(world.files, files);
    assert_eq!(world.records, records);
    assert_eq!(world.dirs, dirs);
}

#[test]
fn new_commit_is_built_and_published() {
    let config = build_config(None, None, true);
    let mut world = world("abc\n");
    assert_eq!(run(&mut world, &config).0, Ok(()));
    world.head = "def\n".to_string();
    let (result, actions) = run(&mut world, &config);
    assert_eq!(result, Ok(()));
    assert!(actions.contains(&BuildAction::CargoBuild));
    assert!(!actions.contains(&BuildAction::GenerateKey));
    let record = world.records.get("/storage/build/latest/app-backend.json").unwrap();
    assert_eq!(record.commit_sha, "def\n");
    assert_eq!(
        world.files.get("/storage/build/latest/app-backend.gpg"),
        Some(&"encrypted binary of def\n".to_string())
    );
}

#[test]
fn failed_build_leaves_the_latest_build_untouched() {
    let config = build_config(None, None, true);
    let mut world = world("abc\n");
    assert_eq!(run(&mut world, &config).0, Ok(()));
    let latest: Vec<(String, String)> = world
        .files
        .iter()
        .filter(|(path, _)| path.starts_with("/storage/build/latest/"))
        .map(|(path, data)| (path.clone(), data.clone()))
        .collect();
    let record = world.records.get("/storage/build/latest/app-backend.json").cloned();
    for failing in ["pull", "cargo", "--build-info", "--list-secret-keys", "--encrypt"] {
        world.head = format!("{}\n", failing);
        world.failing_word = Some(failing.to_string());
        let (result, _) = run(&mut world, &config);
        assert_eq!(result, Err(BuildError::CommandFailed(Some(1))), "{}", failing);
        let now: Vec<(String, String)> = world
            .files
            .iter()
            .filter(|(path, _)| path.starts_with("/storage/build/latest/"))
            .map(|(path, data)| (path.clone(), data.clone()))
            .collect();
        assert_eq!(now, latest);
        assert_eq!(world.records.get("/storage/build/latest/app-backend.json").cloned(), record);
    }
}

#[test]
fn build_without_builder_section_fails_at_once() {
    let config = build_config(None, None, false);
    let mut world = world("abc\n");
    let (result, actions) = run(&mut world, &config);
    assert_eq!(result, Err(BuildError::SoftwareBuilderConfigMissing));
    assert_eq!(actions.len(), 1);
    assert!(BuildPaths::new(&config, SoftwareOptions::Backend).is_none());
    assert_eq!(
        BuildDirCreator::get_data(&config, SoftwareOptions::Backend, DownloadType::Info),
        Err(BuildError::SoftwareBuilderConfigMissing)
    );
}

#[test]
fn build_with_a_bad_key_path_fails_at_once() {
    for key in ["keys/backend.key", "/keys/backend key", "/keys/$(id)", "/keys/a;b", ""] {
        let config = build_config(Some(key), None, true);
        let mut world = world("abc\n");
        let (result, actions) = run(&mut world, &config);
        assert_eq!(result, Err(BuildError::InvalidKeyPath), "{:?}", key);
        assert_eq!(actions.len(), 1);
        assert!(world.commands.is_empty());
    }
}

#[test]
fn key_path_validation() {
    assert_eq!(validate_path("/home/app/.ssh/id_ed25519"), Ok(()));
    assert_eq!(validate_path("/A-Z_a.z/0-9"), Ok(()));
    assert_eq!(validate_path("/"), Ok(()));
    assert_eq!(validate_path("relative/key"), Err(BuildError::InvalidKeyPath));
    assert_eq!(validate_path("./key"), Err(BuildError::InvalidKeyPath));
    assert_eq!(validate_path(""), Err(BuildError::InvalidKeyPath));
    for bad in [' ', '\'', '"', '$', ';', '&', '|', '\\', '\n', '~', '*', 'é', '=', '@', '`'] {
        let path = format!("/keys/a{}b", bad);
        assert_eq!(validate_path(&path), Err(BuildError::InvalidKeyPath), "{:?}", path);
    }
}

#[test]
fn unaccepted_characters_are_listed() {
    assert_eq!(whitelist_chars("/keys/backend.key"), "");
    assert_eq!(whitelist_chars("/keys/a b;c$"), " ;$");
    assert_eq!(whitelist_chars("é/ü"), "éü");
    assert_eq!(whitelist_chars(""), "");
}

#[test]
fn build_directory_names() {
    assert_eq!(BuildDirCreator::build_dir("/storage"), "/storage/build");
    assert_eq!(BuildDirCreator::history_dir("/storage"), "/storage/build/history");
    assert_eq!(BuildDirCreator::latest_dir("/storage/"), "/storage/build/latest");
    assert_eq!(BuildDirCreator::encrypted_binary_name("app"), "app.gpg");
    assert_eq!(BuildDirCreator::build_info_json_name("app"), "app.json");
}

#[test]
fn build_requests() {
    assert_eq!(
        BuildManagerMessage::build_request(SoftwareOptions::Manager),
        BuildManagerMessage::BuildNewManagerVersion
    );
    assert_eq!(
        BuildManagerMessage::build_request(SoftwareOptions::Backend),
        BuildManagerMessage::BuildNewBackendVersion
    );
}

#[test]
fn unreadable_output_and_failed_copies_give_their_errors() {
    let config = build_config(None, None, true);
    let mut manager = BuildManager::handle_message(BuildManagerMessage::BuildNewManagerVersion, &config);
    assert_eq!(manager.software_options(), SoftwareOptions::Manager);
    assert_eq!(manager.step(Outcome::Succeeded), BuildAction::CheckRepository);
    assert_eq!(manager.step(Outcome::Exists(true)), BuildAction::GitPull);
    assert_eq!(manager.step(Outcome::Succeeded), BuildAction::EnsureLatestDir);
    assert_eq!(manager.step(Outcome::Succeeded), BuildAction::LookForLatestInfo);
    assert_eq!(manager.step(Outcome::Exists(true)), BuildAction::ReadLatestInfo);
    assert_eq!(
        manager.step(Outcome::Invalid),
        BuildAction::Finish(Err(BuildError::InvalidInput))
    );

    let mut manager = BuildManager::handle_message(BuildManagerMessage::BuildNewManagerVersion, &config);
    manager.step(Outcome::Succeeded);
    manager.step(Outcome::Exists(true));
    assert_eq!(
        manager.step(Outcome::SpawnFailed),
        BuildAction::Finish(Err(BuildError::ProcessWaitFailed))
    );

    let mut manager = BuildManager::handle_message(BuildManagerMessage::BuildNewManagerVersion, &config);
    manager.step(Outcome::Succeeded);
    manager.step(Outcome::Exists(true));
    manager.step(Outcome::Succeeded);
    manager.step(Outcome::Succeeded);
    assert_eq!(manager.step(Outcome::Exists(false)), BuildAction::ReadHeadCommit);
    assert_eq!(
        manager.step(Outcome::Invalid),
        BuildAction::Finish(Err(BuildError::InvalidOutput))
    );

    let mut manager = BuildManager::handle_message(BuildManagerMessage::BuildNewManagerVersion, &config);
    manager.step(Outcome::Succeeded);
    manager.step(Outcome::Exists(true));
    manager.step(Outcome::Succeeded);
    manager.step(Outcome::Succeeded);
    manager.step(Outcome::Exists(false));
    assert_eq!(manager.step(Outcome::Text("abc".to_string())), BuildAction::CargoBuild);
    assert_eq!(manager.step(Outcome::Succeeded), BuildAction::ReadBinaryBuildInfo);
    assert_eq!(manager.step(Outcome::Text("bi".to_string())), BuildAction::ReadClock);
    assert_eq!(manager.step(Outcome::Text("T".to_string())), BuildAction::EnsureHistoryDir);
    assert_eq!(manager.step(Outcome::Succeeded), BuildAction::CreateArchiveDir);
    assert_eq!(manager.step(Outcome::Succeeded), BuildAction::ArchiveBinary);
    assert_eq!(
        manager.step(Outcome::Failed),
        BuildAction::Finish(Err(BuildError::FileCopyingFailed))
    );
    let record = manager.record();
    assert_eq!(record.name, "manager");
    assert_eq!(record.timestamp, "T");
    assert_eq!(record.build_info, "bi");
}
