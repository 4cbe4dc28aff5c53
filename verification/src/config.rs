//! The configuration as the managers read it, and the rules that decide
//! whether a configuration that was loaded can be used.

use crate::operation::{join_path, spec_join_path, texts};
use crate::text::{chars_of, concat, parse_u8, spec_parse_u8, string_of_prefix, trim_text, trimmed};
use vstd::prelude::*;

verus! {

pub const CONFIG_FILE_NAME: &'static str = "manager_config.toml";

#[derive(Clone, Copy, Debug, PartialEq, Eq, Structural)]
pub enum GetConfigError {
    GetWorkingDir,
    LoadFileError,
    LoadConfig,
    /// TLS config is required when debug mode is off
    TlsConfigMissing,
    CreateTlsConfig,
    EncryptionKeyLoadingFailed,
    ScriptLocationError,
}

impl GetConfigError {
    /// The text of the error.
    pub fn message(&self) -> (r: &'static str)
        ensures
            r@ == (match *self {
                GetConfigError::GetWorkingDir => "Get working directory error"@,
                GetConfigError::LoadFileError => "File loading failed"@,
                GetConfigError::LoadConfig => "Load config file"@,
                GetConfigError::TlsConfigMissing => "TLS config is required when debug mode is off"@,
                GetConfigError::CreateTlsConfig => "TLS config creation error"@,
                GetConfigError::EncryptionKeyLoadingFailed => "Encryption key loading failed"@,
                GetConfigError::ScriptLocationError => "Missing script"@,
            }),
    {
        match self {
            GetConfigError::GetWorkingDir => "Get working directory error",
            GetConfigError::LoadFileError => "File loading failed",
            GetConfigError::LoadConfig => "Load config file",
            GetConfigError::TlsConfigMissing => "TLS config is required when debug mode is off",
            GetConfigError::CreateTlsConfig => "TLS config creation error",
            GetConfigError::EncryptionKeyLoadingFailed => "Encryption key loading failed",
            GetConfigError::ScriptLocationError => "Missing script",
        }
    }
}

#[derive(Clone, Copy, Debug, PartialEq, Eq, Structural)]
pub enum ConfigFileError {
    SaveDefault,
    NotDirectory,
    LoadConfig,
}

impl ConfigFileError {
    /// The text of the error.
    pub fn message(&self) -> (r: &'static str)
        ensures
            r@ == (match *self {
                ConfigFileError::SaveDefault => "Save default"@,
                ConfigFileError::NotDirectory => "Not a directory"@,
                ConfigFileError::LoadConfig => "Load config file"@,
            }),
    {
        match self {
            ConfigFileError::SaveDefault => "Save default",
            ConfigFileError::NotDirectory => "Not a directory",
            ConfigFileError::LoadConfig => "Load config file",
        }
    }
}

/// Where the API listens.
#[derive(Debug)]
pub struct SocketConfig {
    /// Address and port of the public API.
    pub public_api: String,
    /// Port of a second, plain-text listener on the loopback address.
    pub second_public_api_localhost_only_port: Option<u16>,
}

#[derive(Debug)]
pub struct TlsConfig {
    pub public_api_cert: String,
    pub public_api_key: String,
    /// Root certificate for HTTP client for checking API calls.
    pub root_certificate: String,
}

#[derive(Debug)]
pub struct ServerEncryptionKey {
    pub name: String,
    pub key_path: String,
}

#[derive(Debug)]
pub struct SecureStorageConfig {
    /// Url to app-manager instance used for requesting an encryption
    /// key for secure storage.
    pub manager_base_url: String,
    /// Name of key which will be requested from the manager
    /// instance.
    pub encryption_key_name: String,
    /// Path to file or directory which is used to
    /// check if the secure storage is mounted or not.
    pub availability_check_path: String,
    /// Optional. If the manager instance is not available, this key
    /// will be used for opening the encryption.
    /// Should not be used in production.
    pub encryption_key_text: Option<String>,
    /// Optional. How long a request for the key may take.
    pub key_download_timeout_seconds: Option<u32>,
}

#[derive(Debug)]
pub struct SoftwareUpdateProviderConfig {
    /// Manager instance URL which is used to
    /// check if new software is available.
    pub manager_base_url: String,
    /// The public key that built binaries are signed with. Import this key to GPG.
    pub binary_signing_public_key: String,
    pub manager_install_location: String,
    pub backend_install_location: String,
    /// Optional. Enableds data reset support for backend. This
    /// directory will be moved next to where it was with postfix
    /// "-old" when backend is updated. If there is already a directory
    /// with that name, it will be deleted.
    pub backend_data_reset_dir: Option<String>,
}

#[derive(Debug)]
pub struct SoftwareBuilderConfig {
    /// Optional SSH key address for downloading the software.
    pub manager_download_key_path: Option<String>,
    pub manager_download_git_address: String,
    pub manager_branch: String,
    pub manager_binary: String,
    /// Optional. Working dir of the script is repository root.
    pub manager_pre_build_script: Option<String>,
    /// Optional SSH key address for downloading the software.
    pub backend_download_key_path: Option<String>,
    pub backend_download_git_address: String,
    pub backend_branch: String,
    pub backend_binary: String,
    /// Optional. Working dir of the script is repository root.
    pub backend_pre_build_script: Option<String>,
}

/// Why a text is no time of day.
#[derive(Clone, Copy, Debug, PartialEq, Eq, Structural)]
pub enum TimeValueError {
    /// The text is not two values with one colon between them.
    UnknownValues,
    /// What stands before the colon is no number of hours.
    InvalidHours,
    /// What stands behind the colon is no number of minutes.
    InvalidMinutes,
}

/// A time of day as the configuration writes it.
#[derive(Clone, Copy, Debug, PartialEq, Eq, Structural)]
pub struct TimeValue {
    pub hours: u8,
    pub minutes: u8,
}

/// Whether the character at `i` is the one and only colon of `t`.
pub open spec fn is_only_colon(t: Seq<char>, i: int) -> bool {
    &&& 0 <= i < t.len()
    &&& t[i] == ':'
    &&& forall|j: int| 0 <= j < t.len() && j != i ==> t[j] != ':'
}

impl TimeValue {
    /// What the text `value` says, read as `hh:mm` with white space around it
    /// ignored: exactly one colon, a number before it and a number behind it,
    /// each as `u8::from_str` reads it.
    pub open spec fn parsed(value: Seq<char>) -> Result<TimeValue, TimeValueError> {
        Self::parsed_trimmed(trimmed(value))
    }

    /// What the text `t` says, read as `hh:mm` with nothing around it.
    pub open spec fn parsed_trimmed(t: Seq<char>) -> Result<TimeValue, TimeValueError> {
        if exists|i: int| is_only_colon(t, i) {
            let i = choose|i: int| is_only_colon(t, i);
            match spec_parse_u8(t.take(i)) {
                None => Err(TimeValueError::InvalidHours),
                Some(hours) => match spec_parse_u8(t.skip(i + 1)) {
                    None => Err(TimeValueError::InvalidMinutes),
                    Some(minutes) => Ok(TimeValue { hours, minutes }),
                },
            }
        } else {
            Err(TimeValueError::UnknownValues)
        }
    }

    /// Reads a time of day written as `hh:mm`.
    pub fn parse(value: &str) -> (r: Result<TimeValue, TimeValueError>)
        ensures
            r == TimeValue::parsed(value@),
    {
        let t = trim_text(value);
        Self::parse_trimmed(t.as_str())
    }

    /// Reads a time of day written as `hh:mm`, with nothing around it.
    pub fn parse_trimmed(text: &str) -> (r: Result<TimeValue, TimeValueError>)
        ensures
            r == TimeValue::parsed_trimmed(text@),
    {
        let chars = chars_of(text);
        let mut colons: u8 = 0;
        let mut first: usize = 0;
        let ghost mut second: int = 0;
        let mut i: usize = 0;
        while i < chars.len()
            invariant
                i <= chars.len(),
                colons <= 2,
                colons == 0 ==> forall|j: int| 0 <= j < i ==> chars@[j] != ':',
                colons == 1 ==> first < i && chars@[first as int] == ':' && forall|j: int|
                    0 <= j < i && j != first ==> chars@[j] != ':',
                colons == 2 ==> first < second < i && chars@[first as int] == ':'
                    && chars@[second] == ':',
            decreases chars.len() - i,
        {
            if chars[i] == ':' {
                if colons == 0 {
                    first = i;
                    colons = 1;
                } else if colons == 1 {
                    proof {
                        second = i as int;
                    }
                    colons = 2;
                }
            }
            i = i + 1;
        }
        if colons != 1 {
            proof {
                assert forall|k: int| !is_only_colon(chars@, k) by {
                    if colons == 2 && is_only_colon(chars@, k) {
                        assert(k == first || k == second);
                    }
                }
            }
            return Err(TimeValueError::UnknownValues);
        }
        proof {
            assert(is_only_colon(chars@, first as int));
            let k = choose|k: int| is_only_colon(chars@, k);
            assert(k == first);
        }
        let hours_text = string_of_prefix(&chars, first);
        let mut rest: Vec<char> = Vec::new();
        let mut j: usize = first + 1;
        while j < chars.len()
            invariant
                first + 1 <= j <= chars.len(),
                rest@ == chars@.subrange(first + 1, j as int),
            decreases chars.len() - j,
        {
            rest.push(chars[j]);
            assert(chars@.subrange(first + 1, j + 1) == chars@.subrange(first + 1, j as int).push(
                chars@[j as int],
            ));
            j = j + 1;
        }
        assert(rest@ == chars@.skip(first + 1));
        let minutes_text = string_of_prefix(&rest, rest.len());
        assert(rest@.take(rest@.len() as int) == rest@);
        match parse_u8(hours_text.as_str()) {
            None => Err(TimeValueError::InvalidHours),
            Some(hours) => match parse_u8(minutes_text.as_str()) {
                None => Err(TimeValueError::InvalidMinutes),
                Some(minutes) => Ok(TimeValue { hours, minutes }),
            },
        }
    }
}

#[derive(Clone, Copy, Debug)]
pub struct RebootIfNeededConfig {
    /// Time when reboot should be done. Format "hh:mm". For example "12:00".
    pub time: TimeValue,
}

#[derive(Debug)]
pub struct ManagerInstance {
    pub name: String,
    pub manager_base_url: String,
}

#[derive(Debug)]
pub struct SystemInfoConfig {
    pub log_services: Vec<String>,
    pub remote_managers: Option<Vec<ManagerInstance>>,
}

/// The configuration file, read into plain values.
#[derive(Debug)]
pub struct ConfigFile {
    pub debug: Option<bool>,
    /// API key for manager API. All managers instances must use the same key.
    ///
    /// If the key is wrong the API access is denied untill manager is restarted.
    pub api_key: String,
    /// Directory for build and update files.
    pub storage_dir: String,
    pub scripts_dir: String,
    pub socket: SocketConfig,
    pub server_encryption_keys: Option<Vec<ServerEncryptionKey>>,
    pub secure_storage: Option<SecureStorageConfig>,
    pub reboot_if_needed: Option<RebootIfNeededConfig>,
    pub software_update_provider: Option<SoftwareUpdateProviderConfig>,
    pub software_builder: Option<SoftwareBuilderConfig>,
    pub system_info: Option<SystemInfoConfig>,
    /// TLS is required if debug setting is false.
    pub tls: Option<TlsConfig>,
}

impl ConfigFile {
    /// Where the configuration file of the directory `dir` is.
    pub fn default_config_file_path(dir: &str) -> (r: String)
        ensures
            r@ == spec_join_path(dir@, CONFIG_FILE_NAME@),
    {
        join_path(dir, CONFIG_FILE_NAME)
    }
}

/// The seven scripts that the supervisor runs.
#[derive(Debug)]
pub struct ScriptLocations {
    pub open_encryption: String,
    pub close_encryption: String,
    pub is_default_encryption_password: String,
    pub change_encryption_password: String,
    pub start_backend: String,
    pub stop_backend: String,
    pub print_logs: String,
}

/// Which of the seven scripts were found.
#[derive(Clone, Copy, Debug)]
pub struct ScriptsFound {
    pub open_encryption: bool,
    pub close_encryption: bool,
    pub is_default_encryption_password: bool,
    pub change_encryption_password: bool,
    pub start_backend: bool,
    pub stop_backend: bool,
    pub print_logs: bool,
}

impl ScriptsFound {
    /// Whether no script is missing.
    pub open spec fn all(self) -> bool {
        self.open_encryption && self.close_encryption && self.is_default_encryption_password
            && self.change_encryption_password && self.start_backend && self.stop_backend
            && self.print_logs
    }
}

/// The line that reports a missing script.
pub open spec fn missing_line(path: Seq<char>) -> Seq<char> {
    "Script not found: "@ + path
}

/// `lines`, and behind them the report on `path` unless it was found.
pub open spec fn with_missing(lines: Seq<Seq<char>>, found: bool, path: Seq<char>) -> Seq<
    Seq<char>,
> {
    if found {
        lines
    } else {
        lines.push(missing_line(path))
    }
}

fn note_missing(lines: &mut Vec<String>, found: bool, path: &str)
    ensures
        texts(final(lines)@) == with_missing(texts(old(lines)@), found, path@),
{
    if !found {
        lines.push(concat("Script not found: ", path));
        assert(texts(lines@) =~= texts(old(lines)@).push(missing_line(path@)));
    }
}

impl ScriptLocations {
    /// The scripts of the directory `dir`, each under its fixed name.
    pub open spec fn located(self, dir: Seq<char>) -> bool {
        &&& self.open_encryption@ == spec_join_path(dir, "open-encryption.sh"@)
        &&& self.close_encryption@ == spec_join_path(dir, "close-encryption.sh"@)
        &&& self.is_default_encryption_password@ == spec_join_path(
            dir,
            "is-default-encryption-password.sh"@,
        )
        &&& self.change_encryption_password@ == spec_join_path(
            dir,
            "change-encryption-password.sh"@,
        )
        &&& self.start_backend@ == spec_join_path(dir, "start-backend.sh"@)
        &&& self.stop_backend@ == spec_join_path(dir, "stop-backend.sh"@)
        &&& self.print_logs@ == spec_join_path(dir, "print-logs.sh"@)
    }

    /// The reports on the scripts that were not found, in the scripts' order.
    pub open spec fn missing(self, found: ScriptsFound) -> Seq<Seq<char>> {
        let l0 = with_missing(Seq::empty(), found.open_encryption, self.open_encryption@);
        let l1 = with_missing(l0, found.close_encryption, self.close_encryption@);
        let l2 = with_missing(
            l1,
            found.is_default_encryption_password,
            self.is_default_encryption_password@,
        );
        let l3 = with_missing(
            l2,
            found.change_encryption_password,
            self.change_encryption_password@,
        );
        let l4 = with_missing(l3, found.start_backend, self.start_backend@);
        let l5 = with_missing(l4, found.stop_backend, self.stop_backend@);
        with_missing(l5, found.print_logs, self.print_logs@)
    }

    /// The locations of the seven scripts in `script_dir`.
    pub fn in_dir(script_dir: &str) -> (r: ScriptLocations)
        ensures
            r.located(script_dir@),
    {
        ScriptLocations {
            open_encryption: join_path(script_dir, "open-encryption.sh"),
            close_encryption: join_path(script_dir, "close-encryption.sh"),
            is_default_encryption_password: join_path(
                script_dir,
                "is-default-encryption-password.sh",
            ),
            change_encryption_password: join_path(script_dir, "change-encryption-password.sh"),
            start_backend: join_path(script_dir, "start-backend.sh"),
            stop_backend: join_path(script_dir, "stop-backend.sh"),
            print_logs: join_path(script_dir, "print-logs.sh"),
        }
    }

    /// One line for each script that was not found.
    pub fn missing_scripts(&self, found: &ScriptsFound) -> (r: Vec<String>)
        ensures
            texts(r@) == self.missing(*found),
            r@.len() == 0 <==> found.all(),
    {
        let mut lines: Vec<String> = Vec::new();
        assert(texts(lines@) =~= Seq::<Seq<char>>::empty());
        note_missing(&mut lines, found.open_encryption, self.open_encryption.as_str());
        note_missing(&mut lines, found.close_encryption, self.close_encryption.as_str());
        note_missing(
            &mut lines,
            found.is_default_encryption_password,
            self.is_default_encryption_password.as_str(),
        );
        note_missing(
            &mut lines,
            found.change_encryption_password,
            self.change_encryption_password.as_str(),
        );
        note_missing(&mut lines, found.start_backend, self.start_backend.as_str());
        note_missing(&mut lines, found.stop_backend, self.stop_backend.as_str());
        note_missing(&mut lines, found.print_logs, self.print_logs.as_str());
        proof {
            assert(texts(lines@).len() == lines@.len());
        }
        lines
    }

    pub fn open_encryption(&self) -> (r: &str)
        ensures
            r@ == self.open_encryption@,
    {
        self.open_encryption.as_str()
    }

    pub fn close_encryption(&self) -> (r: &str)
        ensures
            r@ == self.close_encryption@,
    {
        self.close_encryption.as_str()
    }

    pub fn is_default_encryption_password(&self) -> (r: &str)
        ensures
            r@ == self.is_default_encryption_password@,
    {
        self.is_default_encryption_password.as_str()
    }

    pub fn change_encryption_password(&self) -> (r: &str)
        ensures
            r@ == self.change_encryption_password@,
    {
        self.change_encryption_password.as_str()
    }

    pub fn start_backend(&self) -> (r: &str)
        ensures
            r@ == self.start_backend@,
    {
        self.start_backend.as_str()
    }

    pub fn stop_backend(&self) -> (r: &str)
        ensures
            r@ == self.stop_backend@,
    {
        self.stop_backend.as_str()
    }

    pub fn print_logs(&self) -> (r: &str)
        ensures
            r@ == self.print_logs@,
    {
        self.print_logs.as_str()
    }
}

/// Locates the seven scripts in `script_dir` and decides whether the
/// supervisor may start with the ones that were found: with all of them, or,
/// in debug mode, with any.
pub fn check_script_locations(script_dir: &str, found: &ScriptsFound, is_debug: bool) -> (r: Result<
    ScriptLocations,
    GetConfigError,
>)
    ensures
        r is Ok <==> (found.all() || is_debug),
        r is Ok ==> r->Ok_0.located(script_dir@),
        r is Err ==> r->Err_0 == GetConfigError::ScriptLocationError,
{
    let locations = ScriptLocations::in_dir(script_dir);
    let errors = locations.missing_scripts(found);
    if errors.len() == 0 || is_debug {
        Ok(locations)
    } else {
        Err(GetConfigError::ScriptLocationError)
    }
}

/// The byte strings of a list of byte vectors.
pub open spec fn byte_sections(list: Seq<Vec<u8>>) -> Seq<Seq<u8>> {
    list.map_values(|v: Vec<u8>| v@)
}

/// The DER contents of the certificate sections of a PEM text, in the text's
/// order; `None` for a text that has a broken section.
pub uninterp spec fn pem_certificates(pem: Seq<u8>) -> Option<Seq<Seq<u8>>>;

/// The DER contents of the RSA private key sections of a PEM text, in the
/// text's order; `None` for a text that has a broken section.
pub uninterp spec fn pem_rsa_private_keys(pem: Seq<u8>) -> Option<Seq<Seq<u8>>>;

/// `rustls_pemfile::certs` on a text in memory: the result is named by
/// [`pem_certificates`].
#[verifier::external_body]
fn read_pem_certificates(pem: &[u8]) -> (r: Option<Vec<Vec<u8>>>)
    ensures
        r is Some == pem_certificates(pem@) is Some,
        r is Some ==> byte_sections(r->0@) == pem_certificates(pem@)->0,
{
    let mut reader = pem;
    rustls_pemfile::certs(&mut reader).ok()
}

/// `rustls_pemfile::rsa_private_keys` on a text in memory: the result is
/// named by [`pem_rsa_private_keys`].
#[verifier::external_body]
fn read_pem_rsa_private_keys(pem: &[u8]) -> (r: Option<Vec<Vec<u8>>>)
    ensures
        r is Some == pem_rsa_private_keys(pem@) is Some,
        r is Some ==> byte_sections(r->0@) == pem_rsa_private_keys(pem@)->0,
{
    let mut reader = pem;
    rustls_pemfile::rsa_private_keys(&mut reader).ok()
}

/// What a PEM text with exactly one section of the wanted kind yields.
pub open spec fn single_section(sections: Option<Seq<Seq<u8>>>) -> Result<Seq<u8>, GetConfigError> {
    match sections {
        Some(list) => if list.len() == 1 {
            Ok(list[0])
        } else {
            Err(GetConfigError::CreateTlsConfig)
        },
        None => Err(GetConfigError::CreateTlsConfig),
    }
}

/// The one section of `sections`; an error if there is none, or more than
/// one, or if the text could not be read.
pub fn only_section(sections: Option<Vec<Vec<u8>>>) -> (r: Result<Vec<u8>, GetConfigError>)
    ensures
        r is Ok <==> (sections is Some && sections->0@.len() == 1),
        r is Ok ==> r->Ok_0@ == sections->0@[0]@,
        r is Err ==> r->Err_0 == GetConfigError::CreateTlsConfig,
{
    match sections {
        Some(mut list) => {
            if list.len() == 1 {
                match list.pop() {
                    Some(section) => Ok(section),
                    None => Err(GetConfigError::CreateTlsConfig),
                }
            } else {
                Err(GetConfigError::CreateTlsConfig)
            }
        },
        None => Err(GetConfigError::CreateTlsConfig),
    }
}

/// The certificate that peers are checked against: the DER contents of the
/// one certificate of the PEM text.
pub fn load_root_certificate(pem: &[u8]) -> (r: Result<Vec<u8>, GetConfigError>)
    ensures
        r is Ok <==> single_section(pem_certificates(pem@)) is Ok,
        r is Ok ==> r->Ok_0@ == single_section(pem_certificates(pem@))->Ok_0,
        r is Err ==> r->Err_0 == GetConfigError::CreateTlsConfig,
{
    let sections = read_pem_certificates(pem);
    proof {
        if sections is Some {
            assert(byte_sections(sections->0@).len() == sections->0@.len());
            if sections->0@.len() == 1 {
                assert(byte_sections(sections->0@)[0] == sections->0@[0]@);
            }
        }
    }
    only_section(sections)
}

/// The key and the certificate that the API presents.
#[derive(Debug)]
pub struct ServerIdentity {
    /// DER contents of the private key.
    pub key: Vec<u8>,
    /// DER contents of the certificate.
    pub certificate: Vec<u8>,
}

/// The identity of the API: the one RSA private key of `key_pem` and the one
/// certificate of `cert_pem`.
pub fn generate_server_config(key_pem: &[u8], cert_pem: &[u8]) -> (r: Result<
    ServerIdentity,
    GetConfigError,
>)
    ensures
        r is Ok <==> (single_section(pem_rsa_private_keys(key_pem@)) is Ok && single_section(
            pem_certificates(cert_pem@),
        ) is Ok),
        r is Ok ==> r->Ok_0.key@ == single_section(pem_rsa_private_keys(key_pem@))->Ok_0
            && r->Ok_0.certificate@ == single_section(pem_certificates(cert_pem@))->Ok_0,
        r is Err ==> r->Err_0 == GetConfigError::CreateTlsConfig,
{
    let keys = read_pem_rsa_private_keys(key_pem);
    let certificates = read_pem_certificates(cert_pem);
    proof {
        if keys is Some {
            assert(byte_sections(keys->0@).len() == keys->0@.len());
            if keys->0@.len() == 1 {
                assert(byte_sections(keys->0@)[0] == keys->0@[0]@);
            }
        }
        if certificates is Some {
            assert(byte_sections(certificates->0@).len() == certificates->0@.len());
            if certificates->0@.len() == 1 {
                assert(byte_sections(certificates->0@)[0] == certificates->0@[0]@);
            }
        }
    }
    server_identity(keys, certificates)
}

/// The identity made of the one key among `keys` and the one certificate
/// among `certificates`; an error unless there is exactly one of each.
pub fn server_identity(keys: Option<Vec<Vec<u8>>>, certificates: Option<Vec<Vec<u8>>>) -> (r: Result<
    ServerIdentity,
    GetConfigError,
>)
    ensures
        r is Ok <==> (keys is Some && keys->0@.len() == 1 && certificates is Some
            && certificates->0@.len() == 1),
        r is Ok ==> r->Ok_0.key@ == keys->0@[0]@ && r->Ok_0.certificate@ == certificates->0@[0]@,
        r is Err ==> r->Err_0 == GetConfigError::CreateTlsConfig,
{
    let key = match only_section(keys) {
        Ok(key) => key,
        Err(e) => {
            return Err(e);
        },
    };
    let certificate = match only_section(certificates) {
        Ok(certificate) => certificate,
        Err(e) => {
            return Err(e);
        },
    };
    Ok(ServerIdentity { key, certificate })
}

/// The configuration that the supervisor runs with.
#[derive(Debug)]
pub struct Config {
    file: ConfigFile,
    script_locations: ScriptLocations,
}

impl Config {
    /// Whether the configuration asks for debug mode.
    pub open spec fn spec_debug_mode(file: ConfigFile) -> bool {
        file.debug == Some(true)
    }

    /// The configuration that was loaded.
    pub closed spec fn file(&self) -> ConfigFile {
        self.file
    }

    /// The scripts that were located.
    pub closed spec fn scripts(&self) -> ScriptLocations {
        self.script_locations
    }

    pub fn socket(&self) -> (r: &SocketConfig)
        ensures
            *r == self.file().socket,
    {
        &self.file.socket
    }

    /// Server should run in debug mode.
    ///
    /// Debug mode changes:
    /// * Swagger UI is enabled.
    /// * Disabling HTTPS is possbile.
    /// * Checking available scripts is disabled.
    pub fn debug_mode(&self) -> (r: bool)
        ensures
            r == Self::spec_debug_mode(self.file()),
    {
        match self.file.debug {
            Some(debug) => debug,
            None => false,
        }
    }

    /// The keys that this node hands out; none where none are configured.
    pub fn encryption_keys(&self) -> (r: &[ServerEncryptionKey])
        ensures
            r@ == (match self.file().server_encryption_keys {
                Some(keys) => keys@,
                None => Seq::<ServerEncryptionKey>::empty(),
            }),
    {
        match &self.file.server_encryption_keys {
            Some(keys) => keys.as_slice(),
            None => &[],
        }
    }

    pub fn secure_storage_config(&self) -> (r: Option<&SecureStorageConfig>)
        ensures
            r is Some == self.file().secure_storage is Some,
            r is Some ==> *r->0 == self.file().secure_storage->0,
    {
        self.file.secure_storage.as_ref()
    }

    pub fn software_update_provider(&self) -> (r: Option<&SoftwareUpdateProviderConfig>)
        ensures
            r is Some == self.file().software_update_provider is Some,
            r is Some ==> *r->0 == self.file().software_update_provider->0,
    {
        self.file.software_update_provider.as_ref()
    }

    pub fn software_builder(&self) -> (r: Option<&SoftwareBuilderConfig>)
        ensures
            r is Some == self.file().software_builder is Some,
            r is Some ==> *r->0 == self.file().software_builder->0,
    {
        self.file.software_builder.as_ref()
    }

    pub fn api_key(&self) -> (r: &str)
        ensures
            r@ == self.file().api_key@,
    {
        self.file.api_key.as_str()
    }

    pub fn script_locations(&self) -> (r: &ScriptLocations)
        ensures
            *r == self.scripts(),
    {
        &self.script_locations
    }

    pub fn system_info(&self) -> (r: Option<&SystemInfoConfig>)
        ensures
            r is Some == self.file().system_info is Some,
            r is Some ==> *r->0 == self.file().system_info->0,
    {
        self.file.system_info.as_ref()
    }

    pub fn storage_dir(&self) -> (r: &str)
        ensures
            r@ == self.file().storage_dir@,
    {
        self.file.storage_dir.as_str()
    }

    pub fn reboot_if_needed(&self) -> (r: &Option<RebootIfNeededConfig>)
        ensures
            *r == self.file().reboot_if_needed,
    {
        &self.file.reboot_if_needed
    }

    pub fn tls(&self) -> (r: Option<&TlsConfig>)
        ensures
            r is Some == self.file().tls is Some,
            r is Some ==> *r->0 == self.file().tls->0,
    {
        self.file.tls.as_ref()
    }
}

/// Decides whether the supervisor may start with the configuration that was
/// loaded. Outside debug mode TLS must be configured and all seven scripts
/// must have been found, and a missing TLS configuration is reported first.
pub fn get_config(file: ConfigFile, found: &ScriptsFound) -> (r: Result<Config, GetConfigError>)
    ensures
        r is Ok <==> ((file.tls is Some && found.all()) || Config::spec_debug_mode(file)),
        r is Ok ==> r->Ok_0.file() == file && r->Ok_0.scripts().located(file.scripts_dir@),
        r is Err ==> r->Err_0 == (if file.tls is None {
            GetConfigError::TlsConfigMissing
        } else {
            GetConfigError::ScriptLocationError
        }),
{
    let debug = match file.debug {
        Some(debug) => debug,
        None => false,
    };
    if file.tls.is_none() && !debug {
        return Err(GetConfigError::TlsConfigMissing);
    }
    match check_script_locations(file.scripts_dir.as_str(), found, debug) {
        Ok(script_locations) => Ok(Config { file, script_locations }),
        Err(e) => Err(e),
    }
}

} // verus!
