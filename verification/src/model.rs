//! The values that the managers and the control API exchange.

use crate::text::str_eq;
use vstd::prelude::*;
use vstd::std_specs::cmp::PartialEqSpecImpl;

verus! {

/// Name of the supervisor's own repository, and of its build and update files.
pub const MANAGER_REPOSITORY_NAME: &'static str = "manager";

/// Name of the backend's repository, and of its build and update files.
pub const BACKEND_REPOSITORY_NAME: &'static str = "backend";

/// A key that opens the encrypted storage of some node.
#[derive(Debug)]
pub struct DataEncryptionKey {
    /// Base64 key
    pub key: String,
}

impl View for DataEncryptionKey {
    type V = Seq<char>;

    open spec fn view(&self) -> Seq<char> {
        self.key@
    }
}

impl Clone for DataEncryptionKey {
    fn clone(&self) -> (r: Self)
        ensures
            r@ == self@,
    {
        DataEncryptionKey { key: self.key.clone() }
    }
}

/// The name under which a node asks for its key.
#[derive(Debug)]
pub struct ServerNameText {
    pub server: String,
}

/// Which of the two managed binaries is meant.
#[derive(Clone, Copy, Debug, PartialEq, Eq, Structural)]
pub enum SoftwareOptions {
    Manager,
    Backend,
}

impl SoftwareOptions {
    /// The fixed name of the software: `manager` or `backend`.
    pub open spec fn name(self) -> Seq<char> {
        match self {
            SoftwareOptions::Manager => MANAGER_REPOSITORY_NAME@,
            SoftwareOptions::Backend => BACKEND_REPOSITORY_NAME@,
        }
    }

    /// The software that goes by `name`, if any.
    pub open spec fn named(name: Seq<char>) -> Option<SoftwareOptions> {
        if name == BACKEND_REPOSITORY_NAME@ {
            Some(SoftwareOptions::Backend)
        } else if name == MANAGER_REPOSITORY_NAME@ {
            Some(SoftwareOptions::Manager)
        } else {
            None
        }
    }

    pub fn to_str(&self) -> (r: &'static str)
        ensures
            r@ == self.name(),
    {
        match self {
            SoftwareOptions::Manager => MANAGER_REPOSITORY_NAME,
            SoftwareOptions::Backend => BACKEND_REPOSITORY_NAME,
        }
    }

    /// The software whose name is `value`; an error for any other text.
    pub fn from_name(value: &str) -> (r: Result<SoftwareOptions, ()>)
        ensures
            r == (match SoftwareOptions::named(value@) {
                Some(s) => Ok::<SoftwareOptions, ()>(s),
                None => Err::<SoftwareOptions, ()>(()),
            }),
    {
        if str_eq(value, BACKEND_REPOSITORY_NAME) {
            Ok(SoftwareOptions::Backend)
        } else if str_eq(value, MANAGER_REPOSITORY_NAME) {
            Ok(SoftwareOptions::Manager)
        } else {
            Err(())
        }
    }
}

/// The two names are different texts, so a name stands for one software only.
pub proof fn lemma_names_differ()
    ensures
        MANAGER_REPOSITORY_NAME@ != BACKEND_REPOSITORY_NAME@,
        forall|s: SoftwareOptions| SoftwareOptions::named(s.name()) == Some(s),
{
    reveal_strlit("manager");
    reveal_strlit("backend");
    assert(MANAGER_REPOSITORY_NAME@[0] == 'm');
    assert(BACKEND_REPOSITORY_NAME@[0] == 'b');
}

#[derive(Clone, Copy, Debug)]
pub struct SoftwareOptionsQueryParam {
    pub software_options: SoftwareOptions,
}

/// What a download request asks for.
#[derive(Clone, Copy, Debug, PartialEq, Eq, Structural)]
pub enum DownloadType {
    /// HTTP GET returns BuildInfo JSON.
    Info,
    /// HTTP GET returns encrypted binary.
    EncryptedBinary,
}

impl DownloadType {
    /// The word that stands for the download type in a query.
    pub open spec fn word(self) -> Seq<char> {
        match self {
            DownloadType::Info => "Info"@,
            DownloadType::EncryptedBinary => "EncryptedBinary"@,
        }
    }

    pub fn to_string(&self) -> (r: String)
        ensures
            r@ == self.word(),
    {
        match self {
            DownloadType::Info => String::from_str("Info"),
            DownloadType::EncryptedBinary => String::from_str("EncryptedBinary"),
        }
    }
}

impl Default for DownloadType {
    fn default() -> (r: DownloadType)
        ensures
            r == DownloadType::Info,
    {
        DownloadType::Info
    }
}

#[derive(Clone, Copy, Debug)]
pub struct DownloadTypeQueryParam {
    pub download_type: DownloadType,
}

/// Reboot computer directly after software update.
#[derive(Clone, Copy, Debug, PartialEq, Eq, Structural)]
pub struct RebootQueryParam {
    pub reboot: bool,
}

impl RebootQueryParam {
    pub fn new(reboot: bool) -> (r: RebootQueryParam)
        ensures
            r.reboot == reboot,
    {
        RebootQueryParam { reboot }
    }
}

/// Reset data related to some software.
#[derive(Clone, Copy, Debug, PartialEq, Eq, Structural)]
pub struct ResetDataQueryParam {
    pub reset_data: bool,
}

/// The record that identifies a built artifact.
#[derive(Debug)]
pub struct BuildInfo {
    pub commit_sha: String,
    pub name: String,
    pub timestamp: String,
    /// Build info output from the built binary.
    ///
    /// Binary must support --build-info command line argument.
    pub build_info: String,
}

/// The four texts of a [`BuildInfo`].
pub struct BuildInfoView {
    pub commit_sha: Seq<char>,
    pub name: Seq<char>,
    pub timestamp: Seq<char>,
    pub build_info: Seq<char>,
}

impl BuildInfoView {
    /// The record whose fields are all empty: it stands for "no prior record".
    pub open spec fn empty() -> BuildInfoView {
        BuildInfoView {
            commit_sha: Seq::empty(),
            name: Seq::empty(),
            timestamp: Seq::empty(),
            build_info: Seq::empty(),
        }
    }
}

impl View for BuildInfo {
    type V = BuildInfoView;

    open spec fn view(&self) -> BuildInfoView {
        BuildInfoView {
            commit_sha: self.commit_sha@,
            name: self.name@,
            timestamp: self.timestamp@,
            build_info: self.build_info@,
        }
    }
}

impl BuildInfo {
    pub fn new(build_info: String, commit_sha: String, name: String, timestamp: String) -> (r:
        BuildInfo)
        ensures
            r.build_info == build_info,
            r.commit_sha == commit_sha,
            r.name == name,
            r.timestamp == timestamp,
    {
        BuildInfo { build_info, commit_sha, name, timestamp }
    }

    /// Whether this is the empty record.
    pub fn is_empty(&self) -> (r: bool)
        ensures
            r == (self@ == BuildInfoView::empty()),
    {
        let r = self.commit_sha.as_str().unicode_len() == 0 && self.name.as_str().unicode_len()
            == 0 && self.timestamp.as_str().unicode_len() == 0
            && self.build_info.as_str().unicode_len() == 0;
        proof {
            if r {
                assert(self.commit_sha@ =~= Seq::<char>::empty());
                assert(self.name@ =~= Seq::<char>::empty());
                assert(self.timestamp@ =~= Seq::<char>::empty());
                assert(self.build_info@ =~= Seq::<char>::empty());
            }
        }
        r
    }
}

impl Default for BuildInfo {
    fn default() -> (r: BuildInfo)
        ensures
            r@ == BuildInfoView::empty(),
    {
        BuildInfo {
            commit_sha: String::new(),
            name: String::new(),
            timestamp: String::new(),
            build_info: String::new(),
        }
    }
}

impl Clone for BuildInfo {
    fn clone(&self) -> (r: Self)
        ensures
            r@ == self@,
    {
        BuildInfo {
            commit_sha: self.commit_sha.clone(),
            name: self.name.clone(),
            timestamp: self.timestamp.clone(),
            build_info: self.build_info.clone(),
        }
    }
}

impl PartialEq for BuildInfo {
    /// Two records are equal when all four fields hold the same text.
    fn eq(&self, other: &Self) -> (r: bool) {
        self.commit_sha == other.commit_sha && self.name == other.name && self.timestamp
            == other.timestamp && self.build_info == other.build_info
    }
}

impl PartialEqSpecImpl for BuildInfo {
    open spec fn obeys_eq_spec() -> bool {
        true
    }

    open spec fn eq_spec(&self, other: &Self) -> bool {
        self@ == other@
    }
}

/// The views of a list of records.
pub open spec fn build_info_views(list: Seq<BuildInfo>) -> Seq<BuildInfoView> {
    list.map_values(|b: BuildInfo| b@)
}

/// The records of the software that is installed on a node.
#[derive(Debug)]
pub struct SoftwareInfo {
    pub current_software: Vec<BuildInfo>,
}

impl SoftwareInfo {
    pub fn new(current_software: Vec<BuildInfo>) -> (r: SoftwareInfo)
        ensures
            r.current_software == current_software,
    {
        SoftwareInfo { current_software }
    }
}

/// What one diagnostic command printed.
#[derive(Debug)]
pub struct CommandOutput {
    pub name: String,
    pub output: String,
}

/// The texts of a [`CommandOutput`].
pub struct CommandOutputView {
    pub name: Seq<char>,
    pub output: Seq<char>,
}

impl View for CommandOutput {
    type V = CommandOutputView;

    open spec fn view(&self) -> CommandOutputView {
        CommandOutputView { name: self.name@, output: self.output@ }
    }
}

/// The views of a list of command outputs.
pub open spec fn command_output_views(list: Seq<CommandOutput>) -> Seq<CommandOutputView> {
    list.map_values(|c: CommandOutput| c@)
}

/// The diagnostics of one node.
#[derive(Debug)]
pub struct SystemInfo {
    pub name: String,
    pub info: Vec<CommandOutput>,
}

/// The texts of a [`SystemInfo`].
pub struct SystemInfoView {
    pub name: Seq<char>,
    pub info: Seq<CommandOutputView>,
}

impl View for SystemInfo {
    type V = SystemInfoView;

    open spec fn view(&self) -> SystemInfoView {
        SystemInfoView { name: self.name@, info: command_output_views(self.info@) }
    }
}

impl SystemInfo {
    pub fn new(info: Vec<CommandOutput>, name: String) -> (r: SystemInfo)
        ensures
            r.info == info,
            r.name == name,
    {
        SystemInfo { info, name }
    }
}

/// The views of a list of node diagnostics.
pub open spec fn system_info_views(list: Seq<SystemInfo>) -> Seq<SystemInfoView> {
    list.map_values(|s: SystemInfo| s@)
}

/// The diagnostics of this node and of the nodes it asked.
#[derive(Debug)]
pub struct SystemInfoList {
    pub info: Vec<SystemInfo>,
}

} // verus!
