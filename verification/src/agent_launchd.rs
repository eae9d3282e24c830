//! How the local agent runner is kept running by launchd, as a service of one user. Only
//! the supervision of the process is decided here; files and commands are the caller's.

pub mod install_pass;
pub mod service;

use vstd::prelude::*;

use crate::digest;
use crate::digest::{hex_text, sha256};
use crate::text;
use crate::text::{
    blank, chars_of, contains, decimal_text, ends_with, join, join2, join3, parse_numeral, same,
    slice_text, starts_with, to_lower, trim,
};

verus! {

/// What the label of every service begins with.
pub const LABEL_PREFIX: &'static str = "ai.tradeassembly.agent.";

/// What runs the agents, and with what.
#[derive(Debug)]
pub struct LaunchdProfile {
    pub executable: String,
    /// The executable that was found when the service was installed: a service does not
    /// search where a shell does.
    pub codex_executable: String,
    pub database_path: String,
    pub runtime_config_path: String,
    pub runner_id: String,
    pub log_directory: String,
}

/// Whether a path does not depend on where it is read.
pub open spec fn is_absolute(path: Seq<char>) -> bool {
    text::begins(path, "/"@)
}

/// A path below another one.
pub open spec fn below(directory: Seq<char>, name: Seq<char>) -> Seq<char> {
    if directory.len() == 0 || text::ends(directory, "/"@) {
        directory + name
    } else {
        directory + "/"@ + name
    }
}

/// Names a path below another one.
pub fn path_below(directory: &str, name: &str) -> (r: String)
    ensures
        r@ == below(directory@, name@),
{
    proof {
        reveal_strlit("");
        if directory@.len() == 0 {
            assert(directory@ =~= ""@);
        }
    }
    if same(directory, "") || ends_with(directory, "/") {
        join2(directory, name)
    } else {
        join3(directory, "/", name)
    }
}

/// Whether a character controls rather than shows.
pub open spec fn is_control(c: char) -> bool {
    c as u32 <= 0x1f || 0x7f <= c as u32 <= 0x9f
}

/// Tells whether a text holds a control character.
pub fn contains_control(value: &str) -> (r: bool)
    ensures
        r == exists|i: int| 0 <= i < value@.len() && is_control(#[trigger] value@[i]),
{
    let chars = chars_of(value);
    let mut i: usize = 0;
    while i < chars.len()
        invariant
            i <= chars.len(),
            chars@ == value@,
            forall|j: int| 0 <= j < i ==> !is_control(#[trigger] value@[j]),
        decreases chars.len() - i,
    {
        let c: u32 = chars[i] as u32;
        if c <= 0x1f || (0x7f <= c && c <= 0x9f) {
            assert(is_control(value@[i as int]));
            return true;
        }
        i += 1;
    }
    false
}

/// Why a profile cannot be used, if it cannot.
pub open spec fn profile_fault(p: LaunchdProfile) -> Option<Seq<char>> {
    if !is_absolute(p.executable@) {
        Some("launchd_tradeassembly_binary_must_be_absolute"@)
    } else if !is_absolute(p.codex_executable@) {
        Some("launchd_codex_binary_must_be_absolute"@)
    } else if !is_absolute(p.database_path@) {
        Some("launchd_database_path_must_be_absolute"@)
    } else if !is_absolute(p.runtime_config_path@) {
        Some("launchd_runtime_config_path_must_be_absolute"@)
    } else if !is_absolute(p.log_directory@) {
        Some("launchd_log_directory_must_be_absolute"@)
    } else if text::is_blank(p.runner_id@) || (exists|i: int|
        0 <= i < p.runner_id@.len() && is_control(#[trigger] p.runner_id@[i])) {
        Some("launchd_runner_id_invalid"@)
    } else {
        None
    }
}

/// The label of a profile's service.
pub open spec fn label_of(p: LaunchdProfile) -> Seq<char> {
    LABEL_PREFIX@ + digest::hex(
        digest::sha256_of(vstd::utf8::encode_utf8(p.runtime_config_path@)).take(8),
    )
}

/// What a profile runs.
pub open spec fn arguments_of(p: LaunchdProfile) -> Seq<Seq<char>> {
    seq![
        p.executable@,
        "--config"@,
        p.runtime_config_path@,
        "--db"@,
        p.database_path@,
        "agent"@,
        "run"@,
        "--runner-id"@,
        p.runner_id@,
    ]
}

/// A character as it stands in XML.
pub open spec fn escaped_char(c: char) -> Seq<char> {
    if c == '&' {
        "&amp;"@
    } else if c == '<' {
        "&lt;"@
    } else if c == '>' {
        "&gt;"@
    } else if c == '"' {
        "&quot;"@
    } else if c == '\'' {
        "&apos;"@
    } else {
        seq![c]
    }
}

/// A text as it stands in XML.
pub open spec fn escaped(value: Seq<char>) -> Seq<char>
    decreases value.len(),
{
    if value.len() == 0 {
        Seq::empty()
    } else {
        escaped(value.drop_last()) + escaped_char(value.last())
    }
}

/// Writes a text as it stands in XML.
pub fn xml_escape(value: &str) -> (r: String)
    ensures
        r@ == escaped(value@),
{
    let chars = chars_of(value);
    let mut out: String = String::new();
    let mut i: usize = 0;
    assert(chars@.take(0) =~= Seq::empty());
    while i < chars.len()
        invariant
            i <= chars.len(),
            out@ == escaped(chars@.take(i as int)),
        decreases chars.len() - i,
    {
        proof {
            assert(chars@.take(i + 1).drop_last() =~= chars@.take(i as int));
            assert(chars@.take(i + 1).last() == chars@[i as int]);
        }
        let c: char = chars[i];
        let ghost before = out@;
        if c == '&' {
            out = join2(out.as_str(), "&amp;");
        } else if c == '<' {
            out = join2(out.as_str(), "&lt;");
        } else if c == '>' {
            out = join2(out.as_str(), "&gt;");
        } else if c == '"' {
            out = join2(out.as_str(), "&quot;");
        } else if c == '\'' {
            out = join2(out.as_str(), "&apos;");
        } else {
            out.push(c);
            assert(out@ =~= before + seq![c]);
        }
        i += 1;
    }
    assert(chars@.take(chars@.len() as int) =~= value@);
    out
}

/// The arguments of a service as they stand in its description.
pub open spec fn argument_lines(arguments: Seq<Seq<char>>) -> Seq<char> {
    text::joined(
        arguments.map_values(
            |a: Seq<char>| "    <string>"@ + escaped(a) + "</string>"@,
        ),
        "\n"@,
    )
}

fn write_arguments(arguments: &Vec<String>) -> (r: String)
    ensures
        r@ == argument_lines(text::texts(arguments@)),
{
    let ghost shown = text::texts(arguments@).map_values(
        |a: Seq<char>| "    <string>"@ + escaped(a) + "</string>"@,
    );
    let mut lines: Vec<String> = Vec::new();
    let mut i: usize = 0;
    assert(text::texts(lines@) =~= shown.take(0));
    while i < arguments.len()
        invariant
            i <= arguments.len(),
            shown == text::texts(arguments@).map_values(
                |a: Seq<char>| "    <string>"@ + escaped(a) + "</string>"@,
            ),
            text::texts(lines@) == shown.take(i as int),
        decreases arguments.len() - i,
    {
        let body = xml_escape(arguments[i].as_str());
        let line = join3("    <string>", body.as_str(), "</string>");
        let ghost before = text::texts(lines@);
        lines.push(line);
        proof {
            assert(line@ == shown[i as int]);
            assert(text::texts(lines@) =~= before.push(line@));
            assert(shown.take(i + 1) =~= shown.take(i as int).push(line@));
        }
        i += 1;
    }
    assert(shown.take(shown.len() as int) =~= shown);
    join(&lines, "\n")
}

/// The description of a service.
pub open spec fn description(p: LaunchdProfile) -> Seq<char> {
    "<?xml version=\"1.0\" encoding=\"UTF-8\"?>\n<!DOCTYPE plist PUBLIC \"-//Apple//DTD PLIST 1.0//EN\" \"http://www.apple.com/DTDs/PropertyList-1.0.dtd\">\n<plist version=\"1.0\">\n<dict>\n  <key>Label</key>\n  <string>"@
        + escaped(label_of(p)) + "</string>\n  <key>ProgramArguments</key>\n  <array>\n"@
        + argument_lines(arguments_of(p)) + environment_part(p) + logs_part(p)
}

/// The part of a description that tells the environment.
pub open spec fn environment_part(p: LaunchdProfile) -> Seq<char> {
    "\n  </array>\n  <key>EnvironmentVariables</key>\n  <dict>\n    <key>TRADEASSEMBLY_CODEX_BIN</key>\n    <string>"@
        + escaped(p.codex_executable@)
        + "</string>\n  </dict>\n  <key>WorkingDirectory</key>\n  <string>"@ + escaped(
        p.log_directory@,
    )
        + "</string>\n  <key>RunAtLoad</key>\n  <true/>\n  <key>KeepAlive</key>\n  <true/>\n  <key>ThrottleInterval</key>\n  <integer>10</integer>\n"@
}

/// The part of a description that tells where the logs go.
pub open spec fn logs_part(p: LaunchdProfile) -> Seq<char> {
    "  <key>StandardOutPath</key>\n  <string>"@ + escaped(
        below(p.log_directory@, "agent-runner.out.log"@),
    ) + "</string>\n  <key>StandardErrorPath</key>\n  <string>"@ + escaped(
        below(p.log_directory@, "agent-runner.err.log"@),
    ) + "</string>\n</dict>\n</plist>\n"@
}

fn write_environment(p: &LaunchdProfile) -> (r: String)
    ensures
        r@ == environment_part(*p),
{
    let codex = xml_escape(p.codex_executable.as_str());
    let directory = xml_escape(p.log_directory.as_str());
    crate::text::join5(
        "\n  </array>\n  <key>EnvironmentVariables</key>\n  <dict>\n    <key>TRADEASSEMBLY_CODEX_BIN</key>\n    <string>",
        codex.as_str(),
        "</string>\n  </dict>\n  <key>WorkingDirectory</key>\n  <string>",
        directory.as_str(),
        "</string>\n  <key>RunAtLoad</key>\n  <true/>\n  <key>KeepAlive</key>\n  <true/>\n  <key>ThrottleInterval</key>\n  <integer>10</integer>\n",
    )
}

fn write_logs(p: &LaunchdProfile) -> (r: String)
    ensures
        r@ == logs_part(*p),
{
    let out = path_below(p.log_directory.as_str(), "agent-runner.out.log");
    let err = path_below(p.log_directory.as_str(), "agent-runner.err.log");
    let out_text = xml_escape(out.as_str());
    let err_text = xml_escape(err.as_str());
    crate::text::join5(
        "  <key>StandardOutPath</key>\n  <string>",
        out_text.as_str(),
        "</string>\n  <key>StandardErrorPath</key>\n  <string>",
        err_text.as_str(),
        "</string>\n</dict>\n</plist>\n",
    )
}

impl LaunchdProfile {
    /// Checks that the profile can be used.
    pub fn validate(&self) -> (r: Result<(), String>)
        ensures
            match (r, profile_fault(*self)) {
                (Ok(_), None) => true,
                (Err(e), Some(code)) => e@ == code,
                _ => false,
            },
    {
        if !starts_with(self.executable.as_str(), "/") {
            return Err("launchd_tradeassembly_binary_must_be_absolute".to_owned());
        }
        if !starts_with(self.codex_executable.as_str(), "/") {
            return Err("launchd_codex_binary_must_be_absolute".to_owned());
        }
        if !starts_with(self.database_path.as_str(), "/") {
            return Err("launchd_database_path_must_be_absolute".to_owned());
        }
        if !starts_with(self.runtime_config_path.as_str(), "/") {
            return Err("launchd_runtime_config_path_must_be_absolute".to_owned());
        }
        if !starts_with(self.log_directory.as_str(), "/") {
            return Err("launchd_log_directory_must_be_absolute".to_owned());
        }
        if blank(self.runner_id.as_str()) || contains_control(self.runner_id.as_str()) {
            return Err("launchd_runner_id_invalid".to_owned());
        }
        Ok(())
    }

    /// The label of the service.
    pub fn label(&self) -> (r: Result<String, String>)
        ensures
            match (r, profile_fault(*self)) {
                (Ok(l), None) => l@ == label_of(*self),
                (Err(e), Some(code)) => e@ == code,
                _ => false,
            },
    {
        self.validate()?;
        let sum = sha256(self.runtime_config_path.as_str().as_bytes());
        let mut head: Vec<u8> = Vec::new();
        let mut i: usize = 0;
        while i < 8
            invariant
                i <= 8,
                sum@.len() == 32,
                head@ == sum@.take(i as int),
            decreases 8 - i,
        {
            head.push(sum[i]);
            assert(sum@.take(i + 1) =~= sum@.take(i as int).push(sum@[i as int]));
            i += 1;
        }
        let suffix = hex_text(&head);
        Ok(join2(LABEL_PREFIX, suffix.as_str()))
    }

    /// What the service runs.
    pub fn program_arguments(&self) -> (r: Result<Vec<String>, String>)
        ensures
            match (r, profile_fault(*self)) {
                (Ok(list), None) => text::texts(list@) == arguments_of(*self),
                (Err(e), Some(code)) => e@ == code,
                _ => false,
            },
    {
        self.validate()?;
        let list: Vec<String> = vec![
            self.executable.clone(),
            "--config".to_owned(),
            self.runtime_config_path.clone(),
            "--db".to_owned(),
            self.database_path.clone(),
            "agent".to_owned(),
            "run".to_owned(),
            "--runner-id".to_owned(),
            self.runner_id.clone(),
        ];
        assert(text::texts(list@) =~= arguments_of(*self));
        Ok(list)
    }

    /// The description of the service.
    pub fn plist(&self) -> (r: Result<String, String>)
        ensures
            match (r, profile_fault(*self)) {
                (Ok(t), None) => t@ == description(*self),
                (Err(e), Some(code)) => e@ == code,
                _ => false,
            },
    {
        let label = self.label()?;
        let arguments = self.program_arguments()?;
        let label_text = xml_escape(label.as_str());
        let lines = write_arguments(&arguments);
        let environment = write_environment(self);
        let logs = write_logs(self);
        let head = join3(
            "<?xml version=\"1.0\" encoding=\"UTF-8\"?>\n<!DOCTYPE plist PUBLIC \"-//Apple//DTD PLIST 1.0//EN\" \"http://www.apple.com/DTDs/PropertyList-1.0.dtd\">\n<plist version=\"1.0\">\n<dict>\n  <key>Label</key>\n  <string>",
            label_text.as_str(),
            "</string>\n  <key>ProgramArguments</key>\n  <array>\n",
        );
        Ok(
            crate::text::join4(
                head.as_str(),
                lines.as_str(),
                environment.as_str(),
                logs.as_str(),
            ),
        )
    }
}

/// Whether launchd runs a service.
#[derive(Clone, Copy, Debug, PartialEq, Eq, Structural)]
pub enum LaunchdServiceState {
    Loaded,
    NotLoaded,
}

/// What answers for launchd.
pub trait Launchctl {
    /// Loads the service that a file describes.
    fn bootstrap(&self, domain: &str, plist_path: &str) -> Result<(), String>;

    /// Unloads a service.
    fn bootout(&self, service_target: &str) -> Result<(), String>;

    /// Tells whether a service is loaded.
    fn status(&self, service_target: &str) -> Result<LaunchdServiceState, String>;
}

/// What came of asking launchd for a service: whether the command succeeded, and what it
/// complained of.
pub open spec fn service_answer(success: bool, complaint: Seq<char>) -> Result<
    LaunchdServiceState,
    Seq<char>,
> {
    if success {
        Ok(LaunchdServiceState::Loaded)
    } else if text::occurs(text::lowered(complaint), "could not find service"@) || text::occurs(
        text::lowered(complaint),
        "no service"@,
    ) {
        Ok(LaunchdServiceState::NotLoaded)
    } else {
        Err("launchctl_status_failed"@)
    }
}

/// Reads what came of asking launchd for a service.
pub fn read_service_answer(success: bool, complaint: &str) -> (r: Result<
    LaunchdServiceState,
    String,
>)
    ensures
        match (r, service_answer(success, complaint@)) {
            (Ok(a), Ok(b)) => a == b,
            (Err(e), Err(code)) => e@ == code,
            _ => false,
        },
{
    if success {
        return Ok(LaunchdServiceState::Loaded);
    }
    let lowered = to_lower(complaint);
    if contains(lowered.as_str(), "could not find service") || contains(
        lowered.as_str(),
        "no service",
    ) {
        Ok(LaunchdServiceState::NotLoaded)
    } else {
        Err("launchctl_status_failed".to_owned())
    }
}

/// How the service of a profile stands.
#[derive(Debug)]
pub struct LaunchdLifecycleStatus {
    pub label: String,
    pub plist_path: String,
    pub loaded: bool,
    pub profile_matches: Option<bool>,
}

/// What a [`LaunchdLifecycleStatus`] says.
#[verifier::ext_equal]
pub struct StatusView {
    pub label: Seq<char>,
    pub plist_path: Seq<char>,
    pub loaded: bool,
    pub profile_matches: Option<bool>,
}

impl View for LaunchdLifecycleStatus {
    type V = StatusView;

    open spec fn view(&self) -> StatusView {
        StatusView {
            label: self.label@,
            plist_path: self.plist_path@,
            loaded: self.loaded,
            profile_matches: self.profile_matches,
        }
    }
}

/// Where the description of a service is kept.
pub open spec fn plist_file(directory: Seq<char>, label: Seq<char>) -> Seq<char> {
    below(directory, label + ".plist"@)
}

/// Names where the description of a service is kept.
pub fn plist_path(launch_agents_dir: &str, label: &str) -> (r: String)
    ensures
        r@ == plist_file(launch_agents_dir@, label@),
{
    let name = join2(label, ".plist");
    path_below(launch_agents_dir, name.as_str())
}

/// The domain of a user's services.
pub open spec fn domain_of(uid: u32) -> Seq<char> {
    "gui/"@ + text::decimal(uid as nat)
}

/// Names the domain of a user's services.
pub fn domain(uid: u32) -> (r: String)
    ensures
        r@ == domain_of(uid),
{
    let number = decimal_text(uid as u64);
    join2("gui/", number.as_str())
}

/// What launchd calls a user's service.
pub open spec fn target_of(uid: u32, label: Seq<char>) -> Seq<char> {
    domain_of(uid) + "/"@ + label
}

/// Names a user's service as launchd does.
pub fn service_target(uid: u32, label: &str) -> (r: String)
    ensures
        r@ == target_of(uid, label@),
{
    let own = domain(uid);
    join3(own.as_str(), "/", label)
}

/// What stands at a path.
#[derive(Clone, Copy, Debug, PartialEq, Eq, Structural)]
pub enum PathFinding {
    /// Nothing, as far as can be told.
    Absent,
    Directory,
    File,
    Symlink,
    Other,
}

/// Why the directory of the descriptions cannot be used, if it cannot. `symlinked` tells
/// whether a part of its path is a symbolic link.
pub open spec fn directory_fault(
    path: Seq<char>,
    symlinked: bool,
    finding: PathFinding,
) -> Option<Seq<char>> {
    if !is_absolute(path) {
        Some("launchd_launch_agents_dir_must_be_absolute"@)
    } else if symlinked {
        Some("launchd_parent_path_symlink"@)
    } else if finding != PathFinding::Absent && finding != PathFinding::Directory {
        Some("launchd_launch_agents_dir_invalid"@)
    } else {
        None
    }
}

/// Checks the directory of the descriptions.
pub fn validate_launch_agents_dir(path: &str, symlinked: bool, finding: PathFinding) -> (r: Result<
    (),
    String,
>)
    ensures
        match (r, directory_fault(path@, symlinked, finding)) {
            (Ok(_), None) => true,
            (Err(e), Some(code)) => e@ == code,
            _ => false,
        },
{
    if !starts_with(path, "/") {
        return Err("launchd_launch_agents_dir_must_be_absolute".to_owned());
    }
    if symlinked {
        return Err("launchd_parent_path_symlink".to_owned());
    }
    if finding != PathFinding::Absent && finding != PathFinding::Directory {
        return Err("launchd_launch_agents_dir_invalid".to_owned());
    }
    Ok(())
}

/// Whether a log can be written to what stands at its path.
pub open spec fn takes_log(finding: PathFinding) -> bool {
    finding == PathFinding::Absent || finding == PathFinding::File
}

/// Why the logs cannot be written, if they cannot.
pub open spec fn logs_fault(
    symlinked: bool,
    directory: PathFinding,
    out_log: PathFinding,
    err_log: PathFinding,
) -> Option<Seq<char>> {
    if symlinked {
        Some("launchd_parent_path_symlink"@)
    } else if directory != PathFinding::Absent && directory != PathFinding::Directory {
        Some("launchd_log_directory_invalid"@)
    } else if !takes_log(out_log) || !takes_log(err_log) {
        Some("launchd_log_path_invalid"@)
    } else {
        None
    }
}

/// Checks where the logs are to be written.
pub fn validate_log_paths(
    symlinked: bool,
    directory: PathFinding,
    out_log: PathFinding,
    err_log: PathFinding,
) -> (r: Result<(), String>)
    ensures
        match (r, logs_fault(symlinked, directory, out_log, err_log)) {
            (Ok(_), None) => true,
            (Err(e), Some(code)) => e@ == code,
            _ => false,
        },
{
    if symlinked {
        return Err("launchd_parent_path_symlink".to_owned());
    }
    if directory != PathFinding::Absent && directory != PathFinding::Directory {
        return Err("launchd_log_directory_invalid".to_owned());
    }
    let out_fits: bool = out_log == PathFinding::Absent || out_log == PathFinding::File;
    let err_fits: bool = err_log == PathFinding::Absent || err_log == PathFinding::File;
    if !out_fits || !err_fits {
        return Err("launchd_log_path_invalid".to_owned());
    }
    Ok(())
}

/// What came of reading the description that is kept: the text, that there is none, or why
/// it could not be read.
pub type KeptProfile = Result<Option<String>, String>;

/// What came of reading the description that is kept.
pub open spec fn kept_text(kept: KeptProfile) -> Result<Option<Seq<char>>, Seq<char>> {
    match kept {
        Ok(found) => Ok(text::option_text(found)),
        Err(code) => Err(code@),
    }
}

/// What stands where a description is kept.
#[derive(Debug)]
pub enum ProfileFinding {
    /// Nothing.
    Absent,
    /// A symbolic link, or something else that is not a file.
    NotAFile,
    /// Something that cannot be looked at or read.
    Unreadable,
    /// A file with a text.
    Text(String),
}

/// What comes of reading the description, from what stands where it is kept.
pub open spec fn kept_of(found: ProfileFinding) -> Result<Option<Seq<char>>, Seq<char>> {
    match found {
        ProfileFinding::Absent => Ok(None),
        ProfileFinding::NotAFile => Err("launchd_existing_profile_invalid"@),
        ProfileFinding::Unreadable => Err("launchd_existing_profile_unreadable"@),
        ProfileFinding::Text(text) => Ok(Some(text@)),
    }
}

/// Reads the description, from what stands where it is kept.
pub fn kept_profile(found: ProfileFinding) -> (r: KeptProfile)
    ensures
        kept_text(r) == kept_of(found),
{
    match found {
        ProfileFinding::Absent => Ok(None),
        ProfileFinding::NotAFile => Err("launchd_existing_profile_invalid".to_owned()),
        ProfileFinding::Unreadable => Err("launchd_existing_profile_unreadable".to_owned()),
        ProfileFinding::Text(text) => Ok(Some(text)),
    }
}

/// What a service is told of: what is said of its state, or why nothing can be said.
pub open spec fn told_state(answer: Result<LaunchdServiceState, String>) -> Result<bool, Seq<char>> {
    match answer {
        Ok(state) => Ok(state == LaunchdServiceState::Loaded),
        Err(code) => Err(code@),
    }
}

/// What is needed before launchd is asked: that the directory can be used, that the
/// profile can, and that the kept description could be read.
pub open spec fn fault_before_asking(
    p: LaunchdProfile,
    directory: Option<Seq<char>>,
    kept: Result<Option<Seq<char>>, Seq<char>>,
) -> Option<Seq<char>> {
    match directory {
        Some(code) => Some(code),
        None => match profile_fault(p) {
            Some(code) => Some(code),
            None => match kept {
                Err(code) => Some(code),
                Ok(_) => None,
            },
        },
    }
}

/// How the service of a profile stands, once launchd has answered.
pub open spec fn standing(
    p: LaunchdProfile,
    agents_dir: Seq<char>,
    directory: Option<Seq<char>>,
    kept: Result<Option<Seq<char>>, Seq<char>>,
    loaded: Result<bool, Seq<char>>,
) -> Result<StatusView, Seq<char>> {
    match fault_before_asking(p, directory, kept) {
        Some(code) => Err(code),
        None => match loaded {
            Err(code) => Err(code),
            Ok(is_loaded) => Ok(
                StatusView {
                    label: label_of(p),
                    plist_path: plist_file(agents_dir, label_of(p)),
                    loaded: is_loaded,
                    profile_matches: Some(kept->Ok_0 == Some(description(p))),
                },
            ),
        },
    }
}

fn same_text(found: &Option<String>, expected: &str) -> (r: bool)
    ensures
        r == (text::option_text(*found) == Some(expected@)),
{
    match found {
        Some(t) => same(t.as_str(), expected),
        None => false,
    }
}

/// Says how the service of a profile stands, once launchd has answered.
pub fn judge_standing(
    profile: &LaunchdProfile,
    launch_agents_dir: &str,
    directory_fault: &Option<String>,
    kept: &KeptProfile,
    answer: &Result<LaunchdServiceState, String>,
) -> (r: Result<LaunchdLifecycleStatus, String>)
    ensures
        match (
            r,
            standing(
                *profile,
                launch_agents_dir@,
                text::option_text(*directory_fault),
                kept_text(*kept),
                told_state(*answer),
            ),
        ) {
            (Ok(s), Ok(shown)) => s@ == shown,
            (Err(e), Err(code)) => e@ == code,
            _ => false,
        },
{
    if let Some(code) = directory_fault {
        return Err(code.clone());
    }
    let expected = profile.plist()?;
    let label = profile.label()?;
    let file = plist_path(launch_agents_dir, label.as_str());
    let found: &Option<String> = match kept {
        Ok(found) => found,
        Err(code) => {
            return Err(code.clone());
        },
    };
    let matches: bool = same_text(found, expected.as_str());
    let loaded: bool = match answer {
        Ok(state) => *state == LaunchdServiceState::Loaded,
        Err(code) => {
            return Err(code.clone());
        },
    };
    Ok(
        LaunchdLifecycleStatus {
            label,
            plist_path: file,
            loaded,
            profile_matches: Some(matches),
        },
    )
}

/// Whether an outcome says how the service of a profile stands, once launchd has answered.
pub open spec fn says_standing(
    r: Result<LaunchdLifecycleStatus, String>,
    p: LaunchdProfile,
    agents_dir: Seq<char>,
    directory: Option<Seq<char>>,
    kept: Result<Option<Seq<char>>, Seq<char>>,
    answer: Result<LaunchdServiceState, String>,
) -> bool {
    match (r, standing(p, agents_dir, directory, kept, told_state(answer))) {
        (Ok(s), Ok(shown)) => s@ == shown,
        (Err(e), Err(code)) => e@ == code,
        _ => false,
    }
}

/// Whether an outcome is the one for what launchd answers of the profile's own service:
/// where something is wrong before launchd is asked, it says so.
pub open spec fn stands_as_told<L: Launchctl>(
    launchctl: &L,
    r: Result<LaunchdLifecycleStatus, String>,
    p: LaunchdProfile,
    agents_dir: Seq<char>,
    uid: u32,
    directory: Option<Seq<char>>,
    kept: Result<Option<Seq<char>>, Seq<char>>,
) -> bool {
    match fault_before_asking(p, directory, kept) {
        Some(code) => r matches Err(e) && e@ == code,
        None => exists|target: &str, answer: Result<LaunchdServiceState, String>|
            #![trigger call_ensures(L::status, (launchctl, target), answer)]
            target@ == target_of(uid, label_of(p)) && call_ensures(
                L::status,
                (launchctl, target),
                answer,
            ) && says_standing(r, p, agents_dir, directory, kept, answer),
    }
}

/// Tells how the service of a profile stands, and whether its description is the one that
/// is kept. `directory_fault` says what is wrong with the directory, `kept` what came of
/// reading the description.
pub fn verify<L: Launchctl>(
    launchctl: &L,
    profile: &LaunchdProfile,
    launch_agents_dir: &str,
    uid: u32,
    directory_fault: &Option<String>,
    kept: &KeptProfile,
) -> (r: Result<LaunchdLifecycleStatus, String>)
    ensures
        stands_as_told(
            launchctl,
            r,
            *profile,
            launch_agents_dir@,
            uid,
            text::option_text(*directory_fault),
            kept_text(*kept),
        ),
{
    if let Some(code) = directory_fault {
        return Err(code.clone());
    }
    let label = profile.label()?;
    if let Err(code) = kept {
        return Err(code.clone());
    }
    let target = service_target(uid, label.as_str());
    let answer = launchctl.status(target.as_str());
    judge_standing(profile, launch_agents_dir, directory_fault, kept, &answer)
}

/// Tells how the service of a profile stands.
pub fn status<L: Launchctl>(
    launchctl: &L,
    profile: &LaunchdProfile,
    launch_agents_dir: &str,
    uid: u32,
    directory_fault: &Option<String>,
    kept: &KeptProfile,
) -> (r: Result<LaunchdLifecycleStatus, String>)
    ensures
        stands_as_told(
            launchctl,
            r,
            *profile,
            launch_agents_dir@,
            uid,
            text::option_text(*directory_fault),
            kept_text(*kept),
        ),
{
    verify(launchctl, profile, launch_agents_dir, uid, directory_fault, kept)
}

/// Whether launchd gives one answer to one query, whenever it is asked.
pub open spec fn answers_alike<L: Launchctl>(launchctl: &L) -> bool {
    forall|
        a: &str,
        b: &str,
        x: Result<LaunchdServiceState, String>,
        y: Result<LaunchdServiceState, String>,
    |
        #![trigger call_ensures(L::status, (launchctl, a), x), call_ensures(L::status, (launchctl, b), y)]
        a@ == b@ && call_ensures(L::status, (launchctl, a), x) && call_ensures(
            L::status,
            (launchctl, b),
            y,
        ) ==> told_state(x) == told_state(y)
}

/// Where launchd gives one answer to one query, [`verify`] and [`status`] say the same. Where
/// they say how the service stands, they name it, tell whether its description is the one
/// that is kept, and whether launchd has it loaded.
pub proof fn verify_and_status_agree<L: Launchctl>(
    launchctl: &L,
    verified: Result<LaunchdLifecycleStatus, String>,
    stated: Result<LaunchdLifecycleStatus, String>,
    p: LaunchdProfile,
    agents_dir: Seq<char>,
    uid: u32,
    directory: Option<Seq<char>>,
    kept: Result<Option<Seq<char>>, Seq<char>>,
)
    requires
        answers_alike(launchctl),
        stands_as_told(launchctl, verified, p, agents_dir, uid, directory, kept),
        stands_as_told(launchctl, stated, p, agents_dir, uid, directory, kept),
    ensures
        match (verified, stated) {
            (Ok(a), Ok(b)) => a@ == b@,
            (Err(a), Err(b)) => a@ == b@,
            _ => false,
        },
        verified matches Ok(s) ==> s@.label == label_of(p) && s@.profile_matches == Some(
            kept == Ok::<Option<Seq<char>>, Seq<char>>(Some(description(p))),
        ) && exists|target: &str, answer: Result<LaunchdServiceState, String>|
            #![trigger call_ensures(L::status, (launchctl, target), answer)]
            target@ == target_of(uid, label_of(p)) && call_ensures(
                L::status,
                (launchctl, target),
                answer,
            ) && s@.loaded == (answer matches Ok(LaunchdServiceState::Loaded)),
{
}

/// How an installed service stands.
pub open spec fn installed(p: LaunchdProfile, agents_dir: Seq<char>) -> StatusView {
    StatusView {
        label: label_of(p),
        plist_path: plist_file(agents_dir, label_of(p)),
        loaded: true,
        profile_matches: Some(true),
    }
}

/// Says how a service stands that was just installed.
pub fn installed_status(profile: &LaunchdProfile, launch_agents_dir: &str) -> (r: Result<
    LaunchdLifecycleStatus,
    String,
>)
    ensures
        match (r, profile_fault(*profile)) {
            (Ok(s), None) => s@ == installed(*profile, launch_agents_dir@),
            (Err(e), Some(code)) => e@ == code,
            _ => false,
        },
{
    let label = profile.label()?;
    let file = plist_path(launch_agents_dir, label.as_str());
    Ok(
        LaunchdLifecycleStatus {
            label,
            plist_path: file,
            loaded: true,
            profile_matches: Some(true),
        },
    )
}

/// How a removed service stands.
pub open spec fn removed(p: LaunchdProfile, agents_dir: Seq<char>) -> StatusView {
    StatusView {
        label: label_of(p),
        plist_path: plist_file(agents_dir, label_of(p)),
        loaded: false,
        profile_matches: None,
    }
}

/// Says how a service stands that was removed.
pub fn removed_status(profile: &LaunchdProfile, launch_agents_dir: &str) -> (r: Result<
    LaunchdLifecycleStatus,
    String,
>)
    ensures
        match (r, profile_fault(*profile)) {
            (Ok(s), None) => s@ == removed(*profile, launch_agents_dir@),
            (Err(e), Some(code)) => e@ == code,
            _ => false,
        },
{
    let label = profile.label()?;
    let file = plist_path(launch_agents_dir, label.as_str());
    Ok(LaunchdLifecycleStatus { label, plist_path: file, loaded: false, profile_matches: None })
}

/// Where a user's descriptions are kept.
pub fn default_launch_agents_dir(home: &Option<String>) -> (r: Result<String, String>)
    ensures
        match *home {
            Some(h) => r matches Ok(d) && d@ == below(h@, "Library/LaunchAgents"@),
            None => r matches Err(e) && e@ == "launchd_home_unavailable"@,
        },
{
    match home {
        Some(h) => Ok(path_below(h.as_str(), "Library/LaunchAgents")),
        None => Err("launchd_home_unavailable".to_owned()),
    }
}

/// The number of a user, where a text is one: digits, with a plus sign before them or
/// without.
pub open spec fn uid_of(value: Seq<char>) -> Option<int> {
    let digits = if value.len() > 0 && value[0] == '+' {
        value.skip(1)
    } else {
        value
    };
    if text::is_numeral(digits) && text::number_of(digits) <= u32::MAX {
        Some(text::number_of(digits) as int)
    } else {
        None
    }
}

/// Reads the number of a user.
pub fn parse_uid(value: &str) -> (r: Option<u32>)
    ensures
        match (r, uid_of(value@)) {
            (Some(n), Some(m)) => n == m,
            (None, None) => true,
            _ => false,
        },
{
    let chars = chars_of(value);
    let digits: String = if chars.len() > 0 && chars[0] == '+' {
        let rest = slice_text(&chars, 1, chars.len());
        assert(rest@ =~= value@.skip(1));
        rest
    } else {
        value.to_owned()
    };
    match parse_numeral(digits.as_str(), 0xffff_ffff) {
        Some(n) => Some(n as u32),
        None => None,
    }
}

/// Decides which number the user has: what the environment says, or what a command says,
/// where it could be asked.
pub fn current_uid(environment: &str, command_output: &Option<String>) -> (r: Result<u32, String>)
    ensures
        match (uid_of(environment@), text::option_text(*command_output)) {
            (Some(n), _) => r matches Ok(uid) && uid == n,
            (None, None) => r matches Err(e) && e@ == "launchd_uid_unavailable"@,
            (None, Some(out)) => match uid_of(text::trimmed(out)) {
                Some(n) => r matches Ok(uid) && uid == n,
                None => r matches Err(e) && e@ == "launchd_uid_unavailable"@,
            },
        },
{
    if let Some(uid) = parse_uid(environment) {
        return Ok(uid);
    }
    match command_output {
        Some(out) => {
            let trimmed = trim(out.as_str());
            match parse_uid(trimmed.as_str()) {
                Some(uid) => Ok(uid),
                None => Err("launchd_uid_unavailable".to_owned()),
            }
        },
        None => Err("launchd_uid_unavailable".to_owned()),
    }
}

proof fn escaped_has_no_markup(value: Seq<char>, i: int)
    requires
        0 <= i < escaped(value).len(),
    ensures
        escaped(value)[i] != '<' && escaped(value)[i] != '>' && escaped(value)[i] != '"'
            && escaped(value)[i] != '\'',
    decreases value.len(),
{
    if value.len() > 0 {
        let earlier = escaped(value.drop_last());
        if i < earlier.len() {
            escaped_has_no_markup(value.drop_last(), i);
        } else {
            reveal_strlit("&amp;");
            reveal_strlit("&lt;");
            reveal_strlit("&gt;");
            reveal_strlit("&quot;");
            reveal_strlit("&apos;");
            assert(escaped(value)[i] == escaped_char(value.last())[i - earlier.len()]);
        }
    }
}

/// Nothing that a profile says can open or close markup in the description of its
/// service.
pub proof fn escaped_text_is_no_markup(value: Seq<char>)
    ensures
        forall|i: int|
            0 <= i < escaped(value).len() ==> (#[trigger] escaped(value)[i]) != '<'
                && escaped(value)[i] != '>' && escaped(value)[i] != '"' && escaped(value)[i] != '\'',
{
    assert forall|i: int| 0 <= i < escaped(value).len() implies (#[trigger] escaped(value)[i])
        != '<' && escaped(value)[i] != '>' && escaped(value)[i] != '"' && escaped(value)[i]
        != '\'' by {
        escaped_has_no_markup(value, i);
    }
}

} // verus!
