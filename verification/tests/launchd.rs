use tradeassembly_runtime::agent_launchd::install_pass::{
    begin_install, begin_uninstall, install, uninstall, InstallStep, ServiceAction, ServiceCase,
    ServiceEvent, UninstallStep,
};
use tradeassembly_runtime::agent_launchd::{
    contains_control, current_uid, default_launch_agents_dir, domain, installed_status,
    judge_standing, kept_profile, parse_uid, plist_path, read_service_answer, removed_status,
    service_target, status, validate_launch_agents_dir, validate_log_paths, verify, xml_escape,
    LaunchdLifecycleStatus, LaunchdProfile, LaunchdServiceState, Launchctl, PathFinding,
    ProfileFinding,
};

struct Answering(Result<LaunchdServiceState, String>);

impl Launchctl for Answering {
    fn bootstrap(&self, _domain: &str, _plist_path: &str) -> Result<(), String> {
        Ok(())
    }

    fn bootout(&self, _service_target: &str) -> Result<(), String> {
        Ok(())
    }

    fn status(&self, service_target: &str) -> Result<LaunchdServiceState, String> {
        assert!(service_target.starts_with("gui/501/ai.tradeassembly.agent."));
        self.0.clone()
    }
}

fn profile() -> LaunchdProfile {
    LaunchdProfile {
        executable: "/opt/ta & co/bin/tradeassembly".to_string(),
        codex_executable: "/opt/codex".to_string(),
        database_path: "/var/db.sqlite".to_string(),
        runtime_config_path: "/etc/runtime.json".to_string(),
        runner_id: "runner-1".to_string(),
        log_directory: "/var/log/ta".to_string(),
    }
}

#[test]
fn a_profile_describes_its_service() {
    let plist = profile().plist().expect("a description");
    assert!(plist.contains("<string>/opt/ta &amp; co/bin/tradeassembly</string>"));
    assert!(plist.contains("<string>/var/log/ta/agent-runner.out.log</string>"));
    assert_eq!(xml_escape("<a>\"'&"), "&lt;a&gt;&quot;&apos;&amp;");
    let label = profile().label().expect("a label");
    assert!(label.starts_with("ai.tradeassembly.agent."));
    assert_eq!(label.len(), "ai.tradeassembly.agent.".len() + 16);
    assert!(profile()
        .program_arguments()
        .expect("arguments")
        .contains(&"runner-1".to_string()));
}

#[test]
fn profiles_with_faults_are_refused() {
    let mut relative = profile();
    relative.database_path = "db".to_string();
    assert_eq!(
        relative.validate(),
        Err("launchd_database_path_must_be_absolute".to_string())
    );
    let mut odd = profile();
    odd.runner_id = "a\nb".to_string();
    assert_eq!(odd.plist(), Err("launchd_runner_id_invalid".to_string()));
    assert!(contains_control("a\u{7f}"));
    assert!(!contains_control("a b"));
}

#[test]
fn services_are_named_for_their_user() {
    assert_eq!(domain(501), "gui/501");
    assert_eq!(service_target(501, "l"), "gui/501/l");
    assert_eq!(plist_path("/agents", "l"), "/agents/l.plist");
    assert_eq!(parse_uid("501"), Some(501));
    assert_eq!(parse_uid("x"), None);
    assert_eq!(current_uid("", &Some("501\n".to_string())), Ok(501));
    assert!(current_uid("", &None).is_err());
    assert_eq!(
        default_launch_agents_dir(&Some("/Users/u".to_string())),
        Ok("/Users/u/Library/LaunchAgents".to_string())
    );
    assert!(default_launch_agents_dir(&None).is_err());
}

#[test]
fn answers_of_launchd_are_read() {
    assert_eq!(read_service_answer(true, ""), Ok(LaunchdServiceState::Loaded));
    assert_eq!(
        read_service_answer(false, "Could not find service \"x\""),
        Ok(LaunchdServiceState::NotLoaded)
    );
    assert_eq!(
        read_service_answer(false, "other"),
        Err("launchctl_status_failed".to_string())
    );
}

#[test]
fn paths_are_checked_before_they_are_used() {
    assert!(validate_launch_agents_dir("/a", false, PathFinding::Absent).is_ok());
    assert!(validate_launch_agents_dir("a", false, PathFinding::Absent).is_err());
    assert!(validate_launch_agents_dir("/a", true, PathFinding::Directory).is_err());
    assert!(validate_launch_agents_dir("/a", false, PathFinding::File).is_err());
    let dir = PathFinding::Directory;
    assert!(validate_log_paths(false, dir, PathFinding::Absent, PathFinding::File).is_ok());
    assert!(validate_log_paths(false, dir, PathFinding::Symlink, PathFinding::File).is_err());
}

#[test]
fn the_standing_of_a_service_is_told() {
    let plist = profile().plist().expect("a description");
    let loaded = Answering(Ok(LaunchdServiceState::Loaded));
    let kept = Ok(Some(plist));
    let shown = status(&loaded, &profile(), "/agents", 501, &None, &kept).expect("a status");
    assert!(shown.loaded);
    assert_eq!(shown.profile_matches, Some(true));
    let verified = verify(&loaded, &profile(), "/agents", 501, &None, &kept);
    assert!(verified.is_ok());
    let failing = Answering(Err("launchctl_status_failed".to_string()));
    assert!(status(&failing, &profile(), "/agents", 501, &None, &kept).is_err());
    let fault = Some("launchd_parent_path_symlink".to_string());
    assert!(judge_standing(
        &profile(),
        "/agents",
        &fault,
        &kept,
        &Ok(LaunchdServiceState::Loaded)
    )
    .is_err());
}

/// A machine with one description and one service, of which one kind of action fails.
struct Machine {
    description: Option<String>,
    loaded: bool,
    broken: &'static str,
    log: Vec<&'static str>,
}

fn named(action: &ServiceAction) -> &'static str {
    match action {
        ServiceAction::InspectDirectory { .. } => "inspect",
        ServiceAction::ReadProfile { .. } => "read",
        ServiceAction::AskState { .. } => "ask",
        ServiceAction::MakeDirectory { path } if path == "/agents" => "make agents",
        ServiceAction::MakeDirectory { .. } => "make logs",
        ServiceAction::InspectLogs { .. } => "inspect logs",
        ServiceAction::CreateProfile { .. } => "create",
        ServiceAction::Bootstrap { .. } => "bootstrap",
        ServiceAction::Bootout { .. } => "bootout",
        ServiceAction::RemoveProfile { .. } => "remove",
    }
}

impl Machine {
    fn new(description: Option<String>, loaded: bool) -> Machine {
        Machine { description, loaded, broken: "", log: Vec::new() }
    }

    fn failure(&self, action: &ServiceAction) -> ServiceEvent {
        let code = || "launchctl_command_failed".to_string();
        match action {
            ServiceAction::InspectDirectory { .. } => ServiceEvent::Directory {
                symlinked: true,
                finding: PathFinding::Directory,
            },
            ServiceAction::ReadProfile { .. } => ServiceEvent::Profile(ProfileFinding::Unreadable),
            ServiceAction::AskState { .. } => ServiceEvent::State(Err(code())),
            ServiceAction::InspectLogs { .. } => ServiceEvent::Logs {
                symlinked: false,
                directory: PathFinding::Directory,
                out_log: PathFinding::Symlink,
                err_log: PathFinding::Absent,
            },
            ServiceAction::Bootstrap { .. } | ServiceAction::Bootout { .. } => {
                ServiceEvent::Answered(Err(code()))
            }
            _ => ServiceEvent::NotDone,
        }
    }

    fn perform(&mut self, action: ServiceAction) -> ServiceEvent {
        let name = named(&action);
        self.log.push(name);
        if name == self.broken {
            return self.failure(&action);
        }
        let file = installed_status(&profile(), "/agents").expect("a status").plist_path;
        let target = service_target(501, &profile().label().expect("a label"));
        match action {
            ServiceAction::InspectDirectory { path } => {
                assert_eq!(path, "/agents");
                ServiceEvent::Directory { symlinked: false, finding: PathFinding::Absent }
            }
            ServiceAction::ReadProfile { path } => {
                assert_eq!(path, file);
                ServiceEvent::Profile(match &self.description {
                    Some(text) => ProfileFinding::Text(text.clone()),
                    None => ProfileFinding::Absent,
                })
            }
            ServiceAction::AskState { target: asked } => {
                assert_eq!(asked, target);
                ServiceEvent::State(Ok(if self.loaded {
                    LaunchdServiceState::Loaded
                } else {
                    LaunchdServiceState::NotLoaded
                }))
            }
            ServiceAction::MakeDirectory { .. } => ServiceEvent::Done,
            ServiceAction::InspectLogs { directory } => {
                assert_eq!(directory, "/var/log/ta");
                ServiceEvent::Logs {
                    symlinked: false,
                    directory: PathFinding::Directory,
                    out_log: PathFinding::Absent,
                    err_log: PathFinding::Absent,
                }
            }
            ServiceAction::CreateProfile { path, contents } => {
                assert_eq!(path, file);
                if self.description.is_some() {
                    return ServiceEvent::Taken;
                }
                self.description = Some(contents);
                ServiceEvent::Done
            }
            ServiceAction::Bootstrap { domain, plist_path } => {
                assert_eq!(domain, "gui/501");
                assert_eq!(plist_path, file);
                self.loaded = true;
                ServiceEvent::Answered(Ok(()))
            }
            ServiceAction::Bootout { target: asked } => {
                assert_eq!(asked, target);
                self.loaded = false;
                ServiceEvent::Answered(Ok(()))
            }
            ServiceAction::RemoveProfile { path } => {
                assert_eq!(path, file);
                self.description = None;
                ServiceEvent::Done
            }
        }
    }

    fn install(&mut self) -> Result<LaunchdLifecycleStatus, String> {
        let case = case();
        let mut step = begin_install(&case);
        loop {
            match step {
                InstallStep::End(result) => return result,
                InstallStep::Ask { stage, action } => {
                    step = install(&case, stage, self.perform(action));
                }
            }
        }
    }

    fn uninstall(&mut self) -> Result<LaunchdLifecycleStatus, String> {
        let case = case();
        let mut step = begin_uninstall(&case);
        loop {
            match step {
                UninstallStep::End(result) => return result,
                UninstallStep::Ask { stage, action } => {
                    step = uninstall(&case, stage, self.perform(action));
                }
            }
        }
    }
}

fn case() -> ServiceCase {
    ServiceCase { profile: profile(), launch_agents_dir: "/agents".to_string(), uid: 501 }
}

#[test]
fn installed_services_can_be_removed() {
    let mut machine = Machine::new(None, false);
    let status = machine.install().expect("installed");
    assert!(status.loaded);
    assert_eq!(status.profile_matches, Some(true));
    assert_eq!(
        machine.log,
        vec![
            "inspect", "read", "ask", "make agents", "make logs", "inspect logs", "read", "create",
            "read", "bootstrap",
        ]
    );
    assert_eq!(machine.description, profile().plist().ok());

    machine.log.clear();
    let again = machine.install().expect("installed already");
    assert_eq!(format!("{again:?}"), format!("{status:?}"));
    assert_eq!(machine.log, vec!["inspect", "read", "ask"]);

    machine.log.clear();
    let gone = machine.uninstall().expect("removed");
    assert!(!gone.loaded);
    assert_eq!(gone.profile_matches, None);
    assert_eq!(gone.plist_path, status.plist_path);
    assert_eq!(machine.log, vec!["inspect", "ask", "read", "bootout", "remove"]);
    assert_eq!((machine.description.clone(), machine.loaded), (None, false));

    machine.log.clear();
    let nothing = machine.uninstall().expect("nothing to remove");
    assert_eq!(format!("{nothing:?}"), format!("{gone:?}"));
    assert_eq!(machine.log, vec!["inspect", "ask", "read"]);
    let told = removed_status(&profile(), "/agents").expect("a status");
    assert_eq!(format!("{told:?}"), format!("{gone:?}"));
}

#[test]
fn a_description_without_its_service_is_used_or_removed() {
    let own = profile().plist().ok();
    let mut kept = Machine::new(own.clone(), false);
    assert!(kept.install().is_ok());
    assert!(!kept.log.contains(&"create"));
    let mut unloaded = Machine::new(own, false);
    assert!(unloaded.uninstall().is_ok());
    assert_eq!(unloaded.log, vec!["inspect", "ask", "read", "remove"]);
}

#[test]
fn every_fault_of_an_installation_has_its_code() {
    let own = || profile().plist().ok();
    let fault = |broken: &'static str, removal: bool| {
        let mut machine = Machine::new(if removal { own() } else { None }, removal);
        machine.broken = broken;
        let result = if removal { machine.uninstall() } else { machine.install() };
        assert_eq!(machine.log.last(), Some(&broken));
        result.expect_err("a code")
    };
    assert_eq!(fault("inspect", false), "launchd_parent_path_symlink");
    assert_eq!(fault("read", false), "launchd_existing_profile_unreadable");
    assert_eq!(fault("ask", false), "launchctl_command_failed");
    assert_eq!(fault("make agents", false), "launchd_directory_create_failed");
    assert_eq!(fault("make logs", false), "launchd_log_directory_create_failed");
    assert_eq!(fault("inspect logs", false), "launchd_log_path_invalid");
    assert_eq!(fault("create", false), "launchd_plist_write_failed");
    assert_eq!(fault("bootstrap", false), "launchctl_command_failed");
    assert_eq!(fault("inspect", true), "launchd_parent_path_symlink");
    assert_eq!(fault("ask", true), "launchctl_command_failed");
    assert_eq!(fault("read", true), "launchd_existing_profile_unreadable");
    assert_eq!(fault("bootout", true), "launchctl_command_failed");
    assert_eq!(fault("remove", true), "launchd_plist_remove_failed");
    assert_eq!(
        Machine::new(None, true).install().err(),
        Some("launchd_existing_service_unmanaged".to_string())
    );
    assert_eq!(
        Machine::new(None, true).uninstall().err(),
        Some("launchd_existing_service_unmanaged".to_string())
    );
    let not_a_file = kept_profile(ProfileFinding::NotAFile);
    assert_eq!(not_a_file, Err("launchd_existing_profile_invalid".to_string()));
}

#[test]
fn the_description_of_another_service_is_left_alone() {
    let mut foreign = Machine::new(Some("<plist/>".to_string()), true);
    assert_eq!(
        foreign.install().err(),
        Some("launchd_existing_profile_conflict".to_string())
    );
    assert_eq!(
        foreign.uninstall().err(),
        Some("launchd_existing_profile_conflict".to_string())
    );
    assert_eq!(foreign.log, vec!["inspect", "read", "inspect", "ask", "read"]);
    assert_eq!(foreign.description, Some("<plist/>".to_string()));
    assert!(foreign.loaded);

    let case = case();
    let mut machine = Machine::new(None, false);
    let mut step = begin_install(&case);
    while let InstallStep::Ask { stage, action } = step {
        if named(&action) == "create" {
            machine.description = Some("<plist/>".to_string());
        }
        step = install(&case, stage, machine.perform(action));
    }
    assert!(matches!(
        step,
        InstallStep::End(Err(code)) if code == "launchd_existing_profile_conflict"
    ));
    assert!(!machine.loaded);
}

#[test]
fn a_service_stands_the_same_whoever_asks() {
    let written = profile().plist().expect("a description");
    for kept in [Ok(Some(written)), Ok(Some("<plist/>".to_string())), Ok(None)] {
        for answer in [
            Ok(LaunchdServiceState::Loaded),
            Ok(LaunchdServiceState::NotLoaded),
            Err("launchctl_status_failed".to_string()),
        ] {
            let launchctl = Answering(answer);
            let told = status(&launchctl, &profile(), "/agents", 501, &None, &kept);
            let verified = verify(&launchctl, &profile(), "/agents", 501, &None, &kept);
            assert_eq!(format!("{told:?}"), format!("{verified:?}"));
        }
    }
}
