//! Installing and removing the service of a runner, step by step. The caller performs what a
//! step asks for and hands back what became of it.

use vstd::prelude::*;

use crate::agent_launchd;
use crate::agent_launchd::{
    domain, installed_status, kept_profile, plist_path, removed_status, service_target,
    validate_launch_agents_dir, validate_log_paths, LaunchdLifecycleStatus, LaunchdProfile,
    LaunchdServiceState, PathFinding, ProfileFinding,
};
use crate::text::same;

verus! {

/// Which service is installed or removed, and for whom.
#[derive(Debug)]
pub struct ServiceCase {
    pub profile: LaunchdProfile,
    pub launch_agents_dir: String,
    pub uid: u32,
}

/// What became of what a step asked for.
#[derive(Debug)]
pub enum ServiceEvent {
    /// What stands at the directory of the descriptions, and whether a part of its path is a
    /// symbolic link.
    Directory { symlinked: bool, finding: PathFinding },
    /// What stands where the description is kept.
    Profile(ProfileFinding),
    /// What launchd says of the service.
    State(Result<LaunchdServiceState, String>),
    /// What stands where the logs are to be written.
    Logs { symlinked: bool, directory: PathFinding, out_log: PathFinding, err_log: PathFinding },
    /// It is done.
    Done,
    /// It could not be done, since something was there already.
    Taken,
    /// It could not be done.
    NotDone,
    /// What launchd says of a command.
    Answered(Result<(), String>),
}

/// What a step asks for.
#[derive(Debug)]
pub enum ServiceAction {
    InspectDirectory { path: String },
    ReadProfile { path: String },
    AskState { target: String },
    /// To make a directory, unless there is one.
    MakeDirectory { path: String },
    InspectLogs { directory: String },
    /// To write a new file.
    CreateProfile { path: String, contents: String },
    Bootstrap { domain: String, plist_path: String },
    Bootout { target: String },
    RemoveProfile { path: String },
}

/// Where an installation stands: what it waits for.
#[derive(Debug)]
pub enum InstallStage {
    /// What stands at the directory of the descriptions.
    Inspecting,
    /// The description that is kept.
    Reading,
    /// Whether the service is loaded; `kept` tells whether its description is kept.
    Asking { kept: bool },
    /// The directory of the descriptions.
    MakingDirectory,
    /// The directory of the logs.
    MakingLogs,
    /// What stands where the logs are to be written.
    InspectingLogs,
    /// The description once more, before it is written.
    Rereading,
    /// What became of writing it.
    Creating,
    /// The description once more, before the service is loaded.
    Confirming,
    /// What became of loading the service.
    Loading,
}

/// Where a removal stands: what it waits for.
#[derive(Debug)]
pub enum UninstallStage {
    /// What stands at the directory of the descriptions.
    Inspecting,
    /// Whether the service is loaded.
    Asking,
    /// The description that is kept.
    Reading { loaded: bool },
    /// What became of unloading the service.
    Unloading,
    /// What became of removing the description.
    Removing,
}

/// What comes of a step of an installation.
#[derive(Debug)]
pub enum InstallStep {
    Ask { stage: InstallStage, action: ServiceAction },
    End(Result<LaunchdLifecycleStatus, String>),
}

/// What comes of a step of a removal.
#[derive(Debug)]
pub enum UninstallStep {
    Ask { stage: UninstallStage, action: ServiceAction },
    End(Result<LaunchdLifecycleStatus, String>),
}

impl ServiceCase {
    /// Where the description is kept.
    pub open spec fn file(self) -> Seq<char> {
        agent_launchd::plist_file(
            self.launch_agents_dir@,
            agent_launchd::label_of(self.profile),
        )
    }

    /// What launchd calls the service.
    pub open spec fn target(self) -> Seq<char> {
        agent_launchd::target_of(self.uid, agent_launchd::label_of(self.profile))
    }

    /// Why nothing can be done, if so, once it is known what stands at the directory.
    pub open spec fn fault(self, symlinked: bool, finding: PathFinding) -> Option<Seq<char>> {
        match agent_launchd::directory_fault(self.launch_agents_dir@, symlinked, finding) {
            Some(code) => Some(code),
            None => agent_launchd::profile_fault(self.profile),
        }
    }

    fn own_file(&self) -> (r: Result<String, String>)
        ensures
            match (r, agent_launchd::profile_fault(self.profile)) {
                (Ok(path), None) => path@ == self.file(),
                (Err(e), Some(code)) => e@ == code,
                _ => false,
            },
    {
        let label = self.profile.label()?;
        Ok(plist_path(self.launch_agents_dir.as_str(), label.as_str()))
    }

    fn own_target(&self) -> (r: Result<String, String>)
        ensures
            match (r, agent_launchd::profile_fault(self.profile)) {
                (Ok(target), None) => target@ == self.target(),
                (Err(e), Some(code)) => e@ == code,
                _ => false,
            },
    {
        let label = self.profile.label()?;
        Ok(service_target(self.uid, label.as_str()))
    }
}

/// Whether a step ends an installation with a code.
pub open spec fn refuses(r: InstallStep, code: Seq<char>) -> bool {
    r matches InstallStep::End(Err(e)) && e@ == code
}

/// Whether a step ends an installation with the service in place.
pub open spec fn settles(r: InstallStep, case: ServiceCase) -> bool {
    r matches InstallStep::End(Ok(status)) && status@ == agent_launchd::installed(
        case.profile,
        case.launch_agents_dir@,
    )
}

/// Whether a step of an installation reads the description, and waits for it in a stage.
pub open spec fn reads(r: InstallStep, case: ServiceCase, stage: InstallStage) -> bool {
    r matches InstallStep::Ask { stage: next, action: ServiceAction::ReadProfile { path } } && next
        == stage && path@ == case.file()
}

/// Whether an installation can have come to a stage.
pub open spec fn install_reached(case: ServiceCase, stage: InstallStage) -> bool {
    stage is Inspecting || agent_launchd::profile_fault(case.profile) is None
}

/// Whether an event is one that a stage of an installation waits for.
pub open spec fn install_fits(case: ServiceCase, stage: InstallStage, event: ServiceEvent) -> bool {
    &&& install_reached(case, stage)
    &&& match stage {
        InstallStage::Inspecting => event is Directory,
        InstallStage::Reading | InstallStage::Rereading | InstallStage::Confirming => event is Profile,
        InstallStage::Asking { .. } => event is State,
        InstallStage::MakingDirectory | InstallStage::MakingLogs => event is Done || event is NotDone,
        InstallStage::InspectingLogs => event is Logs,
        InstallStage::Creating => event is Done || event is Taken || event is NotDone,
        InstallStage::Loading => event is Answered,
    }
}

/// Whether a step is the first of an installation.
pub open spec fn install_begins(case: ServiceCase, r: InstallStep) -> bool {
    r matches InstallStep::Ask {
        stage: InstallStage::Inspecting,
        action: ServiceAction::InspectDirectory { path },
    } && path@ == case.launch_agents_dir@
}

/// Whether a step of an installation is the one that a stage and an event lead to.
pub open spec fn install_leads_to(
    case: ServiceCase,
    stage: InstallStage,
    event: ServiceEvent,
    r: InstallStep,
) -> bool {
    match (stage, event) {
        (InstallStage::Inspecting, ServiceEvent::Directory { symlinked, finding }) => match case.fault(
            symlinked,
            finding,
        ) {
            Some(code) => refuses(r, code),
            None => reads(r, case, InstallStage::Reading),
        },
        (InstallStage::Reading, ServiceEvent::Profile(found)) => match agent_launchd::kept_of(found) {
            Err(code) => refuses(r, code),
            Ok(kept) => if kept is Some && kept != Some(agent_launchd::description(case.profile)) {
                refuses(r, "launchd_existing_profile_conflict"@)
            } else {
                r matches InstallStep::Ask {
                    stage: InstallStage::Asking { kept: is_kept },
                    action: ServiceAction::AskState { target },
                } && is_kept == (kept is Some) && target@ == case.target()
            },
        },
        (InstallStage::Asking { kept }, ServiceEvent::State(answer)) => match answer {
            Err(code) => refuses(r, code@),
            Ok(LaunchdServiceState::Loaded) => if kept {
                settles(r, case)
            } else {
                refuses(r, "launchd_existing_service_unmanaged"@)
            },
            Ok(LaunchdServiceState::NotLoaded) => r matches InstallStep::Ask {
                stage: InstallStage::MakingDirectory,
                action: ServiceAction::MakeDirectory { path },
            } && path@ == case.launch_agents_dir@,
        },
        (InstallStage::MakingDirectory, ServiceEvent::Done) => r matches InstallStep::Ask {
            stage: InstallStage::MakingLogs,
            action: ServiceAction::MakeDirectory { path },
        } && path@ == case.profile.log_directory@,
        (InstallStage::MakingDirectory, _) => refuses(r, "launchd_directory_create_failed"@),
        (InstallStage::MakingLogs, ServiceEvent::Done) => r matches InstallStep::Ask {
            stage: InstallStage::InspectingLogs,
            action: ServiceAction::InspectLogs { directory },
        } && directory@ == case.profile.log_directory@,
        (InstallStage::MakingLogs, _) => refuses(r, "launchd_log_directory_create_failed"@),
        (
            InstallStage::InspectingLogs,
            ServiceEvent::Logs { symlinked, directory, out_log, err_log },
        ) => match agent_launchd::logs_fault(symlinked, directory, out_log, err_log) {
            Some(code) => refuses(r, code),
            None => reads(r, case, InstallStage::Rereading),
        },
        (InstallStage::Rereading, ServiceEvent::Profile(found)) => match agent_launchd::kept_of(found) {
            Err(code) => refuses(r, code),
            Ok(None) => r matches InstallStep::Ask {
                stage: InstallStage::Creating,
                action: ServiceAction::CreateProfile { path, contents },
            } && path@ == case.file() && contents@ == agent_launchd::description(case.profile),
            Ok(Some(_)) => reads(r, case, InstallStage::Confirming),
        },
        (InstallStage::Creating, ServiceEvent::Done) => reads(r, case, InstallStage::Confirming),
        (InstallStage::Creating, ServiceEvent::Taken) => refuses(
            r,
            "launchd_existing_profile_conflict"@,
        ),
        (InstallStage::Creating, _) => refuses(r, "launchd_plist_write_failed"@),
        (InstallStage::Confirming, ServiceEvent::Profile(found)) => match agent_launchd::kept_of(
            found,
        ) {
            Err(code) => refuses(r, code),
            Ok(kept) => if kept == Some(agent_launchd::description(case.profile)) {
                r matches InstallStep::Ask {
                    stage: InstallStage::Loading,
                    action: ServiceAction::Bootstrap { domain, plist_path },
                } && domain@ == agent_launchd::domain_of(case.uid) && plist_path@ == case.file()
            } else {
                refuses(r, "launchd_existing_profile_conflict"@)
            },
        },
        (InstallStage::Loading, ServiceEvent::Answered(answer)) => match answer {
            Ok(_) => settles(r, case),
            Err(code) => refuses(r, code@),
        },
        _ => false,
    }
}

fn refuse(code: &str) -> (r: InstallStep)
    ensures
        refuses(r, code@),
{
    InstallStep::End(Err(code.to_owned()))
}

fn read_in(case: &ServiceCase, stage: InstallStage) -> (r: InstallStep)
    requires
        agent_launchd::profile_fault(case.profile) is None,
    ensures
        reads(r, *case, stage),
{
    match case.own_file() {
        Ok(path) => InstallStep::Ask { stage, action: ServiceAction::ReadProfile { path } },
        Err(code) => InstallStep::End(Err(code)),
    }
}

fn is_own(case: &ServiceCase, text: &str) -> (r: bool)
    requires
        agent_launchd::profile_fault(case.profile) is None,
    ensures
        r == (text@ == agent_launchd::description(case.profile)),
{
    match case.profile.plist() {
        Ok(own) => same(text, own.as_str()),
        Err(_) => false,
    }
}

fn take_profile(case: &ServiceCase, found: ProfileFinding) -> (r: InstallStep)
    requires
        agent_launchd::profile_fault(case.profile) is None,
    ensures
        install_leads_to(*case, InstallStage::Reading, ServiceEvent::Profile(found), r),
{
    let kept: bool = match kept_profile(found) {
        Err(code) => {
            return InstallStep::End(Err(code));
        },
        Ok(None) => false,
        Ok(Some(text)) => {
            if !is_own(case, text.as_str()) {
                return refuse("launchd_existing_profile_conflict");
            }
            true
        },
    };
    match case.own_target() {
        Ok(target) => InstallStep::Ask {
            stage: InstallStage::Asking { kept },
            action: ServiceAction::AskState { target },
        },
        Err(code) => InstallStep::End(Err(code)),
    }
}

fn take_state(case: &ServiceCase, kept: bool, answer: Result<LaunchdServiceState, String>) -> (r:
    InstallStep)
    requires
        agent_launchd::profile_fault(case.profile) is None,
    ensures
        install_leads_to(*case, InstallStage::Asking { kept }, ServiceEvent::State(answer), r),
{
    match answer {
        Err(code) => InstallStep::End(Err(code)),
        Ok(LaunchdServiceState::Loaded) => if kept {
            InstallStep::End(
                installed_status(&case.profile, case.launch_agents_dir.as_str()),
            )
        } else {
            refuse("launchd_existing_service_unmanaged")
        },
        Ok(LaunchdServiceState::NotLoaded) => InstallStep::Ask {
            stage: InstallStage::MakingDirectory,
            action: ServiceAction::MakeDirectory { path: case.launch_agents_dir.clone() },
        },
    }
}

fn write_profile(case: &ServiceCase, found: ProfileFinding) -> (r: InstallStep)
    requires
        agent_launchd::profile_fault(case.profile) is None,
    ensures
        install_leads_to(*case, InstallStage::Rereading, ServiceEvent::Profile(found), r),
{
    match kept_profile(found) {
        Err(code) => InstallStep::End(Err(code)),
        Ok(Some(_)) => read_in(case, InstallStage::Confirming),
        Ok(None) => match (case.own_file(), case.profile.plist()) {
            (Ok(path), Ok(contents)) => InstallStep::Ask {
                stage: InstallStage::Creating,
                action: ServiceAction::CreateProfile { path, contents },
            },
            (Err(code), _) => InstallStep::End(Err(code)),
            (_, Err(code)) => InstallStep::End(Err(code)),
        },
    }
}

fn load_service(case: &ServiceCase, found: ProfileFinding) -> (r: InstallStep)
    requires
        agent_launchd::profile_fault(case.profile) is None,
    ensures
        install_leads_to(*case, InstallStage::Confirming, ServiceEvent::Profile(found), r),
{
    let own: bool = match kept_profile(found) {
        Err(code) => {
            return InstallStep::End(Err(code));
        },
        Ok(None) => false,
        Ok(Some(text)) => is_own(case, text.as_str()),
    };
    if !own {
        return refuse("launchd_existing_profile_conflict");
    }
    match case.own_file() {
        Ok(file) => InstallStep::Ask {
            stage: InstallStage::Loading,
            action: ServiceAction::Bootstrap { domain: domain(case.uid), plist_path: file },
        },
        Err(code) => InstallStep::End(Err(code)),
    }
}

/// Begins to install the service of a profile.
pub fn begin_install(case: &ServiceCase) -> (r: InstallStep)
    ensures
        install_begins(*case, r),
{
    InstallStep::Ask {
        stage: InstallStage::Inspecting,
        action: ServiceAction::InspectDirectory { path: case.launch_agents_dir.clone() },
    }
}

/// The next step of an installation. A service or a description that is not the profile's own
/// is left alone.
pub fn install(case: &ServiceCase, stage: InstallStage, event: ServiceEvent) -> (r: InstallStep)
    requires
        install_fits(*case, stage, event),
    ensures
        install_leads_to(*case, stage, event, r),
        r matches InstallStep::Ask { stage: next, .. } ==> install_reached(*case, next),
{
    match (stage, event) {
        (InstallStage::Inspecting, ServiceEvent::Directory { symlinked, finding }) => {
            if let Err(code) = validate_launch_agents_dir(
                case.launch_agents_dir.as_str(),
                symlinked,
                finding,
            ) {
                return InstallStep::End(Err(code));
            }
            if let Err(code) = case.profile.validate() {
                return InstallStep::End(Err(code));
            }
            read_in(case, InstallStage::Reading)
        },
        (InstallStage::Reading, ServiceEvent::Profile(found)) => take_profile(case, found),
        (InstallStage::Asking { kept }, ServiceEvent::State(answer)) => take_state(
            case,
            kept,
            answer,
        ),
        (InstallStage::MakingDirectory, ServiceEvent::Done) => InstallStep::Ask {
            stage: InstallStage::MakingLogs,
            action: ServiceAction::MakeDirectory { path: case.profile.log_directory.clone() },
        },
        (InstallStage::MakingDirectory, _) => refuse("launchd_directory_create_failed"),
        (InstallStage::MakingLogs, ServiceEvent::Done) => InstallStep::Ask {
            stage: InstallStage::InspectingLogs,
            action: ServiceAction::InspectLogs { directory: case.profile.log_directory.clone() },
        },
        (InstallStage::MakingLogs, _) => refuse("launchd_log_directory_create_failed"),
        (
            InstallStage::InspectingLogs,
            ServiceEvent::Logs { symlinked, directory, out_log, err_log },
        ) => match validate_log_paths(symlinked, directory, out_log, err_log) {
            Ok(_) => read_in(case, InstallStage::Rereading),
            Err(code) => InstallStep::End(Err(code)),
        },
        (InstallStage::Rereading, ServiceEvent::Profile(found)) => write_profile(case, found),
        (InstallStage::Creating, ServiceEvent::Done) => read_in(case, InstallStage::Confirming),
        (InstallStage::Creating, ServiceEvent::Taken) => refuse("launchd_existing_profile_conflict"),
        (InstallStage::Creating, _) => refuse("launchd_plist_write_failed"),
        (InstallStage::Confirming, ServiceEvent::Profile(found)) => load_service(case, found),
        (InstallStage::Loading, ServiceEvent::Answered(Err(code))) => InstallStep::End(Err(code)),
        _ => InstallStep::End(installed_status(&case.profile, case.launch_agents_dir.as_str())),
    }
}

/// Whether a step ends a removal with a code.
pub open spec fn keeps(r: UninstallStep, code: Seq<char>) -> bool {
    r matches UninstallStep::End(Err(e)) && e@ == code
}

/// Whether a step ends a removal with the service gone.
pub open spec fn is_gone(r: UninstallStep, case: ServiceCase) -> bool {
    r matches UninstallStep::End(Ok(status)) && status@ == agent_launchd::removed(
        case.profile,
        case.launch_agents_dir@,
    )
}

/// Whether a step removes the description.
pub open spec fn removes(r: UninstallStep, case: ServiceCase) -> bool {
    r matches UninstallStep::Ask {
        stage: UninstallStage::Removing,
        action: ServiceAction::RemoveProfile { path },
    } && path@ == case.file()
}

/// Whether a removal can have come to a stage.
pub open spec fn uninstall_reached(case: ServiceCase, stage: UninstallStage) -> bool {
    stage is Inspecting || agent_launchd::profile_fault(case.profile) is None
}

/// Whether an event is one that a stage of a removal waits for.
pub open spec fn uninstall_fits(case: ServiceCase, stage: UninstallStage, event: ServiceEvent) -> bool {
    &&& uninstall_reached(case, stage)
    &&& match stage {
        UninstallStage::Inspecting => event is Directory,
        UninstallStage::Asking => event is State,
        UninstallStage::Reading { .. } => event is Profile,
        UninstallStage::Unloading => event is Answered,
        UninstallStage::Removing => event is Done || event is NotDone,
    }
}

/// Whether a step is the first of a removal.
pub open spec fn uninstall_begins(case: ServiceCase, r: UninstallStep) -> bool {
    r matches UninstallStep::Ask {
        stage: UninstallStage::Inspecting,
        action: ServiceAction::InspectDirectory { path },
    } && path@ == case.launch_agents_dir@
}

/// Whether a step of a removal is the one that a stage and an event lead to.
pub open spec fn uninstall_leads_to(
    case: ServiceCase,
    stage: UninstallStage,
    event: ServiceEvent,
    r: UninstallStep,
) -> bool {
    match (stage, event) {
        (UninstallStage::Inspecting, ServiceEvent::Directory { symlinked, finding }) => match case.fault(
            symlinked,
            finding,
        ) {
            Some(code) => keeps(r, code),
            None => r matches UninstallStep::Ask {
                stage: UninstallStage::Asking,
                action: ServiceAction::AskState { target },
            } && target@ == case.target(),
        },
        (UninstallStage::Asking, ServiceEvent::State(answer)) => match answer {
            Err(code) => keeps(r, code@),
            Ok(state) => r matches UninstallStep::Ask {
                stage: UninstallStage::Reading { loaded },
                action: ServiceAction::ReadProfile { path },
            } && loaded == (state == LaunchdServiceState::Loaded) && path@ == case.file(),
        },
        (UninstallStage::Reading { loaded }, ServiceEvent::Profile(found)) => match agent_launchd::kept_of(
            found,
        ) {
            Err(code) => keeps(r, code),
            Ok(None) => if loaded {
                keeps(r, "launchd_existing_service_unmanaged"@)
            } else {
                is_gone(r, case)
            },
            Ok(Some(text)) => if text != agent_launchd::description(case.profile) {
                keeps(r, "launchd_existing_profile_conflict"@)
            } else if loaded {
                r matches UninstallStep::Ask {
                    stage: UninstallStage::Unloading,
                    action: ServiceAction::Bootout { target },
                } && target@ == case.target()
            } else {
                removes(r, case)
            },
        },
        (UninstallStage::Unloading, ServiceEvent::Answered(answer)) => match answer {
            Ok(_) => removes(r, case),
            Err(code) => keeps(r, code@),
        },
        (UninstallStage::Removing, ServiceEvent::Done) => is_gone(r, case),
        (UninstallStage::Removing, _) => keeps(r, "launchd_plist_remove_failed"@),
        _ => false,
    }
}

fn remove_file(case: &ServiceCase) -> (r: UninstallStep)
    requires
        agent_launchd::profile_fault(case.profile) is None,
    ensures
        removes(r, *case),
{
    match case.own_file() {
        Ok(path) => UninstallStep::Ask {
            stage: UninstallStage::Removing,
            action: ServiceAction::RemoveProfile { path },
        },
        Err(code) => UninstallStep::End(Err(code)),
    }
}

fn take_own_profile(case: &ServiceCase, loaded: bool, found: ProfileFinding) -> (r: UninstallStep)
    requires
        agent_launchd::profile_fault(case.profile) is None,
    ensures
        uninstall_leads_to(
            *case,
            UninstallStage::Reading { loaded },
            ServiceEvent::Profile(found),
            r,
        ),
{
    match kept_profile(found) {
        Err(code) => UninstallStep::End(Err(code)),
        Ok(None) => if loaded {
            UninstallStep::End(Err("launchd_existing_service_unmanaged".to_owned()))
        } else {
            UninstallStep::End(removed_status(&case.profile, case.launch_agents_dir.as_str()))
        },
        Ok(Some(text)) => {
            if !is_own(case, text.as_str()) {
                return UninstallStep::End(Err("launchd_existing_profile_conflict".to_owned()));
            }
            if !loaded {
                return remove_file(case);
            }
            match case.own_target() {
                Ok(target) => UninstallStep::Ask {
                    stage: UninstallStage::Unloading,
                    action: ServiceAction::Bootout { target },
                },
                Err(code) => UninstallStep::End(Err(code)),
            }
        },
    }
}

/// Begins to remove the service of a profile.
pub fn begin_uninstall(case: &ServiceCase) -> (r: UninstallStep)
    ensures
        uninstall_begins(*case, r),
{
    UninstallStep::Ask {
        stage: UninstallStage::Inspecting,
        action: ServiceAction::InspectDirectory { path: case.launch_agents_dir.clone() },
    }
}

/// The next step of a removal. A service or a description that is not the profile's own is
/// left alone.
pub fn uninstall(case: &ServiceCase, stage: UninstallStage, event: ServiceEvent) -> (r:
    UninstallStep)
    requires
        uninstall_fits(*case, stage, event),
    ensures
        uninstall_leads_to(*case, stage, event, r),
        r matches UninstallStep::Ask { stage: next, .. } ==> uninstall_reached(*case, next),
{
    match (stage, event) {
        (UninstallStage::Inspecting, ServiceEvent::Directory { symlinked, finding }) => {
            if let Err(code) = validate_launch_agents_dir(
                case.launch_agents_dir.as_str(),
                symlinked,
                finding,
            ) {
                return UninstallStep::End(Err(code));
            }
            match case.own_target() {
                Ok(target) => UninstallStep::Ask {
                    stage: UninstallStage::Asking,
                    action: ServiceAction::AskState { target },
                },
                Err(code) => UninstallStep::End(Err(code)),
            }
        },
        (UninstallStage::Asking, ServiceEvent::State(answer)) => match (answer, case.own_file()) {
            (Ok(state), Ok(path)) => UninstallStep::Ask {
                stage: UninstallStage::Reading { loaded: state == LaunchdServiceState::Loaded },
                action: ServiceAction::ReadProfile { path },
            },
            (Err(code), _) => UninstallStep::End(Err(code)),
            (_, Err(code)) => UninstallStep::End(Err(code)),
        },
        (UninstallStage::Reading { loaded }, ServiceEvent::Profile(found)) => take_own_profile(
            case,
            loaded,
            found,
        ),
        (UninstallStage::Unloading, ServiceEvent::Answered(Ok(_))) => remove_file(case),
        (UninstallStage::Unloading, ServiceEvent::Answered(Err(code))) => UninstallStep::End(
            Err(code),
        ),
        (UninstallStage::Removing, ServiceEvent::Done) => UninstallStep::End(
            removed_status(&case.profile, case.launch_agents_dir.as_str()),
        ),
        _ => UninstallStep::End(Err("launchd_plist_remove_failed".to_owned())),
    }
}

/// A service is loaded only from the description of its own profile, which was read from
/// where it is kept at the step before.
pub proof fn service_is_loaded_from_its_own_description(
    case: ServiceCase,
    stage: InstallStage,
    event: ServiceEvent,
    r: InstallStep,
)
    requires
        install_fits(case, stage, event),
        install_leads_to(case, stage, event, r),
    ensures
        r matches InstallStep::Ask { action: ServiceAction::Bootstrap { plist_path, .. }, .. } ==> {
            &&& stage is Confirming
            &&& plist_path@ == case.file()
            &&& event matches ServiceEvent::Profile(found) && agent_launchd::kept_of(found) == Ok::<
                Option<Seq<char>>,
                Seq<char>,
            >(Some(agent_launchd::description(case.profile)))
        },
{
}

/// A description that is not the profile's own is neither replaced nor removed, and its
/// service neither loaded nor unloaded: one is written only where there is none, and what is
/// found to be another's ends the installation and the removal.
pub proof fn foreign_profile_is_left_alone(
    case: ServiceCase,
    stage: InstallStage,
    removal: UninstallStage,
    found: ProfileFinding,
    text: Seq<char>,
    installed: InstallStep,
    removed: UninstallStep,
)
    requires
        agent_launchd::kept_of(found) == Ok::<Option<Seq<char>>, Seq<char>>(Some(text)),
        text != agent_launchd::description(case.profile),
        install_fits(case, stage, ServiceEvent::Profile(found)),
        install_leads_to(case, stage, ServiceEvent::Profile(found), installed),
        uninstall_fits(case, removal, ServiceEvent::Profile(found)),
        uninstall_leads_to(case, removal, ServiceEvent::Profile(found), removed),
    ensures
        refuses(installed, "launchd_existing_profile_conflict"@) || reads(
            installed,
            case,
            InstallStage::Confirming,
        ),
        stage is Confirming ==> refuses(installed, "launchd_existing_profile_conflict"@),
        keeps(removed, "launchd_existing_profile_conflict"@),
{
}

/// What was installed can be removed: the description that an installation writes is one that
/// a removal takes for its own.
pub proof fn installed_service_can_be_removed(
    case: ServiceCase,
    found: ProfileFinding,
    written: InstallStep,
    kept: ProfileFinding,
    loaded: bool,
    r: UninstallStep,
)
    requires
        install_fits(case, InstallStage::Rereading, ServiceEvent::Profile(found)),
        install_leads_to(case, InstallStage::Rereading, ServiceEvent::Profile(found), written),
        written matches InstallStep::Ask {
            action: ServiceAction::CreateProfile { contents, .. },
            ..
        } && kept == ProfileFinding::Text(contents),
        uninstall_leads_to(
            case,
            UninstallStage::Reading { loaded },
            ServiceEvent::Profile(kept),
            r,
        ),
    ensures
        if loaded {
            r matches UninstallStep::Ask { action: ServiceAction::Bootout { target }, .. } && target@
                == case.target()
        } else {
            removes(r, case)
        },
{
}

/// The steps that an installation has still to take.
pub open spec fn install_rest(stage: InstallStage) -> nat {
    match stage {
        InstallStage::Inspecting => 9,
        InstallStage::Reading => 8,
        InstallStage::Asking { .. } => 7,
        InstallStage::MakingDirectory => 6,
        InstallStage::MakingLogs => 5,
        InstallStage::InspectingLogs => 4,
        InstallStage::Rereading => 3,
        InstallStage::Creating => 2,
        InstallStage::Confirming => 1,
        InstallStage::Loading => 0,
    }
}

/// The steps that a removal has still to take.
pub open spec fn uninstall_rest(stage: UninstallStage) -> nat {
    match stage {
        UninstallStage::Inspecting => 4,
        UninstallStage::Asking => 3,
        UninstallStage::Reading { .. } => 2,
        UninstallStage::Unloading => 1,
        UninstallStage::Removing => 0,
    }
}

/// Installations and removals come to an end: every step leaves fewer steps to take.
pub proof fn installations_and_removals_end(
    case: ServiceCase,
    stage: InstallStage,
    event: ServiceEvent,
    r: InstallStep,
    removal: UninstallStage,
    happened: ServiceEvent,
    s: UninstallStep,
)
    requires
        install_fits(case, stage, event),
        install_leads_to(case, stage, event, r),
        uninstall_fits(case, removal, happened),
        uninstall_leads_to(case, removal, happened, s),
    ensures
        r matches InstallStep::Ask { stage: next, .. } ==> install_rest(next) < install_rest(stage),
        s matches UninstallStep::Ask { stage: next, .. } ==> uninstall_rest(next) < uninstall_rest(
            removal,
        ),
{
}

} // verus!
