//! What a service is made of: which profiles can be used, what is run, how a text stands in a
//! description, and how a service is told to stand.

use vstd::prelude::*;

use crate::agent_launchd;
use crate::agent_launchd::{LaunchdProfile, LaunchdServiceState, PathFinding, StatusView};
use crate::text;

verus! {

/// A profile can be used if and only if all its paths are absolute and its runner has a name
/// without control characters.
pub proof fn profile_is_usable_when_its_paths_are_absolute(p: LaunchdProfile)
    ensures
        agent_launchd::profile_fault(p) is None <==> {
            &&& text::begins(p.executable@, "/"@)
            &&& text::begins(p.codex_executable@, "/"@)
            &&& text::begins(p.database_path@, "/"@)
            &&& text::begins(p.runtime_config_path@, "/"@)
            &&& text::begins(p.log_directory@, "/"@)
            &&& !text::is_blank(p.runner_id@)
            &&& forall|i: int|
                0 <= i < p.runner_id@.len() ==> 0x1f < (#[trigger] p.runner_id@[i]) as u32 && !(0x7f
                    <= p.runner_id@[i] as u32 <= 0x9f)
        },
{
    assert((exists|i: int|
        0 <= i < p.runner_id@.len() && agent_launchd::is_control(#[trigger] p.runner_id@[i]))
        <==> !(forall|i: int|
        0 <= i < p.runner_id@.len() ==> 0x1f < (#[trigger] p.runner_id@[i]) as u32 && !(0x7f
            <= p.runner_id@[i] as u32 <= 0x9f)));
}

/// A service runs the executable of its profile with its configuration, its database and its
/// runner.
pub proof fn service_runs_its_profile(p: LaunchdProfile)
    ensures
        ({
            let run = agent_launchd::arguments_of(p);
            &&& run.len() == 9
            &&& run[0] == p.executable@
            &&& run[1] == "--config"@
            &&& run[2] == p.runtime_config_path@
            &&& run[3] == "--db"@
            &&& run[4] == p.database_path@
            &&& run[5] == "agent"@
            &&& run[6] == "run"@
            &&& run[7] == "--runner-id"@
            &&& run[8] == p.runner_id@
        }),
{
}

/// Two texts one after the other stand in a description as the one and then the other.
pub proof fn escaping_goes_part_by_part(a: Seq<char>, b: Seq<char>)
    ensures
        agent_launchd::escaped(a + b) == agent_launchd::escaped(a) + agent_launchd::escaped(b),
    decreases b.len(),
{
    if b.len() == 0 {
        assert(a + b =~= a);
    } else {
        escaping_goes_part_by_part(a, b.drop_last());
        assert((a + b).drop_last() =~= a + b.drop_last());
        assert((a + b).last() == b.last());
    }
}

/// A character that means something in markup stands in a description by its name, and any
/// other as it is.
pub proof fn character_is_escaped_by_its_name(c: char)
    ensures
        agent_launchd::escaped(seq!['&']) == "&amp;"@,
        agent_launchd::escaped(seq!['<']) == "&lt;"@,
        agent_launchd::escaped(seq!['>']) == "&gt;"@,
        agent_launchd::escaped(seq!['"']) == "&quot;"@,
        agent_launchd::escaped(seq!['\'']) == "&apos;"@,
        c != '&' && c != '<' && c != '>' && c != '"' && c != '\'' ==> agent_launchd::escaped(
            seq![c],
        ) == seq![c],
{
    one_character(c);
    one_character('&');
    one_character('<');
    one_character('>');
    one_character('"');
    one_character('\'');
}

proof fn one_character(c: char)
    ensures
        agent_launchd::escaped(seq![c]) == agent_launchd::escaped_char(c),
{
    let s = seq![c];
    assert(s.drop_last() =~= Seq::<char>::empty());
    assert(s.last() == c);
    assert(agent_launchd::escaped(s.drop_last()) =~= Seq::<char>::empty());
    assert(agent_launchd::escaped(s) =~= agent_launchd::escaped_char(c));
}

/// A service is loaded where launchd finds it, is not where launchd says that there is none,
/// and anything else that launchd says is a failure.
pub proof fn answer_of_launchd_is_read(success: bool, complaint: Seq<char>)
    ensures
        success ==> agent_launchd::service_answer(success, complaint) == Ok::<
            LaunchdServiceState,
            Seq<char>,
        >(LaunchdServiceState::Loaded),
        !success && (text::occurs(text::lowered(complaint), "could not find service"@)
            || text::occurs(text::lowered(complaint), "no service"@))
            ==> agent_launchd::service_answer(success, complaint) == Ok::<
            LaunchdServiceState,
            Seq<char>,
        >(LaunchdServiceState::NotLoaded),
        !success && !text::occurs(text::lowered(complaint), "could not find service"@)
            && !text::occurs(text::lowered(complaint), "no service"@)
            ==> agent_launchd::service_answer(success, complaint) is Err,
{
}

/// A service is told to be loaded just where launchd says so, and to be the profile's own
/// just where the description that is kept is the one of the profile.
pub proof fn standing_is_what_was_found(
    p: LaunchdProfile,
    agents_dir: Seq<char>,
    kept: Option<Seq<char>>,
    loaded: bool,
)
    requires
        agent_launchd::profile_fault(p) is None,
    ensures
        agent_launchd::standing(p, agents_dir, None, Ok(kept), Ok(loaded)) matches Ok(s) && s.label
            == agent_launchd::label_of(p) && s.loaded == loaded && (s.profile_matches == Some(true)
            <==> kept == Some(agent_launchd::description(p))) && s.profile_matches is Some,
{
}

/// What is wrong is told in order: the directory, the profile, the description that is kept,
/// and then what launchd says.
pub proof fn fault_is_told_in_order(
    p: LaunchdProfile,
    agents_dir: Seq<char>,
    first: Seq<char>,
    kept: Result<Option<Seq<char>>, Seq<char>>,
    loaded: Result<bool, Seq<char>>,
)
    ensures
        agent_launchd::standing(p, agents_dir, Some(first), kept, loaded) == Err::<
            StatusView,
            Seq<char>,
        >(first),
        agent_launchd::profile_fault(p) matches Some(code) ==> agent_launchd::standing(
            p,
            agents_dir,
            None,
            kept,
            loaded,
        ) == Err::<StatusView, Seq<char>>(code),
        agent_launchd::profile_fault(p) is None ==> (kept matches Err(code)
            ==> agent_launchd::standing(p, agents_dir, None, kept, loaded) == Err::<
            StatusView,
            Seq<char>,
        >(code)),
        agent_launchd::profile_fault(p) is None && kept is Ok ==> (loaded matches Err(code)
            ==> agent_launchd::standing(p, agents_dir, None, kept, loaded) == Err::<
            StatusView,
            Seq<char>,
        >(code)),
{
}

/// A directory can be used if and only if its path is absolute, no part of it is a symbolic
/// link, and it is a directory or not there yet.
pub proof fn directory_is_usable_when_it_is_plain(
    path: Seq<char>,
    symlinked: bool,
    finding: PathFinding,
)
    ensures
        agent_launchd::directory_fault(path, symlinked, finding) is None <==> text::begins(
            path,
            "/"@,
        ) && !symlinked && (finding == PathFinding::Absent || finding == PathFinding::Directory),
{
}

/// The logs can be written if and only if no part of their path is a symbolic link, their
/// directory is one or not there yet, and each of them is a file or not there yet.
pub proof fn logs_are_usable_when_they_are_plain(
    symlinked: bool,
    directory: PathFinding,
    out_log: PathFinding,
    err_log: PathFinding,
)
    ensures
        agent_launchd::logs_fault(symlinked, directory, out_log, err_log) is None <==> {
            &&& !symlinked
            &&& directory == PathFinding::Absent || directory == PathFinding::Directory
            &&& out_log == PathFinding::Absent || out_log == PathFinding::File
            &&& err_log == PathFinding::Absent || err_log == PathFinding::File
        },
{
}

/// A path below another one has one slash between the two.
pub proof fn path_below_has_one_slash(directory: Seq<char>, name: Seq<char>)
    requires
        directory.len() > 0,
    ensures
        text::ends(directory, "/"@) ==> agent_launchd::below(directory, name) == directory + name,
        !text::ends(directory, "/"@) ==> agent_launchd::below(directory, name) == directory + "/"@
            + name,
{
}

/// A user is read from digits, with a plus sign or without, where the number is one of a
/// user.
pub proof fn user_is_read_from_digits(value: Seq<char>)
    requires
        text::is_numeral(value),
        text::number_of(value) <= u32::MAX,
    ensures
        agent_launchd::uid_of(value) == Some(text::number_of(value) as int),
        agent_launchd::uid_of(seq!['+'] + value) == Some(text::number_of(value) as int),
{
    assert(text::is_digit(value[0]));
    let signed = seq!['+'] + value;
    assert(signed[0] == '+');
    assert(signed.skip(1) =~= value);
}

} // verus!
