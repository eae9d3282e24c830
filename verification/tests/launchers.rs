use std::collections::BTreeMap;

use tradeassembly_runtime::runner_protocol::{
    after_poll, check_config_path, check_profile, fault_message, is_idle_line, runner_mode,
    BoundedLine, PollOutcome, PollStep, ProtocolFault, RunnerMode, MAX_PROTOCOL_LINE_BYTES,
};
use tradeassembly_runtime::sandbox_launcher::{
    bundle_candidates, bundle_root, forwarded_args, kept_variables, resolve_bundle_paths,
    BundlePaths, FoundFile, CLI_RELATIVE, NODE_RELATIVE,
};

/// Where the paths of a bundle lead, and whether a file is there.
struct Bundle {
    root: String,
    files: BTreeMap<String, (String, bool)>,
}

fn make_bundle() -> Bundle {
    let root = "/bundle".to_string();
    let (node, cli) = bundle_candidates(&root);
    assert_eq!(node, format!("{root}/{NODE_RELATIVE}"));
    assert_eq!(cli, format!("{root}/{CLI_RELATIVE}"));
    let mut files = BTreeMap::new();
    files.insert(node.clone(), (node, true));
    files.insert(cli.clone(), (cli, true));
    Bundle { root, files }
}

fn resolve(bundle: &Bundle) -> Option<BundlePaths> {
    let (node, cli) = bundle_candidates(&bundle.root);
    let find = |path: &str| {
        bundle.files.get(path).map(|(resolved, is_file)| FoundFile {
            resolved: resolved.clone(),
            is_file: *is_file,
        })
    };
    resolve_bundle_paths(&bundle.root, &find(&node), &find(&cli))
}

#[test]
fn bundle_paths_resolve_from_launcher_root() {
    let bundle = make_bundle();
    let paths = resolve(&bundle).expect("valid bundle");
    assert_eq!(paths.node, format!("{}/{NODE_RELATIVE}", bundle.root));
    assert_eq!(paths.cli, format!("{}/{CLI_RELATIVE}", bundle.root));
    assert_eq!(
        bundle_root("/bundle/bin/tradeassembly-sandbox"),
        Some("/bundle".to_string())
    );
    assert_eq!(bundle_root("/bin/tradeassembly-sandbox"), Some("/".to_string()));
    assert_eq!(bundle_root("/bundle/sbin/tradeassembly-sandbox"), None);
    assert_eq!(bundle_root("tradeassembly-sandbox"), None);
}

#[test]
fn missing_dependency_fails_closed() {
    let mut bundle = make_bundle();
    bundle.files.remove(&format!("{}/{CLI_RELATIVE}", bundle.root));
    assert!(resolve(&bundle).is_none());
}

#[test]
fn dependency_symlink_escape_fails_closed() {
    let mut bundle = make_bundle();
    bundle.files.insert(
        format!("{}/{CLI_RELATIVE}", bundle.root),
        ("/outside/cli.js".to_string(), true),
    );
    assert!(resolve(&bundle).is_none());
}

#[test]
fn a_directory_is_no_dependency() {
    let mut bundle = make_bundle();
    let node = format!("{}/{NODE_RELATIVE}", bundle.root);
    bundle.files.insert(node.clone(), (node, false));
    assert!(resolve(&bundle).is_none());
}

#[test]
fn arguments_preserve_spaces_and_metacharacters() {
    let args = vec![
        "--label".to_string(),
        "two words; $HOME && echo unsafe".to_string(),
        "quotes='\" and \\slashes".to_string(),
    ];
    assert_eq!(forwarded_args(&args.clone()), args);
    assert!(forwarded_args(&vec![]).is_empty());
    assert!(!kept_variables().contains(&"PATH"));
    assert!(kept_variables().contains(&"HOME"));
}

fn read(pieces: &[&[u8]]) -> Result<Option<Vec<u8>>, ProtocolFault> {
    let mut line = BoundedLine::new();
    for piece in pieces {
        let taken = line.take_piece(piece);
        if taken.ended {
            break;
        }
    }
    line.finish()
}

#[test]
fn requests_are_read_whole_in_any_pieces() {
    assert_eq!(read(&[b"{\"a\":1}\nrest"]), Ok(Some(b"{\"a\":1}\n".to_vec())));
    assert_eq!(
        read(&[b"{\"a\"", b":1}\n", b"never"]),
        Ok(Some(b"{\"a\":1}\n".to_vec()))
    );
    assert_eq!(read(&[]), Ok(None));
    let mut line = BoundedLine::new();
    let taken = line.take_piece(b"ab\ncd");
    assert_eq!(taken.count, 3);
    assert!(taken.ended);
}

#[test]
fn requests_that_are_too_long_are_refused() {
    let most = vec![b'x'; MAX_PROTOCOL_LINE_BYTES];
    assert_eq!(read(&[&most]), Ok(Some(most.clone())));
    assert_eq!(read(&[&most, b"y"]), Err(ProtocolFault::TooLong));
    assert_eq!(
        fault_message(ProtocolFault::TooLong),
        "runner bridge protocol request exceeds the byte limit"
    );
    assert!(is_idle_line(&b" \t\r\n".to_vec()));
    assert!(!is_idle_line(&b" x\n".to_vec()));
}

#[test]
fn a_runner_is_started_in_one_way() {
    let db = Some("/data/db".to_string());
    let config = Some("/etc/runner.json".to_string());
    assert!(matches!(runner_mode(&db, &None), Ok(RunnerMode::Local { .. })));
    assert!(matches!(runner_mode(&None, &config), Ok(RunnerMode::Configured { .. })));
    assert!(runner_mode(&db, &config).is_err());
    assert!(runner_mode(&None, &None).is_err());
    assert!(check_config_path("/etc/runner.json", true).is_ok());
    assert!(check_config_path("runner.json", true).is_err());
    assert!(check_config_path("/etc/runner.json", false).is_err());
    assert!(check_profile(true).is_ok());
    assert!(check_profile(false).is_err());
}

#[test]
fn failures_are_put_up_with_only_where_they_may_pass() {
    let passing = PollOutcome::Failed { retryable: true };
    let lasting = PollOutcome::Failed { retryable: false };
    assert_eq!(after_poll(false, passing), PollStep::Retry);
    assert_eq!(after_poll(false, lasting), PollStep::Fail);
    assert_eq!(after_poll(true, passing), PollStep::Fail);
    assert_eq!(after_poll(true, PollOutcome::Idle), PollStep::Stop);
    assert_eq!(after_poll(false, PollOutcome::Completed), PollStep::Wait);
}
