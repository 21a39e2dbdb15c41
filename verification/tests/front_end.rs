use svd_cli::Call;
use svd_cli::CliArgs;
use svd_cli::Command;
use svd_cli::UsageError;
use svd_cli::cli::usage_text;
use svd_cli::exit_code;
use svd_cli::parse_args;

fn args(v: &[&str]) -> Vec<String> {
    v.iter().map(|s| s.to_string()).collect()
}

#[test]
fn parse_patch_minimal() {
    match parse_args(&args(&["patch", "foo.svd"])) {
        Ok(Command::Patch { svd_file }) => assert_eq!(svd_file, "foo.svd"),
        other => panic!("expected Patch, got {:?}", other),
    }
}

#[test]
fn parse_makedeps_minimal() {
    match parse_args(&args(&["makedeps", "in.yaml", "out.d"])) {
        Ok(Command::Makedeps { yaml_file, deps_file }) => {
            assert_eq!(yaml_file, "in.yaml");
            assert_eq!(deps_file, "out.d");
        }
        other => panic!("expected Makedeps, got {:?}", other),
    }
}

#[test]
fn parse_interrupts_minimal() {
    match parse_args(&args(&["interrupts", "foo.svd"])) {
        Ok(Command::Interrupts { svd_file, no_gaps }) => {
            assert_eq!(svd_file, "foo.svd");
            assert!(!no_gaps);
        }
        other => panic!("expected Interrupts, got {:?}", other),
    }
}

#[test]
fn parse_interrupts_flag_after_path() {
    match parse_args(&args(&["interrupts", "foo.svd", "--no-gaps"])) {
        Ok(Command::Interrupts { svd_file, no_gaps }) => {
            assert_eq!(svd_file, "foo.svd");
            assert!(no_gaps);
        }
        other => panic!("expected Interrupts, got {:?}", other),
    }
}

#[test]
fn parse_interrupts_flag_before_path() {
    match parse_args(&args(&["interrupts", "--no-gaps", "foo.svd"])) {
        Ok(Command::Interrupts { svd_file, no_gaps }) => {
            assert_eq!(svd_file, "foo.svd");
            assert!(no_gaps);
        }
        other => panic!("expected Interrupts, got {:?}", other),
    }
}

#[test]
fn parse_mmap_minimal() {
    match parse_args(&args(&["mmap", "foo.svd"])) {
        Ok(Command::Mmap { svd_file }) => assert_eq!(svd_file, "foo.svd"),
        other => panic!("expected Mmap, got {:?}", other),
    }
}

#[test]
fn cli_args_parse_wraps_command() {
    match CliArgs::parse(&args(&["mmap", "foo.svd"])) {
        Ok(CliArgs { command: Command::Mmap { svd_file } }) => assert_eq!(svd_file, "foo.svd"),
        other => panic!("expected Mmap, got {:?}", other),
    }
}

#[test]
fn dispatch_default_shows_gaps() {
    let cmd = parse_args(&args(&["interrupts", "foo.svd"])).unwrap();
    match cmd.target() {
        Call::Interrupts { svd_file, show_gaps } => {
            assert_eq!(svd_file, "foo.svd");
            assert!(show_gaps);
        }
        other => panic!("expected Interrupts call, got {:?}", other),
    }
}

#[test]
fn dispatch_no_gaps_hides_gaps() {
    let cmd = parse_args(&args(&["interrupts", "foo.svd", "--no-gaps"])).unwrap();
    match cmd.target() {
        Call::Interrupts { svd_file, show_gaps } => {
            assert_eq!(svd_file, "foo.svd");
            assert!(!show_gaps);
        }
        other => panic!("expected Interrupts call, got {:?}", other),
    }
}

#[test]
fn dispatch_patch_fields() {
    let cmd = Command::Patch { svd_file: "p.yaml".to_string() };
    match cmd.target() {
        Call::Patch { svd_file } => assert_eq!(svd_file, "p.yaml"),
        other => panic!("expected Patch call, got {:?}", other),
    }
}

#[test]
fn dispatch_makedeps_fields() {
    let cmd = Command::Makedeps {
        yaml_file: "in.yaml".to_string(),
        deps_file: "out.d".to_string(),
    };
    match cmd.target() {
        Call::Makedeps { yaml_file, deps_file } => {
            assert_eq!(yaml_file, "in.yaml");
            assert_eq!(deps_file, "out.d");
        }
        other => panic!("expected Makedeps call, got {:?}", other),
    }
}

#[test]
fn dispatch_mmap_fields() {
    let cmd = Command::Mmap { svd_file: "m.svd".to_string() };
    match cmd.target() {
        Call::Mmap { svd_file } => assert_eq!(svd_file, "m.svd"),
        other => panic!("expected Mmap call, got {:?}", other),
    }
}

#[test]
fn unknown_subcommand_rejected() {
    let r = parse_args(&args(&["frobnicate", "foo.svd"]));
    assert_eq!(r.unwrap_err(), UsageError::UnknownCommand);
}

#[test]
fn empty_argument_vector_rejected() {
    let r = parse_args(&args(&[]));
    assert_eq!(r.unwrap_err(), UsageError::MissingCommand);
}

#[test]
fn makedeps_missing_argument_rejected() {
    let r = parse_args(&args(&["makedeps", "only_one_arg"]));
    assert_eq!(r.unwrap_err(), UsageError::BadArguments);
}

#[test]
fn patch_missing_argument_rejected() {
    let r = parse_args(&args(&["patch"]));
    assert_eq!(r.unwrap_err(), UsageError::BadArguments);
}

#[test]
fn interrupts_flag_without_path_rejected() {
    let r = parse_args(&args(&["interrupts", "--no-gaps"]));
    assert_eq!(r.unwrap_err(), UsageError::BadArguments);
}

#[test]
fn interrupts_duplicate_flag_rejected() {
    let r = parse_args(&args(&["interrupts", "--no-gaps", "--no-gaps"]));
    assert_eq!(r.unwrap_err(), UsageError::BadArguments);
}

#[test]
fn mmap_extra_argument_rejected() {
    let r = parse_args(&args(&["mmap", "a.svd", "b.svd"]));
    assert_eq!(r.unwrap_err(), UsageError::BadArguments);
}

#[test]
fn makedeps_extra_argument_rejected() {
    let r = parse_args(&args(&["makedeps", "a.yaml", "b.d", "c"]));
    assert_eq!(r.unwrap_err(), UsageError::BadArguments);
}

#[test]
fn patch_flag_like_path_rejected() {
    let r = parse_args(&args(&["patch", "--out"]));
    assert_eq!(r.unwrap_err(), UsageError::BadArguments);
}

#[test]
fn makedeps_flag_like_path_rejected() {
    let r = parse_args(&args(&["makedeps", "--in.yaml", "out.d"]));
    assert_eq!(r.unwrap_err(), UsageError::BadArguments);
}

#[test]
fn interrupts_unknown_flag_rejected() {
    let r = parse_args(&args(&["interrupts", "--gaps", "foo.svd"]));
    assert_eq!(r.unwrap_err(), UsageError::BadArguments);
}

#[test]
fn mmap_flag_like_path_rejected() {
    let r = parse_args(&args(&["mmap", "-x"]));
    assert_eq!(r.unwrap_err(), UsageError::BadArguments);
}

#[test]
fn usage_error_messages() {
    assert_eq!(UsageError::MissingCommand.message(), "missing subcommand");
    assert_eq!(UsageError::UnknownCommand.message(), "unknown subcommand");
    assert_eq!(UsageError::BadArguments.message(), "wrong arguments for the subcommand");
    assert!(usage_text().starts_with("usage:"));
}

#[test]
fn patch_failure_propagates() {
    let cmd = Command::Patch { svd_file: "no_such_directory_here/x.yaml".to_string() };
    let outcome = cmd.run();
    let e = outcome.as_ref().unwrap_err();
    assert!(!format!("{:?}", e).is_empty());
    assert_eq!(exit_code(&outcome), 1);
}

#[test]
fn makedeps_failure_propagates() {
    let cmd = Command::Makedeps {
        yaml_file: "no_such_directory_here/x.yaml".to_string(),
        deps_file: "no_such_directory_here/x.d".to_string(),
    };
    let outcome = cmd.run();
    assert!(outcome.is_err());
    assert_eq!(exit_code(&outcome), 1);
}

#[test]
fn interrupts_failure_propagates() {
    let cmd = Command::Interrupts {
        svd_file: "no_such_directory_here/x.svd".to_string(),
        no_gaps: false,
    };
    let outcome = cmd.run();
    assert!(outcome.is_err());
    assert_eq!(exit_code(&outcome), 1);
}

#[test]
fn mmap_failure_propagates() {
    // A file that exists but is no SVD document: the collaborator fails
    // after opening it, and the failure carries the file's name.
    let cmd = Command::Mmap { svd_file: "/proc/self/status".to_string() };
    let outcome = cmd.run();
    let e = outcome.as_ref().unwrap_err();
    assert!(format!("{:?}", e).contains("/proc/self/status"));
    assert_eq!(exit_code(&outcome), 1);
}

#[test]
fn collaborator_error_message_is_kept() {
    let outcome: Result<(), anyhow::Error> = Err(anyhow::Error::msg("collaborator failed"));
    let e = outcome.as_ref().unwrap_err();
    assert!(format!("{:?}", e).contains("collaborator failed"));
    assert_eq!(exit_code(&outcome), 1);
}

#[test]
fn success_maps_to_exit_zero() {
    let outcome: Result<(), anyhow::Error> = Ok(());
    assert_eq!(exit_code(&outcome), 0);
}
