use clap::error::ErrorKind;
use clap::ArgMatches;
use dotenv_cli::command::{is_valid, new};
use dotenv_cli::grammar::{build_program, ArgKind, PackageInfo, ProgramSpec};
use dotenv_cli::resolve::{resolve_flag, resolve_values, ValueError};

fn info() -> PackageInfo {
    PackageInfo {
        name: "dotenv-linter".to_string(),
        version: "3.2.0".to_string(),
        description: "Lightning-fast linter for .env files".to_string(),
        authors: "Mikhail Grachev".to_string(),
    }
}

fn program() -> ProgramSpec {
    build_program(info(), "/work/dir")
}

fn parse(p: &ProgramSpec, args: &[&str]) -> Result<ArgMatches, clap::Error> {
    let mut argv = vec!["dotenv-linter"];
    argv.extend_from_slice(args);
    new(p).try_get_matches_from(argv)
}

fn values(m: &ArgMatches, name: &str) -> Vec<String> {
    #[allow(deprecated)]
    let v = m.values_of(name);
    v.map(|v| v.map(|s| s.to_string()).collect()).unwrap_or_default()
}

#[allow(deprecated)]
fn present(m: &ArgMatches, name: &str) -> bool {
    m.is_present(name)
}

#[test]
fn verify_app() {
    let p = build_program(info(), "/home/user/project");
    assert!(is_valid(&p));
    new(&p).debug_assert();
}

#[test]
fn subcommand_names_are_the_four_distinct_names() {
    let p = program();
    let names: Vec<&str> = p.subcommands.iter().map(|c| c.name.as_str()).collect();
    assert_eq!(names, vec!["check", "compare", "fix", "list"]);
    for n in ["check", "fix", "compare", "list"] {
        assert_eq!(names.iter().filter(|x| **x == n).count(), 1);
    }
}

#[test]
fn program_identity_comes_from_package_info() {
    let p = program();
    assert_eq!(p.name, "dotenv-linter");
    assert_eq!(p.version, "3.2.0");
    assert_eq!(p.about, "Lightning-fast linter for .env files");
    assert_eq!(p.author, "Mikhail Grachev");
    assert_eq!(p.version_short, Some('v'));
    assert!(!p.help_subcommand);
    assert!(p.subcommand_required);
    assert!(p.propagate_version);
}

#[test]
fn compare_rejects_fewer_than_two_inputs() {
    let p = program();
    let err = parse(&p, &["compare", "a.env"]).unwrap_err();
    assert_eq!(err.kind(), ErrorKind::TooFewValues);
    assert!(parse(&p, &["compare"]).is_err());
}

#[test]
fn compare_accepts_two_or_more_inputs() {
    let p = program();
    let m = parse(&p, &["compare", "a.env", "b.env"]).unwrap();
    let (name, sub) = m.subcommand().unwrap();
    assert_eq!(name, "compare");
    assert_eq!(values(sub, "input"), vec!["a.env", "b.env"]);
    let m = parse(&p, &["compare", "a.env", "b.env", "c.env"]).unwrap();
    let (_, sub) = m.subcommand().unwrap();
    assert_eq!(values(sub, "input"), vec!["a.env", "b.env", "c.env"]);
}

#[test]
fn check_and_fix_default_input_is_current_dir() {
    let p = program();
    for cmd in ["check", "fix"] {
        let m = parse(&p, &[cmd]).unwrap();
        let (name, sub) = m.subcommand().unwrap();
        assert_eq!(name, cmd);
        assert_eq!(values(sub, "input"), vec!["/work/dir"]);
    }
}

#[test]
fn no_backup_is_a_flag_without_value() {
    let p = program();
    let m = parse(&p, &["fix", "--no-backup"]).unwrap();
    let (_, sub) = m.subcommand().unwrap();
    assert!(present(sub, "no-backup"));
    assert!(parse(&p, &["fix", "--no-backup=true"]).is_err());
    let fix = &p.subcommands[2];
    assert_eq!(fix.args[4].name, "no-backup");
    assert_eq!(fix.args[4].kind, ArgKind::Flag);
}

#[test]
fn global_flags_before_or_after_each_subcommand() {
    let p = program();
    for cmd in ["check", "fix", "list"] {
        for args in [vec!["-q", "--no-color", cmd], vec![cmd, "--quiet", "--no-color"]] {
            let m = parse(&p, &args).unwrap();
            let (name, sub) = m.subcommand().unwrap();
            assert_eq!(name, cmd);
            assert!(present(sub, "quiet"));
            assert!(present(sub, "no-color"));
        }
    }
    let m = parse(&p, &["-q", "compare", "a", "b", "--no-color"]).unwrap();
    let (_, sub) = m.subcommand().unwrap();
    assert!(present(sub, "quiet"));
    assert!(present(sub, "no-color"));
    assert_eq!(values(sub, "input"), vec!["a", "b"]);
}

#[test]
fn no_color_env_sets_flag() {
    let p = program();
    let no_color = &p.globals[0];
    assert_eq!(no_color.env.as_deref(), Some("NO_COLOR"));
    assert!(resolve_flag(false, Some("1")));
    assert!(resolve_flag(false, Some("")));
    assert!(resolve_flag(true, None));
    assert!(!resolve_flag(false, None));
}

#[test]
fn list_rejects_any_argument() {
    let p = program();
    assert!(parse(&p, &["list"]).is_ok());
    assert!(parse(&p, &["list", "a.env"]).is_err());
    assert!(parse(&p, &["list", "-e", "a.env"]).is_err());
    assert!(parse(&p, &["list", "--recursive"]).is_err());
}

#[test]
fn check_recursive_scenario() {
    let p = program();
    let m = parse(&p, &["check", "-r", "./envs"]).unwrap();
    let (name, sub) = m.subcommand().unwrap();
    assert_eq!(name, "check");
    assert_eq!(values(sub, "input"), vec!["./envs"]);
    assert!(present(sub, "recursive"));
    assert!(values(sub, "exclude").is_empty());
    assert!(values(sub, "skip").is_empty());
}

#[test]
fn compare_single_input_scenario() {
    let p = program();
    let err = parse(&p, &["compare", "a.env"]).unwrap_err();
    assert_eq!(err.kind(), ErrorKind::TooFewValues);
}

#[test]
fn fix_no_backup_scenario() {
    let p = program();
    let m = parse(&p, &["fix", "--no-backup", "a.env", "b.env"]).unwrap();
    let (name, sub) = m.subcommand().unwrap();
    assert_eq!(name, "fix");
    assert_eq!(values(sub, "input"), vec!["a.env", "b.env"]);
    assert!(present(sub, "no-backup"));
}

#[test]
fn exclude_and_skip_take_values() {
    let p = program();
    let m = parse(&p, &["check", "a.env", "-e", "x.env", "--skip", "LowercaseKey"]).unwrap();
    let (_, sub) = m.subcommand().unwrap();
    assert_eq!(values(sub, "exclude"), vec!["x.env"]);
    assert_eq!(values(sub, "skip"), vec!["LowercaseKey"]);
    assert_eq!(values(sub, "input"), vec!["a.env"]);
}

#[test]
fn missing_subcommand_is_refused() {
    let p = program();
    let err = parse(&p, &[]).unwrap_err();
    assert_eq!(err.kind(), ErrorKind::MissingSubcommand);
    assert!(parse(&p, &["-v"]).is_err());
    assert!(parse(&p, &["help"]).is_err());
}

#[test]
fn short_dash_is_invalid() {
    let mut p = program();
    assert!(is_valid(&p));
    p.subcommands[0].args[3].short = Some('-');
    assert!(!is_valid(&p));
    let mut q = program();
    q.version_short = Some('-');
    assert!(!is_valid(&q));
}

fn strings(v: &[&str]) -> Vec<String> {
    v.iter().map(|s| s.to_string()).collect()
}

#[test]
fn compare_input_count_resolution() {
    let p = program();
    let input = &p.subcommands[1].args[0];
    assert_eq!(resolve_values(input, vec![]), Err(ValueError::MissingRequiredArgument));
    assert_eq!(resolve_values(input, strings(&["a.env"])), Err(ValueError::BelowMinimumOccurrence));
    assert_eq!(resolve_values(input, strings(&["a.env", "b.env"])), Ok(strings(&["a.env", "b.env"])));
    assert_eq!(
        resolve_values(input, strings(&["a.env", "b.env", "c.env"])),
        Ok(strings(&["a.env", "b.env", "c.env"]))
    );
}

#[test]
fn input_default_resolution() {
    let p = program();
    for i in [0, 2] {
        let input = &p.subcommands[i].args[0];
        assert_eq!(resolve_values(input, vec![]), Ok(strings(&["/work/dir"])));
        assert_eq!(resolve_values(input, strings(&["./envs"])), Ok(strings(&["./envs"])));
    }
}

#[test]
fn options_without_values_resolve_empty() {
    let p = program();
    let check = &p.subcommands[0];
    assert_eq!(resolve_values(&check.args[1], vec![]), Ok(vec![]));
    assert_eq!(resolve_values(&check.args[2], strings(&["LowercaseKey"])), Ok(strings(&["LowercaseKey"])));
}

#[test]
fn clap_command_carries_identity_and_settings() {
    let p = program();
    let cmd = new(&p);
    assert_eq!(cmd.get_name(), "dotenv-linter");
    assert_eq!(cmd.get_version(), Some("3.2.0"));
    assert_eq!(cmd.get_about(), Some("Lightning-fast linter for .env files"));
    assert_eq!(cmd.get_author(), Some("Mikhail Grachev"));
    assert!(cmd.is_disable_help_subcommand_set());
    assert!(cmd.is_subcommand_required_set());
    assert!(cmd.is_propagate_version_set());
    let subs: Vec<&str> = cmd.get_subcommands().map(|s| s.get_name()).collect();
    assert_eq!(subs, vec!["check", "compare", "fix", "list"]);
    let args: Vec<&str> = cmd.get_arguments().map(|a| a.get_id()).collect();
    assert_eq!(args, vec!["help", "version", "no-color", "quiet"]);
    let version = cmd.get_arguments().find(|a| a.get_id() == "version").unwrap();
    assert_eq!(version.get_short(), Some('v'));
    let no_color = cmd.get_arguments().find(|a| a.get_id() == "no-color").unwrap();
    assert_eq!(no_color.get_long(), Some("no-color"));
    assert_eq!(no_color.get_short(), None);
    assert!(no_color.is_global_set());
    assert_eq!(no_color.get_help(), Some("Turns off the colored output"));
    let quiet = cmd.get_arguments().find(|a| a.get_id() == "quiet").unwrap();
    assert_eq!(quiet.get_short(), Some('q'));
    assert!(quiet.is_global_set());
}

#[test]
fn clap_arguments_follow_the_grammar() {
    let p = program();
    let cmd = new(&p);
    let check = cmd.get_subcommands().find(|s| s.get_name() == "check").unwrap();
    assert_eq!(check.get_about(), Some("Checks files for issues"));
    let input = check.get_arguments().find(|a| a.get_id() == "input").unwrap();
    assert_eq!(input.get_index(), Some(1));
    assert_eq!(input.get_help(), Some("files or paths"));
    let defaults: Vec<&str> = input.get_default_values().iter().map(|v| v.to_str().unwrap()).collect();
    assert_eq!(defaults, vec!["/work/dir"]);
    assert!(input.is_multiple_occurrences_set());
    assert!(input.is_multiple_values_set());
    assert!(input.is_takes_value_set());
    let exclude = check.get_arguments().find(|a| a.get_id() == "exclude").unwrap();
    assert_eq!(exclude.get_short(), Some('e'));
    assert_eq!(exclude.get_long(), Some("exclude"));
    assert_eq!(exclude.get_value_names(), Some(&["FILE_NAME"][..]));
    assert!(exclude.is_takes_value_set());
    let recursive = check.get_arguments().find(|a| a.get_id() == "recursive").unwrap();
    assert!(!recursive.is_takes_value_set());
    assert!(!recursive.is_multiple_occurrences_set());
    let compare = cmd.get_subcommands().find(|s| s.get_name() == "compare").unwrap();
    let input = compare.get_arguments().find(|a| a.get_id() == "input").unwrap();
    assert!(input.is_required_set());
    assert!(!input.is_global_set());
    assert_eq!(input.get_default_values().len(), 0);
    let list = cmd.get_subcommands().find(|s| s.get_name() == "list").unwrap();
    let list_args: Vec<&str> = list.get_arguments().map(|a| a.get_id()).collect();
    assert_eq!(list_args, vec!["help", "version"]);
}

#[test]
fn usage_override_is_shown() {
    let p = program();
    let err = parse(&p, &["compare", "a.env"]).unwrap_err();
    assert!(err.to_string().contains("dotenv-linter compare [OPTIONS] <input>..."));
    let err = parse(&p, &["fix", "--bogus"]).unwrap_err();
    assert!(err.to_string().contains("dotenv-linter fix [OPTIONS] <input>..."));
}
