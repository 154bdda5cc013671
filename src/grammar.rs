use vstd::prelude::*;

verus! {

/// How an argument takes its values.
#[derive(PartialEq, Eq, Structural, Clone, Copy, Debug)]
pub enum ArgKind {
    /// A positional argument at the given index (counted from 1).
    Positional { index: usize },
    /// A boolean flag: present or absent, with no value.
    Flag,
    /// An option that takes a value after its short or long form.
    Valued,
}

/// One argument of a command.
#[derive(Clone, Debug)]
pub struct ArgSpec {
    pub name: String,
    pub short: Option<char>,
    pub long: Option<String>,
    pub value_name: Option<String>,
    /// Environment variable that sets the argument when the command line does not.
    pub env: Option<String>,
    pub kind: ArgKind,
    /// Whether the argument takes several values.
    pub multiple: bool,
    /// Least number of values when the argument is given; 0 sets no bound.
    pub min_values: usize,
    pub required: bool,
    pub default: Option<String>,
    /// Whether the argument is visible to every subcommand.
    pub global: bool,
    pub help: String,
}

/// Mathematical view of an `ArgSpec`.
pub ghost struct ArgView {
    pub name: Seq<char>,
    pub short: Option<char>,
    pub long: Option<Seq<char>>,
    pub value_name: Option<Seq<char>>,
    pub env: Option<Seq<char>>,
    pub kind: ArgKind,
    pub multiple: bool,
    pub min_values: nat,
    pub required: bool,
    pub default: Option<Seq<char>>,
    pub global: bool,
    pub help: Seq<char>,
}

pub open spec fn opt_str_view(s: Option<String>) -> Option<Seq<char>> {
    match s {
        Some(t) => Some(t@),
        None => None,
    }
}

impl View for ArgSpec {
    type V = ArgView;

    open spec fn view(&self) -> ArgView {
        ArgView {
            name: self.name@,
            short: self.short,
            long: opt_str_view(self.long),
            value_name: opt_str_view(self.value_name),
            env: opt_str_view(self.env),
            kind: self.kind,
            multiple: self.multiple,
            min_values: self.min_values as nat,
            required: self.required,
            default: opt_str_view(self.default),
            global: self.global,
            help: self.help@,
        }
    }
}

pub open spec fn args_view(args: Seq<ArgSpec>) -> Seq<ArgView> {
    args.map_values(|a: ArgSpec| a@)
}

/// The positional `input` of `check` and `fix`: any number of paths, the
/// working directory when none is given.
pub open spec fn input_arg(current_dir: Seq<char>) -> ArgView {
    ArgView {
        name: "input"@,
        short: None,
        long: None,
        value_name: None,
        env: None,
        kind: ArgKind::Positional { index: 1 },
        multiple: true,
        min_values: 0,
        required: false,
        default: Some(current_dir),
        global: false,
        help: "files or paths"@,
    }
}

/// `-e/--exclude FILE_NAME`, repeatable.
pub open spec fn exclude_arg() -> ArgView {
    ArgView {
        name: "exclude"@,
        short: Some('e'),
        long: Some("exclude"@),
        value_name: Some("FILE_NAME"@),
        env: None,
        kind: ArgKind::Valued,
        multiple: true,
        min_values: 0,
        required: false,
        default: None,
        global: false,
        help: "Excludes files from check"@,
    }
}

/// `-s/--skip CHECK_NAME`, repeatable.
pub open spec fn skip_arg() -> ArgView {
    ArgView {
        name: "skip"@,
        short: Some('s'),
        long: Some("skip"@),
        value_name: Some("CHECK_NAME"@),
        env: None,
        kind: ArgKind::Valued,
        multiple: true,
        min_values: 0,
        required: false,
        default: None,
        global: false,
        help: "Skips checks"@,
    }
}

/// `-r/--recursive`, a flag.
pub open spec fn recursive_arg() -> ArgView {
    ArgView {
        name: "recursive"@,
        short: Some('r'),
        long: Some("recursive"@),
        value_name: None,
        env: None,
        kind: ArgKind::Flag,
        multiple: false,
        min_values: 0,
        required: false,
        default: None,
        global: false,
        help: "Recursively searches and checks .env files"@,
    }
}

/// The arguments that `check` and `fix` share, in order.
pub open spec fn common_args_view(current_dir: Seq<char>) -> Seq<ArgView> {
    seq![input_arg(current_dir), exclude_arg(), skip_arg(), recursive_arg()]
}

/// Builds the arguments that `check` and `fix` share; `current_dir` is the
/// default of `input`.
pub fn common_args(current_dir: &str) -> (r: Vec<ArgSpec>)
    ensures
        args_view(r@) == common_args_view(current_dir@),
{
    let input = ArgSpec {
        name: "input".to_owned(),
        short: None,
        long: None,
        value_name: None,
        env: None,
        kind: ArgKind::Positional { index: 1 },
        multiple: true,
        min_values: 0,
        required: false,
        default: Some(current_dir.to_owned()),
        global: false,
        help: "files or paths".to_owned(),
    };
    let exclude = ArgSpec {
        name: "exclude".to_owned(),
        short: Some('e'),
        long: Some("exclude".to_owned()),
        value_name: Some("FILE_NAME".to_owned()),
        env: None,
        kind: ArgKind::Valued,
        multiple: true,
        min_values: 0,
        required: false,
        default: None,
        global: false,
        help: "Excludes files from check".to_owned(),
    };
    let skip = ArgSpec {
        name: "skip".to_owned(),
        short: Some('s'),
        long: Some("skip".to_owned()),
        value_name: Some("CHECK_NAME".to_owned()),
        env: None,
        kind: ArgKind::Valued,
        multiple: true,
        min_values: 0,
        required: false,
        default: None,
        global: false,
        help: "Skips checks".to_owned(),
    };
    let recursive = ArgSpec {
        name: "recursive".to_owned(),
        short: Some('r'),
        long: Some("recursive".to_owned()),
        value_name: None,
        env: None,
        kind: ArgKind::Flag,
        multiple: false,
        min_values: 0,
        required: false,
        default: None,
        global: false,
        help: "Recursively searches and checks .env files".to_owned(),
    };
    let r = vec![input, exclude, skip, recursive];
    assert(args_view(r@) =~= common_args_view(current_dir@));
    r
}

/// One subcommand: its name, summary, usage override and arguments.
#[derive(Clone, Debug)]
pub struct CommandSpec {
    pub name: String,
    pub about: String,
    /// Usage line shown instead of one derived from the arguments.
    pub usage: Option<String>,
    pub args: Vec<ArgSpec>,
}

/// Mathematical view of a `CommandSpec`.
pub ghost struct CommandView {
    pub name: Seq<char>,
    pub about: Seq<char>,
    pub usage: Option<Seq<char>>,
    pub args: Seq<ArgView>,
}

impl View for CommandSpec {
    type V = CommandView;

    open spec fn view(&self) -> CommandView {
        CommandView {
            name: self.name@,
            about: self.about@,
            usage: opt_str_view(self.usage),
            args: args_view(self.args@),
        }
    }
}

pub open spec fn commands_view(cmds: Seq<CommandSpec>) -> Seq<CommandView> {
    cmds.map_values(|c: CommandSpec| c@)
}

pub open spec fn check_command_view(current_dir: Seq<char>) -> CommandView {
    CommandView {
        name: "check"@,
        about: "Checks files for issues"@,
        usage: None,
        args: common_args_view(current_dir),
    }
}

/// `--no-backup`, a flag of `fix` alone.
pub open spec fn no_backup_arg() -> ArgView {
    ArgView {
        name: "no-backup"@,
        short: None,
        long: Some("no-backup"@),
        value_name: None,
        env: None,
        kind: ArgKind::Flag,
        multiple: false,
        min_values: 0,
        required: false,
        default: None,
        global: false,
        help: "Prevents backing up .env files"@,
    }
}

pub open spec fn fix_command_view(current_dir: Seq<char>) -> CommandView {
    CommandView {
        name: "fix"@,
        about: "Automatically fixes warnings"@,
        usage: Some("dotenv-linter fix [OPTIONS] <input>..."@),
        args: common_args_view(current_dir).push(no_backup_arg()),
    }
}

/// The positional `input` of `compare`: required, at least two values.
pub open spec fn compare_input_arg() -> ArgView {
    ArgView {
        name: "input"@,
        short: None,
        long: None,
        value_name: None,
        env: None,
        kind: ArgKind::Positional { index: 1 },
        multiple: true,
        min_values: 2,
        required: true,
        default: None,
        global: false,
        help: "Files to compare"@,
    }
}

pub open spec fn compare_command_view() -> CommandView {
    CommandView {
        name: "compare"@,
        about: "Compares if files have the same keys"@,
        usage: Some("dotenv-linter compare [OPTIONS] <input>..."@),
        args: seq![compare_input_arg()],
    }
}

pub open spec fn list_command_view() -> CommandView {
    CommandView {
        name: "list"@,
        about: "Shows list of available checks"@,
        usage: Some("dotenv-linter list"@),
        args: seq![],
    }
}

/// Builds `check`: the shared arguments, no usage override.
pub fn check_command(current_dir: &str) -> (r: CommandSpec)
    ensures
        r@ == check_command_view(current_dir@),
{
    CommandSpec {
        name: "check".to_owned(),
        about: "Checks files for issues".to_owned(),
        usage: None,
        args: common_args(current_dir),
    }
}

/// Builds `fix`: the shared arguments and `--no-backup`.
pub fn fix_command(current_dir: &str) -> (r: CommandSpec)
    ensures
        r@ == fix_command_view(current_dir@),
{
    let mut args = common_args(current_dir);
    args.push(ArgSpec {
        name: "no-backup".to_owned(),
        short: None,
        long: Some("no-backup".to_owned()),
        value_name: None,
        env: None,
        kind: ArgKind::Flag,
        multiple: false,
        min_values: 0,
        required: false,
        default: None,
        global: false,
        help: "Prevents backing up .env files".to_owned(),
    });
    let r = CommandSpec {
        name: "fix".to_owned(),
        about: "Automatically fixes warnings".to_owned(),
        usage: Some("dotenv-linter fix [OPTIONS] <input>...".to_owned()),
        args,
    };
    assert(args_view(r.args@) =~= common_args_view(current_dir@).push(no_backup_arg()));
    r
}

/// Builds `compare`: one positional `input` that needs two values or more.
pub fn compare_command() -> (r: CommandSpec)
    ensures
        r@ == compare_command_view(),
{
    let input = ArgSpec {
        name: "input".to_owned(),
        short: None,
        long: None,
        value_name: None,
        env: None,
        kind: ArgKind::Positional { index: 1 },
        multiple: true,
        min_values: 2,
        required: true,
        default: None,
        global: false,
        help: "Files to compare".to_owned(),
    };
    let r = CommandSpec {
        name: "compare".to_owned(),
        about: "Compares if files have the same keys".to_owned(),
        usage: Some("dotenv-linter compare [OPTIONS] <input>...".to_owned()),
        args: vec![input],
    };
    assert(args_view(r.args@) =~= seq![compare_input_arg()]);
    r
}

/// Builds `list`, which takes no argument.
pub fn list_command() -> (r: CommandSpec)
    ensures
        r@ == list_command_view(),
{
    let r = CommandSpec {
        name: "list".to_owned(),
        about: "Shows list of available checks".to_owned(),
        usage: Some("dotenv-linter list".to_owned()),
        args: Vec::new(),
    };
    assert(args_view(r.args@) =~= Seq::<ArgView>::empty());
    r
}

/// `-q/--quiet`, a global flag.
pub open spec fn quiet_arg() -> ArgView {
    ArgView {
        name: "quiet"@,
        short: Some('q'),
        long: Some("quiet"@),
        value_name: None,
        env: None,
        kind: ArgKind::Flag,
        multiple: false,
        min_values: 0,
        required: false,
        default: None,
        global: true,
        help: "Doesn't display additional information"@,
    }
}

/// `--no-color`, a global flag that `NO_COLOR` also sets.
pub open spec fn no_color_arg() -> ArgView {
    ArgView {
        name: "no-color"@,
        short: None,
        long: Some("no-color"@),
        value_name: None,
        env: Some("NO_COLOR"@),
        kind: ArgKind::Flag,
        multiple: false,
        min_values: 0,
        required: false,
        default: None,
        global: true,
        help: "Turns off the colored output"@,
    }
}

/// Builds the global `quiet` flag.
pub fn quiet_flag() -> (r: ArgSpec)
    ensures
        r@ == quiet_arg(),
{
    ArgSpec {
        name: "quiet".to_owned(),
        short: Some('q'),
        long: Some("quiet".to_owned()),
        value_name: None,
        env: None,
        kind: ArgKind::Flag,
        multiple: false,
        min_values: 0,
        required: false,
        default: None,
        global: true,
        help: "Doesn't display additional information".to_owned(),
    }
}

/// Builds the global `no-color` flag, bound to `NO_COLOR`.
pub fn no_color_flag() -> (r: ArgSpec)
    ensures
        r@ == no_color_arg(),
{
    ArgSpec {
        name: "no-color".to_owned(),
        short: None,
        long: Some("no-color".to_owned()),
        value_name: None,
        env: Some("NO_COLOR".to_owned()),
        kind: ArgKind::Flag,
        multiple: false,
        min_values: 0,
        required: false,
        default: None,
        global: true,
        help: "Turns off the colored output".to_owned(),
    }
}

/// Identity of the program, supplied by the caller (from build metadata).
#[derive(Clone, Debug)]
pub struct PackageInfo {
    pub name: String,
    pub version: String,
    pub description: String,
    pub authors: String,
}

/// The whole command-line grammar.
#[derive(Clone, Debug)]
pub struct ProgramSpec {
    pub name: String,
    pub version: String,
    pub about: String,
    pub author: String,
    /// Short alias of `--version`.
    pub version_short: Option<char>,
    /// Whether a `help` subcommand is generated.
    pub help_subcommand: bool,
    /// Whether an invocation must name a subcommand.
    pub subcommand_required: bool,
    /// Whether every subcommand reports the program's version.
    pub propagate_version: bool,
    /// Flags declared at the root and visible to every subcommand.
    pub globals: Vec<ArgSpec>,
    pub subcommands: Vec<CommandSpec>,
}

/// Mathematical view of a `ProgramSpec`.
pub ghost struct ProgramView {
    pub name: Seq<char>,
    pub version: Seq<char>,
    pub about: Seq<char>,
    pub author: Seq<char>,
    pub version_short: Option<char>,
    pub help_subcommand: bool,
    pub subcommand_required: bool,
    pub propagate_version: bool,
    pub globals: Seq<ArgView>,
    pub subcommands: Seq<CommandView>,
}

impl View for ProgramSpec {
    type V = ProgramView;

    open spec fn view(&self) -> ProgramView {
        ProgramView {
            name: self.name@,
            version: self.version@,
            about: self.about@,
            author: self.author@,
            version_short: self.version_short,
            help_subcommand: self.help_subcommand,
            subcommand_required: self.subcommand_required,
            propagate_version: self.propagate_version,
            globals: args_view(self.globals@),
            subcommands: commands_view(self.subcommands@),
        }
    }
}

/// The grammar built for the given identity and working directory.
pub open spec fn program_view(
    name: Seq<char>,
    version: Seq<char>,
    description: Seq<char>,
    authors: Seq<char>,
    current_dir: Seq<char>,
) -> ProgramView {
    ProgramView {
        name,
        version,
        about: description,
        author: authors,
        version_short: Some('v'),
        help_subcommand: false,
        subcommand_required: true,
        propagate_version: true,
        globals: seq![no_color_arg(), quiet_arg()],
        subcommands: seq![
            check_command_view(current_dir),
            compare_command_view(),
            fix_command_view(current_dir),
            list_command_view(),
        ],
    }
}

/// Builds the grammar; `current_dir` becomes the default `input` of `check`
/// and `fix`.
pub fn build_program(info: PackageInfo, current_dir: &str) -> (r: ProgramSpec)
    ensures
        r@ == program_view(
            info.name@,
            info.version@,
            info.description@,
            info.authors@,
            current_dir@,
        ),
{
    let globals = vec![no_color_flag(), quiet_flag()];
    let subcommands = vec![
        check_command(current_dir),
        compare_command(),
        fix_command(current_dir),
        list_command(),
    ];
    let r = ProgramSpec {
        name: info.name,
        version: info.version,
        about: info.description,
        author: info.authors,
        version_short: Some('v'),
        help_subcommand: false,
        subcommand_required: true,
        propagate_version: true,
        globals,
        subcommands,
    };
    assert(args_view(r.globals@) =~= seq![no_color_arg(), quiet_arg()]);
    assert(commands_view(r.subcommands@) =~= seq![
        check_command_view(current_dir@),
        compare_command_view(),
        fix_command_view(current_dir@),
        list_command_view(),
    ]);
    r
}

/// The subcommand names that the grammar declares.
pub open spec fn subcommand_names(p: ProgramView) -> Seq<Seq<char>> {
    p.subcommands.map_values(|c: CommandView| c.name)
}

/// Each of `check`, `fix`, `compare` and `list` names exactly one subcommand,
/// and no two subcommands share a name.
pub proof fn lemma_subcommand_names_unique(
    name: Seq<char>,
    version: Seq<char>,
    description: Seq<char>,
    authors: Seq<char>,
    current_dir: Seq<char>,
)
    ensures
        ({
            let names = subcommand_names(
                program_view(name, version, description, authors, current_dir),
            );
            &&& names.no_duplicates()
            &&& names.to_set() == set!["check"@, "fix"@, "compare"@, "list"@]
        }),
{
    reveal_strlit("check");
    reveal_strlit("compare");
    reveal_strlit("fix");
    reveal_strlit("list");
    let names = subcommand_names(program_view(name, version, description, authors, current_dir));
    assert(names =~= seq!["check"@, "compare"@, "fix"@, "list"@]);
    assert("check"@.len() == 5 && "compare"@.len() == 7 && "fix"@.len() == 3 && "list"@.len() == 4);
    assert(names.no_duplicates());
    assert(names.to_set() =~= set!["check"@, "fix"@, "compare"@, "list"@]) by {
        assert forall|n: Seq<char>| names.contains(n) <==> set!["check"@, "fix"@, "compare"@, "list"@].contains(n) by {
            if n == "check"@ { assert(names[0] == n); }
            if n == "compare"@ { assert(names[1] == n); }
            if n == "fix"@ { assert(names[2] == n); }
            if n == "list"@ { assert(names[3] == n); }
        }
    }
}

/// `--no-backup` of `fix` is a flag: it is present or absent and takes no value.
pub proof fn lemma_no_backup_is_flag(current_dir: Seq<char>)
    ensures
        ({
            let args = fix_command_view(current_dir).args;
            &&& args.last() == no_backup_arg()
            &&& args.last().long == Some("no-backup"@)
            &&& args.last().kind == ArgKind::Flag
            &&& args.last().value_name is None
            &&& args.last().default is None
            &&& !args.last().multiple
        }),
{
}

/// `quiet` and `no-color` are declared once, at the root, in global scope, so
/// that they stand before or after any subcommand; no subcommand declares an
/// argument of either name.
pub proof fn lemma_global_flags(
    name: Seq<char>,
    version: Seq<char>,
    description: Seq<char>,
    authors: Seq<char>,
    current_dir: Seq<char>,
)
    ensures
        ({
            let p = program_view(name, version, description, authors, current_dir);
            &&& p.globals == seq![no_color_arg(), quiet_arg()]
            &&& p.globals[0].name == "no-color"@ && p.globals[0].global
            &&& p.globals[1].name == "quiet"@ && p.globals[1].global
            &&& forall|i: int, j: int|
                0 <= i < p.subcommands.len() && 0 <= j < p.subcommands[i].args.len() ==> {
                    let a = #[trigger] p.subcommands[i].args[j];
                    a.name != "quiet"@ && a.name != "no-color"@
                }
        }),
{
    reveal_strlit("quiet");
    reveal_strlit("no-color");
    reveal_strlit("input");
    reveal_strlit("exclude");
    reveal_strlit("skip");
    reveal_strlit("recursive");
    reveal_strlit("no-backup");
    let p = program_view(name, version, description, authors, current_dir);
    assert forall|i: int, j: int|
        0 <= i < p.subcommands.len() && 0 <= j < p.subcommands[i].args.len() implies {
            let a = #[trigger] p.subcommands[i].args[j];
            a.name != "quiet"@ && a.name != "no-color"@
        } by {
        let a = p.subcommands[i].args[j];
        assert(a.name == "input"@ || a.name == "exclude"@ || a.name == "skip"@
            || a.name == "recursive"@ || a.name == "no-backup"@);
        assert("quiet"@.len() == 5 && "no-color"@.len() == 8);
        assert("input"@.len() == 5 && "input"@[0] != "quiet"@[0]);
        assert("exclude"@.len() == 7 && "skip"@.len() == 4);
        assert("recursive"@.len() == 9 && "no-backup"@.len() == 9);
    }
}

/// `list` declares no argument, positional or option.
pub proof fn lemma_list_takes_nothing()
    ensures
        list_command_view().args.len() == 0,
{
}

} // verus!
