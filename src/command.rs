use crate::grammar::{
    ArgKind, ArgSpec, ArgView, CommandSpec, args_view, CommandView, PackageInfo, ProgramSpec, ProgramView,
    program_view, subcommand_names, lemma_subcommand_names_unique, no_color_arg, quiet_arg,
    compare_command_view, list_command_view,
};
use clap::{Arg, Command};
use vstd::prelude::*;

verus! {

#[verifier::external_type_specification]
#[verifier::external_body]
pub struct ExCommand<'help>(Command<'help>);

#[verifier::external_type_specification]
#[verifier::external_body]
pub struct ExArg<'help>(Arg<'help>);

/// What a `clap` argument holds, as far as this library sets it.
pub ghost struct ClapArgView {
    pub name: Seq<char>,
    pub short: Option<char>,
    pub long: Option<Seq<char>>,
    pub help: Option<Seq<char>>,
    pub index: Option<usize>,
    pub value_names: Seq<Seq<char>>,
    pub default_values: Seq<Seq<char>>,
    pub takes_value: bool,
    pub multiple_occurrences: bool,
    pub multiple_values: bool,
    pub min_values: Option<usize>,
    pub required: bool,
    pub global: bool,
}

/// What a `clap` command holds, as far as this library sets it: the
/// arguments and subcommands in the order they were added.
pub ghost struct ClapCommandView {
    pub name: Seq<char>,
    pub about: Option<Seq<char>>,
    pub author: Option<Seq<char>>,
    pub version: Option<Seq<char>>,
    pub usage: Option<Seq<char>>,
    pub disable_help_subcommand: bool,
    pub subcommand_required: bool,
    pub propagate_version: bool,
    pub args: Seq<ClapArgView>,
    pub subcommands: Seq<ClapCommandView>,
}

/// The state of a `clap` command.
pub uninterp spec fn clap_command_view(c: Command) -> ClapCommandView;

/// The state of a `clap` argument.
pub uninterp spec fn clap_arg_view(a: Arg) -> ClapArgView;

/// `s` without its leading dashes.
pub open spec fn trim_dashes(s: Seq<char>) -> Seq<char>
    decreases s.len(),
{
    if s.len() > 0 && s[0] == '-' {
        trim_dashes(s.drop_first())
    } else {
        s
    }
}

/// An argument named `name` with nothing else set.
pub open spec fn bare_arg(name: Seq<char>) -> ClapArgView {
    ClapArgView {
        name,
        short: None,
        long: None,
        help: None,
        index: None,
        value_names: seq![],
        default_values: seq![],
        takes_value: false,
        multiple_occurrences: false,
        multiple_values: false,
        min_values: None,
        required: false,
        global: false,
    }
}

/// The `--help` flag that `Command::new` generates.
pub open spec fn generated_help_arg() -> ClapArgView {
    ClapArgView {
        long: Some("help"@),
        help: Some("Print help information"@),
        global: true,
        ..bare_arg("help"@)
    }
}

/// The `--version` flag that `Command::new` generates.
pub open spec fn generated_version_arg() -> ClapArgView {
    ClapArgView {
        long: Some("version"@),
        help: Some("Print version information"@),
        global: true,
        ..bare_arg("version"@)
    }
}

/// A command named `name` as `Command::new` makes it.
pub open spec fn new_command(name: Seq<char>) -> ClapCommandView {
    ClapCommandView {
        name,
        about: None,
        author: None,
        version: None,
        usage: None,
        disable_help_subcommand: false,
        subcommand_required: false,
        propagate_version: false,
        args: seq![generated_help_arg(), generated_version_arg()],
        subcommands: seq![],
    }
}

/// Relies on `Command::new`: the name, no setting, no subcommand, and the
/// generated `help` and `version` flags as its arguments.
#[verifier::external_body]
fn command_new<'a>(name: &'a str) -> (r: Command<'a>)
    ensures
        clap_command_view(r) == new_command(name@),
{
    Command::new(name)
}

/// Relies on `Command::about`: sets the summary.
#[verifier::external_body]
fn command_about<'a>(c: Command<'a>, about: &'a str) -> (r: Command<'a>)
    ensures
        clap_command_view(r) == (ClapCommandView { about: Some(about@), ..clap_command_view(c) }),
{
    c.about(about)
}

/// Relies on `Command::author`: sets the author line.
#[verifier::external_body]
fn command_author<'a>(c: Command<'a>, author: &'a str) -> (r: Command<'a>)
    ensures
        clap_command_view(r) == (ClapCommandView { author: Some(author@), ..clap_command_view(c) }),
{
    c.author(author)
}

/// Relies on `Command::version`: sets the version string.
#[verifier::external_body]
fn command_version<'a>(c: Command<'a>, version: &'a str) -> (r: Command<'a>)
    ensures
        clap_command_view(r) == (ClapCommandView {
            version: Some(version@),
            ..clap_command_view(c)
        }),
{
    c.version(version)
}

/// Relies on `Command::disable_help_subcommand`: whether no `help` subcommand is made.
#[verifier::external_body]
fn command_disable_help_subcommand<'a>(c: Command<'a>, yes: bool) -> (r: Command<'a>)
    ensures
        clap_command_view(r) == (ClapCommandView {
            disable_help_subcommand: yes,
            ..clap_command_view(c)
        }),
{
    c.disable_help_subcommand(yes)
}

/// Relies on `Command::subcommand_required`: whether an invocation without a
/// subcommand is an error.
#[verifier::external_body]
fn command_subcommand_required<'a>(c: Command<'a>, yes: bool) -> (r: Command<'a>)
    ensures
        clap_command_view(r) == (ClapCommandView {
            subcommand_required: yes,
            ..clap_command_view(c)
        }),
{
    c.subcommand_required(yes)
}

/// Relies on `Command::propagate_version`: whether subcommands report the version.
#[verifier::external_body]
fn command_propagate_version<'a>(c: Command<'a>, yes: bool) -> (r: Command<'a>)
    ensures
        clap_command_view(r) == (ClapCommandView { propagate_version: yes, ..clap_command_view(c) }),
{
    c.propagate_version(yes)
}

/// Relies on `Command::mut_arg`: takes the generated `version` flag out of
/// the arguments, gives it a short form through `arg_short`, and adds it
/// back last; here it is last already.
#[verifier::external_body]
fn command_version_short<'a>(c: Command<'a>, short: char) -> (r: Command<'a>)
    requires
        short != '-',
        clap_command_view(c).args == seq![generated_help_arg(), generated_version_arg()],
    ensures
        clap_command_view(r) == (ClapCommandView {
            args: seq![
                generated_help_arg(),
                ClapArgView { short: Some(short), ..generated_version_arg() },
            ],
            ..clap_command_view(c)
        }),
{
    c.mut_arg("version", |a| arg_short(a, short))
}

/// Relies on `Command::override_usage`: sets the usage line.
#[verifier::external_body]
fn command_override_usage<'a>(c: Command<'a>, usage: &'a str) -> (r: Command<'a>)
    ensures
        clap_command_view(r) == (ClapCommandView { usage: Some(usage@), ..clap_command_view(c) }),
{
    c.override_usage(usage)
}

/// Relies on `Command::arg`: adds an argument after the others.
#[verifier::external_body]
fn command_arg<'a>(c: Command<'a>, a: Arg<'a>) -> (r: Command<'a>)
    ensures
        clap_command_view(r) == (ClapCommandView {
            args: clap_command_view(c).args.push(clap_arg_view(a)),
            ..clap_command_view(c)
        }),
{
    c.arg(a)
}

/// Relies on `Command::subcommand`: adds a subcommand after the others.
#[verifier::external_body]
fn command_subcommand<'a>(c: Command<'a>, sub: Command<'a>) -> (r: Command<'a>)
    ensures
        clap_command_view(r) == (ClapCommandView {
            subcommands: clap_command_view(c).subcommands.push(clap_command_view(sub)),
            ..clap_command_view(c)
        }),
{
    c.subcommand(sub)
}

/// Relies on `Arg::new`: an argument with the given name and nothing else set.
#[verifier::external_body]
fn arg_new<'a>(name: &'a str) -> (r: Arg<'a>)
    ensures
        clap_arg_view(r) == bare_arg(name@),
{
    Arg::new(name)
}

/// Relies on `Arg::help`: sets the help text.
#[verifier::external_body]
fn arg_help<'a>(a: Arg<'a>, help: &'a str) -> (r: Arg<'a>)
    ensures
        clap_arg_view(r) == (ClapArgView { help: Some(help@), ..clap_arg_view(a) }),
{
    a.help(help)
}

/// Relies on `Arg::index`: makes the argument positional at `index`.
#[verifier::external_body]
fn arg_index<'a>(a: Arg<'a>, index: usize) -> (r: Arg<'a>)
    ensures
        clap_arg_view(r) == (ClapArgView { index: Some(index), ..clap_arg_view(a) }),
{
    a.index(index)
}

/// Relies on `Arg::short`, which panics on `-`.
#[verifier::external_body]
fn arg_short<'a>(a: Arg<'a>, short: char) -> (r: Arg<'a>)
    requires
        short != '-',
    ensures
        clap_arg_view(r) == (ClapArgView { short: Some(short), ..clap_arg_view(a) }),
{
    a.short(short)
}

/// Relies on `Arg::long`: sets the long form, leading dashes removed.
#[verifier::external_body]
fn arg_long<'a>(a: Arg<'a>, long: &'a str) -> (r: Arg<'a>)
    ensures
        clap_arg_view(r) == (ClapArgView { long: Some(trim_dashes(long@)), ..clap_arg_view(a) }),
{
    a.long(long)
}

/// Relies on `Arg::value_name`: sets the one value name, and that the
/// argument takes a value.
#[verifier::external_body]
fn arg_value_name<'a>(a: Arg<'a>, name: &'a str) -> (r: Arg<'a>)
    ensures
        clap_arg_view(r) == (ClapArgView {
            value_names: seq![name@],
            takes_value: true,
            ..clap_arg_view(a)
        }),
{
    a.value_name(name)
}

/// Relies on `Arg::default_value`: the one value used when none is given,
/// and that the argument takes a value.
#[verifier::external_body]
fn arg_default_value<'a>(a: Arg<'a>, value: &'a str) -> (r: Arg<'a>)
    ensures
        clap_arg_view(r) == (ClapArgView {
            default_values: seq![value@],
            takes_value: true,
            ..clap_arg_view(a)
        }),
{
    a.default_value(value)
}

/// Relies on `Arg::takes_value`: whether the argument takes a value.
#[verifier::external_body]
fn arg_takes_value<'a>(a: Arg<'a>, yes: bool) -> (r: Arg<'a>)
    ensures
        clap_arg_view(r) == (ClapArgView { takes_value: yes, ..clap_arg_view(a) }),
{
    a.takes_value(yes)
}

/// Relies on `Arg::multiple_occurrences`: whether the argument may repeat.
#[verifier::external_body]
fn arg_multiple_occurrences<'a>(a: Arg<'a>, yes: bool) -> (r: Arg<'a>)
    ensures
        clap_arg_view(r) == (ClapArgView { multiple_occurrences: yes, ..clap_arg_view(a) }),
{
    a.multiple_occurrences(yes)
}

/// Relies on `Arg::multiple_values`: whether one occurrence may take several values.
#[verifier::external_body]
fn arg_multiple_values<'a>(a: Arg<'a>, yes: bool) -> (r: Arg<'a>)
    ensures
        clap_arg_view(r) == (ClapArgView { multiple_values: yes, ..clap_arg_view(a) }),
{
    a.multiple_values(yes)
}

/// Relies on `Arg::min_values`: the least number of values, and that the
/// argument takes several values.
#[verifier::external_body]
fn arg_min_values<'a>(a: Arg<'a>, n: usize) -> (r: Arg<'a>)
    ensures
        clap_arg_view(r) == (ClapArgView {
            min_values: Some(n),
            takes_value: true,
            multiple_values: true,
            ..clap_arg_view(a)
        }),
{
    a.min_values(n)
}

/// Relies on `Arg::required`: whether the argument must be given.
#[verifier::external_body]
fn arg_required<'a>(a: Arg<'a>, yes: bool) -> (r: Arg<'a>)
    ensures
        clap_arg_view(r) == (ClapArgView { required: yes, ..clap_arg_view(a) }),
{
    a.required(yes)
}

/// Relies on `Arg::global`: whether subcommands see the argument.
#[verifier::external_body]
fn arg_global<'a>(a: Arg<'a>, yes: bool) -> (r: Arg<'a>)
    ensures
        clap_arg_view(r) == (ClapArgView { global: yes, ..clap_arg_view(a) }),
{
    a.global(yes)
}

/// The `clap` argument that stands for `a`. The environment variable of `a`
/// has no counterpart: `resolve_flag` applies it.
pub open spec fn clap_arg_of(a: ArgView) -> ClapArgView {
    ClapArgView {
        name: a.name,
        short: a.short,
        long: match a.long {
            Some(l) => Some(trim_dashes(l)),
            None => None,
        },
        help: Some(a.help),
        index: match a.kind {
            ArgKind::Positional { index } => Some(index),
            _ => None,
        },
        value_names: match a.value_name {
            Some(v) => seq![v],
            None => seq![],
        },
        default_values: match a.default {
            Some(d) => seq![d],
            None => seq![],
        },
        takes_value: a.kind == ArgKind::Valued || a.value_name is Some || a.default is Some
            || a.min_values > 0,
        multiple_occurrences: a.multiple,
        multiple_values: a.multiple || a.min_values > 0,
        min_values: if a.min_values > 0 {
            Some(a.min_values as usize)
        } else {
            None
        },
        required: a.required,
        global: a.global,
    }
}

pub open spec fn clap_args_of(args: Seq<ArgView>) -> Seq<ClapArgView> {
    args.map_values(|a: ArgView| clap_arg_of(a))
}

/// The `clap` command that stands for subcommand `c`.
pub open spec fn clap_subcommand_of(c: CommandView) -> ClapCommandView {
    ClapCommandView {
        about: Some(c.about),
        usage: c.usage,
        args: new_command(c.name).args + clap_args_of(c.args),
        ..new_command(c.name)
    }
}

/// The `clap` command that stands for the grammar `p`.
pub open spec fn clap_program_of(p: ProgramView) -> ClapCommandView {
    let version_arg = match p.version_short {
        Some(s) => ClapArgView { short: Some(s), ..generated_version_arg() },
        None => generated_version_arg(),
    };
    ClapCommandView {
        name: p.name,
        about: Some(p.about),
        author: Some(p.author),
        version: Some(p.version),
        usage: None,
        disable_help_subcommand: !p.help_subcommand,
        subcommand_required: p.subcommand_required,
        propagate_version: p.propagate_version,
        args: seq![generated_help_arg(), version_arg] + clap_args_of(p.globals),
        subcommands: p.subcommands.map_values(|c: CommandView| clap_subcommand_of(c)),
    }
}

/// No short form of the given arguments is `-`, which `clap` refuses.
pub open spec fn shorts_valid(args: Seq<ArgView>) -> bool {
    forall|i: int| 0 <= i < args.len() ==> args[i].short != Some('-')
}

/// Every short form in the grammar is one that `clap` accepts.
pub open spec fn program_valid(p: ProgramSpec) -> bool {
    &&& p@.version_short != Some('-')
    &&& shorts_valid(p@.globals)
    &&& forall|i: int| 0 <= i < p@.subcommands.len() ==> shorts_valid(#[trigger] p@.subcommands[i].args)
}

/// The grammar that `build_program` makes is valid for `clap`.
pub proof fn lemma_built_program_valid(p: ProgramSpec, info: PackageInfo, current_dir: Seq<char>)
    requires
        p@ == program_view(info.name@, info.version@, info.description@, info.authors@, current_dir),
    ensures
        program_valid(p),
{
    assert(p@.subcommands[0].args.len() == 4);
    assert(p@.subcommands[2].args.len() == 5);
}

/// Whether none of the given arguments has `-` as its short form.
fn args_valid(args: &Vec<ArgSpec>) -> (r: bool)
    ensures
        r == (forall|i: int| 0 <= i < args@.len() ==> args@[i].short != Some('-')),
{
    let mut i: usize = 0;
    while i < args.len()
        invariant
            i <= args@.len(),
            forall|j: int| 0 <= j < i ==> args@[j].short != Some('-'),
        decreases args@.len() - i,
    {
        if args[i].short == Some('-') {
            return false;
        }
        i += 1;
    }
    true
}

/// Whether `clap` accepts every short form in `program`; `new` needs it.
pub fn is_valid(program: &ProgramSpec) -> (r: bool)
    ensures
        r == program_valid(*program),
{
    if program.version_short == Some('-') {
        return false;
    }
    let g = args_valid(&program.globals);
    assert(g == shorts_valid(program@.globals)) by {
        if g {
            assert forall|i: int| 0 <= i < program@.globals.len() implies program@.globals[i].short != Some('-') by {
                assert(program@.globals[i] == program.globals@[i]@);
            }
        } else {
            let i = choose|i: int| 0 <= i < program.globals@.len() && program.globals@[i].short == Some('-');
            assert(program@.globals[i] == program.globals@[i]@);
        }
    }
    if !g {
        return false;
    }
    let mut i: usize = 0;
    while i < program.subcommands.len()
        invariant
            i <= program.subcommands@.len(),
            forall|k: int| 0 <= k < i ==> shorts_valid(#[trigger] program@.subcommands[k].args),
        decreases program.subcommands@.len() - i,
    {
        let s = &program.subcommands[i];
        let ok = args_valid(&s.args);
        assert(program@.subcommands[i as int] == s@);
        assert(ok == shorts_valid(s@.args)) by {
            if ok {
                assert forall|j: int| 0 <= j < s@.args.len() implies s@.args[j].short != Some('-') by {
                    assert(s@.args[j] == s.args@[j]@);
                }
            } else {
                let j = choose|j: int| 0 <= j < s.args@.len() && s.args@[j].short == Some('-');
                assert(s@.args[j] == s.args@[j]@);
            }
        }
        if !ok {
            return false;
        }
        i += 1;
    }
    true
}

/// Turns one argument of the grammar into a `clap` argument. Its environment
/// variable is not handed to `clap`: `resolve_flag` applies it.
fn to_clap_arg<'a>(a: &'a ArgSpec) -> (r: Arg<'a>)
    requires
        a.short != Some('-'),
    ensures
        clap_arg_view(r) == clap_arg_of(a@),
{
    let mut r = arg_new(a.name.as_str());
    r = arg_help(r, a.help.as_str());
    match a.kind {
        ArgKind::Positional { index } => {
            r = arg_index(r, index);
        },
        ArgKind::Flag => {},
        ArgKind::Valued => {
            r = arg_takes_value(r, true);
        },
    }
    if let Some(s) = a.short {
        r = arg_short(r, s);
    }
    if let Some(l) = &a.long {
        r = arg_long(r, l.as_str());
    }
    if let Some(v) = &a.value_name {
        r = arg_value_name(r, v.as_str());
    }
    if let Some(d) = &a.default {
        r = arg_default_value(r, d.as_str());
    }
    if a.multiple {
        r = arg_multiple_occurrences(r, true);
        r = arg_multiple_values(r, true);
    }
    if a.min_values > 0 {
        r = arg_min_values(r, a.min_values);
    }
    if a.required {
        r = arg_required(r, true);
    }
    if a.global {
        r = arg_global(r, true);
    }
    r
}

/// Adds the given arguments to a `clap` command, in order.
fn add_args<'a>(c: Command<'a>, args: &'a Vec<ArgSpec>) -> (r: Command<'a>)
    requires
        forall|i: int| 0 <= i < args@.len() ==> args@[i].short != Some('-'),
    ensures
        clap_command_view(r) == (ClapCommandView {
            args: clap_command_view(c).args + clap_args_of(args_view(args@)),
            ..clap_command_view(c)
        }),
{
    let ghost c0 = clap_command_view(c);
    let mut c = c;
    let mut i: usize = 0;
    while i < args.len()
        invariant
            i <= args@.len(),
            forall|j: int| 0 <= j < args@.len() ==> args@[j].short != Some('-'),
            clap_command_view(c) == (ClapCommandView {
                args: c0.args + clap_args_of(args_view(args@.take(i as int))),
                ..c0
            }),
        decreases args@.len() - i,
    {
        c = command_arg(c, to_clap_arg(&args[i]));
        assert(args@.take(i + 1) == args@.take(i as int).push(args@[i as int]));
        assert(clap_args_of(args_view(args@.take(i + 1))) =~= clap_args_of(
            args_view(args@.take(i as int)),
        ).push(clap_arg_of(args@[i as int]@)));
        i += 1;
    }
    assert(args@.take(i as int) =~= args@);
    c
}

/// Turns one subcommand of the grammar into a `clap` command.
fn to_clap_command<'a>(s: &'a CommandSpec) -> (r: Command<'a>)
    requires
        shorts_valid(s@.args),
    ensures
        clap_command_view(r) == clap_subcommand_of(s@),
{
    let mut c = command_new(s.name.as_str());
    c = command_about(c, s.about.as_str());
    if let Some(u) = &s.usage {
        c = command_override_usage(c, u.as_str());
    }
    assert forall|i: int| 0 <= i < s.args@.len() implies s.args@[i].short != Some('-') by {
        assert(s@.args[i] == s.args@[i]@);
    }
    add_args(c, &s.args)
}

/// Builds the `clap` command that parses invocations against `program`.
pub fn new<'a>(program: &'a ProgramSpec) -> (r: Command<'a>)
    requires
        program_valid(*program),
    ensures
        clap_command_view(r) == clap_program_of(program@),
{
    let mut c = command_new(program.name.as_str());
    c = command_about(c, program.about.as_str());
    c = command_author(c, program.author.as_str());
    c = command_version(c, program.version.as_str());
    c = command_disable_help_subcommand(c, !program.help_subcommand);
    c = command_subcommand_required(c, program.subcommand_required);
    c = command_propagate_version(c, program.propagate_version);
    if let Some(v) = program.version_short {
        c = command_version_short(c, v);
    }
    let ghost p = clap_program_of(program@);
    assert(p.args[0] == generated_help_arg());
    assert(clap_command_view(c).args =~= seq![p.args[0], p.args[1]]);
    assert(clap_command_view(c).subcommands =~= Seq::<ClapCommandView>::empty());
    assert(clap_command_view(c) == (ClapCommandView {
        args: seq![p.args[0], p.args[1]],
        subcommands: seq![],
        ..p
    }));
    assert forall|i: int| 0 <= i < program.globals@.len() implies program.globals@[i].short != Some('-') by {
        assert(program@.globals[i] == program.globals@[i]@);
    }
    c = add_args(c, &program.globals);
    let mut i: usize = 0;
    let ghost c0 = clap_command_view(c);
    assert(program@.subcommands.take(0).map_values(|s: CommandView| clap_subcommand_of(s))
        =~= c0.subcommands);
    while i < program.subcommands.len()
        invariant
            i <= program.subcommands@.len(),
            program_valid(*program),
            clap_command_view(c) == (ClapCommandView {
                subcommands: program@.subcommands.take(i as int).map_values(
                    |s: CommandView| clap_subcommand_of(s),
                ),
                ..c0
            }),
        decreases program.subcommands@.len() - i,
    {
        assert(program@.subcommands[i as int] == program.subcommands@[i as int]@);
        c = command_subcommand(c, to_clap_command(&program.subcommands[i]));
        assert(program@.subcommands.take(i + 1).map_values(|s: CommandView| clap_subcommand_of(s))
            =~= program@.subcommands.take(i as int).map_values(
            |s: CommandView| clap_subcommand_of(s),
        ).push(clap_subcommand_of(program@.subcommands[i as int])));
        i += 1;
    }
    assert(program@.subcommands.take(i as int) =~= program@.subcommands);
    assert(c0.args =~= p.args);
    c
}

/// Grammars with the same view give `clap` commands with the same state, so
/// that building twice from the same inputs gives the same command.
pub proof fn lemma_same_grammar_same_command(p: ProgramSpec, q: ProgramSpec)
    requires
        p@ == q@,
    ensures
        clap_program_of(p@) == clap_program_of(q@),
{
}

/// The `clap` command for the built grammar carries the given identity and
/// settings; its subcommands are `check`, `compare`, `fix` and `list`, each
/// named once; its own arguments are the generated `help`, `version` with
/// short form `v`, and the global `no-color` and `quiet`; `list` has only the
/// generated flags, and `compare`'s `input` needs two values.
pub proof fn lemma_built_command(
    name: Seq<char>,
    version: Seq<char>,
    description: Seq<char>,
    authors: Seq<char>,
    current_dir: Seq<char>,
)
    ensures
        ({
            let p = program_view(name, version, description, authors, current_dir);
            let c = clap_program_of(p);
            let names = c.subcommands.map_values(|s: ClapCommandView| s.name);
            &&& c.name == name
            &&& c.version == Some(version)
            &&& c.about == Some(description)
            &&& c.author == Some(authors)
            &&& c.propagate_version
            &&& c.disable_help_subcommand
            &&& c.subcommand_required
            &&& names == subcommand_names(p)
            &&& names.no_duplicates()
            &&& names.to_set() == set!["check"@, "fix"@, "compare"@, "list"@]
            &&& c.args.len() == 4
            &&& c.args[0] == generated_help_arg()
            &&& c.args[1].name == "version"@ && c.args[1].long == Some("version"@)
            &&& c.args[1].short == Some('v')
            &&& c.args[2] == clap_arg_of(no_color_arg()) && c.args[2].global
            &&& c.args[3] == clap_arg_of(quiet_arg()) && c.args[3].global
            &&& c.subcommands[3].args == seq![generated_help_arg(), generated_version_arg()]
            &&& c.subcommands[1].args.len() == 3
            &&& c.subcommands[1].args[2].name == "input"@
            &&& c.subcommands[1].args[2].min_values == Some(2usize)
            &&& c.subcommands[1].args[2].required
        }),
{
    let p = program_view(name, version, description, authors, current_dir);
    let c = clap_program_of(p);
    let names = c.subcommands.map_values(|s: ClapCommandView| s.name);
    assert(names =~= subcommand_names(p));
    lemma_subcommand_names_unique(name, version, description, authors, current_dir);
    assert(clap_args_of(seq![no_color_arg(), quiet_arg()]) =~= seq![
        clap_arg_of(no_color_arg()),
        clap_arg_of(quiet_arg()),
    ]);
    assert(c.subcommands[3] == clap_subcommand_of(list_command_view()));
    assert(clap_args_of(list_command_view().args) =~= Seq::<ClapArgView>::empty());
    assert(c.subcommands[3].args =~= seq![generated_help_arg(), generated_version_arg()]);
    assert(c.subcommands[1] == clap_subcommand_of(compare_command_view()));
    assert(c.subcommands[1].args[2] == clap_arg_of(compare_command_view().args[0]));
}

} // verus!
