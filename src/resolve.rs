use crate::grammar::{
    ArgSpec, ArgView, check_command_view, compare_command_view, fix_command_view, no_color_arg,
};
use vstd::prelude::*;

verus! {

/// Whether a flag that an environment variable can also set ends up present.
/// The command line decides first; otherwise the variable being defined, to
/// any value including the empty one, sets the flag.
pub open spec fn flag_present(on_command_line: bool, env_value: Option<Seq<char>>) -> bool {
    on_command_line || env_value is Some
}

/// Resolves a flag bound to an environment variable, from whether the
/// command line gave it and the variable's value, if defined.
pub fn resolve_flag(on_command_line: bool, env_value: Option<&str>) -> (r: bool)
    ensures
        r == flag_present(
            on_command_line,
            match env_value {
                Some(v) => Some(v@),
                None => None,
            },
        ),
{
    if on_command_line {
        true
    } else {
        match env_value {
            Some(_) => true,
            None => false,
        }
    }
}

/// Why the values given for an argument are refused.
#[derive(PartialEq, Eq, Structural, Clone, Copy, Debug)]
pub enum ValueError {
    /// A required argument was given no value.
    MissingRequiredArgument,
    /// Fewer values were given than the argument's least number.
    BelowMinimumOccurrence,
}

pub open spec fn strings_view(v: Seq<String>) -> Seq<Seq<char>> {
    v.map_values(|s: String| s@)
}

/// The values an argument takes from those given on the command line: its
/// default when none is given, an error when a required one is missing or
/// too few are given, else the given values.
pub open spec fn resolved_values(arg: ArgView, given: Seq<Seq<char>>) -> Result<
    Seq<Seq<char>>,
    ValueError,
> {
    if given.len() == 0 {
        match arg.default {
            Some(d) => Ok(seq![d]),
            None => if arg.required {
                Err(ValueError::MissingRequiredArgument)
            } else {
                Ok(seq![])
            },
        }
    } else if given.len() < arg.min_values {
        Err(ValueError::BelowMinimumOccurrence)
    } else {
        Ok(given)
    }
}

/// Applies the default and the occurrence constraints of `arg` to the values
/// given for it.
pub fn resolve_values(arg: &ArgSpec, given: Vec<String>) -> (r: Result<Vec<String>, ValueError>)
    ensures
        match r {
            Ok(v) => resolved_values(arg@, strings_view(given@)) == Ok::<Seq<Seq<char>>, ValueError>(
                strings_view(v@),
            ),
            Err(e) => resolved_values(arg@, strings_view(given@)) == Err::<Seq<Seq<char>>, ValueError>(
                e,
            ),
        },
{
    if given.len() == 0 {
        match &arg.default {
            Some(d) => {
                let r = vec![d.clone()];
                assert(strings_view(r@) =~= seq![d@]);
                Ok(r)
            },
            None => {
                if arg.required {
                    Err(ValueError::MissingRequiredArgument)
                } else {
                    let r: Vec<String> = Vec::new();
                    assert(strings_view(r@) =~= Seq::<Seq<char>>::empty());
                    Ok(r)
                }
            },
        }
    } else if given.len() < arg.min_values {
        Err(ValueError::BelowMinimumOccurrence)
    } else {
        Ok(given)
    }
}

/// `compare` takes one argument, `input`; it refuses fewer than two inputs,
/// none as missing and one as too few, and takes two or more as given.
pub proof fn lemma_compare_input_count(given: Seq<Seq<char>>)
    ensures
        compare_command_view().args.len() == 1,
        compare_command_view().args[0].name == "input"@,
        given.len() == 0 ==> resolved_values(compare_command_view().args[0], given) == Err::<
            Seq<Seq<char>>,
            ValueError,
        >(ValueError::MissingRequiredArgument),
        given.len() == 1 ==> resolved_values(compare_command_view().args[0], given) == Err::<
            Seq<Seq<char>>,
            ValueError,
        >(ValueError::BelowMinimumOccurrence),
        given.len() >= 2 ==> resolved_values(compare_command_view().args[0], given) == Ok::<
            Seq<Seq<char>>,
            ValueError,
        >(given),
{
}

/// With no positional `input`, `check` and `fix` take the one-element list
/// holding the working directory that the grammar was built with; given
/// inputs are kept as they are.
pub proof fn lemma_input_default(current_dir: Seq<char>, given: Seq<Seq<char>>)
    ensures
        check_command_view(current_dir).args[0].name == "input"@,
        fix_command_view(current_dir).args[0].name == "input"@,
        resolved_values(check_command_view(current_dir).args[0], seq![]) == Ok::<
            Seq<Seq<char>>,
            ValueError,
        >(seq![current_dir]),
        resolved_values(fix_command_view(current_dir).args[0], seq![]) == Ok::<
            Seq<Seq<char>>,
            ValueError,
        >(seq![current_dir]),
        given.len() > 0 ==> resolved_values(check_command_view(current_dir).args[0], given)
            == Ok::<Seq<Seq<char>>, ValueError>(given),
        given.len() > 0 ==> resolved_values(fix_command_view(current_dir).args[0], given)
            == Ok::<Seq<Seq<char>>, ValueError>(given),
{
}

/// `no-color` is bound to `NO_COLOR`; with `--no-color` left out of the
/// command line, a non-empty value of that variable makes the flag present.
pub proof fn lemma_env_sets_no_color(value: Seq<char>)
    requires
        value.len() > 0,
    ensures
        no_color_arg().env == Some("NO_COLOR"@),
        flag_present(false, Some(value)),
{
}

} // verus!
