//! The argument schema: what this library reads from a `clap::Command` and
//! its arguments, and the schema's own parser. Each item here rests on
//! clap's code, as its doc comment says. What clap computes is named by the
//! bodiless spec functions below; each depends on its arguments alone.
use vstd::prelude::*;

verus! {

#[verifier::external_type_specification]
#[verifier::external_body]
pub struct ExCommand(clap::Command);

#[verifier::external_type_specification]
#[verifier::external_body]
pub struct ExArg(clap::Arg);

#[verifier::external_type_specification]
#[verifier::external_body]
pub struct ExArgMatches(clap::ArgMatches);

/// Whether clap's checks of `cmd`'s declarations pass: in debug builds,
/// building a command whose declarations contradict each other (two
/// arguments with one flag, say) panics.
pub uninterp spec fn well_declared(cmd: clap::Command) -> bool;

/// The command that `clap::Command::build` makes of `cmd`.
pub uninterp spec fn built_of(cmd: clap::Command) -> clap::Command;

/// The name `cmd` declares.
pub uninterp spec fn name_of(cmd: clap::Command) -> Seq<char>;

/// The version `cmd` declares, if any.
pub uninterp spec fn version_of(cmd: clap::Command) -> Option<Seq<char>>;

/// The author `cmd` declares, if any.
pub uninterp spec fn author_of(cmd: clap::Command) -> Option<Seq<char>>;

/// The short description `cmd` declares, as plain text, if any.
pub uninterp spec fn about_of(cmd: clap::Command) -> Option<Seq<char>>;

/// The long description `cmd` declares, as plain text, if any.
pub uninterp spec fn long_about_of(cmd: clap::Command) -> Option<Seq<char>>;

/// The arguments `cmd` declares, in declaration order.
pub uninterp spec fn arguments_of(cmd: clap::Command) -> Seq<clap::Arg>;

/// The identifier of `arg`.
pub uninterp spec fn id_of(arg: clap::Arg) -> Seq<char>;

/// The help text of `arg`, as plain text, if any.
pub uninterp spec fn help_of(arg: clap::Arg) -> Option<Seq<char>>;

/// The default values of `arg`, in order, as text.
pub uninterp spec fn defaults_of(arg: clap::Arg) -> Seq<Seq<char>>;

/// Whether `arg` is given a value, as opposed to being a switch.
pub uninterp spec fn takes_values_of(arg: clap::Arg) -> bool;

/// Whether the parser of `cmd` accepts the command line `tokens` (the
/// first one names the program).
pub uninterp spec fn accepts(cmd: clap::Command, tokens: Seq<Seq<char>>) -> bool;

/// The message the parser of `cmd` gives when it refuses `tokens`.
pub uninterp spec fn refusal_of(cmd: clap::Command, tokens: Seq<Seq<char>>) -> Seq<char>;

/// The text of an optional string slice.
pub open spec fn opt_str(o: Option<&str>) -> Option<Seq<char>> {
    match o {
        Some(s) => Some(s@),
        None => None,
    }
}

/// The text of an optional string.
pub open spec fn opt_string(o: Option<String>) -> Option<Seq<char>> {
    match o {
        Some(s) => Some(s@),
        None => None,
    }
}

/// Relies on `clap::Command::build`: it completes the command's
/// declarations (the generated help and version arguments among them) and,
/// in debug builds, checks them. A built command is not checked again.
pub assume_specification[ clap::Command::build ](cmd: &mut clap::Command)
    requires
        well_declared(*old(cmd)),
    ensures
        *final(cmd) == built_of(*old(cmd)),
        well_declared(*final(cmd)),
;

/// Relies on `clap::Command::get_name`: the program's name.
pub assume_specification[ clap::Command::get_name ](cmd: &clap::Command) -> (r: &str)
    ensures
        r@ == name_of(*cmd),
;

/// Relies on `clap::Command::get_version`: the version, when one was set.
pub assume_specification[ clap::Command::get_version ](cmd: &clap::Command) -> (r: Option<&str>)
    ensures
        opt_str(r) == version_of(*cmd),
;

/// Relies on `clap::Command::get_author`: the author, when one was set.
pub assume_specification[ clap::Command::get_author ](cmd: &clap::Command) -> (r: Option<&str>)
    ensures
        opt_str(r) == author_of(*cmd),
;

/// Relies on `clap::Command::get_about`: the short description, rendered as
/// plain text.
#[verifier::external_body]
pub(crate) fn command_about(cmd: &clap::Command) -> (r: Option<String>)
    ensures
        opt_string(r) == about_of(*cmd),
{
    cmd.get_about().map(|x| x.to_string())
}

/// Relies on `clap::Command::get_long_about`: the long description, rendered
/// as plain text.
#[verifier::external_body]
pub(crate) fn command_long_about(cmd: &clap::Command) -> (r: Option<String>)
    ensures
        opt_string(r) == long_about_of(*cmd),
{
    cmd.get_long_about().map(|x| x.to_string())
}

/// Relies on `clap::Command::get_arguments`: copies of the declared
/// arguments, in the order of declaration.
#[verifier::external_body]
pub(crate) fn command_arguments(cmd: &clap::Command) -> (r: Vec<clap::Arg>)
    ensures
        r@ == arguments_of(*cmd),
{
    cmd.get_arguments().cloned().collect()
}

/// Relies on `clap::Arg::get_id`: the argument's identifier.
#[verifier::external_body]
pub(crate) fn arg_id(arg: &clap::Arg) -> (r: String)
    ensures
        r@ == id_of(*arg),
{
    arg.get_id().as_str().to_string()
}

/// Relies on `clap::Arg::get_help`: the help text, rendered as plain text.
#[verifier::external_body]
pub(crate) fn arg_help(arg: &clap::Arg) -> (r: Option<String>)
    ensures
        opt_string(r) == help_of(*arg),
{
    arg.get_help().map(|h| h.to_string())
}

/// Relies on `clap::Arg::get_default_values`: the declared defaults, in
/// order, each read as text (bytes that are not UTF-8 become U+FFFD).
#[verifier::external_body]
pub(crate) fn arg_default_values(arg: &clap::Arg) -> (r: Vec<String>)
    ensures
        r.deep_view() == defaults_of(*arg),
{
    arg.get_default_values().iter().map(|x| x.to_string_lossy().into_owned()).collect()
}

/// Relies on `clap::Arg::get_action` and `clap::ArgAction::takes_values`:
/// whether the argument is given a value, as opposed to being a switch.
#[verifier::external_body]
pub(crate) fn arg_takes_values(arg: &clap::Arg) -> (r: bool)
    ensures
        r == takes_values_of(*arg),
{
    arg.get_action().takes_values()
}

/// Relies on `clap::Command::try_get_matches_from`, on a copy of `cmd`:
/// the schema's parser, applied to `tokens` (the first one names the
/// program). A refusal comes back as the message clap's `Display` renders.
#[verifier::external_body]
pub(crate) fn try_matches(cmd: &clap::Command, tokens: &Vec<String>) -> (r: Result<clap::ArgMatches, String>)
    requires
        well_declared(*cmd),
    ensures
        r.is_ok() == accepts(*cmd, tokens.deep_view()),
        r.is_err() ==> r->Err_0@ == refusal_of(*cmd, tokens.deep_view()),
{
    cmd.clone().try_get_matches_from(tokens.iter()).map_err(|e| e.to_string())
}

} // verus!
