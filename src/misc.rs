use vstd::prelude::*;
use vstd::string::*;

use crate::schema::{
    about_of, arg_default_values, arg_help, arg_id, arg_takes_values, author_of, command_about,
    command_long_about, defaults_of, help_of, id_of, long_about_of, name_of, opt_str, opt_string,
    takes_values_of, version_of,
};

verus! {

/// What `char::to_uppercase` yields for `c`, collected into a string.
pub uninterp spec fn upper_of(c: char) -> Seq<char>;

/// `s` with its first character replaced by `upper`.
pub open spec fn with_head(upper: Seq<char>, s: Seq<char>) -> Seq<char> {
    if s.len() == 0 {
        Seq::empty()
    } else {
        upper + s.drop_first()
    }
}

/// `s` with its first character upper-cased.
pub open spec fn capitalized(s: Seq<char>) -> Seq<char> {
    if s.len() == 0 {
        Seq::empty()
    } else {
        with_head(upper_of(s[0]), s)
    }
}

/// Relies on `char::to_uppercase`: the upper-case mapping of one character,
/// which depends on the character alone.
#[verifier::external_body]
fn uppercase(c: char) -> (r: String)
    ensures
        r@ == upper_of(c),
{
    c.to_uppercase().to_string()
}

/// Replaces the first character of `s` by `upper`; the empty string stays empty.
pub fn capitalize_from(upper: &str, s: &str) -> (r: String)
    ensures
        r@ == with_head(upper@, s@),
{
    if s.is_empty() {
        return String::new();
    }
    let n = s.unicode_len();
    let mut r = String::from_str(upper);
    r.append(s.substring_char(1, n));
    proof {
        assert(s@.subrange(1, n as int) =~= s@.drop_first());
    }
    r
}

/// Upper-cases the first character of `s`, leaving the rest as it is.
pub fn capitalize(s: &str) -> (r: String)
    ensures
        r@ == capitalized(s@),
{
    if s.is_empty() {
        return String::new();
    }
    let upper = uppercase(s.get_char(0));
    capitalize_from(upper.as_str(), s)
}

/// What a program says of itself, shown above the form.
#[derive(Clone, Debug, PartialEq)]
pub struct AppInfo {
    pub name: String,
    pub version: Option<String>,
    pub about: Option<String>,
    pub long_about: Option<String>,
    pub author: Option<String>,
}

/// Whether `info` holds what `cmd` declares of itself.
pub open spec fn describes(info: AppInfo, cmd: clap::Command) -> bool {
    &&& info.name@ == name_of(cmd)
    &&& opt_string(info.version) == version_of(cmd)
    &&& opt_string(info.about) == about_of(cmd)
    &&& opt_string(info.long_about) == long_about_of(cmd)
    &&& opt_string(info.author) == author_of(cmd)
}

/// The first of `defaults`, if any.
pub open spec fn first_default(defaults: Seq<Seq<char>>) -> Option<Seq<char>> {
    if defaults.len() > 0 {
        Some(defaults[0])
    } else {
        None
    }
}

/// Whether `a` is the descriptor of the schema's argument `arg`: its key,
/// the key capitalized as label, its help text, its first default and its
/// kind.
pub open spec fn describes_arg(a: ArgState, arg: clap::Arg) -> bool {
    &&& a.name@ == id_of(arg)
    &&& a.display_name@ == capitalized(id_of(arg))
    &&& opt_string(a.desc) == help_of(arg)
    &&& opt_string(a.default_value) == first_default(defaults_of(arg))
    &&& a.takes_value == takes_values_of(arg)
}

/// An owned copy of an optional text.
fn owned(s: Option<&str>) -> (r: Option<String>)
    ensures
        opt_string(r) == opt_str(s),
{
    match s {
        Some(x) => Some(String::from_str(x)),
        None => None,
    }
}

impl AppInfo {
    /// Reads the name, version, descriptions and author that `app` declares.
    pub fn new(app: &clap::Command) -> (r: AppInfo)
        ensures
            describes(r, *app),
    {
        AppInfo {
            name: String::from_str(app.get_name()),
            version: owned(app.get_version()),
            about: command_about(app),
            long_about: command_long_about(app),
            author: owned(app.get_author()),
        }
    }
}

/// One argument of the schema as the form shows it: its key, the label
/// derived from the key, its help text, its first declared default and
/// whether it takes a value (as opposed to being a switch).
#[derive(Clone, Debug, PartialEq)]
pub struct ArgState {
    pub name: String,
    pub display_name: String,
    pub desc: Option<String>,
    pub default_value: Option<String>,
    pub takes_value: bool,
}

/// An owned copy of an optional string.
fn copied(s: &Option<String>) -> (r: Option<String>)
    ensures
        r == *s,
{
    match s {
        Some(x) => Some(x.clone()),
        None => None,
    }
}

impl ArgState {
    /// A copy of this descriptor.
    pub fn duplicate(&self) -> (r: ArgState)
        ensures
            r == *self,
    {
        ArgState {
            name: self.name.clone(),
            display_name: self.display_name.clone(),
            desc: copied(&self.desc),
            default_value: copied(&self.default_value),
            takes_value: self.takes_value,
        }
    }

    /// The descriptor of an argument keyed `name`, with help text `desc`,
    /// declared defaults `defaults` (the first one is kept) and kind
    /// `takes_value`.
    pub fn from_schema(name: String, desc: Option<String>, defaults: &Vec<String>, takes_value: bool) -> (r: ArgState)
        ensures
            r.name@ == name@,
            r.display_name@ == capitalized(name@),
            r.desc == desc,
            opt_string(r.default_value) == first_default(defaults.deep_view()),
            r.takes_value == takes_value,
    {
        let display_name = capitalize(name.as_str());
        let default_value = if defaults.len() > 0 {
            Some(defaults[0].clone())
        } else {
            None
        };
        ArgState { name, display_name, desc, default_value, takes_value }
    }

    /// Reads the descriptor of `arg` from the schema.
    pub fn new(arg: &clap::Arg) -> (r: ArgState)
        ensures
            describes_arg(r, *arg),
    {
        let defaults = arg_default_values(arg);
        ArgState::from_schema(arg_id(arg), arg_help(arg), &defaults, arg_takes_values(arg))
    }
}

} // verus!
