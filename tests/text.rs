use claui::{capitalize, capitalize_from, AppInfo, ArgState};
use clap::{Arg, ArgAction, Command};

#[test]
fn capitalize_upper_cases_the_first_letter() {
    assert_eq!(capitalize("hello"), "Hello");
    assert_eq!(capitalize("name"), "Name");
    assert_eq!(capitalize("Already"), "Already");
}

#[test]
fn capitalize_keeps_the_empty_string() {
    assert_eq!(capitalize(""), "");
}

#[test]
fn capitalize_handles_characters_beyond_ascii() {
    assert_eq!(capitalize("élan"), "Élan");
    assert_eq!(capitalize("ßig"), "SSig");
    assert_eq!(capitalize("1abc"), "1abc");
}

#[test]
fn capitalize_from_replaces_the_head() {
    assert_eq!(capitalize_from("X", "abc"), "Xbc");
    assert_eq!(capitalize_from("SS", "ße"), "SSe");
    assert_eq!(capitalize_from("X", ""), "");
}

#[test]
fn arg_state_from_schema_keeps_the_first_default() {
    let defaults = vec![String::from("3"), String::from("4")];
    let a = ArgState::from_schema(String::from("fizz"), Some(String::from("Divisor")), &defaults, true);
    assert_eq!(a.name, "fizz");
    assert_eq!(a.display_name, "Fizz");
    assert_eq!(a.desc, Some(String::from("Divisor")));
    assert_eq!(a.default_value, Some(String::from("3")));
    assert!(a.takes_value);

    let none: Vec<String> = Vec::new();
    let b = ArgState::from_schema(String::from("verbose"), None, &none, false);
    assert_eq!(b.display_name, "Verbose");
    assert_eq!(b.desc, None);
    assert_eq!(b.default_value, None);
    assert!(!b.takes_value);
}

#[test]
fn arg_state_new_reads_the_schema() {
    let value = Arg::new("name").long("name").help("Your name").default_value("Joe");
    let a = ArgState::new(&value);
    assert_eq!(
        a,
        ArgState {
            name: String::from("name"),
            display_name: String::from("Name"),
            desc: Some(String::from("Your name")),
            default_value: Some(String::from("Joe")),
            takes_value: true,
        }
    );

    let flag = Arg::new("goodbye").long("goodbye").action(ArgAction::SetTrue);
    let b = ArgState::new(&flag);
    assert_eq!(b.name, "goodbye");
    assert_eq!(b.display_name, "Goodbye");
    assert_eq!(b.desc, None);
    assert_eq!(b.default_value, None);
    assert!(!b.takes_value);
}

#[test]
fn app_info_new_reads_the_command() {
    let app = Command::new("Builder Greeter")
        .author("Grant Handy <grantshandy@gmail.com>")
        .version("1.2.3")
        .about("A builder example for claui");
    let info = AppInfo::new(&app);
    assert_eq!(info.name, "Builder Greeter");
    assert_eq!(info.version, Some(String::from("1.2.3")));
    assert_eq!(info.about, Some(String::from("A builder example for claui")));
    assert_eq!(info.long_about, None);
    assert_eq!(info.author, Some(String::from("Grant Handy <grantshandy@gmail.com>")));

    let bare = AppInfo::new(&Command::new("Basic"));
    assert_eq!(bare.name, "Basic");
    assert_eq!(bare.version, None);
    assert_eq!(bare.about, None);
    assert_eq!(bare.author, None);
}
