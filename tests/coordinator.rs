use claui::{Claui, FormEntry};
use clap::{Arg, ArgAction, Command};

fn greeter() -> Command {
    Command::new("Builder Greeter")
        .version("1.2.3")
        .arg(Arg::new("name").long("name").help("Your name").default_value("Joe"))
        .arg(Arg::new("goodbye").long("goodbye").help("Say goodbye").action(ArgAction::SetTrue))
}

fn fizz_buzz() -> Command {
    Command::new("Fizz Buzz")
        .arg(Arg::new("fizz").long("fizz").default_value("3"))
        .arg(Arg::new("buzz").long("buzz").default_value("5"))
        .arg(Arg::new("number").long("number").default_value("100"))
        .arg(Arg::new("verbose").long("verbose").action(ArgAction::SetTrue))
}

fn text(s: &str) -> FormEntry {
    FormEntry { flag_set: false, text_value: String::from(s) }
}

fn switch(on: bool) -> FormEntry {
    FormEntry { flag_set: on, text_value: String::new() }
}

#[test]
fn new_builds_one_blank_entry_per_argument() {
    let c = Claui::new(greeter());
    let names: Vec<&str> = c.args().iter().map(|a| a.name.as_str()).collect();
    assert_eq!(names, vec!["name", "goodbye"]);
    assert_eq!(c.args()[0].display_name, "Name");
    assert_eq!(c.args()[0].default_value, Some(String::from("Joe")));
    assert!(c.args()[0].takes_value);
    assert!(!c.args()[1].takes_value);
    for i in 0..2 {
        assert_eq!(*c.entry(i), FormEntry::blank());
    }
    assert_eq!(c.buffer(), "");
    assert!(!c.is_running());
    assert_eq!(c.app_info().name, "Builder Greeter");
    assert_eq!(c.app_info().version, Some(String::from("1.2.3")));
}

#[test]
fn new_leaves_out_help_and_version() {
    let mut app = greeter();
    app.build();
    let c = Claui::new(app);
    let names: Vec<&str> = c.args().iter().map(|a| a.name.as_str()).collect();
    assert_eq!(names, vec!["name", "goodbye"]);
}

#[test]
fn blank_form_serializes_to_the_program_alone() {
    let c = Claui::new(greeter());
    assert_eq!(c.get_arg_output("/bin/greeter"), vec![String::from("/bin/greeter")]);
}

#[test]
fn filled_form_serializes_in_declaration_order() {
    let mut c = Claui::new(greeter());
    c.set_entry("goodbye", switch(true));
    c.set_entry("name", text("Ann"));
    assert_eq!(c.get_arg_output("prog"), vec!["prog", "--name", "Ann", "--goodbye"]);
}

#[test]
fn serialization_skips_empty_text_and_unset_switch() {
    let mut c = Claui::new(greeter());
    c.set_entry("name", FormEntry { flag_set: true, text_value: String::new() });
    c.set_entry("goodbye", FormEntry { flag_set: false, text_value: String::from("ignored") });
    assert_eq!(c.get_arg_output("prog"), vec!["prog"]);
}

#[test]
fn serialization_is_deterministic() {
    let mut c = Claui::new(fizz_buzz());
    c.set_entry("buzz", text("7"));
    c.set_entry("verbose", switch(true));
    let first = c.get_arg_output("fb");
    let second = c.get_arg_output("fb");
    assert_eq!(first, second);
    assert_eq!(first, vec!["fb", "--buzz", "7", "--verbose"]);
}

#[test]
fn set_entry_shares_the_entry_of_a_key() {
    let mut c = Claui::new(greeter());
    c.set_entry("name", text("Ann"));
    assert_eq!(*c.entry(0), text("Ann"));
    assert_eq!(*c.entry(1), FormEntry::blank());
}

#[test]
fn new_keeps_what_the_program_declares() {
    let app = Command::new("Builder Greeter")
        .author("Grant Handy <grantshandy@gmail.com>")
        .version("1.2.3")
        .about("A builder example for claui")
        .arg(Arg::new("name").long("name").help("Your name").default_value("Joe"));
    let c = Claui::new(app);
    let info = c.app_info();
    assert_eq!(info.name, "Builder Greeter");
    assert_eq!(info.version, Some(String::from("1.2.3")));
    assert_eq!(info.about, Some(String::from("A builder example for claui")));
    assert_eq!(info.long_about, None);
    assert_eq!(info.author, Some(String::from("Grant Handy <grantshandy@gmail.com>")));
    assert_eq!(c.args().len(), 1);
    assert_eq!(c.args()[0].desc, Some(String::from("Your name")));
}

#[test]
fn round_trip_gives_the_entered_values() {
    let mut c = Claui::new(greeter());
    c.set_entry("name", text("Ann"));
    c.set_entry("goodbye", switch(true));
    let m = c.run("greeter").expect("the schema accepts the form");
    assert_eq!(m.get_one::<String>("name"), Some(&String::from("Ann")));
    assert!(m.get_flag("goodbye"));
    assert!(c.is_running());
}

#[test]
fn round_trip_with_empty_text_gives_the_default() {
    let mut c = Claui::new(greeter());
    let m = c.run("greeter").expect("the schema accepts the form");
    assert_eq!(m.get_one::<String>("name"), Some(&String::from("Joe")));
    assert!(!m.get_flag("goodbye"));
}

#[test]
fn fizz_buzz_blank_form_resolves_to_defaults() {
    let mut c = Claui::new(fizz_buzz());
    let m = c.run("fizzbuzz").expect("the schema accepts the form");
    assert_eq!(m.get_one::<String>("fizz"), Some(&String::from("3")));
    assert_eq!(m.get_one::<String>("buzz"), Some(&String::from("5")));
    assert_eq!(m.get_one::<String>("number"), Some(&String::from("100")));
    assert!(!m.get_flag("verbose"));
}

#[test]
fn trigger_while_running_is_a_no_op() {
    let mut c = Claui::new(greeter());
    assert!(c.run("greeter").is_some());
    c.update_buffer("working\n", "");
    c.set_entry("name", text("Bob"));
    assert!(c.run("greeter").is_none());
    assert!(c.is_running());
    assert_eq!(c.buffer(), "working\n");
}

#[test]
fn successful_run_clears_the_buffer() {
    let mut c = Claui::new(greeter());
    c.update_buffer("earlier output\n", "earlier error\n");
    assert!(c.run("greeter").is_some());
    assert_eq!(c.buffer(), "");
}

#[test]
fn failed_validation_appends_the_error_and_stays_idle() {
    let app = Command::new("strict").arg(Arg::new("must").long("must").required(true));
    let mut c = Claui::new(app);
    c.update_buffer("kept\n", "");
    assert!(c.run("strict").is_none());
    assert!(!c.is_running());
    let out = c.buffer().to_string();
    assert!(out.starts_with("kept\n"));
    assert!(out.len() > "kept\n".len());
    assert!(out.contains("--must"));
}

#[test]
fn dispatch_refusal_appends_exactly_the_message() {
    let mut c = Claui::new(greeter());
    c.update_buffer("before\n", "");
    assert!(c.dispatch(Err(String::from("error: bad value\n"))).is_none());
    assert_eq!(c.buffer(), "before\nerror: bad value\n");
    assert!(!c.is_running());
}

#[test]
fn dispatch_while_running_changes_nothing() {
    let mut c = Claui::new(greeter());
    assert!(c.run("greeter").is_some());
    assert!(c.dispatch(Err(String::from("late\n"))).is_none());
    assert_eq!(c.buffer(), "");
    assert!(c.is_running());
}

#[test]
fn poll_returns_to_idle_once_finished() {
    let mut c = Claui::new(greeter());
    assert!(c.run("greeter").is_some());
    c.update_thread_state(false);
    assert!(c.is_running());
    c.update_thread_state(false);
    assert!(c.is_running());
    c.update_thread_state(true);
    assert!(!c.is_running());
    c.update_thread_state(true);
    assert!(!c.is_running());
    assert!(c.run("greeter").is_some());
}

#[test]
fn drains_keep_the_order_within_a_stream() {
    let mut c = Claui::new(greeter());
    c.update_buffer("a", "");
    c.update_buffer("b", "");
    assert_eq!(c.buffer(), "ab");

    let mut d = Claui::new(greeter());
    d.update_buffer("ab", "");
    assert_eq!(d.buffer(), "ab");

    let mut e = Claui::new(greeter());
    e.update_buffer("a", "x");
    e.update_buffer("b", "y");
    assert_eq!(e.buffer(), "axby");
}

#[test]
fn clear_buffer_only_when_idle() {
    let mut c = Claui::new(greeter());
    c.update_buffer("old", "");
    c.clear_buffer();
    assert_eq!(c.buffer(), "");
    assert!(c.run("greeter").is_some());
    c.update_buffer("live", "");
    c.clear_buffer();
    assert_eq!(c.buffer(), "live");
}
