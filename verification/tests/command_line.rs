use toa::common::{arg, flag, App, ArgMatches};

#[test]
fn arg_is_positional_and_bare() {
    let a = arg("destination");
    assert_eq!(a.name, "destination");
    assert_eq!(a.long, None);
    assert_eq!(a.short, None);
    assert_eq!(a.help, None);
    assert!(!a.required);
    assert!(!a.takes_value);
    assert_eq!(a.default_value, None);
    assert_eq!(a.overrides_with, None);
    assert!(!a.multiple);
    assert!(!a.last);
}

#[test]
fn flag_is_written_with_its_name() {
    let f = flag("forever");
    assert_eq!(f.name, "forever");
    assert_eq!(f.long, Some("forever".to_string()));
    assert_eq!(f.short, None);
    assert!(!f.takes_value);
}

#[test]
fn arg_builders_set_one_thing_each() {
    let a = flag("number").short("n").takes_value(true).default_value("4").help("How many.");
    assert_eq!(a.name, "number");
    assert_eq!(a.long, Some("number".to_string()));
    assert_eq!(a.short, Some("n".to_string()));
    assert!(a.takes_value);
    assert_eq!(a.default_value, Some("4".to_string()));
    assert_eq!(a.help, Some("How many.".to_string()));
    assert!(!a.required);
    let b = arg("PATH").multiple(true).last(true).required(true).overrides_with("x").long("p");
    assert!(b.multiple && b.last && b.required);
    assert_eq!(b.overrides_with, Some("x".to_string()));
    assert_eq!(b.long, Some("p".to_string()));
    assert!(!b.takes_value);
    assert!(flag("x").default_value("1").takes_value);
}

#[test]
fn app_builders_keep_the_order_of_arguments() {
    let app = App::new("tool")
        .about("About.")
        .author("Someone")
        .version("1.2.3")
        .after_help("More.")
        .arg(arg("first"))
        .arg(flag("second"));
    assert_eq!(app.name, "tool");
    assert_eq!(app.about, Some("About.".to_string()));
    assert_eq!(app.author, Some("Someone".to_string()));
    assert_eq!(app.version, Some("1.2.3".to_string()));
    assert_eq!(app.after_help, Some("More.".to_string()));
    let names: Vec<&str> = app.args.iter().map(|a| a.name.as_str()).collect();
    assert_eq!(names, vec!["first", "second"]);
    assert_eq!(App::new("bare").args.len(), 0);
}

#[test]
fn ping_command_line() {
    let app = toa::ping::cli::parser();
    assert_eq!(app.name, "toa-ping");
    assert_eq!(app.about, Some("\nKawaii ping tool.".to_string()));
    assert_eq!(app.after_help, Some("Destination format: <host>[:<port>]\n".to_string()));
    let names: Vec<&str> = app.args.iter().map(|a| a.name.as_str()).collect();
    assert_eq!(
        names,
        vec!["destination", "forever", "4", "6", "protocol", "number", "interval", "timeout"]
    );
    assert!(app.args[0].required);
    assert_eq!(app.args[0].long, None);
    assert_eq!(app.args[1].short, Some("f".to_string()));
    assert_eq!(app.args[2].overrides_with, Some("6".to_string()));
    assert_eq!(app.args[3].overrides_with, Some("4".to_string()));
    let defaults: Vec<Option<&str>> =
        app.args.iter().map(|a| a.default_value.as_ref().map(|v| v.as_str())).collect();
    assert_eq!(
        defaults,
        vec![None, None, None, None, Some("tcp"), Some("4"), Some("500"), Some("1000")]
    );
    let shorts: Vec<Option<&str>> =
        app.args.iter().map(|a| a.short.as_ref().map(|v| v.as_str())).collect();
    assert_eq!(shorts, vec![None, Some("f"), None, None, Some("p"), Some("n"), Some("i"), Some("w")]);
    assert_eq!(
        app.args[7].help,
        Some("Time to wait for each response in milliseconds.".to_string())
    );
}

#[test]
fn find_command_line() {
    let app = toa::find::cli::parser();
    assert_eq!(app.name, "toa-find");
    let names: Vec<&str> = app.args.iter().map(|a| a.name.as_str()).collect();
    assert_eq!(names, vec!["PATTERN", "sym", "minhop", "hop", "quiet", "file", "dir", "PATH"]);
    assert!(app.args[0].required);
    assert!(app.args[2].takes_value && app.args[3].takes_value);
    assert_eq!(app.args[2].default_value, None);
    assert!(app.args[7].multiple && app.args[7].last);
    assert_eq!(app.args[7].long, None);
    let shorts: Vec<Option<&str>> =
        app.args.iter().map(|a| a.short.as_ref().map(|v| v.as_str())).collect();
    assert_eq!(shorts, vec![None, Some("s"), None, None, Some("q"), Some("f"), Some("d"), None]);
}

#[test]
fn matches_find_what_was_inserted() {
    let mut matches = ArgMatches::new();
    assert!(!matches.is_present("number"));
    assert_eq!(matches.value_of("number"), None);
    assert!(matches.values_of("number").is_none());
    matches.insert("number", vec!["4".to_string()]);
    matches.insert("forever", vec![]);
    matches.insert("PATH", vec!["a".to_string(), "b".to_string()]);
    assert!(matches.is_present("number"));
    assert!(matches.is_present("forever"));
    assert!(!matches.is_present("Number"));
    assert!(!matches.is_present(""));
    assert_eq!(matches.value_of("number"), Some("4"));
    assert_eq!(matches.value_of("forever"), None);
    assert!(matches.values_of("forever").is_none());
    assert_eq!(matches.value_of("PATH"), Some("a"));
    assert_eq!(matches.values_of("PATH"), Some(&vec!["a".to_string(), "b".to_string()]));
}

#[test]
fn a_later_find_replaces_an_earlier_one() {
    let mut matches = ArgMatches::new();
    matches.insert("number", vec!["4".to_string()]);
    matches.insert("other", vec!["x".to_string()]);
    matches.insert("number", vec!["10".to_string(), "11".to_string()]);
    assert_eq!(matches.value_of("number"), Some("10"));
    assert_eq!(matches.value_of("other"), Some("x"));
    matches.insert("number", vec![]);
    assert!(matches.is_present("number"));
    assert_eq!(matches.value_of("number"), None);
}
