use xcop::configuration::{configure, Configuration, Refusal};

fn args(list: &[&str]) -> Vec<String> {
    list.iter().map(|text| text.to_string()).collect()
}

fn settings(source: &str, destination: &str, dry_run: bool, verbose: bool) -> Configuration {
    Configuration {
        source_path: source.to_string(),
        destination_path: destination.to_string(),
        dry_run,
        verbose,
    }
}

#[test]
fn new_keeps_the_four_settings() {
    let made = Configuration::new("from".to_string(), "to".to_string(), true, false);
    assert_eq!(made.source_path, "from");
    assert_eq!(made.destination_path, "to");
    assert!(made.dry_run);
    assert!(!made.verbose);
    let made = Configuration::new(String::new(), "x".to_string(), false, true);
    assert_eq!(made, settings("", "x", false, true));
}

#[test]
fn two_paths_make_a_configuration() {
    assert_eq!(configure(&args(&["from", "to"])), Ok(settings("from", "to", false, false)));
}

#[test]
fn flags_are_read_wherever_they_stand() {
    assert_eq!(
        configure(&args(&["--dry-run", "from", "to"])),
        Ok(settings("from", "to", true, false))
    );
    assert_eq!(
        configure(&args(&["from", "--verbose", "to"])),
        Ok(settings("from", "to", false, true))
    );
    assert_eq!(
        configure(&args(&["from", "to", "--verbose", "--dry-run"])),
        Ok(settings("from", "to", true, true))
    );
    assert_eq!(
        configure(&args(&["--dry-run", "--dry-run", "from", "to"])),
        Ok(settings("from", "to", true, false))
    );
}

#[test]
fn help_is_refused_as_help() {
    assert_eq!(configure(&args(&["--help"])), Err(Refusal::Help));
    assert_eq!(configure(&args(&["from", "to", "--help"])), Err(Refusal::Help));
}

#[test]
fn unknown_long_flag_is_named() {
    assert_eq!(
        configure(&args(&["from", "to", "--force"])),
        Err(Refusal::UnknownFlag("--force".to_string()))
    );
    assert_eq!(configure(&args(&["--"])), Err(Refusal::UnknownFlag("--".to_string())));
    assert_eq!(
        configure(&args(&["--dry-runs", "a", "b"])),
        Err(Refusal::UnknownFlag("--dry-runs".to_string()))
    );
    assert_eq!(
        configure(&args(&["--Help", "a", "b"])),
        Err(Refusal::UnknownFlag("--Help".to_string()))
    );
}

#[test]
fn short_flag_is_refused() {
    assert_eq!(configure(&args(&["-v", "from", "to"])), Err(Refusal::ShortFlag));
    assert_eq!(configure(&args(&["from", "to", "-"])), Err(Refusal::ShortFlag));
}

#[test]
fn first_objection_decides() {
    assert_eq!(configure(&args(&["-x", "--help"])), Err(Refusal::ShortFlag));
    assert_eq!(configure(&args(&["--help", "-x"])), Err(Refusal::Help));
    assert_eq!(
        configure(&args(&["--bogus", "-x", "--help"])),
        Err(Refusal::UnknownFlag("--bogus".to_string()))
    );
    assert_eq!(
        configure(&args(&["a", "--bogus", "b"])),
        Err(Refusal::UnknownFlag("--bogus".to_string()))
    );
}

#[test]
fn objection_comes_before_missing_paths() {
    assert_eq!(configure(&args(&["-q"])), Err(Refusal::ShortFlag));
    assert_eq!(configure(&args(&["from", "--help"])), Err(Refusal::Help));
}

#[test]
fn no_path_is_a_missing_source() {
    assert_eq!(configure(&args(&[])), Err(Refusal::MissingSource));
    assert_eq!(configure(&args(&["--dry-run", "--verbose"])), Err(Refusal::MissingSource));
}

#[test]
fn one_path_is_a_missing_destination() {
    assert_eq!(configure(&args(&["from"])), Err(Refusal::MissingDestination));
    assert_eq!(configure(&args(&["--verbose", "from"])), Err(Refusal::MissingDestination));
}

#[test]
fn empty_arguments_name_no_path() {
    assert_eq!(configure(&args(&[""])), Err(Refusal::MissingSource));
    assert_eq!(configure(&args(&["from", ""])), Err(Refusal::MissingDestination));
    assert_eq!(configure(&args(&["", "from", "", "to"])), Ok(settings("from", "to", false, false)));
}

#[test]
fn paths_beyond_the_second_are_passed_over() {
    assert_eq!(
        configure(&args(&["from", "to", "more", "and more"])),
        Ok(settings("from", "to", false, false))
    );
}

#[test]
fn paths_may_hold_any_characters() {
    assert_eq!(
        configure(&args(&["\u{30c7}\u{30fc}\u{30bf}", "a-b"])),
        Ok(settings("\u{30c7}\u{30fc}\u{30bf}", "a-b", false, false))
    );
    assert_eq!(configure(&args(&["a--b", "c-"])), Ok(settings("a--b", "c-", false, false)));
}
