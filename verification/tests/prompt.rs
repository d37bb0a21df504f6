use xcop::prompt::{confirm, means_yes};

#[test]
fn single_letter_agrees_in_either_case() {
    assert!(confirm("y"));
    assert!(confirm("Y"));
}

#[test]
fn whole_word_agrees_in_any_mix_of_cases() {
    assert!(confirm("yes"));
    assert!(confirm("YES"));
    assert!(confirm("Yes"));
    assert!(confirm("yEs"));
}

#[test]
fn white_space_around_the_answer_is_cut_off() {
    assert!(confirm("y\n"));
    assert!(confirm("  yes  "));
    assert!(confirm("\tYES\r\n"));
    assert!(confirm("\u{3000}y\u{3000}"));
}

#[test]
fn white_space_inside_the_answer_stays() {
    assert!(!confirm("y e s"));
    assert!(!confirm("ye s"));
}

#[test]
fn anything_else_declines() {
    assert!(!confirm("n"));
    assert!(!confirm("N"));
    assert!(!confirm("no"));
    assert!(!confirm("maybe"));
    assert!(!confirm("yeah"));
    assert!(!confirm("ye"));
    assert!(!confirm("yy"));
    assert!(!confirm("yess"));
    assert!(!confirm("1"));
    assert!(!confirm("true"));
}

#[test]
fn empty_line_declines() {
    assert!(!confirm(""));
    assert!(!confirm("\n"));
    assert!(!confirm("   "));
}

#[test]
fn upper_case_follows_unicode() {
    // The long s has the capital S for its upper case form.
    assert!(confirm("ye\u{17f}"));
    // The sharp s becomes two letters.
    assert!(!confirm("ye\u{df}"));
    // A full-width letter is no Latin letter.
    assert!(!confirm("\u{ff59}"));
}

#[test]
fn token_must_already_be_trimmed_and_upper_case() {
    assert!(means_yes(&"Y".to_string()));
    assert!(means_yes(&"YES".to_string()));
    assert!(!means_yes(&"y".to_string()));
    assert!(!means_yes(&"yes".to_string()));
    assert!(!means_yes(&" Y".to_string()));
    assert!(!means_yes(&"".to_string()));
    assert!(!means_yes(&"NO".to_string()));
}
