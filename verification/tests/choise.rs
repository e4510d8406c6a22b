use searchhelp::choise::{
    find_among, matches_choice, normalize, question_text, reminder_text, take_line,
};

#[test]
fn the_question_shows_the_choices_that_are_not_empty() {
    let choices = vec!["y", "N", ""];
    assert_eq!(
        question_text("Program with that name already exists, do you wish to update it?", &choices),
        "Program with that name already exists, do you wish to update it? [y/N]"
    );
    assert_eq!(question_text("Go on?", &vec!["", "yes", "", "no"]), "Go on? [yes/no]");
    assert_eq!(question_text("Go on?", &Vec::new()), "Go on? []");
    assert_eq!(question_text("Go on?", &vec![""]), "Go on? []");
}

#[test]
fn the_reminder_shows_every_choice() {
    assert_eq!(
        reminder_text(&vec!["y", "N", ""]),
        "Invalid input, please enter any of the following [y/N/]"
    );
    assert_eq!(reminder_text(&Vec::new()), "Invalid input, please enter any of the following []");
}

#[test]
fn input_is_trimmed_and_lowered() {
    assert_eq!(normalize("  Y\n"), "y");
    assert_eq!(normalize("NO"), "no");
    assert_eq!(normalize("\n"), "");
    assert_eq!(normalize(" ÄB c "), "äb c");
}

#[test]
fn choices_match_whatever_their_case() {
    let choices = vec!["y", "N", ""];
    assert!(matches_choice(&choices, "y"));
    assert!(matches_choice(&choices, "n"));
    assert!(matches_choice(&choices, ""));
    assert!(!matches_choice(&choices, "N"));
    assert!(!matches_choice(&choices, "yes"));
    assert!(!matches_choice(&Vec::new(), ""));
}

#[test]
fn find_among_compares_whole_texts() {
    let texts = vec!["a".to_string(), "bc".to_string()];
    assert!(find_among(&texts, "bc"));
    assert!(!find_among(&texts, "b"));
    assert!(!find_among(&Vec::new(), "a"));
}

#[test]
fn a_line_that_answers_is_taken() {
    let choices = vec!["y", "N", ""];
    let mut pending = String::new();
    assert!(take_line(&choices, &mut pending, "Y\n"));
    assert_eq!(pending, "y");
    let mut pending = String::new();
    assert!(take_line(&choices, &mut pending, "\n"));
    assert_eq!(pending, "");
}

#[test]
fn a_line_that_does_not_answer_stays_pending() {
    let choices = vec!["y", "N", ""];
    let mut pending = String::new();
    assert!(!take_line(&choices, &mut pending, "Q\n"));
    assert_eq!(pending, "q");
    assert!(!take_line(&choices, &mut pending, "y\n"));
    assert_eq!(pending, "qy");
}
