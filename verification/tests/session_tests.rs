use papers_plz::persona::Persona;
use papers_plz::session::{intro_text, verdict_text, Action, Message, Role, Session};

fn innocent() -> Persona {
    Persona::from_draws(0, 0, 0, 0, 0, 0, 0)
}

fn smuggler() -> Persona {
    // coin 1 selects a secret; draw 0 selects "smuggler"
    Persona::from_draws(0, 0, 0, 0, 1, 0, 0)
}

#[test]
fn as_user_tags_the_line_with_the_user_role() {
    let m = Message::as_user(String::from("let me see your papers"));
    assert!(matches!(m.role, Role::User));
    assert_eq!(m.content, "let me see your papers");
}

#[test]
fn verdict_praises_the_right_call() {
    assert_eq!(
        verdict_text(&innocent(), true),
        "Good job! Viktor Petrov was innocent."
    );
    assert_eq!(
        verdict_text(&smuggler(), false),
        "Good job! Viktor Petrov was a secret smuggler."
    );
}

#[test]
fn verdict_rues_the_wrong_call() {
    assert_eq!(
        verdict_text(&innocent(), false),
        "Rut roh! Viktor Petrov was innocent."
    );
    assert_eq!(
        verdict_text(&smuggler(), true),
        "Rut roh! Viktor Petrov was a secret smuggler."
    );
}

#[test]
fn intro_names_the_game() {
    let intro = intro_text();
    assert!(intro.starts_with("Welcome to Papers Plz GPT!"));
    assert!(intro.contains("Type \"Accept\" or \"Reject\""));
}

#[test]
fn reset_transcript_is_the_preamble_alone() {
    let mut s = Session::new();
    assert_eq!(s.transcript.len(), 0);
    let p = innocent();
    s.begin_round(p);
    assert_eq!(s.transcript.len(), 1);
    assert!(matches!(s.transcript[0].role, Role::User));
    assert_eq!(s.transcript[0].content, p.preamble_text());
}

#[test]
fn round_opens_with_one_user_and_one_assistant_turn() {
    let mut s = Session::new();
    s.begin_round(smuggler());
    s.push_assistant(String::from("Good evening, officer!"));
    assert_eq!(s.transcript.len(), 2);
    assert!(matches!(s.transcript[0].role, Role::User));
    assert!(matches!(s.transcript[1].role, Role::Assistant));
    let users = s
        .transcript
        .iter()
        .filter(|m| matches!(m.role, Role::User))
        .count();
    assert_eq!(users, 1);
}

#[test]
fn free_form_line_appends_one_user_and_one_assistant_turn() {
    let mut s = Session::new();
    s.begin_round(innocent());
    s.push_assistant(String::from("Hello there."));
    let before = s.transcript.len();
    let a = s.step(String::from("Hello"));
    assert!(matches!(a, Action::Sent));
    assert_eq!(s.transcript.len(), before + 1);
    assert!(matches!(s.transcript[before].role, Role::User));
    assert_eq!(s.transcript[before].content, "Hello");
    s.push_assistant(String::from("Nice to meet you."));
    assert_eq!(s.transcript.len(), before + 2);
    assert!(matches!(s.transcript[before + 1].role, Role::Assistant));
}

#[test]
fn reset_clears_any_length_of_conversation() {
    let mut s = Session::new();
    s.begin_round(smuggler());
    s.push_assistant(String::from("Hi."));
    for i in 0..5 {
        let a = s.step(format!("question number {i}"));
        assert!(matches!(a, Action::Sent));
        s.push_assistant(format!("answer number {i}"));
    }
    assert_eq!(s.transcript.len(), 12);
    let a = s.step(String::from("Reset"));
    assert!(matches!(a, Action::NewRound));
    // the command itself leaves the transcript untouched
    assert_eq!(s.transcript.len(), 12);
    let p = innocent();
    s.begin_round(p);
    assert_eq!(s.transcript.len(), 1);
    assert!(matches!(s.transcript[0].role, Role::User));
    assert_eq!(s.transcript[0].content, p.preamble_text());
}

#[test]
fn commands_match_case_insensitively() {
    let mut s = Session::new();
    s.begin_round(smuggler());
    s.push_assistant(String::from("Hi."));
    let a = s.step(String::from("ACCEPT"));
    match a {
        Action::Verdict(t) => assert_eq!(t, "Rut roh! Viktor Petrov was a secret smuggler."),
        _ => panic!("ACCEPT should end the round with a verdict"),
    }
    let a = s.step(String::from("ReJeCt"));
    match a {
        Action::Verdict(t) => assert_eq!(t, "Good job! Viktor Petrov was a secret smuggler."),
        _ => panic!("ReJeCt should end the round with a verdict"),
    }
    let a = s.step(String::from("rEsEt"));
    assert!(matches!(a, Action::NewRound));
}

#[test]
fn verdict_judges_the_persona_before_the_reset() {
    let mut s = Session::new();
    s.begin_round(smuggler());
    s.push_assistant(String::from("Hi."));
    let a = s.step(String::from("reject"));
    // the verdict speaks of the smuggler on the stand, not of whoever
    // the next round will bring
    match a {
        Action::Verdict(t) => assert!(t.contains("was a secret smuggler")),
        _ => panic!("reject should end the round with a verdict"),
    }
    s.begin_round(innocent());
    assert!(!s.persona.has_secret());
}

#[test]
fn near_misses_of_command_words_are_forwarded() {
    let mut s = Session::new();
    s.begin_round(innocent());
    s.push_assistant(String::from("Hi."));
    for line in ["accept!", "reject please", " reset", "acceptance"] {
        let before = s.transcript.len();
        let a = s.step(String::from(line));
        assert!(matches!(a, Action::Sent));
        assert_eq!(s.transcript.len(), before + 1);
        s.push_assistant(String::from("..."));
    }
}

#[test]
fn start_round_draws_a_fresh_well_formed_persona() {
    let mut s = Session::new();
    s.start_round();
    assert_eq!(s.transcript.len(), 1);
    assert!(matches!(s.transcript[0].role, Role::User));
    assert!(s.persona.first < 6);
    assert!(s.persona.quirk_a != s.persona.quirk_b);
    assert_eq!(s.transcript[0].content, s.persona.preamble_text());
}
