use yew_study::challenge::Challenge;
use yew_study::study::{Command, Msg, Study, StudyMode, DEFAULT_BATCH_LIMIT, DEFAULT_SUBJECT_ID};

fn challenge(vocab_id: i32, prompt: &str) -> Challenge {
    let mut c = Challenge::default();
    c.vocab_id = vocab_id;
    c.vocab_study_id = vocab_id * 10;
    c.prompt = prompt.to_string();
    c
}

fn is_fetch(cmd: &Option<Command>, subject: i32, limit: i32) -> bool {
    matches!(cmd, Some(Command::FetchBatch { subject_id, limit: l }) if *subject_id == subject && *l == limit)
}

#[test]
fn fresh_session_is_loading() {
    let s = Study::create();
    assert_eq!(s.study_mode(), StudyMode::Loading);
    assert!(s.challenge().is_none());
    assert_eq!(s.prompt(), "");
    assert_eq!(s.answer(), "");
    assert_eq!(s.err_msg(), "");
    assert!(!s.has_more_hints());
    assert!(s.revealed_hints().is_empty());
    assert_eq!(s.remaining(), 0);
}

#[test]
fn first_render_fetches_first_batch() {
    let s = Study::create();
    assert!(is_fetch(&s.rendered(true), DEFAULT_SUBJECT_ID, DEFAULT_BATCH_LIMIT));
    assert!(s.rendered(false).is_none());
    assert_eq!(DEFAULT_SUBJECT_ID, 1);
    assert_eq!(DEFAULT_BATCH_LIMIT, 5);
    let t = Study::new(7, 3);
    assert!(is_fetch(&t.rendered(true), 7, 3));
}

#[test]
fn cat_dog_scenario() {
    let mut s = Study::create();
    let cmd = s.update(Msg::UpdateList(vec![challenge(1, "cat"), challenge(2, "dog")]));
    assert!(cmd.is_none());
    assert_eq!(s.study_mode(), StudyMode::Challenge);
    assert_eq!(s.prompt(), "cat");
    assert_eq!(s.challenge().unwrap().vocab_id, 1);

    assert!(s.update(Msg::UpdateAnswer("gato".to_string())).is_none());
    match s.update(Msg::CheckAnswer) {
        Some(Command::SubmitAnswer { answer, challenge }) => {
            assert_eq!(answer, "gato");
            assert_eq!(challenge.vocab_id, 1);
            assert_eq!(challenge.vocab_study_id, 10);
            assert_eq!(challenge.prompt, "cat");
        }
        _ => panic!("expected a submission"),
    }
    assert_eq!(s.study_mode(), StudyMode::Challenge);

    assert!(s.update(Msg::ShowAnswerResponse("Correct!".to_string())).is_none());
    assert_eq!(s.study_mode(), StudyMode::Outcome);
    assert_eq!(s.prompt(), "Correct!");

    assert!(s.update(Msg::NextChallenge).is_none());
    assert_eq!(s.study_mode(), StudyMode::Challenge);
    assert_eq!(s.prompt(), "dog");
    assert_eq!(s.answer(), "");

    let cmd = s.update(Msg::NextChallenge);
    assert_eq!(s.study_mode(), StudyMode::Loading);
    assert!(s.challenge().is_none());
    assert!(is_fetch(&cmd, DEFAULT_SUBJECT_ID, DEFAULT_BATCH_LIMIT));
}

#[test]
fn failed_fetch_then_retry() {
    let mut s = Study::create();
    assert!(s.update(Msg::FetchError("network down".to_string())).is_none());
    assert_eq!(s.study_mode(), StudyMode::Error);
    assert_eq!(s.err_msg(), "network down");

    let cmd = s.update(Msg::NextChallenge);
    assert!(is_fetch(&cmd, DEFAULT_SUBJECT_ID, DEFAULT_BATCH_LIMIT));
    assert_eq!(s.study_mode(), StudyMode::Loading);

    s.update(Msg::UpdateList(vec![challenge(3, "house")]));
    assert_eq!(s.study_mode(), StudyMode::Challenge);
    assert_eq!(s.prompt(), "house");
    assert_eq!(s.err_msg(), "");
}

#[test]
fn failed_submit_then_resubmit() {
    let mut s = Study::create();
    s.update(Msg::UpdateList(vec![challenge(1, "cat")]));
    s.update(Msg::UpdateAnswer("gato".to_string()));
    assert!(s.update(Msg::CheckAnswer).is_some());
    s.update(Msg::FetchError("bad gateway".to_string()));
    assert_eq!(s.study_mode(), StudyMode::Error);
    assert_eq!(s.err_msg(), "bad gateway");
    assert_eq!(s.answer(), "gato");

    match s.update(Msg::CheckAnswer) {
        Some(Command::SubmitAnswer { answer, challenge }) => {
            assert_eq!(answer, "gato");
            assert_eq!(challenge.prompt, "cat");
        }
        _ => panic!("expected a submission"),
    }
    assert_eq!(s.err_msg(), "");
    s.update(Msg::ShowAnswerResponse("Correct!".to_string()));
    assert_eq!(s.study_mode(), StudyMode::Outcome);
}

#[test]
fn batch_of_three_is_used_up_after_three_advances() {
    let mut s = Study::create();
    s.update(Msg::UpdateList(vec![challenge(1, "a"), challenge(2, "b"), challenge(3, "c")]));
    assert_eq!(s.prompt(), "a");
    assert_eq!(s.remaining(), 2);
    assert!(s.update(Msg::NextChallenge).is_none());
    assert_eq!(s.prompt(), "b");
    assert!(s.update(Msg::NextChallenge).is_none());
    assert_eq!(s.prompt(), "c");
    assert_eq!(s.remaining(), 0);
    let cmd = s.update(Msg::NextChallenge);
    assert!(is_fetch(&cmd, 1, 5));
    assert_eq!(s.study_mode(), StudyMode::Loading);
}

#[test]
fn single_challenge_batch_fetches_on_first_advance() {
    let mut s = Study::new(4, 2);
    s.update(Msg::UpdateList(vec![challenge(1, "only")]));
    assert_eq!(s.prompt(), "only");
    assert!(is_fetch(&s.update(Msg::NextChallenge), 4, 2));
}

#[test]
fn empty_batch_keeps_loading() {
    let mut s = Study::create();
    s.update(Msg::UpdateAnswer("draft".to_string()));
    s.update(Msg::FetchError("boom".to_string()));
    assert!(s.update(Msg::UpdateList(Vec::new())).is_none());
    assert_eq!(s.study_mode(), StudyMode::Loading);
    assert!(s.challenge().is_none());
    assert_eq!(s.answer(), "");
    assert_eq!(s.err_msg(), "");
    assert_eq!(s.remaining(), 0);
}

#[test]
fn nothing_to_submit_before_first_batch() {
    let mut s = Study::create();
    s.update(Msg::UpdateAnswer("gato".to_string()));
    assert!(s.update(Msg::CheckAnswer).is_none());
    assert_eq!(s.study_mode(), StudyMode::Loading);
    assert!(s.challenge().is_none());
    s.update(Msg::FetchError("offline".to_string()));
    assert!(s.challenge().is_none());
    assert_ne!(s.study_mode(), StudyMode::Challenge);
}

#[test]
fn repeated_draft_edit_changes_nothing_more() {
    let mut s = Study::create();
    s.update(Msg::UpdateList(vec![challenge(1, "cat")]));
    s.update(Msg::FetchError("old error".to_string()));
    s.update(Msg::UpdateAnswer("ga to ".to_string()));
    assert_eq!(s.answer(), "ga to ");
    assert_eq!(s.err_msg(), "old error");
    assert_eq!(s.study_mode(), StudyMode::Error);
    assert!(s.update(Msg::UpdateAnswer("ga to ".to_string())).is_none());
    assert_eq!(s.answer(), "ga to ");
    assert_eq!(s.err_msg(), "old error");
    assert_eq!(s.study_mode(), StudyMode::Error);
    assert_eq!(s.prompt(), "cat");
    assert_eq!(s.remaining(), 0);
}

#[test]
fn later_arriving_batch_wins() {
    let mut s = Study::create();
    // B was asked for second but arrives first; A arrives last and wins.
    s.update(Msg::UpdateList(vec![challenge(20, "b1"), challenge(21, "b2"), challenge(22, "b3")]));
    s.update(Msg::UpdateList(vec![challenge(10, "a1"), challenge(11, "a2")]));
    assert_eq!(s.prompt(), "a1");
    assert_eq!(s.remaining(), 1);
    s.update(Msg::NextChallenge);
    assert_eq!(s.prompt(), "a2");
    assert!(is_fetch(&s.update(Msg::NextChallenge), 1, 5));
}

#[test]
fn stale_verdict_still_shows() {
    let mut s = Study::create();
    s.update(Msg::UpdateList(vec![challenge(1, "cat")]));
    s.update(Msg::NextChallenge);
    assert_eq!(s.study_mode(), StudyMode::Loading);
    s.update(Msg::ShowAnswerResponse("Late verdict".to_string()));
    assert_eq!(s.study_mode(), StudyMode::Outcome);
    assert_eq!(s.prompt(), "Late verdict");
}

#[test]
fn hints_of_current_challenge_reset_on_advance() {
    let mut first = challenge(1, "cat");
    first.pos = "noun".to_string();
    first.hint = "feline".to_string();
    let mut second = challenge(2, "run");
    second.infinitive = "correr".to_string();
    let mut s = Study::create();
    s.update(Msg::UpdateList(vec![first, second]));
    assert!(s.has_more_hints());
    assert_eq!(s.reveal_hint().unwrap(), "    Other Hints: feline");
    assert_eq!(s.reveal_hint().unwrap(), "    Part of Speech: noun");
    assert!(!s.has_more_hints());
    assert!(s.reveal_hint().is_none());
    assert_eq!(s.revealed_hints().len(), 2);

    s.update(Msg::NextChallenge);
    assert!(s.revealed_hints().is_empty());
    assert!(s.has_more_hints());
    assert_eq!(s.reveal_hint().unwrap(), "    Infinitive: correr");
    assert_eq!(s.revealed_hints(), &vec!["    Infinitive: correr".to_string()]);
}
