use yew_study::challenge::{Challenge, Check, CheckAnswerResponseWrapper, Data, ResponseWrapper};
use yew_study::queue::ChallengeQueue;

fn challenge(vocab_id: i32, prompt: &str) -> Challenge {
    let mut c = Challenge::default();
    c.vocab_id = vocab_id;
    c.prompt = prompt.to_string();
    c
}

#[test]
fn queue_hands_out_in_order() {
    let mut q = ChallengeQueue::new();
    assert!(q.is_empty());
    assert!(q.take_next().is_none());
    q.refill(vec![challenge(1, "a"), challenge(2, "b")]);
    assert_eq!(q.remaining(), 2);
    assert_eq!(q.take_next().unwrap().prompt, "a");
    assert_eq!(q.take_next().unwrap().prompt, "b");
    assert!(q.take_next().is_none());
    assert_eq!(q.remaining(), 0);
}

#[test]
fn refill_drops_the_remainder() {
    let mut q = ChallengeQueue::new();
    q.refill(vec![challenge(1, "a"), challenge(2, "b")]);
    q.take_next();
    q.refill(vec![challenge(3, "c"), challenge(3, "c")]);
    assert_eq!(q.remaining(), 2);
    assert_eq!(q.take_next().unwrap().vocab_id, 3);
    assert_eq!(q.take_next().unwrap().vocab_id, 3);
    assert!(q.is_empty());
}

#[test]
fn placeholder_is_all_empty() {
    let c = Challenge::default();
    assert!(c.is_placeholder());
    assert_eq!(c.vocab_id, 0);
    assert_eq!(c.num_learning_words, 0);
    assert!(c.prompt.is_empty() && c.first_lang.is_empty() && c.pos.is_empty());
    assert!(!challenge(1, "").is_placeholder());
    assert!(!challenge(0, "x").is_placeholder());
}

#[test]
fn clone_and_equality_go_by_fields() {
    let mut c = challenge(4, "tree");
    c.user_notes = "arbol".to_string();
    let d = c.clone();
    assert!(c == d);
    let mut e = d.clone();
    e.user_notes = "árbol".to_string();
    assert!(c != e);
}

#[test]
fn responses_unwrap_to_their_payload() {
    let r = ResponseWrapper { data: Data { get_study_list: vec![challenge(1, "a"), challenge(2, "b")] } };
    let list = r.into_challenges();
    assert_eq!(list.len(), 2);
    assert_eq!(list[1].prompt, "b");
    let v = CheckAnswerResponseWrapper { data: Check { response_prompt: "Correct!".to_string() } };
    assert_eq!(v.into_verdict(), "Correct!");
}
