use vstd::prelude::*;

use crate::challenge::Challenge;
use crate::prompt::{hint_list, Prompt, PromptProps};
use crate::queue::ChallengeQueue;

verus! {

/// The subject whose challenges a session studies unless told otherwise.
pub const DEFAULT_SUBJECT_ID: i32 = 1;

/// How many challenges a session asks for at a time unless told otherwise.
pub const DEFAULT_BATCH_LIMIT: i32 = 5;

/// The events a study session reacts to: the learner's actions, and the
/// outcome of the requests it handed out.
pub enum Msg {
    /// A requested batch arrived.
    UpdateList(Vec<Challenge>),
    /// The learner's draft answer now reads as given.
    UpdateAnswer(String),
    /// The learner submits the draft.
    CheckAnswer,
    /// A submitted answer came back graded, with the service's verdict.
    ShowAnswerResponse(String),
    /// The learner asks to go on.
    NextChallenge,
    /// A request failed, with a message for the learner.
    FetchError(String),
}

/// What the session shows.
#[derive(PartialEq, Eq, Structural, Clone, Copy, Debug)]
pub enum StudyMode {
    /// Waiting for a batch; no challenge is on display.
    Loading,
    /// A challenge is on display and takes answers.
    Challenge,
    /// The verdict on the last answer is on display.
    Outcome,
    /// The message of a failed request is on display.
    Error,
}

/// A request to the study service that the session hands to whoever runs it.
/// Its outcome comes back as a `Msg`.
pub enum Command {
    /// Fetch up to `limit` challenges of `subject_id`.
    FetchBatch { subject_id: i32, limit: i32 },
    /// Submit `answer` to `challenge` for grading.
    SubmitAnswer { answer: String, challenge: Challenge },
}

/// A `Command`, as values.
pub enum CommandModel {
    FetchBatch { subject_id: i32, limit: i32 },
    SubmitAnswer { answer: Seq<char>, challenge: Challenge },
}

impl View for Command {
    type V = CommandModel;

    open spec fn view(&self) -> CommandModel {
        match self {
            Command::FetchBatch { subject_id, limit } => CommandModel::FetchBatch {
                subject_id: *subject_id,
                limit: *limit,
            },
            Command::SubmitAnswer { answer, challenge } => CommandModel::SubmitAnswer {
                answer: answer@,
                challenge: *challenge,
            },
        }
    }
}

/// The value of an optional command.
pub open spec fn command_model(c: Option<Command>) -> Option<CommandModel> {
    match c {
        Some(c) => Some(c@),
        None => None,
    }
}

/// The text of an optional string.
pub open spec fn text_of(s: Option<String>) -> Option<Seq<char>> {
    match s {
        Some(s) => Some(s@),
        None => None,
    }
}

/// What a `Study` holds, as values.
pub struct StudyModel {
    pub mode: StudyMode,
    /// The challenges of the batch not taken yet.
    pub queue: Seq<Challenge>,
    /// The challenge on display, if any.
    pub current: Option<Challenge>,
    /// The main text: the prompt of the current challenge, or the verdict.
    pub display: Seq<char>,
    /// The learner's draft answer.
    pub draft: Seq<char>,
    /// The message of the last failure; empty when there is none.
    pub error: Seq<char>,
    pub available_hints: Seq<Seq<char>>,
    pub revealed_hints: Seq<Seq<char>>,
    pub subject_id: i32,
    pub limit: i32,
}

/// The state of a fresh session: loading, nothing on display.
pub open spec fn initial_model(subject_id: i32, limit: i32) -> StudyModel {
    StudyModel {
        mode: StudyMode::Loading,
        queue: Seq::empty(),
        current: None,
        display: Seq::empty(),
        draft: Seq::empty(),
        error: Seq::empty(),
        available_hints: Seq::empty(),
        revealed_hints: Seq::empty(),
        subject_id,
        limit,
    }
}

/// `c` on display with a clean draft, no error and all its hints to come;
/// `rest` left in the queue.
pub open spec fn presenting(s: StudyModel, c: Challenge, rest: Seq<Challenge>) -> StudyModel {
    StudyModel {
        mode: StudyMode::Challenge,
        queue: rest,
        current: Some(c),
        display: c.prompt@,
        draft: Seq::empty(),
        error: Seq::empty(),
        available_hints: hint_list(c),
        revealed_hints: Seq::empty(),
        ..s
    }
}

/// Waiting for a batch: no challenge, no text and no hints on display; the
/// draft and the error are kept.
pub open spec fn loading(s: StudyModel) -> StudyModel {
    StudyModel {
        mode: StudyMode::Loading,
        current: None,
        display: Seq::empty(),
        available_hints: Seq::empty(),
        revealed_hints: Seq::empty(),
        ..s
    }
}

/// A batch arrived: it replaces the queue, and its head goes on display.
/// An empty batch leaves the session loading, with everything cleared.
pub open spec fn batch_arrived(s: StudyModel, batch: Seq<Challenge>) -> StudyModel {
    if batch.len() == 0 {
        StudyModel { queue: Seq::empty(), draft: Seq::empty(), error: Seq::empty(), ..loading(s) }
    } else {
        presenting(s, batch[0], batch.drop_first())
    }
}

/// The next state, and the request to hand out, when `msg` arrives in `s`.
pub open spec fn step(s: StudyModel, msg: Msg) -> (StudyModel, Option<CommandModel>) {
    match msg {
        Msg::UpdateList(batch) => (batch_arrived(s, batch@), None),
        Msg::UpdateAnswer(text) => (StudyModel { draft: text@, ..s }, None),
        Msg::CheckAnswer => match s.current {
            Some(c) => (
                StudyModel { error: Seq::empty(), ..s },
                Some(CommandModel::SubmitAnswer { answer: s.draft, challenge: c }),
            ),
            None => (s, None),
        },
        Msg::ShowAnswerResponse(verdict) => (
            StudyModel { mode: StudyMode::Outcome, display: verdict@, error: Seq::empty(), ..s },
            None,
        ),
        Msg::NextChallenge => if s.queue.len() == 0 {
            (
                loading(s),
                Some(CommandModel::FetchBatch { subject_id: s.subject_id, limit: s.limit }),
            )
        } else {
            (presenting(s, s.queue[0], s.queue.drop_first()), None)
        },
        Msg::FetchError(message) => (
            StudyModel { mode: StudyMode::Error, error: message@, ..s },
            None,
        ),
    }
}

/// The next state, and the hint shown, when the learner asks for a hint in
/// `s`: the last of the available hints moves to the revealed ones.
pub open spec fn hint_step(s: StudyModel) -> (StudyModel, Option<Seq<char>>) {
    if s.available_hints.len() == 0 {
        (s, None)
    } else {
        (
            StudyModel {
                available_hints: s.available_hints.drop_last(),
                revealed_hints: s.revealed_hints.push(s.available_hints.last()),
                ..s
            },
            Some(s.available_hints.last()),
        )
    }
}

/// The placeholder challenge has no hints.
pub proof fn lemma_placeholder_has_no_hints(c: Challenge)
    requires
        c.is_zero(),
    ensures
        hint_list(c) == Seq::<Seq<char>>::empty(),
{
    assert(hint_list(c) =~= Seq::<Seq<char>>::empty());
}

/// A study session: the queue of the current batch, the challenge on display,
/// the learner's draft, the verdict or error shown, and the hints of the
/// challenge on display.
pub struct Study {
    study_mode: StudyMode,
    queue: ChallengeQueue,
    challenge: Option<Challenge>,
    prompt: String,
    answer: String,
    err_msg: String,
    hints: Prompt,
    subject_id: i32,
    limit: i32,
}

impl View for Study {
    type V = StudyModel;

    closed spec fn view(&self) -> StudyModel {
        StudyModel {
            mode: self.study_mode,
            queue: self.queue@,
            current: self.challenge,
            display: self.prompt@,
            draft: self.answer@,
            error: self.err_msg@,
            available_hints: self.hints@.available,
            revealed_hints: self.hints@.revealed,
            subject_id: self.subject_id,
            limit: self.limit,
        }
    }
}

impl Study {
    /// A session that studies `subject_id`, `limit` challenges at a time.
    pub fn new(subject_id: i32, limit: i32) -> (r: Study)
        ensures
            r@ == initial_model(subject_id, limit),
    {
        let r = Study {
            study_mode: StudyMode::Loading,
            queue: ChallengeQueue::new(),
            challenge: None,
            prompt: String::new(),
            answer: String::new(),
            err_msg: String::new(),
            hints: Self::no_hints(),
            subject_id,
            limit,
        };
        r
    }

    /// A session with the default subject and batch size.
    pub fn create() -> (r: Study)
        ensures
            r@ == initial_model(DEFAULT_SUBJECT_ID, DEFAULT_BATCH_LIMIT),
    {
        Study::new(DEFAULT_SUBJECT_ID, DEFAULT_BATCH_LIMIT)
    }

    fn no_hints() -> (r: Prompt)
        ensures
            r@.available == Seq::<Seq<char>>::empty(),
            r@.revealed == Seq::<Seq<char>>::empty(),
    {
        let p = Prompt::create(PromptProps { challenge: Challenge::default() });
        proof {
            lemma_placeholder_has_no_hints(p@.challenge);
        }
        p
    }

    /// Puts `c` on display; the queue is left as it is.
    fn present(&mut self, c: Challenge)
        ensures
            final(self)@ == presenting(old(self)@, c, old(self)@.queue),
    {
        self.prompt = c.prompt.clone();
        self.hints = Prompt::create(PromptProps { challenge: c.clone() });
        self.challenge = Some(c);
        self.answer = String::new();
        self.err_msg = String::new();
        self.study_mode = StudyMode::Challenge;
    }

    /// Takes nothing off display but the challenge, its text and its hints.
    fn enter_loading(&mut self)
        ensures
            final(self)@ == loading(old(self)@),
    {
        self.study_mode = StudyMode::Loading;
        self.challenge = None;
        self.prompt = String::new();
        self.hints = Self::no_hints();
    }

    /// Applies `msg` and returns the request to hand out, if any.
    pub fn update(&mut self, msg: Msg) -> (r: Option<Command>)
        ensures
            (final(self)@, command_model(r)) == step(old(self)@, msg),
    {
        match msg {
            Msg::UpdateList(batch) => {
                self.queue.refill(batch);
                match self.queue.take_next() {
                    Some(c) => self.present(c),
                    None => {
                        self.enter_loading();
                        self.answer = String::new();
                        self.err_msg = String::new();
                        proof {
                            assert(self.queue@ =~= Seq::<Challenge>::empty());
                        }
                    },
                }
                None
            },
            Msg::UpdateAnswer(text) => {
                self.answer = text;
                None
            },
            Msg::CheckAnswer => match &self.challenge {
                Some(c) => {
                    let cmd = Command::SubmitAnswer { answer: self.answer.clone(), challenge: c.clone() };
                    self.err_msg = String::new();
                    Some(cmd)
                },
                None => None,
            },
            Msg::ShowAnswerResponse(verdict) => {
                self.prompt = verdict;
                self.err_msg = String::new();
                self.study_mode = StudyMode::Outcome;
                None
            },
            Msg::NextChallenge => match self.queue.take_next() {
                Some(c) => {
                    self.present(c);
                    None
                },
                None => {
                    self.enter_loading();
                    Some(Command::FetchBatch { subject_id: self.subject_id, limit: self.limit })
                },
            },
            Msg::FetchError(message) => {
                self.err_msg = message;
                self.study_mode = StudyMode::Error;
                None
            },
        }
    }

    /// The request to hand out after the view is drawn: the first drawing
    /// starts the session by fetching its first batch.
    pub fn rendered(&self, first_render: bool) -> (r: Option<Command>)
        ensures
            first_render ==> command_model(r) == Some(
                CommandModel::FetchBatch { subject_id: self@.subject_id, limit: self@.limit },
            ),
            !first_render ==> r is None,
    {
        if first_render {
            Some(Command::FetchBatch { subject_id: self.subject_id, limit: self.limit })
        } else {
            None
        }
    }

    /// Reveals the next hint of the challenge on display and returns it, or
    /// returns `None` and changes nothing when none is left.
    pub fn reveal_hint(&mut self) -> (r: Option<String>)
        ensures
            (final(self)@, text_of(r)) == hint_step(old(self)@),
    {
        self.hints.reveal_next()
    }

    /// What the session shows.
    pub fn study_mode(&self) -> (r: StudyMode)
        ensures
            r == self@.mode,
    {
        self.study_mode
    }

    /// The main text: the prompt of the challenge on display, or the verdict.
    pub fn prompt(&self) -> (r: &String)
        ensures
            r@ == self@.display,
    {
        &self.prompt
    }

    /// The learner's draft answer.
    pub fn answer(&self) -> (r: &String)
        ensures
            r@ == self@.draft,
    {
        &self.answer
    }

    /// The message of the last failure; empty when there is none.
    pub fn err_msg(&self) -> (r: &String)
        ensures
            r@ == self@.error,
    {
        &self.err_msg
    }

    /// The challenge on display, if any.
    pub fn challenge(&self) -> (r: Option<&Challenge>)
        ensures
            match self@.current {
                Some(c) => r == Some(&c),
                None => r is None,
            },
    {
        match &self.challenge {
            Some(c) => Some(c),
            None => None,
        }
    }

    /// How many challenges of the batch are still to come.
    pub fn remaining(&self) -> (r: usize)
        ensures
            r == self@.queue.len(),
    {
        self.queue.remaining()
    }

    /// Whether at least one more hint can be revealed.
    pub fn has_more_hints(&self) -> (r: bool)
        ensures
            r == (self@.available_hints.len() > 0),
    {
        self.hints.has_more_hints()
    }

    /// The hints already shown, in the order they were revealed.
    pub fn revealed_hints(&self) -> (r: &Vec<String>)
        ensures
            crate::prompt::texts(r@) == self@.revealed_hints,
    {
        self.hints.revealed_hints()
    }
}

} // verus!
