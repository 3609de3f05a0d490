use vstd::prelude::*;

verus! {

/// One vocabulary item presented to the learner.
///
/// Challenges are built from what the study service returns and are not
/// changed afterwards. `Challenge::default()` is the all-empty placeholder
/// that stands in before the first batch arrives; it is never presented.
#[derive(Debug)]
pub struct Challenge {
    pub vocab_id: i32,
    pub vocab_study_id: i32,
    pub prompt: String,
    pub first_lang: String,
    pub pos: String,
    pub infinitive: String,
    pub hint: String,
    pub user_notes: String,
    pub num_learning_words: i32,
}

impl Challenge {
    /// All text empty and all numbers zero.
    pub open spec fn is_zero(&self) -> bool {
        &&& self.vocab_id == 0
        &&& self.vocab_study_id == 0
        &&& self.prompt@.len() == 0
        &&& self.first_lang@.len() == 0
        &&& self.pos@.len() == 0
        &&& self.infinitive@.len() == 0
        &&& self.hint@.len() == 0
        &&& self.user_notes@.len() == 0
        &&& self.num_learning_words == 0
    }

    /// Every field holds the same value: numbers equal, texts equal.
    pub open spec fn same_as(&self, o: &Challenge) -> bool {
        &&& self.vocab_id == o.vocab_id
        &&& self.vocab_study_id == o.vocab_study_id
        &&& self.prompt@ == o.prompt@
        &&& self.first_lang@ == o.first_lang@
        &&& self.pos@ == o.pos@
        &&& self.infinitive@ == o.infinitive@
        &&& self.hint@ == o.hint@
        &&& self.user_notes@ == o.user_notes@
        &&& self.num_learning_words == o.num_learning_words
    }

    /// Whether this is the all-empty placeholder.
    pub fn is_placeholder(&self) -> (r: bool)
        ensures
            r == self.is_zero(),
    {
        self.vocab_id == 0 && self.vocab_study_id == 0 && self.prompt.as_str().is_empty()
            && self.first_lang.as_str().is_empty() && self.pos.as_str().is_empty()
            && self.infinitive.as_str().is_empty() && self.hint.as_str().is_empty()
            && self.user_notes.as_str().is_empty() && self.num_learning_words == 0
    }
}

impl Clone for Challenge {
    fn clone(&self) -> (r: Self)
        ensures
            r == *self,
    {
        Challenge {
            vocab_id: self.vocab_id,
            vocab_study_id: self.vocab_study_id,
            prompt: self.prompt.clone(),
            first_lang: self.first_lang.clone(),
            pos: self.pos.clone(),
            infinitive: self.infinitive.clone(),
            hint: self.hint.clone(),
            user_notes: self.user_notes.clone(),
            num_learning_words: self.num_learning_words,
        }
    }
}

impl Default for Challenge {
    fn default() -> (r: Self)
        ensures
            r.is_zero(),
    {
        Challenge {
            vocab_id: 0,
            vocab_study_id: 0,
            prompt: String::new(),
            first_lang: String::new(),
            pos: String::new(),
            infinitive: String::new(),
            hint: String::new(),
            user_notes: String::new(),
            num_learning_words: 0,
        }
    }
}

impl PartialEq for Challenge {
    fn eq(&self, o: &Challenge) -> (r: bool) {
        self.vocab_id == o.vocab_id && self.vocab_study_id == o.vocab_study_id
            && self.prompt == o.prompt && self.first_lang == o.first_lang && self.pos == o.pos
            && self.infinitive == o.infinitive && self.hint == o.hint
            && self.user_notes == o.user_notes
            && self.num_learning_words == o.num_learning_words
    }
}

impl vstd::std_specs::cmp::PartialEqSpecImpl for Challenge {
    open spec fn obeys_eq_spec() -> bool {
        true
    }

    open spec fn eq_spec(&self, o: &Challenge) -> bool {
        self.same_as(o)
    }
}

/// The body of a batch response: `{"data": {"getStudyList": [...]}}`.
pub struct ResponseWrapper {
    pub data: Data,
}

/// The `data` member of a batch response.
pub struct Data {
    pub get_study_list: Vec<Challenge>,
}

impl ResponseWrapper {
    /// The challenges of the batch, in the order the service sent them.
    pub fn into_challenges(self) -> (r: Vec<Challenge>)
        ensures
            r@ == self.data.get_study_list@,
    {
        self.data.get_study_list
    }
}

/// The body of a grading response: `{"data": {"checkResponse": "..."}}`.
pub struct CheckAnswerResponseWrapper {
    pub data: Check,
}

/// The `data` member of a grading response.
pub struct Check {
    pub response_prompt: String,
}

impl CheckAnswerResponseWrapper {
    /// The verdict text, exactly as the service wrote it.
    pub fn into_verdict(self) -> (r: String)
        ensures
            r == self.data.response_prompt,
    {
        self.data.response_prompt
    }
}

} // verus!
