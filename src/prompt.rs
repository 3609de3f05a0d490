use vstd::prelude::*;
use vstd::string::StringExecFns;

use crate::challenge::Challenge;

verus! {

/// Label of the part-of-speech hint.
pub const POS_LABEL: &'static str = "    Part of Speech: ";

/// Label of the infinitive hint.
pub const INFINITIVE_LABEL: &'static str = "    Infinitive: ";

/// Label of the free-text hint.
pub const OTHER_HINT_LABEL: &'static str = "    Other Hints: ";

/// Label of the learner's own notes.
pub const NOTES_LABEL: &'static str = "    Your Notes: ";

/// `label` followed by `value` when `value` is not empty; nothing otherwise.
pub open spec fn labelled(label: Seq<char>, value: Seq<char>) -> Seq<Seq<char>> {
    if value.len() == 0 {
        Seq::empty()
    } else {
        seq![label + value]
    }
}

/// The hints of a challenge in precedence order: part of speech, infinitive,
/// other hints, the learner's notes; an empty field gives no hint.
pub open spec fn hint_list(c: Challenge) -> Seq<Seq<char>> {
    labelled(POS_LABEL@, c.pos@) + labelled(INFINITIVE_LABEL@, c.infinitive@) + labelled(
        OTHER_HINT_LABEL@,
        c.hint@,
    ) + labelled(NOTES_LABEL@, c.user_notes@)
}

/// The texts of a list of strings.
pub open spec fn texts(v: Seq<String>) -> Seq<Seq<char>> {
    v.map_values(|s: String| s@)
}

/// What the hint panel is given: the challenge on display.
pub struct PromptProps {
    pub challenge: Challenge,
}

/// Events of the hint panel.
pub enum Msg {
    /// The learner asked for one more hint.
    Help,
}

/// The hints of the challenge on display: those still to come and those
/// already shown.
pub struct Prompt {
    props: PromptProps,
    available_hints: Vec<String>,
    display_hints: Vec<String>,
}

/// What a `Prompt` holds, as values.
pub struct PromptModel {
    pub challenge: Challenge,
    pub available: Seq<Seq<char>>,
    pub revealed: Seq<Seq<char>>,
}

impl View for Prompt {
    type V = PromptModel;

    closed spec fn view(&self) -> PromptModel {
        PromptModel {
            challenge: self.props.challenge,
            available: texts(self.available_hints@),
            revealed: texts(self.display_hints@),
        }
    }
}

/// Every hint of `total` is either still available or revealed: the
/// available ones are a prefix of `total`, and the revealed ones are the rest,
/// taken from the back.
pub open spec fn hints_accounted_for(
    total: Seq<Seq<char>>,
    available: Seq<Seq<char>>,
    revealed: Seq<Seq<char>>,
) -> bool {
    &&& available.len() + revealed.len() == total.len()
    &&& forall|i: int| 0 <= i < available.len() ==> available[i] == total[i]
    &&& forall|i: int| 0 <= i < revealed.len() ==> revealed[i] == total[total.len() - 1 - i]
}

impl PromptModel {
    /// The hints of the panel account for every hint of its challenge.
    pub open spec fn hints_accounted(&self) -> bool {
        hints_accounted_for(hint_list(self.challenge), self.available, self.revealed)
    }
}

impl Prompt {
    /// The hints of `props.challenge`, in precedence order.
    pub fn determine_hints(&mut self, props: PromptProps) -> (r: Vec<String>)
        ensures
            texts(r@) == hint_list(props.challenge),
            final(self)@ == old(self)@,
    {
        let mut hints: Vec<String> = Vec::new();
        let challenge = props.challenge;
        if !challenge.pos.as_str().is_empty() {
            hints.push(POS_LABEL.to_owned().concat(challenge.pos.as_str()));
        }
        if !challenge.infinitive.as_str().is_empty() {
            hints.push(INFINITIVE_LABEL.to_owned().concat(challenge.infinitive.as_str()));
        }
        if !challenge.hint.as_str().is_empty() {
            hints.push(OTHER_HINT_LABEL.to_owned().concat(challenge.hint.as_str()));
        }
        if !challenge.user_notes.as_str().is_empty() {
            hints.push(NOTES_LABEL.to_owned().concat(challenge.user_notes.as_str()));
        }
        proof {
            assert(texts(hints@) =~= hint_list(challenge));
        }
        hints
    }

    /// A panel for `props.challenge` with every hint still to come.
    pub fn create(props: PromptProps) -> (r: Prompt)
        ensures
            r@.challenge == props.challenge,
            r@.available == hint_list(props.challenge),
            r@.revealed == Seq::<Seq<char>>::empty(),
    {
        let mut p = Prompt {
            props: PromptProps { challenge: Challenge::default() },
            available_hints: Vec::new(),
            display_hints: Vec::new(),
        };
        let hints = p.determine_hints(PromptProps { challenge: props.challenge.clone() });
        p.props = props;
        p.available_hints = hints;
        proof {
            assert(texts(p.display_hints@) =~= Seq::<Seq<char>>::empty());
        }
        p
    }

    /// Moves the next hint from the available ones to the revealed ones and
    /// returns it. Hints come out from the back of the precedence order: the
    /// learner's notes first, the part of speech last. With none left, nothing
    /// changes and `None` comes back.
    pub fn reveal_next(&mut self) -> (r: Option<String>)
        ensures
            old(self)@.available.len() == 0 ==> r is None && final(self)@ == old(self)@,
            old(self)@.available.len() > 0 ==> {
                &&& r is Some
                &&& r->0@ == old(self)@.available.last()
                &&& final(self)@.challenge == old(self)@.challenge
                &&& final(self)@.available == old(self)@.available.drop_last()
                &&& final(self)@.revealed == old(self)@.revealed.push(r->0@)
            },
            old(self)@.hints_accounted() ==> final(self)@.hints_accounted(),
    {
        match self.available_hints.pop() {
            Some(hint) => {
                let shown = hint.clone();
                self.display_hints.push(hint);
                proof {
                    assert(texts(self.available_hints@) =~= old(self)@.available.drop_last());
                    assert(texts(self.display_hints@) =~= old(self)@.revealed.push(shown@));
                }
                Some(shown)
            },
            None => None,
        }
    }

    /// Handles an event; the panel always shows the result.
    pub fn update(&mut self, msg: Msg) -> (r: bool)
        ensures
            r,
            old(self)@.available.len() == 0 ==> final(self)@ == old(self)@,
            old(self)@.available.len() > 0 ==> {
                &&& final(self)@.challenge == old(self)@.challenge
                &&& final(self)@.available == old(self)@.available.drop_last()
                &&& final(self)@.revealed == old(self)@.revealed.push(
                    old(self)@.available.last(),
                )
            },
            old(self)@.hints_accounted() ==> final(self)@.hints_accounted(),
    {
        match msg {
            Msg::Help => {
                let _ = self.reveal_next();
                true
            },
        }
    }

    /// Takes new props. When the challenge differs from the one on display,
    /// the panel starts over for the new one and `true` comes back; otherwise
    /// nothing changes and `false` comes back.
    pub fn changed(&mut self, props: PromptProps) -> (r: bool)
        ensures
            r == !old(self)@.challenge.same_as(&props.challenge),
            r ==> final(self)@.challenge == props.challenge && final(self)@.available == hint_list(
                props.challenge,
            ) && final(self)@.revealed == Seq::<Seq<char>>::empty(),
            !r ==> final(self)@ == old(self)@,
    {
        if self.props.challenge == props.challenge {
            false
        } else {
            *self = Prompt::create(props);
            true
        }
    }

    /// Whether at least one more hint can be revealed.
    pub fn has_more_hints(&self) -> (r: bool)
        ensures
            r == (self@.available.len() > 0),
    {
        self.available_hints.len() > 0
    }

    /// The hints already shown, in the order they were revealed.
    pub fn revealed_hints(&self) -> (r: &Vec<String>)
        ensures
            texts(r@) == self@.revealed,
    {
        &self.display_hints
    }

    /// The hints still to come, in precedence order.
    pub fn available_hints(&self) -> (r: &Vec<String>)
        ensures
            texts(r@) == self@.available,
    {
        &self.available_hints
    }

    /// The challenge on display.
    pub fn challenge(&self) -> (r: &Challenge)
        ensures
            *r == self@.challenge,
    {
        &self.props.challenge
    }
}

} // verus!
