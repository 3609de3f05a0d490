use vstd::prelude::*;

use crate::challenge::Challenge;
use crate::prompt::{hint_list, hints_accounted_for};
use crate::study::{
    batch_arrived, hint_step, initial_model, loading, presenting, step, CommandModel, Msg,
    StudyMode, StudyModel,
};

verus! {

/// The state after the messages of `msgs` arrive in `s`, one after the other.
pub open spec fn run(s: StudyModel, msgs: Seq<Msg>) -> StudyModel
    decreases msgs.len(),
{
    if msgs.len() == 0 {
        s
    } else {
        run(step(s, msgs[0]).0, msgs.drop_first())
    }
}

/// The state after `k` requests to go on arrive in `s`.
pub open spec fn advanced(s: StudyModel, k: nat) -> StudyModel
    decreases k,
{
    if k == 0 {
        s
    } else {
        step(advanced(s, (k - 1) as nat), Msg::NextChallenge).0
    }
}

/// No message of `msgs` delivers a batch with a challenge in it.
pub open spec fn no_challenge_delivered(msgs: Seq<Msg>) -> bool {
    forall|i: int|
        0 <= i < msgs.len() ==> !(#[trigger] msgs[i] matches Msg::UpdateList(b) && b@.len() > 0)
}

/// Nothing is on display and nothing is queued: the session has not been
/// given a challenge yet.
pub open spec fn idle(s: StudyModel) -> bool {
    &&& s.mode != StudyMode::Challenge
    &&& s.current is None
    &&& s.queue.len() == 0
    &&& s.available_hints.len() == 0
    &&& s.revealed_hints.len() == 0
}

impl StudyModel {
    /// The hints on display account for every hint of the challenge on
    /// display; with no challenge there are none.
    pub open spec fn hints_accounted(&self) -> bool {
        let total = match self.current {
            Some(c) => hint_list(c),
            None => Seq::<Seq<char>>::empty(),
        };
        hints_accounted_for(total, self.available_hints, self.revealed_hints)
    }
}

proof fn lemma_advanced_presents(s: StudyModel, batch: Seq<Challenge>, k: nat)
    requires
        k < batch.len(),
    ensures
        advanced(batch_arrived(s, batch), k) == presenting(s, batch[k as int], batch.skip(k + 1int)),
    decreases k,
{
    if k == 0 {
        assert(batch.drop_first() =~= batch.skip(1));
    } else {
        lemma_advanced_presents(s, batch, (k - 1) as nat);
        let prev = batch.skip(k as int);
        assert(prev.len() > 0);
        assert(prev[0] == batch[k as int]);
        assert(prev.drop_first() =~= batch.skip(k + 1int));
    }
}

/// Once a batch of `n >= 1` challenges has arrived, with its first challenge
/// on display, each of the next `n - 1` requests to go on puts the next
/// challenge of the batch on display, in order, and hands out no request;
/// the `n`-th finds the queue empty, leaves the session loading and asks for
/// a new batch.
pub proof fn lemma_batch_is_used_up(s: StudyModel, batch: Vec<Challenge>, k: nat)
    requires
        k < batch@.len(),
    ensures
        ({
            let arrived = step(s, Msg::UpdateList(batch)).0;
            let (next, cmd) = step(advanced(arrived, k), Msg::NextChallenge);
            &&& advanced(arrived, k).mode == StudyMode::Challenge
            &&& advanced(arrived, k).current == Some(batch@[k as int])
            &&& k + 1 < batch@.len() ==> cmd is None && next.mode == StudyMode::Challenge
                && next.current == Some(batch@[k + 1int])
            &&& k + 1 == batch@.len() ==> next.mode == StudyMode::Loading && next.current is None
                && cmd == Some(CommandModel::FetchBatch { subject_id: s.subject_id, limit: s.limit })
        }),
{
    lemma_advanced_presents(s, batch@, k);
    if k + 1 < batch@.len() {
        lemma_advanced_presents(s, batch@, k + 1);
    }
}

/// Until a batch with a challenge in it arrives, whatever else happens, no
/// challenge is ever on display: a fresh session starts loading, and after
/// any messages that bring no challenge it still has none on display, none
/// queued and no hints.
pub proof fn lemma_nothing_shown_before_first_batch(subject_id: i32, limit: i32, msgs: Seq<Msg>)
    requires
        no_challenge_delivered(msgs),
    ensures
        initial_model(subject_id, limit).mode == StudyMode::Loading,
        idle(run(initial_model(subject_id, limit), msgs)),
{
    lemma_idle_kept(initial_model(subject_id, limit), msgs);
}

proof fn lemma_idle_kept(s: StudyModel, msgs: Seq<Msg>)
    requires
        idle(s),
        no_challenge_delivered(msgs),
    ensures
        idle(run(s, msgs)),
    decreases msgs.len(),
{
    if msgs.len() > 0 {
        assert(!(msgs[0] matches Msg::UpdateList(b) && b@.len() > 0));
        let rest = msgs.drop_first();
        assert forall|i: int| 0 <= i < rest.len() implies !(#[trigger] rest[i] matches Msg::UpdateList(
            b,
        ) && b@.len() > 0) by {
            assert(rest[i] == msgs[i + 1]);
        }
        lemma_idle_kept(step(s, msgs[0]).0, rest);
    }
}

/// Editing the draft changes the draft alone, and giving the same text
/// again changes nothing.
pub proof fn lemma_draft_edit_idempotent(s: StudyModel, text: String)
    ensures
        step(s, Msg::UpdateAnswer(text)) == (StudyModel { draft: text@, ..s }, None::<CommandModel>),
        step(step(s, Msg::UpdateAnswer(text)).0, Msg::UpdateAnswer(text)) == step(
            s,
            Msg::UpdateAnswer(text),
        ),
{
}

/// Every message, and every request for a hint, keeps the hints on display
/// accounted for; with no hint left, a request for one changes nothing and
/// shows nothing.
pub proof fn lemma_hints_stay_accounted(s: StudyModel, msg: Msg)
    requires
        s.hints_accounted(),
    ensures
        step(s, msg).0.hints_accounted(),
        hint_step(s).0.hints_accounted(),
        s.available_hints.len() == 0 ==> hint_step(s) == (s, None::<Seq<char>>),
{
    let h = hint_step(s).0;
    if s.available_hints.len() > 0 {
        let total = match s.current {
            Some(c) => hint_list(c),
            None => Seq::<Seq<char>>::empty(),
        };
        assert forall|i: int| 0 <= i < h.revealed_hints.len() implies h.revealed_hints[i]
            == total[total.len() - 1 - i] by {
            if i == s.revealed_hints.len() {
                assert(h.revealed_hints[i] == s.available_hints[s.available_hints.len() - 1]);
            }
        }
    }
    match msg {
        Msg::UpdateList(b) => {
            if b@.len() > 0 {
                assert(hints_accounted_for(hint_list(b@[0]), hint_list(b@[0]), Seq::empty()));
            }
        },
        Msg::NextChallenge => {
            if s.queue.len() > 0 {
                assert(hints_accounted_for(hint_list(s.queue[0]), hint_list(s.queue[0]), Seq::empty()));
            }
        },
        _ => {},
    }
}

/// A fresh session has its hints accounted for.
pub proof fn lemma_fresh_hints_accounted(subject_id: i32, limit: i32)
    ensures
        initial_model(subject_id, limit).hints_accounted(),
{
}

/// When two batches are in flight and the one asked for first arrives last,
/// it wins: the state is as if the other had never arrived.
pub proof fn lemma_last_batch_wins(s: StudyModel, earlier: Vec<Challenge>, later: Vec<Challenge>)
    ensures
        step(step(s, Msg::UpdateList(earlier)).0, Msg::UpdateList(later)).0 == step(
            s,
            Msg::UpdateList(later),
        ).0,
        later@.len() > 0 ==> step(step(s, Msg::UpdateList(earlier)).0, Msg::UpdateList(later)).0.queue
            == later@.drop_first(),
{
}

} // verus!
