//! Scripts of register accesses and the sequencer that hands them out.
//!
//! A script is a fixed list of accesses to one peripheral. The sequencer
//! holds the script and the replies that have settled its accesses so far.
//! It hands out one access at a time, the first that is not settled, and
//! moves on only when the caller reports a reply that settles it. A wait
//! for the hardware is an access like any other: a read of a status bit
//! that only the awaited value settles.

use vstd::prelude::*;

verus! {

/// What a reply means for the access it answers.
#[derive(Clone, Copy, PartialEq, Eq, Debug, Structural)]
pub enum Verdict {
    /// The access is settled: the script moves on to the next one.
    Proceed,
    /// The hardware is not there yet: the same access is made again.
    Repeat,
    /// The script cannot be completed.
    Abort,
}

/// One access to a peripheral, as a script holds it.
pub trait Access: Copy {
    /// What the peripheral answers to an access.
    type Reply: Copy;

    /// The meaning of `reply` as an answer to this access.
    spec fn verdict(self, reply: Self::Reply) -> Verdict;

    /// Computes `verdict`.
    fn judge(self, reply: Self::Reply) -> (v: Verdict)
        ensures
            v == self.verdict(reply),
    ;
}

/// What the caller of a driver has to do next.
#[derive(PartialEq, Eq, Debug)]
pub enum Poll<A, T> {
    /// Make this access and report what the hardware answered.
    Perform(A),
    /// Nothing is left to do: this is the outcome.
    Ready(T),
}

/// The state of a script while it runs.
pub struct Run<A: Access> {
    /// The accesses to make, in order.
    pub script: Seq<A>,
    /// The replies that settled the first accesses of the script, one each.
    pub answers: Seq<A::Reply>,
    /// Whether a reply has aborted the script.
    pub aborted: bool,
}

impl<A: Access> Run<A> {
    /// A script that has not begun.
    pub open spec fn start(script: Seq<A>) -> Self {
        Run { script, answers: Seq::empty(), aborted: false }
    }

    /// The number of accesses that are settled.
    pub open spec fn cursor(self) -> nat {
        self.answers.len()
    }

    /// No access is settled that does not stand in the script, and each
    /// settled access holds the reply that settled it. An access is thus
    /// pending only when all before it are settled.
    pub open spec fn wf(self) -> bool {
        &&& self.answers.len() <= self.script.len()
        &&& forall|i: int|
            0 <= i < self.answers.len() ==> (#[trigger] self.script[i]).verdict(self.answers[i])
                == Verdict::Proceed
    }

    /// Every access is settled.
    pub open spec fn finished(self) -> bool {
        !self.aborted && self.answers.len() == self.script.len()
    }

    /// The access to make now, if the script is neither finished nor aborted.
    pub open spec fn pending(self) -> Option<A> {
        if !self.aborted && self.answers.len() < self.script.len() {
            Some(self.script[self.answers.len() as int])
        } else {
            None
        }
    }

    /// The state once the pending access has been answered with `reply`.
    pub open spec fn after(self, reply: A::Reply) -> Self {
        match self.pending() {
            None => self,
            Some(access) => match access.verdict(reply) {
                Verdict::Proceed => Run { answers: self.answers.push(reply), ..self },
                Verdict::Repeat => self,
                Verdict::Abort => Run { aborted: true, ..self },
            },
        }
    }

    /// The state once each of `replies` has answered, in turn, the access
    /// that was pending when it came.
    pub open spec fn after_all(self, replies: Seq<A::Reply>) -> Self
        decreases replies.len(),
    {
        if replies.len() == 0 {
            self
        } else {
            self.after_all(replies.drop_last()).after(replies.last())
        }
    }

    /// The accesses that were made to obtain `replies`: for each reply the
    /// access that was pending when it came. A reply that finds nothing
    /// pending answers no access.
    pub open spec fn performed(self, replies: Seq<A::Reply>) -> Seq<A>
        decreases replies.len(),
    {
        if replies.len() == 0 {
            Seq::empty()
        } else {
            let earlier = self.performed(replies.drop_last());
            match self.after_all(replies.drop_last()).pending() {
                Some(access) => earlier.push(access),
                None => earlier,
            }
        }
    }
}

/// Holds of a kind of access that every reply settles: the writes of a
/// script, as opposed to its waits.
pub open spec fn settles_at_once<A: Access>(kind: spec_fn(A) -> bool) -> bool {
    forall|access: A, reply: A::Reply| #[trigger]
        kind(access) ==> #[trigger] access.verdict(reply) == Verdict::Proceed
}

/// One reply keeps the script, keeps the answers so far and keeps the state
/// well formed.
pub proof fn lemma_after_keeps_wf<A: Access>(run: Run<A>, reply: A::Reply)
    requires
        run.wf(),
    ensures
        run.after(reply).wf(),
        run.after(reply).script == run.script,
        run.answers.is_prefix_of(run.after(reply).answers),
        run.after(reply).cursor() <= run.cursor() + 1,
        run.aborted ==> run.after(reply) == run,
{
}

/// Replies never change the script, never take back an answer and never
/// settle an access that the script does not hold.
pub proof fn lemma_after_all_keeps_wf<A: Access>(run: Run<A>, replies: Seq<A::Reply>)
    requires
        run.wf(),
    ensures
        run.after_all(replies).wf(),
        run.after_all(replies).script == run.script,
        run.answers.is_prefix_of(run.after_all(replies).answers),
        run.after_all(replies).cursor() <= run.cursor() + replies.len(),
        run.aborted ==> run.after_all(replies) == run,
    decreases replies.len(),
{
    if replies.len() > 0 {
        lemma_after_all_keeps_wf(run, replies.drop_last());
    }
}

/// Replies may be taken in two parts: what the second part does, it does to
/// the state that the first part left.
pub proof fn lemma_replies_in_parts<A: Access>(
    run: Run<A>,
    first: Seq<A::Reply>,
    rest: Seq<A::Reply>,
)
    ensures
        run.after_all(first + rest) == run.after_all(first).after_all(rest),
        run.performed(first + rest) == run.performed(first) + run.after_all(first).performed(
            rest,
        ),
    decreases rest.len(),
{
    if rest.len() > 0 {
        lemma_replies_in_parts(run, first, rest.drop_last());
        assert((first + rest).drop_last() == first + rest.drop_last());
        let middle = run.after_all(first);
        let earlier = middle.performed(rest.drop_last());
        match middle.after_all(rest.drop_last()).pending() {
            Some(access) => {
                assert(run.performed(first) + earlier.push(access) == (run.performed(first)
                    + earlier).push(access));
            },
            None => {},
        }
    }
}

/// Of the accesses that every reply settles, the hardware sees exactly
/// those that the script holds between the cursor before and the cursor
/// after, each once and in the script's order, however often it was polled
/// in between.
pub proof fn lemma_writes_once_in_order<A: Access>(
    run: Run<A>,
    replies: Seq<A::Reply>,
    kind: spec_fn(A) -> bool,
)
    requires
        run.wf(),
        settles_at_once::<A>(kind),
    ensures
        run.cursor() <= run.after_all(replies).cursor() <= run.script.len(),
        run.performed(replies).filter(kind) == run.script.subrange(
            run.cursor() as int,
            run.after_all(replies).cursor() as int,
        ).filter(kind),
    decreases replies.len(),
{
    if replies.len() > 0 {
        let earlier = replies.drop_last();
        let before = run.after_all(earlier);
        lemma_after_all_keeps_wf(run, earlier);
        lemma_writes_once_in_order(run, earlier, kind);
        let done = run.script.subrange(run.cursor() as int, before.cursor() as int);
        match before.pending() {
            None => {},
            Some(access) => {
                run.performed(earlier).lemma_filter_push(access, kind);
                done.lemma_filter_push(access, kind);
                if before.after(replies.last()).cursor() != before.cursor() {
                    assert(run.script.subrange(run.cursor() as int, before.cursor() as int + 1)
                        == done.push(access));
                }
            },
        }
    }
}

/// A run never gives up a wait. Replies that do not settle the pending
/// access leave the state as it was, however many they are, and each of
/// them makes the caller repeat that access.
pub proof fn lemma_unsettled_access_stays<A: Access>(run: Run<A>, replies: Seq<A::Reply>)
    requires
        run.pending() is Some,
        forall|i: int|
            0 <= i < replies.len() ==> run.pending().unwrap().verdict(#[trigger] replies[i])
                == Verdict::Repeat,
    ensures
        run.after_all(replies) == run,
        run.performed(replies) == Seq::new(replies.len(), |i: int| run.pending().unwrap()),
    decreases replies.len(),
{
    if replies.len() > 0 {
        lemma_unsettled_access_stays(run, replies.drop_last());
    }
}

/// Where each reply settles the access of the script that it meets, the
/// script is finished when the replies are used up, and they are its
/// answers.
pub proof fn lemma_finishes_when_settled<A: Access>(script: Seq<A>, replies: Seq<A::Reply>)
    requires
        replies.len() <= script.len(),
        forall|i: int|
            0 <= i < replies.len() ==> (#[trigger] script[i]).verdict(replies[i])
                == Verdict::Proceed,
    ensures
        Run::start(script).after_all(replies) == (Run {
            script,
            answers: replies,
            aborted: false,
        }),
        replies.len() == script.len() ==> Run::start(script).after_all(replies).finished(),
    decreases replies.len(),
{
    if replies.len() > 0 {
        lemma_finishes_when_settled(script, replies.drop_last());
        assert(replies.drop_last().push(replies.last()) == replies);
    } else {
        assert(replies == Seq::<A::Reply>::empty());
    }
}

/// A script, the replies that settled its first accesses, and whether it
/// was aborted.
pub struct Sequencer<A: Access> {
    script: Vec<A>,
    answers: Vec<A::Reply>,
    aborted: bool,
}

impl<A: Access> View for Sequencer<A> {
    type V = Run<A>;

    closed spec fn view(&self) -> Run<A> {
        Run { script: self.script@, answers: self.answers@, aborted: self.aborted }
    }
}

impl<A: Access> Sequencer<A> {
    #[verifier::type_invariant]
    spec fn inv(self) -> bool {
        self@.wf()
    }

    /// A sequencer at the start of `script`.
    pub fn new(script: Vec<A>) -> (sequencer: Self)
        ensures
            sequencer@ == Run::start(script@),
    {
        Sequencer { script, answers: Vec::new(), aborted: false }
    }

    /// The access to make now; `None` once the script is finished or aborted.
    pub fn pending(&self) -> (access: Option<A>)
        ensures
            self@.wf(),
            access == self@.pending(),
    {
        proof {
            use_type_invariant(self);
        }
        if !self.aborted && self.answers.len() < self.script.len() {
            Some(self.script[self.answers.len()])
        } else {
            None
        }
    }

    /// Takes the hardware's answer to the pending access and gives the
    /// sequencer as it stands after it. Where nothing is pending the reply
    /// is dropped.
    pub fn report(self, reply: A::Reply) -> (next: Self)
        ensures
            next@ == self@.after(reply),
            next@.wf(),
    {
        proof {
            use_type_invariant(&self);
        }
        let Sequencer { script, mut answers, mut aborted } = self;
        if !aborted && answers.len() < script.len() {
            match script[answers.len()].judge(reply) {
                Verdict::Proceed => {
                    answers.push(reply);
                },
                Verdict::Repeat => {},
                Verdict::Abort => {
                    aborted = true;
                },
            }
        }
        Sequencer { script, answers, aborted }
    }

    /// The number of accesses that are settled.
    pub fn cursor(&self) -> (cursor: usize)
        ensures
            self@.wf(),
            cursor == self@.cursor(),
    {
        proof {
            use_type_invariant(self);
        }
        self.answers.len()
    }

    /// Whether every access of the script is settled.
    pub fn is_finished(&self) -> (finished: bool)
        ensures
            self@.wf(),
            finished == self@.finished(),
    {
        proof {
            use_type_invariant(self);
        }
        !self.aborted && self.answers.len() == self.script.len()
    }

    /// Whether a reply has aborted the script.
    pub fn is_aborted(&self) -> (aborted: bool)
        ensures
            self@.wf(),
            aborted == self@.aborted,
    {
        proof {
            use_type_invariant(self);
        }
        self.aborted
    }

    /// The reply that settled the access at `position`, if it is settled.
    pub fn answer(&self, position: usize) -> (reply: Option<A::Reply>)
        ensures
            self@.wf(),
            reply == if position < self@.cursor() {
                Some(self@.answers[position as int])
            } else {
                None
            },
    {
        proof {
            use_type_invariant(self);
        }
        if position < self.answers.len() {
            Some(self.answers[position])
        } else {
            None
        }
    }
}

} // verus!
