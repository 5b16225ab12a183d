//! The thread that watches over one submission.
//!
//! It looks in turn whether the submission has returned. Where that takes too
//! long it reports a hang, feeds one byte to the terminal so that the blocked
//! read can end, and ends the program.
use vstd::prelude::*;
use crate::machine::Machine;
use crate::ring::completions;

verus! {

/// How long the watchdog sleeps before it looks.
pub const POLL_MILLIS: u64 = 100;

/// How often it looks before it calls the submission hung.
pub const HANG_POLLS: u32 = 30;

/// How often it looks after it has fed a byte.
pub const RELEASE_POLLS: u32 = 20;

/// The byte that is fed.
pub const FED_BYTE: u8 = 0x78;

/// Exit code of a hang that a byte of input ended.
pub const EXIT_TRIGGERED: i32 = 0;

/// Exit code of a hang that goes on.
pub const EXIT_STILL_BLOCKED: i32 = 2;

/// What is to be done.
#[derive(Clone, Copy, Debug, PartialEq, Eq, Structural)]
pub enum WatchdogAction {
    /// Sleep, then answer whether the submission has returned.
    Poll { millis: u64 },
    /// End the thread.
    Stop,
    /// Let the submitting thread know that it was hung.
    RaiseHung,
    /// Load the head and the tail of the completion ring.
    CountCompletions,
    /// Print that the submission hangs.
    ShowHang,
    /// Print how many completions wait.
    ShowSilence { completions: u32 },
    /// Print where the submitting thread hangs.
    ShowSubmitter,
    /// Print where the competing reader sleeps.
    ShowConsumer,
    /// Print the kernel stack of the submitting thread.
    ShowSubmitterStack,
    /// Print the kernel stack of the competing reader.
    ShowConsumerStack,
    /// Write one byte to the slave side; answered by the result.
    FeedByte { byte: u8 },
    /// Print the result of writing.
    ShowFed { written: i64 },
    /// Sleep, then answer whether the submission has returned at last.
    PollAgain { millis: u64 },
    /// Print that the submission has returned.
    ShowReturned,
    /// Print that the hang was reproduced.
    ShowTriggered,
    /// Print that the submission still hangs.
    ShowStillBlocked,
    /// End the program with an exit code.
    Exit { code: i32 },
}

/// What came of an action.
#[derive(Clone, Copy, Debug, PartialEq, Eq, Structural)]
pub enum WatchdogReply {
    /// It is done.
    Ack,
    /// Whether the submission has returned.
    Done(bool),
    /// The head and the tail of the completion ring.
    Positions { head: u32, tail: u32 },
    /// The result of writing.
    Written(i64),
}

/// The state of the watchdog.
#[derive(Clone, Copy, Debug, PartialEq, Eq, Structural)]
pub struct Watchdog {
    /// How often it still looks, the present time counted.
    pub polls: u32,
    /// How many completions waited when the hang was noticed.
    pub completions: u32,
    /// The action that is to be done now.
    pub doing: WatchdogAction,
}

impl Watchdog {
    /// The state that the watchdog begins in.
    pub open spec fn start() -> Watchdog {
        Watchdog {
            polls: HANG_POLLS,
            completions: 0,
            doing: WatchdogAction::Poll { millis: POLL_MILLIS },
        }
    }

    /// The same state with another action.
    pub open spec fn then_do(self, doing: WatchdogAction) -> Option<Watchdog> {
        Some(Watchdog { doing, ..self })
    }

    /// The state behind some answers, given in order.
    pub open spec fn run(self, replies: Seq<WatchdogReply>) -> Option<Watchdog> {
        crate::machine::run(self, replies)
    }

    /// Begins to watch.
    pub fn new() -> (r: Watchdog)
        ensures
            r == Watchdog::start(),
    {
        Watchdog {
            polls: HANG_POLLS,
            completions: 0,
            doing: WatchdogAction::Poll { millis: POLL_MILLIS },
        }
    }

    /// Takes the answer to the present action and gives the next one. An answer
    /// that does not belong to the action changes nothing.
    pub fn step(&mut self, reply: WatchdogReply) -> (r: Option<WatchdogAction>)
        ensures
            match old(self).next(reply) {
                Some(w) => *final(self) == w && r == Some(w.doing),
                None => *final(self) == *old(self) && r is None,
            },
    {
        let doing = match (self.doing, reply) {
            (WatchdogAction::Poll { millis }, WatchdogReply::Done(done)) => {
                if done {
                    WatchdogAction::Stop
                } else if self.polls > 1 {
                    self.polls = self.polls - 1;
                    WatchdogAction::Poll { millis }
                } else {
                    WatchdogAction::RaiseHung
                }
            },
            (WatchdogAction::RaiseHung, WatchdogReply::Ack) => WatchdogAction::CountCompletions,
            (WatchdogAction::CountCompletions, WatchdogReply::Positions { head, tail }) => {
                self.completions = completions(head, tail);
                WatchdogAction::ShowHang
            },
            (WatchdogAction::ShowHang, WatchdogReply::Ack) => WatchdogAction::ShowSilence {
                completions: self.completions,
            },
            (WatchdogAction::ShowSilence { .. }, WatchdogReply::Ack) => {
                WatchdogAction::ShowSubmitter
            },
            (WatchdogAction::ShowSubmitter, WatchdogReply::Ack) => WatchdogAction::ShowConsumer,
            (WatchdogAction::ShowConsumer, WatchdogReply::Ack) => {
                WatchdogAction::ShowSubmitterStack
            },
            (WatchdogAction::ShowSubmitterStack, WatchdogReply::Ack) => {
                WatchdogAction::ShowConsumerStack
            },
            (WatchdogAction::ShowConsumerStack, WatchdogReply::Ack) => WatchdogAction::FeedByte {
                byte: FED_BYTE,
            },
            (WatchdogAction::FeedByte { .. }, WatchdogReply::Written(written)) => {
                WatchdogAction::ShowFed { written }
            },
            (WatchdogAction::ShowFed { .. }, WatchdogReply::Ack) => {
                self.polls = RELEASE_POLLS;
                WatchdogAction::PollAgain { millis: POLL_MILLIS }
            },
            (WatchdogAction::PollAgain { millis }, WatchdogReply::Done(done)) => {
                if done {
                    WatchdogAction::ShowReturned
                } else if self.polls > 1 {
                    self.polls = self.polls - 1;
                    WatchdogAction::PollAgain { millis }
                } else {
                    WatchdogAction::ShowStillBlocked
                }
            },
            (WatchdogAction::ShowReturned, WatchdogReply::Ack) => WatchdogAction::ShowTriggered,
            (WatchdogAction::ShowTriggered, WatchdogReply::Ack) => WatchdogAction::Exit {
                code: EXIT_TRIGGERED,
            },
            (WatchdogAction::ShowStillBlocked, WatchdogReply::Ack) => WatchdogAction::Exit {
                code: EXIT_STILL_BLOCKED,
            },
            _ => return None,
        };
        self.doing = doing;
        Some(doing)
    }
}

impl Machine for Watchdog {
    type Reply = WatchdogReply;

    /// The state behind an answer, or nothing where the answer does not belong
    /// to the action.
    open spec fn next(self, reply: WatchdogReply) -> Option<Watchdog> {
        match (self.doing, reply) {
            (WatchdogAction::Poll { .. }, WatchdogReply::Done(true)) => self.then_do(
                WatchdogAction::Stop,
            ),
            (WatchdogAction::Poll { .. }, WatchdogReply::Done(false)) => if self.polls > 1 {
                Some(Watchdog { polls: (self.polls - 1) as u32, ..self })
            } else {
                self.then_do(WatchdogAction::RaiseHung)
            },
            (WatchdogAction::RaiseHung, WatchdogReply::Ack) => self.then_do(
                WatchdogAction::CountCompletions,
            ),
            (WatchdogAction::CountCompletions, WatchdogReply::Positions { head, tail }) => Some(
                Watchdog {
                    completions: crate::ring::distance(head, tail) as u32,
                    doing: WatchdogAction::ShowHang,
                    ..self
                },
            ),
            (WatchdogAction::ShowHang, WatchdogReply::Ack) => self.then_do(
                WatchdogAction::ShowSilence { completions: self.completions },
            ),
            (WatchdogAction::ShowSilence { .. }, WatchdogReply::Ack) => self.then_do(
                WatchdogAction::ShowSubmitter,
            ),
            (WatchdogAction::ShowSubmitter, WatchdogReply::Ack) => self.then_do(
                WatchdogAction::ShowConsumer,
            ),
            (WatchdogAction::ShowConsumer, WatchdogReply::Ack) => self.then_do(
                WatchdogAction::ShowSubmitterStack,
            ),
            (WatchdogAction::ShowSubmitterStack, WatchdogReply::Ack) => self.then_do(
                WatchdogAction::ShowConsumerStack,
            ),
            (WatchdogAction::ShowConsumerStack, WatchdogReply::Ack) => self.then_do(
                WatchdogAction::FeedByte { byte: FED_BYTE },
            ),
            (WatchdogAction::FeedByte { .. }, WatchdogReply::Written(written)) => self.then_do(
                WatchdogAction::ShowFed { written },
            ),
            (WatchdogAction::ShowFed { .. }, WatchdogReply::Ack) => Some(
                Watchdog {
                    polls: RELEASE_POLLS,
                    doing: WatchdogAction::PollAgain { millis: POLL_MILLIS },
                    ..self
                },
            ),
            (WatchdogAction::PollAgain { .. }, WatchdogReply::Done(true)) => self.then_do(
                WatchdogAction::ShowReturned,
            ),
            (WatchdogAction::PollAgain { .. }, WatchdogReply::Done(false)) => if self.polls > 1 {
                Some(Watchdog { polls: (self.polls - 1) as u32, ..self })
            } else {
                self.then_do(WatchdogAction::ShowStillBlocked)
            },
            (WatchdogAction::ShowReturned, WatchdogReply::Ack) => self.then_do(
                WatchdogAction::ShowTriggered,
            ),
            (WatchdogAction::ShowTriggered, WatchdogReply::Ack) => self.then_do(
                WatchdogAction::Exit { code: EXIT_TRIGGERED },
            ),
            (WatchdogAction::ShowStillBlocked, WatchdogReply::Ack) => self.then_do(
                WatchdogAction::Exit { code: EXIT_STILL_BLOCKED },
            ),
            _ => None,
        }
    }
}

// ------------------------------------------------------------------- laws

/// The answers of `n` looks that found the submission still on its way.
pub open spec fn quiet_polls(n: nat) -> Seq<WatchdogReply> {
    Seq::new(n, |i: int| WatchdogReply::Done(false))
}

/// The answers to the report of a hang.
pub open spec fn report_replies(head: u32, tail: u32, written: i64) -> Seq<WatchdogReply> {
    seq![
        WatchdogReply::Ack,
        WatchdogReply::Positions { head, tail },
        WatchdogReply::Ack,
        WatchdogReply::Ack,
        WatchdogReply::Ack,
        WatchdogReply::Ack,
        WatchdogReply::Ack,
        WatchdogReply::Ack,
        WatchdogReply::Written(written),
        WatchdogReply::Ack,
    ]
}

/// The actions of the report of a hang.
pub open spec fn report_actions(head: u32, tail: u32, written: i64) -> Seq<WatchdogAction> {
    seq![
        WatchdogAction::RaiseHung,
        WatchdogAction::CountCompletions,
        WatchdogAction::ShowHang,
        WatchdogAction::ShowSilence { completions: crate::ring::distance(head, tail) as u32 },
        WatchdogAction::ShowSubmitter,
        WatchdogAction::ShowConsumer,
        WatchdogAction::ShowSubmitterStack,
        WatchdogAction::ShowConsumerStack,
        WatchdogAction::FeedByte { byte: FED_BYTE },
        WatchdogAction::ShowFed { written },
        WatchdogAction::PollAgain { millis: POLL_MILLIS },
    ]
}

proof fn lemma_quiet(w: Watchdog, n: nat)
    requires
        w.doing is Poll || w.doing is PollAgain,
        n < w.polls,
    ensures
        w.run(quiet_polls(n)) == Some(Watchdog { polls: (w.polls - n) as u32, ..w }),
    decreases n,
{
    if n > 0 {
        let m = (n - 1) as nat;
        lemma_quiet(w, m);
        crate::machine::lemma_run_push(w, quiet_polls(m), WatchdogReply::Done(false));
        assert(quiet_polls(m).push(WatchdogReply::Done(false)) =~= quiet_polls(n));
    }
}

/// A submission that returns within thirty looks is let go: up to then the
/// watchdog only looks, and then it stops.
pub proof fn law_a_timely_return_is_let_go(n: nat)
    requires
        n < HANG_POLLS,
    ensures
        Watchdog::start().run(quiet_polls(n)) matches Some(w) && w.doing == (WatchdogAction::Poll {
            millis: POLL_MILLIS,
        }),
        Watchdog::start().run(quiet_polls(n).push(WatchdogReply::Done(true))) matches Some(w)
            && w.doing == WatchdogAction::Stop,
{
    lemma_quiet(Watchdog::start(), n);
    crate::machine::lemma_run_push(Watchdog::start(), quiet_polls(n), WatchdogReply::Done(true));
}

/// A submission that has not returned after thirty looks, which is three
/// seconds of sleep, is called hung.
pub proof fn law_three_seconds_are_a_hang()
    ensures
        Watchdog::start().run(quiet_polls(HANG_POLLS as nat)) matches Some(w) && w.doing
            == WatchdogAction::RaiseHung,
        HANG_POLLS * POLL_MILLIS == 3000,
{
    let m = (HANG_POLLS - 1) as nat;
    lemma_quiet(Watchdog::start(), m);
    crate::machine::lemma_run_push(Watchdog::start(), quiet_polls(m), WatchdogReply::Done(false));
    assert(quiet_polls(m).push(WatchdogReply::Done(false)) =~= quiet_polls(HANG_POLLS as nat));
}

proof fn lemma_take_push(s: Seq<WatchdogReply>, k: int)
    requires
        0 <= k < s.len(),
    ensures
        s.take(k + 1) == s.take(k).push(s[k]),
{
    assert(s.take(k + 1) =~= s.take(k).push(s[k]));
}

/// A hang is reported from first to last whatever the answers hold, and only
/// then is the byte fed and the submission looked at again, twenty times.
pub proof fn law_a_hang_is_reported(w: Watchdog, head: u32, tail: u32, written: i64, k: int)
    requires
        w.doing == WatchdogAction::RaiseHung,
        0 <= k <= report_replies(head, tail, written).len(),
    ensures
        w.run(report_replies(head, tail, written).take(k)) matches Some(m) && {
            &&& m.doing == report_actions(head, tail, written)[k]
            &&& k >= 2 ==> m.completions == crate::ring::distance(head, tail)
            &&& m.doing is PollAgain ==> m.polls == RELEASE_POLLS
        },
    decreases k,
{
    let s = report_replies(head, tail, written);
    if k > 0 {
        law_a_hang_is_reported(w, head, tail, written, k - 1);
        lemma_take_push(s, k - 1);
        crate::machine::lemma_run_push(w, s.take(k - 1), s[k - 1]);
    } else {
        assert(s.take(0) =~= Seq::<WatchdogReply>::empty());
    }
}

/// A hang that ends within twenty looks after the byte was fed ends the program
/// with the code of a success.
pub proof fn law_a_released_hang_is_a_success(w: Watchdog, n: nat)
    requires
        w.doing is PollAgain,
        n < w.polls,
    ensures
        w.run(
            quiet_polls(n).push(WatchdogReply::Done(true)).push(WatchdogReply::Ack).push(
                WatchdogReply::Ack,
            ),
        ) matches Some(m) && m.doing == (WatchdogAction::Exit { code: EXIT_TRIGGERED }),
{
    let released = quiet_polls(n).push(WatchdogReply::Done(true));
    lemma_quiet(w, n);
    crate::machine::lemma_run_push(w, quiet_polls(n), WatchdogReply::Done(true));
    crate::machine::lemma_run_push(w, released, WatchdogReply::Ack);
    crate::machine::lemma_run_push(w, released.push(WatchdogReply::Ack), WatchdogReply::Ack);
}

/// A hang that outlasts all looks ends the program with its own code.
pub proof fn law_a_lasting_hang_has_its_own_code(w: Watchdog)
    requires
        w.doing is PollAgain,
        w.polls > 0,
    ensures
        w.run(quiet_polls(w.polls as nat).push(WatchdogReply::Ack)) matches Some(m) && m.doing
            == (WatchdogAction::Exit { code: EXIT_STILL_BLOCKED }),
{
    let m = (w.polls - 1) as nat;
    lemma_quiet(w, m);
    crate::machine::lemma_run_push(w, quiet_polls(m), WatchdogReply::Done(false));
    assert(quiet_polls(m).push(WatchdogReply::Done(false)) =~= quiet_polls(w.polls as nat));
    crate::machine::lemma_run_push(w, quiet_polls(w.polls as nat), WatchdogReply::Ack);
}

/// From first to last: a submission that hangs and is looked at `n` times in
/// vain after the byte was fed ends the program, with the code of a success
/// where it returned at the next look, and with the other code where there was
/// none left.
pub proof fn law_a_hang_ends_the_program(head: u32, tail: u32, written: i64, n: nat)
    requires
        n <= RELEASE_POLLS,
    ensures
        ({
            let hang = quiet_polls(HANG_POLLS as nat) + report_replies(head, tail, written);
            let ending = if n < RELEASE_POLLS {
                quiet_polls(n).push(WatchdogReply::Done(true)).push(WatchdogReply::Ack).push(
                    WatchdogReply::Ack,
                )
            } else {
                quiet_polls(n).push(WatchdogReply::Ack)
            };
            let code = if n < RELEASE_POLLS {
                EXIT_TRIGGERED
            } else {
                EXIT_STILL_BLOCKED
            };
            Watchdog::start().run(hang + ending) matches Some(w) && w.doing
                == (WatchdogAction::Exit { code })
        }),
{
    let begin = Watchdog::start();
    let waited = quiet_polls(HANG_POLLS as nat);
    let report = report_replies(head, tail, written);
    law_three_seconds_are_a_hang();
    let hung = begin.run(waited)->0;
    law_a_hang_is_reported(hung, head, tail, written, 10);
    assert(report.take(10) =~= report);
    crate::machine::law_runs_compose(begin, waited, report);
    let fed = hung.run(report)->0;
    if n < RELEASE_POLLS {
        law_a_released_hang_is_a_success(fed, n);
        crate::machine::law_runs_compose(
            begin,
            waited + report,
            quiet_polls(n).push(WatchdogReply::Done(true)).push(WatchdogReply::Ack).push(
                WatchdogReply::Ack,
            ),
        );
    } else {
        law_a_lasting_hang_has_its_own_code(fed);
        crate::machine::law_runs_compose(begin, waited + report, quiet_polls(n).push(WatchdogReply::Ack));
    }
}

/// Whether the watchdog has called the submission hung, or is about to.
pub open spec fn is_past_waiting(w: Watchdog) -> bool {
    !(w.doing is Poll) && !(w.doing is Stop)
}

/// Only a submission that was looked at thirty times in vain is called hung:
/// whatever the watchdog does but wait and stop comes behind thirty such looks.
pub proof fn law_only_a_hang_is_called_hung(replies: Seq<WatchdogReply>)
    ensures
        Watchdog::start().run(replies) matches Some(w) ==> {
            &&& w.doing is Poll ==> w.polls > 0 && replies == quiet_polls(
                (HANG_POLLS - w.polls) as nat,
            ) && w.polls <= HANG_POLLS
            &&& is_past_waiting(w) ==> replies.len() >= HANG_POLLS && replies.take(
                HANG_POLLS as int,
            ) == quiet_polls(HANG_POLLS as nat)
        },
    decreases replies.len(),
{
    if replies.len() == 0 {
        assert(replies =~= quiet_polls(0));
    } else {
        let shorter = replies.drop_last();
        law_only_a_hang_is_called_hung(shorter);
        if let Some(w) = Watchdog::start().run(shorter) {
            if w.doing is Poll && replies.last() == WatchdogReply::Done(false) {
                let n = (HANG_POLLS - w.polls) as nat;
                assert(replies =~= shorter.push(WatchdogReply::Done(false)));
                assert(quiet_polls(n).push(WatchdogReply::Done(false)) =~= quiet_polls(n + 1));
                if w.polls == 1 {
                    assert(replies.take(HANG_POLLS as int) =~= replies);
                }
            } else if is_past_waiting(w) {
                assert(replies.take(HANG_POLLS as int) =~= shorter.take(HANG_POLLS as int));
            }
        }
    }
}

/// Whether the watchdog knows that the hang is over.
spec fn knows_of_release(w: Watchdog) -> bool {
    match w.doing {
        WatchdogAction::ShowReturned => true,
        WatchdogAction::ShowTriggered => true,
        WatchdogAction::Exit { code } => code == EXIT_TRIGGERED,
        _ => false,
    }
}

proof fn lemma_release_is_remembered(replies: Seq<WatchdogReply>)
    ensures
        Watchdog::start().run(replies) matches Some(w) ==> {
            &&& !(w.doing is Stop) ==> (knows_of_release(w) <==> replies.contains(
                WatchdogReply::Done(true),
            ))
            &&& w.doing matches WatchdogAction::Exit { code } ==> code == EXIT_TRIGGERED || code
                == EXIT_STILL_BLOCKED
        },
    decreases replies.len(),
{
    if replies.len() > 0 {
        let shorter = replies.drop_last();
        lemma_release_is_remembered(shorter);
        let done = WatchdogReply::Done(true);
        crate::machine::lemma_contains_push(shorter, replies.last(), done);
        assert(shorter.push(replies.last()) =~= replies);
    }
}

/// Whatever it was answered, where the watchdog ends the program the code is
/// that of a success if and only if the submission was seen to return, and the
/// other one otherwise.
pub proof fn law_the_exit_code_tells_of_a_release(replies: Seq<WatchdogReply>)
    ensures
        Watchdog::start().run(replies) matches Some(w) ==> {
            w.doing matches WatchdogAction::Exit { code } ==> code == (if replies.contains(
                WatchdogReply::Done(true),
            ) {
                EXIT_TRIGGERED
            } else {
                EXIT_STILL_BLOCKED
            })
        },
{
    lemma_release_is_remembered(replies);
}

impl Watchdog {
    /// An upper bound for the number of steps that are left.
    pub open spec fn steps_left(self) -> nat {
        match self.doing {
            WatchdogAction::Poll { .. } => 40 + self.polls as nat,
            WatchdogAction::RaiseHung => 39,
            WatchdogAction::CountCompletions => 38,
            WatchdogAction::ShowHang => 37,
            WatchdogAction::ShowSilence { .. } => 36,
            WatchdogAction::ShowSubmitter => 35,
            WatchdogAction::ShowConsumer => 34,
            WatchdogAction::ShowSubmitterStack => 33,
            WatchdogAction::ShowConsumerStack => 32,
            WatchdogAction::FeedByte { .. } => 31,
            WatchdogAction::ShowFed { .. } => 30,
            WatchdogAction::PollAgain { .. } => 3 + self.polls as nat,
            WatchdogAction::ShowReturned => 2,
            WatchdogAction::ShowTriggered => 1,
            WatchdogAction::ShowStillBlocked => 1,
            WatchdogAction::Exit { .. } => 0,
            WatchdogAction::Stop => 0,
        }
    }
}

/// How many of some answers are answers to a look at the submission.
pub open spec fn looks_in(replies: Seq<WatchdogReply>) -> nat
    decreases replies.len(),
{
    if replies.len() == 0 {
        0
    } else {
        looks_in(replies.drop_last()) + (if replies.last() is Done {
            1nat
        } else {
            0nat
        })
    }
}

/// Whether the watchdog has begun to look for the end of a hang.
pub open spec fn looks_again(action: WatchdogAction) -> bool {
    match action {
        WatchdogAction::PollAgain { .. } => true,
        WatchdogAction::ShowReturned => true,
        WatchdogAction::ShowTriggered => true,
        WatchdogAction::ShowStillBlocked => true,
        WatchdogAction::Exit { .. } => true,
        _ => false,
    }
}

/// Whatever it is answered, the watchdog looks at most fifty times, at most
/// thirty of them before it looks for the end of a hang, and takes at most seventy steps.
pub proof fn law_the_watchdog_is_bounded(replies: Seq<WatchdogReply>)
    ensures
        Watchdog::start().run(replies) matches Some(w) ==> {
            &&& looks_in(replies) <= HANG_POLLS + RELEASE_POLLS
            &&& !looks_again(w.doing) ==> looks_in(replies) <= HANG_POLLS
            &&& replies.len() + w.steps_left() <= 70
        },
{
    lemma_looks_are_counted(replies);
}

proof fn lemma_looks_are_counted(replies: Seq<WatchdogReply>)
    ensures
        Watchdog::start().run(replies) matches Some(w) ==> {
            &&& replies.len() + w.steps_left() <= 70
            &&& match w.doing {
                WatchdogAction::Poll { .. } => w.polls > 0 && looks_in(replies) + w.polls
                    == HANG_POLLS,
                WatchdogAction::PollAgain { .. } => w.polls > 0 && looks_in(replies) + w.polls
                    == HANG_POLLS + RELEASE_POLLS,
                WatchdogAction::Stop => looks_in(replies) <= HANG_POLLS,
                WatchdogAction::ShowReturned
                | WatchdogAction::ShowTriggered
                | WatchdogAction::ShowStillBlocked
                | WatchdogAction::Exit { .. } => looks_in(replies) <= HANG_POLLS + RELEASE_POLLS,
                _ => looks_in(replies) == HANG_POLLS,
            }
        },
    decreases replies.len(),
{
    if replies.len() > 0 {
        lemma_looks_are_counted(replies.drop_last());
    }
}

/// Every answer that belongs to its action brings the watchdog nearer to its
/// end.
pub proof fn law_the_watchdog_ends(w: Watchdog, reply: WatchdogReply)
    ensures
        w.next(reply) matches Some(m) ==> m.steps_left() < w.steps_left(),
{
}

/// The watchdog begins with the first of thirty looks, each behind a tenth of a
/// second.
pub proof fn law_the_watchdog_begins_with_a_look()
    ensures
        Watchdog::start().polls == 30,
        Watchdog::start().doing == (WatchdogAction::Poll { millis: 100 }),
{
}

/// A look in vain costs one look and changes nothing else; the last one leads
/// on, and a submission that has returned is let go at any look.
pub proof fn law_a_look_in_vain_costs_one(w: Watchdog, millis: u64)
    ensures
        w.doing == (WatchdogAction::Poll { millis }) ==> {
            &&& w.next(WatchdogReply::Done(true)) == Some(
                Watchdog { doing: WatchdogAction::Stop, ..w },
            )
            &&& w.polls > 1 ==> (w.next(WatchdogReply::Done(false)) matches Some(m) && m.polls
                == w.polls - 1 && m == (Watchdog { polls: m.polls, ..w }))
            &&& w.polls <= 1 ==> w.next(WatchdogReply::Done(false)) == Some(
                Watchdog { doing: WatchdogAction::RaiseHung, ..w },
            )
        },
        w.doing == (WatchdogAction::PollAgain { millis }) ==> {
            &&& w.next(WatchdogReply::Done(true)) == Some(
                Watchdog { doing: WatchdogAction::ShowReturned, ..w },
            )
            &&& w.polls > 1 ==> (w.next(WatchdogReply::Done(false)) matches Some(m) && m.polls
                == w.polls - 1 && m == (Watchdog { polls: m.polls, ..w }))
            &&& w.polls <= 1 ==> w.next(WatchdogReply::Done(false)) == Some(
                Watchdog { doing: WatchdogAction::ShowStillBlocked, ..w },
            )
        },
{
}

/// The number of completions that is shown is by how much the tail is ahead of
/// the head, counted round where the positions have wrapped, whatever they are.
pub proof fn law_the_completions_shown_are_those_that_wait(w: Watchdog, head: u32, tail: u32)
    requires
        w.doing is CountCompletions,
    ensures
        w.next(WatchdogReply::Positions { head, tail }) matches Some(m) && {
            &&& m == (Watchdog {
                completions: m.completions,
                doing: WatchdogAction::ShowHang,
                ..w
            })
            &&& head <= tail ==> m.completions == tail - head
            &&& head > tail ==> m.completions == tail - head + 0x1_0000_0000
            &&& m.next(WatchdogReply::Ack) == Some(
                Watchdog {
                    doing: WatchdogAction::ShowSilence { completions: m.completions },
                    ..m
                },
            )
        },
{
}

/// What writing the byte returned is shown as it came, whatever it is, and then
/// the submission is looked at twenty times more.
pub proof fn law_the_result_of_feeding_is_told_as_it_came(w: Watchdog, written: i64)
    requires
        w.doing is FeedByte,
    ensures
        w.next(WatchdogReply::Written(written)) matches Some(m) && {
            &&& m == (Watchdog { doing: WatchdogAction::ShowFed { written }, ..w })
            &&& m.next(WatchdogReply::Ack) == Some(
                Watchdog { polls: 20, doing: WatchdogAction::PollAgain { millis: 100 }, ..m },
            )
        },
{
}

/// The other lines of the report follow one another, and nothing but the line
/// to be printed changes from one to the next.
pub proof fn law_the_report_goes_line_by_line(w: Watchdog)
    ensures
        ({
            let told = w.next(WatchdogReply::Ack);
            &&& w.doing is RaiseHung ==> told == Some(
                Watchdog { doing: WatchdogAction::CountCompletions, ..w },
            )
            &&& w.doing is ShowHang ==> told == Some(
                Watchdog {
                    doing: WatchdogAction::ShowSilence { completions: w.completions },
                    ..w
                },
            )
            &&& w.doing is ShowSilence ==> told == Some(
                Watchdog { doing: WatchdogAction::ShowSubmitter, ..w },
            )
            &&& w.doing is ShowSubmitter ==> told == Some(
                Watchdog { doing: WatchdogAction::ShowConsumer, ..w },
            )
            &&& w.doing is ShowConsumer ==> told == Some(
                Watchdog { doing: WatchdogAction::ShowSubmitterStack, ..w },
            )
            &&& w.doing is ShowSubmitterStack ==> told == Some(
                Watchdog { doing: WatchdogAction::ShowConsumerStack, ..w },
            )
            &&& w.doing is ShowConsumerStack ==> told == Some(
                Watchdog { doing: WatchdogAction::FeedByte { byte: 0x78 }, ..w },
            )
            &&& w.doing is ShowReturned ==> told == Some(
                Watchdog { doing: WatchdogAction::ShowTriggered, ..w },
            )
            &&& w.doing is ShowTriggered ==> told == Some(
                Watchdog { doing: WatchdogAction::Exit { code: 0 }, ..w },
            )
            &&& w.doing is ShowStillBlocked ==> told == Some(
                Watchdog { doing: WatchdogAction::Exit { code: 2 }, ..w },
            )
        }),
{
}

/// An answer leads on if and only if it is of the kind that the action asks for,
/// whatever it holds.
pub proof fn law_the_watchdog_takes_fitting_answers_only(w: Watchdog, reply: WatchdogReply)
    ensures
        w.next(reply) is Some <==> match w.doing {
            WatchdogAction::Poll { .. } | WatchdogAction::PollAgain { .. } => reply is Done,
            WatchdogAction::CountCompletions => reply is Positions,
            WatchdogAction::FeedByte { .. } => reply is Written,
            WatchdogAction::Stop | WatchdogAction::Exit { .. } => false,
            _ => reply is Ack,
        },
{
}

} // verus!
