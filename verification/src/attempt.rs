//! One attempt to make a submission hang.
//!
//! A pseudo terminal in packet mode is opened and, unless this is a control
//! run, a competing reader is put to sleep on its master side. A read of the
//! master side, guarded by a timeout, is queued; discarding the input of the
//! slave side makes the master side look readable; then the read is submitted.
//! Afterwards the completions are collected.
use vstd::prelude::*;
use crate::machine::Machine;
use crate::abi::{Cqe, TCIFLUSH, Timespec};

verus! {

/// How long a thread sleeps before it looks for the competing reader again.
pub const TID_MILLIS: u64 = 1;

/// How long the competing reader is given to fall asleep.
pub const CONSUMER_MILLIS: u64 = 300;

/// How long a thread sleeps before it looks for a completion again.
pub const COMPLETION_MILLIS: u64 = 5;

/// Niceness of the competing reader.
pub const CONSUMER_NICENESS: i32 = 19;

/// What `TIOCSPTLCK` is given: the slave side is not to be locked.
pub const UNLOCKED: i32 = 0;

/// What `TIOCPKT` is given: packet mode is to be on.
pub const PACKET_MODE_ON: i32 = 1;

/// Bytes that are read.
pub const READ_BYTES: u32 = 1;

/// Entries that are submitted: the read and its timeout.
pub const SUBMITTED: u32 = 2;

/// Completions to wait for: one for each entry.
pub const EXPECTED: u32 = 2;

/// Exit code of a program that gets no ring.
pub const EXIT_NO_RING: i32 = 1;

/// How often completions are looked for after a hang.
pub const LOOKS_AFTER_HANG: u32 = 200;

/// How often completions are looked for otherwise.
pub const LOOKS: u32 = 10;

/// The timeout of the read: a tenth of a second.
pub open spec fn tenth_of_a_second() -> Timespec {
    Timespec { tv_sec: 0, tv_nsec: 100_000_000 }
}

/// The timeout of the read.
pub fn link_timeout() -> (r: Timespec)
    ensures
        r == tenth_of_a_second(),
        r.tv_sec == 0,
        r.tv_nsec == 100_000_000,
{
    Timespec { tv_sec: 0, tv_nsec: 100_000_000 }
}

/// How often completions are looked for.
pub open spec fn looks(was_hung: bool) -> u32 {
    if was_hung {
        LOOKS_AFTER_HANG
    } else {
        LOOKS
    }
}

/// A request to the terminal that must not fail.
#[derive(Clone, Copy, Debug, PartialEq, Eq, Structural)]
pub enum PtyRequest {
    /// Opening the master side.
    OpenMaster,
    /// `TIOCSPTLCK`, which unlocks the slave side.
    Unlock,
    /// `TIOCGPTN`, which tells the number of the slave side.
    Number,
    /// Opening the slave side.
    OpenSlave,
    /// `TIOCPKT`, which turns packet mode on.
    PacketMode,
}

/// What is to be done.
#[derive(Clone, Copy, Debug, PartialEq, Eq, Structural)]
pub enum AttemptAction {
    /// Open the master side, at its fixed path; answered by zero, or else where that failed.
    OpenMaster,
    /// Unlock the slave side; answered by the result.
    UnlockSlave { lock: i32 },
    /// Ask for the number of the slave side; answered by result and number.
    AskNumber,
    /// Open the slave side of a number; answered likewise.
    OpenSlave { number: i32 },
    /// Turn packet mode on; answered by the result.
    EnablePacketMode { mode: i32 },
    /// Load the status flags of the master side.
    ReadFlags,
    /// Print the status flags.
    ShowFlags { flags: i32 },
    /// Set a ring up; answered by whether there is one.
    SetUpRing,
    /// Pin this thread to a processor.
    PinCpu,
    /// Start the competing reader.
    SpawnConsumer { niceness: i32 },
    /// Answer the thread number of the competing reader, zero if not yet known.
    PollTid,
    /// Sleep until the thread number may be known.
    WaitForTid { millis: u64 },
    /// Sleep until the competing reader sleeps.
    Settle { millis: u64 },
    /// Print where the competing reader sleeps.
    ShowConsumer { tid: i32 },
    /// Print that there is no competing reader.
    ShowControl,
    /// Start the watchdog.
    StartWatchdog { consumer_tid: i32 },
    /// Queue the read with its timeout.
    QueueRead { len: u32, timeout: Timespec },
    /// Discard the input of the slave side; answered by the result.
    FlushSlave { queue: i32 },
    /// Print the result of discarding.
    ShowFlush { result: i32 },
    /// Submit what is queued; answered by the result.
    Enter { to_submit: u32 },
    /// Let the watchdog know that the submission has returned.
    MarkDone,
    /// Answer whether the watchdog called the submission hung.
    ReadHung,
    /// Print how the submission ended.
    ShowEnter { result: i32, was_hung: bool },
    /// Take a completion, where one waits.
    PeekCompletion,
    /// Print what a completion says.
    ShowCompletion { cqe: Cqe },
    /// Sleep until a completion may wait.
    WaitForCompletion { millis: u64 },
    /// The attempt is over.
    Finish { was_hung: bool },
    /// Give up: a request to the terminal failed with a result.
    Abort { request: PtyRequest, result: i32 },
    /// End the program with an exit code.
    Exit { code: i32 },
}

/// What came of an action.
#[derive(Clone, Copy, Debug, PartialEq, Eq)]
pub enum AttemptReply {
    /// It is done.
    Ack,
    /// A result.
    Value(i32),
    /// A result, and the number of the slave side where it is zero.
    Number { result: i32, number: i32 },
    /// Whether there is a ring.
    Ready(bool),
    /// Whether the submission was called hung.
    Hung(bool),
    /// A completion, where one waited.
    Completion(Option<Cqe>),
}

/// The state of an attempt.
#[derive(Clone, Copy, Debug, PartialEq, Eq, Structural)]
pub struct AttemptState {
    /// Whether a reader competes for the input.
    pub with_consumer: bool,
    /// Its thread number, zero where there is none.
    pub consumer_tid: i32,
    /// What submitting returned.
    pub result: i32,
    /// Whether the submission was called hung.
    pub was_hung: bool,
    /// How often completions are still looked for.
    pub looks_left: u32,
    /// How many completions were taken.
    pub seen: u32,
    /// The action that is to be done now.
    pub doing: AttemptAction,
}

impl AttemptState {
    /// The state that an attempt begins in.
    pub open spec fn start(with_consumer: bool) -> AttemptState {
        AttemptState {
            with_consumer,
            consumer_tid: 0,
            result: 0,
            was_hung: false,
            looks_left: 0,
            seen: 0,
            doing: AttemptAction::OpenMaster,
        }
    }

    /// What holds of every state that an attempt can come to.
    pub open spec fn wf(self) -> bool {
        &&& self.seen <= EXPECTED
        &&& self.looks_left <= LOOKS_AFTER_HANG
        &&& !self.with_consumer ==> self.consumer_tid == 0
        &&& match self.doing {
            AttemptAction::UnlockSlave { lock } => lock == UNLOCKED,
            AttemptAction::EnablePacketMode { mode } => mode == PACKET_MODE_ON,
            AttemptAction::SpawnConsumer { niceness } => {
                self.with_consumer && niceness == CONSUMER_NICENESS
            },
            AttemptAction::QueueRead { len, timeout } => {
                len == READ_BYTES && timeout == tenth_of_a_second()
            },
            AttemptAction::FlushSlave { queue } => queue == TCIFLUSH,
            AttemptAction::Enter { to_submit } => to_submit == SUBMITTED,
            AttemptAction::PinCpu
            | AttemptAction::PollTid
            | AttemptAction::WaitForTid { .. } => self.with_consumer,
            AttemptAction::Settle { .. } => self.with_consumer && self.consumer_tid != 0,
            AttemptAction::ShowConsumer { tid } => {
                self.with_consumer && self.consumer_tid == tid && tid != 0
            },
            AttemptAction::ShowControl => !self.with_consumer,
            AttemptAction::StartWatchdog { consumer_tid } => {
                &&& self.consumer_tid == consumer_tid
                &&& self.with_consumer <==> consumer_tid != 0
            },
            AttemptAction::ShowEnter { result, was_hung } => {
                &&& self.result == result
                &&& self.was_hung == was_hung
                &&& self.looks_left == looks(was_hung)
                &&& self.seen == 0
            },
            AttemptAction::PeekCompletion => self.looks_left > 0 && self.seen < EXPECTED,
            AttemptAction::ShowCompletion { .. } => self.seen > 0,
            AttemptAction::Finish { was_hung } => self.was_hung == was_hung,
            _ => true,
        }
    }

    /// The same state with another action.
    pub open spec fn then_do(self, doing: AttemptAction) -> Option<AttemptState> {
        Some(AttemptState { doing, ..self })
    }

    /// Another action where a request went well, else the end.
    pub open spec fn checked(
        self,
        request: PtyRequest,
        result: i32,
        doing: AttemptAction,
    ) -> Option<AttemptState> {
        if result == 0 {
            self.then_do(doing)
        } else {
            self.then_do(AttemptAction::Abort { request, result })
        }
    }

    /// Another look for a completion, or the end where there is no look left or
    /// no completion to wait for.
    pub open spec fn look_again(self) -> Option<AttemptState> {
        if self.looks_left > 0 && self.seen < EXPECTED {
            self.then_do(AttemptAction::PeekCompletion)
        } else {
            self.then_do(AttemptAction::Finish { was_hung: self.was_hung })
        }
    }

    /// The state behind some answers, given in order.
    pub open spec fn run(self, replies: Seq<AttemptReply>) -> Option<AttemptState> {
        crate::machine::run(self, replies)
    }

    fn after_request(request: PtyRequest, result: i32, doing: AttemptAction) -> (r: AttemptAction)
        ensures
            r == (if result == 0 {
                doing
            } else {
                AttemptAction::Abort { request, result }
            }),
    {
        if result == 0 {
            doing
        } else {
            AttemptAction::Abort { request, result }
        }
    }

    fn after_look(&self) -> (r: AttemptAction)
        ensures
            self.look_again() == self.then_do(r),
    {
        if self.looks_left > 0 && self.seen < EXPECTED {
            AttemptAction::PeekCompletion
        } else {
            AttemptAction::Finish { was_hung: self.was_hung }
        }
    }

    /// Moves on to the state behind an answer, where there is one.
    fn advance(&mut self, reply: AttemptReply) -> (r: Option<AttemptAction>)
        requires
            old(self).wf(),
        ensures
            final(self).wf(),
            match old(self).next(reply) {
                Some(a) => *final(self) == a && r == Some(a.doing),
                None => *final(self) == *old(self) && r is None,
            },
    {
        let doing = match (self.doing, reply) {
            (AttemptAction::OpenMaster, AttemptReply::Value(result)) => Self::after_request(
                PtyRequest::OpenMaster,
                result,
                AttemptAction::UnlockSlave { lock: UNLOCKED },
            ),
            (AttemptAction::UnlockSlave { .. }, AttemptReply::Value(result)) => Self::after_request(
                PtyRequest::Unlock,
                result,
                AttemptAction::AskNumber,
            ),
            (AttemptAction::AskNumber, AttemptReply::Number { result, number }) => {
                Self::after_request(
                    PtyRequest::Number,
                    result,
                    AttemptAction::OpenSlave { number },
                )
            },
            (AttemptAction::OpenSlave { .. }, AttemptReply::Value(result)) => Self::after_request(
                PtyRequest::OpenSlave,
                result,
                AttemptAction::EnablePacketMode { mode: PACKET_MODE_ON },
            ),
            (AttemptAction::EnablePacketMode { .. }, AttemptReply::Value(result)) => Self::after_request(
                PtyRequest::PacketMode,
                result,
                AttemptAction::ReadFlags,
            ),
            (AttemptAction::ReadFlags, AttemptReply::Value(flags)) => AttemptAction::ShowFlags {
                flags,
            },
            (AttemptAction::ShowFlags { .. }, AttemptReply::Ack) => AttemptAction::SetUpRing,
            (AttemptAction::SetUpRing, AttemptReply::Ready(ready)) => {
                if !ready {
                    AttemptAction::Exit { code: EXIT_NO_RING }
                } else if self.with_consumer {
                    AttemptAction::PinCpu
                } else {
                    AttemptAction::ShowControl
                }
            },
            (AttemptAction::PinCpu, AttemptReply::Ack) => AttemptAction::SpawnConsumer {
                niceness: CONSUMER_NICENESS,
            },
            (AttemptAction::SpawnConsumer { .. }, AttemptReply::Ack) => AttemptAction::PollTid,
            (AttemptAction::PollTid, AttemptReply::Value(tid)) => {
                if tid == 0 {
                    AttemptAction::WaitForTid { millis: TID_MILLIS }
                } else {
                    self.consumer_tid = tid;
                    AttemptAction::Settle { millis: CONSUMER_MILLIS }
                }
            },
            (AttemptAction::WaitForTid { .. }, AttemptReply::Ack) => AttemptAction::PollTid,
            (AttemptAction::Settle { .. }, AttemptReply::Ack) => AttemptAction::ShowConsumer {
                tid: self.consumer_tid,
            },
            (AttemptAction::ShowConsumer { .. }, AttemptReply::Ack) => {
                AttemptAction::StartWatchdog { consumer_tid: self.consumer_tid }
            },
            (AttemptAction::ShowControl, AttemptReply::Ack) => AttemptAction::StartWatchdog {
                consumer_tid: self.consumer_tid,
            },
            (AttemptAction::StartWatchdog { .. }, AttemptReply::Ack) => AttemptAction::QueueRead {
                len: READ_BYTES,
                timeout: link_timeout(),
            },
            (AttemptAction::QueueRead { .. }, AttemptReply::Ack) => AttemptAction::FlushSlave {
                queue: TCIFLUSH,
            },
            (AttemptAction::FlushSlave { .. }, AttemptReply::Value(result)) => AttemptAction::ShowFlush {
                result,
            },
            (AttemptAction::ShowFlush { .. }, AttemptReply::Ack) => AttemptAction::Enter {
                to_submit: SUBMITTED,
            },
            (AttemptAction::Enter { .. }, AttemptReply::Value(result)) => {
                self.result = result;
                AttemptAction::MarkDone
            },
            (AttemptAction::MarkDone, AttemptReply::Ack) => AttemptAction::ReadHung,
            (AttemptAction::ReadHung, AttemptReply::Hung(was_hung)) => {
                self.was_hung = was_hung;
                self.looks_left = if was_hung {
                    LOOKS_AFTER_HANG
                } else {
                    LOOKS
                };
                self.seen = 0;
                AttemptAction::ShowEnter { result: self.result, was_hung }
            },
            (AttemptAction::ShowEnter { .. }, AttemptReply::Ack) => self.after_look(),
            (AttemptAction::PeekCompletion, AttemptReply::Completion(found)) => {
                self.looks_left = self.looks_left - 1;
                match found {
                    Some(cqe) => {
                        self.seen = self.seen + 1;
                        AttemptAction::ShowCompletion { cqe }
                    },
                    None => AttemptAction::WaitForCompletion { millis: COMPLETION_MILLIS },
                }
            },
            (AttemptAction::ShowCompletion { .. }, AttemptReply::Ack) => self.after_look(),
            (AttemptAction::WaitForCompletion { .. }, AttemptReply::Ack) => self.after_look(),
            _ => return None,
        };
        self.doing = doing;
        Some(doing)
    }
}

impl Machine for AttemptState {
    type Reply = AttemptReply;

    /// The state behind an answer, or nothing where the answer does not belong
    /// to the action.
    open spec fn next(self, reply: AttemptReply) -> Option<AttemptState> {
        match (self.doing, reply) {
            (AttemptAction::OpenMaster, AttemptReply::Value(result)) => self.checked(
                PtyRequest::OpenMaster,
                result,
                AttemptAction::UnlockSlave { lock: UNLOCKED },
            ),
            (AttemptAction::UnlockSlave { .. }, AttemptReply::Value(result)) => self.checked(
                PtyRequest::Unlock,
                result,
                AttemptAction::AskNumber,
            ),
            (AttemptAction::AskNumber, AttemptReply::Number { result, number }) => self.checked(
                PtyRequest::Number,
                result,
                AttemptAction::OpenSlave { number },
            ),
            (AttemptAction::OpenSlave { .. }, AttemptReply::Value(result)) => self.checked(
                PtyRequest::OpenSlave,
                result,
                AttemptAction::EnablePacketMode { mode: PACKET_MODE_ON },
            ),
            (AttemptAction::EnablePacketMode { .. }, AttemptReply::Value(result)) => self.checked(
                PtyRequest::PacketMode,
                result,
                AttemptAction::ReadFlags,
            ),
            (AttemptAction::ReadFlags, AttemptReply::Value(flags)) => self.then_do(
                AttemptAction::ShowFlags { flags },
            ),
            (AttemptAction::ShowFlags { .. }, AttemptReply::Ack) => self.then_do(
                AttemptAction::SetUpRing,
            ),
            (AttemptAction::SetUpRing, AttemptReply::Ready(ready)) => if !ready {
                self.then_do(AttemptAction::Exit { code: EXIT_NO_RING })
            } else if self.with_consumer {
                self.then_do(AttemptAction::PinCpu)
            } else {
                self.then_do(AttemptAction::ShowControl)
            },
            (AttemptAction::PinCpu, AttemptReply::Ack) => self.then_do(
                AttemptAction::SpawnConsumer { niceness: CONSUMER_NICENESS },
            ),
            (AttemptAction::SpawnConsumer { .. }, AttemptReply::Ack) => self.then_do(
                AttemptAction::PollTid,
            ),
            (AttemptAction::PollTid, AttemptReply::Value(tid)) => if tid == 0 {
                self.then_do(AttemptAction::WaitForTid { millis: TID_MILLIS })
            } else {
                Some(
                    AttemptState {
                        consumer_tid: tid,
                        doing: AttemptAction::Settle { millis: CONSUMER_MILLIS },
                        ..self
                    },
                )
            },
            (AttemptAction::WaitForTid { .. }, AttemptReply::Ack) => self.then_do(
                AttemptAction::PollTid,
            ),
            (AttemptAction::Settle { .. }, AttemptReply::Ack) => self.then_do(
                AttemptAction::ShowConsumer { tid: self.consumer_tid },
            ),
            (AttemptAction::ShowConsumer { .. }, AttemptReply::Ack) => self.then_do(
                AttemptAction::StartWatchdog { consumer_tid: self.consumer_tid },
            ),
            (AttemptAction::ShowControl, AttemptReply::Ack) => self.then_do(
                AttemptAction::StartWatchdog { consumer_tid: self.consumer_tid },
            ),
            (AttemptAction::StartWatchdog { .. }, AttemptReply::Ack) => self.then_do(
                AttemptAction::QueueRead { len: READ_BYTES, timeout: tenth_of_a_second() },
            ),
            (AttemptAction::QueueRead { .. }, AttemptReply::Ack) => self.then_do(
                AttemptAction::FlushSlave { queue: TCIFLUSH },
            ),
            (AttemptAction::FlushSlave { .. }, AttemptReply::Value(result)) => self.then_do(
                AttemptAction::ShowFlush { result },
            ),
            (AttemptAction::ShowFlush { .. }, AttemptReply::Ack) => self.then_do(
                AttemptAction::Enter { to_submit: SUBMITTED },
            ),
            (AttemptAction::Enter { .. }, AttemptReply::Value(result)) => Some(
                AttemptState { result, doing: AttemptAction::MarkDone, ..self },
            ),
            (AttemptAction::MarkDone, AttemptReply::Ack) => self.then_do(AttemptAction::ReadHung),
            (AttemptAction::ReadHung, AttemptReply::Hung(was_hung)) => Some(
                AttemptState {
                    was_hung,
                    looks_left: looks(was_hung),
                    seen: 0,
                    doing: AttemptAction::ShowEnter { result: self.result, was_hung },
                    ..self
                },
            ),
            (AttemptAction::ShowEnter { .. }, AttemptReply::Ack) => self.look_again(),
            (AttemptAction::PeekCompletion, AttemptReply::Completion(found)) => {
                let used = AttemptState { looks_left: (self.looks_left - 1) as u32, ..self };
                match found {
                    Some(cqe) => Some(
                        AttemptState {
                            seen: (self.seen + 1) as u32,
                            doing: AttemptAction::ShowCompletion { cqe },
                            ..used
                        },
                    ),
                    None => used.then_do(
                        AttemptAction::WaitForCompletion { millis: COMPLETION_MILLIS },
                    ),
                }
            },
            (AttemptAction::ShowCompletion { .. }, AttemptReply::Ack) => self.look_again(),
            (AttemptAction::WaitForCompletion { .. }, AttemptReply::Ack) => self.look_again(),
            _ => None,
        }
    }
}

/// An attempt under way. Its state is what [`AttemptState`] describes, and is
/// always well formed.
#[derive(Debug, PartialEq, Eq)]
pub struct Attempt {
    state: AttemptState,
}

impl View for Attempt {
    type V = AttemptState;

    closed spec fn view(&self) -> AttemptState {
        self.state
    }
}

impl Attempt {
    #[verifier::type_invariant]
    spec fn inv(self) -> bool {
        self.state.wf()
    }

    /// Begins an attempt.
    pub fn new(with_consumer: bool) -> (r: Attempt)
        ensures
            r@ == AttemptState::start(with_consumer),
            r@.wf(),
            r@.with_consumer == with_consumer,
            r@.doing == AttemptAction::OpenMaster,
    {
        Attempt {
            state: AttemptState {
                with_consumer,
                consumer_tid: 0,
                result: 0,
                was_hung: false,
                looks_left: 0,
                seen: 0,
                doing: AttemptAction::OpenMaster,
            },
        }
    }

    /// The action that is to be done now.
    pub fn action(&self) -> (r: AttemptAction)
        ensures
            r == self@.doing,
    {
        self.state.doing
    }

    /// Takes the answer to the present action and gives the next one. An answer
    /// that does not belong to the action changes nothing.
    pub fn step(&mut self, reply: AttemptReply) -> (r: Option<AttemptAction>)
        ensures
            final(self)@.wf(),
            match old(self)@.next(reply) {
                Some(a) => final(self)@ == a && r == Some(a.doing),
                None => final(self)@ == old(self)@ && r is None,
            },
    {
        proof {
            use_type_invariant(&*self);
        }
        let mut state = self.state;
        let action = state.advance(reply);
        self.state = state;
        action
    }
}

// ------------------------------------------------------------------- laws

/// How far an attempt is when it comes to an action.
pub open spec fn stage(action: AttemptAction) -> int {
    match action {
        AttemptAction::OpenMaster => 0,
        AttemptAction::UnlockSlave { .. } => 1,
        AttemptAction::AskNumber => 2,
        AttemptAction::OpenSlave { .. } => 3,
        AttemptAction::EnablePacketMode { .. } => 4,
        AttemptAction::ReadFlags => 5,
        AttemptAction::ShowFlags { .. } => 6,
        AttemptAction::SetUpRing => 7,
        AttemptAction::PinCpu => 8,
        AttemptAction::SpawnConsumer { .. } => 9,
        AttemptAction::PollTid => 10,
        AttemptAction::WaitForTid { .. } => 10,
        AttemptAction::Settle { .. } => 11,
        AttemptAction::ShowConsumer { .. } => 12,
        AttemptAction::ShowControl => 12,
        AttemptAction::StartWatchdog { .. } => 13,
        AttemptAction::QueueRead { .. } => 14,
        AttemptAction::FlushSlave { .. } => 15,
        AttemptAction::ShowFlush { .. } => 16,
        AttemptAction::Enter { .. } => 17,
        AttemptAction::MarkDone => 18,
        AttemptAction::ReadHung => 19,
        AttemptAction::ShowEnter { .. } => 20,
        AttemptAction::PeekCompletion => 21,
        AttemptAction::ShowCompletion { .. } => 21,
        AttemptAction::WaitForCompletion { .. } => 21,
        AttemptAction::Finish { .. } => 22,
        AttemptAction::Abort { .. } => 23,
        AttemptAction::Exit { .. } => 23,
    }
}

/// Whether an attempt ended before its time.
pub open spec fn gave_up(action: AttemptAction) -> bool {
    action is Abort || action is Exit
}

/// Whether an attempt may do several actions of a stage: while it waits for the
/// competing reader, and while it collects completions.
pub open spec fn is_loop(stage: int) -> bool {
    stage == 10 || stage == 21
}

/// Whether an attempt goes through a stage at all.
pub open spec fn has_stage(with_consumer: bool, stage: int) -> bool {
    with_consumer || stage < 8 || stage > 11
}

/// Whether an attempt that was given some answers was at a stage when it had
/// got the first `k` of them.
#[verifier::opaque]
pub open spec fn was_at(
    with_consumer: bool,
    replies: Seq<AttemptReply>,
    k: int,
    at: int,
) -> bool {
    &&& 0 <= k <= replies.len()
    &&& AttemptState::start(with_consumer).run(replies.take(k)) matches Some(a) && stage(a.doing) == at
}

proof fn lemma_step(a: AttemptState, reply: AttemptReply)
    requires
        a.wf(),
    ensures
        a.next(reply) matches Some(b) ==> {
            &&& b.wf()
            &&& b.with_consumer == a.with_consumer
            &&& !gave_up(a.doing)
            &&& stage(a.doing) <= stage(b.doing)
            &&& stage(a.doing) == stage(b.doing) ==> is_loop(stage(a.doing))
            &&& !gave_up(b.doing) ==> stage(b.doing) <= stage(a.doing) + 1 || (stage(a.doing) == 7
                && stage(b.doing) == 12 && !a.with_consumer)
        },
{
}

/// Every state that an attempt comes to is well formed, its requests with the
/// values that they are to be made with, and keeps to whether there is a
/// competing reader.
pub proof fn law_attempts_stay_well_formed(with_consumer: bool, replies: Seq<AttemptReply>)
    ensures
        AttemptState::start(with_consumer).run(replies) matches Some(a) ==> a.wf() && a.with_consumer
            == with_consumer,
    decreases replies.len(),
{
    if replies.len() > 0 {
        law_attempts_stay_well_formed(with_consumer, replies.drop_last());
        if let Some(a) = AttemptState::start(with_consumer).run(replies.drop_last()) {
            lemma_step(a, replies.last());
        }
    }
}

/// An attempt goes forward only, and repeats no stage but the two that wait.
pub proof fn law_stages_come_in_order(
    with_consumer: bool,
    replies: Seq<AttemptReply>,
    i: int,
    j: int,
)
    requires
        0 <= i < j <= replies.len(),
        AttemptState::start(with_consumer).run(replies.take(j)) is Some,
    ensures
        AttemptState::start(with_consumer).run(replies.take(i)) matches Some(a)
            && AttemptState::start(with_consumer).run(replies.take(j)) matches Some(b) && stage(a.doing)
            <= stage(b.doing) && (stage(a.doing) == stage(b.doing) ==> is_loop(stage(a.doing))),
    decreases j - i,
{
    let begin = AttemptState::start(with_consumer);
    let m = j - 1;
    assert(replies.take(j).drop_last() =~= replies.take(m));
    assert(replies.take(j).last() == replies[m]);
    let b = begin.run(replies.take(m))->0;
    law_attempts_stay_well_formed(with_consumer, replies.take(m));
    lemma_step(b, replies[m]);
    if i < m {
        law_stages_come_in_order(with_consumer, replies, i, m);
    }
}

/// An attempt skips no stage: whatever stage it has come to, it was at each
/// earlier one before, but for those of the competing reader in a control run.
pub proof fn law_no_stage_is_skipped(
    with_consumer: bool,
    replies: Seq<AttemptReply>,
    at: int,
)
    requires
        AttemptState::start(with_consumer).run(replies) matches Some(a) && !gave_up(a.doing) && 0 <= at
            <= stage(a.doing),
        has_stage(with_consumer, at),
    ensures
        exists|k: int| was_at(with_consumer, replies, k, at),
    decreases replies.len(),
{
    reveal(was_at);
    let begin = AttemptState::start(with_consumer);
    let n = replies.len() as int;
    assert(replies.take(n) =~= replies);
    let a = begin.run(replies)->0;
    if stage(a.doing) == at {
        assert(was_at(with_consumer, replies, n, at));
    } else {
        let shorter = replies.drop_last();
        let b = begin.run(shorter)->0;
        law_attempts_stay_well_formed(with_consumer, shorter);
        lemma_step(b, replies.last());
        law_no_stage_is_skipped(with_consumer, shorter, at);
        let k = choose|k: int| was_at(with_consumer, shorter, k, at);
        assert(replies.take(k) =~= shorter.take(k));
        assert(was_at(with_consumer, replies, k, at));
    }
}

/// An earlier stage is reached earlier.
proof fn lemma_apart(
    with_consumer: bool,
    replies: Seq<AttemptReply>,
    i: int,
    low: int,
    j: int,
    high: int,
)
    requires
        was_at(with_consumer, replies, i, low),
        was_at(with_consumer, replies, j, high),
        low < high,
    ensures
        i < j,
{
    reveal(was_at);
    if j < i {
        law_stages_come_in_order(with_consumer, replies, j, i);
    }
}

/// The action that an attempt was at when it had got the first `k` answers.
pub open spec fn action_at(
    with_consumer: bool,
    replies: Seq<AttemptReply>,
    k: int,
) -> AttemptAction {
    AttemptState::start(with_consumer).run(replies.take(k))->0.doing
}

/// When an attempt was at a stage that it has left behind.
proof fn lemma_passed(with_consumer: bool, replies: Seq<AttemptReply>, at: int) -> (k: int)
    requires
        AttemptState::start(with_consumer).run(replies) matches Some(a) && !gave_up(a.doing) && 0 <= at
            < stage(a.doing),
        has_stage(with_consumer, at),
    ensures
        was_at(with_consumer, replies, k, at),
        0 <= k < replies.len(),
        stage(action_at(with_consumer, replies, k)) == at,
{
    reveal(was_at);
    let n = replies.len() as int;
    assert(replies.take(n) =~= replies);
    law_no_stage_is_skipped(with_consumer, replies, at);
    let k = choose|k: int| was_at(with_consumer, replies, k, at);
    let end = stage(AttemptState::start(with_consumer).run(replies)->0.doing);
    assert(was_at(with_consumer, replies, n, end));
    lemma_apart(with_consumer, replies, k, at, n, end);
    k
}

/// Whether an attempt turned packet mode on, started the watchdog, queued the
/// read and discarded the input, in this order, at the given times.
pub open spec fn prepared_at(
    with_consumer: bool,
    replies: Seq<AttemptReply>,
    mode: int,
    watch: int,
    queue: int,
    flush: int,
) -> bool {
    &&& 0 <= mode < watch < queue < flush < replies.len()
    &&& action_at(with_consumer, replies, mode) is EnablePacketMode
    &&& action_at(with_consumer, replies, watch) is StartWatchdog
    &&& action_at(with_consumer, replies, queue) is QueueRead
    &&& action_at(with_consumer, replies, flush) is FlushSlave
}

/// When the read is submitted, packet mode has been turned on, the watchdog
/// started, the read queued and the input discarded, in this order.
pub proof fn law_the_terminal_is_prepared(with_consumer: bool, replies: Seq<AttemptReply>)
    requires
        AttemptState::start(with_consumer).run(replies) matches Some(a) && a.doing is Enter,
    ensures
        exists|mode: int, watch: int, queue: int, flush: int|
            prepared_at(with_consumer, replies, mode, watch, queue, flush),
{
    let mode = lemma_passed(with_consumer, replies, 4);
    let watch = lemma_passed(with_consumer, replies, 13);
    let queue = lemma_passed(with_consumer, replies, 14);
    let flush = lemma_passed(with_consumer, replies, 15);
    lemma_apart(with_consumer, replies, mode, 4, watch, 13);
    lemma_apart(with_consumer, replies, watch, 13, queue, 14);
    lemma_apart(with_consumer, replies, queue, 14, flush, 15);
    assert(prepared_at(with_consumer, replies, mode, watch, queue, flush));
}

/// Whether an attempt pinned its thread, started the competing reader and gave
/// it time to fall asleep, in this order, at the given times.
pub open spec fn competed_at(replies: Seq<AttemptReply>, pin: int, spawn: int, settle: int) -> bool {
    &&& 0 <= pin < spawn < settle < replies.len()
    &&& action_at(true, replies, pin) is PinCpu
    &&& action_at(true, replies, spawn) is SpawnConsumer
    &&& action_at(true, replies, settle) is Settle
}

/// With a competing reader the watchdog, and all that follows it, begins only
/// when this thread was pinned, that reader started and given time to fall
/// asleep.
pub proof fn law_the_reader_sleeps_first(replies: Seq<AttemptReply>)
    requires
        AttemptState::start(true).run(replies) matches Some(a) && a.doing is StartWatchdog,
    ensures
        exists|pin: int, spawn: int, settle: int| competed_at(replies, pin, spawn, settle),
{
    let pin = lemma_passed(true, replies, 8);
    let spawn = lemma_passed(true, replies, 9);
    let settle = lemma_passed(true, replies, 11);
    lemma_apart(true, replies, pin, 8, spawn, 9);
    lemma_apart(true, replies, spawn, 9, settle, 11);
    assert(competed_at(replies, pin, spawn, settle));
}

/// A control run pins nothing and starts no competing reader, and its watchdog knows of none.
pub proof fn law_a_control_run_has_no_reader(replies: Seq<AttemptReply>)
    ensures
        AttemptState::start(false).run(replies) matches Some(a) ==> {
            &&& !(a.doing is PinCpu) && !(a.doing is SpawnConsumer) && !(a.doing is ShowConsumer)
            &&& a.doing matches AttemptAction::StartWatchdog { consumer_tid } ==> consumer_tid == 0
        },
{
    law_attempts_stay_well_formed(false, replies);
}

impl AttemptState {
    /// An upper bound for the number of steps that are left once the competing
    /// reader is known.
    pub open spec fn steps_left(self) -> int {
        match self.doing {
            AttemptAction::PeekCompletion => 2 * self.looks_left + 1,
            AttemptAction::ShowCompletion { .. } => 2 * self.looks_left + 2,
            AttemptAction::WaitForCompletion { .. } => 2 * self.looks_left + 2,
            AttemptAction::Finish { .. } => 0,
            AttemptAction::Abort { .. } => 0,
            AttemptAction::Exit { .. } => 0,
            _ => 2 * LOOKS_AFTER_HANG + 25 - stage(self.doing),
        }
    }
}

/// Every answer that belongs to its action brings an attempt nearer to its end,
/// but for the wait for the competing reader, which has no bound.
pub proof fn law_an_attempt_ends(a: AttemptState, reply: AttemptReply)
    requires
        a.wf(),
        !(a.doing is PollTid) && !(a.doing is WaitForTid),
    ensures
        a.next(reply) matches Some(b) ==> 0 <= b.steps_left() < a.steps_left(),
{
}

/// What an attempt ends with is what the watchdog's flag was after submitting.
pub proof fn law_an_attempt_tells_whether_it_hung(
    a: AttemptState,
    was_hung: bool,
    replies: Seq<AttemptReply>,
)
    requires
        a.doing is ReadHung,
    ensures
        a.run(seq![AttemptReply::Hung(was_hung)] + replies) matches Some(b) ==> {
            &&& b.was_hung == was_hung
            &&& b.doing matches AttemptAction::Finish { was_hung: told } ==> told == was_hung
            &&& stage(b.doing) > stage(a.doing)
        },
    decreases replies.len(),
{
    let hung = seq![AttemptReply::Hung(was_hung)];
    let all = hung + replies;
    if replies.len() == 0 {
        assert(all =~= hung);
        assert(hung.drop_last() =~= Seq::<AttemptReply>::empty());
    } else {
        law_an_attempt_tells_whether_it_hung(a, was_hung, replies.drop_last());
        assert(all.drop_last() =~= hung + replies.drop_last());
    }
}

/// Two completions are all that an attempt collects.
pub proof fn law_two_completions_end_an_attempt(a: AttemptState, first: Cqe, second: Cqe)
    requires
        a.doing is PeekCompletion,
        a.seen == 0,
        a.looks_left >= 2,
    ensures
        a.run(
            seq![
                AttemptReply::Completion(Some(first)),
                AttemptReply::Ack,
                AttemptReply::Completion(Some(second)),
                AttemptReply::Ack,
            ],
        ) matches Some(b) && b.doing == (AttemptAction::Finish { was_hung: a.was_hung }) && b.seen
            == EXPECTED,
{
    let none = Seq::<AttemptReply>::empty();
    let one = none.push(AttemptReply::Completion(Some(first)));
    let two = one.push(AttemptReply::Ack);
    let three = two.push(AttemptReply::Completion(Some(second)));
    crate::machine::lemma_run_push(a, none, AttemptReply::Completion(Some(first)));
    crate::machine::lemma_run_push(a, one, AttemptReply::Ack);
    crate::machine::lemma_run_push(a, two, AttemptReply::Completion(Some(second)));
    crate::machine::lemma_run_push(a, three, AttemptReply::Ack);
    assert(three.push(AttemptReply::Ack) =~= seq![
        AttemptReply::Completion(Some(first)),
        AttemptReply::Ack,
        AttemptReply::Completion(Some(second)),
        AttemptReply::Ack,
    ]);
}

/// The answers of `n` looks that found no completion, each with its sleep.
pub open spec fn empty_looks(n: nat) -> Seq<AttemptReply> {
    Seq::new(
        2 * n,
        |i: int|
            if i % 2 == 0 {
                AttemptReply::Completion(None)
            } else {
                AttemptReply::Ack
            },
    )
}

/// Where no completion comes, an attempt looks as often as it may and no
/// oftener: two hundred times after a hang, else ten times.
pub proof fn law_silence_ends_an_attempt(a: AttemptState, n: nat)
    requires
        a.doing is PeekCompletion,
        a.seen < EXPECTED,
        n <= a.looks_left,
    ensures
        a.run(empty_looks(n)) matches Some(b) && b.looks_left == a.looks_left - n && b.seen
            == a.seen && b.doing == (if n == a.looks_left && n > 0 {
            AttemptAction::Finish { was_hung: a.was_hung }
        } else {
            AttemptAction::PeekCompletion
        }) && b.was_hung == a.was_hung,
    decreases n,
{
    if n == 0 {
        assert(empty_looks(n) =~= Seq::<AttemptReply>::empty());
    } else {
        let m = (n - 1) as nat;
        law_silence_ends_an_attempt(a, m);
        let before = empty_looks(m);
        let looked = before.push(AttemptReply::Completion(None));
        crate::machine::lemma_run_push(a, before, AttemptReply::Completion(None));
        crate::machine::lemma_run_push(a, looked, AttemptReply::Ack);
        assert(looked.push(AttemptReply::Ack) =~= empty_looks(n));
    }
}

/// How many of some answers are answers to a look for a completion.
pub open spec fn looks_in(replies: Seq<AttemptReply>) -> nat
    decreases replies.len(),
{
    if replies.len() == 0 {
        0
    } else {
        looks_in(replies.drop_last()) + (if replies.last() is Completion {
            1nat
        } else {
            0nat
        })
    }
}

/// How many of some answers hold a completion.
pub open spec fn completions_in(replies: Seq<AttemptReply>) -> nat
    decreases replies.len(),
{
    if replies.len() == 0 {
        0
    } else {
        completions_in(replies.drop_last()) + (match replies.last() {
            AttemptReply::Completion(Some(_)) => 1nat,
            _ => 0nat,
        })
    }
}

/// However completions come in, an attempt looks for them at most two hundred
/// times after a hang and ten times otherwise, takes at most two, and ends when
/// it has taken two or has no look left.
pub proof fn law_collecting_is_bounded(a: AttemptState, replies: Seq<AttemptReply>)
    requires
        a.wf(),
        a.doing is ShowEnter,
    ensures
        a.run(replies) matches Some(b) ==> {
            &&& looks_in(replies) <= looks(a.was_hung)
            &&& completions_in(replies) <= EXPECTED
            &&& b.doing is Finish ==> completions_in(replies) == EXPECTED || looks_in(replies)
                == looks(a.was_hung)
        },
{
    lemma_looks_are_counted(a, replies);
}

proof fn lemma_looks_are_counted(a: AttemptState, replies: Seq<AttemptReply>)
    requires
        a.wf(),
        a.doing is ShowEnter,
    ensures
        a.run(replies) matches Some(b) ==> {
            &&& b.wf()
            &&& stage(b.doing) == 20 || stage(b.doing) == 21 || stage(b.doing) == 22
            &&& b.looks_left + looks_in(replies) == looks(a.was_hung)
            &&& b.seen == completions_in(replies)
            &&& b.doing is Finish ==> b.seen == EXPECTED || b.looks_left == 0
        },
    decreases replies.len(),
{
    if replies.len() > 0 {
        lemma_looks_are_counted(a, replies.drop_last());
        if let Some(b) = a.run(replies.drop_last()) {
            lemma_step(b, replies.last());
        }
    }
}

/// A request to the terminal that fails, opening either side among them, ends
/// an attempt at once, and no other answer does; what ends it tells of that
/// request and its result.
pub proof fn law_a_failed_request_ends_an_attempt(a: AttemptState, reply: AttemptReply)
    requires
        a.next(reply) is Some,
    ensures
        a.next(reply)->0.doing is Abort <==> match (a.doing, reply) {
            (AttemptAction::OpenMaster, AttemptReply::Value(result)) => result != 0,
            (AttemptAction::UnlockSlave { .. }, AttemptReply::Value(result)) => result != 0,
            (AttemptAction::AskNumber, AttemptReply::Number { result, .. }) => result != 0,
            (AttemptAction::OpenSlave { .. }, AttemptReply::Value(result)) => result != 0,
            (AttemptAction::EnablePacketMode { .. }, AttemptReply::Value(result)) => result != 0,
            _ => false,
        },
        a.next(reply)->0.doing matches AttemptAction::Abort { request, result } ==> {
            &&& request == (match a.doing {
                AttemptAction::OpenMaster => PtyRequest::OpenMaster,
                AttemptAction::UnlockSlave { .. } => PtyRequest::Unlock,
                AttemptAction::AskNumber => PtyRequest::Number,
                AttemptAction::OpenSlave { .. } => PtyRequest::OpenSlave,
                _ => PtyRequest::PacketMode,
            })
            &&& match reply {
                AttemptReply::Value(value) => result == value,
                AttemptReply::Number { result: value, .. } => result == value,
                _ => false,
            }
        },
{
}

/// Where there is no ring the program ends with code one, and it is ended by
/// no other answer.
pub proof fn law_without_a_ring_the_program_ends(a: AttemptState, reply: AttemptReply)
    requires
        a.next(reply) is Some,
    ensures
        a.next(reply)->0.doing is Exit <==> a.doing is SetUpRing && reply == AttemptReply::Ready(
            false,
        ),
        a.next(reply)->0.doing matches AttemptAction::Exit { code } ==> code == 1,
{
}

/// Nothing follows the end of an attempt, of whichever kind: no answer leads on.
pub proof fn law_the_end_of_an_attempt_is_final(
    a: AttemptState,
    before: Seq<AttemptReply>,
    after: Seq<AttemptReply>,
)
    requires
        a.run(before) matches Some(b) && (gave_up(b.doing) || b.doing is Finish),
        after.len() > 0,
    ensures
        a.run(before + after) is None,
    decreases after.len(),
{
    assert((before + after).drop_last() =~= before + after.drop_last());
    if after.len() > 1 {
        law_the_end_of_an_attempt_is_final(a, before, after.drop_last());
    } else {
        assert(before + after.drop_last() =~= before);
    }
}

/// An attempt begins with opening the master side, knows no competing reader yet,
/// and keeps in mind whether there is to be one.
pub proof fn law_an_attempt_begins_with_the_master_side(with_consumer: bool)
    ensures
        AttemptState::start(with_consumer).doing == AttemptAction::OpenMaster,
        AttemptState::start(with_consumer).with_consumer == with_consumer,
        AttemptState::start(with_consumer).consumer_tid == 0,
{
}

/// The slave side that is opened is the one whose number the terminal told,
/// whatever that number is.
pub proof fn law_the_slave_side_is_the_one_that_was_told(a: AttemptState, number: i32)
    requires
        a.doing is AskNumber,
    ensures
        a.next(AttemptReply::Number { result: 0, number }) == Some(
            AttemptState { doing: AttemptAction::OpenSlave { number }, ..a },
        ),
{
}

/// The terminal is prepared request by request: each that goes well leads to the
/// next one, with the lock off and packet mode on, and then to the status flags.
pub proof fn law_requests_lead_on(a: AttemptState)
    ensures
        a.doing is OpenMaster ==> a.next(AttemptReply::Value(0)) == Some(
            AttemptState { doing: AttemptAction::UnlockSlave { lock: 0 }, ..a },
        ),
        a.doing is UnlockSlave ==> a.next(AttemptReply::Value(0)) == Some(
            AttemptState { doing: AttemptAction::AskNumber, ..a },
        ),
        a.doing is OpenSlave ==> a.next(AttemptReply::Value(0)) == Some(
            AttemptState { doing: AttemptAction::EnablePacketMode { mode: 1 }, ..a },
        ),
        a.doing is EnablePacketMode ==> a.next(AttemptReply::Value(0)) == Some(
            AttemptState { doing: AttemptAction::ReadFlags, ..a },
        ),
{
}

/// A request that fails is told with the very result it failed with, and nothing
/// else of the attempt changes.
pub proof fn law_a_failure_is_told_as_it_came(a: AttemptState, result: i32, number: i32)
    requires
        result != 0,
    ensures
        a.doing is OpenMaster ==> a.next(AttemptReply::Value(result)) == Some(
            AttemptState {
                doing: AttemptAction::Abort { request: PtyRequest::OpenMaster, result },
                ..a
            },
        ),
        a.doing is UnlockSlave ==> a.next(AttemptReply::Value(result)) == Some(
            AttemptState {
                doing: AttemptAction::Abort { request: PtyRequest::Unlock, result },
                ..a
            },
        ),
        a.doing is AskNumber ==> a.next(AttemptReply::Number { result, number }) == Some(
            AttemptState {
                doing: AttemptAction::Abort { request: PtyRequest::Number, result },
                ..a
            },
        ),
        a.doing is OpenSlave ==> a.next(AttemptReply::Value(result)) == Some(
            AttemptState {
                doing: AttemptAction::Abort { request: PtyRequest::OpenSlave, result },
                ..a
            },
        ),
        a.doing is EnablePacketMode ==> a.next(AttemptReply::Value(result)) == Some(
            AttemptState {
                doing: AttemptAction::Abort { request: PtyRequest::PacketMode, result },
                ..a
            },
        ),
{
}

/// The status flags are shown as they were loaded, and then the ring is set up;
/// with a ring, the competing reader comes next where there is to be one, and
/// else that there is none is told.
pub proof fn law_flags_are_shown_as_loaded(a: AttemptState, flags: i32)
    ensures
        a.doing is ReadFlags ==> a.next(AttemptReply::Value(flags)) == Some(
            AttemptState { doing: AttemptAction::ShowFlags { flags }, ..a },
        ),
        a.doing is ShowFlags ==> a.next(AttemptReply::Ack) == Some(
            AttemptState { doing: AttemptAction::SetUpRing, ..a },
        ),
        a.doing is SetUpRing ==> a.next(AttemptReply::Ready(true)) == Some(
            AttemptState {
                doing: if a.with_consumer {
                    AttemptAction::PinCpu
                } else {
                    AttemptAction::ShowControl
                },
                ..a
            },
        ),
        a.doing is SetUpRing ==> a.next(AttemptReply::Ready(false)) == Some(
            AttemptState { doing: AttemptAction::Exit { code: 1 }, ..a },
        ),
{
}

/// The competing reader is started on a pinned thread, with the lowest priority,
/// and is looked for every millisecond until it has a number.
pub proof fn law_the_reader_is_looked_for(a: AttemptState)
    ensures
        a.doing is PinCpu ==> a.next(AttemptReply::Ack) == Some(
            AttemptState { doing: AttemptAction::SpawnConsumer { niceness: 19 }, ..a },
        ),
        a.doing is SpawnConsumer ==> a.next(AttemptReply::Ack) == Some(
            AttemptState { doing: AttemptAction::PollTid, ..a },
        ),
        a.doing is PollTid ==> a.next(AttemptReply::Value(0)) == Some(
            AttemptState { doing: AttemptAction::WaitForTid { millis: 1 }, ..a },
        ),
        a.doing is WaitForTid ==> a.next(AttemptReply::Ack) == Some(
            AttemptState { doing: AttemptAction::PollTid, ..a },
        ),
{
}

/// The thread that is told of, and that the watchdog is given, is the very one
/// that was found, whatever its number; it is given three tenths of a second to
/// fall asleep in between.
pub proof fn law_the_reader_that_was_found_is_told_of(a: AttemptState, tid: i32)
    requires
        a.doing is PollTid,
        tid != 0,
    ensures
        a.next(AttemptReply::Value(tid)) matches Some(b) && {
            &&& b == (AttemptState {
                consumer_tid: tid,
                doing: AttemptAction::Settle { millis: 300 },
                ..a
            })
            &&& b.next(AttemptReply::Ack) matches Some(c) && {
                &&& c == (AttemptState { doing: AttemptAction::ShowConsumer { tid }, ..b })
                &&& c.next(AttemptReply::Ack) == Some(
                    AttemptState { doing: AttemptAction::StartWatchdog { consumer_tid: tid }, ..c },
                )
            }
        },
{
}

/// In a control run the watchdog is given no thread at all.
pub proof fn law_a_control_run_watches_no_reader(a: AttemptState)
    requires
        a.wf(),
        a.doing is ShowControl,
    ensures
        a.next(AttemptReply::Ack) == Some(
            AttemptState { doing: AttemptAction::StartWatchdog { consumer_tid: 0 }, ..a },
        ),
{
}

/// Behind the watchdog one byte is queued to be read within a tenth of a second,
/// the unread input of the slave side is discarded, what came of that is shown
/// as it came, and two entries are submitted.
pub proof fn law_the_read_is_queued_and_submitted(a: AttemptState, result: i32)
    ensures
        a.doing is StartWatchdog ==> a.next(AttemptReply::Ack) == Some(
            AttemptState {
                doing: AttemptAction::QueueRead {
                    len: 1,
                    timeout: Timespec { tv_sec: 0, tv_nsec: 100_000_000 },
                },
                ..a
            },
        ),
        a.doing is QueueRead ==> a.next(AttemptReply::Ack) == Some(
            AttemptState { doing: AttemptAction::FlushSlave { queue: 0 }, ..a },
        ),
        a.doing is FlushSlave ==> a.next(AttemptReply::Value(result)) == Some(
            AttemptState { doing: AttemptAction::ShowFlush { result }, ..a },
        ),
        a.doing is ShowFlush ==> a.next(AttemptReply::Ack) == Some(
            AttemptState { doing: AttemptAction::Enter { to_submit: 2 }, ..a },
        ),
{
}

/// What submitting returned is shown as it came, together with whether it was
/// called hung, and after a hang completions are looked for two hundred times,
/// else ten times.
pub proof fn law_the_result_of_submitting_is_told_as_it_came(
    a: AttemptState,
    result: i32,
    was_hung: bool,
)
    requires
        a.doing is Enter,
    ensures
        a.next(AttemptReply::Value(result)) matches Some(b) && {
            &&& b == (AttemptState { result, doing: AttemptAction::MarkDone, ..a })
            &&& b.next(AttemptReply::Ack) matches Some(c) && {
                &&& c == (AttemptState { doing: AttemptAction::ReadHung, ..b })
                &&& c.next(AttemptReply::Hung(was_hung)) == Some(
                    AttemptState {
                        was_hung,
                        looks_left: if was_hung {
                            200
                        } else {
                            10
                        },
                        seen: 0,
                        doing: AttemptAction::ShowEnter { result, was_hung },
                        ..c
                    },
                )
            }
        },
{
}

/// Each completion that is shown is the one that was taken, field for field, and
/// counts as one more and as one look less.
pub proof fn law_completions_are_shown_as_taken(a: AttemptState, cqe: Cqe)
    requires
        a.doing is PeekCompletion,
        a.looks_left > 0,
        a.seen < 2,
    ensures
        a.next(AttemptReply::Completion(Some(cqe))) matches Some(b) && {
            &&& b.doing matches AttemptAction::ShowCompletion { cqe: shown } && {
                &&& shown.user_data == cqe.user_data
                &&& shown.res == cqe.res
                &&& shown.flags == cqe.flags
            }
            &&& b.seen == a.seen + 1
            &&& b.looks_left == a.looks_left - 1
            &&& b == (AttemptState {
                seen: b.seen,
                looks_left: b.looks_left,
                doing: AttemptAction::ShowCompletion { cqe },
                ..a
            })
        },
{
}

/// A completion is shown as it was taken from any state that looks for one, also
/// from one that no attempt comes to.
pub proof fn law_no_completion_is_altered(a: AttemptState, cqe: Cqe)
    requires
        a.doing is PeekCompletion,
    ensures
        a.next(AttemptReply::Completion(Some(cqe))) matches Some(b) && b.doing
            == (AttemptAction::ShowCompletion { cqe }),
{
}

/// Where no completion waits that costs a look and five milliseconds, and no
/// completion is counted.
pub proof fn law_an_empty_look_counts_no_completion(a: AttemptState)
    requires
        a.doing is PeekCompletion,
        a.looks_left > 0,
    ensures
        a.next(AttemptReply::Completion(None)) matches Some(b) && {
            &&& b.looks_left == a.looks_left - 1
            &&& b == (AttemptState {
                looks_left: b.looks_left,
                doing: AttemptAction::WaitForCompletion { millis: 5 },
                ..a
            })
        },
{
}

/// Whether another look follows is settled by what is left alone: one follows
/// where a look is left and fewer than two completions were taken, and else the
/// attempt ends with what it knows of the hang.
pub proof fn law_looking_goes_on_while_it_may(a: AttemptState)
    requires
        a.doing is ShowEnter || a.doing is ShowCompletion || a.doing is WaitForCompletion,
    ensures
        a.looks_left > 0 && a.seen < 2 ==> a.next(AttemptReply::Ack) == Some(
            AttemptState { doing: AttemptAction::PeekCompletion, ..a },
        ),
        a.looks_left == 0 || a.seen >= 2 ==> a.next(AttemptReply::Ack) == Some(
            AttemptState { doing: AttemptAction::Finish { was_hung: a.was_hung }, ..a },
        ),
{
}

/// An answer leads on if and only if it is of the kind that the action asks for,
/// whatever it holds.
pub proof fn law_an_attempt_takes_fitting_answers_only(a: AttemptState, reply: AttemptReply)
    ensures
        a.next(reply) is Some <==> match a.doing {
            AttemptAction::AskNumber => reply is Number,
            AttemptAction::SetUpRing => reply is Ready,
            AttemptAction::ReadHung => reply is Hung,
            AttemptAction::PeekCompletion => reply is Completion,
            AttemptAction::OpenMaster
            | AttemptAction::UnlockSlave { .. }
            | AttemptAction::OpenSlave { .. }
            | AttemptAction::EnablePacketMode { .. }
            | AttemptAction::ReadFlags
            | AttemptAction::PollTid
            | AttemptAction::FlushSlave { .. }
            | AttemptAction::Enter { .. } => reply is Value,
            AttemptAction::Finish { .. }
            | AttemptAction::Abort { .. }
            | AttemptAction::Exit { .. } => false,
            _ => reply is Ack,
        },
{
}

} // verus!
