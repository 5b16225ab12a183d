//! The run of the whole program: which attempts are made, and what it ends
//! with.
//!
//! The program asks for an action, performs it, and hands back what came of it.
use vstd::prelude::*;
use crate::machine::Machine;
use crate::cli::Config;

verus! {

/// How long the program waits before it leaves with a success.
pub const SETTLE_MILLIS: u64 = 300;

/// What is to be done.
#[derive(Clone, Copy, Debug, PartialEq, Eq, Structural)]
pub enum CampaignAction {
    /// Make an attempt; answered by whether it hung.
    Run { attempt: u32, with_consumer: bool },
    /// Print that an attempt reproduced the hang.
    ShowTriggered { attempt: u32 },
    /// Sleep.
    Settle { millis: u64 },
    /// Print that no attempt hung.
    ShowNoHang { attempts: u32 },
    /// Leave with an exit code.
    Exit { code: i32 },
    /// Return from `main`.
    Return,
}

/// What came of an action.
#[derive(Clone, Copy, Debug, PartialEq, Eq, Structural)]
pub enum CampaignReply {
    /// It is done.
    Ack,
    /// The attempt is over; did it hang?
    Hung(bool),
}

/// The state of the program's run.
#[derive(Clone, Copy, Debug, PartialEq, Eq, Structural)]
pub struct Campaign {
    pub config: Config,
    /// The action that is to be done now.
    pub doing: CampaignAction,
}

impl Campaign {
    /// The state that a run begins in.
    pub open spec fn start(config: Config) -> Campaign {
        let doing = if config.control {
            CampaignAction::Run { attempt: 0, with_consumer: false }
        } else if config.attempts == 0 {
            CampaignAction::ShowNoHang { attempts: 0 }
        } else {
            CampaignAction::Run { attempt: 1, with_consumer: true }
        };
        Campaign { config, doing }
    }

    /// The state behind some answers, given in order.
    pub open spec fn run(self, replies: Seq<CampaignReply>) -> Option<Campaign> {
        crate::machine::run(self, replies)
    }

    /// Begins a run.
    pub fn new(config: Config) -> (r: Campaign)
        ensures
            r == Campaign::start(config),
    {
        let doing = if config.control {
            CampaignAction::Run { attempt: 0, with_consumer: false }
        } else if config.attempts == 0 {
            CampaignAction::ShowNoHang { attempts: 0 }
        } else {
            CampaignAction::Run { attempt: 1, with_consumer: true }
        };
        Campaign { config, doing }
    }

    /// Takes the answer to the present action and gives the next one. An answer
    /// that does not belong to the action changes nothing.
    pub fn step(&mut self, reply: CampaignReply) -> (r: Option<CampaignAction>)
        ensures
            match old(self).next(reply) {
                Some(c) => *final(self) == c && r == Some(c.doing),
                None => *final(self) == *old(self) && r is None,
            },
    {
        let doing = match (self.doing, reply) {
            (CampaignAction::Run { attempt, with_consumer }, CampaignReply::Hung(hung)) => {
                if !with_consumer {
                    CampaignAction::Return
                } else if hung {
                    CampaignAction::ShowTriggered { attempt }
                } else if attempt < self.config.attempts {
                    CampaignAction::Run { attempt: attempt + 1, with_consumer: true }
                } else {
                    CampaignAction::ShowNoHang { attempts: self.config.attempts }
                }
            },
            (CampaignAction::ShowTriggered { .. }, CampaignReply::Ack) => CampaignAction::Settle {
                millis: SETTLE_MILLIS,
            },
            (CampaignAction::Settle { .. }, CampaignReply::Ack) => CampaignAction::Exit { code: 0 },
            (CampaignAction::ShowNoHang { .. }, CampaignReply::Ack) => CampaignAction::Exit {
                code: 1,
            },
            _ => return None,
        };
        self.doing = doing;
        Some(doing)
    }
}

impl Machine for Campaign {
    type Reply = CampaignReply;

    /// The state behind an answer, or nothing where the answer does not belong
    /// to the action.
    open spec fn next(self, reply: CampaignReply) -> Option<Campaign> {
        let doing = match (self.doing, reply) {
            (
                CampaignAction::Run { attempt, with_consumer },
                CampaignReply::Hung(hung),
            ) => if !with_consumer {
                Some(CampaignAction::Return)
            } else if hung {
                Some(CampaignAction::ShowTriggered { attempt })
            } else if attempt < self.config.attempts {
                Some(CampaignAction::Run { attempt: (attempt + 1) as u32, with_consumer: true })
            } else {
                Some(CampaignAction::ShowNoHang { attempts: self.config.attempts })
            },
            (CampaignAction::ShowTriggered { .. }, CampaignReply::Ack) => Some(
                CampaignAction::Settle { millis: SETTLE_MILLIS },
            ),
            (CampaignAction::Settle { .. }, CampaignReply::Ack) => Some(
                CampaignAction::Exit { code: 0 },
            ),
            (CampaignAction::ShowNoHang { .. }, CampaignReply::Ack) => Some(
                CampaignAction::Exit { code: 1 },
            ),
            _ => None,
        };
        match doing {
            Some(doing) => Some(Campaign { doing, ..self }),
            None => None,
        }
    }
}

/// The answers of `n` attempts that did not hang.
pub open spec fn quiet_attempts(n: nat) -> Seq<CampaignReply> {
    Seq::new(n, |i: int| CampaignReply::Hung(false))
}

/// A control run makes attempt zero, without a competing reader, and then
/// returns, whether that attempt hung or not.
pub proof fn law_a_control_run_is_one_attempt(config: Config, hung: bool)
    requires
        config.control,
    ensures
        Campaign::start(config).doing == (CampaignAction::Run { attempt: 0, with_consumer: false }),
        Campaign::start(config).run(seq![CampaignReply::Hung(hung)]) matches Some(c) && c.doing
            == CampaignAction::Return,
{
    let begin = Campaign::start(config);
    crate::machine::lemma_run_push(begin, Seq::empty(), CampaignReply::Hung(hung));
    assert(Seq::empty().push(CampaignReply::Hung(hung)) =~= seq![CampaignReply::Hung(hung)]);
}

/// As long as no attempt hangs the attempts are made one by one, numbered from
/// one, each with a competing reader.
pub proof fn law_attempts_are_made_in_order(config: Config, k: nat)
    requires
        !config.control,
        k < config.attempts,
    ensures
        Campaign::start(config).run(quiet_attempts(k)) == Some(
            Campaign {
                config,
                doing: CampaignAction::Run { attempt: (k + 1) as u32, with_consumer: true },
            },
        ),
    decreases k,
{
    let begin = Campaign::start(config);
    if k > 0 {
        let m = (k - 1) as nat;
        law_attempts_are_made_in_order(config, m);
        crate::machine::lemma_run_push(begin, quiet_attempts(m), CampaignReply::Hung(false));
        assert(quiet_attempts(m).push(CampaignReply::Hung(false)) =~= quiet_attempts(k));
    }
}

/// The first attempt that hangs is reported, no further one is made, and the
/// program leaves with code zero.
pub proof fn law_the_first_hang_is_a_success(config: Config, k: nat)
    requires
        !config.control,
        k < config.attempts,
    ensures
        ({
            let hung = quiet_attempts(k).push(CampaignReply::Hung(true));
            let begin = Campaign::start(config);
            &&& begin.run(hung) matches Some(c) && c.doing == (CampaignAction::ShowTriggered {
                attempt: (k + 1) as u32,
            })
            &&& begin.run(hung.push(CampaignReply::Ack)) matches Some(c) && c.doing
                == (CampaignAction::Settle { millis: SETTLE_MILLIS })
            &&& begin.run(hung.push(CampaignReply::Ack).push(CampaignReply::Ack)) matches Some(c)
                && c.doing == (CampaignAction::Exit { code: 0 })
        }),
{
    let begin = Campaign::start(config);
    let hung = quiet_attempts(k).push(CampaignReply::Hung(true));
    law_attempts_are_made_in_order(config, k);
    crate::machine::lemma_run_push(begin, quiet_attempts(k), CampaignReply::Hung(true));
    crate::machine::lemma_run_push(begin, hung, CampaignReply::Ack);
    crate::machine::lemma_run_push(begin, hung.push(CampaignReply::Ack), CampaignReply::Ack);
}

/// Where none of the attempts hangs, that is reported with their number, and
/// the program leaves with code one.
pub proof fn law_no_hang_is_a_failure(config: Config)
    requires
        !config.control,
    ensures
        ({
            let quiet = quiet_attempts(config.attempts as nat);
            let begin = Campaign::start(config);
            &&& begin.run(quiet) matches Some(c) && c.doing == (CampaignAction::ShowNoHang {
                attempts: config.attempts,
            })
            &&& begin.run(quiet.push(CampaignReply::Ack)) matches Some(c) && c.doing
                == (CampaignAction::Exit { code: 1 })
        }),
{
    let begin = Campaign::start(config);
    let quiet = quiet_attempts(config.attempts as nat);
    if config.attempts > 0 {
        let m = (config.attempts - 1) as nat;
        law_attempts_are_made_in_order(config, m);
        crate::machine::lemma_run_push(begin, quiet_attempts(m), CampaignReply::Hung(false));
        assert(quiet_attempts(m).push(CampaignReply::Hung(false)) =~= quiet);
    } else {
        assert(quiet =~= Seq::<CampaignReply>::empty());
    }
    crate::machine::lemma_run_push(begin, quiet, CampaignReply::Ack);
}

/// Whatever the attempts do, the exit code is zero if and only if one of them
/// hung, and one otherwise.
pub proof fn law_the_exit_code_tells_of_a_hang(config: Config, replies: Seq<CampaignReply>)
    requires
        !config.control,
    ensures
        Campaign::start(config).run(replies) matches Some(c) ==> {
            &&& c.doing != CampaignAction::Return
            &&& c.doing matches CampaignAction::Exit { code } ==> code == (if replies.contains(
                CampaignReply::Hung(true),
            ) {
                0i32
            } else {
                1i32
            })
        },
{
    lemma_hangs_are_remembered(config, replies);
}

/// Whether a hang has been reported, or is about to be.
spec fn knows_of_hang(c: Campaign) -> bool {
    match c.doing {
        CampaignAction::ShowTriggered { .. } => true,
        CampaignAction::Settle { .. } => true,
        CampaignAction::Exit { code } => code == 0,
        _ => false,
    }
}

proof fn lemma_hangs_are_remembered(config: Config, replies: Seq<CampaignReply>)
    requires
        !config.control,
    ensures
        Campaign::start(config).run(replies) matches Some(c) ==> {
            &&& c.config == config
            &&& knows_of_hang(c) <==> replies.contains(CampaignReply::Hung(true))
            &&& c.doing matches CampaignAction::Run { with_consumer, .. } ==> with_consumer
            &&& c.doing matches CampaignAction::Exit { code } ==> code == 0 || code == 1
            &&& c.doing != CampaignAction::Return
        },
    decreases replies.len(),
{
    if replies.len() > 0 {
        let shorter = replies.drop_last();
        lemma_hangs_are_remembered(config, shorter);
        crate::machine::lemma_contains_push(shorter, replies.last(), CampaignReply::Hung(true));
        assert(shorter.push(replies.last()) =~= replies);
    }
}

/// The program has ended: no answer leads on from leaving or returning.
pub proof fn law_the_end_is_final(c: Campaign, reply: CampaignReply)
    requires
        c.doing is Exit || c.doing is Return,
    ensures
        c.next(reply) is None,
{
}

/// What a run begins with is settled by what was asked for: a control run by its
/// one attempt, any other by attempt one, or, where none is to be made, by its
/// failure; and it keeps in mind what was asked for.
pub proof fn law_a_run_begins_as_asked(config: Config)
    ensures
        Campaign::start(config).config == config,
        Campaign::start(config).doing == (if config.control {
            CampaignAction::Run { attempt: 0, with_consumer: false }
        } else if config.attempts > 0 {
            CampaignAction::Run { attempt: 1, with_consumer: true }
        } else {
            CampaignAction::ShowNoHang { attempts: 0 }
        }),
{
}

/// The attempt that is reported is the one that hung, whatever its number; one
/// that did not hang leads to the attempt with the next number as long as there
/// is one, and behind the last to the number of all that were asked for.
pub proof fn law_an_attempt_is_reported_by_its_number(c: Campaign, attempt: u32)
    requires
        c.doing == (CampaignAction::Run { attempt, with_consumer: true }),
    ensures
        c.next(CampaignReply::Hung(true)) == Some(
            Campaign { doing: CampaignAction::ShowTriggered { attempt }, ..c },
        ),
        attempt < c.config.attempts ==> (c.next(CampaignReply::Hung(false)) matches Some(d)
            && d.config == c.config && (d.doing matches CampaignAction::Run {
            attempt: following,
            with_consumer,
        } && with_consumer && following == attempt + 1)),
        attempt >= c.config.attempts ==> c.next(CampaignReply::Hung(false)) == Some(
            Campaign { doing: CampaignAction::ShowNoHang { attempts: c.config.attempts }, ..c },
        ),
{
}

/// Without a competing reader an attempt is the only one, and how it went does
/// not matter.
pub proof fn law_without_a_reader_a_run_returns(c: Campaign, attempt: u32, hung: bool)
    requires
        c.doing == (CampaignAction::Run { attempt, with_consumer: false }),
    ensures
        c.next(CampaignReply::Hung(hung)) == Some(Campaign { doing: CampaignAction::Return, ..c }),
{
}

/// A report of a hang is followed by three tenths of a second and the code of a
/// success, and a report that there was none by the code of a failure.
pub proof fn law_a_report_ends_a_run(c: Campaign)
    ensures
        c.doing is ShowTriggered ==> c.next(CampaignReply::Ack) == Some(
            Campaign { doing: CampaignAction::Settle { millis: 300 }, ..c },
        ),
        c.doing is Settle ==> c.next(CampaignReply::Ack) == Some(
            Campaign { doing: CampaignAction::Exit { code: 0 }, ..c },
        ),
        c.doing is ShowNoHang ==> c.next(CampaignReply::Ack) == Some(
            Campaign { doing: CampaignAction::Exit { code: 1 }, ..c },
        ),
{
}

/// An answer leads on if and only if it is of the kind that the action asks for.
pub proof fn law_a_run_takes_fitting_answers_only(c: Campaign, reply: CampaignReply)
    ensures
        c.next(reply) is Some <==> match c.doing {
            CampaignAction::Run { .. } => reply is Hung,
            CampaignAction::Exit { .. } | CampaignAction::Return => false,
            _ => reply is Ack,
        },
{
}

} // verus!
