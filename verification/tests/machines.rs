use ttyhang::abi::{Cqe, Timespec};
use ttyhang::attempt::{link_timeout, Attempt, AttemptAction, AttemptReply, PtyRequest};
use ttyhang::campaign::{Campaign, CampaignAction, CampaignReply};
use ttyhang::cli::Config;
use ttyhang::watchdog::{Watchdog, WatchdogAction, WatchdogReply};

fn campaign(attempts: u32, control: bool) -> Campaign {
    Campaign::new(Config { attempts, control })
}

#[test]
fn a_control_run_is_one_attempt() {
    for hung in [false, true] {
        let mut c = campaign(7, true);
        assert_eq!(c.doing, CampaignAction::Run { attempt: 0, with_consumer: false });
        assert_eq!(c.step(CampaignReply::Hung(hung)), Some(CampaignAction::Return));
        assert_eq!(c.step(CampaignReply::Ack), None);
    }
}

#[test]
fn attempts_without_a_hang_fail() {
    let mut c = campaign(3, false);
    assert_eq!(c.doing, CampaignAction::Run { attempt: 1, with_consumer: true });
    for attempt in 2..=3 {
        assert_eq!(
            c.step(CampaignReply::Hung(false)),
            Some(CampaignAction::Run { attempt, with_consumer: true })
        );
    }
    assert_eq!(
        c.step(CampaignReply::Hung(false)),
        Some(CampaignAction::ShowNoHang { attempts: 3 })
    );
    assert_eq!(c.step(CampaignReply::Ack), Some(CampaignAction::Exit { code: 1 }));
    assert_eq!(c.step(CampaignReply::Ack), None);
}

#[test]
fn no_attempts_fail_at_once() {
    let mut c = campaign(0, false);
    assert_eq!(c.doing, CampaignAction::ShowNoHang { attempts: 0 });
    assert_eq!(c.step(CampaignReply::Ack), Some(CampaignAction::Exit { code: 1 }));
}

#[test]
fn the_first_hang_succeeds() {
    let mut c = campaign(5, false);
    c.step(CampaignReply::Hung(false));
    assert_eq!(
        c.step(CampaignReply::Hung(true)),
        Some(CampaignAction::ShowTriggered { attempt: 2 })
    );
    assert_eq!(c.step(CampaignReply::Ack), Some(CampaignAction::Settle { millis: 300 }));
    assert_eq!(c.step(CampaignReply::Ack), Some(CampaignAction::Exit { code: 0 }));
}

#[test]
fn a_wrong_answer_changes_nothing() {
    let mut c = campaign(5, false);
    let before = c;
    assert_eq!(c.step(CampaignReply::Ack), None);
    assert_eq!(c, before);
    let mut w = Watchdog::new();
    let before = w;
    assert_eq!(w.step(WatchdogReply::Written(1)), None);
    assert_eq!(w, before);
    let mut a = Attempt::new(true);
    assert_eq!(a.step(AttemptReply::Hung(true)), None);
    assert_eq!(a, Attempt::new(true));
}

fn hung_watchdog() -> Watchdog {
    let mut w = Watchdog::new();
    for _ in 0..29 {
        assert_eq!(
            w.step(WatchdogReply::Done(false)),
            Some(WatchdogAction::Poll { millis: 100 })
        );
    }
    assert_eq!(w.step(WatchdogReply::Done(false)), Some(WatchdogAction::RaiseHung));
    w
}

fn fed_watchdog() -> Watchdog {
    let mut w = hung_watchdog();
    let steps = [
        (WatchdogReply::Ack, WatchdogAction::CountCompletions),
        (WatchdogReply::Positions { head: u32::MAX, tail: 1 }, WatchdogAction::ShowHang),
        (WatchdogReply::Ack, WatchdogAction::ShowSilence { completions: 2 }),
        (WatchdogReply::Ack, WatchdogAction::ShowSubmitter),
        (WatchdogReply::Ack, WatchdogAction::ShowConsumer),
        (WatchdogReply::Ack, WatchdogAction::ShowSubmitterStack),
        (WatchdogReply::Ack, WatchdogAction::ShowConsumerStack),
        (WatchdogReply::Ack, WatchdogAction::FeedByte { byte: b'x' }),
        (WatchdogReply::Written(-1), WatchdogAction::ShowFed { written: -1 }),
        (WatchdogReply::Ack, WatchdogAction::PollAgain { millis: 100 }),
    ];
    for (reply, action) in steps {
        assert_eq!(w.step(reply), Some(action));
    }
    w
}

#[test]
fn a_timely_return_stops_the_watchdog() {
    for quiet in [0, 1, 29] {
        let mut w = Watchdog::new();
        for _ in 0..quiet {
            w.step(WatchdogReply::Done(false));
        }
        assert_eq!(w.step(WatchdogReply::Done(true)), Some(WatchdogAction::Stop));
        assert_eq!(w.step(WatchdogReply::Ack), None);
    }
}

#[test]
fn a_released_hang_succeeds() {
    for quiet in [0, 19] {
        let mut w = fed_watchdog();
        for _ in 0..quiet {
            assert_eq!(
                w.step(WatchdogReply::Done(false)),
                Some(WatchdogAction::PollAgain { millis: 100 })
            );
        }
        assert_eq!(w.step(WatchdogReply::Done(true)), Some(WatchdogAction::ShowReturned));
        assert_eq!(w.step(WatchdogReply::Ack), Some(WatchdogAction::ShowTriggered));
        assert_eq!(w.step(WatchdogReply::Ack), Some(WatchdogAction::Exit { code: 0 }));
    }
}

#[test]
fn a_lasting_hang_exits_with_two() {
    let mut w = fed_watchdog();
    for _ in 0..19 {
        w.step(WatchdogReply::Done(false));
    }
    assert_eq!(w.step(WatchdogReply::Done(false)), Some(WatchdogAction::ShowStillBlocked));
    assert_eq!(w.step(WatchdogReply::Ack), Some(WatchdogAction::Exit { code: 2 }));
    assert_eq!(w.step(WatchdogReply::Ack), None);
}

fn drive(a: &mut Attempt, steps: &[(AttemptReply, AttemptAction)]) {
    for (reply, action) in steps {
        assert_eq!(a.step(*reply), Some(*action));
    }
}

fn with_terminal(with_consumer: bool) -> Attempt {
    let mut a = Attempt::new(with_consumer);
    assert_eq!(a.action(), AttemptAction::OpenMaster);
    drive(
        &mut a,
        &[
            (AttemptReply::Value(0), AttemptAction::UnlockSlave { lock: 0 }),
            (AttemptReply::Value(0), AttemptAction::AskNumber),
            (AttemptReply::Number { result: 0, number: 4 }, AttemptAction::OpenSlave { number: 4 }),
            (AttemptReply::Value(0), AttemptAction::EnablePacketMode { mode: 1 }),
            (AttemptReply::Value(0), AttemptAction::ReadFlags),
            (AttemptReply::Value(0x8002), AttemptAction::ShowFlags { flags: 0x8002 }),
            (AttemptReply::Ack, AttemptAction::SetUpRing),
        ],
    );
    a
}

fn submitted(a: &mut Attempt, hung: bool) {
    drive(
        a,
        &[
            (
                AttemptReply::Ack,
                AttemptAction::QueueRead {
                    len: 1,
                    timeout: Timespec { tv_sec: 0, tv_nsec: 100_000_000 },
                },
            ),
            (AttemptReply::Ack, AttemptAction::FlushSlave { queue: 0 }),
            (AttemptReply::Value(0), AttemptAction::ShowFlush { result: 0 }),
            (AttemptReply::Ack, AttemptAction::Enter { to_submit: 2 }),
            (AttemptReply::Value(2), AttemptAction::MarkDone),
            (AttemptReply::Ack, AttemptAction::ReadHung),
            (
                AttemptReply::Hung(hung),
                AttemptAction::ShowEnter { result: 2, was_hung: hung },
            ),
            (AttemptReply::Ack, AttemptAction::PeekCompletion),
        ],
    );
}

const READ: Cqe = Cqe { user_data: 0x1623, res: 1, flags: 0 };
const TIMER: Cqe = Cqe { user_data: 0x1624, res: -125, flags: 0 };

#[test]
fn an_attempt_waits_for_the_reader() {
    let mut a = with_terminal(true);
    drive(
        &mut a,
        &[
            (AttemptReply::Ready(true), AttemptAction::PinCpu),
            (AttemptReply::Ack, AttemptAction::SpawnConsumer { niceness: 19 }),
            (AttemptReply::Ack, AttemptAction::PollTid),
            (AttemptReply::Value(0), AttemptAction::WaitForTid { millis: 1 }),
            (AttemptReply::Ack, AttemptAction::PollTid),
            (AttemptReply::Value(0), AttemptAction::WaitForTid { millis: 1 }),
            (AttemptReply::Ack, AttemptAction::PollTid),
            (AttemptReply::Value(77), AttemptAction::Settle { millis: 300 }),
            (AttemptReply::Ack, AttemptAction::ShowConsumer { tid: 77 }),
            (AttemptReply::Ack, AttemptAction::StartWatchdog { consumer_tid: 77 }),
        ],
    );
    submitted(&mut a, true);
    drive(
        &mut a,
        &[
            (AttemptReply::Completion(Some(READ)), AttemptAction::ShowCompletion { cqe: READ }),
            (AttemptReply::Ack, AttemptAction::PeekCompletion),
            (
                AttemptReply::Completion(None),
                AttemptAction::WaitForCompletion { millis: 5 },
            ),
            (AttemptReply::Ack, AttemptAction::PeekCompletion),
            (AttemptReply::Completion(Some(TIMER)), AttemptAction::ShowCompletion { cqe: TIMER }),
            (AttemptReply::Ack, AttemptAction::Finish { was_hung: true }),
        ],
    );
    assert_eq!(a.step(AttemptReply::Ack), None);
}

fn control() -> Attempt {
    let mut a = with_terminal(false);
    drive(
        &mut a,
        &[
            (AttemptReply::Ready(true), AttemptAction::ShowControl),
            (AttemptReply::Ack, AttemptAction::StartWatchdog { consumer_tid: 0 }),
        ],
    );
    a
}

#[test]
fn silence_ends_an_attempt() {
    for (hung, looks) in [(false, 10), (true, 200)] {
        let mut a = control();
        submitted(&mut a, hung);
        for look in 1..=looks {
            assert_eq!(
                a.step(AttemptReply::Completion(None)),
                Some(AttemptAction::WaitForCompletion { millis: 5 })
            );
            let next = a.step(AttemptReply::Ack);
            if look < looks {
                assert_eq!(next, Some(AttemptAction::PeekCompletion));
            } else {
                assert_eq!(next, Some(AttemptAction::Finish { was_hung: hung }));
            }
        }
    }
}

#[test]
fn the_last_look_may_find_one() {
    let mut a = control();
    submitted(&mut a, false);
    for _ in 0..9 {
        a.step(AttemptReply::Completion(None));
        a.step(AttemptReply::Ack);
    }
    drive(
        &mut a,
        &[
            (AttemptReply::Completion(Some(READ)), AttemptAction::ShowCompletion { cqe: READ }),
            (AttemptReply::Ack, AttemptAction::Finish { was_hung: false }),
        ],
    );
}

fn after(replies: &[AttemptReply]) -> Attempt {
    let mut a = Attempt::new(false);
    for reply in replies {
        assert!(a.step(*reply).is_some());
    }
    a
}

#[test]
fn a_failed_request_aborts() {
    let ok = AttemptReply::Value(0);
    let number = AttemptReply::Number { result: 0, number: 2 };
    let no_number = AttemptReply::Number { result: -1, number: 0 };
    let bad = AttemptReply::Value(-1);
    let failures = [
        (vec![bad], PtyRequest::OpenMaster),
        (vec![ok, bad], PtyRequest::Unlock),
        (vec![ok, ok, no_number], PtyRequest::Number),
        (vec![ok, ok, number, bad], PtyRequest::OpenSlave),
        (vec![ok, ok, number, ok, bad], PtyRequest::PacketMode),
    ];
    for (replies, request) in failures {
        let mut a = after(&replies);
        assert_eq!(a.action(), AttemptAction::Abort { request, result: -1 });
        assert_eq!(a.step(AttemptReply::Ack), None);
        assert_eq!(a.step(ok), None);
    }
}

#[test]
fn without_a_ring_the_program_ends() {
    let mut a = with_terminal(true);
    assert_eq!(a.step(AttemptReply::Ready(false)), Some(AttemptAction::Exit { code: 1 }));
    assert_eq!(a.step(AttemptReply::Ack), None);
    assert_eq!(a.step(AttemptReply::Ready(true)), None);
}

#[test]
fn the_timeout_is_a_tenth_of_a_second() {
    assert_eq!(link_timeout(), Timespec { tv_sec: 0, tv_nsec: 100_000_000 });
}

#[test]
fn the_watchdog_looks_at_most_fifty_times() {
    let mut w = Watchdog::new();
    let mut action = w.doing;
    let mut looks = 0;
    let mut steps = 0;
    loop {
        let reply = match action {
            WatchdogAction::Poll { .. } | WatchdogAction::PollAgain { .. } => {
                looks += 1;
                WatchdogReply::Done(false)
            }
            WatchdogAction::CountCompletions => WatchdogReply::Positions { head: 0, tail: 0 },
            WatchdogAction::FeedByte { .. } => WatchdogReply::Written(1),
            WatchdogAction::Exit { code } => {
                assert_eq!(code, 2);
                break;
            }
            _ => WatchdogReply::Ack,
        };
        action = w.step(reply).unwrap();
        steps += 1;
    }
    assert_eq!(looks, 50);
    assert!(steps <= 70);
}
