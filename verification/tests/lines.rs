use ttyhang::abi::Cqe;
use ttyhang::attempt::{AttemptAction, PtyRequest};
use ttyhang::campaign::CampaignAction;
use ttyhang::procfs::{Probe, ReadFailure, TaskFile};
use ttyhang::report::{
    attempt_line, attempt_probes, banner, campaign_line, competitor_line, completion_line, consumer_line, consumer_stack, control_line,
    enter_line, fed_line, flags_line, flush_line, hang_line, mapping_failure, no_hang_line,
    request_failure, returned_line, setup_failure, setup_line, silence_line, still_blocked_line, submitter_line,
    submitter_stack, triggered_line, watchdog_line, watchdog_probes, Reads, Threads,
};
use ttyhang::setup::SetupAction;
use ttyhang::watchdog::WatchdogAction;

#[test]
fn attempt_lines_read_as_they_should() {
    assert_eq!(flags_line(1, 0x8002, 0o4000), "[1] master flags 0x8002 (O_NONBLOCK=false)");
    assert_eq!(flags_line(12, -1, 0o4000), "[12] master flags 0xffffffff (O_NONBLOCK=true)");
    assert_eq!(
        consumer_line(1, 4711, "n_tty_read"),
        "[1] consumer tid 4711 blocked, wchan: n_tty_read"
    );
    assert_eq!(control_line(0), "[0] control run: no competing reader");
    assert_eq!(
        flush_line(3, -1),
        "[3] TCFLSH(TCIFLUSH) on slave = -1, submitting read + 100ms link timeout"
    );
    assert_eq!(enter_line(2, 2, true), "[2] io_uring_enter returned 2, was_hung=true");
    assert_eq!(enter_line(2, -4, false), "[2] io_uring_enter returned -4, was_hung=false");
}

fn cqe(user_data: u64, res: i32) -> String {
    completion_line(5, &Cqe { user_data, res, flags: 0 })
}

#[test]
fn completion_lines_read_as_they_should() {
    assert_eq!(cqe(0x1623, 1), "[5] cqe read: user_data=0x1623 res=1");
    assert_eq!(cqe(0x1623, -125), "[5] cqe read: user_data=0x1623 res=-125");
    assert_eq!(
        cqe(0x1624, -125),
        "[5] cqe link-timeout: user_data=0x1624 res=-125 (ECANCELED: timer never fired)"
    );
    assert_eq!(
        cqe(0x1624, -62),
        "[5] cqe link-timeout: user_data=0x1624 res=-62 (ETIME: timer fired!)"
    );
    assert_eq!(cqe(0x1624, 0), "[5] cqe link-timeout: user_data=0x1624 res=0");
    assert_eq!(cqe(0, -62), "[5] cqe ?: user_data=0x0 res=-62");
}

#[test]
fn watchdog_lines_read_as_they_should() {
    assert_eq!(hang_line(1), "[1] HANG: io_uring_enter has not returned for 3s");
    assert_eq!(
        silence_line(1, 0),
        "[1] 100ms link timeout did not fire: 0 CQEs after 3s (read=0x1623, timeout=0x1624)"
    );
    assert_eq!(
        submitter_line(1, 10, "426", "n_tty_read"),
        "[1] submitter tid 10 in syscall 426 (426=io_uring_enter), wchan: n_tty_read"
    );
    assert_eq!(competitor_line(1, 11, "0"), "[1] consumer  tid 11 wchan: 0");
    assert_eq!(submitter_stack(1, "a\nb"), "[1] submitter kernel stack:\na\nb");
    assert_eq!(consumer_stack(1, "c"), "[1] consumer kernel stack:\nc");
    assert_eq!(fed_line(1, 1), "[1] fed 1 byte into the slave (write=1)");
    assert_eq!(returned_line(1), "[1] io_uring_enter returned after input was fed");
    assert_eq!(still_blocked_line(1), "[1] still blocked after feeding input");
    assert_eq!(
        triggered_line(1),
        "[1] TRIGGERED: io_uring_enter was blocked inside the tty read"
    );
}

#[test]
fn closing_lines_read_as_they_should() {
    assert_eq!(no_hang_line(5), "no hang after 5 attempts");
    assert_eq!(mapping_failure("no memory"), "mmap failed: no memory");
    assert_eq!(request_failure(PtyRequest::OpenMaster, "d"), "open /dev/ptmx: d");
    assert_eq!(request_failure(PtyRequest::OpenSlave, "e"), "open pts: e");
    assert_eq!(request_failure(PtyRequest::Unlock, "a"), "TIOCSPTLCK: a");
    assert_eq!(request_failure(PtyRequest::Number, "b"), "TIOCGPTN: b");
    assert_eq!(request_failure(PtyRequest::PacketMode, "c"), "TIOCPKT: c");
    assert_eq!(setup_failure("not permitted"), "io_uring_setup: not permitted");
}

#[test]
fn the_banner_asks_for_privileges() {
    let root = banner(0);
    let user = banner(1000);
    assert_eq!(root.len(), 13);
    assert_eq!(user.len(), 15);
    assert_eq!(root[0], "io_uring poll-fallback hang POC (liburing issue #1623)");
    assert_eq!(root[1], "");
    assert_eq!(
        root[2],
        "- fallback introduced by kernel commit f7c913438533 (\"io_uring/rw: allow pollable"
    );
    assert_eq!(root[12], "");
    assert_eq!(user[..12], root[..12]);
    assert_eq!(user[12], "");
    assert_eq!(
        user[13],
        "note: /proc/<tid>/stack requires CAP_SYS_ADMIN; run with sudo to get kernel stacks"
    );
    assert_eq!(user[14], "");
}

const NONBLOCK: i32 = 0o4000;

fn attempt_text(action: AttemptAction, reads: Reads) -> Option<String> {
    assert_eq!(attempt_probes(&action).len(), reads.len());
    attempt_line(4, &action, NONBLOCK, &reads)
}

#[test]
fn attempt_actions_have_their_lines() {
    let shown = |action, line: String| assert_eq!(attempt_text(action, vec![]), Some(line));
    shown(AttemptAction::ShowFlags { flags: 2 | NONBLOCK }, flags_line(4, 2 | NONBLOCK, NONBLOCK));
    shown(AttemptAction::ShowControl, control_line(4));
    shown(AttemptAction::ShowFlush { result: 9 }, flush_line(4, 9));
    shown(AttemptAction::ShowEnter { result: 2, was_hung: true }, enter_line(4, 2, true));
    let cqe = Cqe { user_data: 0x1624, res: -62, flags: 0 };
    shown(AttemptAction::ShowCompletion { cqe }, completion_line(4, &cqe));
    let consumer = AttemptAction::ShowConsumer { tid: 31 };
    assert_eq!(attempt_probes(&consumer), vec![Probe { tid: 31, file: TaskFile::Wchan }]);
    assert_eq!(
        attempt_text(consumer, vec![Ok("n_tty_read\n".to_string())]),
        Some("[4] consumer tid 31 blocked, wchan: n_tty_read".to_string())
    );
    assert_eq!(attempt_text(AttemptAction::OpenMaster, vec![]), None);
    assert_eq!(attempt_text(AttemptAction::Finish { was_hung: true }, vec![]), None);
}

const THREADS: Threads = Threads { submitter: 10, consumer: 20 };

fn watchdog_text(action: WatchdogAction, reads: Reads) -> Option<String> {
    assert_eq!(watchdog_probes(&action, &THREADS).len(), reads.len());
    watchdog_line(4, &action, &THREADS, &reads)
}

#[test]
fn watchdog_actions_have_their_lines() {
    let shown = |action, line: String| assert_eq!(watchdog_text(action, vec![]), Some(line));
    shown(WatchdogAction::ShowHang, hang_line(4));
    shown(WatchdogAction::ShowSilence { completions: 1 }, silence_line(4, 1));
    shown(WatchdogAction::ShowFed { written: -1 }, fed_line(4, -1));
    shown(WatchdogAction::ShowReturned, returned_line(4));
    shown(WatchdogAction::ShowTriggered, triggered_line(4));
    shown(WatchdogAction::ShowStillBlocked, still_blocked_line(4));
    assert_eq!(watchdog_text(WatchdogAction::RaiseHung, vec![]), None);
    assert_eq!(watchdog_text(WatchdogAction::Exit { code: 0 }, vec![]), None);
}

#[test]
fn watchdog_lines_name_the_thread_they_read() {
    assert_eq!(
        watchdog_probes(&WatchdogAction::ShowSubmitter, &THREADS),
        vec![
            Probe { tid: 10, file: TaskFile::Syscall },
            Probe { tid: 10, file: TaskFile::Wchan },
        ]
    );
    assert_eq!(
        watchdog_text(
            WatchdogAction::ShowSubmitter,
            vec![Ok("426 0x3".to_string()), Ok("a\n".to_string())]
        ),
        Some("[4] submitter tid 10 in syscall 426 (426=io_uring_enter), wchan: a".to_string())
    );
    assert_eq!(
        watchdog_probes(&WatchdogAction::ShowConsumer, &THREADS),
        vec![Probe { tid: 20, file: TaskFile::Wchan }]
    );
    assert_eq!(
        watchdog_text(WatchdogAction::ShowConsumer, vec![Err(ReadFailure::PermissionDenied)]),
        Some("[4] consumer  tid 20 wchan: <unavailable>".to_string())
    );
    assert_eq!(
        watchdog_probes(&WatchdogAction::ShowSubmitterStack, &THREADS),
        vec![Probe { tid: 10, file: TaskFile::Stack }]
    );
    assert_eq!(
        watchdog_text(WatchdogAction::ShowSubmitterStack, vec![Ok(" s\n".to_string())]),
        Some("[4] submitter kernel stack:\n s".to_string())
    );
    assert_eq!(
        watchdog_probes(&WatchdogAction::ShowConsumerStack, &THREADS),
        vec![Probe { tid: 20, file: TaskFile::Stack }]
    );
    assert_eq!(
        watchdog_text(WatchdogAction::ShowConsumerStack, vec![Ok(" t\n".to_string())]),
        Some("[4] consumer kernel stack:\n t".to_string())
    );
}

#[test]
fn other_actions_have_their_lines() {
    assert_eq!(
        campaign_line(&CampaignAction::ShowTriggered { attempt: 3 }),
        Some(triggered_line(3))
    );
    assert_eq!(
        campaign_line(&CampaignAction::ShowNoHang { attempts: 6 }),
        Some(no_hang_line(6))
    );
    assert_eq!(campaign_line(&CampaignAction::Return), None);
    assert_eq!(
        setup_line(&SetupAction::ShowSetupFailure, "r"),
        Some("io_uring_setup: r".to_string())
    );
    assert_eq!(
        setup_line(&SetupAction::ShowMappingFailure, "r"),
        Some("mmap failed: r".to_string())
    );
    assert_eq!(setup_line(&SetupAction::Ready, "r"), None);
}
