//! The lines that the program prints.
use vstd::prelude::*;
use vstd::string::*;
use crate::abi::{Cqe, NEG_ECANCELED, NEG_ETIME, USER_DATA_READ, USER_DATA_TIMEOUT};
use crate::attempt::{AttemptAction, PtyRequest};
use crate::campaign::CampaignAction;
use crate::procfs::{Probe, ReadFailure, TaskFile, stack_trace, syscall_of, wchan};
use crate::pty::is_nonblocking;
use crate::setup::SetupAction;
use crate::text::{push_decimal, push_hex, push_hex_bits, push_truth};
use crate::watchdog::WatchdogAction;

verus! {

/// What every line about an attempt begins with.
pub open spec fn tag(attempt: u32) -> Seq<char> {
    "["@ + crate::text::decimal(attempt as int) + "] "@
}

fn tagged(attempt: u32) -> (r: String)
    ensures
        r@ == tag(attempt),
        r@ == "["@ + crate::text::decimal(attempt as int) + "] "@,
{
    let mut line = String::from_str("[");
    push_decimal(&mut line, attempt as i64);
    line.append("] ");
    line
}

fn tagged_text(attempt: u32, text: &str) -> (r: String)
    ensures
        r@ == tag(attempt) + text@,
{
    let mut line = tagged(attempt);
    line.append(text);
    line
}

// ------------------------------------------------------------- an attempt

/// The text of [`flags_line`].
pub open spec fn flags_text(attempt: u32, flags: i32, nonblock: i32) -> Seq<char> {
    tag(attempt) + "master flags "@ + crate::text::hex(crate::text::bits_of(flags))
        + " (O_NONBLOCK="@ + crate::text::truth(flags & nonblock != 0) + ")"@
}

/// Tells the status flags of the master side.
pub fn flags_line(attempt: u32, flags: i32, nonblock: i32) -> (r: String)
    ensures
        r@ == flags_text(attempt, flags, nonblock),
        r@ == "["@ + crate::text::decimal(attempt as int) + "] "@
            + "master flags "@ + crate::text::hex(crate::text::bits_of(flags))
            + " (O_NONBLOCK="@ + crate::text::truth(flags & nonblock != 0) + ")"@,
{
    let mut line = tagged_text(attempt, "master flags ");
    push_hex_bits(&mut line, flags);
    line.append(" (O_NONBLOCK=");
    push_truth(&mut line, is_nonblocking(flags, nonblock));
    line.append(")");
    line
}

/// The text of [`consumer_line`].
pub open spec fn consumer_text(attempt: u32, tid: i32, wchan: Seq<char>) -> Seq<char> {
    tag(attempt) + "consumer tid "@ + crate::text::decimal(tid as int)
        + " blocked, wchan: "@ + wchan
}

/// Tells that the competing reader sleeps, and where.
pub fn consumer_line(attempt: u32, tid: i32, wchan: &str) -> (r: String)
    ensures
        r@ == consumer_text(attempt, tid, wchan@),
        r@ == "["@ + crate::text::decimal(attempt as int) + "] "@
            + "consumer tid "@ + crate::text::decimal(tid as int)
            + " blocked, wchan: "@ + wchan@,
{
    let mut line = tagged_text(attempt, "consumer tid ");
    push_decimal(&mut line, tid as i64);
    line.append(" blocked, wchan: ");
    line.append(wchan);
    line
}

/// The text of [`control_line`].
pub open spec fn control_text(attempt: u32) -> Seq<char> {
    tag(attempt) + "control run: no competing reader"@
}

/// Tells that nothing competes for the input.
pub fn control_line(attempt: u32) -> (r: String)
    ensures
        r@ == control_text(attempt),
        r@ == "["@ + crate::text::decimal(attempt as int) + "] "@
            + "control run: no competing reader"@,
{
    tagged_text(attempt, "control run: no competing reader")
}

/// The text of [`flush_line`].
pub open spec fn flush_text(attempt: u32, result: i32) -> Seq<char> {
    tag(attempt) + "TCFLSH(TCIFLUSH) on slave = "@ + crate::text::decimal(result as int)
        + ", submitting read + 100ms link timeout"@
}

/// Tells the result of discarding the input of the slave side.
pub fn flush_line(attempt: u32, result: i32) -> (r: String)
    ensures
        r@ == flush_text(attempt, result),
        r@ == "["@ + crate::text::decimal(attempt as int) + "] "@
            + "TCFLSH(TCIFLUSH) on slave = "@ + crate::text::decimal(result as int)
            + ", submitting read + 100ms link timeout"@,
{
    let mut line = tagged_text(attempt, "TCFLSH(TCIFLUSH) on slave = ");
    push_decimal(&mut line, result as i64);
    line.append(", submitting read + 100ms link timeout");
    line
}

/// The text of [`enter_line`].
pub open spec fn enter_text(attempt: u32, result: i32, was_hung: bool) -> Seq<char> {
    tag(attempt) + "io_uring_enter returned "@ + crate::text::decimal(result as int)
        + ", was_hung="@ + crate::text::truth(was_hung)
}

/// Tells how the submission ended.
pub fn enter_line(attempt: u32, result: i32, was_hung: bool) -> (r: String)
    ensures
        r@ == enter_text(attempt, result, was_hung),
        r@ == "["@ + crate::text::decimal(attempt as int) + "] "@
            + "io_uring_enter returned "@ + crate::text::decimal(result as int)
            + ", was_hung="@ + crate::text::truth(was_hung),
{
    let mut line = tagged_text(attempt, "io_uring_enter returned ");
    push_decimal(&mut line, result as i64);
    line.append(", was_hung=");
    push_truth(&mut line, was_hung);
    line
}

/// Which operation a tag belongs to.
pub open spec fn operation(user_data: u64) -> Seq<char> {
    if user_data == USER_DATA_READ {
        "read"@
    } else if user_data == USER_DATA_TIMEOUT {
        "link-timeout"@
    } else {
        "?"@
    }
}

/// What the result of a link timeout means.
pub open spec fn remark(cqe: Cqe) -> Seq<char> {
    if cqe.user_data == USER_DATA_TIMEOUT && cqe.res == NEG_ECANCELED {
        " (ECANCELED: timer never fired)"@
    } else if cqe.user_data == USER_DATA_TIMEOUT && cqe.res == NEG_ETIME {
        " (ETIME: timer fired!)"@
    } else {
        ""@
    }
}

/// The text of [`completion_line`].
pub open spec fn completion_text(attempt: u32, cqe: Cqe) -> Seq<char> {
    tag(attempt) + "cqe "@ + operation(cqe.user_data) + ": user_data="@
        + crate::text::hex(cqe.user_data as nat) + " res="@ + crate::text::decimal(
        cqe.res as int,
    ) + remark(cqe)
}

/// Tells what a completion says.
pub fn completion_line(attempt: u32, cqe: &Cqe) -> (r: String)
    ensures
        r@ == completion_text(attempt, *cqe),
        r@ == "["@ + crate::text::decimal(attempt as int) + "] "@
            + "cqe "@ + (if cqe.user_data == 0x1623 {
                "read"@
            } else if cqe.user_data == 0x1624 {
                "link-timeout"@
            } else {
                "?"@
            }) + ": user_data="@
            + crate::text::hex(cqe.user_data as nat) + " res="@ + crate::text::decimal(
            cqe.res as int,
        ) + (if cqe.user_data == 0x1624 && cqe.res == -125 {
                " (ECANCELED: timer never fired)"@
            } else if cqe.user_data == 0x1624 && cqe.res == -62 {
                " (ETIME: timer fired!)"@
            } else {
                ""@
            }),
{
    let mut line = tagged_text(attempt, "cqe ");
    if cqe.user_data == USER_DATA_READ {
        line.append("read");
    } else if cqe.user_data == USER_DATA_TIMEOUT {
        line.append("link-timeout");
    } else {
        line.append("?");
    }
    line.append(": user_data=");
    push_hex(&mut line, cqe.user_data);
    line.append(" res=");
    push_decimal(&mut line, cqe.res as i64);
    if cqe.user_data == USER_DATA_TIMEOUT && cqe.res == NEG_ECANCELED {
        line.append(" (ECANCELED: timer never fired)");
    } else if cqe.user_data == USER_DATA_TIMEOUT && cqe.res == NEG_ETIME {
        line.append(" (ETIME: timer fired!)");
    } else {
        proof {
            reveal_strlit("");
        }
    }
    line
}

// ----------------------------------------------------------- the watchdog

/// The text of [`hang_line`].
pub open spec fn hang_text(attempt: u32) -> Seq<char> {
    tag(attempt) + "HANG: io_uring_enter has not returned for 3s"@
}

/// Tells that the submission hangs.
pub fn hang_line(attempt: u32) -> (r: String)
    ensures
        r@ == hang_text(attempt),
        r@ == "["@ + crate::text::decimal(attempt as int) + "] "@
            + "HANG: io_uring_enter has not returned for 3s"@,
{
    tagged_text(attempt, "HANG: io_uring_enter has not returned for 3s")
}

/// The text of [`silence_line`].
pub open spec fn silence_text(attempt: u32, completions: u32) -> Seq<char> {
    tag(attempt) + "100ms link timeout did not fire: "@ + crate::text::decimal(
        completions as int,
    ) + " CQEs after 3s (read="@ + crate::text::hex(USER_DATA_READ as nat) + ", timeout="@
        + crate::text::hex(USER_DATA_TIMEOUT as nat) + ")"@
}

/// Tells how many completions there are although the timeout is long over.
pub fn silence_line(attempt: u32, completions: u32) -> (r: String)
    ensures
        r@ == silence_text(attempt, completions),
        r@ == "["@ + crate::text::decimal(attempt as int) + "] "@
            + "100ms link timeout did not fire: "@ + crate::text::decimal(
            completions as int,
        ) + " CQEs after 3s (read="@ + crate::text::hex(0x1623) + ", timeout="@
            + crate::text::hex(0x1624) + ")"@,
{
    let mut line = tagged_text(attempt, "100ms link timeout did not fire: ");
    push_decimal(&mut line, completions as i64);
    line.append(" CQEs after 3s (read=");
    push_hex(&mut line, USER_DATA_READ);
    line.append(", timeout=");
    push_hex(&mut line, USER_DATA_TIMEOUT);
    line.append(")");
    line
}

/// The text of [`submitter_line`].
pub open spec fn submitter_text(
    attempt: u32,
    tid: i32,
    syscall: Seq<char>,
    wchan: Seq<char>,
) -> Seq<char> {
    tag(attempt) + "submitter tid "@ + crate::text::decimal(tid as int)
        + " in syscall "@ + syscall + " (426=io_uring_enter), wchan: "@ + wchan
}

/// Tells where the submitting thread hangs.
pub fn submitter_line(attempt: u32, tid: i32, syscall: &str, wchan: &str) -> (r: String)
    ensures
        r@ == submitter_text(attempt, tid, syscall@, wchan@),
        r@ == "["@ + crate::text::decimal(attempt as int) + "] "@
            + "submitter tid "@ + crate::text::decimal(tid as int)
            + " in syscall "@ + syscall@ + " (426=io_uring_enter), wchan: "@ + wchan@,
{
    let mut line = tagged_text(attempt, "submitter tid ");
    push_decimal(&mut line, tid as i64);
    line.append(" in syscall ");
    line.append(syscall);
    line.append(" (426=io_uring_enter), wchan: ");
    line.append(wchan);
    line
}

/// The text of [`competitor_line`].
pub open spec fn competitor_text(attempt: u32, tid: i32, wchan: Seq<char>) -> Seq<char> {
    tag(attempt) + "consumer  tid "@ + crate::text::decimal(tid as int) + " wchan: "@
        + wchan
}

/// Tells where the competing reader sleeps during the hang.
pub fn competitor_line(attempt: u32, tid: i32, wchan: &str) -> (r: String)
    ensures
        r@ == competitor_text(attempt, tid, wchan@),
        r@ == "["@ + crate::text::decimal(attempt as int) + "] "@
            + "consumer  tid "@ + crate::text::decimal(tid as int) + " wchan: "@
            + wchan@,
{
    let mut line = tagged_text(attempt, "consumer  tid ");
    push_decimal(&mut line, tid as i64);
    line.append(" wchan: ");
    line.append(wchan);
    line
}

/// The text of [`submitter_stack`].
pub open spec fn submitter_stack_text(attempt: u32, stack: Seq<char>) -> Seq<char> {
    tag(attempt) + "submitter kernel stack:\n"@ + stack
}

/// Shows the kernel stack of the submitting thread.
pub fn submitter_stack(attempt: u32, stack: &str) -> (r: String)
    ensures
        r@ == submitter_stack_text(attempt, stack@),
        r@ == "["@ + crate::text::decimal(attempt as int) + "] "@
            + "submitter kernel stack:\n"@ + stack@,
{
    let mut line = tagged_text(attempt, "submitter kernel stack:\n");
    line.append(stack);
    line
}

/// The text of [`consumer_stack`].
pub open spec fn consumer_stack_text(attempt: u32, stack: Seq<char>) -> Seq<char> {
    tag(attempt) + "consumer kernel stack:\n"@ + stack
}

/// Shows the kernel stack of the competing reader.
pub fn consumer_stack(attempt: u32, stack: &str) -> (r: String)
    ensures
        r@ == consumer_stack_text(attempt, stack@),
        r@ == "["@ + crate::text::decimal(attempt as int) + "] "@
            + "consumer kernel stack:\n"@ + stack@,
{
    let mut line = tagged_text(attempt, "consumer kernel stack:\n");
    line.append(stack);
    line
}

/// The text of [`fed_line`].
pub open spec fn fed_text(attempt: u32, written: i64) -> Seq<char> {
    tag(attempt) + "fed 1 byte into the slave (write="@ + crate::text::decimal(
        written as int,
    ) + ")"@
}

/// Tells the result of writing one byte to the slave side.
pub fn fed_line(attempt: u32, written: i64) -> (r: String)
    ensures
        r@ == fed_text(attempt, written),
        r@ == "["@ + crate::text::decimal(attempt as int) + "] "@
            + "fed 1 byte into the slave (write="@ + crate::text::decimal(
            written as int,
        ) + ")"@,
{
    let mut line = tagged_text(attempt, "fed 1 byte into the slave (write=");
    push_decimal(&mut line, written);
    line.append(")");
    line
}

/// The text of [`returned_line`].
pub open spec fn returned_text(attempt: u32) -> Seq<char> {
    tag(attempt) + "io_uring_enter returned after input was fed"@
}

/// Tells that the byte ended the hang.
pub fn returned_line(attempt: u32) -> (r: String)
    ensures
        r@ == returned_text(attempt),
        r@ == "["@ + crate::text::decimal(attempt as int) + "] "@
            + "io_uring_enter returned after input was fed"@,
{
    tagged_text(attempt, "io_uring_enter returned after input was fed")
}

/// The text of [`still_blocked_line`].
pub open spec fn still_blocked_text(attempt: u32) -> Seq<char> {
    tag(attempt) + "still blocked after feeding input"@
}

/// Tells that the byte did not end the hang.
pub fn still_blocked_line(attempt: u32) -> (r: String)
    ensures
        r@ == still_blocked_text(attempt),
        r@ == "["@ + crate::text::decimal(attempt as int) + "] "@
            + "still blocked after feeding input"@,
{
    tagged_text(attempt, "still blocked after feeding input")
}

/// The text of [`triggered_line`].
pub open spec fn triggered_text(attempt: u32) -> Seq<char> {
    tag(attempt) + "TRIGGERED: io_uring_enter was blocked inside the tty read"@
}

/// Tells that the hang was reproduced.
pub fn triggered_line(attempt: u32) -> (r: String)
    ensures
        r@ == triggered_text(attempt),
        r@ == "["@ + crate::text::decimal(attempt as int) + "] "@
            + "TRIGGERED: io_uring_enter was blocked inside the tty read"@,
{
    tagged_text(attempt, "TRIGGERED: io_uring_enter was blocked inside the tty read")
}

// -------------------------------------------------------------- all in all

/// The text of [`no_hang_line`].
pub open spec fn no_hang_text(attempts: u32) -> Seq<char> {
    "no hang after "@ + crate::text::decimal(attempts as int) + " attempts"@
}

/// Tells that no attempt hung.
pub fn no_hang_line(attempts: u32) -> (r: String)
    ensures
        r@ == no_hang_text(attempts),
        r@ == "no hang after "@ + crate::text::decimal(attempts as int) + " attempts"@,
{
    let mut line = String::from_str("no hang after ");
    push_decimal(&mut line, attempts as i64);
    line.append(" attempts");
    line
}

/// The text of [`mapping_failure`].
pub open spec fn mapping_failure_text(reason: Seq<char>) -> Seq<char> {
    "mmap failed: "@ + reason
}

/// Tells that memory of the ring could not be mapped.
pub fn mapping_failure(reason: &str) -> (r: String)
    ensures
        r@ == mapping_failure_text(reason@),
        r@ == "mmap failed: "@ + reason@,
{
    let mut line = String::from_str("mmap failed: ");
    line.append(reason);
    line
}

/// The text of [`setup_failure`].
pub open spec fn setup_failure_text(reason: Seq<char>) -> Seq<char> {
    "io_uring_setup: "@ + reason
}

/// Tells that the ring could not be set up.
pub fn setup_failure(reason: &str) -> (r: String)
    ensures
        r@ == setup_failure_text(reason@),
        r@ == "io_uring_setup: "@ + reason@,
{
    let mut line = String::from_str("io_uring_setup: ");
    line.append(reason);
    line
}

/// The name of a request to the terminal.
pub open spec fn request_name(request: PtyRequest) -> Seq<char> {
    match request {
        PtyRequest::OpenMaster => "open /dev/ptmx"@,
        PtyRequest::Unlock => "TIOCSPTLCK"@,
        PtyRequest::Number => "TIOCGPTN"@,
        PtyRequest::OpenSlave => "open pts"@,
        PtyRequest::PacketMode => "TIOCPKT"@,
    }
}

/// The text of [`request_failure`].
pub open spec fn request_failure_text(request: PtyRequest, reason: Seq<char>) -> Seq<char> {
    request_name(request) + ": "@ + reason
}

/// Tells that a request to the terminal failed.
pub fn request_failure(request: PtyRequest, reason: &str) -> (r: String)
    ensures
        r@ == request_failure_text(request, reason@),
        r@ == (match request {
                PtyRequest::OpenMaster => "open /dev/ptmx"@,
                PtyRequest::Unlock => "TIOCSPTLCK"@,
                PtyRequest::Number => "TIOCGPTN"@,
                PtyRequest::OpenSlave => "open pts"@,
                PtyRequest::PacketMode => "TIOCPKT"@,
            }) + ": "@ + reason@,
{
    let mut line = match request {
        PtyRequest::OpenMaster => String::from_str("open /dev/ptmx"),
        PtyRequest::Unlock => String::from_str("TIOCSPTLCK"),
        PtyRequest::Number => String::from_str("TIOCGPTN"),
        PtyRequest::OpenSlave => String::from_str("open pts"),
        PtyRequest::PacketMode => String::from_str("TIOCPKT"),
    };
    line.append(": ");
    line.append(reason);
    line
}

/// The lines that explain the program.
pub open spec fn explanation() -> Seq<Seq<char>> {
    seq![
        "io_uring poll-fallback hang POC (liburing issue #1623)"@,
        ""@,
        "- fallback introduced by kernel commit f7c913438533 (\"io_uring/rw: allow pollable"@,
        "  non-blocking attempts for !FMODE_NOWAIT\")"@,
        "- a blocking pty master reader holds ldata->atomic_read_lock while waiting for input"@,
        "- TIOCPKT enables packet mode; TCFLSH on the slave sets slave->ctrl.pktstatus"@,
        "- n_tty_poll() on the master then reports EPOLLIN and io_file_supports_nowait()"@,
        "  trusts that snapshot, issuing the read with IOCB_NOWAIT"@,
        "- the competing reader consumes the status byte, and n_tty_read() ignores"@,
        "  IOCB_NOWAIT, so it blocks inside io_uring_enter()"@,
        "- the read is linked to a 100ms IORING_OP_LINK_TIMEOUT, but io_uring only arms"@,
        "  the timer after the issue callback returns, which never happens while blocked"@,
    ]
}

/// The lines that ask for more privileges.
pub open spec fn privilege_note() -> Seq<Seq<char>> {
    seq![
        ""@,
        "note: /proc/<tid>/stack requires CAP_SYS_ADMIN; run with sudo to get kernel stacks"@,
    ]
}

/// The texts of some lines.
pub open spec fn texts(lines: Seq<&'static str>) -> Seq<Seq<char>> {
    lines.map_values(|line: &'static str| line@)
}

/// The lines that the program begins with, given its effective user.
pub fn banner(euid: u32) -> (r: Vec<&'static str>)
    ensures
        texts(r@) == explanation() + (if euid != 0 {
            privilege_note()
        } else {
            Seq::empty()
        }) + seq![""@],
        r@.len() == (if euid != 0 {
            15int
        } else {
            13int
        }),
        r@[0]@ == "io_uring poll-fallback hang POC (liburing issue #1623)"@,
        r@[1]@ == ""@,
        r@[2]@
            == "- fallback introduced by kernel commit f7c913438533 (\"io_uring/rw: allow pollable"@,
        r@[3]@ == "  non-blocking attempts for !FMODE_NOWAIT\")"@,
        r@[4]@
            == "- a blocking pty master reader holds ldata->atomic_read_lock while waiting for input"@,
        r@[5]@ == "- TIOCPKT enables packet mode; TCFLSH on the slave sets slave->ctrl.pktstatus"@,
        r@[6]@ == "- n_tty_poll() on the master then reports EPOLLIN and io_file_supports_nowait()"@,
        r@[7]@ == "  trusts that snapshot, issuing the read with IOCB_NOWAIT"@,
        r@[8]@ == "- the competing reader consumes the status byte, and n_tty_read() ignores"@,
        r@[9]@ == "  IOCB_NOWAIT, so it blocks inside io_uring_enter()"@,
        r@[10]@ == "- the read is linked to a 100ms IORING_OP_LINK_TIMEOUT, but io_uring only arms"@,
        r@[11]@ == "  the timer after the issue callback returns, which never happens while blocked"@,
        r@[12]@ == ""@,
        euid != 0 ==> r@[13]@
            == "note: /proc/<tid>/stack requires CAP_SYS_ADMIN; run with sudo to get kernel stacks"@,
        euid != 0 ==> r@[14]@ == ""@,
{
    let mut lines: Vec<&'static str> = Vec::new();
    lines.push("io_uring poll-fallback hang POC (liburing issue #1623)");
    lines.push("");
    lines.push(
        "- fallback introduced by kernel commit f7c913438533 (\"io_uring/rw: allow pollable",
    );
    lines.push("  non-blocking attempts for !FMODE_NOWAIT\")");
    lines.push(
        "- a blocking pty master reader holds ldata->atomic_read_lock while waiting for input",
    );
    lines.push("- TIOCPKT enables packet mode; TCFLSH on the slave sets slave->ctrl.pktstatus");
    lines.push("- n_tty_poll() on the master then reports EPOLLIN and io_file_supports_nowait()");
    lines.push("  trusts that snapshot, issuing the read with IOCB_NOWAIT");
    lines.push("- the competing reader consumes the status byte, and n_tty_read() ignores");
    lines.push("  IOCB_NOWAIT, so it blocks inside io_uring_enter()");
    lines.push("- the read is linked to a 100ms IORING_OP_LINK_TIMEOUT, but io_uring only arms");
    lines.push("  the timer after the issue callback returns, which never happens while blocked");
    assert(texts(lines@) =~= explanation());
    if euid != 0 {
        lines.push("");
        lines.push(
            "note: /proc/<tid>/stack requires CAP_SYS_ADMIN; run with sudo to get kernel stacks",
        );
        assert(texts(lines@) =~= explanation() + privilege_note());
    }
    lines.push("");
    lines
}

// ------------------------------------------------- which action prints what

/// What reading some files gave, in the order of the probes.
pub type Reads = Vec<Result<String, ReadFailure>>;

/// The files that are read for the line of an attempt's action.
pub open spec fn probes_of_attempt(action: AttemptAction) -> Seq<Probe> {
    match action {
        AttemptAction::ShowConsumer { tid } => seq![Probe { tid, file: TaskFile::Wchan }],
        _ => Seq::empty(),
    }
}

/// The line that an attempt's action prints, where it prints one.
pub open spec fn line_of_attempt(
    attempt: u32,
    action: AttemptAction,
    nonblock: i32,
    reads: Seq<Result<String, ReadFailure>>,
) -> Option<Seq<char>> {
    match action {
        AttemptAction::ShowFlags { flags } => Some(flags_text(attempt, flags, nonblock)),
        AttemptAction::ShowConsumer { tid } => Some(
            consumer_text(attempt, tid, crate::procfs::wchan_text(reads[0])),
        ),
        AttemptAction::ShowControl => Some(control_text(attempt)),
        AttemptAction::ShowFlush { result } => Some(flush_text(attempt, result)),
        AttemptAction::ShowEnter { result, was_hung } => Some(
            enter_text(attempt, result, was_hung),
        ),
        AttemptAction::ShowCompletion { cqe } => Some(completion_text(attempt, cqe)),
        _ => None,
    }
}

/// Tells which files are to be read for the line of an attempt's action.
pub fn attempt_probes(action: &AttemptAction) -> (r: Vec<Probe>)
    ensures
        r@ == probes_of_attempt(*action),
        match *action {
            AttemptAction::ShowConsumer { tid } => r@.len() == 1 && r@[0].tid == tid
                && r@[0].file == TaskFile::Wchan,
            _ => r@.len() == 0,
        },
{
    let mut probes: Vec<Probe> = Vec::new();
    if let AttemptAction::ShowConsumer { tid } = action {
        probes.push(Probe { tid: *tid, file: TaskFile::Wchan });
    }
    probes
}

/// The line of an attempt's action, given what reading its files gave; nothing
/// where the action prints none.
pub fn attempt_line(attempt: u32, action: &AttemptAction, nonblock: i32, reads: &Reads) -> (r:
    Option<String>)
    requires
        reads@.len() == probes_of_attempt(*action).len(),
    ensures
        match r {
            Some(line) => line_of_attempt(attempt, *action, nonblock, reads@) == Some(line@),
            None => line_of_attempt(attempt, *action, nonblock, reads@) is None,
        },
{
    match action {
        AttemptAction::ShowFlags { flags } => Some(flags_line(attempt, *flags, nonblock)),
        AttemptAction::ShowConsumer { tid } => {
            let wchan = wchan(&reads[0]);
            Some(consumer_line(attempt, *tid, wchan.as_str()))
        },
        AttemptAction::ShowControl => Some(control_line(attempt)),
        AttemptAction::ShowFlush { result } => Some(flush_line(attempt, *result)),
        AttemptAction::ShowEnter { result, was_hung } => Some(
            enter_line(attempt, *result, *was_hung),
        ),
        AttemptAction::ShowCompletion { cqe } => Some(completion_line(attempt, cqe)),
        _ => None,
    }
}

/// The two threads that a watchdog tells of.
#[derive(Clone, Copy, Debug, PartialEq, Eq, Structural)]
pub struct Threads {
    /// The one that submits.
    pub submitter: i32,
    /// The competing reader, zero where there is none.
    pub consumer: i32,
}

/// The files that are read for the line of a watchdog's action.
pub open spec fn probes_of_watchdog(action: WatchdogAction, threads: Threads) -> Seq<Probe> {
    match action {
        WatchdogAction::ShowSubmitter => seq![
            Probe { tid: threads.submitter, file: TaskFile::Syscall },
            Probe { tid: threads.submitter, file: TaskFile::Wchan },
        ],
        WatchdogAction::ShowConsumer => seq![
            Probe { tid: threads.consumer, file: TaskFile::Wchan },
        ],
        WatchdogAction::ShowSubmitterStack => seq![
            Probe { tid: threads.submitter, file: TaskFile::Stack },
        ],
        WatchdogAction::ShowConsumerStack => seq![
            Probe { tid: threads.consumer, file: TaskFile::Stack },
        ],
        _ => Seq::empty(),
    }
}

/// The line that a watchdog's action prints, where it prints one.
pub open spec fn line_of_watchdog(
    attempt: u32,
    action: WatchdogAction,
    threads: Threads,
    reads: Seq<Result<String, ReadFailure>>,
) -> Option<Seq<char>> {
    match action {
        WatchdogAction::ShowHang => Some(hang_text(attempt)),
        WatchdogAction::ShowSilence { completions } => Some(silence_text(attempt, completions)),
        WatchdogAction::ShowSubmitter => Some(
            submitter_text(
                attempt,
                threads.submitter,
                crate::procfs::syscall_text(reads[0]),
                crate::procfs::wchan_text(reads[1]),
            ),
        ),
        WatchdogAction::ShowConsumer => Some(
            competitor_text(attempt, threads.consumer, crate::procfs::wchan_text(reads[0])),
        ),
        WatchdogAction::ShowSubmitterStack => Some(
            submitter_stack_text(attempt, crate::procfs::stack_text(reads[0])),
        ),
        WatchdogAction::ShowConsumerStack => Some(
            consumer_stack_text(attempt, crate::procfs::stack_text(reads[0])),
        ),
        WatchdogAction::ShowFed { written } => Some(fed_text(attempt, written)),
        WatchdogAction::ShowReturned => Some(returned_text(attempt)),
        WatchdogAction::ShowTriggered => Some(triggered_text(attempt)),
        WatchdogAction::ShowStillBlocked => Some(still_blocked_text(attempt)),
        _ => None,
    }
}

/// Tells which files are to be read for the line of a watchdog's action.
pub fn watchdog_probes(action: &WatchdogAction, threads: &Threads) -> (r: Vec<Probe>)
    ensures
        r@ == probes_of_watchdog(*action, *threads),
        match *action {
            WatchdogAction::ShowSubmitter => {
                &&& r@.len() == 2
                &&& r@[0].tid == threads.submitter && r@[0].file == TaskFile::Syscall
                &&& r@[1].tid == threads.submitter && r@[1].file == TaskFile::Wchan
            },
            WatchdogAction::ShowConsumer => r@.len() == 1 && r@[0].tid == threads.consumer
                && r@[0].file == TaskFile::Wchan,
            WatchdogAction::ShowSubmitterStack => r@.len() == 1 && r@[0].tid == threads.submitter
                && r@[0].file == TaskFile::Stack,
            WatchdogAction::ShowConsumerStack => r@.len() == 1 && r@[0].tid == threads.consumer
                && r@[0].file == TaskFile::Stack,
            _ => r@.len() == 0,
        },
{
    let mut probes: Vec<Probe> = Vec::new();
    match action {
        WatchdogAction::ShowSubmitter => {
            probes.push(Probe { tid: threads.submitter, file: TaskFile::Syscall });
            probes.push(Probe { tid: threads.submitter, file: TaskFile::Wchan });
        },
        WatchdogAction::ShowConsumer => {
            probes.push(Probe { tid: threads.consumer, file: TaskFile::Wchan });
        },
        WatchdogAction::ShowSubmitterStack => {
            probes.push(Probe { tid: threads.submitter, file: TaskFile::Stack });
        },
        WatchdogAction::ShowConsumerStack => {
            probes.push(Probe { tid: threads.consumer, file: TaskFile::Stack });
        },
        _ => {},
    }
    probes
}

/// The line of a watchdog's action, given what reading its files gave; nothing
/// where the action prints none.
pub fn watchdog_line(attempt: u32, action: &WatchdogAction, threads: &Threads, reads: &Reads) -> (r:
    Option<String>)
    requires
        reads@.len() == probes_of_watchdog(*action, *threads).len(),
    ensures
        match r {
            Some(line) => line_of_watchdog(attempt, *action, *threads, reads@) == Some(line@),
            None => line_of_watchdog(attempt, *action, *threads, reads@) is None,
        },
{
    match action {
        WatchdogAction::ShowHang => Some(hang_line(attempt)),
        WatchdogAction::ShowSilence { completions } => Some(silence_line(attempt, *completions)),
        WatchdogAction::ShowSubmitter => {
            let syscall = syscall_of(&reads[0]);
            let wchan = wchan(&reads[1]);
            Some(submitter_line(attempt, threads.submitter, syscall.as_str(), wchan.as_str()))
        },
        WatchdogAction::ShowConsumer => {
            let wchan = wchan(&reads[0]);
            Some(competitor_line(attempt, threads.consumer, wchan.as_str()))
        },
        WatchdogAction::ShowSubmitterStack => {
            let stack = stack_trace(&reads[0]);
            Some(submitter_stack(attempt, stack.as_str()))
        },
        WatchdogAction::ShowConsumerStack => {
            let stack = stack_trace(&reads[0]);
            Some(consumer_stack(attempt, stack.as_str()))
        },
        WatchdogAction::ShowFed { written } => Some(fed_line(attempt, *written)),
        WatchdogAction::ShowReturned => Some(returned_line(attempt)),
        WatchdogAction::ShowTriggered => Some(triggered_line(attempt)),
        WatchdogAction::ShowStillBlocked => Some(still_blocked_line(attempt)),
        _ => None,
    }
}

/// The line that an action of the program's run prints, where it prints one.
pub open spec fn line_of_campaign(action: CampaignAction) -> Option<Seq<char>> {
    match action {
        CampaignAction::ShowTriggered { attempt } => Some(triggered_text(attempt)),
        CampaignAction::ShowNoHang { attempts } => Some(no_hang_text(attempts)),
        _ => None,
    }
}

/// The line of an action of the program's run; nothing where it prints none.
pub fn campaign_line(action: &CampaignAction) -> (r: Option<String>)
    ensures
        match r {
            Some(line) => line_of_campaign(*action) == Some(line@),
            None => line_of_campaign(*action) is None,
        },
{
    match action {
        CampaignAction::ShowTriggered { attempt } => Some(triggered_line(*attempt)),
        CampaignAction::ShowNoHang { attempts } => Some(no_hang_line(*attempts)),
        _ => None,
    }
}

/// The line that an action of setting a ring up prints, where it prints one,
/// given the reason of the failure.
pub open spec fn line_of_setup(action: SetupAction, reason: Seq<char>) -> Option<Seq<char>> {
    match action {
        SetupAction::ShowSetupFailure => Some(setup_failure_text(reason)),
        SetupAction::ShowMappingFailure => Some(mapping_failure_text(reason)),
        _ => None,
    }
}

/// The line of an action of setting a ring up; nothing where it prints none.
pub fn setup_line(action: &SetupAction, reason: &str) -> (r: Option<String>)
    ensures
        match r {
            Some(line) => line_of_setup(*action, reason@) == Some(line@),
            None => line_of_setup(*action, reason@) is None,
        },
{
    match action {
        SetupAction::ShowSetupFailure => Some(setup_failure(reason)),
        SetupAction::ShowMappingFailure => Some(mapping_failure(reason)),
        _ => None,
    }
}

/// A line that tells of a thread names the one whose files were read for it,
/// and files are read only for a line.
pub proof fn law_a_line_names_the_thread_it_read(
    attempt: u32,
    nonblock: i32,
    tid: i32,
    threads: Threads,
    reads: Seq<Result<String, ReadFailure>>,
)
    ensures
        ({
            let action = AttemptAction::ShowConsumer { tid };
            line_of_attempt(attempt, action, nonblock, reads) == Some(
                consumer_text(
                    attempt,
                    probes_of_attempt(action)[0].tid,
                    crate::procfs::wchan_text(reads[0]),
                ),
            )
        }),
        ({
            let probes = probes_of_watchdog(WatchdogAction::ShowSubmitter, threads);
            &&& probes[0].tid == probes[1].tid
            &&& line_of_watchdog(attempt, WatchdogAction::ShowSubmitter, threads, reads) == Some(
                submitter_text(
                    attempt,
                    probes[0].tid,
                    crate::procfs::syscall_text(reads[0]),
                    crate::procfs::wchan_text(reads[1]),
                ),
            )
        }),
        ({
            let probes = probes_of_watchdog(WatchdogAction::ShowConsumer, threads);
            line_of_watchdog(attempt, WatchdogAction::ShowConsumer, threads, reads) == Some(
                competitor_text(attempt, probes[0].tid, crate::procfs::wchan_text(reads[0])),
            )
        }),
        forall|action: AttemptAction| #[trigger]
            probes_of_attempt(action).len() > 0 ==> line_of_attempt(
                attempt,
                action,
                nonblock,
                reads,
            ) is Some,
        forall|action: WatchdogAction| #[trigger]
            probes_of_watchdog(action, threads).len() > 0 ==> line_of_watchdog(
                attempt,
                action,
                threads,
                reads,
            ) is Some,
{
}

/// A tag is the attempt's number in brackets, and a space.
pub proof fn law_a_tag_is_the_number_in_brackets(attempt: u32)
    ensures
        tag(attempt) == seq!['['] + crate::text::decimal(attempt as int) + seq![']', ' '],
{
    reveal_strlit("[");
    reveal_strlit("] ");
    assert("["@ =~= seq!['[']);
    assert("] "@ =~= seq![']', ' ']);
}

/// No two attempts have the same tag.
pub proof fn law_a_tag_tells_its_attempt(a: u32, b: u32)
    requires
        tag(a) == tag(b),
    ensures
        a == b,
{
    law_a_tag_is_the_number_in_brackets(a);
    law_a_tag_is_the_number_in_brackets(b);
    let x = crate::text::decimal(a as int);
    let y = crate::text::decimal(b as int);
    assert(tag(a).len() == x.len() + 3 && tag(b).len() == y.len() + 3);
    assert forall|i: int| 0 <= i < x.len() implies x[i] == y[i] by {
        assert(tag(a)[i + 1] == x[i]);
        assert(tag(b)[i + 1] == y[i]);
    }
    assert(x =~= y);
    crate::text::law_decimal_is_injective(a as int, b as int);
}

/// A stack is shown whole behind its heading and a line break, character by
/// character, whatever line breaks it holds.
pub proof fn law_stacks_are_shown_whole(attempt: u32, stack: Seq<char>)
    ensures
        consumer_stack_text(attempt, Seq::empty()) == tag(attempt) + "consumer kernel stack:\n"@,
        consumer_stack_text(attempt, stack) == consumer_stack_text(attempt, Seq::empty()) + stack,
        consumer_stack_text(attempt, stack).skip(
            consumer_stack_text(attempt, Seq::empty()).len() as int,
        ) == stack,
        submitter_stack_text(attempt, Seq::empty()) == tag(attempt) + "submitter kernel stack:\n"@,
        submitter_stack_text(attempt, stack) == submitter_stack_text(attempt, Seq::empty()) + stack,
        submitter_stack_text(attempt, stack).skip(
            submitter_stack_text(attempt, Seq::empty()).len() as int,
        ) == stack,
{
    let consumer = tag(attempt) + "consumer kernel stack:\n"@;
    let submitter = tag(attempt) + "submitter kernel stack:\n"@;
    assert(consumer + Seq::<char>::empty() =~= consumer);
    assert(submitter + Seq::<char>::empty() =~= submitter);
    assert((consumer + stack).skip(consumer.len() as int) =~= stack);
    assert((submitter + stack).skip(submitter.len() as int) =~= stack);
}

/// Where a thread sleeps, and in which system call, is shown whole and in its
/// place, whatever was read.
pub proof fn law_sleeps_are_shown_whole(
    attempt: u32,
    tid: i32,
    syscall: Seq<char>,
    wchan: Seq<char>,
)
    ensures
        consumer_text(attempt, tid, wchan) == tag(attempt) + "consumer tid "@
            + crate::text::decimal(tid as int) + " blocked, wchan: "@ + wchan,
        consumer_text(attempt, tid, wchan) == consumer_text(attempt, tid, Seq::empty()) + wchan,
        competitor_text(attempt, tid, wchan) == tag(attempt) + "consumer  tid "@
            + crate::text::decimal(tid as int) + " wchan: "@ + wchan,
        competitor_text(attempt, tid, wchan) == competitor_text(attempt, tid, Seq::empty()) + wchan,
        submitter_text(attempt, tid, syscall, wchan) == tag(attempt) + "submitter tid "@
            + crate::text::decimal(tid as int) + " in syscall "@ + syscall
            + " (426=io_uring_enter), wchan: "@ + wchan,
        submitter_text(attempt, tid, syscall, wchan) == submitter_text(
            attempt,
            tid,
            syscall,
            Seq::empty(),
        ) + wchan,
{
    let consumer = tag(attempt) + "consumer tid "@ + crate::text::decimal(tid as int)
        + " blocked, wchan: "@;
    let competitor = tag(attempt) + "consumer  tid "@ + crate::text::decimal(tid as int)
        + " wchan: "@;
    let submitter = tag(attempt) + "submitter tid "@ + crate::text::decimal(tid as int)
        + " in syscall "@ + syscall + " (426=io_uring_enter), wchan: "@;
    assert(consumer + Seq::<char>::empty() =~= consumer);
    assert(competitor + Seq::<char>::empty() =~= competitor);
    assert(submitter + Seq::<char>::empty() =~= submitter);
}

/// The reason of a failure is shown whole behind what failed.
pub proof fn law_reasons_are_shown_whole(request: PtyRequest, reason: Seq<char>)
    ensures
        mapping_failure_text(reason) == "mmap failed: "@ + reason,
        setup_failure_text(reason) == "io_uring_setup: "@ + reason,
        request_failure_text(request, reason) == (match request {
            PtyRequest::OpenMaster => "open /dev/ptmx"@,
            PtyRequest::Unlock => "TIOCSPTLCK"@,
            PtyRequest::Number => "TIOCGPTN"@,
            PtyRequest::OpenSlave => "open pts"@,
            PtyRequest::PacketMode => "TIOCPKT"@,
        }) + ": "@ + reason,
        request_failure_text(request, reason) == request_failure_text(request, Seq::empty())
            + reason,
{
    let heading = request_name(request) + ": "@;
    assert(heading + Seq::<char>::empty() =~= heading);
}

/// Every number stands in its line in decimal notation, the status flags in
/// hexadecimal, and a truth value as a word, whatever they are.
pub proof fn law_values_stand_in_their_lines(
    attempt: u32,
    flags: i32,
    nonblock: i32,
    result: i32,
    was_hung: bool,
    completions: u32,
    written: i64,
)
    ensures
        flags_text(attempt, flags, nonblock) == tag(attempt) + "master flags "@ + crate::text::hex(
            if flags < 0 {
                (flags + 0x1_0000_0000) as nat
            } else {
                flags as nat
            },
        ) + " (O_NONBLOCK="@ + crate::text::truth(flags & nonblock != 0) + ")"@,
        flush_text(attempt, result) == tag(attempt) + "TCFLSH(TCIFLUSH) on slave = "@
            + crate::text::decimal(result as int) + ", submitting read + 100ms link timeout"@,
        enter_text(attempt, result, was_hung) == tag(attempt) + "io_uring_enter returned "@
            + crate::text::decimal(result as int) + ", was_hung="@ + crate::text::truth(was_hung),
        silence_text(attempt, completions) == tag(attempt) + "100ms link timeout did not fire: "@
            + crate::text::decimal(completions as int) + " CQEs after 3s (read="@
            + crate::text::hex(0x1623) + ", timeout="@ + crate::text::hex(0x1624) + ")"@,
        fed_text(attempt, written) == tag(attempt) + "fed 1 byte into the slave (write="@
            + crate::text::decimal(written as int) + ")"@,
        no_hang_text(completions) == "no hang after "@ + crate::text::decimal(completions as int)
            + " attempts"@,
{
}

/// The lines without a value of their own are their words behind the tag.
pub proof fn law_plain_lines_are_their_words(attempt: u32)
    ensures
        control_text(attempt) == tag(attempt) + "control run: no competing reader"@,
        hang_text(attempt) == tag(attempt) + "HANG: io_uring_enter has not returned for 3s"@,
        returned_text(attempt) == tag(attempt) + "io_uring_enter returned after input was fed"@,
        still_blocked_text(attempt) == tag(attempt) + "still blocked after feeding input"@,
        triggered_text(attempt) == tag(attempt)
            + "TRIGGERED: io_uring_enter was blocked inside the tty read"@,
{
}

/// A completion is told by its operation, its own tag and its own result, and is
/// remarked on if and only if it is the timeout's and tells that the timer was
/// cancelled or that it fired.
pub proof fn law_a_completion_is_told_as_it_is(attempt: u32, cqe: Cqe)
    ensures
        completion_text(attempt, cqe) == tag(attempt) + "cqe "@ + operation(cqe.user_data)
            + ": user_data="@ + crate::text::hex(cqe.user_data as nat) + " res="@
            + crate::text::decimal(cqe.res as int) + remark(cqe),
        cqe.user_data == 0x1623 ==> operation(cqe.user_data) == "read"@,
        cqe.user_data == 0x1624 ==> operation(cqe.user_data) == "link-timeout"@,
        cqe.user_data != 0x1623 && cqe.user_data != 0x1624 ==> operation(cqe.user_data) == "?"@,
        remark(cqe).len() > 0 <==> cqe.user_data == 0x1624 && (cqe.res == -125 || cqe.res == -62),
        cqe.user_data == 0x1624 && cqe.res == -125 ==> remark(cqe)
            == " (ECANCELED: timer never fired)"@,
        cqe.user_data == 0x1624 && cqe.res == -62 ==> remark(cqe) == " (ETIME: timer fired!)"@,
{
    reveal_strlit("");
    reveal_strlit(" (ECANCELED: timer never fired)");
    reveal_strlit(" (ETIME: timer fired!)");
}

/// Which of an attempt's actions print a line, and which line it is, for whatever
/// values the action holds.
pub proof fn law_an_attempt_prints_what_it_shows(
    attempt: u32,
    action: AttemptAction,
    nonblock: i32,
    reads: Seq<Result<String, ReadFailure>>,
)
    ensures
        ({
            let line = line_of_attempt(attempt, action, nonblock, reads);
            &&& line is Some <==> action is ShowFlags || action is ShowConsumer
                || action is ShowControl || action is ShowFlush || action is ShowEnter
                || action is ShowCompletion
            &&& action matches AttemptAction::ShowFlags { flags } ==> line == Some(
                flags_text(attempt, flags, nonblock),
            )
            &&& action matches AttemptAction::ShowConsumer { tid } ==> line == Some(
                consumer_text(attempt, tid, crate::procfs::wchan_text(reads[0])),
            )
            &&& action is ShowControl ==> line == Some(control_text(attempt))
            &&& action matches AttemptAction::ShowFlush { result } ==> line == Some(
                flush_text(attempt, result),
            )
            &&& action matches AttemptAction::ShowEnter { result, was_hung } ==> line == Some(
                enter_text(attempt, result, was_hung),
            )
            &&& action matches AttemptAction::ShowCompletion { cqe } ==> line == Some(
                completion_text(attempt, cqe),
            )
        }),
        action matches AttemptAction::ShowConsumer { tid } ==> probes_of_attempt(action) == seq![
            Probe { tid, file: TaskFile::Wchan },
        ],
        !(action is ShowConsumer) ==> probes_of_attempt(action).len() == 0,
{
}

/// Which of the watchdog's actions print a line, and which line it is, for
/// whatever values the action holds and whatever was read.
pub proof fn law_the_watchdog_prints_what_it_shows(
    attempt: u32,
    action: WatchdogAction,
    threads: Threads,
    reads: Seq<Result<String, ReadFailure>>,
)
    ensures
        ({
            let line = line_of_watchdog(attempt, action, threads, reads);
            let probes = probes_of_watchdog(action, threads);
            &&& line is None <==> action is Poll || action is Stop || action is RaiseHung
                || action is CountCompletions || action is FeedByte || action is PollAgain
                || action is Exit
            &&& action is ShowHang ==> line == Some(hang_text(attempt))
            &&& action matches WatchdogAction::ShowSilence { completions } ==> line == Some(
                silence_text(attempt, completions),
            )
            &&& action is ShowSubmitter ==> {
                &&& line == Some(
                    submitter_text(
                        attempt,
                        threads.submitter,
                        crate::procfs::syscall_text(reads[0]),
                        crate::procfs::wchan_text(reads[1]),
                    ),
                )
                &&& probes == seq![
                    Probe { tid: threads.submitter, file: TaskFile::Syscall },
                    Probe { tid: threads.submitter, file: TaskFile::Wchan },
                ]
            }
            &&& action is ShowConsumer ==> {
                &&& line == Some(
                    competitor_text(attempt, threads.consumer, crate::procfs::wchan_text(reads[0])),
                )
                &&& probes == seq![Probe { tid: threads.consumer, file: TaskFile::Wchan }]
            }
            &&& action is ShowSubmitterStack ==> {
                &&& line == Some(submitter_stack_text(attempt, crate::procfs::stack_text(reads[0])))
                &&& probes == seq![Probe { tid: threads.submitter, file: TaskFile::Stack }]
            }
            &&& action is ShowConsumerStack ==> {
                &&& line == Some(consumer_stack_text(attempt, crate::procfs::stack_text(reads[0])))
                &&& probes == seq![Probe { tid: threads.consumer, file: TaskFile::Stack }]
            }
            &&& action matches WatchdogAction::ShowFed { written } ==> line == Some(
                fed_text(attempt, written),
            )
            &&& action is ShowReturned ==> line == Some(returned_text(attempt))
            &&& action is ShowTriggered ==> line == Some(triggered_text(attempt))
            &&& action is ShowStillBlocked ==> line == Some(still_blocked_text(attempt))
            &&& probes.len() > 0 <==> action is ShowSubmitter || action is ShowConsumer
                || action is ShowSubmitterStack || action is ShowConsumerStack
        }),
{
}

/// Which actions of a run, and of setting a ring up, print a line, and which line
/// it is, for whatever numbers and reasons.
pub proof fn law_a_run_prints_what_it_shows(
    run: CampaignAction,
    setup: SetupAction,
    reason: Seq<char>,
)
    ensures
        line_of_campaign(run) is Some <==> run is ShowTriggered || run is ShowNoHang,
        run matches CampaignAction::ShowTriggered { attempt } ==> line_of_campaign(run) == Some(
            triggered_text(attempt),
        ),
        run matches CampaignAction::ShowNoHang { attempts } ==> line_of_campaign(run) == Some(
            no_hang_text(attempts),
        ),
        line_of_setup(setup, reason) is Some <==> setup is ShowSetupFailure
            || setup is ShowMappingFailure,
        setup is ShowSetupFailure ==> line_of_setup(setup, reason) == Some(
            setup_failure_text(reason),
        ),
        setup is ShowMappingFailure ==> line_of_setup(setup, reason) == Some(
            mapping_failure_text(reason),
        ),
{
}

} // verus!
