//! What the kernel tells of a thread in its `/proc` files.
use vstd::prelude::*;
use vstd::string::*;
use crate::text::{push_decimal, take_word, trim, trim_end};

verus! {

/// Why a file could not be read.
#[derive(Debug, PartialEq, Eq)]
pub enum ReadFailure {
    PermissionDenied,
    /// Any other reason, in the words of the system.
    Other(String),
}

/// A file that describes a thread of this process.
#[derive(Clone, Copy, Debug, PartialEq, Eq, Structural)]
pub enum TaskFile {
    /// The kernel function that the thread sleeps in.
    Wchan,
    /// The system call that the thread is in.
    Syscall,
    /// The kernel stack of the thread.
    Stack,
}

/// The name of such a file.
pub open spec fn file_name(file: TaskFile) -> Seq<char> {
    match file {
        TaskFile::Wchan => "wchan"@,
        TaskFile::Syscall => "syscall"@,
        TaskFile::Stack => "stack"@,
    }
}

/// The path of a thread's file.
pub fn task_path(tid: i32, file: TaskFile) -> (r: String)
    ensures
        r@ == "/proc/self/task/"@ + crate::text::decimal(tid as int) + "/"@ + file_name(file),
        file is Wchan ==> r@ == "/proc/self/task/"@ + crate::text::decimal(tid as int) + "/"@
            + "wchan"@,
        file is Syscall ==> r@ == "/proc/self/task/"@ + crate::text::decimal(tid as int) + "/"@
            + "syscall"@,
        file is Stack ==> r@ == "/proc/self/task/"@ + crate::text::decimal(tid as int) + "/"@
            + "stack"@,
{
    let mut path = String::from_str("/proc/self/task/");
    push_decimal(&mut path, tid as i64);
    path.append("/");
    match file {
        TaskFile::Wchan => path.append("wchan"),
        TaskFile::Syscall => path.append("syscall"),
        TaskFile::Stack => path.append("stack"),
    }
    path
}

/// What stands for the contents of a file that could not be read.
pub open spec fn unavailable() -> Seq<char> {
    "<unavailable>"@
}

/// A file to be read of a thread.
#[derive(Clone, Copy, Debug, PartialEq, Eq, Structural)]
pub struct Probe {
    pub tid: i32,
    pub file: TaskFile,
}

/// The text that reading a thread's `wchan` file stands for.
pub open spec fn wchan_text(read: Result<String, ReadFailure>) -> Seq<char> {
    match read {
        Ok(s) => crate::text::trimmed(s@),
        Err(_) => unavailable(),
    }
}

/// The text that reading a thread's `syscall` file stands for.
pub open spec fn syscall_text(read: Result<String, ReadFailure>) -> Seq<char> {
    match read {
        Ok(s) => match crate::text::first_word(s@) {
            Some(w) => w,
            None => "?"@,
        },
        Err(_) => unavailable(),
    }
}

/// The text that reading a thread's `stack` file stands for.
pub open spec fn stack_text(read: Result<String, ReadFailure>) -> Seq<char> {
    match read {
        Ok(s) => crate::text::without_end(s@),
        Err(ReadFailure::PermissionDenied) => {
            "<denied: /proc/<tid>/stack needs CAP_SYS_ADMIN; re-run with sudo>"@
        },
        Err(ReadFailure::Other(e)) => "<unavailable: "@ + e@ + ">"@,
    }
}

/// The function that a thread sleeps in, given what reading its file gave.
pub fn wchan(read: &Result<String, ReadFailure>) -> (r: String)
    ensures
        r@ == wchan_text(*read),
        read matches Ok(s) ==> r@ == crate::text::trimmed(s@),
        read is Err ==> r@ == "<unavailable>"@,
{
    match read {
        Ok(s) => String::from_str(trim(s.as_str())),
        Err(_) => String::from_str("<unavailable>"),
    }
}

/// The number of the system call that a thread is in, given what reading its
/// file gave: the first word, or a question mark where there is none.
pub fn syscall_of(read: &Result<String, ReadFailure>) -> (r: String)
    ensures
        r@ == syscall_text(*read),
        read matches Ok(s) ==> (match crate::text::first_word(s@) {
            Some(w) => r@ == w,
            None => r@ == "?"@,
        }),
        read is Err ==> r@ == "<unavailable>"@,
{
    match read {
        Ok(s) => match take_word(s.as_str()) {
            Some(w) => String::from_str(w),
            None => String::from_str("?"),
        },
        Err(_) => String::from_str("<unavailable>"),
    }
}

/// The kernel stack of a thread, given what reading its file gave.
pub fn stack_trace(read: &Result<String, ReadFailure>) -> (r: String)
    ensures
        r@ == stack_text(*read),
        match *read {
            Ok(s) => r@ == crate::text::without_end(s@),
            Err(ReadFailure::PermissionDenied) => r@
                == "<denied: /proc/<tid>/stack needs CAP_SYS_ADMIN; re-run with sudo>"@,
            Err(ReadFailure::Other(e)) => r@ == "<unavailable: "@ + e@ + ">"@,
        },
{
    match read {
        Ok(s) => String::from_str(trim_end(s.as_str())),
        Err(ReadFailure::PermissionDenied) => String::from_str(
            "<denied: /proc/<tid>/stack needs CAP_SYS_ADMIN; re-run with sudo>",
        ),
        Err(ReadFailure::Other(e)) => {
            let mut out = String::from_str("<unavailable: ");
            out.append(e.as_str());
            out.append(">");
            out
        },
    }
}

/// A stack is told whole, with all its lines: it is what was read up to the white
/// space at the end, and nothing but that is cut off.
pub proof fn law_a_stack_is_told_whole(s: String)
    ensures
        exists|to: int|
            {
                &&& 0 <= to <= s@.len()
                &&& stack_text(Ok(s)) == #[trigger] s@.take(to)
                &&& to > 0 ==> !crate::text::white_space(s@[to - 1])
                &&& forall|i: int|
                    to <= i < s@.len() ==> crate::text::white_space(#[trigger] s@[i])
            },
{
    crate::text::law_the_end_is_cut_off(s@);
}

/// The function that a thread sleeps in is told as it was read, but for the white
/// space around it.
pub proof fn law_a_sleep_is_told_without_white_space(s: String)
    ensures
        exists|from: int, to: int|
            {
                &&& 0 <= from <= to <= s@.len()
                &&& wchan_text(Ok(s)) == #[trigger] s@.subrange(from, to)
                &&& forall|i: int| 0 <= i < from ==> crate::text::white_space(#[trigger] s@[i])
                &&& forall|i: int|
                    to <= i < s@.len() ==> crate::text::white_space(#[trigger] s@[i])
            },
        wchan_text(Ok(s)).len() > 0 ==> {
            &&& !crate::text::white_space(wchan_text(Ok(s))[0])
            &&& !crate::text::white_space(wchan_text(Ok(s)).last())
        },
{
    crate::text::law_trimmed_is_the_inner_stretch(s@);
}

/// The system call is told by the first word that was read, and by a question
/// mark if and only if nothing but white space was.
pub proof fn law_a_system_call_is_told_by_its_first_word(s: String)
    ensures
        (forall|i: int| 0 <= i < s@.len() ==> crate::text::white_space(#[trigger] s@[i])) ==> syscall_text(
            Ok(s),
        ) == seq!['?'],
        (exists|i: int| 0 <= i < s@.len() && !crate::text::white_space(#[trigger] s@[i])) ==> exists|
            from: int,
            to: int,
        |
            {
                &&& 0 <= from < to <= s@.len()
                &&& syscall_text(Ok(s)) == #[trigger] s@.subrange(from, to)
                &&& forall|i: int| 0 <= i < from ==> crate::text::white_space(#[trigger] s@[i])
                &&& forall|i: int| from <= i < to ==> !crate::text::white_space(#[trigger] s@[i])
                &&& to < s@.len() ==> crate::text::white_space(s@[to])
            },
{
    reveal_strlit("?");
    assert("?"@ =~= seq!['?']);
    crate::text::law_the_first_word_is_a_stretch(s@);
    if let Some(w) = crate::text::first_word(s@) {
        let (from, to) = choose|from: int, to: int|
            {
                &&& 0 <= from < to <= s@.len()
                &&& w == #[trigger] s@.subrange(from, to)
                &&& forall|i: int| from <= i < to ==> !crate::text::white_space(#[trigger] s@[i])
            };
        assert(!crate::text::white_space(s@[from]));
    }
}

/// A file that could not be read is told by the same words whatever the reason,
/// but for a stack: there a lack of rights is told as such, and any other reason
/// in its own words, all of them.
pub proof fn law_a_failed_read_is_told(failure: ReadFailure, reason: String)
    ensures
        wchan_text(Err(failure)) == "<unavailable>"@,
        syscall_text(Err(failure)) == "<unavailable>"@,
        stack_text(Err(ReadFailure::PermissionDenied))
            == "<denied: /proc/<tid>/stack needs CAP_SYS_ADMIN; re-run with sudo>"@,
        stack_text(Err(ReadFailure::Other(reason))) == "<unavailable: "@ + reason@ + ">"@,
{
}

} // verus!
