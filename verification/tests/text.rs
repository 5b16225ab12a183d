use ttyhang::cli::{parse_args, Config};
use ttyhang::procfs::{stack_trace, syscall_of, task_path, wchan, ReadFailure, TaskFile};
use ttyhang::pty::{is_nonblocking, master_path, pts_path};
use ttyhang::text::{
    chars_of, is_white_space, parse_count, push_decimal, push_hex, push_hex_bits, push_truth,
    take_word, trim, trim_end,
};

fn decimal(n: i64) -> String {
    let mut out = String::new();
    push_decimal(&mut out, n);
    out
}

fn hex(n: u64) -> String {
    let mut out = String::new();
    push_hex(&mut out, n);
    out
}

fn hex_bits(n: i32) -> String {
    let mut out = String::new();
    push_hex_bits(&mut out, n);
    out
}

fn config(args: &[&str]) -> Config {
    parse_args(&args.iter().map(|a| a.to_string()).collect())
}

#[test]
fn decimal_agrees_with_the_standard_format() {
    for n in [0, 1, 9, 10, 11, 99, 100, 4096, -1, -9, -10, -125, i64::MAX, i64::MIN, 0x1623] {
        assert_eq!(decimal(n), format!("{n}"));
    }
    assert_eq!(decimal(i64::MIN), "-9223372036854775808");
}

#[test]
fn hex_agrees_with_the_standard_format() {
    for n in [0, 1, 9, 10, 15, 16, 255, 256, 0x1623, 0x1624, 0xabcdef, u64::MAX] {
        assert_eq!(hex(n), format!("{n:#x}"));
    }
    assert_eq!(hex(0x1623), "0x1623");
}

#[test]
fn hex_of_negative_numbers_shows_their_bits() {
    for n in [0, 1, 2, 0x802, i32::MAX, i32::MIN, -1, -2, -125] {
        assert_eq!(hex_bits(n), format!("{n:#x}"));
    }
    assert_eq!(hex_bits(-1), "0xffffffff");
}

#[test]
fn numbers_are_appended() {
    let mut out = String::from("a");
    push_decimal(&mut out, 7);
    push_hex(&mut out, 8);
    push_truth(&mut out, true);
    push_truth(&mut out, false);
    assert_eq!(out, "a70x8truefalse");
}

#[test]
fn counts_agree_with_the_standard_parser() {
    let texts = [
        "", "+", "-", "0", "5", "+5", "-5", "-0", "++5", "+-5", "5+", " 5", "5 ", "007", "12a",
        "4294967295", "4294967296", "99999999999999999999999999", "--control", "0x10", "1_000",
        "\u{0661}", "+0000000000000000000001", "18446744073709551616", "+4294967295",
    ];
    for text in texts {
        assert_eq!(parse_count(text), text.parse::<u32>().ok(), "{text:?}");
    }
}

#[test]
fn counts_read_back() {
    for n in [0u32, 1, 5, 10, 4096, u32::MAX] {
        assert_eq!(parse_count(&decimal(n as i64)), Some(n));
        assert_eq!(parse_count(&format!("+{}", decimal(n as i64))), Some(n));
    }
}

#[test]
fn white_space_agrees_with_the_standard_library() {
    for c in '\0'..=char::MAX {
        assert_eq!(is_white_space(c), c.is_whitespace(), "{:x}", c as u32);
    }
}

#[test]
fn trimming_agrees_with_the_standard_library() {
    let texts = [
        "", " ", "\n", "a", " a", "a ", " a b ", "\t\r\n a\u{3000}", "\u{a0}x\u{2003}y\u{85}",
        "read_events\n", "  \u{1f600} \u{e9} ", "\u{200b}a\u{200b}",
    ];
    for text in texts {
        assert_eq!(trim(text), text.trim());
        assert_eq!(trim_end(text), text.trim_end());
        assert_eq!(trim(trim(text)), trim(text));
        assert_eq!(take_word(text), text.split_whitespace().next());
    }
}

#[test]
fn characters_come_one_by_one() {
    assert_eq!(chars_of("a\u{e9}\u{1f600}"), vec!['a', '\u{e9}', '\u{1f600}']);
    assert_eq!(chars_of(""), Vec::<char>::new());
}

#[test]
fn task_files_have_their_paths() {
    assert_eq!(task_path(17, TaskFile::Wchan), "/proc/self/task/17/wchan");
    assert_eq!(task_path(0, TaskFile::Syscall), "/proc/self/task/0/syscall");
    assert_eq!(task_path(-1, TaskFile::Stack), "/proc/self/task/-1/stack");
}

#[test]
fn wchan_is_trimmed() {
    assert_eq!(wchan(&Ok(" n_tty_read\n".to_string())), "n_tty_read");
    assert_eq!(wchan(&Ok("0".to_string())), "0");
    assert_eq!(wchan(&Err(ReadFailure::PermissionDenied)), "<unavailable>");
    assert_eq!(wchan(&Err(ReadFailure::Other("gone".to_string()))), "<unavailable>");
}

#[test]
fn syscall_is_the_first_word() {
    assert_eq!(syscall_of(&Ok("426 0x3 0x2 0x0\n".to_string())), "426");
    assert_eq!(syscall_of(&Ok("running\n".to_string())), "running");
    assert_eq!(syscall_of(&Ok("\n \t".to_string())), "?");
    assert_eq!(syscall_of(&Ok(String::new())), "?");
    assert_eq!(syscall_of(&Err(ReadFailure::PermissionDenied)), "<unavailable>");
    assert_eq!(syscall_of(&Err(ReadFailure::Other("gone".to_string()))), "<unavailable>");
}

#[test]
fn stack_keeps_its_start() {
    assert_eq!(stack_trace(&Ok("  [<0>] a\n[<0>] b\n\n".to_string())), "  [<0>] a\n[<0>] b");
    assert_eq!(
        stack_trace(&Err(ReadFailure::PermissionDenied)),
        "<denied: /proc/<tid>/stack needs CAP_SYS_ADMIN; re-run with sudo>"
    );
    assert_eq!(
        stack_trace(&Err(ReadFailure::Other("No such file".to_string()))),
        "<unavailable: No such file>"
    );
}

#[test]
fn slave_path_holds_the_number() {
    assert_eq!(master_path(), "/dev/ptmx");
    assert_eq!(pts_path(3), "/dev/pts/3");
    assert_eq!(pts_path(120), "/dev/pts/120");
}

#[test]
fn nonblocking_is_one_flag() {
    assert!(!is_nonblocking(2, 0o4000));
    assert!(is_nonblocking(2 | 0o4000, 0o4000));
    assert!(is_nonblocking(-1, 0o4000));
}

#[test]
fn command_line_has_defaults() {
    assert_eq!(config(&[]), Config { attempts: 5, control: false });
    assert_eq!(config(&["--help", "x", ""]), Config { attempts: 5, control: false });
}

#[test]
fn last_count_decides() {
    assert_eq!(config(&["3"]), Config { attempts: 3, control: false });
    assert_eq!(config(&["3", "+7"]), Config { attempts: 7, control: false });
    assert_eq!(config(&["3", "-7"]), Config { attempts: 3, control: false });
    assert_eq!(config(&["3", "4294967296"]), Config { attempts: 3, control: false });
    assert_eq!(config(&["0"]), Config { attempts: 0, control: false });
}

#[test]
fn control_may_stand_anywhere() {
    assert_eq!(config(&["--control"]), Config { attempts: 5, control: true });
    assert_eq!(config(&["2", "--control", "9"]), Config { attempts: 9, control: true });
    assert_eq!(config(&["--control", "--control"]), Config { attempts: 5, control: true });
    assert_eq!(config(&["--Control", "--controls"]), Config { attempts: 5, control: false });
}
