use anti_clean::report::{failure_text, script_outcome, ExecutionResult};
use anti_clean::runner::{
    permission_failure, script_arguments, script_path, spawn_failure, unsupported_platform,
    write_failure,
};
use anti_clean::text::captured_text;
use std::path::PathBuf;

fn is_white_space(c: char) -> bool {
    matches!(
        c as u32,
        0x0009..=0x000D
            | 0x0020
            | 0x0085
            | 0x00A0
            | 0x1680
            | 0x2000..=0x200A
            | 0x2028
            | 0x2029
            | 0x202F
            | 0x205F
            | 0x3000
    )
}

#[test]
fn captured_text_is_decoded_and_trimmed() {
    assert_eq!(captured_text(b"done"), "done");
    assert_eq!(captured_text(b"done\n\n"), "done");
    assert_eq!(captured_text(b"\t\r\n  two words \x0b\x0c\n"), "two words");
    assert_eq!(captured_text(b""), "");
    assert_eq!(captured_text(b" \n\t"), "");
    assert_eq!(captured_text("  \u{3000}清理完成\u{a0}\u{2028}".as_bytes()), "清理完成");
}

#[test]
fn captured_text_keeps_inner_white_space() {
    assert_eq!(captured_text(b" a \n b "), "a \n b");
}

#[test]
fn captured_text_replaces_ill_formed_bytes() {
    assert_eq!(captured_text(b"ab\xffcd"), "ab\u{fffd}cd");
    assert_eq!(captured_text(b"\xc3"), "\u{fffd}");
    assert_eq!(captured_text(b" \xe6\xb8 x\n"), "\u{fffd} x");
    assert_eq!(captured_text(b"\xed\xa0\x80"), "\u{fffd}\u{fffd}\u{fffd}");
    assert_eq!(captured_text(b"\xf0\x9f\x98\x80 "), "\u{1f600}");
}

#[test]
fn captured_text_trims_exactly_the_white_space_characters() {
    for code in 0..=0x10FFFFu32 {
        if let Some(c) = char::from_u32(code) {
            let alone = c.to_string();
            assert_eq!(captured_text(alone.as_bytes()).is_empty(), is_white_space(c), "U+{:04X}", code);
            let around = format!("{}x{}", c, c);
            let expected = if is_white_space(c) { "x".to_string() } else { around.clone() };
            assert_eq!(captured_text(around.as_bytes()), expected, "U+{:04X}", code);
        }
    }
}

#[test]
fn failure_text_prefers_the_stream_that_is_not_empty() {
    assert_eq!(failure_text(String::new(), "boom".to_string()), "boom");
    assert_eq!(failure_text("partial".to_string(), String::new()), "partial");
    assert_eq!(failure_text(String::new(), String::new()), "");
}

#[test]
fn failure_text_joins_both_streams_with_one_line_break() {
    assert_eq!(failure_text("A".to_string(), "B".to_string()), "A\nB");
    assert_eq!(failure_text("out 1\nout 2".to_string(), "err".to_string()), "out 1\nout 2\nerr");
}

#[test]
fn script_outcome_follows_the_exit_status() {
    assert_eq!(script_outcome(true, "done".to_string(), "warning".to_string()), Ok("done".to_string()));
    assert_eq!(script_outcome(true, String::new(), String::new()), Ok(String::new()));
    assert_eq!(script_outcome(false, "done".to_string(), "warning".to_string()), Err("done\nwarning".to_string()));
    assert_eq!(script_outcome(false, "done".to_string(), String::new()), Err("done".to_string()));
    assert_eq!(script_outcome(false, String::new(), String::new()), Err(String::new()));
}

#[test]
fn execution_outcome_decodes_and_trims_before_it_decides() {
    let execution = ExecutionResult { success: false, stdout: b" \n".to_vec(), stderr: b"boom \xff\n".to_vec() };
    assert_eq!(execution.outcome(), Err("boom \u{fffd}".to_string()));
    let execution = ExecutionResult { success: true, stdout: b"\n cleaned 3 files\n".to_vec(), stderr: b"x".to_vec() };
    assert_eq!(execution.outcome(), Ok("cleaned 3 files".to_string()));
}

#[test]
fn script_path_is_the_file_inside_the_directory() {
    assert_eq!(script_path(b"/tmp"), b"/tmp/anti-clean.sh");
    assert_eq!(script_path(b"/tmp/"), b"/tmp/anti-clean.sh");
    assert_eq!(script_path(b"/"), b"/anti-clean.sh");
    assert_eq!(script_path(b""), b"anti-clean.sh");
    assert_eq!(
        script_path("/var/folders/x y/临时".as_bytes()),
        "/var/folders/x y/临时/anti-clean.sh".as_bytes()
    );
}

#[test]
fn script_path_keeps_a_directory_that_is_not_utf8() {
    assert_eq!(script_path(b"/tmp/\xff\xfe"), b"/tmp/\xff\xfe/anti-clean.sh");
    assert_eq!(script_path(b"/tmp/\xe6\xb8"), b"/tmp/\xe6\xb8/anti-clean.sh");
}

#[test]
fn script_path_joins_as_paths_do() {
    for dir in ["/tmp", "/tmp/", "/", "", "relative", "relative/", "/a//", "/满/目录", "/tmp/."] {
        let mut joined = PathBuf::from(dir);
        joined.push("anti-clean.sh");
        assert_eq!(script_path(dir.as_bytes()), joined.to_str().unwrap().as_bytes(), "{:?}", dir);
    }
}

#[test]
fn script_arguments_end_with_the_force_flag_only_when_forced() {
    assert_eq!(script_arguments(b"/tmp/anti-clean.sh", false), vec![b"/tmp/anti-clean.sh".to_vec()]);
    assert_eq!(
        script_arguments(b"/tmp/anti-clean.sh", true),
        vec![b"/tmp/anti-clean.sh".to_vec(), b"--force".to_vec()]
    );
    assert_eq!(script_arguments(b"--force", false), vec![b"--force".to_vec()]);
}

#[test]
fn diagnostics_name_the_step_that_failed() {
    assert_eq!(unsupported_platform(), "该功能仅支持 macOS/Linux");
    assert_eq!(write_failure("denied"), "写入临时脚本失败: denied");
    assert_eq!(permission_failure("denied"), "设置脚本权限失败: denied");
    assert_eq!(spawn_failure("denied"), "执行脚本失败: denied");
    assert_eq!(write_failure(""), "写入临时脚本失败: ");
}
