use spt_server_manager::message::LineKind;
use spt_server_manager::piper::PipeAction;
use spt_server_manager::piper::PipeEvent;
use spt_server_manager::piper::pipe_step;
use spt_server_manager::message::help_text;
use spt_server_manager::message::parse_line;
use spt_server_manager::style::Color;
use spt_server_manager::style::LogTag;
use spt_server_manager::textops::clean_path;
use spt_server_manager::textops::parent_dir;
use spt_server_manager::textops::str_eq;
use spt_server_manager::textops::trim;

#[test]
fn trim_removes_surrounding_whitespace() {
    assert_eq!(trim("  foo bar \r\n"), "foo bar");
    assert_eq!(trim("exit\n"), "exit");
    assert_eq!(trim(""), "");
    assert_eq!(trim(" \t "), "");
    assert_eq!(trim("inner  space"), "inner  space");
}

#[test]
fn str_eq_compares_contents() {
    assert!(str_eq("help", "help"));
    assert!(!str_eq("help", "Help"));
    assert!(!str_eq("help", "help "));
    assert!(str_eq("", ""));
}

#[test]
fn clean_path_strips_quotes_and_normalizes_separators() {
    assert_eq!(
        clean_path("  \"C:\\Games\\SPT\\SPT.Server.exe\"  \n"),
        "C:/Games/SPT/SPT.Server.exe"
    );
    assert_eq!(clean_path(" plain/path "), "plain/path");
    assert_eq!(clean_path("\"\"quoted\"\""), "quoted");
    assert_eq!(clean_path(""), "");
    assert_eq!(clean_path("\"\""), "");
}

#[test]
fn parent_dir_takes_prefix_before_last_slash() {
    assert_eq!(parent_dir("a/b/c.exe"), Some(String::from("a/b")));
    assert_eq!(parent_dir("c.exe"), Some(String::from("")));
    assert_eq!(parent_dir("/c.exe"), Some(String::from("")));
    assert_eq!(parent_dir(""), None);
}

#[test]
fn parse_line_recognizes_tokens_after_trimming() {
    assert!(matches!(parse_line("help"), LineKind::Help));
    assert!(matches!(parse_line("  exit \n"), LineKind::Exit));
    assert!(matches!(parse_line("restart"), LineKind::Restart));
    assert!(matches!(parse_line("setpath"), LineKind::SetPath));
}

#[test]
fn parse_line_is_case_sensitive_and_forwards_the_rest() {
    match parse_line("  foo bar \n") {
        LineKind::Forward(s) => assert_eq!(s, "foo bar"),
        _ => panic!("expected the line to be forwarded"),
    }
    match parse_line("Help") {
        LineKind::Forward(s) => assert_eq!(s, "Help"),
        _ => panic!("expected the line to be forwarded"),
    }
    match parse_line("") {
        LineKind::Forward(s) => assert_eq!(s, ""),
        _ => panic!("expected the line to be forwarded"),
    }
}

#[test]
fn tags_and_colors_are_the_expected_escape_sequences() {
    assert_eq!(LogTag::Error.tag(), "\x1b[30m\x1b[41m[ERROR]\x1b[0m");
    assert_eq!(
        LogTag::ServerManager.tag(),
        "\x1b[30m\x1b[48;5;134m[Server-Manager]\x1b[0m"
    );
    assert_eq!(Color::Red.text(), "\x1b[31m");
    assert_eq!(Color::Reset.text(), "\x1b[0m");
}

#[test]
fn piper_forwards_lines_to_the_right_sink() {
    match pipe_step(false, PipeEvent::Line(String::from("server ready"))) {
        PipeAction::Forward(line, to_err) => {
            assert_eq!(line, "server ready");
            assert!(!to_err);
        }
        _ => panic!("expected the line to be forwarded"),
    }
    match pipe_step(true, PipeEvent::Line(String::from("warning: low disk"))) {
        PipeAction::Forward(line, to_err) => {
            assert_eq!(line, "warning: low disk");
            assert!(to_err);
        }
        _ => panic!("expected the line to be forwarded"),
    }
}

#[test]
fn piper_reports_a_read_error_and_stops() {
    match pipe_step(false, PipeEvent::ReadError(String::from("bad descriptor"))) {
        PipeAction::ReportAndStop(msg) => {
            assert_eq!(
                msg,
                format!(
                    "{} Error reading process output: bad descriptor",
                    LogTag::Error.tag()
                )
            );
        }
        _ => panic!("expected the error to be reported"),
    }
}

#[test]
fn piper_stops_silently_at_end_of_stream() {
    assert!(matches!(pipe_step(false, PipeEvent::Closed), PipeAction::Stop));
    assert!(matches!(pipe_step(true, PipeEvent::Closed), PipeAction::Stop));
}

#[test]
fn help_text_lists_every_command() {
    let text = help_text();
    assert!(text.contains("Available commands"));
    assert!(text.contains("help"));
    assert!(text.contains("exit"));
    assert!(text.contains("restart"));
    assert!(text.contains("setpath"));
    assert!(text.contains("[command]"));
}
