use allog::engine::MyNativeAddress;
use allog::log::{elogln, logln, LogLine, LogMessage};
use allog::text::{decimal, pointer};

#[test]
fn lines_carry_their_prefix() {
    assert_eq!(logln("Initialized!"), "<allog> [+] Initialized!");
    assert_eq!(elogln("Missing export: memalign"), "<allog> [!] Missing export: memalign");
    assert_eq!(logln(""), "<allog> [+] ");
}

#[test]
fn log_lines_render_by_kind() {
    let info = LogLine::Info("Finalized!".to_string());
    let error = LogLine::Error("oops".to_string());
    assert!(!info.is_error());
    assert!(error.is_error());
    assert_eq!(info.render(), "<allog> [+] Finalized!");
    assert_eq!(error.render(), "<allog> [!] oops");
}

#[test]
fn message_is_logged_as_one_block() {
    let mut message = LogMessage::new();
    assert_eq!(message.len(), 0);
    message.push("summary".to_string());
    message.push("first detail".to_string());
    message.push("second detail".to_string());
    assert_eq!(message.len(), 3);
    assert_eq!(message.part(1), "first detail");
    assert_eq!(
        message.log(),
        vec![
            "<allog> [+] summary".to_string(),
            "<allog> [+]   first detail".to_string(),
            "<allog> [+]   second detail".to_string(),
        ]
    );
}

#[test]
fn message_is_logged_as_errors() {
    let mut message = LogMessage::new();
    message.push("summary".to_string());
    message.push("detail".to_string());
    assert_eq!(
        message.elog(),
        vec!["<allog> [!] summary".to_string(), "<allog> [!]   detail".to_string()]
    );
}

#[test]
fn empty_message_has_no_lines() {
    assert_eq!(LogMessage::new().log(), Vec::<String>::new());
    assert_eq!(LogMessage::new().elog(), Vec::<String>::new());
}

#[test]
fn numbers_in_decimal() {
    assert_eq!(decimal(0), "0");
    assert_eq!(decimal(7), "7");
    assert_eq!(decimal(10), "10");
    assert_eq!(decimal(4096), "4096");
    assert_eq!(decimal(u64::MAX), "18446744073709551615");
    assert_eq!(decimal(1234567890), format!("{}", 1234567890u64));
}

#[test]
fn addresses_as_pointers() {
    assert_eq!(pointer(0), "0x0");
    assert_eq!(pointer(255), "0xff");
    assert_eq!(pointer(0x7f00deadbeef), "0x7f00deadbeef");
    assert_eq!(pointer(u64::MAX), "0xffffffffffffffff");
    assert_eq!(pointer(0xabcdef0123456789), format!("{:#x}", 0xabcdef0123456789u64));
    assert_eq!(MyNativeAddress(4096).pointer(), "0x1000");
}

#[test]
fn address_offset() {
    assert_eq!(MyNativeAddress(0x1000).offset(0x10), MyNativeAddress(0x1010));
    assert_eq!(MyNativeAddress(0).offset(u64::MAX), MyNativeAddress(u64::MAX));
}

#[test]
fn part_can_be_replaced() {
    let mut message = LogMessage::new();
    message.push("summary".to_string());
    message.push("detail".to_string());
    message.set_part(1, "other detail".to_string());
    message.set_part(0, "Summary".to_string());
    assert_eq!(message.len(), 2);
    assert_eq!(message.part(0), "Summary");
    assert_eq!(
        message.log(),
        vec!["<allog> [+] Summary".to_string(), "<allog> [+]   other detail".to_string()]
    );
}
