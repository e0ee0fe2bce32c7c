//! Log-buffer retrieval and the per-vendor slicing rules.

use netcli::vendor::{slice_log, LogRule};
use netcli::{connect, ConnectConfig, ReadOutcome, ScriptedChannel, Vendor};

fn data(s: &str) -> ReadOutcome {
    ReadOutcome::Data(s.as_bytes().to_vec())
}

#[test]
fn h3c_logbuffer_keeps_lines_after_first_blank() {
    let chan = ScriptedChannel::new(vec![
        data("<HOST>"),
        data("screen-length disable\r\n<HOST>"),
        data("display logbuffer\r\nLog buffer: enabled\r\n  \r\n%Oct 11 log one\r\n%Oct 11 log two\r\n<HOST>"),
    ]);
    let mut s = connect(Vendor::H3C, chan, ConnectConfig::default()).unwrap();
    let lines = s.logbuffer().unwrap();
    assert_eq!(lines, vec!["%Oct 11 log one", "%Oct 11 log two"]);
}

#[test]
fn huawei_logbuffer_without_blank_line_is_empty() {
    let chan = ScriptedChannel::new(vec![
        data("<HW>"),
        data("screen-length 0 temporary\r\n<HW>"),
        data("display logbuffer\r\nonly a heading\r\nno blank line here\r\n<HW>"),
    ]);
    let mut s = connect(Vendor::Huawei, chan, ConnectConfig::default()).unwrap();
    let lines = s.logbuffer().unwrap();
    assert!(lines.is_empty());
}

#[test]
fn cisco_logbuffer_keeps_every_line() {
    let chan = ScriptedChannel::new(vec![
        data("Switch#"),
        data("terminal length 0\r\nSwitch#"),
        data("show logging\r\nSyslog logging: enabled\r\n%SYS-5-CONFIG_I\r\nSwitch#"),
    ]);
    let mut s = connect(Vendor::Cisco, chan, ConnectConfig::default()).unwrap();
    let lines = s.logbuffer().unwrap();
    assert_eq!(lines, vec!["Syslog logging: enabled", "%SYS-5-CONFIG_I"]);
}

#[test]
fn ruijie_rule_slices_after_log_buffer_heading() {
    let lines = vec![
        String::from("Syslog logging: enabled"),
        String::from("Log Buffer (Total 4096 Bytes): have written 2 KB"),
        String::from("*Oct 11 first"),
        String::from("*Oct 11 second"),
    ];
    let sliced = slice_log(LogRule::AfterLogBufferHeader, lines);
    assert_eq!(sliced, vec!["*Oct 11 first", "*Oct 11 second"]);
}

#[test]
fn slicing_without_boundary_is_empty() {
    let lines = vec![String::from("a"), String::from("b")];
    assert!(slice_log(LogRule::AfterFirstBlank, lines.clone()).is_empty());
    assert!(slice_log(LogRule::AfterLogBufferHeader, lines.clone()).is_empty());
    assert_eq!(slice_log(LogRule::All, lines.clone()), lines);
}

#[test]
fn huawei_log_boundary_may_be_unicode_white_space() {
    let chan = ScriptedChannel::new(vec![
        data("<HW>"),
        data("screen-length 0 temporary\r\n<HW>"),
        data("display logbuffer\r\nheading\r\n\u{a0}\u{2002}\r\n%Oct 11 entry\r\n<HW>"),
    ]);
    let mut s = connect(Vendor::Huawei, chan, ConnectConfig::default()).unwrap();
    let lines = s.logbuffer().unwrap();
    assert_eq!(lines, vec!["%Oct 11 entry"]);
}

#[test]
fn boundary_as_last_line_leaves_nothing() {
    let lines = vec![String::from("head"), String::from("")];
    assert!(slice_log(LogRule::AfterFirstBlank, lines).is_empty());
}

#[test]
fn ruijie_logbuffer_through_session() {
    let chan = ScriptedChannel::new(vec![
        data("<Ruijie>"),
        data("terminal length 0\r\n% User doesn't have sufficient privilege to execute this command.\r\n<Ruijie>"),
        data("enable\r\nRuijie#"),
        data("terminal length 0\r\nRuijie#"),
        data("show logging\r\nSyslog logging: enabled\r\nLog Buffer (Total 4096 Bytes)\r\n*Oct 11 first\r\nRuijie#"),
    ]);
    let config = ConnectConfig { enable_password: Some(String::from("enpass")) };
    let mut s = connect(Vendor::Ruijie, chan, config).unwrap();
    let lines = s.logbuffer().unwrap();
    assert_eq!(lines, vec!["*Oct 11 first"]);
}
