//! End-to-end session flows against scripted devices: connect, version,
//! classification, timeouts, faults, and privilege escalation.

use netcli::{connect, CommandError, ConnectConfig, Error, Mode, ReadOutcome, ScriptedChannel, Vendor};

fn data(s: &str) -> ReadOutcome {
    ReadOutcome::Data(s.as_bytes().to_vec())
}

#[test]
fn h3c_connect_version() {
    let chan = ScriptedChannel::new(vec![
        data("<HOST>"),
        data("screen-length disable\r\n<HOST>"),
        data("display version\r\nH3C E528\r\n<HOST>"),
    ]);
    let mut s = connect(Vendor::H3C, chan, ConnectConfig::default()).unwrap();
    assert_eq!(s.mode, Mode::Operational);
    let v = s.version().unwrap();
    assert_eq!(v, "H3C E528\r\n");
    assert!(!v.is_empty());
    assert!(!v.contains("<HOST>"));
    assert!(!v.contains("display version"));
    let sent = s.conn.sent();
    assert_eq!(sent[0], b"screen-length disable\n".to_vec());
    assert_eq!(sent[1], b"display version\n".to_vec());
}

#[test]
fn cisco_connect_version() {
    let chan = ScriptedChannel::new(vec![
        data("Switch#"),
        data("terminal length 0\r\nSwitch#"),
        data("show version\r\nCisco IOS Software\r\nSwitch#"),
    ]);
    let mut s = connect(Vendor::Cisco, chan, ConnectConfig::default()).unwrap();
    let v = s.version().unwrap();
    assert_eq!(v, "Cisco IOS Software\r\n");
    assert!(!v.is_empty());
    assert!(!v.contains("Switch#"));
    assert!(!v.contains("show version"));
}

#[test]
fn huawei_connect_version() {
    let chan = ScriptedChannel::new(vec![
        data("<HW>"),
        data("screen-length 0 temporary\r\n<HW>"),
        data("display version\r\nHuawei VRP V800\r\n<HW>"),
    ]);
    let mut s = connect(Vendor::Huawei, chan, ConnectConfig::default()).unwrap();
    let v = s.version().unwrap();
    assert_eq!(v, "Huawei VRP V800\r\n");
    assert!(!v.is_empty());
    assert!(!v.contains("<HW>"));
    assert!(!v.contains("display version"));
}

#[test]
fn aruba_connect_version_echo_terminator() {
    let chan = ScriptedChannel::new(vec![
        data("(WRD-AC-1) [mynode] #"),
        data("no paging\n\rdone\n(WRD-AC-1) [mynode] #"),
        data("show version\n\rArubaOS 8.6\n(WRD-AC-1) [mynode] #"),
    ]);
    let mut s = connect(Vendor::Aruba, chan, ConnectConfig::default()).unwrap();
    let v = s.version().unwrap();
    assert_eq!(v, "ArubaOS 8.6\n");
    assert!(!v.is_empty());
    assert!(!v.contains("#"));
    assert!(!v.contains("show version"));
}

#[test]
fn ruijie_escalation_then_version() {
    let chan = ScriptedChannel::new(vec![
        data("<Ruijie>"),
        data("terminal length 0\r\n% User doesn't have sufficient privilege to execute this command.\r\n<Ruijie>"),
        data("enable\r\nPassword:\r\nRuijie#"),
        data("terminal length 0\r\nRuijie#"),
        data("show version\r\nRG-S2928G\r\nRuijie#"),
    ]);
    let config = ConnectConfig { enable_password: Some(String::from("enpass")) };
    let mut s = connect(Vendor::Ruijie, chan, config).unwrap();
    assert_eq!(s.mode, Mode::Operational);
    let v = s.version().unwrap();
    assert_eq!(v, "RG-S2928G\r\n");
    let sent = s.conn.sent();
    assert_eq!(sent[0], b"terminal length 0\n".to_vec());
    assert_eq!(sent[1], b"enable\nenpass\n".to_vec());
    assert_eq!(sent[2], b"terminal length 0\n".to_vec());
    assert_eq!(sent[3], b"show version\n".to_vec());
}

#[test]
fn ruijie_no_privilege_surfaced_after_connect() {
    let chan = ScriptedChannel::new(vec![
        data("<Ruijie>"),
        data("terminal length 0\r\n% User doesn't have sufficient privilege to execute this command.\r\n<Ruijie>"),
        data("enable\r\nRuijie#"),
        data("terminal length 0\r\nRuijie#"),
        data("configure terminal\r\n% User doesn't have sufficient privilege to execute this command.\r\nRuijie#"),
    ]);
    let config = ConnectConfig { enable_password: Some(String::from("enpass")) };
    let mut s = connect(Vendor::Ruijie, chan, config).unwrap();
    match s.execute("configure terminal") {
        Err(Error::CommandExecution(CommandError::NoPrivilege { command })) => {
            assert_eq!(command, "configure terminal");
        }
        other => panic!("expected a no-privilege rejection, got {:?}", other),
    }
}

#[test]
fn version_idempotent_given_identical_responses() {
    let chan = ScriptedChannel::new(vec![
        data("<HOST>"),
        data("screen-length disable\r\n<HOST>"),
        data("display version\r\nH3C E528\r\n<HOST>"),
        data("display version\r\nH3C E528\r\n<HOST>"),
    ]);
    let mut s = connect(Vendor::H3C, chan, ConnectConfig::default()).unwrap();
    let first = s.version().unwrap();
    let second = s.version().unwrap();
    assert_eq!(first, second);
}

#[test]
fn invalid_input_names_command_and_keeps_prompt() {
    let chan = ScriptedChannel::new(vec![
        data("<HOST>"),
        data("screen-length disable\r\n<HOST>"),
        data("BAD_COMMAND\r\n% Unrecognized command found at '^' position.\r\n<HOST>"),
        data("display version\r\nH3C E528\r\n<HOST>"),
    ]);
    let mut s = connect(Vendor::H3C, chan, ConnectConfig::default()).unwrap();
    let before = s.op_prompt.source().to_string();
    match s.execute("BAD_COMMAND") {
        Err(Error::CommandExecution(CommandError::InvalidInput { command })) => {
            assert_eq!(command, "BAD_COMMAND");
        }
        _ => panic!("expected an invalid-input rejection"),
    }
    assert_eq!(s.op_prompt.source(), before);
    assert_eq!(s.mode, Mode::Operational);
    let v = s.version().unwrap();
    assert_eq!(v, "H3C E528\r\n");
}

#[test]
fn too_many_parameters_is_invalid_input_h3c() {
    let chan = ScriptedChannel::new(vec![
        data("<HOST>"),
        data("screen-length disable\r\n<HOST>"),
        data("ping a b\r\n% Too many parameters found at '^' position.\r\n<HOST>"),
    ]);
    let mut s = connect(Vendor::H3C, chan, ConnectConfig::default()).unwrap();
    assert!(matches!(
        s.execute("ping a b"),
        Err(Error::CommandExecution(CommandError::InvalidInput { .. }))
    ));
}

#[test]
fn invalid_input_markers_other_vendors() {
    let cases = [
        (Vendor::Cisco, "Switch#", "terminal length 0\r\nSwitch#",
         "BAD\r\n% Invalid input detected at '^' marker.\r\nSwitch#"),
        (Vendor::Aruba, "(A) [n] #", "no paging\n\rdone\n(A) [n] #",
         "BAD\n\rInvalid input detected at '^' marker.\n(A) [n] #"),
        (Vendor::Huawei, "<HW>", "screen-length 0 temporary\r\n<HW>",
         "BAD\r\nError: Unrecognized command found at '^' position.\r\n<HW>"),
    ];
    for (vendor, banner, sentinel, bad) in cases {
        let chan = ScriptedChannel::new(vec![data(banner), data(sentinel), data(bad)]);
        let mut s = connect(vendor, chan, ConnectConfig::default()).unwrap();
        assert!(matches!(
            s.execute("BAD"),
            Err(Error::CommandExecution(CommandError::InvalidInput { .. }))
        ));
    }
}

#[test]
fn aruba_platform_marker_is_invalid_input() {
    let chan = ScriptedChannel::new(vec![
        data("(A) [n] #"),
        data("no paging\n\rdone\n(A) [n] #"),
        data("airmatch\n\rCommand not applicable for this platform\n(A) [n] #"),
    ]);
    let mut s = connect(Vendor::Aruba, chan, ConnectConfig::default()).unwrap();
    assert!(matches!(
        s.execute("airmatch"),
        Err(Error::CommandExecution(CommandError::InvalidInput { .. }))
    ));
}

#[test]
fn timeout_returns_partial_text() {
    let chan = ScriptedChannel::new(vec![
        data("<HOST>"),
        data("screen-length disable\r\n<HOST>"),
        data("display version\r\npartial"),
        ReadOutcome::TimedOut,
    ]);
    let mut s = connect(Vendor::H3C, chan, ConnectConfig::default()).unwrap();
    let v = s.version().unwrap();
    assert_eq!(v, "partial");
}

#[test]
fn end_of_stream_yields_empty_output() {
    let chan = ScriptedChannel::new(vec![
        data("<HOST>"),
        data("screen-length disable\r\n<HOST>"),
    ]);
    let mut s = connect(Vendor::H3C, chan, ConnectConfig::default()).unwrap();
    let v = s.execute("display clock").unwrap();
    assert_eq!(v, "");
}

#[test]
fn transport_fault_is_generic_error() {
    let chan = ScriptedChannel::new(vec![
        data("<HOST>"),
        data("screen-length disable\r\n<HOST>"),
        ReadOutcome::Fault(String::from("connection reset")),
    ]);
    let mut s = connect(Vendor::H3C, chan, ConnectConfig::default()).unwrap();
    match s.execute("display clock") {
        Err(Error::Generic { message }) => assert_eq!(message, "connection reset"),
        _ => panic!("expected a transport fault"),
    }
}

#[test]
fn unencodable_command_is_encoding_error() {
    let chan = ScriptedChannel::new(vec![
        data("<Ruijie>"),
        data("terminal length 0\r\n<Ruijie>"),
    ]);
    let mut s = connect(Vendor::Ruijie, chan, ConnectConfig::default()).unwrap();
    match s.execute("show \u{1F600}") {
        Err(Error::EncodingError { operation, encoding_name }) => {
            assert_eq!(operation, "encode");
            assert_eq!(encoding_name, "GBK");
        }
        _ => panic!("expected an encoding failure"),
    }
}

#[test]
fn gbk_command_bytes_on_the_wire() {
    let chan = ScriptedChannel::new(vec![
        data("<Ruijie>"),
        data("terminal length 0\r\n<Ruijie>"),
        data("ok\r\n<Ruijie>"),
    ]);
    let mut s = connect(Vendor::Ruijie, chan, ConnectConfig::default()).unwrap();
    s.execute("\u{663E}\u{793A}").unwrap();
    let sent = s.conn.sent();
    assert_eq!(sent[1], vec![0xCF, 0xD4, 0xCA, 0xBE, 0x0A]);
}

#[test]
fn invalid_utf8_decodes_to_replacement_character() {
    let chan = ScriptedChannel::new(vec![
        data("<HOST>"),
        data("screen-length disable\r\n<HOST>"),
        ReadOutcome::Data(vec![0xFF, b'<', b'H', b'>']),
    ]);
    let mut s = connect(Vendor::H3C, chan, ConnectConfig::default()).unwrap();
    let v = s.execute("display clock").unwrap();
    assert_eq!(v, "\u{FFFD}");
}

#[test]
fn ping_formats_command() {
    let chan = ScriptedChannel::new(vec![
        data("<HOST>"),
        data("screen-length disable\r\n<HOST>"),
        data("ping 10.0.0.1\r\n5 packet(s) received\r\n<HOST>"),
    ]);
    let mut s = connect(Vendor::H3C, chan, ConnectConfig::default()).unwrap();
    let v = s.ping("10.0.0.1").unwrap();
    assert_eq!(v, "5 packet(s) received\r\n");
    assert_eq!(s.conn.sent()[1], b"ping 10.0.0.1\n".to_vec());
}

#[test]
fn response_accumulates_across_chunks_until_prompt() {
    let chan = ScriptedChannel::new(vec![
        data("<HOST>"),
        data("screen-length disable\r\n<HOST>"),
        data("display version\r\nH3C"),
        data(" E528\r\n<HOST>"),
    ]);
    let mut s = connect(Vendor::H3C, chan, ConnectConfig::default()).unwrap();
    let v = s.version().unwrap();
    assert_eq!(v, "H3C E528\r\n");
}
