//! The configuration session: the mode round trip, scoped release, and
//! command forwarding under the configuration prompt.

use netcli::{connect, CommandError, ConfigSession, ConnectConfig, Error, Mode, ReadOutcome,
    ScriptedChannel, Vendor};

fn data(s: &str) -> ReadOutcome {
    ReadOutcome::Data(s.as_bytes().to_vec())
}

#[test]
fn config_round_trip_restores_prompt() {
    let chan = ScriptedChannel::new(vec![
        data("<HOST>"),
        data("screen-length disable\r\n<HOST>"),
        data("system-view\r\n[HOST]"),
        data("quit\r\n<HOST>"),
    ]);
    let mut s = connect(Vendor::H3C, chan, ConnectConfig::default()).unwrap();
    let before = s.op_prompt.source().to_string();
    {
        let cm = s.enter_config().unwrap();
        cm.end();
    }
    assert_eq!(s.mode, Mode::Operational);
    assert_eq!(s.op_prompt.source(), before);
    // The release really ran: the exit command went out on the wire.
    let sent = s.conn.sent();
    assert_eq!(sent[1], b"system-view\n".to_vec());
    assert_eq!(sent[2], b"quit\n".to_vec());
}

#[test]
fn config_commands_run_under_config_prompt() {
    let chan = ScriptedChannel::new(vec![
        data("<HOST>"),
        data("screen-length disable\r\n<HOST>"),
        data("system-view\r\n[HOST]"),
        data("interface GigabitEthernet 1/0/8\r\n[HOST]"),
        data("display this\r\ndescription to-HMBP\r\n[HOST]"),
        data("quit\r\n<HOST>"),
        data("display version\r\nH3C E528\r\n<HOST>"),
    ]);
    let mut s = connect(Vendor::H3C, chan, ConnectConfig::default()).unwrap();
    {
        let mut cm = s.enter_config().unwrap();
        cm.execute("interface GigabitEthernet 1/0/8").unwrap();
        let shown = cm.execute("display this").unwrap();
        assert_eq!(shown, "description to-HMBP\r\n");
        cm.end();
    }
    let v = s.version().unwrap();
    assert_eq!(v, "H3C E528\r\n");
}

#[test]
fn failed_entry_aborts_transition() {
    let chan = ScriptedChannel::new(vec![
        data("Switch#"),
        data("terminal length 0\r\nSwitch#"),
        data("configure terminal\r\n% Invalid input detected at '^' marker.\r\nSwitch#"),
        // The configuration prompt never appears, so the read ends by
        // timeout with the rejection as its text.
        ReadOutcome::TimedOut,
        data("show version\r\nCisco IOS Software\r\nSwitch#"),
    ]);
    let mut s = connect(Vendor::Cisco, chan, ConnectConfig::default()).unwrap();
    let before = s.op_prompt.source().to_string();
    match s.enter_config() {
        Err(Error::CommandExecution(CommandError::InvalidInput { command })) => {
            assert_eq!(command, "configure terminal");
        }
        _ => panic!("expected the transition to fail"),
    }
    assert_eq!(s.mode, Mode::Operational);
    assert_eq!(s.op_prompt.source(), before);
    let v = s.version().unwrap();
    assert_eq!(v, "Cisco IOS Software\r\n");
}

#[test]
fn release_failure_is_swallowed_and_mode_reset() {
    let chan = ScriptedChannel::new(vec![
        data("<HOST>"),
        data("screen-length disable\r\n<HOST>"),
        data("system-view\r\n[HOST]"),
        ReadOutcome::Fault(String::from("connection reset")),
    ]);
    let mut s = connect(Vendor::H3C, chan, ConnectConfig::default()).unwrap();
    {
        let cm = s.enter_config().unwrap();
        cm.end();
    }
    assert_eq!(s.mode, Mode::Operational);
}

#[test]
fn explicit_exit_resets_mode() {
    let chan = ScriptedChannel::new(vec![
        data("<HW>"),
        data("screen-length 0 temporary\r\n<HW>"),
        data("system-view\r\n[HW]"),
        data("quit\r\n<HW>"),
    ]);
    let mut s = connect(Vendor::Huawei, chan, ConnectConfig::default()).unwrap();
    {
        let _cm = s.enter_config().unwrap();
        // The scope ends without `end`: the handle is gone, the device is
        // still in configuration mode.
    }
    assert_eq!(s.mode, Mode::Configuring);
    s.exit().unwrap();
    assert_eq!(s.mode, Mode::Operational);
}
