//! The configuration session: a short-lived handle over the device session
//! while it is in configuration mode. The exclusive borrow enforces that at
//! most one configuration session is live per device session, and that the
//! device session itself is untouchable until the handle's scope ends.

use vstd::prelude::*;

use crate::channel::Connection;
use crate::encoding::MAX_COMMAND_LEN;
use crate::error::{CommandError, Error};
use crate::session::{spec_command, CmdOutcome, DeviceSession, Mode};

verus! {

/// What a configuration session can do: run configuration commands.
pub trait ConfigSession {
    fn execute(&mut self, command: &str) -> (r: Result<String, Error>)
        requires
            command@.len() <= MAX_COMMAND_LEN,
    ;
}

/// The handle over a device session in configuration mode; constructed by
/// `DeviceSession::enter_config`, released by `end`. The release is not a
/// destructor: a handle dropped without `end` leaves the device in
/// configuration mode.
pub struct ConfigurationMode<'a, C: Connection> {
    pub session: &'a mut DeviceSession<C>,
}

impl<'a, C: Connection> ConfigurationMode<'a, C> {
    /// Wraps an exclusive borrow of the owning session.
    pub fn new(session: &'a mut DeviceSession<C>) -> (r: ConfigurationMode<'a, C>)
        ensures
            *r.session == *old(session),
            *final(session) == *final(r.session),
    {
        ConfigurationMode { session }
    }

    /// Ends the configuration session: sends the vendor's exit command and
    /// resets the prompt pattern to operational. The release is best-effort:
    /// its own failure is not propagated, and a caller that must be certain
    /// of the device's state re-probes with a subsequent command. The
    /// release runs only here — a handle that is dropped without `end`
    /// leaves the device in configuration mode, and `DeviceSession::exit`
    /// is the way back out.
    pub fn end(self)
        ensures
            final(self.session).mode == Mode::Operational,
            DeviceSession::keeps_shape(
                DeviceSession::to_operational(*old(self.session)),
                *final(self.session),
            ),
            ({
                let pre = DeviceSession::to_operational(*old(self.session));
                let cmd = old(self.session).vendor.spec_exit_command();
                DeviceSession::accepted_post(pre, *final(self.session), cmd) || (exists|e: Error|
                    DeviceSession::error_post(pre, *final(self.session), cmd, e))
            }),
            old(self.session).conn.reliable() ==> ({
                let pre = DeviceSession::to_operational(*old(self.session));
                let cmd = old(self.session).vendor.spec_exit_command();
                &&& (spec_command(pre.vendor, pre.cur_pattern(), pre.conn.incoming(), cmd)
                    is Accepted ==> DeviceSession::accepted_post(pre, *final(self.session), cmd))
                &&& (DeviceSession::accepted_post(pre, *final(self.session), cmd) || (exists|
                    e: Error,
                |
                    DeviceSession::error_post(pre, *final(self.session), cmd, e) && !(e matches Error::CommandExecution(
                        CommandError::Generic { .. },
                    ))))
            }),
    {
        let ghost pre = DeviceSession::to_operational(*old(self.session));
        let ghost cmd = old(self.session).vendor.spec_exit_command();
        match self.session.exit() {
            Ok(_) => {},
            Err(e) => {
                proof {
                    assert(DeviceSession::error_post(pre, *final(self.session), cmd, e));
                    if pre.conn.reliable() {
                        assert(!(e matches Error::CommandExecution(CommandError::Generic { .. })));
                    }
                }
            },
        }
    }
}

impl<'a, C: Connection> ConfigSession for ConfigurationMode<'a, C> {
    /// Forwards to the owning session's `execute`, under the configuration
    /// prompt pattern.
    fn execute(&mut self, command: &str) -> (r: Result<String, Error>)
        ensures
            DeviceSession::execute_post(*old(self).session, *final(self).session, command@, r),
            *final(old(self).session) == *final(final(self).session),
    {
        self.session.execute(command)
    }
}

} // verus!
