//! The device session: the per-vendor state machine layered on the framed
//! reader/writer. It owns the current prompt pattern, switches it on mode
//! transitions, and classifies every command response.

use vstd::prelude::*;

use crate::channel::Connection;
use crate::channel::ReadEvent;
use crate::encoding::{spec_encoded, MAX_COMMAND_LEN};
use crate::error::{CommandError, Error};
use crate::pattern::{regex_valid, Prompt};
use crate::reader::{execute_raw, spec_read, spec_response};
use crate::text::{echo_stripped, spec_lines, split_lines, strip_echo};
use crate::vendor::{slice_log, spec_slice_log, Vendor};

verus! {

/// The two modes of the device state machine.
#[derive(Clone, Copy, PartialEq, Eq, Structural, Debug)]
pub enum Mode {
    Operational,
    Configuring,
}

/// What one classified command execution yields.
pub enum CmdOutcome {
    /// The command has no representation in the session's encoding.
    NoEncode,
    /// The device accepted the command; the response, echo removed.
    Accepted(Seq<char>),
    /// The response carried the vendor's invalid-input marker.
    RejectedInvalid,
    /// The response carried the vendor's no-privilege marker.
    RejectedNoPrivilege,
    /// The transport faulted during the read; the message.
    TransportFault(Seq<char>),
}

/// The classified result of sending `cmd` and reading until `pattern`,
/// against a device that will deliver `events` — assuming the write reaches
/// the device. The response is prompt-stripped, echo-stripped, then held
/// against the vendor's rejection markers.
pub open spec fn spec_command(
    vendor: Vendor,
    pattern: Seq<char>,
    events: Seq<ReadEvent>,
    cmd: Seq<char>,
) -> CmdOutcome {
    if spec_encoded(vendor.spec_encoding(), cmd + "\n"@) is None {
        CmdOutcome::NoEncode
    } else {
        let rs = spec_response(events, pattern);
        if rs.fault is Some {
            CmdOutcome::TransportFault(rs.fault.unwrap())
        } else {
            let cleaned = echo_stripped(cmd + vendor.spec_echo_terminator(), rs.output);
            if vendor.spec_invalid(cleaned) {
                CmdOutcome::RejectedInvalid
            } else if vendor.spec_no_privilege(cleaned) {
                CmdOutcome::RejectedNoPrivilege
            } else {
                CmdOutcome::Accepted(cleaned)
            }
        }
    }
}

/// The line the privilege-escalation handshake sends: the elevate command
/// and the stored secret on the next line.
pub open spec fn spec_enable_command(pw: Option<Seq<char>>) -> Seq<char> {
    "enable\n"@ + (match pw {
        Some(p) => p,
        None => Seq::empty(),
    })
}

/// A live conversation with one device.
pub struct DeviceSession<C: Connection> {
    /// The transport channel, owned exclusively for the session's lifetime.
    pub conn: C,
    /// The vendor whose adapter parameterizes this session.
    pub vendor: Vendor,
    /// The mode the device is in.
    pub mode: Mode,
    /// The prompt pattern of operational mode; replaced once on privilege
    /// escalation.
    pub op_prompt: Prompt,
    /// The prompt pattern of configuration mode.
    pub config_prompt: Prompt,
    /// The secret for the privilege-escalation handshake, where configured.
    pub enable_password: Option<String>,
}

impl<C: Connection> DeviceSession<C> {
    /// The active prompt pattern: exactly one per mode.
    pub open spec fn cur_pattern(self) -> Seq<char> {
        match self.mode {
            Mode::Operational => self.op_prompt@,
            Mode::Configuring => self.config_prompt@,
        }
    }

    /// `self` with the mode set to `Configuring`.
    pub open spec fn entered(pre: Self) -> Self {
        DeviceSession {
            conn: pre.conn,
            vendor: pre.vendor,
            mode: Mode::Configuring,
            op_prompt: pre.op_prompt,
            config_prompt: pre.config_prompt,
            enable_password: pre.enable_password,
        }
    }

    /// `self` with the mode set to `Operational`.
    pub open spec fn to_operational(pre: Self) -> Self {
        DeviceSession {
            conn: pre.conn,
            vendor: pre.vendor,
            mode: Mode::Operational,
            op_prompt: pre.op_prompt,
            config_prompt: pre.config_prompt,
            enable_password: pre.enable_password,
        }
    }

    /// The session state a command exchange leaves unchanged.
    pub open spec fn keeps_shape(pre: Self, post: Self) -> bool {
        &&& post.vendor == pre.vendor
        &&& post.mode == pre.mode
        &&& post.op_prompt@ == pre.op_prompt@
        &&& post.config_prompt@ == pre.config_prompt@
        &&& post.enable_password == pre.enable_password
        &&& post.conn.reliable() == pre.conn.reliable()
    }

    /// What each error variant of a command exchange means, and what it
    /// leaves of the channel.
    pub open spec fn error_post(pre: Self, post: Self, cmd: Seq<char>, e: Error) -> bool {
        let outcome = spec_command(pre.vendor, pre.cur_pattern(), pre.conn.incoming(), cmd);
        let used = spec_read(pre.conn.incoming(), pre.cur_pattern()).used;
        match e {
            Error::EncodingError { .. } => outcome is NoEncode && post.conn.incoming()
                == pre.conn.incoming() && post.conn.outgoing() == pre.conn.outgoing(),
            Error::CommandExecution(inner) => match inner {
                CommandError::Generic { command, message: _ } => command@ == cmd && !(outcome
                    is NoEncode) && post.conn.incoming() == pre.conn.incoming(),
                CommandError::InvalidInput { command } => command@ == cmd && outcome
                    is RejectedInvalid && post.conn.incoming() == pre.conn.incoming().skip(used),
                CommandError::NoPrivilege { command } => command@ == cmd && outcome
                    is RejectedNoPrivilege && post.conn.incoming() == pre.conn.incoming().skip(
                    used,
                ),
            },
            Error::Generic { message } => outcome == CmdOutcome::TransportFault(message@)
                && post.conn.incoming() == pre.conn.incoming().skip(used),
            _ => false,
        }
    }

    /// On a channel whose writes succeed, the outcome decides the result.
    pub open spec fn reliable_post(outcome: CmdOutcome, cmd: Seq<char>, r: Result<
        String,
        Error,
    >) -> bool {
        match outcome {
            CmdOutcome::Accepted(t) => r matches Ok(s) && s@ == t,
            CmdOutcome::NoEncode => r matches Err(Error::EncodingError { .. }),
            CmdOutcome::RejectedInvalid => r matches Err(
                Error::CommandExecution(CommandError::InvalidInput { command }),
            ) && command@ == cmd,
            CmdOutcome::RejectedNoPrivilege => r matches Err(
                Error::CommandExecution(CommandError::NoPrivilege { command }),
            ) && command@ == cmd,
            CmdOutcome::TransportFault(m) => r matches Err(Error::Generic { message })
                && message@ == m,
        }
    }

    /// `reliable_post` for an exchange whose accepted text is discarded.
    pub open spec fn reliable_done_post(outcome: CmdOutcome, cmd: Seq<char>, r: Result<
        (),
        Error,
    >) -> bool {
        match outcome {
            CmdOutcome::Accepted(_) => r is Ok,
            CmdOutcome::NoEncode => r matches Err(Error::EncodingError { .. }),
            CmdOutcome::RejectedInvalid => r matches Err(
                Error::CommandExecution(CommandError::InvalidInput { command }),
            ) && command@ == cmd,
            CmdOutcome::RejectedNoPrivilege => r matches Err(
                Error::CommandExecution(CommandError::NoPrivilege { command }),
            ) && command@ == cmd,
            CmdOutcome::TransportFault(m) => r matches Err(Error::Generic { message })
                && message@ == m,
        }
    }

    /// The full contract of one command exchange.
    pub open spec fn execute_post(pre: Self, post: Self, cmd: Seq<char>, r: Result<
        String,
        Error,
    >) -> bool {
        let outcome = spec_command(pre.vendor, pre.cur_pattern(), pre.conn.incoming(), cmd);
        let used = spec_read(pre.conn.incoming(), pre.cur_pattern()).used;
        &&& Self::keeps_shape(pre, post)
        &&& match r {
            Ok(text) => {
                &&& outcome == CmdOutcome::Accepted(text@)
                &&& post.conn.incoming() == pre.conn.incoming().skip(used)
            },
            Err(e) => Self::error_post(pre, post, cmd, e),
        }
        &&& pre.conn.reliable() ==> Self::reliable_post(outcome, cmd, r)
    }

    /// `post` is `pre` after a command exchange that the device accepted.
    pub open spec fn accepted_post(pre: Self, post: Self, cmd: Seq<char>) -> bool {
        let outcome = spec_command(pre.vendor, pre.cur_pattern(), pre.conn.incoming(), cmd);
        let used = spec_read(pre.conn.incoming(), pre.cur_pattern()).used;
        &&& Self::keeps_shape(pre, post)
        &&& outcome is Accepted
        &&& post.conn.incoming() == pre.conn.incoming().skip(used)
    }

    /// Runs one command: writes it, reads until the active prompt, removes
    /// prompt fragments and the echoed command, and classifies the rest
    /// against the vendor's markers. The session state outside the channel
    /// is untouched — in particular, a rejected command does not corrupt
    /// the prompt pattern.
    pub fn execute(&mut self, command: &str) -> (r: Result<String, Error>)
        requires
            command@.len() <= MAX_COMMAND_LEN,
        ensures
            Self::execute_post(*old(self), *final(self), command@, r),
    {
        let enc = self.vendor.encoding();
        let prompt = match self.mode {
            Mode::Operational => &self.op_prompt,
            Mode::Configuring => &self.config_prompt,
        };
        let raw = match execute_raw(&mut self.conn, command, prompt, enc) {
            Ok(t) => t,
            Err(e) => {
                return Err(e);
            },
        };
        let mut prefix = String::from_str(command);
        prefix.append(self.vendor.echo_terminator());
        let cleaned = strip_echo(raw.as_str(), prefix.as_str());
        if self.vendor.is_invalid(cleaned.as_str()) {
            return Err(
                Error::CommandExecution(
                    CommandError::InvalidInput { command: String::from_str(command) },
                ),
            );
        }
        if self.vendor.is_no_privilege(cleaned.as_str()) {
            return Err(
                Error::CommandExecution(
                    CommandError::NoPrivilege { command: String::from_str(command) },
                ),
            );
        }
        Ok(cleaned)
    }

    /// The vendor's "show version" command.
    pub fn version(&mut self) -> (r: Result<String, Error>)
        ensures
            Self::execute_post(*old(self), *final(self), old(self).vendor.spec_version_command(), r),
    {
        let cmd = self.vendor.version_command();
        self.execute(cmd)
    }

    /// The vendor's ping command, formatted with `ip`.
    pub fn ping(&mut self, ip: &str) -> (r: Result<String, Error>)
        requires
            ip@.len() + 5 <= MAX_COMMAND_LEN,
        ensures
            Self::execute_post(*old(self), *final(self), "ping "@ + ip@, r),
    {
        let mut cmd = String::from_str("ping ");
        cmd.append(ip);
        proof {
            reveal_strlit("ping ");
        }
        self.execute(cmd.as_str())
    }

    /// The contract of `logbuffer`: the log command's accepted response,
    /// split into lines and sliced by the vendor's rule.
    pub open spec fn logbuffer_post(pre: Self, post: Self, r: Result<Vec<String>, Error>) -> bool {
        let cmd = pre.vendor.spec_log_command();
        let outcome = spec_command(pre.vendor, pre.cur_pattern(), pre.conn.incoming(), cmd);
        let used = spec_read(pre.conn.incoming(), pre.cur_pattern()).used;
        &&& Self::keeps_shape(pre, post)
        &&& match r {
            Ok(lines) => {
                &&& outcome matches CmdOutcome::Accepted(text) && lines.deep_view()
                    == spec_slice_log(pre.vendor.spec_log_rule(), spec_lines(text))
                &&& post.conn.incoming() == pre.conn.incoming().skip(used)
            },
            Err(e) => Self::error_post(pre, post, cmd, e),
        }
        &&& pre.conn.reliable() ==> (r is Ok <==> outcome is Accepted)
    }

    /// The vendor's log-retrieval command, its response sliced by the
    /// vendor's rule into the lines of the log buffer.
    pub fn logbuffer(&mut self) -> (r: Result<Vec<String>, Error>)
        ensures
            Self::logbuffer_post(*old(self), *final(self), r),
    {
        let cmd = self.vendor.log_command();
        let rule = self.vendor.log_rule();
        match self.execute(cmd) {
            Ok(text) => {
                let lines = split_lines(text.as_str());
                Ok(slice_log(rule, lines))
            },
            Err(e) => Err(e),
        }
    }

    /// The one-shot privilege-escalation handshake: replaces the operational
    /// prompt pattern with the elevated one, then sends the elevate command
    /// with the stored secret on the next line. The response is not
    /// classified; only the transport can fail this.
    pub(crate) fn enable(&mut self) -> (r: Result<(), Error>)
        requires
            old(self).enable_password matches Some(p) ==> p@.len() + 7 <= MAX_COMMAND_LEN,
        ensures
            final(self).vendor == old(self).vendor,
            final(self).mode == old(self).mode,
            final(self).config_prompt@ == old(self).config_prompt@,
            final(self).enable_password == old(self).enable_password,
            final(self).conn.reliable() == old(self).conn.reliable(),
            !regex_valid(old(self).vendor.spec_elevated_pattern()) ==> r is Err
                && final(self).conn.incoming() == old(self).conn.incoming()
                && final(self).op_prompt@ == old(self).op_prompt@,
            regex_valid(old(self).vendor.spec_elevated_pattern()) ==> ({
                let elev = old(self).vendor.spec_elevated_pattern();
                let cmd = spec_enable_command(old(self).enable_password.deep_view());
                let rs = spec_response(old(self).conn.incoming(), elev);
                &&& final(self).op_prompt@ == elev
                &&& match r {
                    Ok(_) => {
                        &&& spec_encoded(old(self).vendor.spec_encoding(), cmd + "\n"@) is Some
                        &&& rs.fault is None
                        &&& final(self).conn.incoming() == old(self).conn.incoming().skip(rs.used)
                    },
                    Err(e) => match e {
                        Error::EncodingError { .. } => spec_encoded(
                            old(self).vendor.spec_encoding(),
                            cmd + "\n"@,
                        ) is None && final(self).conn.incoming() == old(self).conn.incoming(),
                        Error::CommandExecution(CommandError::Generic { command, message: _ }) => {
                            command@ == cmd
                                && final(self).conn.incoming() == old(self).conn.incoming()
                        },
                        Error::Generic { message } => rs.fault == Some(message@)
                            && final(self).conn.incoming() == old(self).conn.incoming().skip(
                            rs.used,
                        ),
                        _ => false,
                    },
                }
                &&& old(self).conn.reliable() && spec_encoded(
                    old(self).vendor.spec_encoding(),
                    cmd + "\n"@,
                ) is Some && rs.fault is None ==> r is Ok
            }),
    {
        let mut cmd = String::from_str("enable\n");
        match &self.enable_password {
            Some(pw) => cmd.append(pw.as_str()),
            None => {},
        }
        proof {
            reveal_strlit("enable\n");
        }
        let p = match Prompt::new(self.vendor.elevated_pattern()) {
            Some(p) => p,
            None => {
                return Err(Error::Generic { message: String::from_str("invalid prompt pattern") });
            },
        };
        self.op_prompt = p;
        let enc = self.vendor.encoding();
        match execute_raw(&mut self.conn, cmd.as_str(), &self.op_prompt, enc) {
            Ok(_) => Ok(()),
            Err(e) => Err(e),
        }
    }

    /// Enters configuration mode: switches the active prompt pattern to the
    /// vendor's configuration pattern and sends the enter-configuration
    /// command. If that command fails, the transition is aborted and the
    /// pattern is left at operational. On success the returned handle is the
    /// one way to the session until its scope ends.
    pub fn enter_config<'a>(&'a mut self) -> (r: Result<
        crate::config::ConfigurationMode<'a, C>,
        Error,
    >)
        requires
            old(self).mode == Mode::Operational,
        ensures
            match r {
                Ok(cm) => {
                    &&& Self::accepted_post(
                        Self::entered(*old(self)),
                        *cm.session,
                        old(self).vendor.spec_enter_command(),
                    )
                    &&& *final(self) == *final(cm.session)
                },
                Err(e) => {
                    &&& Self::keeps_shape(*old(self), *final(self))
                    &&& Self::error_post(
                        Self::entered(*old(self)),
                        *final(self),
                        old(self).vendor.spec_enter_command(),
                        e,
                    )
                },
            },
            old(self).conn.reliable() && spec_command(
                old(self).vendor,
                old(self).config_prompt@,
                old(self).conn.incoming(),
                old(self).vendor.spec_enter_command(),
            ) is Accepted ==> r is Ok,
    {
        self.mode = Mode::Configuring;
        let cmd = self.vendor.enter_command();
        match self.execute(cmd) {
            Ok(_) => Ok(crate::config::ConfigurationMode::new(self)),
            Err(e) => {
                self.mode = Mode::Operational;
                Err(e)
            },
        }
    }

    /// Leaves configuration mode: resets the prompt pattern to operational
    /// and sends the vendor's exit-configuration command.
    pub fn exit(&mut self) -> (r: Result<(), Error>)
        ensures
            final(self).mode == Mode::Operational,
            ({
                let pre = Self::to_operational(*old(self));
                let cmd = old(self).vendor.spec_exit_command();
                match r {
                    Ok(_) => Self::accepted_post(pre, *final(self), cmd),
                    Err(e) => Self::keeps_shape(pre, *final(self)) && Self::error_post(
                        pre,
                        *final(self),
                        cmd,
                        e,
                    ),
                }
            }),
            old(self).conn.reliable() ==> Self::reliable_done_post(
                spec_command(
                    old(self).vendor,
                    old(self).op_prompt@,
                    old(self).conn.incoming(),
                    old(self).vendor.spec_exit_command(),
                ),
                old(self).vendor.spec_exit_command(),
                r,
            ),
    {
        self.mode = Mode::Operational;
        let cmd = self.vendor.exit_command();
        match self.execute(cmd) {
            Ok(_) => Ok(()),
            Err(e) => Err(e),
        }
    }
}

} // verus!
