//! A multi-vendor network-device automation client: it drives the interactive
//! command-line shell of network switches and routers over a duplex byte
//! channel, and presents a uniform command-execution, configuration-session,
//! and error-classification interface regardless of vendor.

use vstd::prelude::*;

pub mod channel;
pub mod config;
pub mod encoding;
pub mod error;
pub mod laws;
pub mod pattern;
pub mod reader;
pub mod session;
pub mod ssh;
pub mod text;
pub mod vendor;

pub use channel::Connection;
pub use channel::ReadOutcome;
pub use channel::ScriptedChannel;
pub use config::ConfigSession;
pub use config::ConfigurationMode;
pub use error::CommandError;
pub use error::Error;
pub use session::DeviceSession;
pub use session::Mode;
pub use vendor::Vendor;

use crate::channel::ReadEvent;
use crate::encoding::{spec_encoded, MAX_COMMAND_LEN};
use crate::pattern::{regex_valid, Prompt};
use crate::reader::{read_until, spec_read};
use crate::session::{spec_command, spec_enable_command, CmdOutcome};

verus! {

/// Options for `connect` beyond the credentials the transport itself needs.
#[derive(Clone, Debug)]
pub struct ConnectConfig {
    /// The secret for the privilege-escalation handshake, where a vendor
    /// needs one.
    pub enable_password: Option<String>,
}

impl Default for ConnectConfig {
    fn default() -> (r: Self)
        ensures
            r.enable_password is None,
    {
        ConnectConfig { enable_password: None }
    }
}

/// The channel's script lets a connection come up: the banner read does not
/// fault, and the sentinel is either accepted at once or rejected for lack
/// of privilege and accepted after the escalation handshake.
pub open spec fn spec_connect_ready(
    vendor: Vendor,
    events: Seq<ReadEvent>,
    pw: Option<Seq<char>>,
    reliable: bool,
) -> bool {
    &&& reliable
    &&& regex_valid(vendor.spec_op_pattern())
    &&& regex_valid(vendor.spec_config_pattern())
    &&& spec_encoded(vendor.spec_encoding(), vendor.spec_sentinel_command() + "\n"@) is Some
    &&& ({
        let banner = spec_read(events, vendor.spec_op_pattern());
        let after_banner = events.skip(banner.used);
        let o1 = spec_command(
            vendor,
            vendor.spec_op_pattern(),
            after_banner,
            vendor.spec_sentinel_command(),
        );
        let used1 = spec_read(after_banner, vendor.spec_op_pattern()).used;
        &&& banner.fault is None
        &&& match o1 {
            CmdOutcome::Accepted(_) => true,
            CmdOutcome::RejectedNoPrivilege => {
                let elev = vendor.spec_elevated_pattern();
                let after1 = after_banner.skip(used1);
                let en = spec_read(after1, elev);
                &&& regex_valid(elev)
                &&& spec_encoded(vendor.spec_encoding(), spec_enable_command(pw) + "\n"@) is Some
                &&& en.fault is None
                &&& spec_command(
                    vendor,
                    elev,
                    after1.skip(en.used),
                    vendor.spec_sentinel_command(),
                ) is Accepted
            },
            _ => false,
        }
    })
}

/// The device factory: takes an established, authenticated channel, selects
/// the adapter for `vendor`, drains the post-login banner, runs the vendor's
/// paging-disable sentinel — with the one-shot privilege escalation and one
/// sentinel retry if the sentinel is rejected for lack of privilege — and
/// returns a ready session in operational mode.
pub fn connect<C: Connection>(vendor: Vendor, conn: C, config: ConnectConfig) -> (r: Result<
    DeviceSession<C>,
    Error,
>)
    requires
        config.enable_password matches Some(p) ==> p@.len() + 7 <= MAX_COMMAND_LEN,
    ensures
        r matches Ok(s) ==> {
            &&& s.vendor == vendor
            &&& s.mode == Mode::Operational
            &&& s.config_prompt@ == vendor.spec_config_pattern()
            &&& s.enable_password == config.enable_password
            &&& s.conn.reliable() == conn.reliable()
            &&& s.op_prompt@ == vendor.spec_op_pattern() || s.op_prompt@
                == vendor.spec_elevated_pattern()
        },
        !(regex_valid(vendor.spec_op_pattern()) && regex_valid(vendor.spec_config_pattern()))
            ==> r is Err,
        spec_connect_ready(
            vendor,
            conn.incoming(),
            config.enable_password.deep_view(),
            conn.reliable(),
        ) ==> r is Ok,
        ({
            let banner = spec_read(conn.incoming(), vendor.spec_op_pattern());
            let after_banner = conn.incoming().skip(banner.used);
            let o1 = spec_command(
                vendor,
                vendor.spec_op_pattern(),
                after_banner,
                vendor.spec_sentinel_command(),
            );
            let used1 = spec_read(after_banner, vendor.spec_op_pattern()).used;
            (conn.reliable() && regex_valid(vendor.spec_op_pattern()) && regex_valid(
                vendor.spec_config_pattern(),
            ) && banner.fault is None && o1 is Accepted) ==> (r matches Ok(s) && s.op_prompt@
                == vendor.spec_op_pattern() && s.conn.incoming() == after_banner.skip(used1))
        }),
        ({
            let banner = spec_read(conn.incoming(), vendor.spec_op_pattern());
            (regex_valid(vendor.spec_op_pattern()) && regex_valid(vendor.spec_config_pattern())
                && banner.fault is Some) ==> (r matches Err(Error::Generic { message })
                && message@ == banner.fault.unwrap())
        }),
        ({
            let banner = spec_read(conn.incoming(), vendor.spec_op_pattern());
            let after_banner = conn.incoming().skip(banner.used);
            let o1 = spec_command(
                vendor,
                vendor.spec_op_pattern(),
                after_banner,
                vendor.spec_sentinel_command(),
            );
            (conn.reliable() && regex_valid(vendor.spec_op_pattern()) && regex_valid(
                vendor.spec_config_pattern(),
            ) && banner.fault is None && o1 is RejectedInvalid) ==> (r matches Err(
                Error::CommandExecution(CommandError::InvalidInput { command }),
            ) && command@ == vendor.spec_sentinel_command())
        }),
{
    let op_prompt = match Prompt::new(vendor.op_pattern()) {
        Some(p) => p,
        None => {
            return Err(Error::Generic { message: String::from_str("invalid prompt pattern") });
        },
    };
    let config_prompt = match Prompt::new(vendor.config_pattern()) {
        Some(p) => p,
        None => {
            return Err(Error::Generic { message: String::from_str("invalid prompt pattern") });
        },
    };
    let mut s = DeviceSession {
        conn,
        vendor,
        mode: Mode::Operational,
        op_prompt,
        config_prompt,
        enable_password: config.enable_password,
    };
    match read_until(&mut s.conn, &s.op_prompt) {
        Ok(_) => {},
        Err(e) => {
            return Err(e);
        },
    }
    let sentinel = vendor.sentinel_command();
    match s.execute(sentinel) {
        Ok(_) => Ok(s),
        Err(Error::CommandExecution(CommandError::NoPrivilege { command: _ })) => {
            match s.enable() {
                Ok(_) => {},
                Err(e) => {
                    return Err(e);
                },
            }
            match s.execute(sentinel) {
                Ok(_) => Ok(s),
                Err(e) => Err(e),
            }
        },
        Err(e) => Err(e),
    }
}

} // verus!
