//! The framed reader/writer: turns the raw channel into "write a command
//! line" and "read until the prompt pattern matches" operations.

use vstd::prelude::*;

use crate::channel::{Connection, ReadOutcome};
use crate::channel::ReadEvent;
use crate::encoding::{decode_lossy, encode_text, lossy_utf8, spec_encoded, TextEncoding};
use crate::encoding::MAX_COMMAND_LEN;
use crate::error::{CommandError, Error};
use crate::pattern::{regex_is_match, regex_strip, Prompt};

verus! {

/// What one read-until-prompt call yields: the accumulated text, the fault
/// message if the transport failed, and how many read events it consumed.
pub struct ReadResult {
    pub output: Seq<char>,
    pub fault: Option<Seq<char>>,
    pub used: int,
}

/// The read-until-prompt framing over a sequence of read events: each chunk
/// is decoded and accumulated, and the read ends when the latest chunk (not
/// the whole buffer) matches the prompt pattern, on end-of-stream, on a
/// timeout, or on a transport fault. A timeout is not an error: the text
/// accumulated so far is the result.
pub open spec fn spec_read(events: Seq<ReadEvent>, pattern: Seq<char>) -> ReadResult
    decreases events.len(),
{
    if events.len() == 0 {
        ReadResult { output: Seq::empty(), fault: None, used: 0 }
    } else {
        match events[0] {
            ReadEvent::Data(bytes) => {
                let text = lossy_utf8(bytes);
                if regex_is_match(pattern, text) {
                    ReadResult { output: text, fault: None, used: 1 }
                } else {
                    let rest = spec_read(events.drop_first(), pattern);
                    ReadResult {
                        output: text + rest.output,
                        fault: rest.fault,
                        used: 1 + rest.used,
                    }
                }
            },
            ReadEvent::Eof => ReadResult { output: Seq::empty(), fault: None, used: 1 },
            ReadEvent::TimedOut => ReadResult { output: Seq::empty(), fault: None, used: 1 },
            ReadEvent::Fault(m) => ReadResult { output: Seq::empty(), fault: Some(m), used: 1 },
        }
    }
}

/// Reads from `conn` until the latest chunk matches `prompt`, until
/// end-of-stream, or until a timeout; a transport fault is the one error.
#[verifier::loop_isolation(false)]
pub fn read_until<C: Connection>(conn: &mut C, prompt: &Prompt) -> (r: Result<String, Error>)
    ensures
        final(conn).outgoing() == old(conn).outgoing(),
        final(conn).reliable() == old(conn).reliable(),
        ({
            let rs = spec_read(old(conn).incoming(), prompt@);
            &&& final(conn).incoming() == old(conn).incoming().skip(rs.used)
            &&& match r {
                Ok(text) => rs.fault is None && text@ == rs.output,
                Err(e) => {
                    &&& rs.fault matches Some(m)
                    &&& e matches Error::Generic { message } && message@
                        == rs.fault.unwrap()
                },
            }
        }),
{
    let ghost events0 = old(conn).incoming();
    let ghost full = spec_read(events0, prompt@);
    let mut acc = String::new();
    let ghost mut consumed: int = 0;
    proof {
        assert(events0.skip(0) =~= events0);
        assert(acc@ + full.output =~= full.output);
    }
    loop
        invariant
            conn.outgoing() == old(conn).outgoing(),
            conn.reliable() == old(conn).reliable(),
            0 <= consumed <= events0.len(),
            conn.incoming() == events0.skip(consumed),
            full.fault == spec_read(conn.incoming(), prompt@).fault,
            full.output == acc@ + spec_read(conn.incoming(), prompt@).output,
            full.used == consumed + spec_read(conn.incoming(), prompt@).used,
        decreases conn.incoming().len(),
    {
        let ghost cur = conn.incoming();
        let outcome = conn.read_chunk();
        match outcome {
            ReadOutcome::Data(bytes) => {
                let text = decode_lossy(bytes.as_slice());
                let matched = prompt.is_match(text.as_str());
                acc.append(text.as_str());
                if matched {
                    proof {
                        assert(full.output == acc@);
                        assert(full.used == consumed + 1);
                        assert(conn.incoming() =~= events0.skip(consumed + 1));
                    }
                    return Ok(acc);
                }
                proof {
                    consumed = consumed + 1;
                    assert(cur.drop_first() =~= events0.skip(consumed));
                }
            },
            ReadOutcome::Eof => {
                proof {
                    if cur.len() == 0 {
                        assert(acc@ + spec_read(cur, prompt@).output =~= acc@);
                    } else {
                        assert(acc@ + spec_read(cur, prompt@).output =~= acc@);
                        assert(conn.incoming() =~= events0.skip(consumed + 1));
                    }
                }
                return Ok(acc);
            },
            ReadOutcome::TimedOut => {
                proof {
                    assert(acc@ + spec_read(cur, prompt@).output =~= acc@);
                    assert(conn.incoming() =~= events0.skip(consumed + 1));
                }
                return Ok(acc);
            },
            ReadOutcome::Fault(m) => {
                proof {
                    assert(conn.incoming() =~= events0.skip(consumed + 1));
                }
                return Err(Error::Generic { message: m });
            },
        }
    }
}

/// Writes `command` with its line terminator appended, transcoded to `enc`.
pub fn write_command<C: Connection>(conn: &mut C, command: &str, enc: TextEncoding) -> (r: Result<
    (),
    Error,
>)
    requires
        command@.len() <= MAX_COMMAND_LEN,
    ensures
        final(conn).incoming() == old(conn).incoming(),
        final(conn).reliable() == old(conn).reliable(),
        ({
            let line = command@ + "\n"@;
            match spec_encoded(enc, line) {
                None => r matches Err(Error::EncodingError { .. }) && final(conn).outgoing()
                    == old(conn).outgoing(),
                Some(bytes) => match r {
                    Ok(_) => final(conn).outgoing() == old(conn).outgoing().push(bytes),
                    Err(e) => {
                        &&& e matches Error::CommandExecution(
                            CommandError::Generic { command: c, message: _ },
                        ) && c@ == command@
                        &&& final(conn).outgoing() == old(conn).outgoing()
                            || final(conn).outgoing() == old(conn).outgoing().push(bytes)
                    },
                },
            }
        }),
        old(conn).reliable() && spec_encoded(enc, command@ + "\n"@) is Some ==> r is Ok,
{
    let mut line = String::from_str(command);
    line.append("\n");
    proof {
        reveal_strlit("\n");
        assert(line@.len() <= 0x3fff_ffff);
    }
    let bytes = match encode_text(enc, line.as_str()) {
        Some(b) => b,
        None => {
            return Err(
                Error::EncodingError {
                    operation: String::from_str("encode"),
                    encoding_name: String::from_str("GBK"),
                },
            );
        },
    };
    match conn.write_all(bytes.as_slice()) {
        Ok(_) => {},
        Err(m) => {
            return Err(
                Error::CommandExecution(
                    CommandError::Generic { command: String::from_str(command), message: m },
                ),
            );
        },
    }
    match conn.flush() {
        Ok(_) => Ok(()),
        Err(m) => Err(
            Error::CommandExecution(
                CommandError::Generic { command: String::from_str(command), message: m },
            ),
        ),
    }
}

/// The response to one command: the text accumulated up to the prompt, with
/// every prompt fragment removed.
pub open spec fn spec_response(events: Seq<ReadEvent>, pattern: Seq<char>) -> ReadResult {
    let rs = spec_read(events, pattern);
    ReadResult { output: regex_strip(pattern, rs.output), fault: rs.fault, used: rs.used }
}

/// Writes `command`, reads until `prompt`, and removes prompt fragments:
/// one strictly sequential command exchange.
pub fn execute_raw<C: Connection>(
    conn: &mut C,
    command: &str,
    prompt: &Prompt,
    enc: TextEncoding,
) -> (r: Result<String, Error>)
    requires
        command@.len() <= MAX_COMMAND_LEN,
    ensures
        final(conn).reliable() == old(conn).reliable(),
        ({
            let line = command@ + "\n"@;
            let rs = spec_response(old(conn).incoming(), prompt@);
            match spec_encoded(enc, line) {
                None => {
                    &&& r matches Err(Error::EncodingError { .. })
                    &&& final(conn).incoming() == old(conn).incoming()
                    &&& final(conn).outgoing() == old(conn).outgoing()
                },
                Some(bytes) => match r {
                    Ok(text) => {
                        &&& rs.fault is None
                        &&& text@ == rs.output
                        &&& final(conn).incoming() == old(conn).incoming().skip(rs.used)
                        &&& final(conn).outgoing() == old(conn).outgoing().push(bytes)
                    },
                    Err(Error::CommandExecution(CommandError::Generic { command: c, message: _ })) => {
                        &&& c@ == command@
                        &&& final(conn).incoming() == old(conn).incoming()
                        &&& final(conn).outgoing() == old(conn).outgoing()
                            || final(conn).outgoing() == old(conn).outgoing().push(bytes)
                    },
                    Err(Error::Generic { message }) => {
                        &&& rs.fault matches Some(m) && message@ == m
                        &&& final(conn).incoming() == old(conn).incoming().skip(rs.used)
                        &&& final(conn).outgoing() == old(conn).outgoing().push(bytes)
                    },
                    Err(_) => false,
                },
            }
        }),
        old(conn).reliable() && spec_encoded(enc, command@ + "\n"@) is Some && spec_response(
            old(conn).incoming(),
            prompt@,
        ).fault is None ==> r is Ok,
        old(conn).reliable() ==> !(r matches Err(
            Error::CommandExecution(CommandError::Generic { .. }),
        )),
{
    write_command(conn, command, enc)?;
    let raw = read_until(conn, prompt)?;
    Ok(prompt.strip_matches(raw.as_str()))
}

} // verus!
