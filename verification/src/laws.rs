//! The laws of the session layer that hold for every vendor, every command,
//! and every device behaviour, proved once and for all against the spec
//! functions that the executable functions' contracts are stated over.

use vstd::prelude::*;

use crate::channel::{Connection, ReadEvent};
use crate::encoding::{lossy_utf8, spec_encoded};
use crate::pattern::{regex_is_match, regex_valid};
use crate::reader::{spec_read, spec_response};
use crate::session::{spec_command, spec_enable_command, CmdOutcome, DeviceSession, Mode};
use crate::spec_connect_ready;
use crate::text::echo_stripped;
use crate::vendor::Vendor;

verus! {

/// The event ends a read-until-prompt call by itself: a chunk that matches
/// the prompt, end-of-stream, a timeout, or a transport fault.
pub open spec fn stop_event(e: ReadEvent, pattern: Seq<char>) -> bool {
    match e {
        ReadEvent::Data(bytes) => regex_is_match(pattern, lossy_utf8(bytes)),
        _ => true,
    }
}

/// A read that ended on a stop event depends only on the events it consumed:
/// any stream that begins with the same prefix is read identically.
pub proof fn lemma_read_depends_on_consumed_prefix(
    a: Seq<ReadEvent>,
    b: Seq<ReadEvent>,
    pattern: Seq<char>,
)
    requires
        ({
            let used = spec_read(a, pattern).used;
            &&& 0 < used <= a.len()
            &&& used <= b.len()
            &&& stop_event(a[used - 1], pattern)
            &&& b.take(used) == a.take(used)
        }),
    ensures
        spec_read(b, pattern) == spec_read(a, pattern),
    decreases a.len(),
{
    let used = spec_read(a, pattern).used;
    assert(b.take(used)[0] == a.take(used)[0]);
    assert(b[0] == a[0]);
    match a[0] {
        ReadEvent::Data(bytes) => {
            if !regex_is_match(pattern, lossy_utf8(bytes)) {
                let ar = a.drop_first();
                let br = b.drop_first();
                let ru = spec_read(ar, pattern).used;
                assert(used == 1 + ru);
                if ru == 0 {
                    assert(ar.len() == 0);
                    assert(!stop_event(a[0], pattern));
                    assert(false);
                }
                assert(ar[ru - 1] == a[used - 1]);
                assert(ar.take(ru) =~= a.take(used).drop_first());
                assert(br.take(ru) =~= b.take(used).drop_first());
                assert(ar.take(ru) == br.take(ru));
                lemma_read_depends_on_consumed_prefix(ar, br, pattern);
            }
        },
        _ => {},
    }
}

/// Law: issuing the same read-only command twice in sequence, with the
/// device answering the second call exactly as it answered the first,
/// yields the same prompt-stripped, echo-stripped, classified result both
/// times: the post-processing is deterministic given identical input. The
/// first call's read must have ended on a stop event (prompt match,
/// end-of-stream, timeout, or fault), never by running out of events.
pub proof fn lemma_command_idempotent(
    vendor: Vendor,
    pattern: Seq<char>,
    events: Seq<ReadEvent>,
    cmd: Seq<char>,
)
    requires
        ({
            let used = spec_read(events, pattern).used;
            &&& 0 < used <= events.len()
            &&& stop_event(events[used - 1], pattern)
            &&& used <= events.skip(used).len()
            &&& events.skip(used).take(used) == events.take(used)
        }),
    ensures
        spec_command(vendor, pattern, events.skip(spec_read(events, pattern).used), cmd)
            == spec_command(vendor, pattern, events, cmd),
{
    lemma_read_depends_on_consumed_prefix(
        events,
        events.skip(spec_read(events, pattern).used),
        pattern,
    );
}

/// Law: entering configuration mode and then ending the scope with no
/// commands issued leaves the session's active prompt pattern equal to the
/// operational pattern it had before entry. `mid` is the session as
/// `enter_config` returns it; `post` is the session as the scope's release
/// (the exit exchange) leaves it.
pub proof fn lemma_config_round_trip<C: Connection>(
    pre: DeviceSession<C>,
    mid: DeviceSession<C>,
    post: DeviceSession<C>,
)
    requires
        pre.mode == Mode::Operational,
        DeviceSession::accepted_post(
            DeviceSession::entered(pre),
            mid,
            pre.vendor.spec_enter_command(),
        ),
        DeviceSession::accepted_post(
            DeviceSession::to_operational(mid),
            post,
            mid.vendor.spec_exit_command(),
        ),
    ensures
        post.mode == Mode::Operational,
        post.cur_pattern() == pre.cur_pattern(),
{
}

/// Law: a response that, after prompt and echo stripping, carries the
/// vendor's invalid-input marker classifies as invalid input — by
/// `execute_post`, the error then names exactly the offending command, and
/// by `keeps_shape` the prompt patterns are not corrupted.
pub proof fn lemma_invalid_classification(
    vendor: Vendor,
    pattern: Seq<char>,
    events: Seq<ReadEvent>,
    cmd: Seq<char>,
)
    requires
        spec_encoded(vendor.spec_encoding(), cmd + "\n"@) is Some,
        spec_response(events, pattern).fault is None,
        vendor.spec_invalid(
            echo_stripped(
                cmd + vendor.spec_echo_terminator(),
                spec_response(events, pattern).output,
            ),
        ),
    ensures
        spec_command(vendor, pattern, events, cmd) == CmdOutcome::RejectedInvalid,
{
}

/// Law: against a device that rejects the paging-disable sentinel with the
/// no-privilege marker and then accepts the escalation sequence and the
/// retried sentinel, `connect` succeeds: the rejection is absorbed by the
/// one-shot escalation and no error reaches the caller.
pub proof fn lemma_escalation_connects(
    vendor: Vendor,
    events: Seq<ReadEvent>,
    pw: Option<Seq<char>>,
)
    requires
        regex_valid(vendor.spec_op_pattern()),
        regex_valid(vendor.spec_config_pattern()),
        regex_valid(vendor.spec_elevated_pattern()),
        spec_encoded(vendor.spec_encoding(), vendor.spec_sentinel_command() + "\n"@) is Some,
        spec_encoded(vendor.spec_encoding(), spec_enable_command(pw) + "\n"@) is Some,
        spec_read(events, vendor.spec_op_pattern()).fault is None,
        ({
            let after_banner = events.skip(spec_read(events, vendor.spec_op_pattern()).used);
            spec_command(
                vendor,
                vendor.spec_op_pattern(),
                after_banner,
                vendor.spec_sentinel_command(),
            ) is RejectedNoPrivilege
        }),
        ({
            let after_banner = events.skip(spec_read(events, vendor.spec_op_pattern()).used);
            let after1 = after_banner.skip(
                spec_read(after_banner, vendor.spec_op_pattern()).used,
            );
            &&& spec_read(after1, vendor.spec_elevated_pattern()).fault is None
            &&& spec_command(
                vendor,
                vendor.spec_elevated_pattern(),
                after1.skip(spec_read(after1, vendor.spec_elevated_pattern()).used),
                vendor.spec_sentinel_command(),
            ) is Accepted
        }),
    ensures
        spec_connect_ready(vendor, events, pw, true),
{
}

/// The decoded texts of the data chunks of `events`, concatenated.
pub open spec fn concat_data(events: Seq<ReadEvent>) -> Seq<char>
    decreases events.len(),
{
    if events.len() == 0 {
        Seq::empty()
    } else {
        (match events[0] {
            ReadEvent::Data(b) => lossy_utf8(b),
            _ => Seq::empty(),
        }) + concat_data(events.drop_first())
    }
}

/// Law: a bounded-wait read that times out after data chunks none of which
/// matched the prompt yields the partial text accumulated so far — not an
/// error and not an unbounded wait: exactly the first `k` chunks are
/// consumed, then the timeout event, and nothing after it.
pub proof fn lemma_timeout_partial(events: Seq<ReadEvent>, pattern: Seq<char>, k: int)
    requires
        0 <= k < events.len(),
        events[k] == ReadEvent::TimedOut,
        forall|i: int|
            0 <= i < k ==> ((#[trigger] events[i]) matches ReadEvent::Data(b) && !regex_is_match(
                pattern,
                lossy_utf8(b),
            )),
    ensures
        spec_read(events, pattern).fault is None,
        spec_read(events, pattern).used == k + 1,
        spec_read(events, pattern).output == concat_data(events.take(k)),
    decreases k,
{
    if k == 0 {
        assert(concat_data(events.take(0)) =~= Seq::empty());
        assert(spec_read(events, pattern).output =~= Seq::empty() + concat_data(events.take(0)));
    } else {
        assert(events[0] matches ReadEvent::Data(b) && !regex_is_match(pattern, lossy_utf8(b)));
        let rest = events.drop_first();
        assert(rest[k - 1] == ReadEvent::TimedOut);
        assert forall|i: int|
            0 <= i < k - 1 implies (#[trigger] rest[i]) matches ReadEvent::Data(b)
            && !regex_is_match(pattern, lossy_utf8(b)) by {
            assert(events[i + 1] matches ReadEvent::Data(b) && !regex_is_match(
                pattern,
                lossy_utf8(b),
            ));
        }
        lemma_timeout_partial(rest, pattern, k - 1);
        assert(rest.take(k - 1) =~= events.take(k).drop_first());
        assert(concat_data(events.take(k)) == (match events.take(k)[0] {
            ReadEvent::Data(b) => lossy_utf8(b),
            _ => Seq::empty(),
        }) + concat_data(rest.take(k - 1)));
    }
}

} // verus!
