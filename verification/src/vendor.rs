//! The vendor adapters: the fixed, per-vendor policy bundle that
//! parameterizes the generic session state machine — prompt patterns for
//! each mode, rejection markers, encoding, echo shape, and the log-buffer
//! slicing rule.

use vstd::prelude::*;

use crate::encoding::TextEncoding;
use crate::text::{is_blank, seq_contains, seq_starts_with, spec_is_blank, str_contains};

verus! {

/// The vendors whose CLI dialects are supported.
#[derive(Clone, Copy, PartialEq, Eq, Structural, Debug)]
pub enum Vendor {
    Aruba,
    Cisco,
    H3C,
    Huawei,
    Ruijie,
}

/// Which part of the raw log-command output makes up the log buffer.
#[derive(Clone, Copy, PartialEq, Eq, Structural, Debug)]
pub enum LogRule {
    /// Every line of the output.
    All,
    /// The lines after the first blank line.
    AfterFirstBlank,
    /// The lines after the `Log Buffer ` heading.
    AfterLogBufferHeader,
}

pub open spec fn spec_vendor_from_name(name: Seq<char>) -> Option<Vendor> {
    if name == "aruba"@ {
        Some(Vendor::Aruba)
    } else if name == "cisco"@ {
        Some(Vendor::Cisco)
    } else if name == "h3c"@ {
        Some(Vendor::H3C)
    } else if name == "huawei"@ {
        Some(Vendor::Huawei)
    } else if name == "ruijie"@ {
        Some(Vendor::Ruijie)
    } else {
        None
    }
}

impl Vendor {
    /// Parses a vendor tag written in lower case.
    pub fn from_name(name: &str) -> (r: Option<Vendor>)
        ensures
            r == spec_vendor_from_name(name@),
    {
        if crate::text::str_eq(name, "aruba") {
            Some(Vendor::Aruba)
        } else if crate::text::str_eq(name, "cisco") {
            Some(Vendor::Cisco)
        } else if crate::text::str_eq(name, "h3c") {
            Some(Vendor::H3C)
        } else if crate::text::str_eq(name, "huawei") {
            Some(Vendor::Huawei)
        } else if crate::text::str_eq(name, "ruijie") {
            Some(Vendor::Ruijie)
        } else {
            None
        }
    }

    /// The prompt pattern of operational mode at login.
    pub open spec fn spec_op_pattern(self) -> Seq<char> {
        match self {
            Vendor::Aruba => "\\(.+\\)\\s\\[.+\\]\\s#$"@,
            Vendor::Cisco => "[a-zA-Z0-9_-]+#$"@,
            Vendor::H3C => "<.*>$"@,
            Vendor::Huawei => "<.*>$"@,
            Vendor::Ruijie => "[<\\[].*[>\\]]$"@,
        }
    }

    pub fn op_pattern(&self) -> (r: &'static str)
        ensures
            r@ == self.spec_op_pattern(),
    {
        match self {
            Vendor::Aruba => "\\(.+\\)\\s\\[.+\\]\\s#$",
            Vendor::Cisco => "[a-zA-Z0-9_-]+#$",
            Vendor::H3C => "<.*>$",
            Vendor::Huawei => "<.*>$",
            Vendor::Ruijie => "[<\\[].*[>\\]]$",
        }
    }

    /// The prompt pattern of configuration mode.
    pub open spec fn spec_config_pattern(self) -> Seq<char> {
        match self {
            Vendor::Aruba => "\\(.+\\)\\s\\[.+\\]\\s\\(config\\)\\s#$"@,
            Vendor::Cisco => "[a-zA-Z0-9_-]+\\(config\\)#$"@,
            Vendor::H3C => "\\[.*\\]$"@,
            Vendor::Huawei => "\\[.*\\]$"@,
            Vendor::Ruijie => "[a-zA-Z0-9_-]+\\(config\\)#$"@,
        }
    }

    pub fn config_pattern(&self) -> (r: &'static str)
        ensures
            r@ == self.spec_config_pattern(),
    {
        match self {
            Vendor::Aruba => "\\(.+\\)\\s\\[.+\\]\\s\\(config\\)\\s#$",
            Vendor::Cisco => "[a-zA-Z0-9_-]+\\(config\\)#$",
            Vendor::H3C => "\\[.*\\]$",
            Vendor::Huawei => "\\[.*\\]$",
            Vendor::Ruijie => "[a-zA-Z0-9_-]+\\(config\\)#$",
        }
    }

    /// The operational prompt pattern after privilege escalation.
    pub open spec fn spec_elevated_pattern(self) -> Seq<char> {
        match self {
            Vendor::Ruijie => "[a-zA-Z0-9_-]+#$"@,
            _ => self.spec_op_pattern(),
        }
    }

    pub fn elevated_pattern(&self) -> (r: &'static str)
        ensures
            r@ == self.spec_elevated_pattern(),
    {
        match self {
            Vendor::Ruijie => "[a-zA-Z0-9_-]+#$",
            _ => self.op_pattern(),
        }
    }

    /// The line terminator the device echoes after the command.
    pub open spec fn spec_echo_terminator(self) -> Seq<char> {
        match self {
            Vendor::Aruba => "\n\r"@,
            _ => "\r\n"@,
        }
    }

    pub fn echo_terminator(&self) -> (r: &'static str)
        ensures
            r@ == self.spec_echo_terminator(),
    {
        match self {
            Vendor::Aruba => "\n\r",
            _ => "\r\n",
        }
    }

    /// The character encoding the device expects on the wire.
    pub open spec fn spec_encoding(self) -> TextEncoding {
        match self {
            Vendor::Ruijie => TextEncoding::Gbk,
            _ => TextEncoding::Utf8,
        }
    }

    pub fn encoding(&self) -> (r: TextEncoding)
        ensures
            r == self.spec_encoding(),
    {
        match self {
            Vendor::Ruijie => TextEncoding::Gbk,
            _ => TextEncoding::Utf8,
        }
    }

    /// The post-connect sentinel command that disables output paging.
    pub open spec fn spec_sentinel_command(self) -> Seq<char> {
        match self {
            Vendor::Aruba => "no paging"@,
            Vendor::Cisco => "terminal length 0"@,
            Vendor::H3C => "screen-length disable"@,
            Vendor::Huawei => "screen-length 0 temporary"@,
            Vendor::Ruijie => "terminal length 0"@,
        }
    }

    pub fn sentinel_command(&self) -> (r: &'static str)
        ensures
            r@ == self.spec_sentinel_command(),
            r@.len() <= 64,
    {
        proof {
            reveal_strlit("no paging");
            reveal_strlit("terminal length 0");
            reveal_strlit("screen-length disable");
            reveal_strlit("screen-length 0 temporary");
        }
        match self {
            Vendor::Aruba => "no paging",
            Vendor::Cisco => "terminal length 0",
            Vendor::H3C => "screen-length disable",
            Vendor::Huawei => "screen-length 0 temporary",
            Vendor::Ruijie => "terminal length 0",
        }
    }

    /// The command that enters configuration mode.
    pub open spec fn spec_enter_command(self) -> Seq<char> {
        match self {
            Vendor::Aruba => "configure terminal"@,
            Vendor::Cisco => "configure terminal"@,
            Vendor::H3C => "system-view"@,
            Vendor::Huawei => "system-view"@,
            Vendor::Ruijie => "configure terminal"@,
        }
    }

    pub fn enter_command(&self) -> (r: &'static str)
        ensures
            r@ == self.spec_enter_command(),
            r@.len() <= 64,
    {
        proof {
            reveal_strlit("configure terminal");
            reveal_strlit("system-view");
        }
        match self {
            Vendor::Aruba => "configure terminal",
            Vendor::Cisco => "configure terminal",
            Vendor::H3C => "system-view",
            Vendor::Huawei => "system-view",
            Vendor::Ruijie => "configure terminal",
        }
    }

    /// The command that leaves configuration mode.
    pub open spec fn spec_exit_command(self) -> Seq<char> {
        match self {
            Vendor::Aruba => "end"@,
            Vendor::Cisco => "end"@,
            Vendor::H3C => "quit"@,
            Vendor::Huawei => "quit"@,
            Vendor::Ruijie => "end"@,
        }
    }

    pub fn exit_command(&self) -> (r: &'static str)
        ensures
            r@ == self.spec_exit_command(),
            r@.len() <= 64,
    {
        proof {
            reveal_strlit("end");
            reveal_strlit("quit");
        }
        match self {
            Vendor::Aruba => "end",
            Vendor::Cisco => "end",
            Vendor::H3C => "quit",
            Vendor::Huawei => "quit",
            Vendor::Ruijie => "end",
        }
    }

    /// The command that shows the device's version information.
    pub open spec fn spec_version_command(self) -> Seq<char> {
        match self {
            Vendor::Aruba => "show version"@,
            Vendor::Cisco => "show version"@,
            Vendor::H3C => "display version"@,
            Vendor::Huawei => "display version"@,
            Vendor::Ruijie => "show version"@,
        }
    }

    pub fn version_command(&self) -> (r: &'static str)
        ensures
            r@ == self.spec_version_command(),
            r@.len() <= 64,
    {
        proof {
            reveal_strlit("show version");
            reveal_strlit("display version");
        }
        match self {
            Vendor::Aruba => "show version",
            Vendor::Cisco => "show version",
            Vendor::H3C => "display version",
            Vendor::Huawei => "display version",
            Vendor::Ruijie => "show version",
        }
    }

    /// The command that retrieves the device's log buffer.
    pub open spec fn spec_log_command(self) -> Seq<char> {
        match self {
            Vendor::Aruba => "show log network all"@,
            Vendor::Cisco => "show logging"@,
            Vendor::H3C => "display logbuffer"@,
            Vendor::Huawei => "display logbuffer"@,
            Vendor::Ruijie => "show logging"@,
        }
    }

    pub fn log_command(&self) -> (r: &'static str)
        ensures
            r@ == self.spec_log_command(),
            r@.len() <= 64,
    {
        proof {
            reveal_strlit("show log network all");
            reveal_strlit("show logging");
            reveal_strlit("display logbuffer");
        }
        match self {
            Vendor::Aruba => "show log network all",
            Vendor::Cisco => "show logging",
            Vendor::H3C => "display logbuffer",
            Vendor::Huawei => "display logbuffer",
            Vendor::Ruijie => "show logging",
        }
    }

    /// How the raw log-command output is sliced into the log buffer.
    pub open spec fn spec_log_rule(self) -> LogRule {
        match self {
            Vendor::Aruba => LogRule::All,
            Vendor::Cisco => LogRule::All,
            Vendor::H3C => LogRule::AfterFirstBlank,
            Vendor::Huawei => LogRule::AfterFirstBlank,
            Vendor::Ruijie => LogRule::AfterLogBufferHeader,
        }
    }

    pub fn log_rule(&self) -> (r: LogRule)
        ensures
            r == self.spec_log_rule(),
    {
        match self {
            Vendor::Aruba => LogRule::All,
            Vendor::Cisco => LogRule::All,
            Vendor::H3C => LogRule::AfterFirstBlank,
            Vendor::Huawei => LogRule::AfterFirstBlank,
            Vendor::Ruijie => LogRule::AfterLogBufferHeader,
        }
    }

    /// The response marks the command as syntactically invalid.
    pub open spec fn spec_invalid(self, text: Seq<char>) -> bool {
        match self {
            Vendor::Aruba => seq_contains(text, "Invalid input detected at '^' marker."@)
                || seq_contains(text, "Command not applicable for this platform"@),
            Vendor::Cisco => seq_contains(text, "% Invalid input detected at '^' marker."@),
            Vendor::H3C => seq_contains(text, "% Unrecognized command found at '^' position."@)
                || seq_contains(text, "% Too many parameters found at '^' position."@),
            Vendor::Huawei => seq_contains(
                text,
                "Error: Unrecognized command found at '^' position."@,
            ),
            Vendor::Ruijie => seq_contains(text, "% Invalid input detected at '^' marker."@),
        }
    }

    pub fn is_invalid(&self, text: &str) -> (r: bool)
        ensures
            r == self.spec_invalid(text@),
    {
        match self {
            Vendor::Aruba => str_contains(text, "Invalid input detected at '^' marker.")
                || str_contains(text, "Command not applicable for this platform"),
            Vendor::Cisco => str_contains(text, "% Invalid input detected at '^' marker."),
            Vendor::H3C => str_contains(text, "% Unrecognized command found at '^' position.")
                || str_contains(text, "% Too many parameters found at '^' position."),
            Vendor::Huawei => str_contains(
                text,
                "Error: Unrecognized command found at '^' position.",
            ),
            Vendor::Ruijie => str_contains(text, "% Invalid input detected at '^' marker."),
        }
    }

    /// The response marks the command as rejected for lack of privilege.
    pub open spec fn spec_no_privilege(self, text: Seq<char>) -> bool {
        match self {
            Vendor::Ruijie => seq_contains(
                text,
                "% User doesn't have sufficient privilege to execute this command."@,
            ),
            _ => false,
        }
    }

    pub fn is_no_privilege(&self, text: &str) -> (r: bool)
        ensures
            r == self.spec_no_privilege(text@),
    {
        match self {
            Vendor::Ruijie => str_contains(
                text,
                "% User doesn't have sufficient privilege to execute this command.",
            ),
            _ => false,
        }
    }
}

/// The boundary line of a slicing rule: the line after which the log buffer
/// proper begins.
pub open spec fn spec_log_boundary(rule: LogRule, line: Seq<char>) -> bool {
    match rule {
        LogRule::All => false,
        LogRule::AfterFirstBlank => spec_is_blank(line),
        LogRule::AfterLogBufferHeader => seq_starts_with(line, "Log Buffer "@),
    }
}

fn log_boundary(rule: LogRule, line: &str) -> (r: bool)
    ensures
        r == spec_log_boundary(rule, line@),
{
    match rule {
        LogRule::All => false,
        LogRule::AfterFirstBlank => is_blank(line),
        LogRule::AfterLogBufferHeader => crate::text::str_starts_with(line, "Log Buffer "),
    }
}

/// The lines after the first boundary line of `rule`; empty if none is one.
pub open spec fn spec_drop_log(rule: LogRule, lines: Seq<Seq<char>>) -> Seq<Seq<char>>
    decreases lines.len(),
{
    if lines.len() == 0 {
        Seq::empty()
    } else if spec_log_boundary(rule, lines[0]) {
        lines.drop_first()
    } else {
        spec_drop_log(rule, lines.drop_first())
    }
}

pub proof fn lemma_drop_log_at(rule: LogRule, lines: Seq<Seq<char>>, k: int)
    requires
        0 <= k < lines.len(),
        spec_log_boundary(rule, lines[k]),
        forall|j: int| 0 <= j < k ==> !spec_log_boundary(rule, #[trigger] lines[j]),
    ensures
        spec_drop_log(rule, lines) == lines.skip(k + 1),
    decreases lines.len(),
{
    if k == 0 {
        assert(lines.drop_first() =~= lines.skip(1));
    } else {
        assert(!spec_log_boundary(rule, lines[0]));
        assert forall|j: int|
            0 <= j < k - 1 implies !spec_log_boundary(rule, #[trigger] lines.drop_first()[j]) by {
            assert(lines[j + 1] == lines.drop_first()[j]);
            assert(!spec_log_boundary(rule, lines[j + 1]));
        }
        lemma_drop_log_at(rule, lines.drop_first(), k - 1);
        assert(lines.drop_first().skip(k) =~= lines.skip(k + 1));
    }
}

pub proof fn lemma_drop_log_none(rule: LogRule, lines: Seq<Seq<char>>)
    requires
        forall|j: int| 0 <= j < lines.len() ==> !spec_log_boundary(rule, #[trigger] lines[j]),
    ensures
        spec_drop_log(rule, lines) == Seq::<Seq<char>>::empty(),
    decreases lines.len(),
{
    if lines.len() > 0 {
        assert forall|j: int|
            0 <= j < lines.drop_first().len() implies !spec_log_boundary(
            rule,
            #[trigger] lines.drop_first()[j],
        ) by {
            assert(lines[j + 1] == lines.drop_first()[j]);
            assert(!spec_log_boundary(rule, lines[j + 1]));
        }
        lemma_drop_log_none(rule, lines.drop_first());
    }
}

/// What `rule` keeps of the raw log output's lines.
pub open spec fn spec_slice_log(rule: LogRule, lines: Seq<Seq<char>>) -> Seq<Seq<char>> {
    match rule {
        LogRule::All => lines,
        _ => spec_drop_log(rule, lines),
    }
}

/// Applies a vendor's slicing rule to the lines of a raw log output.
pub fn slice_log(rule: LogRule, lines: Vec<String>) -> (r: Vec<String>)
    ensures
        r.deep_view() == spec_slice_log(rule, lines.deep_view()),
{
    if let LogRule::All = rule {
        return lines;
    }
    let n = lines.len();
    let mut k: usize = 0;
    let mut found = false;
    while k < n && !found
        invariant
            0 <= k <= n,
            n == lines.len(),
            !found ==> forall|j: int|
                0 <= j < k ==> !spec_log_boundary(rule, #[trigger] lines.deep_view()[j]),
            found ==> k >= 1 && spec_log_boundary(rule, lines.deep_view()[k - 1]) && forall|j: int|
                0 <= j < k - 1 ==> !spec_log_boundary(rule, #[trigger] lines.deep_view()[j]),
        decreases n - k + (if found { 0int } else { 1int }),
    {
        let hit = log_boundary(rule, lines[k].as_str());
        proof {
            assert(lines.deep_view()[k as int] == lines@[k as int]@);
        }
        if hit {
            found = true;
        }
        k += 1;
    }
    let mut out: Vec<String> = Vec::new();
    if !found {
        proof {
            lemma_drop_log_none(rule, lines.deep_view());
            assert(out.deep_view() =~= Seq::<Seq<char>>::empty());
        }
        return out;
    }
    let mut i: usize = k;
    while i < n
        invariant
            k <= i <= n,
            n == lines.len(),
            out.deep_view() =~= lines.deep_view().subrange(k as int, i as int),
        decreases n - i,
    {
        let ghost prev = out.deep_view();
        out.push(lines[i].clone());
        proof {
            assert(out.deep_view() =~= prev.push(lines.deep_view()[i as int]));
            assert(out.deep_view() =~= lines.deep_view().subrange(k as int, i + 1));
        }
        i += 1;
    }
    proof {
        lemma_drop_log_at(rule, lines.deep_view(), k - 1);
        assert(lines.deep_view().skip(k as int) =~= lines.deep_view().subrange(
            k as int,
            n as int,
        ));
    }
    out
}

} // verus!
