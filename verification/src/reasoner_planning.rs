//! The local reasoner: without a model it proposes one read-oriented Linux
//! command for the goal, asks for a verification command when a mutating or
//! unknown command still needs one, and otherwise interprets the last
//! observation in a short summary that never repeats the raw output.
use vstd::prelude::*;
use crate::decision::{AgentDecision, CommandProposalRequest};
use crate::encoding::{decimal, decimal_text};
use crate::reasoner::Observation;
use crate::text::{
    chars_of, contains_any, contains_seq, ends_with_seq, has_any_infix, has_infix, has_prefix,
    has_suffix, lower_chars, lower_text, same_chars, starts_with_seq, string_from_chars, trim,
    trim_bounds, trimmed_chars, views,
};
use crate::routing::{first_nonwhite_from, first_white_from, lemma_first_nonwhite_bounds, lemma_first_white_bounds};
use crate::fleet_digest::push_str;

verus! {

pub const LARGE_FILE_COMMAND: &'static str =
    "find . -type f -size +10M -printf '%s %p\\n' | sort -nr | numfmt --field=1 --to=iec --suffix=B 2>&1";
pub const LARGE_FILE_REASON_CN: &'static str = "在当前目录递归查找超过 10M 的文件并按大小显示，方便确认占用空间较大的文件";
pub const LARGE_FILE_REASON_EN: &'static str = "Find files over 10M below the current directory and sort them by size";
pub const DISK_COMMAND: &'static str = "df -h";
pub const DISK_REASON: &'static str = "Inspect filesystem capacity and usage";
pub const NGINX_LOG_COMMAND: &'static str = "find /var/log/nginx -maxdepth 1 -type f -name '*error*' -print 2>&1";
pub const NGINX_LOG_REASON: &'static str = "Locate readable Nginx error logs before inspecting their contents";
pub const OS_RELEASE_COMMAND: &'static str = "cat /etc/os-release";
pub const OS_RELEASE_REASON_CN: &'static str = "先读取发行版信息，再决定后续安装或运行时检查步骤";
pub const OS_RELEASE_REASON_EN: &'static str = "Inspect OS release before choosing install or runtime discovery steps";
pub const SYSTEM_COMMAND: &'static str = "uname -a";
pub const SYSTEM_REASON: &'static str = "Inspect the connected Linux system before continuing";
pub const VERIFY_REASON_CN: &'static str = "用只读命令确认上一命令后的主机状态，满足完成前的验证要求";
pub const VERIFY_REASON_EN: &'static str =
    "Run a read-only check to satisfy the required follow-up verification before completion";
pub const VERIFY_ANALYSIS_CN: &'static str = "上一命令被判定为写入或未知，需先完成一次成功的只读验证才能结束。";
pub const VERIFY_ANALYSIS_EN: &'static str =
    "The previous command was mutating or unknown; a successful read verification is required before completion.";

pub const NGINX_MISSING_SUMMARY: &'static str =
    "The configured Nginx log directory does not exist on this server, so no matching error log could be inspected.";
pub const PERMISSION_SUMMARY: &'static str =
    "The command could not read the requested resource because the connected user lacks permission.";
pub const SUCCESS_SUMMARY: &'static str =
    "The approved command completed and its terminal output was collected for analysis.";
pub const FAILURE_SUMMARY: &'static str =
    "The approved command reported a failure; review the interpreted error before choosing the next step.";
pub const DISK_CRITICAL_PREFIX: &'static str = "Filesystem usage is critically high: the largest reported usage is ";
pub const DISK_ELEVATED_PREFIX: &'static str = "Filesystem usage is elevated: the largest reported usage is ";
pub const DISK_HEALTHY_PREFIX: &'static str = "Filesystem usage appears healthy; the largest reported usage is ";

pub const LARGE_FILE_WORDS: [&'static str; 5] = ["超过10m", "超过 10m", "larger than 10m", "over 10m", "files over 10m"];
pub const DISK_WORDS: [&'static str; 6] = ["disk", "storage", "filesystem", "磁盘", "空间", "容量"];
pub const NGINX_WORDS: [&'static str; 3] = ["nginx", "error log", "错误日志"];
pub const RUNTIME_WORDS: [&'static str; 7] = ["pm2", "nodejs", "node.js", "npm", "npx", "install node", "install npm"];

/// The text holds a CJK unified ideograph.
pub open spec fn has_cjk(s: Seq<char>) -> bool {
    exists|i: int| 0 <= i < s.len() && '\u{4e00}' <= #[trigger] s[i] && s[i] <= '\u{9fff}'
}

fn has_cjk_exec(s: &[char]) -> (r: bool)
    ensures
        r == has_cjk(s@),
{
    let mut i: usize = 0;
    while i < s.len()
        invariant
            i <= s@.len(),
            forall|j: int| 0 <= j < i ==> !('\u{4e00}' <= #[trigger] s@[j] && s@[j] <= '\u{9fff}'),
        decreases s@.len() - i,
    {
        if '\u{4e00}' <= s[i] && s[i] <= '\u{9fff}' {
            return true;
        }
        i = i + 1;
    }
    false
}

/// Whether the goal asks about installing or running Node-based tooling.
pub open spec fn needs_runtime_discovery_spec(lower: Seq<char>, goal: Seq<char>) -> bool {
    ||| has_any_infix(lower, views(RUNTIME_WORDS@))
    ||| (has_infix(goal, "安装"@) && (has_infix(lower, "pm2"@) || has_infix(lower, "npm"@)
        || has_infix(lower, "node"@) || has_infix(goal, "Node"@)))
    ||| has_infix(lower, "node "@)
    ||| has_infix(lower, " node"@)
    ||| has_suffix(lower, "node"@)
    ||| has_prefix(lower, "node"@)
    ||| has_infix(goal, "Node"@)
}

fn contains_str(hay: &[char], needle: &str) -> (r: bool)
    ensures
        r == has_infix(hay@, needle@),
{
    let n = chars_of(needle);
    contains_seq(hay, n.as_slice())
}

/// Whether `lower` (the lower-cased goal) or the goal asks for Node, npm or
/// pm2 discovery or installation.
pub fn needs_runtime_or_package_discovery(lower: &str, goal: &str) -> (r: bool)
    ensures
        r == needs_runtime_discovery_spec(lower@, goal@),
{
    let l = chars_of(lower);
    let g = chars_of(goal);
    let node = chars_of("node");
    contains_any(l.as_slice(), RUNTIME_WORDS.as_slice())
        || (contains_str(g.as_slice(), "安装") && (contains_str(l.as_slice(), "pm2")
            || contains_str(l.as_slice(), "npm") || contains_str(l.as_slice(), "node")
            || contains_str(g.as_slice(), "Node")))
        || contains_str(l.as_slice(), "node ")
        || contains_str(l.as_slice(), " node")
        || ends_with_seq(l.as_slice(), node.as_slice())
        || starts_with_seq(l.as_slice(), node.as_slice())
        || contains_str(g.as_slice(), "Node")
}

/// Value of a run of decimal digits.
pub open spec fn digits_value(d: Seq<char>) -> int
    decreases d.len(),
{
    if d.len() == 0 { 0 } else { digits_value(d.drop_last()) * 10 + (d.last() as int - '0' as int) }
}

pub open spec fn all_digits(d: Seq<char>) -> bool {
    forall|i: int| 0 <= i < d.len() ==> '0' <= #[trigger] d[i] && d[i] <= '9'
}

/// `str::parse::<u32>`: an optional `+`, then one or more decimal digits,
/// with a value that fits.
pub open spec fn parse_u32(s: Seq<char>) -> Option<u32> {
    let d = if s.len() > 0 && s[0] == '+' { s.drop_first() } else { s };
    if d.len() == 0 || !all_digits(d) || digits_value(d) > u32::MAX {
        None
    } else {
        Some(digits_value(d) as u32)
    }
}

/// The percentage a token states: the token minus one trailing `%`, parsed.
pub open spec fn token_percent(tok: Seq<char>) -> Option<u32> {
    if tok.len() > 0 && tok.last() == '%' { parse_u32(tok.drop_last()) } else { None }
}

/// The larger of a running maximum and a new value.
pub open spec fn max_opt(acc: Option<u32>, v: Option<u32>) -> Option<u32> {
    match (acc, v) {
        (Some(a), Some(b)) => Some(if a >= b { a } else { b }),
        (None, Some(b)) => Some(b),
        _ => acc,
    }
}

/// The largest percentage stated by the whitespace-separated tokens from
/// position `k` on, folded into `acc`.
pub open spec fn max_percent_from(s: Seq<char>, k: int, acc: Option<u32>) -> Option<u32>
    decreases s.len() - k,
{
    let a = first_nonwhite_from(s, k);
    if k < 0 || a >= s.len() {
        acc
    } else {
        proof {
            if k <= s.len() {
                lemma_first_nonwhite_bounds(s, k);
                lemma_first_white_bounds(s, a);
            }
        }
        let b = first_white_from(s, a);
        if b <= a {
            acc
        } else {
            max_percent_from(s, b, max_opt(acc, token_percent(s.subrange(a, b))))
        }
    }
}

proof fn lemma_digits_value_grows(d: Seq<char>, k: int)
    requires
        0 <= k <= d.len(),
        all_digits(d),
    ensures
        digits_value(d.take(k)) <= digits_value(d),
        digits_value(d.take(k)) >= 0,
    decreases d.len() - k,
{
    if k < d.len() {
        lemma_digits_value_grows(d, k + 1);
        assert(d.take(k + 1).drop_last() =~= d.take(k));
    } else {
        assert(d.take(k) =~= d);
    }
    lemma_digits_value_nonneg(d.take(k));
}

proof fn lemma_digits_value_nonneg(d: Seq<char>)
    requires
        all_digits(d),
    ensures
        digits_value(d) >= 0,
    decreases d.len(),
{
    if d.len() > 0 {
        lemma_digits_value_nonneg(d.drop_last());
    }
}

/// `parse_u32` over characters.
fn parse_u32_exec(s: &[char]) -> (r: Option<u32>)
    ensures
        r == parse_u32(s@),
{
    let start: usize = if s.len() > 0 && s[0] == '+' { 1 } else { 0 };
    let ghost d = if s@.len() > 0 && s@[0] == '+' { s@.drop_first() } else { s@ };
    assert(d =~= s@.subrange(start as int, s@.len() as int));
    if start >= s.len() {
        return None;
    }
    let mut i = start;
    while i < s.len()
        invariant
            start <= i <= s@.len(),
            d =~= s@.subrange(start as int, s@.len() as int),
            d == (if s@.len() > 0 && s@[0] == '+' { s@.drop_first() } else { s@ }),
            d.len() > 0,
            forall|j: int| start <= j < i ==> '0' <= #[trigger] s@[j] && s@[j] <= '9',
        decreases s@.len() - i,
    {
        if !('0' <= s[i] && s[i] <= '9') {
            proof {
                assert(d[i - start] == s@[i as int]);
                assert(!all_digits(d));
            }
            return None;
        }
        i = i + 1;
    }
    assert(all_digits(d));
    let mut acc: u64 = 0;
    let mut i = start;
    while i < s.len()
        invariant
            start <= i <= s@.len(),
            d =~= s@.subrange(start as int, s@.len() as int),
            d == (if s@.len() > 0 && s@[0] == '+' { s@.drop_first() } else { s@ }),
            d.len() > 0,
            all_digits(d),
            acc as int == digits_value(d.take(i - start)),
            acc <= u32::MAX,
        decreases s@.len() - i,
    {
        assert(d[i - start] == s@[i as int]);
        assert('0' <= s@[i as int] && s@[i as int] <= '9');
        let digit = (s[i] as u32 - '0' as u32) as u64;
        proof {
            assert(d.take(i - start + 1).drop_last() =~= d.take(i - start));
            assert(d.take(i - start + 1).last() == s@[i as int]);
        }
        acc = acc * 10 + digit;
        if acc > 4294967295u64 {
            proof {
                lemma_digits_value_grows(d, i - start + 1);
                assert(digits_value(d) > u32::MAX);
            }
            return None;
        }
        i = i + 1;
    }
    assert(d.take(d.len() as int) =~= d);
    Some(acc as u32)
}

/// The largest percentage the text reports (`12%`, `94%`, ...), if any.
pub fn highest_disk_usage(value: &str) -> (r: Option<u32>)
    ensures
        r == max_percent_from(value@, 0, None),
{
    let s = chars_of(value);
    let mut k: usize = 0;
    let mut acc: Option<u32> = None;
    loop
        invariant
            k <= s@.len(),
            s@ == value@,
            max_percent_from(s@, k as int, acc) == max_percent_from(s@, 0, None),
        decreases s@.len() - k,
    {
        let a = crate::routing::first_nonwhite_index(s.as_slice(), k);
        proof {
            lemma_first_nonwhite_bounds(s@, k as int);
        }
        if a >= s.len() {
            return acc;
        }
        let b = crate::routing::first_white_index(s.as_slice(), a);
        proof {
            lemma_first_white_bounds(s@, a as int);
        }
        if b <= a {
            return acc;
        }
        let percent: Option<u32> = if s[b - 1] == '%' {
            let mut digits: Vec<char> = Vec::new();
            let mut j = a;
            while j < b - 1
                invariant
                    a <= j <= b - 1,
                    b <= s@.len(),
                    digits@ == s@.subrange(a as int, j as int),
                decreases b - 1 - j,
            {
                digits.push(s[j]);
                proof {
                    assert(s@.subrange(a as int, j + 1) =~= s@.subrange(a as int, j as int).push(s@[j as int]));
                }
                j = j + 1;
            }
            proof {
                assert(s@.subrange(a as int, b as int).drop_last() =~= digits@);
            }
            parse_u32_exec(digits.as_slice())
        } else {
            None
        };
        acc = match (acc, percent) {
            (Some(x), Some(y)) => Some(if x >= y { x } else { y }),
            (None, Some(y)) => Some(y),
            _ => acc,
        };
        k = b;
    }
}

/// The text of an observation's detail; empty when there is none.
pub open spec fn detail_text(o: Observation) -> Seq<char> {
    match o.detail {
        Some(d) => d@,
        None => Seq::empty(),
    }
}

/// The local interpretation of an observation.
pub open spec fn local_summary(detail: Seq<char>, success: bool) -> Seq<char> {
    let lower = lower_text(detail);
    if has_infix(lower, "/var/log/nginx"@) && has_infix(lower, "no such file or directory"@) {
        NGINX_MISSING_SUMMARY@
    } else if has_infix(lower, "permission denied"@) {
        PERMISSION_SUMMARY@
    } else if max_percent_from(detail, 0, None) is Some {
        let p = max_percent_from(detail, 0, None)->0;
        let prefix = if p >= 90 {
            DISK_CRITICAL_PREFIX@
        } else if p >= 80 {
            DISK_ELEVATED_PREFIX@
        } else {
            DISK_HEALTHY_PREFIX@
        };
        prefix + decimal(p as nat) + "%."@
    } else if success {
        SUCCESS_SUMMARY@
    } else {
        FAILURE_SUMMARY@
    }
}

/// Short interpretation of the last command observation.
pub fn summarize_local_observation(observation: &Observation) -> (r: String)
    ensures
        r@ == local_summary(detail_text(*observation), observation.success),
{
    let detail: &str = match &observation.detail {
        Some(d) => d.as_str(),
        None => "",
    };
    proof {
        reveal_strlit("");
    }
    assert(detail@ == detail_text(*observation));
    let lower = lower_chars(chars_of(detail).as_slice());
    assert(lower@ == lower_text(detail_text(*observation)));
    if contains_str(lower.as_slice(), "/var/log/nginx") && contains_str(lower.as_slice(), "no such file or directory") {
        return NGINX_MISSING_SUMMARY.to_owned();
    }
    if contains_str(lower.as_slice(), "permission denied") {
        return PERMISSION_SUMMARY.to_owned();
    }
    if let Some(percent) = highest_disk_usage(detail) {
        let mut out: Vec<char> = Vec::new();
        if percent >= 90 {
            push_str(&mut out, DISK_CRITICAL_PREFIX);
        } else if percent >= 80 {
            push_str(&mut out, DISK_ELEVATED_PREFIX);
        } else {
            push_str(&mut out, DISK_HEALTHY_PREFIX);
        }
        let digits = decimal_text(percent as u64);
        let mut i: usize = 0;
        let ghost base = out@;
        while i < digits.len()
            invariant
                i <= digits@.len(),
                out@ == base + digits@.take(i as int),
            decreases digits@.len() - i,
        {
            out.push(digits[i]);
            proof {
                assert(digits@.take(i + 1) =~= digits@.take(i as int).push(digits@[i as int]));
            }
            i = i + 1;
        }
        assert(digits@.take(digits@.len() as int) =~= digits@);
        push_str(&mut out, "%.");
        return string_from_chars(out.as_slice());
    }
    if observation.success {
        SUCCESS_SUMMARY.to_owned()
    } else {
        FAILURE_SUMMARY.to_owned()
    }
}

/// The command and reason proposed for a goal on the first round.
pub open spec fn local_command(goal: Seq<char>) -> (Seq<char>, Seq<char>) {
    let lower = lower_text(goal);
    let chinese = has_cjk(goal);
    if has_any_infix(lower, views(LARGE_FILE_WORDS@)) {
        (LARGE_FILE_COMMAND@, if chinese { LARGE_FILE_REASON_CN@ } else { LARGE_FILE_REASON_EN@ })
    } else if has_any_infix(lower, views(DISK_WORDS@)) {
        (DISK_COMMAND@, DISK_REASON@)
    } else if has_any_infix(lower, views(NGINX_WORDS@)) {
        (NGINX_LOG_COMMAND@, NGINX_LOG_REASON@)
    } else if needs_runtime_discovery_spec(lower, goal) {
        (OS_RELEASE_COMMAND@, if chinese { OS_RELEASE_REASON_CN@ } else { OS_RELEASE_REASON_EN@ })
    } else {
        (SYSTEM_COMMAND@, SYSTEM_REASON@)
    }
}

/// The local reasoner's decision for one round.
pub fn local_command_decision(goal: &str, observations: &[Observation], verification_required: bool) -> (r: AgentDecision)
    ensures
        verification_required ==> match r {
            AgentDecision::CommandProposal(p) => {
                &&& p.command@ == SYSTEM_COMMAND@
                &&& p.reason_summary@ == (if has_cjk(goal@) { VERIFY_REASON_CN@ } else { VERIFY_REASON_EN@ })
                &&& p.observation_analysis matches Some(a)
                &&& a@ == (if has_cjk(goal@) { VERIFY_ANALYSIS_CN@ } else { VERIFY_ANALYSIS_EN@ })
            },
            _ => false,
        },
        !verification_required && observations@.len() > 0 ==> match r {
            AgentDecision::Final { summary } => summary@ == local_summary(
                detail_text(observations@.last()),
                observations@.last().success,
            ),
            _ => false,
        },
        !verification_required && observations@.len() == 0 ==> match r {
            AgentDecision::CommandProposal(p) => {
                &&& p.command@ == local_command(goal@).0
                &&& p.reason_summary@ == local_command(goal@).1
                &&& p.observation_analysis is None
            },
            _ => false,
        },
{
    let g = chars_of(goal);
    let chinese = has_cjk_exec(g.as_slice());
    if verification_required {
        let reason = if chinese { VERIFY_REASON_CN } else { VERIFY_REASON_EN };
        let analysis = if chinese { VERIFY_ANALYSIS_CN } else { VERIFY_ANALYSIS_EN };
        return AgentDecision::CommandProposal(CommandProposalRequest {
            command: SYSTEM_COMMAND.to_owned(),
            reason_summary: reason.to_owned(),
            observation_analysis: Some(analysis.to_owned()),
        });
    }
    if observations.len() > 0 {
        let last = &observations[observations.len() - 1];
        return AgentDecision::Final { summary: summarize_local_observation(last) };
    }
    let lower = lower_chars(g.as_slice());
    let lower_text_value = string_from_chars(lower.as_slice());
    let (command, why) = if contains_any(lower.as_slice(), LARGE_FILE_WORDS.as_slice()) {
        (LARGE_FILE_COMMAND, if chinese { LARGE_FILE_REASON_CN } else { LARGE_FILE_REASON_EN })
    } else if contains_any(lower.as_slice(), DISK_WORDS.as_slice()) {
        (DISK_COMMAND, DISK_REASON)
    } else if contains_any(lower.as_slice(), NGINX_WORDS.as_slice()) {
        (NGINX_LOG_COMMAND, NGINX_LOG_REASON)
    } else if needs_runtime_or_package_discovery(lower_text_value.as_str(), goal) {
        (OS_RELEASE_COMMAND, if chinese { OS_RELEASE_REASON_CN } else { OS_RELEASE_REASON_EN })
    } else {
        (SYSTEM_COMMAND, SYSTEM_REASON)
    };
    AgentDecision::CommandProposal(CommandProposalRequest {
        command: command.to_owned(),
        reason_summary: why.to_owned(),
        observation_analysis: None,
    })
}


/// The command protocol's reply as the model sends it, before it is
/// checked: an action and the fields that action may carry.
#[derive(Debug)]
pub struct RemoteCommandDecision {
    pub action: String,
    pub command: Option<String>,
    pub why: Option<String>,
    pub answer: Option<String>,
    pub question: Option<String>,
    pub analysis: Option<String>,
}

/// The reply's text with a surrounding code fence removed: after trimming,
/// a leading "```json" or "```" is dropped when a closing "```" follows it,
/// and the rest is trimmed again.
pub open spec fn unfenced(content: Seq<char>) -> Seq<char> {
    let t = trim(content);
    let a = if has_prefix(t, "```json"@) {
        t.skip(7)
    } else if has_prefix(t, "```"@) {
        t.skip(3)
    } else {
        t
    };
    let b = if has_suffix(a, "```"@) { a.take(a.len() - 3) } else { t };
    trim(b)
}

/// The reply's text without its code fence.
pub fn unfence_decision(content: &str) -> (r: String)
    ensures
        r@ == unfenced(content@),
{
    proof {
        reveal_strlit("```json");
        reveal_strlit("```");
    }
    let t = trimmed_chars(content);
    let json_fence = chars_of("```json");
    let fence = chars_of("```");
    let start: usize = if starts_with_seq(t.as_slice(), json_fence.as_slice()) {
        7
    } else if starts_with_seq(t.as_slice(), fence.as_slice()) {
        3
    } else {
        0
    };
    let mut a: Vec<char> = Vec::new();
    let mut i: usize = start;
    while i < t.len()
        invariant
            start <= i <= t@.len(),
            a@ == t@.subrange(start as int, i as int),
        decreases t@.len() - i,
    {
        a.push(t[i]);
        proof {
            assert(t@.subrange(start as int, i + 1) =~= t@.subrange(start as int, i as int).push(t@[i as int]));
        }
        i = i + 1;
    }
    proof {
        assert(a@ =~= t@.skip(start as int));
        assert(json_fence@ == "```json"@);
        assert(fence@ == "```"@);
        assert(t@ == trim(content@));
        assert(a@ == (if has_prefix(t@, "```json"@) {
            t@.skip(7)
        } else if has_prefix(t@, "```"@) {
            t@.skip(3)
        } else {
            t@
        }));
    }
    let ghost tv = t@;
    let b: Vec<char> = if ends_with_seq(a.as_slice(), fence.as_slice()) {
        let mut out: Vec<char> = Vec::new();
        let end = a.len() - 3;
        let mut j: usize = 0;
        while j < end
            invariant
                j <= end,
                end + 3 == a@.len(),
                out@ == a@.take(j as int),
            decreases end - j,
        {
            out.push(a[j]);
            proof {
                assert(a@.take(j + 1) =~= a@.take(j as int).push(a@[j as int]));
            }
            j = j + 1;
        }
        assert(out@ =~= a@.take(a@.len() - 3));
        out
    } else {
        t
    };
    assert(b@ == (if has_suffix(a@, "```"@) { a@.take(a@.len() - 3) } else { tv }));
    let (lo, hi) = trim_bounds(b.as_slice());
    let mut out: Vec<char> = Vec::new();
    let mut k: usize = lo;
    while k < hi
        invariant
            lo <= k <= hi <= b@.len(),
            out@ == b@.subrange(lo as int, k as int),
        decreases hi - k,
    {
        out.push(b[k]);
        proof {
            assert(b@.subrange(lo as int, k + 1) =~= b@.subrange(lo as int, k as int).push(b@[k as int]));
        }
        k = k + 1;
    }
    assert(out@ == trim(b@));
    string_from_chars(out.as_slice())
}

/// The decision a checked reply gives. A proposal (`propose` or `command`)
/// needs a command and a reason and may carry an analysis; an answer
/// (`answer` or `final`) needs only the answer; a question (`clarify` or
/// `question`) needs only the question. A field that the action may not
/// carry, a missing field, or another action refuses the reply. The action
/// is compared trimmed and in ASCII lower case.
pub open spec fn command_decision_spec(r: RemoteCommandDecision) -> Result<AgentDecision, ()> {
    let action = lower_text(trim(r.action@));
    if action == "propose"@ || action == "command"@ {
        if r.answer is Some || r.question is Some || r.command is None || r.why is None {
            Err(())
        } else {
            Ok(AgentDecision::CommandProposal(CommandProposalRequest {
                command: r.command->0,
                reason_summary: r.why->0,
                observation_analysis: r.analysis,
            }))
        }
    } else if action == "answer"@ || action == "final"@ {
        if r.command is Some || r.why is Some || r.question is Some || r.analysis is Some || r.answer is None {
            Err(())
        } else {
            Ok(AgentDecision::Final { summary: r.answer->0 })
        }
    } else if action == "clarify"@ || action == "question"@ {
        if r.command is Some || r.why is Some || r.answer is Some || r.analysis is Some || r.question is None {
            Err(())
        } else {
            Ok(AgentDecision::AskUser { question: r.question->0 })
        }
    } else {
        Err(())
    }
}

/// Checks a reply of the command protocol and turns it into a decision.
pub fn command_decision(remote: RemoteCommandDecision) -> (r: Result<AgentDecision, ()>)
    ensures
        r == command_decision_spec(remote),
{
    proof {
        reveal_strlit("propose");
        reveal_strlit("command");
        reveal_strlit("answer");
        reveal_strlit("final");
        reveal_strlit("clarify");
        reveal_strlit("question");
    }
    let trimmed = trimmed_chars(remote.action.as_str());
    let action = lower_chars(trimmed.as_slice());
    let propose = chars_of("propose");
    let command = chars_of("command");
    let answer = chars_of("answer");
    let final_word = chars_of("final");
    let clarify = chars_of("clarify");
    let question = chars_of("question");
    let RemoteCommandDecision { action: _, command: c, why, answer: a, question: q, analysis } = remote;
    if same_chars(action.as_slice(), propose.as_slice()) || same_chars(action.as_slice(), command.as_slice()) {
        if a.is_some() || q.is_some() {
            return Err(());
        }
        match (c, why) {
            (Some(c), Some(w)) => Ok(AgentDecision::CommandProposal(CommandProposalRequest {
                command: c,
                reason_summary: w,
                observation_analysis: analysis,
            })),
            _ => Err(()),
        }
    } else if same_chars(action.as_slice(), answer.as_slice()) || same_chars(action.as_slice(), final_word.as_slice()) {
        if c.is_some() || why.is_some() || q.is_some() || analysis.is_some() {
            return Err(());
        }
        match a {
            Some(a) => Ok(AgentDecision::Final { summary: a }),
            None => Err(()),
        }
    } else if same_chars(action.as_slice(), clarify.as_slice()) || same_chars(action.as_slice(), question.as_slice()) {
        if c.is_some() || why.is_some() || a.is_some() || analysis.is_some() {
            return Err(());
        }
        match q {
            Some(q) => Ok(AgentDecision::AskUser { question: q }),
            None => Err(()),
        }
    } else {
        Err(())
    }
}

} // verus!
