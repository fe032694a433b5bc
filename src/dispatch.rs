//! The handling of one request line, as a state machine.
//!
//! The caller hands in the line, and then, step by step, what the outside
//! world answered: whether the argument of `m` is an IP address, and what
//! became of each command. The machine answers each time with the next step:
//! a reply to write, an IP literal to check, or a command to run.
use vstd::prelude::*;

use crate::adapter::{
    create_call, create_failure, create_failure_message, create_set_call, element_call,
    element_call_for, launch_failure, launch_failure_message, neigh_call, neigh_call_for,
    CallView, IpFamily, ResultView, ToolCall, ToolResult,
};
use crate::conf::GlobalConfig;
use crate::mac::{
    contains_mac, find_mac, first_mac, is_mac, lemma_first_mac, lemma_is_mac_first, lemma_mac_bytes,
};
use crate::protocol::{
    bad_request_reply, bad_request_response, error_reply, error_response, mac_reply,
    line_utf8, mac_response, ok_reply, ok_response, parse_request, request_of, skip_spaces, trim,
    trim_end, trim_start, trim_text_end, Action,
};

verus! {

/// `Missing mac address`
pub open spec fn missing_mac_message() -> Seq<u8> {
    seq![
        0x4du8, 0x69, 0x73, 0x73, 0x69, 0x6e, 0x67, 0x20, 0x6d, 0x61, 0x63, 0x20, 0x61, 0x64, 0x64,
        0x72, 0x65, 0x73, 0x73,
    ]
}

/// `Not an IP address`
pub open spec fn not_ip_message() -> Seq<u8> {
    seq![
        0x4eu8, 0x6f, 0x74, 0x20, 0x61, 0x6e, 0x20, 0x49, 0x50, 0x20, 0x61, 0x64, 0x64, 0x72, 0x65,
        0x73, 0x73,
    ]
}

/// `MAC cannot be found`
pub open spec fn mac_not_found_message() -> Seq<u8> {
    seq![
        0x4du8, 0x41, 0x43, 0x20, 0x63, 0x61, 0x6e, 0x6e, 0x6f, 0x74, 0x20, 0x62, 0x65, 0x20, 0x66,
        0x6f, 0x75, 0x6e, 0x64,
    ]
}

fn missing_mac_bytes() -> (r: Vec<u8>)
    ensures
        r@ == missing_mac_message(),
{
    let r: Vec<u8> = vec![
        0x4d, 0x69, 0x73, 0x73, 0x69, 0x6e, 0x67, 0x20, 0x6d, 0x61, 0x63, 0x20, 0x61, 0x64, 0x64,
        0x72, 0x65, 0x73, 0x73,
    ];
    assert(r@ =~= missing_mac_message());
    r
}

fn not_ip_bytes() -> (r: Vec<u8>)
    ensures
        r@ == not_ip_message(),
{
    let r: Vec<u8> = vec![
        0x4e, 0x6f, 0x74, 0x20, 0x61, 0x6e, 0x20, 0x49, 0x50, 0x20, 0x61, 0x64, 0x64, 0x72, 0x65,
        0x73, 0x73,
    ];
    assert(r@ =~= not_ip_message());
    r
}

fn mac_not_found_bytes() -> (r: Vec<u8>)
    ensures
        r@ == mac_not_found_message(),
{
    let r: Vec<u8> = vec![
        0x4d, 0x41, 0x43, 0x20, 0x63, 0x61, 0x6e, 0x6e, 0x6f, 0x74, 0x20, 0x62, 0x65, 0x20, 0x66,
        0x6f, 0x75, 0x6e, 0x64,
    ];
    assert(r@ =~= mac_not_found_message());
    r
}

fn copy_bytes(s: &[u8]) -> (r: Vec<u8>)
    ensures
        r@ == s@,
{
    let mut r: Vec<u8> = Vec::new();
    r.extend_from_slice(s);
    r
}

/// Where the handling of a line stands.
pub enum Stage {
    /// The reply is given.
    Done,
    /// Waits to learn whether the argument of `m` is an IP address.
    CheckingIp(Vec<u8>),
    /// Waits for the command that creates the set; then the MAC address is
    /// added or deleted.
    Creating(Action, Vec<u8>),
    /// Waits for the command that adds or deletes the MAC address.
    Changing(Action, Vec<u8>),
    /// Waits for the neighbour-table query for the IP address.
    Resolving(Vec<u8>, IpFamily),
}

pub enum StageView {
    Done,
    CheckingIp(Seq<u8>),
    Creating(Action, Seq<u8>),
    Changing(Action, Seq<u8>),
    Resolving(Seq<u8>, IpFamily),
}

/// What the caller is to do next.
#[derive(Debug, PartialEq, Eq)]
pub enum Step {
    /// Write these bytes to the client; the line is handled.
    Reply(Vec<u8>),
    /// Tell whether these bytes are an IP literal, and of which family.
    CheckIp(Vec<u8>),
    /// Run this command and report what became of it.
    Run(ToolCall),
}

pub enum StepView {
    Reply(Seq<u8>),
    CheckIp(Seq<u8>),
    Run(CallView),
}

impl View for Step {
    type V = StepView;

    open spec fn view(&self) -> StepView {
        match self {
            Step::Reply(b) => StepView::Reply(b@),
            Step::CheckIp(b) => StepView::CheckIp(b@),
            Step::Run(c) => StepView::Run(c@),
        }
    }
}

/// The handling of one request line.
pub struct Exchange {
    pub stage: Stage,
}

impl View for Exchange {
    type V = StageView;

    open spec fn view(&self) -> StageView {
        match self.stage {
            Stage::Done => StageView::Done,
            Stage::CheckingIp(a) => StageView::CheckingIp(a@),
            Stage::Creating(op, m) => StageView::Creating(op, m@),
            Stage::Changing(op, m) => StageView::Changing(op, m@),
            Stage::Resolving(ip, f) => StageView::Resolving(ip@, f),
        }
    }
}

/// The first step for a trimmed request line.
pub open spec fn begin_spec(c: GlobalConfig, line: Seq<u8>) -> (StageView, StepView) {
    match request_of(line) {
        None => (StageView::Done, StepView::Reply(bad_request_reply(line))),
        Some((op, arg)) => if op == Action::Resolve {
            (StageView::CheckingIp(arg), StepView::CheckIp(arg))
        } else {
            match first_mac(arg) {
                None => (StageView::Done, StepView::Reply(error_reply(missing_mac_message()))),
                Some(mac) => (StageView::Creating(op, mac), StepView::Run(create_call(c))),
            }
        },
    }
}

/// The step once the argument of `m` is known to be an IP literal of a family,
/// or known to be none.
pub open spec fn ip_checked_spec(s: StageView, family: Option<IpFamily>) -> (StageView, StepView) {
    match s {
        StageView::CheckingIp(ip) => match family {
            None => (StageView::Done, StepView::Reply(error_reply(not_ip_message()))),
            Some(f) => (StageView::Resolving(ip, f), StepView::Run(neigh_call(ip, f))),
        },
        _ => (s, StepView::Reply(Seq::empty())),
    }
}

/// The step once the awaited command has run.
pub open spec fn tool_finished_spec(c: GlobalConfig, s: StageView, res: ResultView) -> (
    StageView,
    StepView,
) {
    match s {
        StageView::Creating(op, mac) => match res {
            ResultView::Succeeded(_) => (
                StageView::Changing(op, mac),
                StepView::Run(element_call(c, op, mac)),
            ),
            ResultView::NotLaunched(e) => (
                StageView::Done,
                StepView::Reply(error_reply(create_failure(c, e))),
            ),
            ResultView::Failed(e) => (
                StageView::Done,
                StepView::Reply(error_reply(create_failure(c, e))),
            ),
        },
        StageView::Changing(op, mac) => match res {
            ResultView::Succeeded(_) => (StageView::Done, StepView::Reply(ok_reply())),
            ResultView::NotLaunched(e) => (
                StageView::Done,
                StepView::Reply(error_reply(launch_failure(element_call(c, op, mac), e))),
            ),
            ResultView::Failed(e) => (
                StageView::Done,
                StepView::Reply(error_reply(launch_failure(element_call(c, op, mac), e))),
            ),
        },
        StageView::Resolving(ip, f) => match res {
            ResultView::Succeeded(out) => match first_mac(out) {
                Some(mac) => (StageView::Done, StepView::Reply(mac_reply(mac))),
                None => (StageView::Done, StepView::Reply(error_reply(mac_not_found_message()))),
            },
            ResultView::NotLaunched(e) => (
                StageView::Done,
                StepView::Reply(error_reply(launch_failure(neigh_call(ip, f), e))),
            ),
            ResultView::Failed(e) => (
                StageView::Done,
                StepView::Reply(error_reply(launch_failure(neigh_call(ip, f), e))),
            ),
        },
        _ => (s, StepView::Reply(Seq::empty())),
    }
}

/// The handling waits for a command: the set command of an add or a delete,
/// or the neighbour-table query.
pub open spec fn awaits_tool_spec(s: StageView) -> bool {
    match s {
        StageView::Creating(op, _) => op != Action::Resolve,
        StageView::Changing(op, _) => op != Action::Resolve,
        StageView::Resolving(_, _) => true,
        _ => false,
    }
}

/// The first MAC address in `s`, copied out.
fn first_mac_bytes(s: &[u8]) -> (r: Option<Vec<u8>>)
    ensures
        r is None <==> first_mac(s@) is None,
        r matches Some(m) ==> first_mac(s@) == Some(m@),
{
    proof {
        lemma_first_mac(s@);
    }
    match find_mac(s) {
        Some((a, b)) => Some(copy_bytes(&s[a..b])),
        None => None,
    }
}

impl Exchange {
    /// Starts the handling of a trimmed request line.
    pub fn begin(c: &GlobalConfig, line: &[u8]) -> (r: (Exchange, Step))
        ensures
            (r.0@, r.1@) == begin_spec(*c, line@),
    {
        match parse_request(line) {
            None => (Exchange { stage: Stage::Done }, Step::Reply(bad_request_response(line))),
            Some((op, arg)) => {
                if op == Action::Resolve {
                    let a2 = copy_bytes(arg.as_slice());
                    (Exchange { stage: Stage::CheckingIp(arg) }, Step::CheckIp(a2))
                } else {
                    match first_mac_bytes(arg.as_slice()) {
                        None => (
                            Exchange { stage: Stage::Done },
                            Step::Reply(error_response(missing_mac_bytes().as_slice())),
                        ),
                        Some(mac) => (
                            Exchange { stage: Stage::Creating(op, mac) },
                            Step::Run(create_set_call(c)),
                        ),
                    }
                }
            },
        }
    }

    /// Whether the handling waits to learn whether the argument is an IP
    /// literal.
    pub fn awaits_ip(&self) -> (r: bool)
        ensures
            r == (self@ is CheckingIp),
    {
        match self.stage {
            Stage::CheckingIp(_) => true,
            _ => false,
        }
    }

    /// Whether the handling waits for a command to finish.
    pub fn awaits_tool(&self) -> (r: bool)
        ensures
            r == awaits_tool_spec(self@),
    {
        match self.stage {
            Stage::Creating(op, _) | Stage::Changing(op, _) => op != Action::Resolve,
            Stage::Resolving(_, _) => true,
            _ => false,
        }
    }

    /// Goes on once the argument of `m` is known to be an IP literal of
    /// `family`, or (`None`) known to be none.
    pub fn ip_checked(&mut self, family: Option<IpFamily>) -> (r: Step)
        requires
            old(self)@ is CheckingIp,
        ensures
            (final(self)@, r@) == ip_checked_spec(old(self)@, family),
    {
        let ip = match &self.stage {
            Stage::CheckingIp(a) => copy_bytes(a.as_slice()),
            _ => Vec::new(),
        };
        match family {
            None => {
                self.stage = Stage::Done;
                Step::Reply(error_response(not_ip_bytes().as_slice()))
            },
            Some(f) => {
                let call = neigh_call_for(ip.as_slice(), f);
                self.stage = Stage::Resolving(ip, f);
                Step::Run(call)
            },
        }
    }

    /// Goes on once the awaited command has run, with what became of it.
    pub fn tool_finished(&mut self, c: &GlobalConfig, result: ToolResult) -> (r: Step)
        requires
            awaits_tool_spec(old(self)@),
        ensures
            (final(self)@, r@) == tool_finished_spec(*c, old(self)@, result@),
    {
        let mut stage = Stage::Done;
        core::mem::swap(&mut stage, &mut self.stage);
        match stage {
            Stage::Creating(op, mac) => match result {
                ToolResult::Succeeded(_) => {
                    let call = element_call_for(c, op, mac.as_slice());
                    self.stage = Stage::Changing(op, mac);
                    Step::Run(call)
                },
                ToolResult::NotLaunched(e) | ToolResult::Failed(e) => {
                    Step::Reply(error_response(create_failure_message(c, e.as_slice()).as_slice()))
                },
            },
            Stage::Changing(op, mac) => match result {
                ToolResult::Succeeded(_) => Step::Reply(ok_response()),
                ToolResult::NotLaunched(e) | ToolResult::Failed(e) => {
                    let call = element_call_for(c, op, mac.as_slice());
                    Step::Reply(
                        error_response(launch_failure_message(&call, e.as_slice()).as_slice()),
                    )
                },
            },
            Stage::Resolving(ip, f) => match result {
                ToolResult::Succeeded(out) => match first_mac_bytes(out.as_slice()) {
                    Some(mac) => Step::Reply(mac_response(mac.as_slice())),
                    None => Step::Reply(error_response(mac_not_found_bytes().as_slice())),
                },
                ToolResult::NotLaunched(e) | ToolResult::Failed(e) => {
                    let call = neigh_call_for(ip.as_slice(), f);
                    Step::Reply(
                        error_response(launch_failure_message(&call, e.as_slice()).as_slice()),
                    )
                },
            },
            _ => Step::Reply(Vec::new()),
        }
    }
}

/// A request `a <mac>` or `d <mac>` as it comes off the wire, line feed
/// included, with one MAC address as argument, first creates the set, then
/// adds or deletes exactly that address, and is answered `0\r\n` when both
/// commands succeed.
pub proof fn lemma_mac_request_succeeds(
    c: GlobalConfig,
    letter: u8,
    mac: Seq<u8>,
    out1: Seq<u8>,
    out2: Seq<u8>,
)
    requires
        is_mac(mac),
        letter == 0x61 || letter == 0x64,
    ensures
        ({
            let line = trim(seq![letter, 0x20u8] + mac + seq![0x0au8]);
            let op = if letter == 0x61 {
                Action::Add
            } else {
                Action::Delete
            };
            let (s1, step1) = begin_spec(c, line);
            let (s2, step2) = tool_finished_spec(c, s1, ResultView::Succeeded(out1));
            let (s3, step3) = tool_finished_spec(c, s2, ResultView::Succeeded(out2));
            &&& step1 == StepView::Run(create_call(c))
            &&& step2 == StepView::Run(element_call(c, op, mac))
            &&& s3 is Done
            &&& step3 == StepView::Reply(ok_reply())
        }),
{
    lemma_mac_bytes(mac);
    lemma_is_mac_first(mac);
    let raw = seq![letter, 0x20u8] + mac + seq![0x0au8];
    let line = seq![letter, 0x20u8] + mac;
    assert(raw.drop_last() =~= line);
    assert(line.last() == mac.last());
    assert(trim_start(raw) == raw);
    assert(trim_end(line) == line);
    assert(trim(raw) == line);
    assert forall|i: int| 0 <= i < line.len() implies line[i] != 0x0a by {
        if i >= 2 {
            assert(line[i] == mac[i - 2]);
        }
    }
    assert(line[2] == mac[0]);
    assert(skip_spaces(line, 2) == 2);
    assert(skip_spaces(line, 1) == 2);
    assert(line.subrange(2, line.len() as int) =~= mac);
}

/// A line whose first character is none of `a`, `d`, `m` (or an empty line)
/// is a bad request: no command is run, and the reply starts with `1 ` and
/// quotes the line.
pub proof fn lemma_unknown_action(c: GlobalConfig, line: Seq<u8>)
    requires
        line.len() == 0 || (line[0] != 0x61 && line[0] != 0x64 && line[0] != 0x6d),
    ensures
        begin_spec(c, line) == (StageView::Done, StepView::Reply(bad_request_reply(line))),
        bad_request_reply(line).subrange(0, 3) == seq![0x31u8, 0x20, 0x22],
        bad_request_reply(line).subrange(3, 3 + line_utf8(line).len() as int) == line_utf8(line),
{
    let r = bad_request_reply(line);
    assert(r.subrange(0, 3) =~= seq![0x31u8, 0x20, 0x22]);
    assert(r.subrange(3, 3 + line_utf8(line).len() as int) =~= line_utf8(line));
}

/// An `a` or `d` request whose argument holds no MAC address is answered
/// `1 Missing mac address\r\n`, and no command is run.
pub proof fn lemma_missing_mac(c: GlobalConfig, line: Seq<u8>)
    requires
        request_of(line) matches Some((op, arg)) && op != Action::Resolve && !contains_mac(arg),
    ensures
        begin_spec(c, line) == (
            StageView::Done,
            StepView::Reply(seq![0x31u8, 0x20] + missing_mac_message() + seq![0x0du8, 0x0a]),
        ),
{
    let arg = request_of(line).unwrap().1;
    lemma_first_mac(arg);
    let m = missing_mac_message();
    assert(m.last() == 0x73);
    assert(trim_text_end(m) == m);
}

/// An `m` request waits only on the check of its argument, and where that is
/// no IP literal it is answered `1 Not an IP address\r\n`, with no command run.
pub proof fn lemma_not_an_ip(c: GlobalConfig, line: Seq<u8>)
    requires
        request_of(line) matches Some((op, _)) && op == Action::Resolve,
    ensures
        ({
            let arg = request_of(line).unwrap().1;
            &&& begin_spec(c, line) == (StageView::CheckingIp(arg), StepView::CheckIp(arg))
            &&& ip_checked_spec(StageView::CheckingIp(arg), None) == (
                StageView::Done,
                StepView::Reply(seq![0x31u8, 0x20] + not_ip_message() + seq![0x0du8, 0x0a]),
            )
        }),
{
    let m = not_ip_message();
    assert(m.last() == 0x73);
    assert(trim_text_end(m) == m);
}

} // verus!
