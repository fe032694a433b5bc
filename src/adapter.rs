//! The two outside tools: the command lines that the daemon runs, and how it
//! reads what they did.
//!
//! Running a command is left to the caller; this module says which command to
//! run and turns its outcome into a reply or a failure message.
use vstd::prelude::*;
use vstd::string::StringSliceAdditionalSpecFns;

use crate::conf::{text, text_bytes, GlobalConfig};
use crate::protocol::{trim_text, trim_text_end, Action};

verus! {

/// A program to run, with its arguments, as bytes.
#[derive(Debug, PartialEq, Eq)]
pub struct ToolCall {
    pub program: Vec<u8>,
    pub args: Vec<Vec<u8>>,
}

pub struct CallView {
    pub program: Seq<u8>,
    pub args: Seq<Seq<u8>>,
}

impl View for ToolCall {
    type V = CallView;

    open spec fn view(&self) -> CallView {
        CallView { program: self.program@, args: self.args@.map_values(|a: Vec<u8>| a@) }
    }
}

/// What became of a command.
#[derive(Debug, PartialEq, Eq)]
pub enum ToolResult {
    /// It could not be started; the system's error text.
    NotLaunched(Vec<u8>),
    /// It ran and exited with a failure status; what it wrote to its error
    /// output.
    Failed(Vec<u8>),
    /// It ran and exited with success; what it wrote to its output.
    Succeeded(Vec<u8>),
}

pub enum ResultView {
    NotLaunched(Seq<u8>),
    Failed(Seq<u8>),
    Succeeded(Seq<u8>),
}

impl View for ToolResult {
    type V = ResultView;

    open spec fn view(&self) -> ResultView {
        match self {
            ToolResult::NotLaunched(e) => ResultView::NotLaunched(e@),
            ToolResult::Failed(e) => ResultView::Failed(e@),
            ToolResult::Succeeded(o) => ResultView::Succeeded(o@),
        }
    }
}

/// The family of an IP address.
#[derive(Clone, Copy, Debug, PartialEq, Eq, Structural)]
pub enum IpFamily {
    V4,
    V6,
}

/// The decimal digits of `n`.
pub open spec fn decimal(n: nat) -> Seq<u8>
    decreases n,
{
    if n < 10 {
        seq![(0x30 + n) as u8]
    } else {
        decimal(n / 10) + seq![(0x30 + n % 10) as u8]
    }
}

fn push_decimal(out: &mut Vec<u8>, n: u64)
    ensures
        final(out)@ == old(out)@ + decimal(n as nat),
    decreases n,
{
    if n >= 10 {
        push_decimal(out, n / 10);
    }
    out.push(0x30 + (n % 10) as u8);
    assert(out@ =~= old(out)@ + decimal(n as nat));
}

fn word(s: &str) -> (r: Vec<u8>)
    ensures
        r@ == s.spec_bytes(),
{
    let mut r: Vec<u8> = Vec::new();
    r.extend_from_slice(s.as_bytes());
    r
}

/// The arguments that create the managed set, unless it exists already.
pub open spec fn create_args(c: GlobalConfig) -> Seq<Seq<u8>> {
    seq![
        "create".spec_bytes(),
        "-exist".spec_bytes(),
        text(c.registered_users_set.name),
        text(c.registered_users_set.set_type),
        "maxelem".spec_bytes(),
        decimal(c.registered_users_set.maxelem as nat),
    ]
}

/// The set-management command for an action on a MAC address.
pub open spec fn op_word(op: Action) -> Seq<u8> {
    if op == Action::Delete {
        "del".spec_bytes()
    } else {
        "add".spec_bytes()
    }
}

/// The arguments that put a MAC address into the set or take it out, with no
/// error where it is there already or was not.
pub open spec fn element_args(c: GlobalConfig, op: Action, mac: Seq<u8>) -> Seq<Seq<u8>> {
    seq![op_word(op), "-exist".spec_bytes(), text(c.registered_users_set.name), mac]
}

/// The arguments of the neighbour-table query for an IP address.
pub open spec fn neigh_args(ip: Seq<u8>, family: IpFamily) -> Seq<Seq<u8>> {
    let base = seq!["n".spec_bytes(), "show".spec_bytes(), "to".spec_bytes(), ip];
    if family == IpFamily::V6 {
        seq!["-6".spec_bytes()] + base
    } else {
        base
    }
}

pub open spec fn create_call(c: GlobalConfig) -> CallView {
    CallView { program: text(c.ipset_bin), args: create_args(c) }
}

pub open spec fn element_call(c: GlobalConfig, op: Action, mac: Seq<u8>) -> CallView {
    CallView { program: text(c.ipset_bin), args: element_args(c, op, mac) }
}

pub open spec fn neigh_call(ip: Seq<u8>, family: IpFamily) -> CallView {
    CallView { program: "ip".spec_bytes(), args: neigh_args(ip, family) }
}

/// Returns the command that creates the managed set if it is absent.
pub fn create_set_call(c: &GlobalConfig) -> (r: ToolCall)
    ensures
        r@ == create_call(*c),
{
    let mut args: Vec<Vec<u8>> = Vec::new();
    args.push(word("create"));
    args.push(word("-exist"));
    args.push(text_bytes(&c.registered_users_set.name));
    args.push(text_bytes(&c.registered_users_set.set_type));
    args.push(word("maxelem"));
    let mut n: Vec<u8> = Vec::new();
    push_decimal(&mut n, c.registered_users_set.maxelem);
    args.push(n);
    let r = ToolCall { program: text_bytes(&c.ipset_bin), args };
    assert(r@.args =~= create_args(*c));
    r
}

/// Returns the command that adds `mac` to the managed set or deletes it.
pub fn element_call_for(c: &GlobalConfig, op: Action, mac: &[u8]) -> (r: ToolCall)
    requires
        op != Action::Resolve,
    ensures
        r@ == element_call(*c, op, mac@),
{
    let w = if op == Action::Delete {
        word("del")
    } else {
        word("add")
    };
    assert(w@ == op_word(op));
    let mut args: Vec<Vec<u8>> = Vec::new();
    args.push(w);
    args.push(word("-exist"));
    args.push(text_bytes(&c.registered_users_set.name));
    let mut m: Vec<u8> = Vec::new();
    m.extend_from_slice(mac);
    args.push(m);
    let r = ToolCall { program: text_bytes(&c.ipset_bin), args };
    assert(r@.args.len() == 4);
    assert(r@.args[0] == op_word(op));
    assert(r@.args[1] == "-exist".spec_bytes());
    assert(r@.args[2] == text(c.registered_users_set.name));
    assert(r@.args[3] == mac@);
    assert(r@.args =~= element_args(*c, op, mac@));
    r
}

/// Returns the neighbour-table query for `ip`.
pub fn neigh_call_for(ip: &[u8], family: IpFamily) -> (r: ToolCall)
    ensures
        r@ == neigh_call(ip@, family),
{
    let mut args: Vec<Vec<u8>> = Vec::new();
    let v6 = family == IpFamily::V6;
    if v6 {
        args.push(word("-6"));
    }
    let ghost k: int = if v6 { 1 } else { 0 };
    args.push(word("n"));
    args.push(word("show"));
    args.push(word("to"));
    let mut a: Vec<u8> = Vec::new();
    a.extend_from_slice(ip);
    args.push(a);
    let r = ToolCall { program: word("ip"), args };
    assert(r@.args.len() == k + 4);
    assert(v6 ==> r@.args[0] == "-6".spec_bytes());
    assert(r@.args[k] == "n".spec_bytes());
    assert(r@.args[k + 1] == "show".spec_bytes());
    assert(r@.args[k + 2] == "to".spec_bytes());
    assert(r@.args[k + 3] == ip@);
    assert(r@.args =~= neigh_args(ip@, family));
    r
}

/// The arguments joined by single spaces.
pub open spec fn joined(args: Seq<Seq<u8>>) -> Seq<u8>
    decreases args.len(),
{
    if args.len() == 0 {
        seq![]
    } else if args.len() == 1 {
        args[0]
    } else {
        joined(args.drop_last()) + seq![0x20u8] + args.last()
    }
}

/// A command as a shell would show it: the program, a space, the arguments.
pub open spec fn command_line(call: CallView) -> Seq<u8> {
    call.program + seq![0x20u8] + joined(call.args)
}

fn command_line_of(call: &ToolCall) -> (r: Vec<u8>)
    ensures
        r@ == command_line(call@),
{
    let mut r: Vec<u8> = Vec::new();
    r.extend_from_slice(call.program.as_slice());
    r.push(0x20);
    let ghost start = r@;
    let mut i: usize = 0;
    while i < call.args.len()
        invariant
            i <= call.args@.len(),
            start == call.program@ + seq![0x20u8],
            r@ == start + joined(call@.args.subrange(0, i as int)),
        decreases call.args@.len() - i,
    {
        if i > 0 {
            r.push(0x20);
        }
        r.extend_from_slice(call.args[i].as_slice());
        assert(call@.args.subrange(0, i + 1).drop_last() =~= call@.args.subrange(0, i as int));
        assert(r@ =~= start + joined(call@.args.subrange(0, i + 1)));
        i = i + 1;
    }
    assert(call@.args.subrange(0, call@.args.len() as int) =~= call@.args);
    r
}

/// `Failed to launch "<command line>": <detail>`, the detail without the
/// whitespace at its end.
pub open spec fn launch_failure(call: CallView, detail: Seq<u8>) -> Seq<u8> {
    "Failed to launch \"".spec_bytes() + command_line(call) + "\": ".spec_bytes()
        + trim_text_end(detail)
}

/// `Failed to create <set name> in ipset: <detail>`, the detail without the
/// whitespace at its end.
pub open spec fn create_failure(c: GlobalConfig, detail: Seq<u8>) -> Seq<u8> {
    "Failed to create ".spec_bytes() + text(c.registered_users_set.name) + " in ipset: ".spec_bytes()
        + trim_text_end(detail)
}

pub fn launch_failure_message(call: &ToolCall, detail: &[u8]) -> (r: Vec<u8>)
    ensures
        r@ == launch_failure(call@, detail@),
{
    let mut r = word("Failed to launch \"");
    let line = command_line_of(call);
    r.extend_from_slice(line.as_slice());
    let sep = word("\": ");
    r.extend_from_slice(sep.as_slice());
    let d = trim_text(detail);
    r.extend_from_slice(d.as_slice());
    assert(r@ =~= launch_failure(call@, detail@));
    r
}

pub fn create_failure_message(c: &GlobalConfig, detail: &[u8]) -> (r: Vec<u8>)
    ensures
        r@ == create_failure(*c, detail@),
{
    let mut r = word("Failed to create ");
    let name = text_bytes(&c.registered_users_set.name);
    r.extend_from_slice(name.as_slice());
    let tail = word(" in ipset: ");
    r.extend_from_slice(tail.as_slice());
    let d = trim_text(detail);
    r.extend_from_slice(d.as_slice());
    assert(r@ =~= create_failure(*c, detail@));
    r
}

} // verus!
