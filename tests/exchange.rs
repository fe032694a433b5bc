use ipset_listener::adapter::{IpFamily, ToolCall, ToolResult};
use ipset_listener::conf::{setup_default_values, GlobalConfig};
use ipset_listener::dispatch::{Exchange, Step};
use ipset_listener::protocol::LineReader;

fn call(program: &str, args: &[&str]) -> Step {
    Step::Run(ToolCall {
        program: program.as_bytes().to_vec(),
        args: args.iter().map(|a| a.as_bytes().to_vec()).collect(),
    })
}

fn reply(text: &str) -> Step {
    Step::Reply(text.as_bytes().to_vec())
}

fn read_line(raw: &[u8]) -> Vec<u8> {
    let mut reader = LineReader::new();
    let mut lines = Vec::new();
    for b in raw {
        if let Some(l) = reader.push_byte(*b) {
            lines.push(l);
        }
    }
    if let Some(l) = reader.finish() {
        lines.push(l);
    }
    assert_eq!(lines.len(), 1);
    lines.pop().unwrap()
}

fn ok() -> ToolResult {
    ToolResult::Succeeded(Vec::new())
}

/// Runs the request, answering each command with the next of `results`.
fn run(conf: &GlobalConfig, raw: &str, family: Option<IpFamily>, results: Vec<ToolResult>) -> Vec<Step> {
    let line = read_line(raw.as_bytes());
    let (mut ex, mut step) = Exchange::begin(conf, &line);
    let mut steps = Vec::new();
    let mut results = results.into_iter();
    loop {
        match step {
            Step::Reply(_) => {
                steps.push(step);
                return steps;
            }
            Step::CheckIp(_) => {
                steps.push(step);
                assert!(ex.awaits_ip());
                step = ex.ip_checked(family);
            }
            Step::Run(_) => {
                steps.push(step);
                assert!(ex.awaits_tool());
                step = ex.tool_finished(conf, results.next().unwrap());
            }
        }
    }
}

#[test]
fn add_mac_creates_set_then_adds() {
    let conf = setup_default_values();
    let steps = run(&conf, "a 00:11:22:33:44:55\n", None, vec![ok(), ok()]);
    assert_eq!(
        steps,
        vec![
            call("ipset", &["create", "-exist", "registered_users", "hash:mac", "maxelem", "65536"]),
            call("ipset", &["add", "-exist", "registered_users", "00:11:22:33:44:55"]),
            reply("0\r\n"),
        ]
    );
}

#[test]
fn add_then_delete_both_succeed() {
    let conf = setup_default_values();
    let added = run(&conf, "a aa:BB:c:0d:E:ff\n", None, vec![ok(), ok()]);
    assert_eq!(added[1], call("ipset", &["add", "-exist", "registered_users", "aa:BB:c:0d:E:ff"]));
    assert_eq!(added[2], reply("0\r\n"));
    let deleted = run(&conf, "d aa:BB:c:0d:E:ff\n", None, vec![ok(), ok()]);
    assert_eq!(deleted[1], call("ipset", &["del", "-exist", "registered_users", "aa:BB:c:0d:E:ff"]));
    assert_eq!(deleted[2], reply("0\r\n"));
}

#[test]
fn resolve_reports_mac_of_neighbour() {
    let conf = setup_default_values();
    let out = b"192.0.2.5 dev eth0 lladdr aa:bb:cc:dd:ee:ff REACHABLE\n".to_vec();
    let steps = run(&conf, "m 192.0.2.5\n", Some(IpFamily::V4), vec![ToolResult::Succeeded(out)]);
    assert_eq!(
        steps,
        vec![
            Step::CheckIp(b"192.0.2.5".to_vec()),
            call("ip", &["n", "show", "to", "192.0.2.5"]),
            reply("0 aa:bb:cc:dd:ee:ff\r\n"),
        ]
    );
}

#[test]
fn resolve_without_mac_in_output() {
    let conf = setup_default_values();
    let out = b"192.0.2.9 dev eth0  FAILED\n".to_vec();
    let steps = run(&conf, "m 192.0.2.9\n", Some(IpFamily::V4), vec![ToolResult::Succeeded(out)]);
    assert_eq!(steps[2], reply("1 MAC cannot be found\r\n"));
}

#[test]
fn resolve_ipv6_asks_for_family() {
    let conf = setup_default_values();
    let out = b"fe80::1 dev eth0 lladdr 0:1:2:3:4:5 STALE".to_vec();
    let steps = run(&conf, "m fe80::1\r\n", Some(IpFamily::V6), vec![ToolResult::Succeeded(out)]);
    assert_eq!(steps[1], call("ip", &["-6", "n", "show", "to", "fe80::1"]));
    assert_eq!(steps[2], reply("0 0:1:2:3:4:5\r\n"));
}

#[test]
fn unknown_action_is_bad_request() {
    let conf = setup_default_values();
    let steps = run(&conf, "zzz\n", None, vec![]);
    assert_eq!(steps, vec![reply("1 \"zzz\": Request doesn't respect the protocol\r\n")]);
}

#[test]
fn bad_request_quotes_whole_line() {
    let conf = setup_default_values();
    let steps = run(&conf, "  x 00:11:22:33:44:55 \r\n", None, vec![]);
    assert_eq!(
        steps,
        vec![reply("1 \"x 00:11:22:33:44:55\": Request doesn't respect the protocol\r\n")]
    );
    let steps = run(&conf, "7a\n", None, vec![]);
    assert_eq!(steps, vec![reply("1 \"7a\": Request doesn't respect the protocol\r\n")]);
}

#[test]
fn blank_line_is_bad_request() {
    let conf = setup_default_values();
    let steps = run(&conf, " \n", None, vec![]);
    assert_eq!(steps, vec![reply("1 \"\": Request doesn't respect the protocol\r\n")]);
}

#[test]
fn bad_request_echoes_high_bytes_as_characters() {
    let conf = setup_default_values();
    let line = vec![0x5a, 0xe9];
    let (_, step) = Exchange::begin(&conf, &line);
    assert_eq!(step, reply("1 \"Z\u{e9}\": Request doesn't respect the protocol\r\n"));
}

#[test]
fn missing_mac_address() {
    let conf = setup_default_values();
    for raw in ["a hello\n", "d\n", "a 00:11:22:33:44\n", "d 00-11-22-33-44-55\n"] {
        let steps = run(&conf, raw, None, vec![]);
        assert_eq!(steps, vec![reply("1 Missing mac address\r\n")], "{}", raw);
    }
}

#[test]
fn first_mac_of_argument_is_used() {
    let conf = setup_default_values();
    let steps = run(&conf, "a   x 11:22:33:44:55:66 77:88:99:aa:bb:cc  \n", None, vec![ok(), ok()]);
    assert_eq!(steps[1], call("ipset", &["add", "-exist", "registered_users", "11:22:33:44:55:66"]));
}

#[test]
fn letter_alone_is_the_action() {
    let conf = setup_default_values();
    let steps = run(&conf, "add 00:11:22:33:44:55\n", None, vec![ok(), ok()]);
    assert_eq!(steps[1], call("ipset", &["add", "-exist", "registered_users", "00:11:22:33:44:55"]));
}

#[test]
fn not_an_ip_address() {
    let conf = setup_default_values();
    let steps = run(&conf, "m not-an-ip\n", None, vec![]);
    assert_eq!(
        steps,
        vec![Step::CheckIp(b"not-an-ip".to_vec()), reply("1 Not an IP address\r\n")]
    );
}

#[test]
fn set_creation_failure() {
    let conf = setup_default_values();
    let failed = ToolResult::NotLaunched(b"No such file or directory (os error 2)\n".to_vec());
    let steps = run(&conf, "a 00:11:22:33:44:55\n", None, vec![failed]);
    assert_eq!(
        steps[1],
        reply("1 Failed to create registered_users in ipset: No such file or directory (os error 2)\r\n")
    );
}

#[test]
fn element_command_failure() {
    let conf = setup_default_values();
    let failed = ToolResult::Failed(b"ipset v7.1: Kernel error\n  \n".to_vec());
    let steps = run(&conf, "d 00:11:22:33:44:55\n", None, vec![ok(), failed]);
    assert_eq!(
        steps[2],
        reply("1 Failed to launch \"ipset del -exist registered_users 00:11:22:33:44:55\": ipset v7.1: Kernel error\r\n")
    );
}

#[test]
fn neighbour_query_failure() {
    let conf = setup_default_values();
    let failed = ToolResult::Failed(b"Error: inet6 prefix is expected.\n".to_vec());
    let steps = run(&conf, "m ::1\n", Some(IpFamily::V6), vec![failed]);
    assert_eq!(
        steps[2],
        reply("1 Failed to launch \"ip -6 n show to ::1\": Error: inet6 prefix is expected.\r\n")
    );
}

#[test]
fn set_settings_reach_the_command() {
    let mut conf = setup_default_values();
    conf.ipset_bin = String::from("/sbin/ipset");
    conf.registered_users_set.name = String::from("guests");
    conf.registered_users_set.set_type = String::from("hash:mac");
    conf.registered_users_set.maxelem = 1234509;
    let steps = run(&conf, "a 0:0:0:0:0:0\n", None, vec![ok(), ok()]);
    assert_eq!(
        steps[0],
        call("/sbin/ipset", &["create", "-exist", "guests", "hash:mac", "maxelem", "1234509"])
    );
    conf.registered_users_set.maxelem = 0;
    let steps = run(&conf, "a 0:0:0:0:0:0\n", None, vec![ok(), ok()]);
    assert_eq!(steps[0], call("/sbin/ipset", &["create", "-exist", "guests", "hash:mac", "maxelem", "0"]));
}

#[test]
fn default_settings() {
    let conf = setup_default_values();
    assert_eq!(conf.limit_threads, 100);
    assert_eq!(conf.ipset_bin, "ipset");
    assert_eq!(conf.listen_addr, vec![String::from("127.0.0.1:8000"), String::from("[::1]:8000")]);
    assert_eq!(conf.registered_users_set.name, "registered_users");
    assert_eq!(conf.registered_users_set.set_type, "hash:mac");
    assert_eq!(conf.registered_users_set.maxelem, 65536);
}

#[test]
fn failure_text_loses_unicode_whitespace_at_end() {
    let conf = setup_default_values();
    let failed = ToolResult::Failed("x\u{a0}".as_bytes().to_vec());
    let steps = run(&conf, "a 00:11:22:33:44:55\n", None, vec![ok(), failed]);
    assert_eq!(
        steps[2],
        reply("1 Failed to launch \"ipset add -exist registered_users 00:11:22:33:44:55\": x\r\n")
    );
}
