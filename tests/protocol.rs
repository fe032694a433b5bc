use ipset_listener::admission::PermitPool;
use ipset_listener::mac::{find_mac, mac_end};
use ipset_listener::protocol::{
    bad_request_response, error_response, mac_response, ok_response, parse_request, trim_line,
    trim_text, Action, LineReader,
};

#[test]
fn lines_are_split_and_trimmed() {
    let mut reader = LineReader::new();
    let mut lines = Vec::new();
    for b in b"a 1\r\n\n  m x  \nd" {
        if let Some(l) = reader.push_byte(*b) {
            lines.push(l);
        }
    }
    assert_eq!(lines, vec![b"a 1".to_vec(), b"".to_vec(), b"m x".to_vec()]);
    assert_eq!(reader.finish(), Some(b"d".to_vec()));
    assert_eq!(reader.finish(), None);
}

#[test]
fn end_of_stream_with_nothing_pending() {
    let mut reader = LineReader::new();
    assert_eq!(reader.push_byte(b'\n'), Some(Vec::new()));
    assert_eq!(reader.finish(), None);
}

#[test]
fn trimming() {
    assert_eq!(trim_line(b"\t a b \r\x0b"), b"a b".to_vec());
    assert_eq!(trim_line(&[0xa0, 0x61, 0x85]), vec![0x61]);
    assert_eq!(trim_line(b"   "), Vec::<u8>::new());
    assert_eq!(trim_text(b" x y \n\t"), b" x y".to_vec());
}

#[test]
fn request_grammar() {
    assert_eq!(parse_request(b"a"), Some((Action::Add, Vec::new())));
    assert_eq!(parse_request(b"d   x y"), Some((Action::Delete, b"x y".to_vec())));
    assert_eq!(parse_request(b"m\t1.2.3.4"), Some((Action::Resolve, b"\t1.2.3.4".to_vec())));
    assert_eq!(parse_request(b"madd"), Some((Action::Resolve, b"add".to_vec())));
    assert_eq!(parse_request(b"A 1"), None);
    assert_eq!(parse_request(b"q 1"), None);
    assert_eq!(parse_request(b" a 1"), None);
    assert_eq!(parse_request(b""), None);
    assert_eq!(parse_request(b"a 1\n2"), None);
}

#[test]
fn replies() {
    assert_eq!(ok_response(), b"0\r\n".to_vec());
    assert_eq!(mac_response(b"a:b:c:d:e:f"), b"0 a:b:c:d:e:f\r\n".to_vec());
    assert_eq!(error_response(b"oops \n"), b"1 oops\r\n".to_vec());
    assert_eq!(
        bad_request_response(b"zzz"),
        b"1 \"zzz\": Request doesn't respect the protocol\r\n".to_vec()
    );
}

#[test]
fn mac_search() {
    assert_eq!(find_mac(b"00:11:22:33:44:55"), Some((0, 17)));
    assert_eq!(find_mac(b"lladdr AA:bb:0:1:2:3 REACHABLE"), Some((7, 20)));
    assert_eq!(find_mac(b"aaa:bb:cc:dd:ee:ff"), Some((1, 18)));
    assert_eq!(find_mac(b"aa:bb:cc:dd:ee:fff"), Some((0, 17)));
    assert_eq!(find_mac(b"aa:bb:cc:dd:ee"), None);
    assert_eq!(find_mac(b"aa:bb:cc:dd:ee:gg"), None);
    assert_eq!(find_mac(b""), None);
    assert_eq!(mac_end(b"x1:2:3:4:5:6", 1), Some(12));
    assert_eq!(mac_end(b"x1:2:3:4:5:6", 0), None);
    assert_eq!(mac_end(b"1:2:3:4:5:6", 40), None);
}

#[test]
fn permits_never_exceed_capacity() {
    let mut pool = PermitPool::new(2);
    assert!(pool.try_acquire());
    assert!(pool.try_acquire());
    assert!(!pool.try_acquire());
    assert_eq!(pool.active(), 2);
    pool.release();
    assert_eq!(pool.active(), 1);
    assert!(pool.try_acquire());
    assert!(!pool.try_acquire());
    assert_eq!(pool.capacity(), 2);
}

#[test]
fn empty_pool_grants_nothing() {
    let mut pool = PermitPool::new(0);
    assert!(!pool.try_acquire());
    assert_eq!(pool.active(), 0);
}

#[test]
fn text_trims_unicode_whitespace_at_end() {
    assert_eq!(trim_text("x\u{a0}".as_bytes()), b"x".to_vec());
    assert_eq!(trim_text("x \u{3000}\u{85}\u{2003}\u{1680}\u{2028}\u{2029}\u{202f}\u{205f}\n".as_bytes()), b"x".to_vec());
    assert_eq!(trim_text("\u{a0}x\u{e9}".as_bytes()), "\u{a0}x\u{e9}".as_bytes().to_vec());
    assert_eq!(trim_text("\u{2000}\u{200a}".as_bytes()), Vec::<u8>::new());
    assert_eq!(trim_text("x\u{200b}".as_bytes()), "x\u{200b}".as_bytes().to_vec());
    assert_eq!(error_response("bad\u{a0}\r\n".as_bytes()), b"1 bad\r\n".to_vec());
}
