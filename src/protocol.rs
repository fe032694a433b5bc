//! The line protocol: framing of the byte stream into lines, the grammar of a
//! request line, and the text of the replies.
//!
//! A request line is read byte by byte, each byte standing for the character
//! of the same code point, so a line is a sequence of such characters.
use vstd::prelude::*;

verus! {

/// A whitespace character among the first 256 code points.
pub open spec fn is_line_space(b: u8) -> bool {
    (0x09 <= b <= 0x0d) || b == 0x20 || b == 0x85 || b == 0xa0
}

/// ASCII whitespace, the only whitespace whose UTF-8 form is one byte.
pub open spec fn is_text_space(b: u8) -> bool {
    (0x09 <= b <= 0x0d) || b == 0x20
}

/// The UTF-8 form of a whitespace character of three bytes: U+1680,
/// U+2000 to U+200A, U+2028, U+2029, U+202F, U+205F and U+3000.
pub open spec fn is_wide_space(a: u8, b: u8, c: u8) -> bool {
    (a == 0xe1 && b == 0x9a && c == 0x80) || (a == 0xe2 && b == 0x80 && ((0x80 <= c <= 0x8a)
        || c == 0xa8 || c == 0xa9 || c == 0xaf)) || (a == 0xe2 && b == 0x81 && c == 0x9f) || (a
        == 0xe3 && b == 0x80 && c == 0x80)
}

/// The length of the UTF-8 form of the whitespace character that ends `s`,
/// or zero where `s` ends in none: one byte for ASCII whitespace, two for
/// U+0085 and U+00A0, three for the others.
pub open spec fn space_suffix_len(s: Seq<u8>) -> int {
    let n = s.len() as int;
    if n >= 1 && is_text_space(s[n - 1]) {
        1
    } else if n >= 2 && s[n - 2] == 0xc2 && (s[n - 1] == 0x85 || s[n - 1] == 0xa0) {
        2
    } else if n >= 3 && is_wide_space(s[n - 3], s[n - 2], s[n - 1]) {
        3
    } else {
        0
    }
}

/// An ASCII letter.
pub open spec fn is_alpha(b: u8) -> bool {
    (0x41 <= b <= 0x5a) || (0x61 <= b <= 0x7a)
}

pub open spec fn trim_start(s: Seq<u8>) -> Seq<u8>
    decreases s.len(),
{
    if s.len() > 0 && is_line_space(s[0]) {
        trim_start(s.drop_first())
    } else {
        s
    }
}

pub open spec fn trim_end(s: Seq<u8>) -> Seq<u8>
    decreases s.len(),
{
    if s.len() > 0 && is_line_space(s.last()) {
        trim_end(s.drop_last())
    } else {
        s
    }
}

/// A line without the whitespace around it.
pub open spec fn trim(s: Seq<u8>) -> Seq<u8> {
    trim_end(trim_start(s))
}

/// UTF-8 text without the whitespace characters at its end.
pub open spec fn trim_text_end(s: Seq<u8>) -> Seq<u8>
    decreases s.len(),
{
    let k = space_suffix_len(s);
    if k > 0 {
        trim_text_end(s.subrange(0, s.len() - k))
    } else {
        s
    }
}

/// Returns `s` without the whitespace around it.
pub fn trim_line(s: &[u8]) -> (r: Vec<u8>)
    ensures
        r@ == trim(s@),
{
    let mut lo: usize = 0;
    assert(s@.subrange(0, s@.len() as int) =~= s@);
    while lo < s.len() && (0x09 <= s[lo] && s[lo] <= 0x0d || s[lo] == 0x20 || s[lo] == 0x85
        || s[lo] == 0xa0)
        invariant
            lo <= s@.len(),
            trim_start(s@) == trim_start(s@.subrange(lo as int, s@.len() as int)),
        decreases s@.len() - lo,
    {
        assert(s@.subrange(lo as int, s@.len() as int).drop_first() =~= s@.subrange(
            lo + 1,
            s@.len() as int,
        ));
        lo = lo + 1;
    }
    assert(trim_start(s@) == s@.subrange(lo as int, s@.len() as int));
    let mut hi: usize = s.len();
    while hi > lo && (0x09 <= s[hi - 1] && s[hi - 1] <= 0x0d || s[hi - 1] == 0x20 || s[hi - 1]
        == 0x85 || s[hi - 1] == 0xa0)
        invariant
            lo <= hi <= s@.len(),
            trim(s@) == trim_end(s@.subrange(lo as int, hi as int)),
        decreases hi,
    {
        assert(s@.subrange(lo as int, hi as int).drop_last() =~= s@.subrange(
            lo as int,
            hi - 1,
        ));
        hi = hi - 1;
    }
    let mut r: Vec<u8> = Vec::new();
    r.extend_from_slice(&s[lo..hi]);
    r
}

fn space_suffix(s: &[u8], n: usize) -> (k: usize)
    requires
        n <= s@.len(),
    ensures
        k as int == space_suffix_len(s@.subrange(0, n as int)),
{
    let ghost t = s@.subrange(0, n as int);
    assert(forall|i: int| 0 <= i < n ==> t[i] == s@[i]);
    if n >= 1 && (0x09 <= s[n - 1] && s[n - 1] <= 0x0d || s[n - 1] == 0x20) {
        1
    } else if n >= 2 && s[n - 2] == 0xc2 && (s[n - 1] == 0x85 || s[n - 1] == 0xa0) {
        2
    } else if n >= 3 {
        let (a, b, c) = (s[n - 3], s[n - 2], s[n - 1]);
        if (a == 0xe1 && b == 0x9a && c == 0x80) || (a == 0xe2 && b == 0x80 && ((0x80 <= c && c
            <= 0x8a) || c == 0xa8 || c == 0xa9 || c == 0xaf)) || (a == 0xe2 && b == 0x81 && c
            == 0x9f) || (a == 0xe3 && b == 0x80 && c == 0x80) {
            3
        } else {
            0
        }
    } else {
        0
    }
}

/// Returns `s` without the whitespace characters at its end.
pub fn trim_text(s: &[u8]) -> (r: Vec<u8>)
    ensures
        r@ == trim_text_end(s@),
{
    let mut hi: usize = s.len();
    assert(s@.subrange(0, s@.len() as int) =~= s@);
    let mut k = space_suffix(s, hi);
    while k > 0
        invariant
            hi <= s@.len(),
            k as int == space_suffix_len(s@.subrange(0, hi as int)),
            trim_text_end(s@) == trim_text_end(s@.subrange(0, hi as int)),
        decreases hi,
    {
        assert(s@.subrange(0, hi as int).subrange(0, hi - k) =~= s@.subrange(0, hi - k));
        hi = hi - k;
        k = space_suffix(s, hi);
    }
    let mut r: Vec<u8> = Vec::new();
    r.extend_from_slice(&s[0..hi]);
    r
}

/// What a request asks for.
#[derive(Clone, Copy, Debug, PartialEq, Eq, Structural)]
pub enum Action {
    /// `a`: put a MAC address into the set.
    Add,
    /// `d`: take a MAC address out of the set.
    Delete,
    /// `m`: find the MAC address bound to an IP address.
    Resolve,
}

/// The first position at or after `i` that holds no space.
pub open spec fn skip_spaces(t: Seq<u8>, i: int) -> int
    decreases t.len() - i,
{
    if 0 <= i < t.len() && t[i] == 0x20 {
        skip_spaces(t, i + 1)
    } else {
        i
    }
}

/// A line has the shape of a request: a letter, then anything but a line feed.
pub open spec fn has_request_shape(t: Seq<u8>) -> bool {
    t.len() >= 1 && is_alpha(t[0]) && forall|i: int| 0 <= i < t.len() ==> t[i] != 0x0a
}

/// The argument of a request line: what follows its letter and the spaces
/// after it.
pub open spec fn argument_of(t: Seq<u8>) -> Seq<u8> {
    t.subrange(skip_spaces(t, 1), t.len() as int)
}

pub open spec fn action_of(letter: u8) -> Option<Action> {
    if letter == 0x61 {
        Some(Action::Add)
    } else if letter == 0x64 {
        Some(Action::Delete)
    } else if letter == 0x6d {
        Some(Action::Resolve)
    } else {
        None
    }
}

/// The request that a (trimmed) line makes, or `None` for a bad request.
pub open spec fn request_of(t: Seq<u8>) -> Option<(Action, Seq<u8>)> {
    if has_request_shape(t) {
        match action_of(t[0]) {
            Some(a) => Some((a, argument_of(t))),
            None => None,
        }
    } else {
        None
    }
}

proof fn lemma_skip_spaces(t: Seq<u8>, i: int)
    requires
        0 <= i <= t.len(),
    ensures
        i <= skip_spaces(t, i) <= t.len(),
    decreases t.len() - i,
{
    if i < t.len() && t[i] == 0x20 {
        lemma_skip_spaces(t, i + 1);
    }
}

/// Splits a line into its action and argument; `None` where the line is not a
/// request of the protocol.
pub fn parse_request(line: &[u8]) -> (r: Option<(Action, Vec<u8>)>)
    ensures
        r is None <==> request_of(line@) is None,
        r matches Some((a, arg)) ==> request_of(line@) == Some((a, arg@)),
{
    if line.len() == 0 {
        return None;
    }
    let letter = line[0];
    if !((0x41 <= letter && letter <= 0x5a) || (0x61 <= letter && letter <= 0x7a)) {
        return None;
    }
    let mut i: usize = 0;
    while i < line.len()
        invariant
            i <= line@.len(),
            forall|j: int| 0 <= j < i ==> line@[j] != 0x0a,
        decreases line@.len() - i,
    {
        if line[i] == 0x0a {
            return None;
        }
        i = i + 1;
    }
    let action = if letter == 0x61 {
        Action::Add
    } else if letter == 0x64 {
        Action::Delete
    } else if letter == 0x6d {
        Action::Resolve
    } else {
        return None;
    };
    let mut k: usize = 1;
    proof {
        lemma_skip_spaces(line@, 1);
    }
    while k < line.len() && line[k] == 0x20
        invariant
            1 <= k <= line@.len(),
            skip_spaces(line@, 1) == skip_spaces(line@, k as int),
        decreases line@.len() - k,
    {
        k = k + 1;
    }
    let mut arg: Vec<u8> = Vec::new();
    arg.extend_from_slice(&line[k..line.len()]);
    Some((action, arg))
}

/// The UTF-8 form of one character below 256.
pub open spec fn char_utf8(b: u8) -> Seq<u8> {
    if b < 0x80 {
        seq![b]
    } else {
        seq![(0xc0 + b / 64) as u8, (0x80 + b % 64) as u8]
    }
}

/// The UTF-8 form of a line.
pub open spec fn line_utf8(s: Seq<u8>) -> Seq<u8>
    decreases s.len(),
{
    if s.len() == 0 {
        seq![]
    } else {
        line_utf8(s.drop_last()) + char_utf8(s.last())
    }
}

fn push_line_utf8(out: &mut Vec<u8>, s: &[u8])
    ensures
        final(out)@ == old(out)@ + line_utf8(s@),
{
    let ghost start = out@;
    let mut i: usize = 0;
    while i < s.len()
        invariant
            i <= s@.len(),
            out@ == start + line_utf8(s@.subrange(0, i as int)),
        decreases s@.len() - i,
    {
        let b = s[i];
        assert(s@.subrange(0, i + 1).drop_last() =~= s@.subrange(0, i as int));
        if b < 0x80 {
            out.push(b);
        } else {
            out.push(0xc0 + b / 64);
            out.push(0x80 + b % 64);
        }
        assert(out@ =~= start + line_utf8(s@.subrange(0, i + 1)));
        i = i + 1;
    }
    assert(s@.subrange(0, s@.len() as int) =~= s@);
}

/// `0\r\n`.
pub open spec fn ok_reply() -> Seq<u8> {
    seq![0x30, 0x0d, 0x0a]
}

/// `0 <mac>\r\n`.
pub open spec fn mac_reply(mac: Seq<u8>) -> Seq<u8> {
    seq![0x30u8, 0x20] + mac + seq![0x0du8, 0x0a]
}

/// `1 <message>\r\n`, the message without the whitespace at its end.
pub open spec fn error_reply(msg: Seq<u8>) -> Seq<u8> {
    seq![0x31u8, 0x20] + trim_text_end(msg) + seq![0x0du8, 0x0a]
}

/// `": Request doesn't respect the protocol`
pub open spec fn protocol_words() -> Seq<u8> {
    seq![
        0x22u8, 0x3a, 0x20, 0x52, 0x65, 0x71, 0x75, 0x65, 0x73, 0x74, 0x20, 0x64, 0x6f, 0x65, 0x73,
        0x6e, 0x27, 0x74, 0x20, 0x72, 0x65, 0x73, 0x70, 0x65, 0x63, 0x74, 0x20, 0x74, 0x68, 0x65,
        0x20, 0x70, 0x72, 0x6f, 0x74, 0x6f, 0x63, 0x6f, 0x6c,
    ]
}

/// `1 "<line>": Request doesn't respect the protocol\r\n`.
pub open spec fn bad_request_reply(line: Seq<u8>) -> Seq<u8> {
    seq![0x31u8, 0x20, 0x22] + line_utf8(line) + protocol_words() + seq![0x0du8, 0x0a]
}

pub fn ok_response() -> (r: Vec<u8>)
    ensures
        r@ == ok_reply(),
{
    let r: Vec<u8> = vec![0x30, 0x0d, 0x0a];
    assert(r@ =~= ok_reply());
    r
}

pub fn mac_response(mac: &[u8]) -> (r: Vec<u8>)
    ensures
        r@ == mac_reply(mac@),
{
    let mut r: Vec<u8> = vec![0x30, 0x20];
    r.extend_from_slice(mac);
    r.push(0x0d);
    r.push(0x0a);
    assert(r@ =~= mac_reply(mac@));
    r
}

pub fn error_response(msg: &[u8]) -> (r: Vec<u8>)
    ensures
        r@ == error_reply(msg@),
{
    let mut r: Vec<u8> = vec![0x31, 0x20];
    let t = trim_text(msg);
    r.extend_from_slice(t.as_slice());
    r.push(0x0d);
    r.push(0x0a);
    assert(r@ =~= error_reply(msg@));
    r
}

pub fn bad_request_response(line: &[u8]) -> (r: Vec<u8>)
    ensures
        r@ == bad_request_reply(line@),
{
    let mut r: Vec<u8> = vec![0x31, 0x20, 0x22];
    push_line_utf8(&mut r, line);
    let words: Vec<u8> = vec![
        0x22, 0x3a, 0x20, 0x52, 0x65, 0x71, 0x75, 0x65, 0x73, 0x74, 0x20, 0x64, 0x6f, 0x65, 0x73,
        0x6e, 0x27, 0x74, 0x20, 0x72, 0x65, 0x73, 0x70, 0x65, 0x63, 0x74, 0x20, 0x74, 0x68, 0x65,
        0x20, 0x70, 0x72, 0x6f, 0x74, 0x6f, 0x63, 0x6f, 0x6c,
    ];
    assert(words@ =~= protocol_words());
    r.extend_from_slice(words.as_slice());
    r.push(0x0d);
    r.push(0x0a);
    assert(r@ =~= bad_request_reply(line@));
    r
}

/// Gathers the bytes of a connection into lines, each ended by a line feed.
pub struct LineReader {
    pub pending: Vec<u8>,
}

impl LineReader {
    pub fn new() -> (r: LineReader)
        ensures
            r.pending@ == Seq::<u8>::empty(),
    {
        LineReader { pending: Vec::new() }
    }

    /// Takes one byte; at a line feed, hands back the line it ends, trimmed.
    pub fn push_byte(&mut self, b: u8) -> (r: Option<Vec<u8>>)
        ensures
            b == 0x0a ==> final(self).pending@ == Seq::<u8>::empty() && (r matches Some(l)
                && l@ == trim(old(self).pending@.push(b))),
            b != 0x0a ==> final(self).pending@ == old(self).pending@.push(b) && r is None,
    {
        self.pending.push(b);
        if b == 0x0a {
            let line = trim_line(self.pending.as_slice());
            self.pending = Vec::new();
            Some(line)
        } else {
            None
        }
    }

    /// At the end of the stream: the last line, trimmed, where bytes are left
    /// that no line feed ended.
    pub fn finish(&mut self) -> (r: Option<Vec<u8>>)
        ensures
            final(self).pending@ == Seq::<u8>::empty(),
            old(self).pending@.len() == 0 ==> r is None,
            old(self).pending@.len() > 0 ==> (r matches Some(l) && l@ == trim(old(self).pending@)),
    {
        if self.pending.len() == 0 {
            self.pending = Vec::new();
            None
        } else {
            let line = trim_line(self.pending.as_slice());
            self.pending = Vec::new();
            Some(line)
        }
    }
}

} // verus!
