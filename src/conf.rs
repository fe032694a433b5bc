//! The daemon's settings: read once at startup, then only read.
use vstd::prelude::*;
use vstd::utf8::encode_utf8;

verus! {

/// An IPSet set.
pub struct SetIpset {
    pub name: String,
    pub set_type: String,
    pub maxelem: u64,
}

/// The daemon's settings.
pub struct GlobalConfig {
    /// Limit the server to a certain number of threads
    pub limit_threads: u32,
    /// Binary to call when spawning ipset
    pub ipset_bin: String,
    /// Addresses to listen on
    pub listen_addr: Vec<String>,
    /// IPSet set to use
    pub registered_users_set: SetIpset,
}

/// The UTF-8 bytes of a string.
pub open spec fn text(s: String) -> Seq<u8> {
    encode_utf8(s@)
}

/// Returns the UTF-8 bytes of `s`.
pub fn text_bytes(s: &String) -> (r: Vec<u8>)
    ensures
        r@ == text(*s),
{
    let mut r: Vec<u8> = Vec::new();
    r.extend_from_slice(s.as_str().as_bytes());
    r
}

/// The settings that hold where the configuration says nothing: 100 threads,
/// `ipset` as the set-management binary, port 8000 on the IPv4 and the IPv6
/// loopback, and the set `registered_users` of type `hash:mac` with at most
/// 65536 elements.
pub fn setup_default_values() -> (r: GlobalConfig)
    ensures
        r.limit_threads == 100,
        r.ipset_bin@ == "ipset"@,
        r.listen_addr@.len() == 2,
        r.listen_addr@[0]@ == "127.0.0.1:8000"@,
        r.listen_addr@[1]@ == "[::1]:8000"@,
        r.registered_users_set.name@ == "registered_users"@,
        r.registered_users_set.set_type@ == "hash:mac"@,
        r.registered_users_set.maxelem == 65536,
{
    let mut listen_addr: Vec<String> = Vec::new();
    listen_addr.push("127.0.0.1:8000".to_owned());
    listen_addr.push("[::1]:8000".to_owned());
    GlobalConfig {
        limit_threads: 100,
        ipset_bin: "ipset".to_owned(),
        listen_addr,
        registered_users_set: SetIpset {
            name: "registered_users".to_owned(),
            set_type: "hash:mac".to_owned(),
            maxelem: 65536,
        },
    }
}

} // verus!
