//! The daemon's local stream proxy: the URL under which it serves a station.

use vstd::prelude::*;
use crate::text::{append_chars, chars_of, decimal, decimal_chars, string_of};

verus! {

/// `http://{bind_address}:{port}/stream/{idx}`.
pub open spec fn proxy_url_spec(bind_address: Seq<char>, port: u16, idx: usize) -> Seq<char> {
    "http://"@ + bind_address + seq![':'] + decimal(port as nat) + "/stream/"@ + decimal(idx as nat)
}

/// The local proxy URL for a station index.
pub fn proxy_url(bind_address: &str, port: u16, idx: usize) -> (r: String)
    ensures
        r@ == proxy_url_spec(bind_address@, port, idx),
{
    let mut v = chars_of("http://");
    let b = chars_of(bind_address);
    append_chars(&mut v, b.as_slice());
    v.push(':');
    let p = decimal_chars(port as u64);
    append_chars(&mut v, p.as_slice());
    let s = chars_of("/stream/");
    append_chars(&mut v, s.as_slice());
    let i = decimal_chars(idx as u64);
    append_chars(&mut v, i.as_slice());
    proof {
        assert(v@ =~= proxy_url_spec(bind_address@, port, idx));
    }
    string_of(v.as_slice())
}

} // verus!
