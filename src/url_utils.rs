//! Host extraction for the websocket upgrade request.

use vstd::prelude::*;
use vstd::string::StrSliceExecFns;
use crate::text::{cut_at, find_char, has_prefix};

verus! {

/// The host part of a `ws://` or `wss://` URL: the text after the scheme, up to
/// the first '/', then up to the first ':'. `None` for any other scheme.
pub open spec fn host_of(url: Seq<char>) -> Option<Seq<char>> {
    let ws = seq!['w', 's', ':', '/', '/'];
    let wss = seq!['w', 's', 's', ':', '/', '/'];
    if url.len() >= 5 && url.take(5) == ws {
        Some(cut_at(cut_at(url.skip(5), '/'), ':'))
    } else if url.len() >= 6 && url.take(6) == wss {
        Some(cut_at(cut_at(url.skip(6), '/'), ':'))
    } else {
        None
    }
}

/// Extract the host from a websocket URL.
pub fn extract_host(url: &str) -> (r: Option<&str>)
    ensures
        r is Some <==> host_of(url@) is Some,
        r is Some ==> r->0@ == host_of(url@)->0,
{
    let ws = "ws://";
    let wss = "wss://";
    proof {
        reveal_strlit("ws://");
        reveal_strlit("wss://");
        assert(ws@ =~= seq!['w', 's', ':', '/', '/']);
        assert(wss@ =~= seq!['w', 's', 's', ':', '/', '/']);
    }
    let start: usize;
    if has_prefix(url, ws) {
        start = 5;
    } else if has_prefix(url, wss) {
        assert(!(url@.len() >= 5 && url@.take(5) == seq!['w', 's', ':', '/', '/'])) by {
            if url@.len() >= 5 && url@.take(5) == seq!['w', 's', ':', '/', '/'] {
                assert(url@[2] == ':');
                assert(url@.take(6)[2] == 's');
            }
        }
        start = 6;
    } else {
        assert(!(url@.len() >= 6 && url@.take(6) == seq!['w', 's', 's', ':', '/', '/']));
        return None;
    }
    let slash = find_char(url, start, '/');
    let path_free = url.substring_char(start, slash);
    assert(path_free@ == cut_at(url@.skip(start as int), '/'));
    let colon = find_char(path_free, 0, ':');
    let host = path_free.substring_char(0, colon);
    assert(path_free@.skip(0) =~= path_free@);
    assert(host@ == path_free@.subrange(0, colon as int));
    assert(host@ == cut_at(path_free@, ':'));
    Some(host)
}

} // verus!
