use vstd::prelude::*;
use crate::text::{contains, contains_text};

verus! {

/// A relay the user has connected to, with the state of its last check.
pub struct RelayEntry {
    pub url: String,
    /// A reachability check is under way.
    pub checking: bool,
    /// Result of the last check; `None` before any.
    pub reachable: Option<bool>,
}

/// A relay found by discovery, with the result of its reachability check.
pub struct DiscoveredRelay {
    pub url: String,
    /// `None` until the relay has been checked.
    pub reachable: Option<bool>,
}

/// `s` with a backslash put before every single quote, so that it can stand
/// inside a single-quoted JavaScript string.
pub open spec fn escaped(s: Seq<char>) -> Seq<char>
    decreases s.len(),
{
    if s.len() == 0 {
        Seq::empty()
    } else {
        let c = s.last();
        escaped(s.drop_last()) + if c == '\'' {
            seq!['\\', '\'']
        } else {
            seq![c]
        }
    }
}

/// The script that asks the GUN bridge whether the relay at `url` answers.
pub open spec fn check_script(url: Seq<char>) -> Seq<char> {
    "window.__gun_bridge.checkRelay('"@ + escaped(url) + "')"@
}

/// The same check with a timeout of four seconds, used for discovered relays.
pub open spec fn timed_check_script(url: Seq<char>) -> Seq<char> {
    "window.__gun_bridge.checkRelay('"@ + escaped(url) + "', 4000)"@
}

/// Whether the bridge's answer reports the relay reachable: a text answer
/// containing `"ok":true`.
pub open spec fn reply_ok(reply: Option<String>) -> bool {
    match reply {
        Some(r) => contains_text(r@, "\"ok\":true"@),
        None => false,
    }
}

/// Escapes the single quotes of `s` with backslashes.
pub fn escape_single_quotes(s: &str) -> (r: String)
    ensures
        r@ == escaped(s@),
{
    let n = s.unicode_len();
    let mut out = String::new();
    let mut i: usize = 0;
    while i < n
        invariant
            n == s@.len(),
            i <= n,
            out@ == escaped(s@.subrange(0, i as int)),
        decreases n - i,
    {
        let c = s.get_char(i);
        assert(s@.subrange(0, i + 1).drop_last() =~= s@.subrange(0, i as int));
        if c == '\'' {
            proof {
                reveal_strlit("\\'");
            }
            out.append("\\'");
        } else {
            let one = s.substring_char(i, i + 1);
            assert(one@ =~= seq![c]);
            out.append(one);
        }
        i = i + 1;
    }
    assert(s@.subrange(0, n as int) =~= s@);
    out
}

/// The script that checks the relay at `url`.
pub fn check_relay_script(url: &str) -> (r: String)
    ensures
        r@ == check_script(url@),
{
    let mut js = String::from_str("window.__gun_bridge.checkRelay('");
    let esc = escape_single_quotes(url);
    js.append(esc.as_str());
    js.append("')");
    js
}

/// The script that checks a discovered relay at `url`, with a timeout.
pub fn check_discovered_relay_script(url: &str) -> (r: String)
    ensures
        r@ == timed_check_script(url@),
{
    let mut js = String::from_str("window.__gun_bridge.checkRelay('");
    let esc = escape_single_quotes(url);
    js.append(esc.as_str());
    js.append("', 4000)");
    js
}

/// Reads the bridge's answer to a check; no answer (an error, or a
/// non-text value) means unreachable.
pub fn relay_reply_ok(reply: &Option<String>) -> (r: bool)
    ensures
        r == reply_ok(*reply),
{
    match reply {
        Some(text) => contains(text.as_str(), "\"ok\":true"),
        None => false,
    }
}

} // verus!
