use vstd::prelude::*;
use crate::text::text_eq;
use crate::ui::controller::clone_opt_string;
use crate::ui::i18n::UiText;
use crate::ui::relay::{DiscoveredRelay, RelayEntry};
use crate::ui::state::WalletState;

verus! {

/// How a connected relay is drawn.
pub struct ConnectedRelayRow {
    pub url: String,
    pub dot: &'static str,
    pub color: &'static str,
    pub status: UiText,
}

/// How a discovered relay is drawn.
pub struct DiscoveredRelayRow {
    pub url: String,
    pub dot: &'static str,
}

/// What the Info tab shows.
pub struct InfoTabView {
    /// The public key shown, drawn as a QR code.
    pub public_key: Option<String>,
    /// The "check" button, shown when some relay is connected.
    pub show_check_button: bool,
    /// The "no relay configured" note, shown when none is.
    pub show_not_configured: bool,
    pub connected: Vec<ConnectedRelayRow>,
    /// The label of the search button.
    pub find_label: UiText,
    pub discovering: bool,
    /// The "stop" button, shown while searching.
    pub show_stop_button: bool,
    /// The discovered section, shown when discovery found relays.
    pub show_discovered: bool,
    /// The discovered relays not yet connected, in their order.
    pub discovered: Vec<DiscoveredRelayRow>,
    /// The "connect" buttons, shown below the relay limit.
    pub show_connect_buttons: bool,
}

/// The dot of a connected relay: yellow while checking, else green, red or
/// white for reachable, unreachable or unchecked.
pub open spec fn connected_dot(checking: bool, reachable: Option<bool>) -> Seq<char> {
    if checking {
        "\u{1F7E1}"@
    } else {
        match reachable {
            Some(true) => "\u{1F7E2}"@,
            Some(false) => "\u{1F534}"@,
            None => "\u{26AA}"@,
        }
    }
}

pub open spec fn connected_color(checking: bool, reachable: Option<bool>) -> Seq<char> {
    if checking {
        "#ffc107"@
    } else {
        match reachable {
            Some(true) => "#28a745"@,
            Some(false) => "#dc3545"@,
            None => "#999"@,
        }
    }
}

/// The status text of a connected relay; an unchecked relay reads as being checked.
pub open spec fn connected_status(checking: bool, reachable: Option<bool>) -> UiText {
    if checking {
        UiText::RelayStatusChecking
    } else {
        match reachable {
            Some(true) => UiText::RelayStatusConnected,
            Some(false) => UiText::RelayStatusUnreachable,
            None => UiText::RelayStatusChecking,
        }
    }
}

/// The dot of a discovered relay: green, red, or yellow before its check.
pub open spec fn discovered_dot(reachable: Option<bool>) -> Seq<char> {
    match reachable {
        Some(true) => "\u{1F7E2}"@,
        Some(false) => "\u{1F534}"@,
        None => "\u{1F7E1}"@,
    }
}

/// Whether some connected relay has the URL `url`.
pub open spec fn url_connected(url: Seq<char>, connected: Seq<RelayEntry>) -> bool {
    exists|j: int| 0 <= j < connected.len() && (#[trigger] connected[j]).url@ == url
}

/// The discovered relays that are not connected, in their order.
pub open spec fn unconnected(d: Seq<DiscoveredRelay>, c: Seq<RelayEntry>) -> Seq<DiscoveredRelay>
    decreases d.len(),
{
    if d.len() == 0 {
        Seq::empty()
    } else {
        let rest = unconnected(d.drop_last(), c);
        if url_connected(d.last().url@, c) {
            rest
        } else {
            rest.push(d.last())
        }
    }
}

pub open spec fn connected_row_of(row: ConnectedRelayRow, e: RelayEntry) -> bool {
    &&& row.url@ == e.url@
    &&& row.dot@ == connected_dot(e.checking, e.reachable)
    &&& row.color@ == connected_color(e.checking, e.reachable)
    &&& row.status == connected_status(e.checking, e.reachable)
}

pub open spec fn discovered_rows_of(rows: Seq<DiscoveredRelayRow>, shown: Seq<DiscoveredRelay>) -> bool {
    &&& rows.len() == shown.len()
    &&& forall|k: int|
        0 <= k < rows.len() ==> (#[trigger] rows[k]).url@ == shown[k].url@ && rows[k].dot@
            == discovered_dot(shown[k].reachable)
}

/// What the Info tab shows for state `s` under the relay limit `max_relays`.
pub open spec fn info_view_of(s: WalletState, max_relays: usize, v: InfoTabView) -> bool {
    let connected = s.connected_relays@;
    &&& v.public_key == s.public_key
    &&& v.show_check_button == (connected.len() != 0)
    &&& v.show_not_configured == (connected.len() == 0)
    &&& v.connected@.len() == connected.len()
    &&& forall|i: int| 0 <= i < connected.len() ==> connected_row_of(#[trigger] v.connected@[i], connected[i])
    &&& v.discovering == s.discovering_relays
    &&& v.find_label == if s.discovering_relays {
        UiText::RelayDiscovering
    } else {
        UiText::BtnFindRelays
    }
    &&& v.show_stop_button == s.discovering_relays
    &&& v.show_discovered == (s.discovered_relays@.len() != 0)
    &&& discovered_rows_of(v.discovered@, unconnected(s.discovered_relays@, connected))
    &&& v.show_connect_buttons == (connected.len() < max_relays)
}

fn connected_row(e: &RelayEntry) -> (row: ConnectedRelayRow)
    ensures
        connected_row_of(row, *e),
{
    let (dot, color, status) = if e.checking {
        ("\u{1F7E1}", "#ffc107", UiText::RelayStatusChecking)
    } else {
        match e.reachable {
            Some(true) => ("\u{1F7E2}", "#28a745", UiText::RelayStatusConnected),
            Some(false) => ("\u{1F534}", "#dc3545", UiText::RelayStatusUnreachable),
            None => ("\u{26AA}", "#999", UiText::RelayStatusChecking),
        }
    };
    ConnectedRelayRow { url: e.url.clone(), dot, color, status }
}

fn discovered_row(r: &DiscoveredRelay) -> (row: DiscoveredRelayRow)
    ensures
        row.url@ == r.url@,
        row.dot@ == discovered_dot(r.reachable),
{
    let dot = match r.reachable {
        Some(true) => "\u{1F7E2}",
        Some(false) => "\u{1F534}",
        None => "\u{1F7E1}",
    };
    DiscoveredRelayRow { url: r.url.clone(), dot }
}

/// Whether some connected relay has the URL `url`.
pub fn is_connected_url(url: &String, connected: &Vec<RelayEntry>) -> (r: bool)
    ensures
        r == url_connected(url@, connected@),
{
    let n = connected.len();
    let mut j: usize = 0;
    while j < n
        invariant
            n == connected@.len(),
            j <= n,
            forall|k: int| 0 <= k < j ==> (#[trigger] connected@[k]).url@ != url@,
        decreases n - j,
    {
        if text_eq(connected[j].url.as_str(), url.as_str()) {
            return true;
        }
        j = j + 1;
    }
    false
}

/// The rows of the discovered relays that are not connected, in their order.
pub fn unconnected_rows(discovered: &Vec<DiscoveredRelay>, connected: &Vec<RelayEntry>) -> (rows:
    Vec<DiscoveredRelayRow>)
    ensures
        discovered_rows_of(rows@, unconnected(discovered@, connected@)),
{
    let n = discovered.len();
    let mut rows: Vec<DiscoveredRelayRow> = Vec::new();
    let mut i: usize = 0;
    while i < n
        invariant
            n == discovered@.len(),
            i <= n,
            discovered_rows_of(rows@, unconnected(discovered@.subrange(0, i as int), connected@)),
        decreases n - i,
    {
        let r = &discovered[i];
        assert(discovered@.subrange(0, i + 1).drop_last() =~= discovered@.subrange(0, i as int));
        if !is_connected_url(&r.url, connected) {
            rows.push(discovered_row(r));
        }
        i = i + 1;
    }
    assert(discovered@.subrange(0, n as int) =~= discovered@);
    rows
}

/// The Info tab's content: the public key shown, the connected relays with their state, the
/// search controls, and the discovered relays not yet connected.
pub fn render_info_tab(s: &WalletState, max_relays: usize) -> (v: InfoTabView)
    ensures
        info_view_of(*s, max_relays, v),
{
    let n = s.connected_relays.len();
    let mut connected: Vec<ConnectedRelayRow> = Vec::new();
    let mut i: usize = 0;
    while i < n
        invariant
            n == s.connected_relays@.len(),
            i <= n,
            connected@.len() == i,
            forall|k: int| 0 <= k < i ==> connected_row_of(#[trigger] connected@[k], s.connected_relays@[k]),
        decreases n - i,
    {
        connected.push(connected_row(&s.connected_relays[i]));
        i = i + 1;
    }
    InfoTabView {
        public_key: clone_opt_string(&s.public_key),
        show_check_button: n != 0,
        show_not_configured: n == 0,
        connected,
        find_label: if s.discovering_relays {
            UiText::RelayDiscovering
        } else {
            UiText::BtnFindRelays
        },
        discovering: s.discovering_relays,
        show_stop_button: s.discovering_relays,
        show_discovered: s.discovered_relays.len() != 0,
        discovered: unconnected_rows(&s.discovered_relays, &s.connected_relays),
        show_connect_buttons: n < max_relays,
    }
}

} // verus!
