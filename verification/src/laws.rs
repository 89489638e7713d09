use vstd::prelude::*;
use crate::common::{Language, NetworkEnvironment};
use crate::secret::opt_secret_text;
use crate::text::has_prefix;
use crate::ui::controller::{
    after_add_relay, has_url, without_url,
    connected_checked, connected_checks_started, discovered_checked, next_check_of,
    after_auth, after_auth_start, after_local_auth, auth_start_step, biometric_toggled, AuthStart, key_imported, network_key_set,
    registration_finished, BiometricStep, RegistrationOutcome,
};
use crate::ui::i18n::{ui_text, UiText};
use crate::ui::load::{
    applied, decoded, is_derive_of, legacy_entry, load_started, load_transition, network_prefix, proceeds,
    slot_account, slot_entry_empty, strip_text, LoadAction, LoadEvent, LoadPhase, LoadReport,
    LoadSession, LoadSlot, load_run, is_read_of,
};
use crate::ui::passkey::{prf_of_outcome, prf_plan_of, PasskeyResult, PrfFailure};
use crate::ui::relay::{escaped, reply_ok, DiscoveredRelay, RelayEntry};
use crate::ui::view::{screen_of, Screen};
use crate::ui::save::{
    save_goes_on, save_started, save_transition, secret_of, SaveAction, SaveEvent, SavePhase,
    SaveReport, SaveSession, SaveStart,
};
use crate::ui::state::{AuthState, WalletState};
use crate::ui::tabs::info::{connected_row_of, info_view_of, unconnected, url_connected, ConnectedRelayRow, InfoTabView};
use crate::ui::tabs::{button_for, Tab, TabButton};

verus! {

/// A secret written with its network's prefix reads back from the legacy
/// store as that network's secret, unchanged.
pub proof fn legacy_entry_roundtrip(net: NetworkEnvironment, secret: Seq<char>)
    ensures
        legacy_entry(network_prefix(net) + secret) == (net, secret),
{
    reveal_strlit("tn:");
    reveal_strlit("mn:");
    let t = network_prefix(net) + secret;
    assert(t.subrange(0, 3) =~= network_prefix(net));
    assert(t.skip(3) =~= secret);
    if net == NetworkEnvironment::Production {
        assert(t[0] == 'm');
        assert(!has_prefix(t, "tn:"@)) by {
            assert("tn:"@[0] == 't');
            assert(t.subrange(0, 3)[0] != "tn:"@[0]);
        }
    }
}

/// Stripping a network's prefix from a prefixed secret gives the secret back.
pub proof fn network_prefix_strips(net: NetworkEnvironment, secret: Seq<char>)
    ensures
        strip_text(network_prefix(net) + secret, network_prefix(net)) == secret,
{
    reveal_strlit("tn:");
    reveal_strlit("mn:");
    let t = network_prefix(net) + secret;
    assert(t.subrange(0, network_prefix(net).len() as int) =~= network_prefix(net));
    assert(t.skip(network_prefix(net).len() as int) =~= secret);
}

/// The key shown follows the loaded keys: the mainnet key when there is
/// one, else the testnet key when there is one.
pub open spec fn shown_key_follows(t: WalletState) -> bool {
    &&& t.mainnet_public_key matches Some(pk) ==> t.public_key == Some(pk) && opt_secret_text(
        t.secret_key_hidden,
    ) == opt_secret_text(t.mainnet_secret_key)
    &&& (t.mainnet_public_key is None && t.testnet_public_key is Some) ==> t.public_key
        == t.testnet_public_key && opt_secret_text(t.secret_key_hidden) == opt_secret_text(t.testnet_secret_key)
}

/// When a load completes, the key shown is the mainnet key if one was
/// loaded, else the testnet key.
pub proof fn completed_load_shows_mainnet_first(
    s: WalletState,
    sess: LoadSession,
    ev: LoadEvent,
    t: WalletState,
    sess2: LoadSession,
    act: LoadAction,
)
    requires
        load_transition(s, sess, ev, t, sess2, act),
        act == LoadAction::Done(LoadReport::Loaded),
    ensures
        shown_key_follows(t),
{
    match sess.phase {
        LoadPhase::AwaitRead(slot) => {
            if let LoadEvent::StoreRead(Ok(data)) = ev {
                if sess.prf is None {
                    decoded_done_syncs(s, sess, slot, data@, t, sess2, act);
                }
            } else if let LoadEvent::StoreRead(Err(_)) = ev {
                proceeds_done_syncs(s, sess, slot, t, sess2, act);
            }
        },
        LoadPhase::AwaitDecrypt(slot) => {
            if let LoadEvent::Decrypted(r) = ev {
                let text = match r {
                    Ok(d) => d@,
                    Err(_) => Seq::<char>::empty(),
                };
                decoded_done_syncs(s, sess, slot, text, t, sess2, act);
            }
        },
        LoadPhase::AwaitPublicKey(slot, net) => {
            if let LoadEvent::PublicKey(Some(pk)) = ev {
                match sess.pending {
                    Some(secret) => proceeds_done_syncs(
                        applied(s, slot, net, secret, pk),
                        sess,
                        slot,
                        t,
                        sess2,
                        act,
                    ),
                    None => proceeds_done_syncs(s, sess, slot, t, sess2, act),
                }
            } else if let LoadEvent::PublicKey(None) = ev {
                proceeds_done_syncs(s, sess, slot, t, sess2, act);
            }
        },
        _ => {},
    }
}

proof fn proceeds_done_syncs(
    s: WalletState,
    sess: LoadSession,
    slot: LoadSlot,
    t: WalletState,
    sess2: LoadSession,
    act: LoadAction,
)
    requires
        proceeds(s, sess, slot, t, sess2, act),
        act == LoadAction::Done(LoadReport::Loaded),
    ensures
        shown_key_follows(t),
{
}

proof fn decoded_done_syncs(
    s: WalletState,
    sess: LoadSession,
    slot: LoadSlot,
    text: Seq<char>,
    t: WalletState,
    sess2: LoadSession,
    act: LoadAction,
)
    requires
        decoded(s, sess, slot, text, t, sess2, act),
        act == LoadAction::Done(LoadReport::Loaded),
    ensures
        shown_key_follows(t),
{
    if slot_entry_empty(slot, text) {
        proceeds_done_syncs(s, sess, slot, t, sess2, act);
    }
}

/// A key migrated from the legacy store never replaces a key its network
/// already has.
pub proof fn legacy_migration_keeps_existing_keys(
    s: WalletState,
    sess: LoadSession,
    net: NetworkEnvironment,
    ev: LoadEvent,
    t: WalletState,
    sess2: LoadSession,
    act: LoadAction,
)
    requires
        sess.phase == LoadPhase::AwaitPublicKey(LoadSlot::Legacy, net),
        load_transition(s, sess, ev, t, sess2, act),
    ensures
        net == NetworkEnvironment::Production && s.mainnet_public_key is Some ==> t.mainnet_public_key
            == s.mainnet_public_key && t.mainnet_secret_key == s.mainnet_secret_key,
        net == NetworkEnvironment::Test && s.testnet_public_key is Some ==> t.testnet_public_key
            == s.testnet_public_key && t.testnet_secret_key == s.testnet_secret_key,
{
}

/// With an encryption key, a save writes only what the encryption just
/// produced: no secret reaches the store in plain text.
pub proof fn encrypted_save_writes_only_ciphertext(
    s: WalletState,
    sess: SaveSession,
    ev: SaveEvent,
    t: WalletState,
    sess2: SaveSession,
    act: SaveAction,
)
    requires
        save_transition(s, sess, ev, t, sess2, act),
        sess2.prf is Some,
        act is WriteStore,
    ensures
        ev matches SaveEvent::Encrypted(Ok(d)) && (act matches SaveAction::WriteStore { data, .. }
            && data@ == d@),
{
}

/// A save that begins with an encryption key begins by encrypting, never by
/// writing.
pub proof fn encrypted_save_starts_encrypting(s: WalletState, localhost: bool, t: WalletState, r: SaveStart)
    requires
        save_started(s, localhost, t, r),
        r matches SaveStart::Begin(sess, _) && sess.prf is Some,
    ensures
        r matches SaveStart::Begin(_, act) && !(act is WriteStore),
{
}

/// On localhost a set PIN stands in for the passkey: a save encrypts with
/// it (its first action is no write), and a load decrypts with it.
pub proof fn pin_protects_local_keys(
    s: WalletState,
    t: WalletState,
    r: SaveStart,
    lsess: LoadSession,
    lact: LoadAction,
)
    requires
        s.pin_code@.len() > 0,
        save_started(s, true, t, r),
        load_started(s, true, lsess, lact),
    ensures
        r matches SaveStart::Begin(sess, act) ==> sess.prf == Some(s.pin_code) && !(act is WriteStore),
        lsess.prf == Some(s.pin_code),
{
}

/// Biometric identification, once on, is never turned off by the switch or
/// by a registration.
pub proof fn biometrics_never_turn_off(
    s: WalletState,
    localhost: bool,
    outcome: Result<PasskeyResult, String>,
    t: WalletState,
    step: BiometricStep,
    u: WalletState,
    reg: RegistrationOutcome,
)
    requires
        biometric_toggled(s, localhost, t, step),
        registration_finished(s, outcome, u, reg),
    ensures
        s.biometric_enabled ==> t.biometric_enabled && u.biometric_enabled,
{
}

/// Setting the key of one network leaves the other network's key as it was.
pub proof fn network_keys_are_independent(
    s: WalletState,
    net: NetworkEnvironment,
    pk: String,
    secret: Seq<char>,
    t: WalletState,
    derived: Option<String>,
    u: WalletState,
)
    requires
        network_key_set(s, net, pk, secret, t),
        key_imported(s, net, derived, u),
    ensures
        net == NetworkEnvironment::Production ==> t.testnet_public_key == s.testnet_public_key
            && t.testnet_secret_key == s.testnet_secret_key && u.testnet_public_key
            == s.testnet_public_key && u.testnet_secret_key == s.testnet_secret_key,
        net == NetworkEnvironment::Test ==> t.mainnet_public_key == s.mainnet_public_key
            && t.mainnet_secret_key == s.mainnet_secret_key && u.mainnet_public_key
            == s.mainnet_public_key && u.mainnet_secret_key == s.mainnet_secret_key,
{
}

/// In an escaped text every single quote follows a backslash.
pub proof fn escaped_quotes_follow_backslashes(s: Seq<char>)
    ensures
        forall|j: int|
            0 <= j < escaped(s).len() && #[trigger] escaped(s)[j] == '\'' ==> j > 0 && escaped(s)[j
                - 1] == '\\',
    decreases s.len(),
{
    if s.len() > 0 {
        escaped_quotes_follow_backslashes(s.drop_last());
        let e = escaped(s.drop_last());
        let c = s.last();
        let tail = if c == '\'' {
            seq!['\\', '\'']
        } else {
            seq![c]
        };
        assert(escaped(s) == e + tail);
        assert forall|j: int|
            0 <= j < escaped(s).len() && #[trigger] escaped(s)[j] == '\'' implies j > 0 && escaped(
                s,
            )[j - 1] == '\\' by {
            if j < e.len() {
                assert(escaped(s)[j] == e[j]);
                assert(e[j] == '\'');
                assert(escaped(s)[j - 1] == e[j - 1]);
            } else if c == '\'' {
                assert(j == e.len() + 1);
            }
        }
    }
}

/// The discovered relays offered for connection are exactly those that are
/// not connected yet.
pub proof fn offered_relays_are_the_unconnected(d: Seq<DiscoveredRelay>, c: Seq<RelayEntry>)
    ensures
        forall|k: int| 0 <= k < unconnected(d, c).len() ==> !url_connected(#[trigger] unconnected(d, c)[k].url@, c),
        forall|i: int|
            0 <= i < d.len() && !url_connected(#[trigger] d[i].url@, c) ==> unconnected(d, c).contains(d[i]),
    decreases d.len(),
{
    if d.len() > 0 {
        offered_relays_are_the_unconnected(d.drop_last(), c);
        let rest = unconnected(d.drop_last(), c);
        assert forall|i: int| 0 <= i < d.len() && !url_connected(#[trigger] d[i].url@, c) implies unconnected(
            d,
            c,
        ).contains(d[i]) by {
            if i < d.len() - 1 {
                assert(d.drop_last()[i] == d[i]);
                let k = choose|k: int| 0 <= k < rest.len() && rest[k] == d[i];
                if !url_connected(d.last().url@, c) {
                    assert(unconnected(d, c)[k] == d[i]);
                }
            } else {
                assert(unconnected(d, c).last() == d[i]);
                assert(unconnected(d, c)[unconnected(d, c).len() - 1] == d[i]);
            }
        }
    }
}

/// The load slot that reads a network's own store.
pub open spec fn slot_of(net: NetworkEnvironment) -> LoadSlot {
    match net {
        NetworkEnvironment::Production => LoadSlot::Mainnet,
        NetworkEnvironment::Test => LoadSlot::Testnet,
    }
}

/// What an unencrypted save writes for a network, a load of that network's
/// store reads back: the same secret, for the same network. (A secret that is
/// empty, or that itself begins with its network's old prefix, does not come
/// back as it was.)
pub proof fn saved_keys_load_back(
    sess: SaveSession,
    after: Option<NetworkEnvironment>,
    sess2: SaveSession,
    act: SaveAction,
    net: NetworkEnvironment,
    s: WalletState,
    lsess: LoadSession,
    t: WalletState,
    lsess2: LoadSession,
    lact: LoadAction,
)
    requires
        save_goes_on(sess, after, sess2, act),
        sess.prf is None,
        sess2.phase == SavePhase::AwaitWrite(net),
        secret_of(sess, net) matches Some(k) && k@.len() > 0 && !has_prefix(k@, network_prefix(net)),
        act matches SaveAction::WriteStore { data, .. } && decoded(s, lsess, slot_of(net), data@, t, lsess2, lact),
    ensures
        act matches SaveAction::WriteStore { account, .. } && account@ == slot_account(slot_of(net)),
        is_derive_of(lact, net, secret_of(sess, net)->0@),
        lsess2.phase == LoadPhase::AwaitPublicKey(slot_of(net), net),
        t == s,
{
}


/// Every language has a text for every key of the interface: its own, or
/// the English one where it gives none.
pub proof fn every_text_is_present(lang: Language, key: UiText)
    ensures
        ui_text(lang, key).len() > 0,
{
    assert(ui_text(lang, key).len() > 0) by {
        reveal_strlit("Aucun relais configuré");
        reveal_strlit("Aucun relais trouvé sur testnet");
        reveal_strlit("Bienvenido a Gun Connect");
        reveal_strlit("Buscando...");
        reveal_strlit("Buscar Relés");
        reveal_strlit("Check");
        reveal_strlit("Checking...");
        reveal_strlit("Conectado");
        reveal_strlit("Conectar");
        reveal_strlit("Connect");
        reveal_strlit("Connected");
        reveal_strlit("Connecté");
        reveal_strlit("Csatlakozva");
        reveal_strlit("Csatlakozás");
        reveal_strlit("Discovered Relays");
        reveal_strlit("Eliminar");
        reveal_strlit("Ellenőrzés");
        reveal_strlit("Ellenőrzés...");
        reveal_strlit("Eltávolítás");
        reveal_strlit("Entfernen");
        reveal_strlit("Estado del Relé");
        reveal_strlit("Find Relays");
        reveal_strlit("Forget");
        reveal_strlit("Gefundene Relays");
        reveal_strlit("Inalcanzable");
        reveal_strlit("Injoignable");
        reveal_strlit("Kein Relay konfiguriert");
        reveal_strlit("Keresés...");
        reveal_strlit("Nem elérhető");
        reveal_strlit("Nicht erreichbar");
        reveal_strlit("Nincs relay beállítva");
        reveal_strlit("No relay configured");
        reveal_strlit("No relays found on testnet");
        reveal_strlit("Prüfe...");
        reveal_strlit("Prüfen");
        reveal_strlit("Recherche...");
        reveal_strlit("Relais Découverts");
        reveal_strlit("Relay Status");
        reveal_strlit("Relay Állapot");
        reveal_strlit("Relay-Status");
        reveal_strlit("Relay-ek Keresése");
        reveal_strlit("Relays Finden");
        reveal_strlit("Relés Descubiertos");
        reveal_strlit("Remove");
        reveal_strlit("Searching...");
        reveal_strlit("Sin relé configurado");
        reveal_strlit("Stop");
        reveal_strlit("Stopp");
        reveal_strlit("Suche...");
        reveal_strlit("Talált Relay-ek");
        reveal_strlit("Trouver des Relais");
        reveal_strlit("Unreachable");
        reveal_strlit("Verbinden");
        reveal_strlit("Verbunden");
        reveal_strlit("Vergessen");
        reveal_strlit("Verificando...");
        reveal_strlit("Verificar");
        reveal_strlit("Vérification...");
        reveal_strlit("Vérifier");
        reveal_strlit("Welcome to Gun Connect");
        reveal_strlit("Willkommen bei Gun Connect");
        reveal_strlit("\u{1F680} A new version of Gun Connect is available!");
        reveal_strlit("\u{1F680} Eine neue Version von Gun Connect ist verfügbar!");
        reveal_strlit("\u{1F680} ¡Una nueva versión de Gun Connect está disponible!");
        reveal_strlit("État du Relais");
    }
}

/// The user is let in only after a successful passkey, or without one on
/// localhost; starting never lets the user in by itself.
pub proof fn sign_in_needs_passkey_or_localhost(
    s: WalletState,
    localhost: bool,
    outcome: Result<PasskeyResult, String>,
)
    requires
        s.auth_state != AuthState::Authenticated,
    ensures
        after_auth_start(s).auth_state != AuthState::Authenticated,
        (after_auth(s, outcome).auth_state == AuthState::Authenticated) == (s.auth_state
            != AuthState::Failed && (outcome matches Ok(r) && r.success)),
        auth_start_step(s, localhost) == AuthStart::Local ==> localhost,
{
}

/// A failed sign-in is final: starting again asks for nothing, and neither
/// completion lets the user in.
pub proof fn failed_sign_in_is_final(s: WalletState, localhost: bool, outcome: Result<PasskeyResult, String>)
    requires
        s.auth_state == AuthState::Failed,
    ensures
        after_auth_start(s) == s,
        auth_start_step(s, localhost) == AuthStart::Refused,
        after_local_auth(s) == s,
        after_auth(s, outcome) == s,
{
}

/// What an encrypted save writes for a network, a load with the same key
/// decrypts; once the decryption gives back the text that was encrypted,
/// the load takes the same secret for the same network.
pub proof fn encrypted_keys_load_back(
    save_act: SaveAction,
    net: NetworkEnvironment,
    s: WalletState,
    lsess: LoadSession,
    data: String,
    t: WalletState,
    lsess2: LoadSession,
    lact: LoadAction,
    decrypted: String,
    u: WalletState,
    lsess3: LoadSession,
    lact2: LoadAction,
)
    requires
        save_act matches SaveAction::Encrypt { plaintext, .. } && plaintext@.len() > 0 && !has_prefix(
            plaintext@,
            network_prefix(net),
        ),
        lsess.phase == LoadPhase::AwaitRead(slot_of(net)),
        lsess.prf matches Some(k) && (save_act matches SaveAction::Encrypt { prf, .. } && prf@ == k@),
        load_transition(s, lsess, LoadEvent::StoreRead(Ok(data)), t, lsess2, lact),
        save_act matches SaveAction::Encrypt { plaintext, .. } && decrypted@ == plaintext@,
        load_transition(t, lsess2, LoadEvent::Decrypted(Ok(decrypted)), u, lsess3, lact2),
    ensures
        lact matches LoadAction::Decrypt { data: d, prf: p } && d@ == data@ && (save_act matches SaveAction::Encrypt { prf, .. } && p@ == prf@),
        save_act matches SaveAction::Encrypt { plaintext, .. } && is_derive_of(lact2, net, plaintext@),
{
}

/// Of the two tab buttons exactly one is drawn active: the active tab's.
pub proof fn one_tab_is_active(info: TabButton, settings: TabButton, active: Tab)
    requires
        button_for(info, Tab::Info, active),
        button_for(settings, Tab::Settings, active),
    ensures
        info.active != settings.active,
        info.active <==> active == Tab::Info,
{
}

/// `t` differs from `s` at most in the keys (both networks' and the one
/// shown) and the PRF key.
pub open spec fn keys_only_changed(s: WalletState, t: WalletState) -> bool {
    t == WalletState {
        mainnet_public_key: t.mainnet_public_key,
        mainnet_secret_key: t.mainnet_secret_key,
        testnet_public_key: t.testnet_public_key,
        testnet_secret_key: t.testnet_secret_key,
        public_key: t.public_key,
        secret_key_hidden: t.secret_key_hidden,
        prf_key: t.prf_key,
        ..s
    }
}

proof fn proceeds_keys_only(
    s: WalletState,
    sess: LoadSession,
    slot: LoadSlot,
    t: WalletState,
    sess2: LoadSession,
    act: LoadAction,
)
    requires
        proceeds(s, sess, slot, t, sess2, act),
    ensures
        keys_only_changed(s, t),
        t.prf_key == s.prf_key,
        sess2.phase != LoadPhase::AwaitPrf,
{
}

proof fn decoded_keys_only(
    s: WalletState,
    sess: LoadSession,
    slot: LoadSlot,
    text: Seq<char>,
    t: WalletState,
    sess2: LoadSession,
    act: LoadAction,
)
    requires
        decoded(s, sess, slot, text, t, sess2, act),
    ensures
        keys_only_changed(s, t),
        t.prf_key == s.prf_key,
        sess2.phase != LoadPhase::AwaitPrf,
{
    if slot_entry_empty(slot, text) {
        proceeds_keys_only(s, sess, slot, t, sess2, act);
    }
}

/// One load step changes only the keys; the PRF key changes only while the
/// passkey is awaited, to the key of a successful ceremony; and no step
/// returns to awaiting it.
#[verifier::spinoff_prover]
#[verifier::rlimit(40)]
proof fn load_step_frame(
    s: WalletState,
    sess: LoadSession,
    ev: LoadEvent,
    t: WalletState,
    sess2: LoadSession,
    act: LoadAction,
)
    requires
        load_transition(s, sess, ev, t, sess2, act),
    ensures
        keys_only_changed(s, t),
        sess.phase != LoadPhase::AwaitPrf ==> t.prf_key == s.prf_key,
        t.prf_key != s.prf_key ==> (ev matches LoadEvent::Passkey(out) && prf_of_outcome(out)
            == Ok::<String, PrfFailure>(t.prf_key->0)),
        sess2.phase == LoadPhase::AwaitPrf ==> sess.phase == LoadPhase::AwaitPrf && t == s,
{
    match sess.phase {
        LoadPhase::AwaitRead(slot) => {
            if let LoadEvent::StoreRead(Ok(data)) = ev {
                if sess.prf is None {
                    decoded_keys_only(s, sess, slot, data@, t, sess2, act);
                }
            } else if let LoadEvent::StoreRead(Err(_)) = ev {
                proceeds_keys_only(s, sess, slot, t, sess2, act);
            }
        },
        LoadPhase::AwaitDecrypt(slot) => {
            if let LoadEvent::Decrypted(r) = ev {
                let text = match r {
                    Ok(d) => d@,
                    Err(_) => Seq::<char>::empty(),
                };
                decoded_keys_only(s, sess, slot, text, t, sess2, act);
            }
        },
        LoadPhase::AwaitPublicKey(slot, net) => {
            if let LoadEvent::PublicKey(Some(pk)) = ev {
                match sess.pending {
                    Some(secret) => proceeds_keys_only(
                        applied(s, slot, net, secret, pk),
                        sess,
                        slot,
                        t,
                        sess2,
                        act,
                    ),
                    None => proceeds_keys_only(s, sess, slot, t, sess2, act),
                }
            } else if let LoadEvent::PublicKey(None) = ev {
                proceeds_keys_only(s, sess, slot, t, sess2, act);
            }
        },
        _ => {},
    }
}

/// What holds of a load run after its first `i` steps.
pub open spec fn load_frame_upto(
    states: Seq<WalletState>,
    sessions: Seq<LoadSession>,
    events: Seq<LoadEvent>,
    i: int,
) -> bool {
    &&& keys_only_changed(states[0], states[i])
    &&& sessions[i].phase == LoadPhase::AwaitPrf ==> states[i] == states[0] && states[0].prf_key is None
    &&& states[i].prf_key != states[0].prf_key ==> {
        &&& states[0].prf_key is None
        &&& exists|j: int|
            0 <= j < i && (#[trigger] events[j] matches LoadEvent::Passkey(out) && prf_of_outcome(
                out,
            ) == Ok::<String, PrfFailure>(states[i].prf_key->0))
    }
}

proof fn load_run_frame(
    states: Seq<WalletState>,
    sessions: Seq<LoadSession>,
    events: Seq<LoadEvent>,
    acts: Seq<LoadAction>,
    localhost: bool,
    i: int,
)
    requires
        load_started(states[0], localhost, sessions[0], acts[0]),
        load_run(states, sessions, events, acts),
        0 <= i <= events.len(),
    ensures
        load_frame_upto(states, sessions, events, i),
    decreases i,
{
    if i > 0 {
        load_run_frame(states, sessions, events, acts, localhost, i - 1);
        let k = i - 1;
        assert(load_transition(states[k], sessions[k], events[k], states[i], sessions[i], acts[i]));
        load_step_frame(states[k], sessions[k], events[k], states[i], sessions[i], acts[i]);
        assert(keys_only_changed(states[0], states[i]));
        if states[i].prf_key != states[0].prf_key {
            if states[k].prf_key != states[0].prf_key {
                let j = choose|j: int|
                    0 <= j < k && (#[trigger] events[j] matches LoadEvent::Passkey(out)
                        && prf_of_outcome(out) == Ok::<String, PrfFailure>(states[k].prf_key->0));
                assert(states[i].prf_key == states[k].prf_key);
                assert(events[j] matches LoadEvent::Passkey(out) && prf_of_outcome(out) == Ok::<
                    String,
                    PrfFailure,
                >(states[i].prf_key->0));
            } else {
                assert(sessions[k].phase == LoadPhase::AwaitPrf);
                assert(events[k] matches LoadEvent::Passkey(out) && prf_of_outcome(out) == Ok::<
                    String,
                    PrfFailure,
                >(states[i].prf_key->0));
            }
        }
    } else {
        assert(keys_only_changed(states[0], states[0]));
    }
}

/// A whole load changes nothing but the keys: both networks' keys, the key
/// shown and its secret, and the PRF key, which changes only from none to
/// the key of a successful passkey ceremony of the load. The language,
/// biometrics, relay URL, inputs, show flags and modals stay as they were.
pub proof fn load_changes_only_keys(
    states: Seq<WalletState>,
    sessions: Seq<LoadSession>,
    events: Seq<LoadEvent>,
    acts: Seq<LoadAction>,
    localhost: bool,
)
    requires
        load_started(states[0], localhost, sessions[0], acts[0]),
        load_run(states, sessions, events, acts),
    ensures
        forall|i: int| 0 <= i <= events.len() ==> load_frame_upto(states, sessions, events, i),
{
    assert forall|i: int| 0 <= i <= events.len() implies load_frame_upto(states, sessions, events, i) by {
        load_run_frame(states, sessions, events, acts, localhost, i);
    }
}

/// A secret that comes back as it is through its network's own store: not
/// empty, and not starting with the network's old prefix.
pub open spec fn storable(secret: Seq<char>, net: NetworkEnvironment) -> bool {
    secret.len() > 0 && !has_prefix(secret, network_prefix(net))
}

/// Both networks' keys are loaded, and what is left of the load is the
/// legacy store; once the load has finished, the mainnet secret is the
/// hidden one.
pub open spec fn both_keys_held(
    s: WalletState,
    sess: LoadSession,
    pk_m: String,
    ms: Seq<char>,
    pk_t: String,
    ts: Seq<char>,
) -> bool {
    &&& s.mainnet_public_key == Some(pk_m)
    &&& opt_secret_text(s.mainnet_secret_key) == Some(ms)
    &&& s.testnet_public_key == Some(pk_t)
    &&& opt_secret_text(s.testnet_secret_key) == Some(ts)
    &&& s.public_key == Some(pk_m)
    &&& match sess.phase {
        LoadPhase::AwaitPrf => false,
        LoadPhase::AwaitRead(slot) => slot == LoadSlot::Legacy,
        LoadPhase::AwaitDecrypt(slot) => slot == LoadSlot::Legacy,
        LoadPhase::AwaitPublicKey(slot, _) => slot == LoadSlot::Legacy,
        LoadPhase::Finished => opt_secret_text(s.secret_key_hidden) == Some(ms),
    }
}

/// Some step after `k`, up to `i`, reported a successful load.
pub open spec fn loaded_between(acts: Seq<LoadAction>, k: int, i: int) -> bool {
    exists|j: int| k < j <= i && #[trigger] acts[j] == LoadAction::Done(LoadReport::Loaded)
}

proof fn legacy_step_keeps_keys(
    s: WalletState,
    sess: LoadSession,
    ev: LoadEvent,
    t: WalletState,
    sess2: LoadSession,
    act: LoadAction,
    pk_m: String,
    ms: Seq<char>,
    pk_t: String,
    ts: Seq<char>,
)
    requires
        load_transition(s, sess, ev, t, sess2, act),
        both_keys_held(s, sess, pk_m, ms, pk_t, ts),
    ensures
        both_keys_held(t, sess2, pk_m, ms, pk_t, ts),
        sess.phase != LoadPhase::Finished && sess2.phase == LoadPhase::Finished ==> act
            == LoadAction::Done(LoadReport::Loaded),
{
    match sess.phase {
        LoadPhase::AwaitPublicKey(slot, net) => {
            match ev {
                LoadEvent::PublicKey(Some(pk)) => match sess.pending {
                    Some(secret) => {
                        assert(applied(s, slot, net, secret, pk) == s);
                    },
                    None => {},
                },
                _ => {},
            }
        },
        _ => {},
    }
}

/// Once both networks' keys are loaded, whatever the legacy store holds and
/// whatever its key derivation gives, the rest of the load keeps both keys
/// and the mainnet key shown; a load that finishes there reports success
/// and hides the mainnet secret.
pub proof fn legacy_store_keeps_loaded_keys(
    states: Seq<WalletState>,
    sessions: Seq<LoadSession>,
    events: Seq<LoadEvent>,
    acts: Seq<LoadAction>,
    k: int,
    i: int,
    pk_m: String,
    ms: Seq<char>,
    pk_t: String,
    ts: Seq<char>,
)
    requires
        load_run(states, sessions, events, acts),
        0 <= k <= i <= events.len(),
        both_keys_held(states[k], sessions[k], pk_m, ms, pk_t, ts),
        sessions[k].phase != LoadPhase::Finished,
    ensures
        both_keys_held(states[i], sessions[i], pk_m, ms, pk_t, ts),
        sessions[i].phase == LoadPhase::Finished ==> loaded_between(acts, k, i),
    decreases i - k,
{
    if i > k {
        let p = i - 1;
        legacy_store_keeps_loaded_keys(states, sessions, events, acts, k, p, pk_m, ms, pk_t, ts);
        assert(load_transition(states[p], sessions[p], events[p], states[i], sessions[i], acts[i]));
        legacy_step_keeps_keys(states[p], sessions[p], events[p], states[i], sessions[i], acts[i], pk_m, ms, pk_t, ts);
        if sessions[i].phase == LoadPhase::Finished {
            if sessions[p].phase == LoadPhase::Finished {
                let j = choose|j: int| k < j <= p && #[trigger] acts[j] == LoadAction::Done(LoadReport::Loaded);
                assert(k < j <= i && acts[j] == LoadAction::Done(LoadReport::Loaded));
            } else {
                assert(acts[i] == LoadAction::Done(LoadReport::Loaded));
                assert(loaded_between(acts, k, i));
            }
        }
    }
}

/// Both keys survive a whole unencrypted save and the load that follows:
/// the save writes the mainnet then the testnet secret to their stores; the
/// load reading those stores asks for the public keys of the same secrets,
/// then reads the legacy store; whatever that holds, both keys are kept and
/// the mainnet one shown, and an empty legacy store ends the load there.
pub proof fn keys_survive_plain_save_and_load(
    s: WalletState,
    localhost: bool,
    t: WalletState,
    start: SaveStart,
    ss: Seq<SaveSession>,
    sa: Seq<SaveAction>,
    ls: Seq<WalletState>,
    lsess: Seq<LoadSession>,
    le: Seq<LoadEvent>,
    la: Seq<LoadAction>,
    pk_m: String,
    pk_t: String,
)
    requires
        s.mainnet_secret_key is Some && storable(s.mainnet_secret_key->0@, NetworkEnvironment::Production),
        s.testnet_secret_key is Some && storable(s.testnet_secret_key->0@, NetworkEnvironment::Test),
        prf_plan_of(localhost, s.biometric_enabled, s.prf_key, s.pin_code) is Unencrypted,
        save_started(s, localhost, t, start),
        ss.len() == 3,
        sa.len() == 3,
        start matches SaveStart::Begin(sess0, act0) && ss[0] == sess0 && sa[0] == act0,
        save_transition(s, ss[0], SaveEvent::Written(Ok(())), s, ss[1], sa[1]),
        save_transition(s, ss[1], SaveEvent::Written(Ok(())), s, ss[2], sa[2]),
        ls[0].biometric_enabled == s.biometric_enabled,
        ls[0].prf_key == s.prf_key,
        ls[0].pin_code == s.pin_code,
        load_started(ls[0], localhost, lsess[0], la[0]),
        load_run(ls, lsess, le, la),
        le.len() > 4,
        le[0] == LoadEvent::StoreRead(Ok(sa[0]->data)),
        le[1] == LoadEvent::PublicKey(Some(pk_m)),
        le[2] == LoadEvent::StoreRead(Ok(sa[1]->data)),
        le[3] == LoadEvent::PublicKey(Some(pk_t)),
    ensures
        sa[0] matches SaveAction::WriteStore { account, .. } && account@ == slot_account(LoadSlot::Mainnet),
        sa[1] matches SaveAction::WriteStore { account, .. } && account@ == slot_account(LoadSlot::Testnet),
        sa[2] matches SaveAction::Done(SaveReport::Saved),
        is_read_of(la[0], slot_account(LoadSlot::Mainnet)),
        is_derive_of(la[1], NetworkEnvironment::Production, s.mainnet_secret_key->0@),
        is_read_of(la[2], slot_account(LoadSlot::Testnet)),
        is_derive_of(la[3], NetworkEnvironment::Test, s.testnet_secret_key->0@),
        is_read_of(la[4], slot_account(LoadSlot::Legacy)),
        both_keys_held(ls[le.len() as int], lsess[le.len() as int], pk_m, s.mainnet_secret_key->0@, pk_t, s.testnet_secret_key->0@),
        lsess[le.len() as int].phase == LoadPhase::Finished ==> loaded_between(la, 4, le.len() as int),
        (le.len() == 5 && (le[4] matches LoadEvent::StoreRead(Err(_)))) ==> la[5] == LoadAction::Done(LoadReport::Loaded)
            && lsess[5].phase == LoadPhase::Finished,
{
    assert(load_transition(ls[0], lsess[0], le[0], ls[1], lsess[1], la[1]));
    assert(load_transition(ls[1], lsess[1], le[1], ls[2], lsess[2], la[2]));
    assert(load_transition(ls[2], lsess[2], le[2], ls[3], lsess[3], la[3]));
    assert(load_transition(ls[3], lsess[3], le[3], ls[4], lsess[4], la[4]));
    assert(load_transition(ls[4], lsess[4], le[4], ls[5], lsess[5], la[5]));
    let n = le.len() as int;
    legacy_store_keeps_loaded_keys(ls, lsess, le, la, 4, n, pk_m, s.mainnet_secret_key->0@, pk_t, s.testnet_secret_key->0@);
}

/// Both keys survive a whole encrypted save and the load that follows, with
/// the same key (the PIN on localhost, or a PRF key already held): the save
/// encrypts each secret and writes only what the encryption gave; the load
/// asks to decrypt exactly that with the same key and, once the decryption
/// gives back the secret, keeps both keys and shows the mainnet one,
/// whatever the legacy store read next holds.
pub proof fn keys_survive_encrypted_save_and_load(
    s: WalletState,
    localhost: bool,
    t: WalletState,
    start: SaveStart,
    ss: Seq<SaveSession>,
    sa: Seq<SaveAction>,
    c_m: String,
    c_t: String,
    ls: Seq<WalletState>,
    lsess: Seq<LoadSession>,
    le: Seq<LoadEvent>,
    la: Seq<LoadAction>,
    x_m: String,
    x_t: String,
    pk_m: String,
    pk_t: String,
)
    requires
        s.mainnet_secret_key is Some && storable(s.mainnet_secret_key->0@, NetworkEnvironment::Production),
        s.testnet_secret_key is Some && storable(s.testnet_secret_key->0@, NetworkEnvironment::Test),
        prf_plan_of(localhost, s.biometric_enabled, s.prf_key, s.pin_code) is Pin
            || prf_plan_of(localhost, s.biometric_enabled, s.prf_key, s.pin_code) is Ready,
        save_started(s, localhost, t, start),
        ss.len() == 5,
        sa.len() == 5,
        start matches SaveStart::Begin(sess0, act0) && ss[0] == sess0 && sa[0] == act0,
        save_transition(s, ss[0], SaveEvent::Encrypted(Ok(c_m)), s, ss[1], sa[1]),
        save_transition(s, ss[1], SaveEvent::Written(Ok(())), s, ss[2], sa[2]),
        save_transition(s, ss[2], SaveEvent::Encrypted(Ok(c_t)), s, ss[3], sa[3]),
        save_transition(s, ss[3], SaveEvent::Written(Ok(())), s, ss[4], sa[4]),
        ls[0].biometric_enabled == s.biometric_enabled,
        ls[0].prf_key == s.prf_key,
        ls[0].pin_code == s.pin_code,
        load_started(ls[0], localhost, lsess[0], la[0]),
        load_run(ls, lsess, le, la),
        x_m@ == s.mainnet_secret_key->0@,
        x_t@ == s.testnet_secret_key->0@,
        le.len() > 6,
        le[0] == LoadEvent::StoreRead(Ok(sa[1]->data)),
        le[1] == LoadEvent::Decrypted(Ok(x_m)),
        le[2] == LoadEvent::PublicKey(Some(pk_m)),
        le[3] == LoadEvent::StoreRead(Ok(sa[3]->data)),
        le[4] == LoadEvent::Decrypted(Ok(x_t)),
        le[5] == LoadEvent::PublicKey(Some(pk_t)),
    ensures
        sa[0] matches SaveAction::Encrypt { plaintext, .. } && plaintext@ == s.mainnet_secret_key->0@,
        sa[1] matches SaveAction::WriteStore { account, data } && account@ == slot_account(LoadSlot::Mainnet) && data@ == c_m@,
        sa[2] matches SaveAction::Encrypt { plaintext, .. } && plaintext@ == s.testnet_secret_key->0@,
        sa[3] matches SaveAction::WriteStore { account, data } && account@ == slot_account(LoadSlot::Testnet) && data@ == c_t@,
        sa[4] matches SaveAction::Done(SaveReport::Saved),
        la[1] matches LoadAction::Decrypt { data, prf } && data@ == c_m@ && ss[0].prf is Some && prf@ == ss[0].prf->0@,
        is_derive_of(la[2], NetworkEnvironment::Production, s.mainnet_secret_key->0@),
        la[4] matches LoadAction::Decrypt { data, prf } && data@ == c_t@ && ss[0].prf is Some && prf@ == ss[0].prf->0@,
        is_derive_of(la[5], NetworkEnvironment::Test, s.testnet_secret_key->0@),
        is_read_of(la[6], slot_account(LoadSlot::Legacy)),
        both_keys_held(ls[le.len() as int], lsess[le.len() as int], pk_m, s.mainnet_secret_key->0@, pk_t, s.testnet_secret_key->0@),
        lsess[le.len() as int].phase == LoadPhase::Finished ==> loaded_between(la, 6, le.len() as int),
        (le.len() == 7 && (le[6] matches LoadEvent::StoreRead(Err(_)))) ==> la[7] == LoadAction::Done(LoadReport::Loaded)
            && lsess[7].phase == LoadPhase::Finished,
{
    assert(lsess[0].prf == ss[0].prf);
    assert(load_transition(ls[0], lsess[0], le[0], ls[1], lsess[1], la[1]));
    assert(load_transition(ls[1], lsess[1], le[1], ls[2], lsess[2], la[2]));
    assert(load_transition(ls[2], lsess[2], le[2], ls[3], lsess[3], la[3]));
    assert(load_transition(ls[3], lsess[3], le[3], ls[4], lsess[4], la[4]));
    assert(load_transition(ls[4], lsess[4], le[4], ls[5], lsess[5], la[5]));
    assert(load_transition(ls[5], lsess[5], le[5], ls[6], lsess[6], la[6]));
    assert(load_transition(ls[6], lsess[6], le[6], ls[7], lsess[7], la[7]));
    let n = le.len() as int;
    legacy_store_keeps_loaded_keys(ls, lsess, le, la, 6, n, pk_m, s.mainnet_secret_key->0@, pk_t, s.testnet_secret_key->0@);
}

/// Both keys survive a save that first runs the passkey ceremony, and the
/// load that follows: the save encrypts each secret with the key the
/// ceremony gave and writes only what the encryption gave; the load, which
/// then holds that key, asks to decrypt exactly that with it and, once the
/// decryption gives back the secret, keeps both keys and shows the mainnet one,
/// whatever the legacy store read next holds.
pub proof fn keys_survive_passkey_save_and_load(
    s: WalletState,
    localhost: bool,
    t: WalletState,
    start: SaveStart,
    r: PasskeyResult,
    s1: WalletState,
    ss: Seq<SaveSession>,
    sa: Seq<SaveAction>,
    c_m: String,
    c_t: String,
    ls: Seq<WalletState>,
    lsess: Seq<LoadSession>,
    le: Seq<LoadEvent>,
    la: Seq<LoadAction>,
    x_m: String,
    x_t: String,
    pk_m: String,
    pk_t: String,
)
    requires
        s.mainnet_secret_key is Some && storable(s.mainnet_secret_key->0@, NetworkEnvironment::Production),
        s.testnet_secret_key is Some && storable(s.testnet_secret_key->0@, NetworkEnvironment::Test),
        prf_plan_of(localhost, s.biometric_enabled, s.prf_key, s.pin_code) is NeedsPasskey,
        r.success && r.prf_key is Some,
        save_started(s, localhost, t, start),
        ss.len() == 6,
        sa.len() == 6,
        start matches SaveStart::Begin(sess0, act0) && ss[0] == sess0 && sa[0] == act0,
        save_transition(s, ss[0], SaveEvent::Passkey(Ok(r)), s1, ss[1], sa[1]),
        save_transition(s1, ss[1], SaveEvent::Encrypted(Ok(c_m)), s1, ss[2], sa[2]),
        save_transition(s1, ss[2], SaveEvent::Written(Ok(())), s1, ss[3], sa[3]),
        save_transition(s1, ss[3], SaveEvent::Encrypted(Ok(c_t)), s1, ss[4], sa[4]),
        save_transition(s1, ss[4], SaveEvent::Written(Ok(())), s1, ss[5], sa[5]),
        ls[0].biometric_enabled == s1.biometric_enabled,
        ls[0].prf_key == s1.prf_key,
        ls[0].pin_code == s1.pin_code,
        load_started(ls[0], localhost, lsess[0], la[0]),
        load_run(ls, lsess, le, la),
        x_m@ == s.mainnet_secret_key->0@,
        x_t@ == s.testnet_secret_key->0@,
        le.len() > 6,
        le[0] == LoadEvent::StoreRead(Ok(sa[2]->data)),
        le[1] == LoadEvent::Decrypted(Ok(x_m)),
        le[2] == LoadEvent::PublicKey(Some(pk_m)),
        le[3] == LoadEvent::StoreRead(Ok(sa[4]->data)),
        le[4] == LoadEvent::Decrypted(Ok(x_t)),
        le[5] == LoadEvent::PublicKey(Some(pk_t)),
    ensures
        sa[0] is PasskeyInit,
        s1 == (WalletState { prf_key: r.prf_key, ..s }),
        sa[1] matches SaveAction::Encrypt { plaintext, prf } && plaintext@ == s.mainnet_secret_key->0@
            && prf@ == r.prf_key->0@,
        sa[2] matches SaveAction::WriteStore { account, data } && account@ == slot_account(LoadSlot::Mainnet) && data@ == c_m@,
        sa[3] matches SaveAction::Encrypt { plaintext, prf } && plaintext@ == s.testnet_secret_key->0@
            && prf@ == r.prf_key->0@,
        sa[4] matches SaveAction::WriteStore { account, data } && account@ == slot_account(LoadSlot::Testnet) && data@ == c_t@,
        sa[5] matches SaveAction::Done(SaveReport::Saved),
        is_read_of(la[0], slot_account(LoadSlot::Mainnet)),
        la[1] matches LoadAction::Decrypt { data, prf } && data@ == c_m@ && prf@ == r.prf_key->0@,
        is_derive_of(la[2], NetworkEnvironment::Production, s.mainnet_secret_key->0@),
        la[4] matches LoadAction::Decrypt { data, prf } && data@ == c_t@ && prf@ == r.prf_key->0@,
        is_derive_of(la[5], NetworkEnvironment::Test, s.testnet_secret_key->0@),
        is_read_of(la[6], slot_account(LoadSlot::Legacy)),
        both_keys_held(ls[le.len() as int], lsess[le.len() as int], pk_m, s.mainnet_secret_key->0@, pk_t, s.testnet_secret_key->0@),
        lsess[le.len() as int].phase == LoadPhase::Finished ==> loaded_between(la, 6, le.len() as int),
        (le.len() == 7 && (le[6] matches LoadEvent::StoreRead(Err(_)))) ==> la[7] == LoadAction::Done(LoadReport::Loaded)
            && lsess[7].phase == LoadPhase::Finished,
{
    assert(lsess[0].prf == r.prf_key);
    assert(load_transition(ls[0], lsess[0], le[0], ls[1], lsess[1], la[1]));
    assert(load_transition(ls[1], lsess[1], le[1], ls[2], lsess[2], la[2]));
    assert(load_transition(ls[2], lsess[2], le[2], ls[3], lsess[3], la[3]));
    assert(load_transition(ls[3], lsess[3], le[3], ls[4], lsess[4], la[4]));
    assert(load_transition(ls[4], lsess[4], le[4], ls[5], lsess[5], la[5]));
    assert(load_transition(ls[5], lsess[5], le[5], ls[6], lsess[6], la[6]));
    assert(load_transition(ls[6], lsess[6], le[6], ls[7], lsess[7], la[7]));
    let n = le.len() as int;
    legacy_store_keeps_loaded_keys(ls, lsess, le, la, 6, n, pk_m, s.mainnet_secret_key->0@, pk_t, s.testnet_secret_key->0@);
}

/// A recorded sequence of auto-load effect runs: the flag starts unset, and
/// each run, seeing `auths[i]`, loads or not and updates the flag as
/// `auto_load_step` does.
pub open spec fn auto_load_runs(auths: Seq<AuthState>, flags: Seq<bool>, loads: Seq<bool>) -> bool {
    &&& flags.len() == auths.len() + 1
    &&& loads.len() == auths.len()
    &&& !flags[0]
    &&& forall|i: int|
        0 <= i < auths.len() ==> (#[trigger] loads[i] == (auths[i] == AuthState::Authenticated && !flags[i])
            && flags[i + 1] == (flags[i] || loads[i]))
}

/// No run before `i` saw the user authenticated.
pub open spec fn not_authenticated_before(auths: Seq<AuthState>, i: int) -> bool {
    forall|j: int| 0 <= j < i ==> #[trigger] auths[j] != AuthState::Authenticated
}

proof fn auto_load_flag(auths: Seq<AuthState>, flags: Seq<bool>, loads: Seq<bool>, i: int)
    requires
        auto_load_runs(auths, flags, loads),
        0 <= i <= auths.len(),
    ensures
        flags[i] == !not_authenticated_before(auths, i),
    decreases i,
{
    if i > 0 {
        let p = i - 1;
        auto_load_flag(auths, flags, loads, p);
        assert(loads[p] == (auths[p] == AuthState::Authenticated && !flags[p]));
        if auths[p] == AuthState::Authenticated {
            assert(!not_authenticated_before(auths, i));
        } else if not_authenticated_before(auths, p) {
            assert(not_authenticated_before(auths, i));
        }
    }
}

/// The stored keys are loaded at exactly one effect run: the first in which
/// the user is authenticated, never before it and never again.
pub proof fn auto_load_runs_once(auths: Seq<AuthState>, flags: Seq<bool>, loads: Seq<bool>)
    requires
        auto_load_runs(auths, flags, loads),
    ensures
        forall|i: int|
            0 <= i < auths.len() ==> (#[trigger] loads[i] <==> (auths[i] == AuthState::Authenticated
                && not_authenticated_before(auths, i))),
        forall|i: int, j: int| 0 <= i < j < auths.len() && #[trigger] loads[i] ==> !#[trigger] loads[j],
{
    assert forall|i: int| 0 <= i < auths.len() implies (#[trigger] loads[i] <==> (auths[i]
        == AuthState::Authenticated && not_authenticated_before(auths, i))) by {
        auto_load_flag(auths, flags, loads, i);
    }
    assert forall|i: int, j: int| 0 <= i < j < auths.len() && #[trigger] loads[i] implies !#[trigger] loads[j] by {
        auto_load_flag(auths, flags, loads, i);
        auto_load_flag(auths, flags, loads, j);
        assert(auths[i] == AuthState::Authenticated);
    }
}

/// How many of the discovered relays have been checked.
pub open spec fn checked_count(rs: Seq<DiscoveredRelay>) -> nat
    decreases rs.len(),
{
    if rs.len() == 0 {
        0
    } else {
        checked_count(rs.drop_last()) + if rs.last().reachable is Some {
            1nat
        } else {
            0nat
        }
    }
}

proof fn checked_count_bounded(rs: Seq<DiscoveredRelay>)
    ensures
        checked_count(rs) <= rs.len(),
    decreases rs.len(),
{
    if rs.len() > 0 {
        checked_count_bounded(rs.drop_last());
    }
}

proof fn checking_one_counts_one(rs: Seq<DiscoveredRelay>, i: int, x: DiscoveredRelay)
    requires
        0 <= i < rs.len(),
        rs[i].reachable is None,
        x.reachable is Some,
    ensures
        checked_count(rs.update(i, x)) == checked_count(rs) + 1,
    decreases rs.len(),
{
    let rs2 = rs.update(i, x);
    if i == rs.len() - 1 {
        assert(rs2.drop_last() =~= rs.drop_last());
    } else {
        assert(rs2.drop_last() =~= rs.drop_last().update(i, x));
        checking_one_counts_one(rs.drop_last(), i, x);
    }
}

/// The discovery's checks come to an end with every relay checked: each
/// answer to the check that `next_discovered_check` names makes one more
/// discovered relay checked, and no more can be checked than were found;
/// when no check is left to name, every discovered relay is checked.
pub proof fn discovery_checks_every_relay(
    s: WalletState,
    next: Option<(usize, String)>,
    ok: bool,
    t: WalletState,
)
    requires
        next_check_of(s, next),
    ensures
        checked_count(s.discovered_relays@) <= s.discovered_relays@.len(),
        next matches Some((i, _)) && discovered_checked(s, i as int, ok, t) ==> checked_count(t.discovered_relays@)
            == checked_count(s.discovered_relays@) + 1 && t.discovered_relays@.len() == s.discovered_relays@.len(),
        next is None ==> forall|j: int|
            0 <= j < s.discovered_relays@.len() ==> (#[trigger] s.discovered_relays@[j]).reachable is Some,
{
    checked_count_bounded(s.discovered_relays@);
    match next {
        Some((i, _)) => {
            if discovered_checked(s, i as int, ok, t) {
                let rs = s.discovered_relays@;
                let x = DiscoveredRelay { reachable: Some(ok), ..rs[i as int] };
                assert(t.discovered_relays@ =~= rs.update(i as int, x));
                checking_one_counts_one(rs, i as int, x);
            }
        },
        None => {},
    }
}

/// After `k` of the answers to a check of every connected relay: the first
/// `k` relays hold their answers, the others are still being checked, and
/// nothing else has changed.
pub open spec fn connected_answers_upto(s: WalletState, t: WalletState, oks: Seq<bool>, k: int) -> bool {
    let rs = s.connected_relays@;
    &&& t == (WalletState { connected_relays: t.connected_relays, ..s })
    &&& t.connected_relays@.len() == rs.len()
    &&& forall|j: int| 0 <= j < k ==> #[trigger] t.connected_relays@[j] == (RelayEntry {
        checking: false,
        reachable: Some(oks[j]),
        ..rs[j]
    })
    &&& forall|j: int| k <= j < rs.len() ==> #[trigger] t.connected_relays@[j] == (RelayEntry {
        checking: true,
        ..rs[j]
    })
}

proof fn connected_answers_step(
    s: WalletState,
    states: Seq<WalletState>,
    oks: Seq<bool>,
    k: int,
)
    requires
        0 <= k < s.connected_relays@.len(),
        states.len() == s.connected_relays@.len() + 1,
        oks.len() == s.connected_relays@.len(),
        connected_answers_upto(s, states[k], oks, k),
        connected_checked(states[k], k, s.connected_relays@[k].url@, oks[k], states[k + 1]),
    ensures
        connected_answers_upto(s, states[k + 1], oks, k + 1),
{
    let rs = s.connected_relays@;
    assert(states[k].connected_relays@[k] == (RelayEntry { checking: true, ..rs[k] }));
    let t = states[k + 1];
    assert forall|j: int| 0 <= j < k + 1 implies #[trigger] t.connected_relays@[j] == (RelayEntry {
        checking: false,
        reachable: Some(oks[j]),
        ..rs[j]
    }) by {
        if j < k {
            assert(states[k].connected_relays@[j] == (RelayEntry { checking: false, reachable: Some(oks[j]), ..rs[j] }));
        }
    }
    assert forall|j: int| k + 1 <= j < rs.len() implies #[trigger] t.connected_relays@[j] == (RelayEntry {
        checking: true,
        ..rs[j]
    }) by {
        assert(states[k].connected_relays@[j] == (RelayEntry { checking: true, ..rs[j] }));
    }
}

proof fn connected_answers_run(
    s: WalletState,
    states: Seq<WalletState>,
    scripts: Seq<String>,
    oks: Seq<bool>,
    k: int,
)
    requires
        connected_checks_started(s, states[0], scripts),
        states.len() == s.connected_relays@.len() + 1,
        oks.len() == s.connected_relays@.len(),
        forall|i: int|
            0 <= i < s.connected_relays@.len() ==> connected_checked(
                #[trigger] states[i],
                i,
                s.connected_relays@[i].url@,
                oks[i],
                states[i + 1],
            ),
        0 <= k <= s.connected_relays@.len(),
    ensures
        connected_answers_upto(s, states[k], oks, k),
    decreases k,
{
    if k > 0 {
        connected_answers_run(s, states, scripts, oks, k - 1);
        assert(connected_checked(states[k - 1], k - 1, s.connected_relays@[k - 1].url@, oks[k - 1], states[k]));
        connected_answers_step(s, states, oks, k - 1);
    } else {
        let rs = s.connected_relays@;
        assert forall|j: int| 0 <= j < rs.len() implies #[trigger] states[0].connected_relays@[j] == (RelayEntry {
            checking: true,
            ..rs[j]
        }) by {}
    }
}

/// Checking every connected relay and then answering each check in turn
/// leaves every connected relay with its own answer and no check under way;
/// nothing else in the state changes.
pub proof fn checking_connected_relays_records_each_answer(
    s: WalletState,
    states: Seq<WalletState>,
    scripts: Seq<String>,
    oks: Seq<bool>,
)
    requires
        connected_checks_started(s, states[0], scripts),
        states.len() == s.connected_relays@.len() + 1,
        oks.len() == s.connected_relays@.len(),
        forall|i: int|
            0 <= i < s.connected_relays@.len() ==> connected_checked(
                #[trigger] states[i],
                i,
                s.connected_relays@[i].url@,
                oks[i],
                states[i + 1],
            ),
    ensures
        connected_answers_upto(s, states[s.connected_relays@.len() as int], oks, s.connected_relays@.len() as int),
{
    connected_answers_run(s, states, scripts, oks, s.connected_relays@.len() as int);
}

/// A failed encryption ends the save: the session finishes, the report is
/// the failure with the encryption's own message, the state is unchanged,
/// and nothing further is encrypted or written; a finished save then ignores
/// every event, so it never reports success afterwards.
pub proof fn failed_encryption_stops_the_save(
    s: WalletState,
    sess: SaveSession,
    net: NetworkEnvironment,
    e: String,
    t: WalletState,
    sess2: SaveSession,
    act: SaveAction,
    ev: SaveEvent,
    t2: WalletState,
    sess3: SaveSession,
    act2: SaveAction,
)
    requires
        sess.phase == SavePhase::AwaitEncrypt(net),
        save_transition(s, sess, SaveEvent::Encrypted(Err(e)), t, sess2, act),
        save_transition(t, sess2, ev, t2, sess3, act2),
    ensures
        t == s,
        sess2.phase == SavePhase::Finished,
        act matches SaveAction::Done(SaveReport::Failed(m)) && m@ == e@,
        !(act is Encrypt) && !(act is WriteStore),
        t2 == t && sess3 == sess2 && act2 is Idle,
{
}

/// A failed write ends the save the same way: finished, reported with the
/// write's message, nothing further asked.
pub proof fn failed_write_stops_the_save(
    s: WalletState,
    sess: SaveSession,
    net: NetworkEnvironment,
    e: String,
    t: WalletState,
    sess2: SaveSession,
    act: SaveAction,
)
    requires
        sess.phase == SavePhase::AwaitWrite(net),
        save_transition(s, sess, SaveEvent::Written(Err(e)), t, sess2, act),
    ensures
        t == s,
        sess2.phase == SavePhase::Finished,
        act matches SaveAction::Done(SaveReport::Failed(m)) && m@ == e@,
{
}

/// A bridge reply reports the relay reachable exactly when `"ok":true`
/// occurs somewhere in its text, whatever else the reply holds; no reply
/// means unreachable.
pub proof fn reply_ok_anywhere(reply: String, before: Seq<char>, after: Seq<char>)
    ensures
        !reply_ok(None),
        reply@ == before + "\"ok\":true"@ + after ==> reply_ok(Some(reply)),
        reply_ok(Some(reply)) <==> exists|i: int|
            0 <= i && i + 9 <= reply@.len() && #[trigger] reply@.subrange(i, i + 9) == "\"ok\":true"@,
{
    reveal_strlit("\"ok\":true");
    let k = "\"ok\":true"@;
    assert(k.len() == 9);
    if reply@ == before + k + after {
        assert(reply@.subrange(before.len() as int, before.len() as int + 9) =~= k);
    }
}

/// Removing the relays at `url` leaves none with that URL, keeps every
/// other relay, and keeps their order: the result is the connected list
/// filtered by a URL other than `url`.
pub proof fn removed_url_is_gone(rs: Seq<RelayEntry>, url: Seq<char>)
    ensures
        without_url(rs, url) == rs.filter(|e: RelayEntry| e.url@ != url),
        forall|k: int| 0 <= k < without_url(rs, url).len() ==> (#[trigger] without_url(rs, url)[k]).url@ != url,
        forall|e: RelayEntry| #[trigger] without_url(rs, url).contains(e) <==> (rs.contains(e) && e.url@ != url),
    decreases rs.len(),
{
    let f = |e: RelayEntry| e.url@ != url;
    reveal(Seq::filter);
    if rs.len() > 0 {
        let init = rs.drop_last();
        let x = rs.last();
        let rest = without_url(init, url);
        removed_url_is_gone(init, url);
        assert(init.filter(f) == rest);
        assert(without_url(rs, url) == rs.filter(f));
        assert forall|e: RelayEntry| #[trigger] without_url(rs, url).contains(e) <==> (rs.contains(e)
            && e.url@ != url) by {
            if rs.contains(e) && e.url@ != url {
                let k = choose|k: int| 0 <= k < rs.len() && rs[k] == e;
                if k == rs.len() - 1 {
                    assert(without_url(rs, url) == rest.push(x));
                    assert(without_url(rs, url)[rest.len() as int] == e);
                } else {
                    assert(init[k] == e);
                    assert(rest.contains(e));
                    let m = choose|m: int| 0 <= m < rest.len() && rest[m] == e;
                    if x.url@ == url {
                        assert(without_url(rs, url)[m] == e);
                    } else {
                        assert(without_url(rs, url) == rest.push(x));
                        assert(without_url(rs, url)[m] == e);
                    }
                }
            }
            if without_url(rs, url).contains(e) {
                let m = choose|m: int| 0 <= m < without_url(rs, url).len() && without_url(rs, url)[m] == e;
                if x.url@ != url && m == rest.len() {
                    assert(e == x);
                    assert(rs[rs.len() - 1] == e);
                } else {
                    assert(rest[m] == e);
                    assert(rest.contains(e));
                    let k = choose|k: int| 0 <= k < init.len() && init[k] == e;
                    assert(rs[k] == e);
                }
            }
        }
    } else {
        assert(without_url(rs, url) =~= rs.filter(f));
    }
}

/// An authenticated user sees the main screen on the active tab, and each
/// modal shows exactly when its own flag is set: the SEA modal with
/// `sea_modal_open`, the clipboard and biometric-save modals with theirs,
/// the share modal while shares are held.
pub proof fn main_screen_follows_the_flags(s: WalletState, r: Screen)
    requires
        screen_of(s, r),
        s.auth_state == AuthState::Authenticated,
    ensures
        r matches Screen::Main { tab, clipboard_modal, biometric_save_modal, sea_modal, sss_modal } && tab
            == s.active_tab && clipboard_modal == s.clipboard_modal_open && biometric_save_modal
            == s.biometric_save_modal_open && sea_modal == s.sea_modal_open && sss_modal == (s.sss_shares is Some),
{
}

/// Failed authentication shows the failure screen, and before it completes
/// the sign-in screen stands, busy exactly while authenticating.
pub proof fn sign_in_screen_until_authenticated(s: WalletState, r: Screen)
    requires
        screen_of(s, r),
    ensures
        s.auth_state == AuthState::Failed <==> r is AuthFailed,
        s.auth_state == AuthState::Authenticated <==> r is Main,
        r matches Screen::SignIn { busy, .. } ==> busy == (s.auth_state == AuthState::Authenticating),
{
}

/// The English texts of two different keys differ.
proof fn english_texts_differ(a: UiText, b: UiText)
    requires
        a != b,
    ensures
        ui_text(Language::English, a) != ui_text(Language::English, b),
{
    reveal_strlit("Check");
    reveal_strlit("Checking...");
    reveal_strlit("Connect");
    reveal_strlit("Connected");
    reveal_strlit("Discovered Relays");
    reveal_strlit("Find Relays");
    reveal_strlit("Forget");
    reveal_strlit("No relay configured");
    reveal_strlit("No relays found on testnet");
    reveal_strlit("Relay Status");
    reveal_strlit("Remove");
    reveal_strlit("Searching...");
    reveal_strlit("Stop");
    reveal_strlit("Unreachable");
    reveal_strlit("Welcome to Gun Connect");
    reveal_strlit("\u{1F680} A new version of Gun Connect is available!");
    assert(ui_text(Language::English, UiText::ToastUpdateAvailable).len() == 44);
    assert(ui_text(Language::English, UiText::ToastUpdateAvailable)[0] == '🚀');
    assert(ui_text(Language::English, UiText::GateTitle).len() == 22);
    assert(ui_text(Language::English, UiText::GateTitle)[0] == 'W');
    assert(ui_text(Language::English, UiText::RelayStatusConnected).len() == 9);
    assert(ui_text(Language::English, UiText::RelayStatusConnected)[0] == 'C');
    assert(ui_text(Language::English, UiText::RelayStatusUnreachable).len() == 11);
    assert(ui_text(Language::English, UiText::RelayStatusUnreachable)[0] == 'U');
    assert(ui_text(Language::English, UiText::RelayStatusChecking).len() == 11);
    assert(ui_text(Language::English, UiText::RelayStatusChecking)[0] == 'C');
    assert(ui_text(Language::English, UiText::RelayStatusNotConfigured).len() == 19);
    assert(ui_text(Language::English, UiText::RelayStatusNotConfigured)[0] == 'N');
    assert(ui_text(Language::English, UiText::BtnCheckRelay).len() == 5);
    assert(ui_text(Language::English, UiText::BtnCheckRelay)[0] == 'C');
    assert(ui_text(Language::English, UiText::LblRelayStatus).len() == 12);
    assert(ui_text(Language::English, UiText::LblRelayStatus)[0] == 'R');
    assert(ui_text(Language::English, UiText::BtnFindRelays).len() == 11);
    assert(ui_text(Language::English, UiText::BtnFindRelays)[0] == 'F');
    assert(ui_text(Language::English, UiText::LblDiscoveredRelays).len() == 17);
    assert(ui_text(Language::English, UiText::LblDiscoveredRelays)[0] == 'D');
    assert(ui_text(Language::English, UiText::RelayDiscovering).len() == 12);
    assert(ui_text(Language::English, UiText::RelayDiscovering)[0] == 'S');
    assert(ui_text(Language::English, UiText::RelayNoResults).len() == 26);
    assert(ui_text(Language::English, UiText::RelayNoResults)[0] == 'N');
    assert(ui_text(Language::English, UiText::BtnConnectRelay).len() == 7);
    assert(ui_text(Language::English, UiText::BtnConnectRelay)[0] == 'C');
    assert(ui_text(Language::English, UiText::BtnRemoveRelay).len() == 6);
    assert(ui_text(Language::English, UiText::BtnRemoveRelay)[0] == 'R');
    assert(ui_text(Language::English, UiText::BtnForgetRelay).len() == 6);
    assert(ui_text(Language::English, UiText::BtnForgetRelay)[0] == 'F');
    assert(ui_text(Language::English, UiText::BtnStopSearch).len() == 4);
    assert(ui_text(Language::English, UiText::BtnStopSearch)[0] == 'S');
}

/// The French texts of two different keys differ.
proof fn french_texts_differ(a: UiText, b: UiText)
    requires
        a != b,
    ensures
        ui_text(Language::French, a) != ui_text(Language::French, b),
{
    reveal_strlit("Aucun relais configuré");
    reveal_strlit("Aucun relais trouvé sur testnet");
    reveal_strlit("Check");
    reveal_strlit("Checking...");
    reveal_strlit("Connect");
    reveal_strlit("Connected");
    reveal_strlit("Connecté");
    reveal_strlit("Discovered Relays");
    reveal_strlit("Find Relays");
    reveal_strlit("Forget");
    reveal_strlit("Injoignable");
    reveal_strlit("No relay configured");
    reveal_strlit("No relays found on testnet");
    reveal_strlit("Recherche...");
    reveal_strlit("Relais Découverts");
    reveal_strlit("Relay Status");
    reveal_strlit("Remove");
    reveal_strlit("Searching...");
    reveal_strlit("Stop");
    reveal_strlit("Trouver des Relais");
    reveal_strlit("Unreachable");
    reveal_strlit("Vérification...");
    reveal_strlit("Vérifier");
    reveal_strlit("Welcome to Gun Connect");
    reveal_strlit("\u{1F680} A new version of Gun Connect is available!");
    reveal_strlit("État du Relais");
    assert(ui_text(Language::French, UiText::ToastUpdateAvailable).len() == 44);
    assert(ui_text(Language::French, UiText::ToastUpdateAvailable)[0] == '🚀');
    assert(ui_text(Language::French, UiText::GateTitle).len() == 22);
    assert(ui_text(Language::French, UiText::GateTitle)[0] == 'W');
    assert(ui_text(Language::French, UiText::RelayStatusConnected).len() == 8);
    assert(ui_text(Language::French, UiText::RelayStatusConnected)[0] == 'C');
    assert(ui_text(Language::French, UiText::RelayStatusUnreachable).len() == 11);
    assert(ui_text(Language::French, UiText::RelayStatusUnreachable)[0] == 'I');
    assert(ui_text(Language::French, UiText::RelayStatusChecking).len() == 15);
    assert(ui_text(Language::French, UiText::RelayStatusChecking)[0] == 'V');
    assert(ui_text(Language::French, UiText::RelayStatusNotConfigured).len() == 22);
    assert(ui_text(Language::French, UiText::RelayStatusNotConfigured)[0] == 'A');
    assert(ui_text(Language::French, UiText::BtnCheckRelay).len() == 8);
    assert(ui_text(Language::French, UiText::BtnCheckRelay)[0] == 'V');
    assert(ui_text(Language::French, UiText::LblRelayStatus).len() == 14);
    assert(ui_text(Language::French, UiText::LblRelayStatus)[0] == 'É');
    assert(ui_text(Language::French, UiText::BtnFindRelays).len() == 18);
    assert(ui_text(Language::French, UiText::BtnFindRelays)[0] == 'T');
    assert(ui_text(Language::French, UiText::LblDiscoveredRelays).len() == 17);
    assert(ui_text(Language::French, UiText::LblDiscoveredRelays)[0] == 'R');
    assert(ui_text(Language::French, UiText::RelayDiscovering).len() == 12);
    assert(ui_text(Language::French, UiText::RelayDiscovering)[0] == 'R');
    assert(ui_text(Language::French, UiText::RelayNoResults).len() == 31);
    assert(ui_text(Language::French, UiText::RelayNoResults)[0] == 'A');
    assert(ui_text(Language::French, UiText::BtnConnectRelay).len() == 7);
    assert(ui_text(Language::French, UiText::BtnConnectRelay)[0] == 'C');
    assert(ui_text(Language::French, UiText::BtnRemoveRelay).len() == 6);
    assert(ui_text(Language::French, UiText::BtnRemoveRelay)[0] == 'R');
    assert(ui_text(Language::French, UiText::BtnForgetRelay).len() == 6);
    assert(ui_text(Language::French, UiText::BtnForgetRelay)[0] == 'F');
    assert(ui_text(Language::French, UiText::BtnStopSearch).len() == 4);
    assert(ui_text(Language::French, UiText::BtnStopSearch)[0] == 'S');
}

/// The German texts of two different keys differ.
proof fn german_texts_differ(a: UiText, b: UiText)
    requires
        a != b,
    ensures
        ui_text(Language::German, a) != ui_text(Language::German, b),
{
    reveal_strlit("Check");
    reveal_strlit("Checking...");
    reveal_strlit("Connect");
    reveal_strlit("Connected");
    reveal_strlit("Discovered Relays");
    reveal_strlit("Entfernen");
    reveal_strlit("Find Relays");
    reveal_strlit("Forget");
    reveal_strlit("Gefundene Relays");
    reveal_strlit("Kein Relay konfiguriert");
    reveal_strlit("Nicht erreichbar");
    reveal_strlit("No relay configured");
    reveal_strlit("No relays found on testnet");
    reveal_strlit("Prüfe...");
    reveal_strlit("Prüfen");
    reveal_strlit("Relay Status");
    reveal_strlit("Relay-Status");
    reveal_strlit("Relays Finden");
    reveal_strlit("Remove");
    reveal_strlit("Searching...");
    reveal_strlit("Stop");
    reveal_strlit("Stopp");
    reveal_strlit("Suche...");
    reveal_strlit("Unreachable");
    reveal_strlit("Verbinden");
    reveal_strlit("Verbunden");
    reveal_strlit("Vergessen");
    reveal_strlit("Welcome to Gun Connect");
    reveal_strlit("Willkommen bei Gun Connect");
    reveal_strlit("\u{1F680} A new version of Gun Connect is available!");
    reveal_strlit("\u{1F680} Eine neue Version von Gun Connect ist verfügbar!");
    assert(ui_text(Language::German, UiText::ToastUpdateAvailable).len() == 50);
    assert(ui_text(Language::German, UiText::ToastUpdateAvailable)[3] == 'i');
    assert(ui_text(Language::German, UiText::ToastUpdateAvailable)[4] == 'n');
    assert(ui_text(Language::German, UiText::GateTitle).len() == 26);
    assert(ui_text(Language::German, UiText::GateTitle)[3] == 'l');
    assert(ui_text(Language::German, UiText::GateTitle)[4] == 'k');
    assert(ui_text(Language::German, UiText::RelayStatusConnected).len() == 9);
    assert(ui_text(Language::German, UiText::RelayStatusConnected)[3] == 'b');
    assert(ui_text(Language::German, UiText::RelayStatusConnected)[4] == 'u');
    assert(ui_text(Language::German, UiText::RelayStatusUnreachable).len() == 16);
    assert(ui_text(Language::German, UiText::RelayStatusUnreachable)[3] == 'h');
    assert(ui_text(Language::German, UiText::RelayStatusUnreachable)[4] == 't');
    assert(ui_text(Language::German, UiText::RelayStatusChecking).len() == 8);
    assert(ui_text(Language::German, UiText::RelayStatusChecking)[3] == 'f');
    assert(ui_text(Language::German, UiText::RelayStatusChecking)[4] == 'e');
    assert(ui_text(Language::German, UiText::RelayStatusNotConfigured).len() == 23);
    assert(ui_text(Language::German, UiText::RelayStatusNotConfigured)[3] == 'n');
    assert(ui_text(Language::German, UiText::RelayStatusNotConfigured)[4] == ' ');
    assert(ui_text(Language::German, UiText::BtnCheckRelay).len() == 6);
    assert(ui_text(Language::German, UiText::BtnCheckRelay)[3] == 'f');
    assert(ui_text(Language::German, UiText::BtnCheckRelay)[4] == 'e');
    assert(ui_text(Language::German, UiText::LblRelayStatus).len() == 12);
    assert(ui_text(Language::German, UiText::LblRelayStatus)[3] == 'a');
    assert(ui_text(Language::German, UiText::LblRelayStatus)[4] == 'y');
    assert(ui_text(Language::German, UiText::BtnFindRelays).len() == 13);
    assert(ui_text(Language::German, UiText::BtnFindRelays)[3] == 'a');
    assert(ui_text(Language::German, UiText::BtnFindRelays)[4] == 'y');
    assert(ui_text(Language::German, UiText::LblDiscoveredRelays).len() == 16);
    assert(ui_text(Language::German, UiText::LblDiscoveredRelays)[3] == 'u');
    assert(ui_text(Language::German, UiText::LblDiscoveredRelays)[4] == 'n');
    assert(ui_text(Language::German, UiText::RelayDiscovering).len() == 8);
    assert(ui_text(Language::German, UiText::RelayDiscovering)[3] == 'h');
    assert(ui_text(Language::German, UiText::RelayDiscovering)[4] == 'e');
    assert(ui_text(Language::German, UiText::RelayNoResults).len() == 26);
    assert(ui_text(Language::German, UiText::RelayNoResults)[3] == 'r');
    assert(ui_text(Language::German, UiText::RelayNoResults)[4] == 'e');
    assert(ui_text(Language::German, UiText::BtnConnectRelay).len() == 9);
    assert(ui_text(Language::German, UiText::BtnConnectRelay)[3] == 'b');
    assert(ui_text(Language::German, UiText::BtnConnectRelay)[4] == 'i');
    assert(ui_text(Language::German, UiText::BtnRemoveRelay).len() == 9);
    assert(ui_text(Language::German, UiText::BtnRemoveRelay)[3] == 'f');
    assert(ui_text(Language::German, UiText::BtnRemoveRelay)[4] == 'e');
    assert(ui_text(Language::German, UiText::BtnForgetRelay).len() == 9);
    assert(ui_text(Language::German, UiText::BtnForgetRelay)[3] == 'g');
    assert(ui_text(Language::German, UiText::BtnForgetRelay)[4] == 'e');
    assert(ui_text(Language::German, UiText::BtnStopSearch).len() == 5);
    assert(ui_text(Language::German, UiText::BtnStopSearch)[3] == 'p');
    assert(ui_text(Language::German, UiText::BtnStopSearch)[4] == 'p');
}

/// The Hungarian texts of two different keys differ.
proof fn hungarian_texts_differ(a: UiText, b: UiText)
    requires
        a != b,
    ensures
        ui_text(Language::Hungarian, a) != ui_text(Language::Hungarian, b),
{
    reveal_strlit("Check");
    reveal_strlit("Checking...");
    reveal_strlit("Connect");
    reveal_strlit("Connected");
    reveal_strlit("Csatlakozva");
    reveal_strlit("Csatlakozás");
    reveal_strlit("Discovered Relays");
    reveal_strlit("Ellenőrzés");
    reveal_strlit("Ellenőrzés...");
    reveal_strlit("Eltávolítás");
    reveal_strlit("Find Relays");
    reveal_strlit("Forget");
    reveal_strlit("Keresés...");
    reveal_strlit("Nem elérhető");
    reveal_strlit("Nincs relay beállítva");
    reveal_strlit("No relay configured");
    reveal_strlit("No relays found on testnet");
    reveal_strlit("Relay Status");
    reveal_strlit("Relay Állapot");
    reveal_strlit("Relay-ek Keresése");
    reveal_strlit("Remove");
    reveal_strlit("Searching...");
    reveal_strlit("Stop");
    reveal_strlit("Talált Relay-ek");
    reveal_strlit("Unreachable");
    reveal_strlit("Welcome to Gun Connect");
    reveal_strlit("\u{1F680} A new version of Gun Connect is available!");
    assert(ui_text(Language::Hungarian, UiText::ToastUpdateAvailable).len() == 44);
    assert(ui_text(Language::Hungarian, UiText::ToastUpdateAvailable)[0] == '🚀');
    assert(ui_text(Language::Hungarian, UiText::ToastUpdateAvailable)[9] == 'e');
    assert(ui_text(Language::Hungarian, UiText::GateTitle).len() == 22);
    assert(ui_text(Language::Hungarian, UiText::GateTitle)[0] == 'W');
    assert(ui_text(Language::Hungarian, UiText::GateTitle)[9] == 'o');
    assert(ui_text(Language::Hungarian, UiText::RelayStatusConnected).len() == 11);
    assert(ui_text(Language::Hungarian, UiText::RelayStatusConnected)[0] == 'C');
    assert(ui_text(Language::Hungarian, UiText::RelayStatusConnected)[9] == 'v');
    assert(ui_text(Language::Hungarian, UiText::RelayStatusUnreachable).len() == 12);
    assert(ui_text(Language::Hungarian, UiText::RelayStatusUnreachable)[0] == 'N');
    assert(ui_text(Language::Hungarian, UiText::RelayStatusUnreachable)[9] == 'e');
    assert(ui_text(Language::Hungarian, UiText::RelayStatusChecking).len() == 13);
    assert(ui_text(Language::Hungarian, UiText::RelayStatusChecking)[0] == 'E');
    assert(ui_text(Language::Hungarian, UiText::RelayStatusChecking)[9] == 's');
    assert(ui_text(Language::Hungarian, UiText::RelayStatusNotConfigured).len() == 21);
    assert(ui_text(Language::Hungarian, UiText::RelayStatusNotConfigured)[0] == 'N');
    assert(ui_text(Language::Hungarian, UiText::RelayStatusNotConfigured)[9] == 'a');
    assert(ui_text(Language::Hungarian, UiText::BtnCheckRelay).len() == 10);
    assert(ui_text(Language::Hungarian, UiText::BtnCheckRelay)[0] == 'E');
    assert(ui_text(Language::Hungarian, UiText::BtnCheckRelay)[9] == 's');
    assert(ui_text(Language::Hungarian, UiText::LblRelayStatus).len() == 13);
    assert(ui_text(Language::Hungarian, UiText::LblRelayStatus)[0] == 'R');
    assert(ui_text(Language::Hungarian, UiText::LblRelayStatus)[9] == 'a');
    assert(ui_text(Language::Hungarian, UiText::BtnFindRelays).len() == 17);
    assert(ui_text(Language::Hungarian, UiText::BtnFindRelays)[0] == 'R');
    assert(ui_text(Language::Hungarian, UiText::BtnFindRelays)[9] == 'K');
    assert(ui_text(Language::Hungarian, UiText::LblDiscoveredRelays).len() == 15);
    assert(ui_text(Language::Hungarian, UiText::LblDiscoveredRelays)[0] == 'T');
    assert(ui_text(Language::Hungarian, UiText::LblDiscoveredRelays)[9] == 'l');
    assert(ui_text(Language::Hungarian, UiText::RelayDiscovering).len() == 10);
    assert(ui_text(Language::Hungarian, UiText::RelayDiscovering)[0] == 'K');
    assert(ui_text(Language::Hungarian, UiText::RelayDiscovering)[9] == '.');
    assert(ui_text(Language::Hungarian, UiText::RelayNoResults).len() == 26);
    assert(ui_text(Language::Hungarian, UiText::RelayNoResults)[0] == 'N');
    assert(ui_text(Language::Hungarian, UiText::RelayNoResults)[9] == ' ');
    assert(ui_text(Language::Hungarian, UiText::BtnConnectRelay).len() == 11);
    assert(ui_text(Language::Hungarian, UiText::BtnConnectRelay)[0] == 'C');
    assert(ui_text(Language::Hungarian, UiText::BtnConnectRelay)[9] == 'á');
    assert(ui_text(Language::Hungarian, UiText::BtnRemoveRelay).len() == 11);
    assert(ui_text(Language::Hungarian, UiText::BtnRemoveRelay)[0] == 'E');
    assert(ui_text(Language::Hungarian, UiText::BtnRemoveRelay)[9] == 'á');
    assert(ui_text(Language::Hungarian, UiText::BtnForgetRelay).len() == 6);
    assert(ui_text(Language::Hungarian, UiText::BtnForgetRelay)[0] == 'F');
    assert(ui_text(Language::Hungarian, UiText::BtnStopSearch).len() == 4);
    assert(ui_text(Language::Hungarian, UiText::BtnStopSearch)[0] == 'S');
}

/// The Spanish texts of two different keys differ.
proof fn spanish_texts_differ(a: UiText, b: UiText)
    requires
        a != b,
    ensures
        ui_text(Language::Spanish, a) != ui_text(Language::Spanish, b),
{
    reveal_strlit("Bienvenido a Gun Connect");
    reveal_strlit("Buscando...");
    reveal_strlit("Buscar Relés");
    reveal_strlit("Check");
    reveal_strlit("Checking...");
    reveal_strlit("Conectado");
    reveal_strlit("Conectar");
    reveal_strlit("Connect");
    reveal_strlit("Connected");
    reveal_strlit("Discovered Relays");
    reveal_strlit("Eliminar");
    reveal_strlit("Estado del Relé");
    reveal_strlit("Find Relays");
    reveal_strlit("Forget");
    reveal_strlit("Inalcanzable");
    reveal_strlit("No relay configured");
    reveal_strlit("No relays found on testnet");
    reveal_strlit("Relay Status");
    reveal_strlit("Relés Descubiertos");
    reveal_strlit("Remove");
    reveal_strlit("Searching...");
    reveal_strlit("Sin relé configurado");
    reveal_strlit("Stop");
    reveal_strlit("Unreachable");
    reveal_strlit("Verificando...");
    reveal_strlit("Verificar");
    reveal_strlit("Welcome to Gun Connect");
    reveal_strlit("\u{1F680} A new version of Gun Connect is available!");
    reveal_strlit("\u{1F680} ¡Una nueva versión de Gun Connect está disponible!");
    assert(ui_text(Language::Spanish, UiText::ToastUpdateAvailable).len() == 52);
    assert(ui_text(Language::Spanish, UiText::ToastUpdateAvailable)[0] == '🚀');
    assert(ui_text(Language::Spanish, UiText::GateTitle).len() == 24);
    assert(ui_text(Language::Spanish, UiText::GateTitle)[0] == 'B');
    assert(ui_text(Language::Spanish, UiText::RelayStatusConnected).len() == 9);
    assert(ui_text(Language::Spanish, UiText::RelayStatusConnected)[0] == 'C');
    assert(ui_text(Language::Spanish, UiText::RelayStatusUnreachable).len() == 12);
    assert(ui_text(Language::Spanish, UiText::RelayStatusUnreachable)[0] == 'I');
    assert(ui_text(Language::Spanish, UiText::RelayStatusChecking).len() == 14);
    assert(ui_text(Language::Spanish, UiText::RelayStatusChecking)[0] == 'V');
    assert(ui_text(Language::Spanish, UiText::RelayStatusNotConfigured).len() == 20);
    assert(ui_text(Language::Spanish, UiText::RelayStatusNotConfigured)[0] == 'S');
    assert(ui_text(Language::Spanish, UiText::BtnCheckRelay).len() == 9);
    assert(ui_text(Language::Spanish, UiText::BtnCheckRelay)[0] == 'V');
    assert(ui_text(Language::Spanish, UiText::LblRelayStatus).len() == 15);
    assert(ui_text(Language::Spanish, UiText::LblRelayStatus)[0] == 'E');
    assert(ui_text(Language::Spanish, UiText::BtnFindRelays).len() == 12);
    assert(ui_text(Language::Spanish, UiText::BtnFindRelays)[0] == 'B');
    assert(ui_text(Language::Spanish, UiText::LblDiscoveredRelays).len() == 18);
    assert(ui_text(Language::Spanish, UiText::LblDiscoveredRelays)[0] == 'R');
    assert(ui_text(Language::Spanish, UiText::RelayDiscovering).len() == 11);
    assert(ui_text(Language::Spanish, UiText::RelayDiscovering)[0] == 'B');
    assert(ui_text(Language::Spanish, UiText::RelayNoResults).len() == 26);
    assert(ui_text(Language::Spanish, UiText::RelayNoResults)[0] == 'N');
    assert(ui_text(Language::Spanish, UiText::BtnConnectRelay).len() == 8);
    assert(ui_text(Language::Spanish, UiText::BtnConnectRelay)[0] == 'C');
    assert(ui_text(Language::Spanish, UiText::BtnRemoveRelay).len() == 8);
    assert(ui_text(Language::Spanish, UiText::BtnRemoveRelay)[0] == 'E');
    assert(ui_text(Language::Spanish, UiText::BtnForgetRelay).len() == 6);
    assert(ui_text(Language::Spanish, UiText::BtnForgetRelay)[0] == 'F');
    assert(ui_text(Language::Spanish, UiText::BtnStopSearch).len() == 4);
    assert(ui_text(Language::Spanish, UiText::BtnStopSearch)[0] == 'S');
}

/// In every language, two different keys of the interface have different
/// texts: no status, label or button reads as another (a reachable relay is
/// never labelled with the unreachable text, for instance).
pub proof fn texts_of_different_keys_differ(lang: Language, a: UiText, b: UiText)
    requires
        a != b,
    ensures
        ui_text(lang, a) != ui_text(lang, b),
{
    match lang {
        Language::English => english_texts_differ(a, b),
        Language::French => french_texts_differ(a, b),
        Language::German => german_texts_differ(a, b),
        Language::Hungarian => hungarian_texts_differ(a, b),
        Language::Spanish => spanish_texts_differ(a, b),
    }
}

/// No two relays of `rs` share a URL.
pub open spec fn urls_unique(rs: Seq<RelayEntry>) -> bool {
    forall|i: int, j: int| 0 <= i < j < rs.len() ==> (#[trigger] rs[i]).url@ != (#[trigger] rs[j]).url@
}

/// Connecting to a relay keeps every connected relay where it was, never
/// connects the same URL twice, and never goes past the limit: afterwards
/// the URL is connected exactly when it already was or there was room.
pub proof fn connecting_keeps_relays_unique(s: WalletState, url: Seq<char>, max_relays: int, added: bool, t: WalletState)
    requires
        after_add_relay(s, url, max_relays, added, t),
        urls_unique(s.connected_relays@),
    ensures
        urls_unique(t.connected_relays@),
        has_url(t.connected_relays@, url) <==> (has_url(s.connected_relays@, url) || s.connected_relays@.len()
            < max_relays),
        s.connected_relays@.len() <= max_relays ==> t.connected_relays@.len() <= max_relays,
        t.connected_relays@.len() >= s.connected_relays@.len(),
        forall|k: int| 0 <= k < s.connected_relays@.len() ==> #[trigger] t.connected_relays@[k] == s.connected_relays@[k],
{
    let rs = s.connected_relays@;
    let ts = t.connected_relays@;
    if added {
        assert forall|k: int| 0 <= k < rs.len() implies #[trigger] ts[k] == rs[k] by {
            assert(ts.drop_last()[k] == ts[k]);
        }
        assert(ts[rs.len() as int].url@ == url);
        assert(has_url(ts, url));
        assert forall|i: int, j: int| 0 <= i < j < ts.len() implies (#[trigger] ts[i]).url@ != (#[trigger] ts[j]).url@ by {
            if j == rs.len() {
                assert(ts[i] == rs[i]);
            } else {
                assert(ts[i] == rs[i] && ts[j] == rs[j]);
            }
        }
    }
}

/// A connected relay's row tells its state apart: while it is checked it
/// reads as checking in yellow; once answered, a reachable relay reads as
/// connected in green and an unreachable one as unreachable in red, so the
/// two answers never share a status, a dot or a colour.
pub proof fn relay_rows_tell_answers_apart(a: ConnectedRelayRow, ea: RelayEntry, b: ConnectedRelayRow, eb: RelayEntry)
    requires
        connected_row_of(a, ea),
        connected_row_of(b, eb),
    ensures
        a.url@ == ea.url@,
        ea.checking ==> a.status == UiText::RelayStatusChecking,
        !ea.checking && ea.reachable == Some(true) ==> a.status == UiText::RelayStatusConnected,
        !ea.checking && ea.reachable == Some(false) ==> a.status == UiText::RelayStatusUnreachable,
        !ea.checking && !eb.checking && ea.reachable is Some && eb.reachable is Some && ea.reachable
            != eb.reachable ==> a.status != b.status && a.dot@ != b.dot@ && a.color@ != b.color@,
{
    reveal_strlit("\u{1F7E2}");
    reveal_strlit("\u{1F534}");
    reveal_strlit("#28a745");
    reveal_strlit("#dc3545");
    assert("\u{1F7E2}"@[0] != "\u{1F534}"@[0]);
    assert("#28a745"@[1] != "#dc3545"@[1]);
}

/// The Info tab shows the relays' controls as the state stands: the check
/// button exactly when some relay is connected (and the "not configured"
/// note exactly otherwise), the stop button exactly while searching, the
/// connect buttons exactly below the relay limit, one row per connected
/// relay in order, and the public key that is shown.
pub proof fn info_tab_follows_the_state(s: WalletState, max_relays: usize, v: InfoTabView)
    requires
        info_view_of(s, max_relays, v),
    ensures
        v.show_check_button != v.show_not_configured,
        v.show_check_button <==> s.connected_relays@.len() > 0,
        v.show_stop_button <==> s.discovering_relays,
        v.show_connect_buttons <==> s.connected_relays@.len() < max_relays,
        v.connected@.len() == s.connected_relays@.len(),
        forall|i: int| 0 <= i < v.connected@.len() ==> (#[trigger] v.connected@[i]).url@ == s.connected_relays@[i].url@,
        v.public_key == s.public_key,
{
    assert forall|i: int| 0 <= i < v.connected@.len() implies (#[trigger] v.connected@[i]).url@ == s.connected_relays@[i].url@ by {
        assert(connected_row_of(v.connected@[i], s.connected_relays@[i]));
    }
}

/// Outside localhost a save needs biometrics: without them nothing is saved
/// and the biometric modal opens, nothing else changing; with no key
/// defined there is nothing to save; otherwise the save begins with both
/// networks' keys as they stand.
pub proof fn save_needs_biometrics_outside_localhost(s: WalletState, localhost: bool, t: WalletState, r: SaveStart)
    requires
        save_started(s, localhost, t, r),
    ensures
        !s.biometric_enabled && !localhost ==> r is BiometricRequired && t == (WalletState {
            biometric_save_modal_open: true,
            ..s
        }),
        (s.biometric_enabled || localhost) && s.mainnet_secret_key is None && s.testnet_secret_key is None
            ==> r is NothingToSave && t == s,
        r matches SaveStart::Begin(sess, _) ==> t == s && (s.biometric_enabled || localhost)
            && opt_secret_text(sess.mainnet) == opt_secret_text(s.mainnet_secret_key)
            && opt_secret_text(sess.testnet) == opt_secret_text(s.testnet_secret_key),
{
}

} // verus!
