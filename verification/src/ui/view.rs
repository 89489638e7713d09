use vstd::prelude::*;
use crate::ui::state::{AuthState, WalletState};
use crate::ui::tabs::Tab;

verus! {

/// Which screen the application shows.
pub enum Screen {
    /// Authentication failed: the terminal error screen.
    AuthFailed,
    /// The sign-in screen; `busy` while the passkey dialog runs.
    SignIn { busy: bool, button_color: &'static str },
    /// The application: the active tab and the open modals.
    Main {
        tab: Tab,
        clipboard_modal: bool,
        biometric_save_modal: bool,
        sea_modal: bool,
        sss_modal: bool,
    },
}

/// The colour of the sign-in button: grey while busy, blue otherwise.
pub open spec fn sign_in_color(busy: bool) -> Seq<char> {
    if busy {
        "#6c757d"@
    } else {
        "#007bff"@
    }
}

/// The screen for state `s`: failed authentication ends on the error
/// screen; until authenticated the sign-in screen stands; then the tabs and the
/// modals that are open.
pub open spec fn screen_of(s: WalletState, r: Screen) -> bool {
    match s.auth_state {
        AuthState::Failed => r is AuthFailed,
        AuthState::Authenticated => r == Screen::Main {
            tab: s.active_tab,
            clipboard_modal: s.clipboard_modal_open,
            biometric_save_modal: s.biometric_save_modal_open,
            sea_modal: s.sea_modal_open,
            sss_modal: s.sss_shares is Some,
        },
        _ => {
            let busy = s.auth_state == AuthState::Authenticating;
            r matches Screen::SignIn { busy: b, button_color } && b == busy && button_color@
                == sign_in_color(busy)
        },
    }
}

/// Decides what the application shows.
pub fn render_app(s: &WalletState) -> (r: Screen)
    ensures
        screen_of(*s, r),
{
    match s.auth_state {
        AuthState::Failed => Screen::AuthFailed,
        AuthState::Authenticated => Screen::Main {
            tab: s.active_tab,
            clipboard_modal: s.clipboard_modal_open,
            biometric_save_modal: s.biometric_save_modal_open,
            sea_modal: s.sea_modal_open,
            sss_modal: s.sss_shares.is_some(),
        },
        _ => {
            let busy = s.auth_state == AuthState::Authenticating;
            Screen::SignIn {
                busy,
                button_color: if busy {
                    "#6c757d"
                } else {
                    "#007bff"
                },
            }
        },
    }
}

/// Whether the stored keys are due to be loaded: once, as soon as the user
/// is authenticated.
pub fn auto_load_due(auth_state: AuthState, already_loaded: bool) -> (r: bool)
    ensures
        r == (auth_state == AuthState::Authenticated && !already_loaded),
{
    auth_state == AuthState::Authenticated && !already_loaded
}

/// One run of the auto-load effect: whether to load now, with `loaded`
/// remembering that the load was made.
pub fn auto_load_step(auth_state: AuthState, loaded: &mut bool) -> (load: bool)
    ensures
        load == (auth_state == AuthState::Authenticated && !*old(loaded)),
        *final(loaded) == (*old(loaded) || load),
{
    let load = auto_load_due(auth_state, *loaded);
    if load {
        *loaded = true;
    }
    load
}

} // verus!
