use vstd::prelude::*;

pub mod info;

verus! {

/// The tabs of the bottom tab bar.
#[derive(Clone, Copy, PartialEq, Eq, Structural, Debug)]
pub enum Tab {
    Info,
    Settings,
}

impl Default for Tab {
    fn default() -> (t: Tab)
        ensures
            t == Tab::Info,
    {
        Tab::Info
    }
}

/// One button of the bottom tab bar.
pub struct TabButton {
    pub tab: Tab,
    /// The SVG path of its icon.
    pub icon: &'static str,
    pub active: bool,
    pub color: &'static str,
    pub font_weight: &'static str,
}

/// The colour of a tab button: blue when active, grey otherwise.
pub open spec fn tab_color(active: bool) -> Seq<char> {
    if active {
        "#007bff"@
    } else {
        "#999"@
    }
}

pub open spec fn tab_weight(active: bool) -> Seq<char> {
    if active {
        "bold"@
    } else {
        "normal"@
    }
}

/// A button for `tab` drawn as active exactly when it is the active tab.
pub open spec fn button_for(b: TabButton, tab: Tab, active_tab: Tab) -> bool {
    &&& b.tab == tab
    &&& b.active == (tab == active_tab)
    &&& b.color@ == tab_color(b.active)
    &&& b.font_weight@ == tab_weight(b.active)
}

fn tab_button(tab: Tab, icon: &'static str, active_tab: Tab) -> (b: TabButton)
    ensures
        button_for(b, tab, active_tab),
        b.icon == icon,
{
    let active = tab == active_tab;
    TabButton {
        tab,
        icon,
        active,
        color: if active {
            "#007bff"
        } else {
            "#999"
        },
        font_weight: if active {
            "bold"
        } else {
            "normal"
        },
    }
}

/// The SVG path of the Info tab's icon (a circled "i").
pub open spec fn info_icon() -> Seq<char> {
    "M13 16h-1v-4h-1m1-4h.01M21 12a9 9 0 11-18 0 9 9 0 0118 0z"@
}

/// The SVG path of the Settings tab's icon (a cog).
pub open spec fn settings_icon() -> Seq<char> {
    "M10.325 4.317c.426-1.756 2.924-1.756 3.35 0a1.724 1.724 0 002.573 1.066c1.543-.94 3.31.826 2.37 2.37a1.724 1.724 0 001.066 2.573c1.756.426 1.756 2.924 0 3.35a1.724 1.724 0 00-1.066 2.573c.94 1.543-.826 3.31-2.37 2.37a1.724 1.724 0 00-2.573 1.066c-.426 1.756-2.924 1.756-3.35 0a1.724 1.724 0 00-2.573-1.066c-1.543.94-3.31-.826-2.37-2.37a1.724 1.724 0 00-1.066-2.573c-1.756-.426-1.756-2.924 0-3.35a1.724 1.724 0 001.066-2.573c-.94-1.543.826-3.31 2.37-2.37.996.608 2.296.07 2.572-1.065z"@
}

/// The buttons of the tab bar, Info then Settings, with the active one marked.
pub fn render_tab_bar(active_tab: Tab) -> (r: Vec<TabButton>)
    ensures
        r@.len() == 2,
        button_for(r@[0], Tab::Info, active_tab),
        button_for(r@[1], Tab::Settings, active_tab),
        r@[0].icon@ == info_icon(),
        r@[1].icon@ == settings_icon(),
{
    let mut v = Vec::new();
    v.push(
        tab_button(
            Tab::Info,
            "M13 16h-1v-4h-1m1-4h.01M21 12a9 9 0 11-18 0 9 9 0 0118 0z",
            active_tab,
        ),
    );
    v.push(
        tab_button(
            Tab::Settings,
            "M10.325 4.317c.426-1.756 2.924-1.756 3.35 0a1.724 1.724 0 002.573 1.066c1.543-.94 3.31.826 2.37 2.37a1.724 1.724 0 001.066 2.573c1.756.426 1.756 2.924 0 3.35a1.724 1.724 0 00-1.066 2.573c.94 1.543-.826 3.31-2.37 2.37a1.724 1.724 0 00-2.573 1.066c-.426 1.756-2.924 1.756-3.35 0a1.724 1.724 0 00-2.573-1.066c-1.543.94-3.31-.826-2.37-2.37a1.724 1.724 0 00-1.066-2.573c-1.756-.426-1.756-2.924 0-3.35a1.724 1.724 0 001.066-2.573c-.94-1.543.826-3.31 2.37-2.37.996.608 2.296.07 2.572-1.065z",
            active_tab,
        ),
    );
    v
}

} // verus!
