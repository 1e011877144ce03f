//! Settings area: tab identifiers, how a tab's entry in the side navigation
//! looks, and what each tab shows.

use vstd::prelude::*;

verus! {

/// A tab of the settings area.
#[derive(Clone, Copy, PartialEq, Eq, Debug, Structural)]
pub enum SettingsTab {
    General,
    Keybinds,
    About,
}

/// Label shown for a tab.
pub open spec fn tab_label(tab: SettingsTab) -> Seq<char> {
    match tab {
        SettingsTab::General => "General"@,
        SettingsTab::Keybinds => "Keybinds"@,
        SettingsTab::About => "About"@,
    }
}

/// Element id of a tab's navigation entry.
pub open spec fn tab_id(tab: SettingsTab) -> Seq<char> {
    match tab {
        SettingsTab::General => "settings-tab-general"@,
        SettingsTab::Keybinds => "settings-tab-keybinds"@,
        SettingsTab::About => "settings-tab-about"@,
    }
}

impl SettingsTab {
    /// All tabs, in navigation order.
    pub const TABS: [SettingsTab; 3] = [SettingsTab::General, SettingsTab::Keybinds, SettingsTab::About];

    /// Label shown for this tab.
    pub fn label(self) -> (l: &'static str)
        ensures
            l@ == tab_label(self),
            self == SettingsTab::General ==> l@ == "General"@,
            self == SettingsTab::Keybinds ==> l@ == "Keybinds"@,
            self == SettingsTab::About ==> l@ == "About"@,
    {
        match self {
            SettingsTab::General => "General",
            SettingsTab::Keybinds => "Keybinds",
            SettingsTab::About => "About",
        }
    }

    /// Element id of this tab's navigation entry.
    pub fn id(self) -> (i: &'static str)
        ensures
            i@ == tab_id(self),
            self == SettingsTab::General ==> i@ == "settings-tab-general"@,
            self == SettingsTab::Keybinds ==> i@ == "settings-tab-keybinds"@,
            self == SettingsTab::About ==> i@ == "settings-tab-about"@,
    {
        match self {
            SettingsTab::General => "settings-tab-general",
            SettingsTab::Keybinds => "settings-tab-keybinds",
            SettingsTab::About => "settings-tab-about",
        }
    }
}

/// Distinct tabs have distinct labels and distinct element ids.
pub proof fn lemma_tabs_distinguishable(a: SettingsTab, b: SettingsTab)
    requires
        a != b,
    ensures
        tab_label(a) != tab_label(b),
        tab_id(a) != tab_id(b),
{
    reveal_strlit("General");
    reveal_strlit("Keybinds");
    reveal_strlit("About");
    reveal_strlit("settings-tab-general");
    reveal_strlit("settings-tab-keybinds");
    reveal_strlit("settings-tab-about");
    assert("General"@[0] != "Keybinds"@[0]);
    assert("General"@[0] != "About"@[0]);
    assert("Keybinds"@[0] != "About"@[0]);
    assert("settings-tab-general"@[13] != "settings-tab-keybinds"@[13]);
    assert("settings-tab-general"@[13] != "settings-tab-about"@[13]);
    assert("settings-tab-keybinds"@[13] != "settings-tab-about"@[13]);
}

/// A colour of the current theme, by its role.
#[derive(Clone, Copy, PartialEq, Eq, Debug, Structural)]
pub enum Palette {
    Background,
    Container,
    Border,
    Text,
    Disabled,
}

/// Font weight of a navigation label.
#[derive(Clone, Copy, PartialEq, Eq, Debug, Structural)]
pub enum Weight {
    Normal,
    Semibold,
}

/// How one tab's entry in the settings navigation is drawn.
#[derive(Debug, Clone, PartialEq, Eq)]
pub struct NavItemStyle {
    pub id: &'static str,
    pub label: &'static str,
    pub background: Palette,
    pub border: Palette,
    pub text: Palette,
    pub weight: Weight,
}

/// The entry for `tab` in the settings navigation: the active tab stands out
/// on the container colour with a border, semibold text in the text colour;
/// the others blend into the background in the disabled colour.
pub fn nav_item_style(tab: SettingsTab, active: bool) -> (s: NavItemStyle)
    ensures
        s.id@ == tab_id(tab),
        s.label@ == tab_label(tab),
        s.id@ == (match tab {
            SettingsTab::General => "settings-tab-general"@,
            SettingsTab::Keybinds => "settings-tab-keybinds"@,
            SettingsTab::About => "settings-tab-about"@,
        }),
        s.label@ == (match tab {
            SettingsTab::General => "General"@,
            SettingsTab::Keybinds => "Keybinds"@,
            SettingsTab::About => "About"@,
        }),
        s.background == (if active {
            Palette::Container
        } else {
            Palette::Background
        }),
        s.border == (if active {
            Palette::Border
        } else {
            Palette::Background
        }),
        s.text == (if active {
            Palette::Text
        } else {
            Palette::Disabled
        }),
        s.weight == (if active {
            Weight::Semibold
        } else {
            Weight::Normal
        }),
{
    NavItemStyle {
        id: tab.id(),
        label: tab.label(),
        background: if active {
            Palette::Container
        } else {
            Palette::Background
        },
        border: if active {
            Palette::Border
        } else {
            Palette::Background
        },
        text: if active {
            Palette::Text
        } else {
            Palette::Disabled
        },
        weight: if active {
            Weight::Semibold
        } else {
            Weight::Normal
        },
    }
}

/// One row of the key-binding list: an action and the keys that trigger it.
#[derive(Debug, Clone, PartialEq, Eq)]
pub struct KeybindHint {
    pub action: &'static str,
    pub keys: &'static str,
}

/// The body of a settings tab, below its title.
#[derive(Debug, Clone, PartialEq, Eq)]
pub enum TabBody {
    /// A single muted line of text.
    Note(&'static str),
    /// A list of key bindings.
    Keybinds(Vec<KeybindHint>),
    /// Product name and author, in muted text.
    Credits { product: &'static str, author: &'static str },
}

/// What a settings tab shows.
#[derive(Debug, Clone, PartialEq, Eq)]
pub struct TabContent {
    pub title: &'static str,
    pub body: TabBody,
}

/// The key bindings listed on the Keybinds tab, as action and keys.
pub open spec fn keybind_hints() -> Seq<(Seq<char>, Seq<char>)> {
    seq![("Open Settings"@, "cmd-, / ctrl-,"@), ("Leave Settings"@, "escape (when Settings is open)"@)]
}

/// What `tab` shows: its label as title, then its body.
pub fn tab_content(tab: SettingsTab) -> (c: TabContent)
    ensures
        c.title@ == tab_label(tab),
        c.title@ == (match tab {
            SettingsTab::General => "General"@,
            SettingsTab::Keybinds => "Keybinds"@,
            SettingsTab::About => "About"@,
        }),
        tab == SettingsTab::Keybinds ==> (c.body matches TabBody::Keybinds(rows) && rows@.len() == 2
            && rows@[0].action@ == "Open Settings"@ && rows@[0].keys@ == "cmd-, / ctrl-,"@
            && rows@[1].action@ == "Leave Settings"@ && rows@[1].keys@
            == "escape (when Settings is open)"@),
        match tab {
            SettingsTab::General => c.body matches TabBody::Note(n) && n@
                == "Application preferences will go here."@,
            SettingsTab::Keybinds => c.body matches TabBody::Keybinds(rows) && rows@.len()
                == keybind_hints().len() && forall|i: int|
                0 <= i < rows@.len() ==> (#[trigger] rows@[i]).action@ == keybind_hints()[i].0
                    && rows@[i].keys@ == keybind_hints()[i].1,
            SettingsTab::About => c.body matches TabBody::Credits { product, author } && product@
                == "the-search-thing"@ && author@ == "by the-search-company"@,
        },
{
    let body = match tab {
        SettingsTab::General => TabBody::Note("Application preferences will go here."),
        SettingsTab::Keybinds => {
            let mut rows: Vec<KeybindHint> = Vec::new();
            rows.push(KeybindHint { action: "Open Settings", keys: "cmd-, / ctrl-," });
            rows.push(
                KeybindHint { action: "Leave Settings", keys: "escape (when Settings is open)" },
            );
            TabBody::Keybinds(rows)
        },
        SettingsTab::About => TabBody::Credits {
            product: "the-search-thing",
            author: "by the-search-company",
        },
    };
    TabContent { title: tab.label(), body }
}

} // verus!
