use vstd::prelude::*;

verus! {

/// A colour theme offered in the header's drop-down.
#[derive(Clone, Copy, Debug)]
pub struct ThemeDef {
    /// The key the choice is saved under.
    pub key: &'static str,
    /// The name shown in the drop-down.
    pub name: &'static str,
}

/// The keys of the offered themes, in drop-down order.
pub open spec fn theme_keys() -> Seq<Seq<char>> {
    seq!["gruvbox"@, "nord"@, "dracula"@, "catppuccin"@, "tokyo"@]
}

/// The names of the offered themes, in drop-down order.
pub open spec fn theme_names_shown() -> Seq<Seq<char>> {
    seq!["Gruvbox"@, "Nord"@, "Dracula"@, "Catppuccin"@, "Tokyo Night"@]
}

/// The offered themes, in drop-down order.
pub fn themes() -> (t: Vec<ThemeDef>)
    ensures
        t.len() == 5,
        t@[0].key@ == "gruvbox"@ && t@[0].name@ == "Gruvbox"@,
        t@[1].key@ == "nord"@ && t@[1].name@ == "Nord"@,
        t@[2].key@ == "dracula"@ && t@[2].name@ == "Dracula"@,
        t@[3].key@ == "catppuccin"@ && t@[3].name@ == "Catppuccin"@,
        t@[4].key@ == "tokyo"@ && t@[4].name@ == "Tokyo Night"@,
        t.len() == theme_keys().len(),
        forall|i: int| 0 <= i < t.len() ==> #[trigger] t@[i].key@ == theme_keys()[i] && t@[i].name@ == theme_names_shown()[i],
{
    let mut t: Vec<ThemeDef> = Vec::new();
    t.push(ThemeDef { key: "gruvbox", name: "Gruvbox" });
    t.push(ThemeDef { key: "nord", name: "Nord" });
    t.push(ThemeDef { key: "dracula", name: "Dracula" });
    t.push(ThemeDef { key: "catppuccin", name: "Catppuccin" });
    t.push(ThemeDef { key: "tokyo", name: "Tokyo Night" });
    t
}

/// The names of `themes`, in order.
pub fn theme_names(themes: &[ThemeDef]) -> (names: Vec<&'static str>)
    ensures
        names.len() == themes@.len(),
        forall|i: int| 0 <= i < names.len() ==> #[trigger] names@[i]@ == themes@[i].name@,
{
    let mut names: Vec<&'static str> = Vec::new();
    let mut i: usize = 0;
    while i < themes.len()
        invariant
            i <= themes@.len(),
            names.len() == i,
            forall|j: int| 0 <= j < i ==> #[trigger] names@[j]@ == themes@[j].name@,
        decreases themes@.len() - i,
    {
        names.push(themes[i].name);
        i = i + 1;
    }
    names
}

/// The position of the first theme saved under `key`, if any.
pub fn theme_position(themes: &[ThemeDef], key: &str) -> (pos: Option<usize>)
    ensures
        pos matches Some(i) ==> i < themes@.len() && themes@[i as int].key@ == key@ && forall|j: int|
            0 <= j < i ==> #[trigger] themes@[j].key@ != key@,
        pos is None ==> forall|j: int| 0 <= j < themes@.len() ==> #[trigger] themes@[j].key@ != key@,
{
    let wanted = String::from_str(key);
    let mut i: usize = 0;
    while i < themes.len()
        invariant
            i <= themes@.len(),
            wanted@ == key@,
            forall|j: int| 0 <= j < i ==> #[trigger] themes@[j].key@ != key@,
        decreases themes@.len() - i,
    {
        let candidate = String::from_str(themes[i].key);
        if candidate == wanted {
            return Some(i);
        }
        i = i + 1;
    }
    None
}

/// The theme picked at drop-down position `idx`; none when `idx` is past
/// the end of the list.
pub fn selected_theme(themes: &[ThemeDef], idx: usize) -> (t: Option<ThemeDef>)
    ensures
        t is Some <==> idx < themes@.len(),
        t matches Some(d) ==> d == themes@[idx as int],
{
    if idx < themes.len() {
        Some(themes[idx])
    } else {
        None
    }
}

/// The icon of the light/dark button: a moon while the window is light,
/// a sun while it is dark.
pub open spec fn theme_icon_of(is_light: bool) -> Seq<char> {
    if is_light {
        "weather-clear-night-symbolic"@
    } else {
        "weather-clear-symbolic"@
    }
}

/// The icon of the light/dark button.
pub fn theme_icon(is_light: bool) -> (icon: &'static str)
    ensures
        icon@ == theme_icon_of(is_light),
{
    if is_light {
        "weather-clear-night-symbolic"
    } else {
        "weather-clear-symbolic"
    }
}

/// The window's style class for a light or a dark window.
pub open spec fn window_class_of(is_light: bool) -> Seq<char> {
    if is_light {
        "light-theme"@
    } else {
        "dark-theme"@
    }
}

/// What a press of the light/dark button does.
#[derive(Clone, Copy, Debug)]
pub struct ThemeSwitch {
    /// Style class taken off the window.
    pub remove_class: &'static str,
    /// Style class put on the window.
    pub add_class: &'static str,
    /// The button's new icon.
    pub icon: &'static str,
    /// The value saved as the theme choice.
    pub saved: &'static str,
}

/// The press of the light/dark button on a window that is light
/// (`is_light`) or dark: the window switches to the other class, the icon
/// follows, and the value the window had ("light" when leaving light,
/// "dark" when leaving dark) is saved.
pub fn toggle_theme(is_light: bool) -> (s: ThemeSwitch)
    ensures
        s.remove_class@ == window_class_of(is_light),
        s.add_class@ == window_class_of(!is_light),
        s.remove_class@ == (if is_light {
            "light-theme"@
        } else {
            "dark-theme"@
        }),
        s.add_class@ == (if is_light {
            "dark-theme"@
        } else {
            "light-theme"@
        }),
        s.icon@ == (if is_light {
            "weather-clear-symbolic"@
        } else {
            "weather-clear-night-symbolic"@
        }),
        s.saved@ == (if is_light {
            "light"@
        } else {
            "dark"@
        }),
{
    if is_light {
        ThemeSwitch {
            remove_class: "light-theme",
            add_class: "dark-theme",
            icon: "weather-clear-symbolic",
            saved: "light",
        }
    } else {
        ThemeSwitch {
            remove_class: "dark-theme",
            add_class: "light-theme",
            icon: "weather-clear-night-symbolic",
            saved: "dark",
        }
    }
}

/// After a press of the light/dark button the icon is the one a window of
/// the new kind starts with, and a second press puts back the class the
/// first one took off.
pub proof fn toggle_keeps_icon_in_step(is_light: bool)
    ensures
        (if is_light {
            "weather-clear-symbolic"@
        } else {
            "weather-clear-night-symbolic"@
        }) == theme_icon_of(!is_light),
        window_class_of(!(!is_light)) == window_class_of(is_light),
        window_class_of(is_light) != window_class_of(!is_light),
        window_class_of(true) == "light-theme"@ && window_class_of(false) == "dark-theme"@,
        theme_icon_of(true) == "weather-clear-night-symbolic"@,
        theme_icon_of(false) == "weather-clear-symbolic"@,
{
    reveal_strlit("light-theme");
    reveal_strlit("dark-theme");
    assert("light-theme"@.len() != "dark-theme"@.len());
}

} // verus!
