//! The shell's two locales and the texts of its tray menu in each.
use vstd::prelude::*;
use crate::text::{str_eq, trim, trimmed};

verus! {

/// The tray menu texts of one locale.
#[derive(Debug, Clone, Copy)]
pub struct ShellTexts {
    pub tray_hide: &'static str,
    pub tray_show: &'static str,
    pub tray_reload: &'static str,
    pub tray_restart_backend: &'static str,
    pub tray_quit: &'static str,
}

/// The English texts for `en-US`, the Chinese ones for any other locale.
pub fn shell_texts_for_locale(locale: &str) -> (r: ShellTexts)
    ensures
        locale@ == "en-US"@ ==> r.tray_hide@ == "Hide AstrBot"@ && r.tray_show@ == "Show AstrBot"@
            && r.tray_reload@ == "Reload"@ && r.tray_restart_backend@ == "Restart Backend"@
            && r.tray_quit@ == "Quit"@,
        locale@ != "en-US"@ ==> r.tray_hide@ == "隐藏 AstrBot"@ && r.tray_show@ == "显示 AstrBot"@
            && r.tray_reload@ == "重新加载"@ && r.tray_restart_backend@ == "重启后端"@
            && r.tray_quit@ == "退出"@,
{
    if str_eq(locale, "en-US") {
        return ShellTexts {
            tray_hide: "Hide AstrBot",
            tray_show: "Show AstrBot",
            tray_reload: "Reload",
            tray_restart_backend: "Restart Backend",
            tray_quit: "Quit",
        };
    }
    ShellTexts {
        tray_hide: "隐藏 AstrBot",
        tray_show: "显示 AstrBot",
        tray_reload: "重新加载",
        tray_restart_backend: "重启后端",
        tray_quit: "退出",
    }
}

/// The label of the tray entry that toggles the main window: "hide" while it
/// is visible, "show" while it is not.
pub fn tray_toggle_label(texts: &ShellTexts, visible: bool) -> (r: &'static str)
    ensures
        r == if visible {
            texts.tray_hide
        } else {
            texts.tray_show
        },
{
    if visible {
        texts.tray_hide
    } else {
        texts.tray_show
    }
}

/// Whether `t` starts with the two letters `a` and `b`, either in lower or
/// upper case.
pub open spec fn starts_with_pair(t: Seq<char>, a: char, a_upper: char, b: char, b_upper: char) -> bool {
    t.len() >= 2 && (t[0] == a || t[0] == a_upper) && (t[1] == b || t[1] == b_upper)
}

/// The supported locale that a locale tag names: any tag of the Chinese
/// language gives `zh-CN`, any of English `en-US`; surrounding whitespace and
/// ASCII case are ignored.
pub open spec fn normalized_locale(raw: Seq<char>) -> Option<Seq<char>> {
    let t = trimmed(raw);
    if starts_with_pair(t, 'z', 'Z', 'h', 'H') {
        Some("zh-CN"@)
    } else if starts_with_pair(t, 'e', 'E', 'n', 'N') {
        Some("en-US"@)
    } else {
        None
    }
}

/// Maps a locale tag to a supported locale, if it names one.
pub fn normalize_shell_locale(raw: &str) -> (r: Option<&'static str>)
    ensures
        match r {
            Some(s) => normalized_locale(raw@) == Some(s@),
            None => normalized_locale(raw@).is_none(),
        },
{
    let t = trim(raw);
    if t.unicode_len() < 2 {
        return None;
    }
    let a = t.get_char(0);
    let b = t.get_char(1);
    if (a == 'z' || a == 'Z') && (b == 'h' || b == 'H') {
        Some("zh-CN")
    } else if (a == 'e' || a == 'E') && (b == 'n' || b == 'N') {
        Some("en-US")
    } else {
        None
    }
}

/// How a locale choice changes the stored state.
#[derive(Debug, Clone, Copy, PartialEq, Eq)]
pub enum LocaleStateChange {
    /// Store this supported locale.
    Store(&'static str),
    /// Remove the stored locale.
    Clear,
}

/// A choice that names a supported locale is stored in its normalised form;
/// no choice, or an unsupported one, clears the stored locale.
pub fn locale_state_change(locale: Option<&str>) -> (r: LocaleStateChange)
    ensures
        match r {
            LocaleStateChange::Store(l) => locale is Some && normalized_locale(locale->Some_0@)
                == Some(l@),
            LocaleStateChange::Clear => locale is None || normalized_locale(locale->Some_0@) is None,
        },
{
    match locale {
        Some(raw) => match normalize_shell_locale(raw) {
            Some(l) => LocaleStateChange::Store(l),
            None => LocaleStateChange::Clear,
        },
        None => LocaleStateChange::Clear,
    }
}

/// The shell locale: the stored choice if it names a supported locale, else
/// the first of `env_values` that does, else `default_shell_locale`.
pub fn resolve_shell_locale(
    default_shell_locale: &'static str,
    cached: Option<&str>,
    env_values: &Vec<String>,
) -> (r: &'static str)
    ensures
        cached is Some && normalized_locale(cached->Some_0@) is Some ==> Some(r@) == normalized_locale(
            cached->Some_0@,
        ),
        !(cached is Some && normalized_locale(cached->Some_0@) is Some) ==> (exists|i: int|
            0 <= i < env_values@.len() && Some(r@) == normalized_locale(
                #[trigger] env_values@[i]@,
            ) && forall|j: int|
                0 <= j < i ==> normalized_locale(#[trigger] env_values@[j]@) is None) || (r
            == default_shell_locale && forall|j: int|
            0 <= j < env_values@.len() ==> normalized_locale(#[trigger] env_values@[j]@) is None),
{
    match cached {
        Some(c) => match normalize_shell_locale(c) {
            Some(l) => return l,
            None => {},
        },
        None => {},
    }
    let mut i: usize = 0;
    while i < env_values.len()
        invariant
            i <= env_values@.len(),
            !(cached is Some && normalized_locale(cached->Some_0@) is Some),
            forall|j: int| 0 <= j < i ==> normalized_locale(#[trigger] env_values@[j]@) is None,
        decreases env_values@.len() - i,
    {
        match normalize_shell_locale(env_values[i].as_str()) {
            Some(l) => return l,
            None => {},
        }
        i = i + 1;
    }
    default_shell_locale
}

} // verus!
