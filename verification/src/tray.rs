//! The tray icon's texts and the decisions behind its menu and clicks.

use vstd::prelude::*;

use crate::text::{chars_equal, chars_of, contains, contains_chars, sub_chars, string_from_chars};

verus! {

/// Longest tooltip the shell accepts, in characters.
pub const TOOLTIP_MAX_CHARS: usize = 128;

/// The tooltip shown before the first status update.
pub const TRAY_TOOLTIP_INITIAL: &'static str = "XzualDPI - KapalÄ±";

/// The error when the tray icon cannot be found.
pub const TRAY_NOT_FOUND: &'static str = "Tray icon not found";

/// A tooltip cut to its first `TOOLTIP_MAX_CHARS` characters.
pub fn sanitize_tooltip(tooltip: &str) -> (s: String)
    ensures
        tooltip@.len() <= 128 ==> s@ == tooltip@,
        tooltip@.len() > 128 ==> s@ == tooltip@.take(128),
{
    let cs = chars_of(tooltip);
    let n = if cs.len() > TOOLTIP_MAX_CHARS {
        TOOLTIP_MAX_CHARS
    } else {
        cs.len()
    };
    let kept = sub_chars(&cs, 0, n);
    assert(tooltip@.len() <= 128 ==> kept@ =~= tooltip@);
    string_from_chars(&kept)
}

/// A tooltip that reports a connection (in Turkish or English).
pub open spec fn reports_connected(tooltip: Seq<char>) -> bool {
    contains(tooltip, "Bağlı"@) || contains(tooltip, "Connected"@)
}

/// Whether the tooltip text reports a connection.
pub fn tooltip_reports_connected(tooltip: &str) -> (b: bool)
    ensures
        b == reports_connected(tooltip@),
{
    let cs = chars_of(tooltip);
    contains_chars(&cs, &chars_of("Bağlı")) || contains_chars(&cs, &chars_of("Connected"))
}

/// The label of the connect item: disconnect while connected.
pub fn toggle_label(is_connected: bool) -> (s: &'static str)
    ensures
        is_connected ==> s@ == "Bağlantıyı Kes"@,
        !is_connected ==> s@ == "Bağlan"@,
{
    if is_connected {
        "Bağlantıyı Kes"
    } else {
        "Bağlan"
    }
}

/// The tooltip for a connection state.
pub fn tray_status_text(is_connected: bool) -> (s: &'static str)
    ensures
        is_connected ==> s@ == "XzualDPI - Aktif (Korunuyor)"@,
        !is_connected ==> s@ == "XzualDPI - Devre Dışı"@,
{
    if is_connected {
        "XzualDPI - Aktif (Korunuyor)"
    } else {
        "XzualDPI - Devre Dışı"
    }
}

/// What a tray menu item asks for.
#[derive(PartialEq, Eq, Structural, Debug, Clone, Copy)]
pub enum TrayMenuAction {
    /// `quit`: ask the window to confirm and close, or exit when there is no window.
    Quit,
    /// `show`: bring the window forward.
    Show,
    /// `support`: open the support page.
    Support,
    /// `toggle`: connect or disconnect.
    Toggle,
    /// `mode_sni`, `mode_chunk`, `mode_fake`: switch to bypass mode 0, 1 or 2.
    ChangeMode(u8),
    /// `stats`: bring the window forward on the statistics.
    Stats,
    /// Any other item.
    Nothing,
}

/// The action of the menu item `id`.
pub open spec fn menu_action_of(id: Seq<char>) -> TrayMenuAction {
    if id == "quit"@ {
        TrayMenuAction::Quit
    } else if id == "show"@ {
        TrayMenuAction::Show
    } else if id == "support"@ {
        TrayMenuAction::Support
    } else if id == "toggle"@ {
        TrayMenuAction::Toggle
    } else if id == "mode_sni"@ {
        TrayMenuAction::ChangeMode(0)
    } else if id == "mode_chunk"@ {
        TrayMenuAction::ChangeMode(1)
    } else if id == "mode_fake"@ {
        TrayMenuAction::ChangeMode(2)
    } else if id == "stats"@ {
        TrayMenuAction::Stats
    } else {
        TrayMenuAction::Nothing
    }
}

fn is_id(id: &Vec<char>, name: &str) -> (b: bool)
    ensures
        b == (id@ == name@),
{
    chars_equal(id, &chars_of(name))
}

/// The action of a tray menu item, by its id.
pub fn tray_menu_action(id: &str) -> (a: TrayMenuAction)
    ensures
        a == menu_action_of(id@),
{
    let cs = chars_of(id);
    if is_id(&cs, "quit") {
        TrayMenuAction::Quit
    } else if is_id(&cs, "show") {
        TrayMenuAction::Show
    } else if is_id(&cs, "support") {
        TrayMenuAction::Support
    } else if is_id(&cs, "toggle") {
        TrayMenuAction::Toggle
    } else if is_id(&cs, "mode_sni") {
        TrayMenuAction::ChangeMode(0)
    } else if is_id(&cs, "mode_chunk") {
        TrayMenuAction::ChangeMode(1)
    } else if is_id(&cs, "mode_fake") {
        TrayMenuAction::ChangeMode(2)
    } else if is_id(&cs, "stats") {
        TrayMenuAction::Stats
    } else {
        TrayMenuAction::Nothing
    }
}

/// A left click on the tray icon while `showing` (a click handled less than
/// 300 ms ago): the new flag, and whether to bring the window forward. A
/// click during that time is ignored; the flag is cleared 300 ms after the
/// click that set it.
pub fn tray_left_click(showing: bool) -> (r: (bool, bool))
    ensures
        r == (true, !showing),
{
    if showing {
        (true, false)
    } else {
        (true, true)
    }
}

} // verus!
