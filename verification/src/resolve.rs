//! Icon resolution and formatting: from a window's application identifier
//! to the glyph shown for it, and from the glyph to its formatted form.

use crate::config::{Config, WindowIconFormats};
use crate::model::Window;
use crate::template::{fill_template, has_placeholder, substitute};
use vstd::prelude::*;

verus! {

/// The lowercase form of a text, as `str::to_lowercase` gives it.
pub uninterp spec fn lowercase(text: Seq<char>) -> Seq<char>;

/// Calls `str::to_lowercase`. The contract gives the result its name and
/// claims nothing else of it: the lowercase form of a text depends on the
/// text alone.
#[verifier::external_body]
fn to_lowercase(text: &str) -> (lowered: String)
    ensures
        lowered@ == lowercase(text@),
{
    text.to_lowercase()
}

/// Where the glyph for a window comes from.
#[derive(Debug, Clone, Copy, PartialEq, Eq, Structural)]
pub enum IconSource {
    /// The table holds the lowercase form of the window's identifier.
    Table,
    /// The window has no application identifier: it gets the default glyph.
    NoAppId,
    /// The table does not hold the lowercase form of the window's
    /// identifier: it gets the default glyph.
    Unmapped,
}

/// The text of an optional string.
pub open spec fn text_of(value: Option<String>) -> Option<Seq<char>> {
    match value {
        Some(text) => Some(text@),
        None => None,
    }
}

/// The glyph that the table keeps under `key`, or the default glyph where
/// the table does not hold `key`.
pub open spec fn glyph_for_key(cfg: Config, key: Seq<char>) -> Seq<char> {
    if cfg.window_icons@.contains_key(key) {
        cfg.window_icons@[key]
    } else {
        cfg.window_icon_default@
    }
}

/// The glyph for an application identifier: the default glyph where the
/// window has no identifier, else the glyph for the identifier's lowercase
/// form.
pub open spec fn raw_icon(cfg: Config, app_id: Option<Seq<char>>) -> Seq<char> {
    match app_id {
        None => cfg.window_icon_default@,
        Some(id) => glyph_for_key(cfg, lowercase(id)),
    }
}

/// Where the glyph for an application identifier comes from.
pub open spec fn icon_source(cfg: Config, app_id: Option<Seq<char>>) -> IconSource {
    match app_id {
        None => IconSource::NoAppId,
        Some(id) => if cfg.window_icons@.contains_key(lowercase(id)) {
            IconSource::Table
        } else {
            IconSource::Unmapped
        },
    }
}

/// The template for a window's state: the urgent one for an urgent window,
/// focused or not; else the focused one for a focused window; else the
/// default one.
pub open spec fn selected_template(
    formats: WindowIconFormats,
    is_focused: bool,
    is_urgent: bool,
) -> Seq<char> {
    if is_urgent {
        formats.urgent@
    } else if is_focused {
        formats.focused@
    } else {
        formats.default@
    }
}

/// The formatted glyph: the template for the window's state with the glyph
/// in the place of its first placeholder token.
pub open spec fn formatted_icon(
    cfg: Config,
    icon: Seq<char>,
    is_focused: bool,
    is_urgent: bool,
) -> Seq<char> {
    substitute(selected_template(cfg.window_icon_formats, is_focused, is_urgent), icon)
}

/// What is shown for a window: the formatted form of its glyph.
pub open spec fn window_icon(cfg: Config, window: Window) -> Seq<char> {
    formatted_icon(cfg, raw_icon(cfg, text_of(window.app_id)), window.is_focused, window.is_urgent)
}

impl Config {
    /// The glyph kept under `key`, which is looked up as it stands, or the
    /// default glyph where the table does not hold `key`.
    pub fn icon_for_key(&self, key: &str) -> (glyph: String)
        ensures
            glyph@ == glyph_for_key(*self, key@),
    {
        match self.window_icons.get(key) {
            Some(glyph) => glyph.clone(),
            None => self.window_icon_default.clone(),
        }
    }
}

/// The glyph for a window, by its application identifier without regard to
/// casing. A window without an identifier, or with one that the table does
/// not hold, gets the default glyph.
pub fn get_raw_icon(cfg: &Config, window: &Window) -> (icon: String)
    ensures
        icon@ == raw_icon(*cfg, text_of(window.app_id)),
        window.app_id is None ==> icon@ == cfg.window_icon_default@,
        window.app_id matches Some(id) ==> icon@ == (if cfg.window_icons@.contains_key(
            lowercase(id@),
        ) {
            cfg.window_icons@[lowercase(id@)]
        } else {
            cfg.window_icon_default@
        }),
{
    match &window.app_id {
        None => cfg.window_icon_default.clone(),
        Some(app_id) => {
            let lowered = to_lowercase(app_id.as_str());
            cfg.icon_for_key(lowered.as_str())
        },
    }
}

/// Where the glyph for a window comes from. A window that gets the default
/// glyph is worth a warning and no more.
pub fn icon_source_of(cfg: &Config, window: &Window) -> (source: IconSource)
    ensures
        source == icon_source(*cfg, text_of(window.app_id)),
        source is Table <==> window.app_id is Some && cfg.window_icons@.contains_key(
            lowercase(window.app_id->0@),
        ),
{
    match &window.app_id {
        None => IconSource::NoAppId,
        Some(app_id) => {
            let lowered = to_lowercase(app_id.as_str());
            if cfg.window_icons.contains_key(lowered.as_str()) {
                IconSource::Table
            } else {
                IconSource::Unmapped
            }
        },
    }
}

/// The formatted glyph for a window in the given state. The urgent template
/// goes before the focused one, and that before the default one; a template
/// without the placeholder token comes back as it is.
pub fn format_icon(cfg: &Config, icon: &str, is_focused: bool, is_urgent: bool) -> (formatted:
    String)
    ensures
        formatted@ == formatted_icon(*cfg, icon@, is_focused, is_urgent),
        is_urgent ==> formatted@ == substitute(cfg.window_icon_formats.urgent@, icon@),
        !is_urgent && is_focused ==> formatted@ == substitute(
            cfg.window_icon_formats.focused@,
            icon@,
        ),
        !is_urgent && !is_focused ==> formatted@ == substitute(
            cfg.window_icon_formats.default@,
            icon@,
        ),
        !has_placeholder(selected_template(cfg.window_icon_formats, is_focused, is_urgent))
            ==> formatted@ == selected_template(cfg.window_icon_formats, is_focused, is_urgent),
{
    let template = if is_urgent {
        &cfg.window_icon_formats.urgent
    } else if is_focused {
        &cfg.window_icon_formats.focused
    } else {
        &cfg.window_icon_formats.default
    };
    fill_template(template.as_str(), icon)
}

/// Two application identifiers with the same lowercase form resolve to the
/// same glyph, and where the table holds that lowercase form, to the glyph
/// that the table keeps under it.
pub proof fn lemma_resolution_ignores_casing(cfg: Config, first: Seq<char>, second: Seq<char>)
    requires
        lowercase(first) == lowercase(second),
    ensures
        raw_icon(cfg, Some(first)) == raw_icon(cfg, Some(second)),
        cfg.window_icons@.contains_key(lowercase(first)) ==> raw_icon(cfg, Some(second))
            == cfg.window_icons@[lowercase(first)],
{
}

} // verus!
