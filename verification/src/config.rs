//! The configuration: what the user supplies, and the effective icon table
//! and format templates that are made of it and of the built-in defaults.

use crate::default_icons::{default_icon_map, default_icon_table};
use crate::icon_table::IconTable;
use crate::template::{contains_placeholder, has_placeholder, placeholder};
use vstd::prelude::*;

verus! {

/// The built-in template for windows that are neither focused nor urgent.
pub const DEFAULT_FORMAT: &'static str = "{icon}";

/// The built-in template for the focused window.
pub const DEFAULT_FOCUSED_FORMAT: &'static str = "{icon}";

/// The built-in template for urgent windows.
pub const DEFAULT_URGENT_FORMAT: &'static str = "{icon}";

/// One of the three format templates.
#[derive(Debug, Clone, Copy, PartialEq, Eq, Structural)]
pub enum FormatSlot {
    Focused,
    Urgent,
    Default,
}

/// The format templates as the user supplies them; each may be left out.
#[derive(Debug, Clone)]
pub struct UserWindowIconFormats {
    pub focused: Option<String>,
    pub urgent: Option<String>,
    pub default: Option<String>,
}

/// The configuration as the user supplies it; every part may be left out.
#[derive(Debug, Clone)]
pub struct UserConfig {
    /// Glyphs for application identifiers, laid over the built-in ones.
    pub window_icons: Option<IconTable>,
    /// The glyph for windows whose application has none.
    pub window_icon_default: Option<String>,
    pub window_icon_formats: Option<UserWindowIconFormats>,
}

/// The effective format templates.
#[derive(Debug, Clone)]
pub struct WindowIconFormats {
    pub focused: String,
    pub urgent: String,
    pub default: String,
}

/// The effective configuration.
#[derive(Debug, Clone)]
pub struct Config {
    /// The glyph for windows whose application has none in the table.
    pub window_icon_default: String,
    pub window_icon_formats: WindowIconFormats,
    /// The built-in glyphs with the user's laid over them.
    pub window_icons: IconTable,
}

/// The effective template: the user's where there is one, taken as it is,
/// else the bare placeholder token.
pub open spec fn effective_template(supplied: Option<String>) -> Seq<char> {
    match supplied {
        Some(template) => template@,
        None => placeholder(),
    }
}

/// A template was supplied and does not hold the placeholder token.
pub open spec fn lacks_placeholder(supplied: Option<String>) -> bool {
    match supplied {
        Some(template) => !has_placeholder(template@),
        None => false,
    }
}

/// `slot` alone where `lacking` holds, else nothing.
pub open spec fn slot_if(lacking: bool, slot: FormatSlot) -> Seq<FormatSlot> {
    if lacking {
        seq![slot]
    } else {
        Seq::empty()
    }
}

/// The templates that were supplied without the placeholder token, in the
/// order focused, urgent, default.
pub open spec fn slots_lacking_placeholder(formats: UserWindowIconFormats) -> Seq<FormatSlot> {
    slot_if(lacks_placeholder(formats.focused), FormatSlot::Focused) + slot_if(
        lacks_placeholder(formats.urgent),
        FormatSlot::Urgent,
    ) + slot_if(lacks_placeholder(formats.default), FormatSlot::Default)
}

/// The glyphs that the user supplies, as a map; empty where none are given.
pub open spec fn user_icon_map(uc: UserConfig) -> Map<Seq<char>, Seq<char>> {
    match uc.window_icons {
        Some(table) => table@,
        None => Map::empty(),
    }
}

/// The default glyph that the user supplies; empty where none is given.
pub open spec fn user_default_icon(uc: UserConfig) -> Seq<char> {
    match uc.window_icon_default {
        Some(glyph) => glyph@,
        None => Seq::empty(),
    }
}

/// The template that the user supplies for `slot`, if any.
pub open spec fn user_template(uc: UserConfig, slot: FormatSlot) -> Option<String> {
    match uc.window_icon_formats {
        Some(formats) => match slot {
            FormatSlot::Focused => formats.focused,
            FormatSlot::Urgent => formats.urgent,
            FormatSlot::Default => formats.default,
        },
        None => None,
    }
}

/// The built-in template, which is the bare placeholder token.
fn built_in_template(slot: FormatSlot) -> (template: String)
    ensures
        template@ == placeholder(),
{
    proof {
        reveal_strlit("{icon}");
    }
    let text = match slot {
        FormatSlot::Focused => DEFAULT_FOCUSED_FORMAT,
        FormatSlot::Urgent => DEFAULT_URGENT_FORMAT,
        FormatSlot::Default => DEFAULT_FORMAT,
    };
    assert(text@ =~= placeholder());
    text.to_owned()
}

/// The user's template where there is one, else the built-in one.
fn template_or_built_in(supplied: &Option<String>, slot: FormatSlot) -> (template: String)
    ensures
        template@ == effective_template(*supplied),
{
    match supplied {
        Some(template) => template.clone(),
        None => built_in_template(slot),
    }
}

/// Tells whether a template was supplied without the placeholder token.
fn supplied_without_placeholder(supplied: &Option<String>) -> (b: bool)
    ensures
        b == lacks_placeholder(*supplied),
{
    match supplied {
        Some(template) => !contains_placeholder(template.as_str()),
        None => false,
    }
}

impl FormatSlot {
    /// The name of the slot in the configuration.
    pub fn name(&self) -> (name: &'static str)
        ensures
            name@ == match *self {
                FormatSlot::Focused => "focused"@,
                FormatSlot::Urgent => "urgent"@,
                FormatSlot::Default => "default"@,
            },
    {
        match self {
            FormatSlot::Focused => "focused",
            FormatSlot::Urgent => "urgent",
            FormatSlot::Default => "default",
        }
    }
}

impl UserWindowIconFormats {
    /// The supplied templates that do not hold the placeholder token. Each is
    /// worth a warning and is still used as it stands.
    pub fn missing_placeholder(&self) -> (slots: Vec<FormatSlot>)
        ensures
            slots@ == slots_lacking_placeholder(*self),
    {
        let mut slots: Vec<FormatSlot> = Vec::new();
        if supplied_without_placeholder(&self.focused) {
            slots.push(FormatSlot::Focused);
        }
        if supplied_without_placeholder(&self.urgent) {
            slots.push(FormatSlot::Urgent);
        }
        if supplied_without_placeholder(&self.default) {
            slots.push(FormatSlot::Default);
        }
        assert(slots@ =~= slots_lacking_placeholder(*self));
        slots
    }
}

impl WindowIconFormats {
    /// The effective templates: each of the user's where it is supplied,
    /// with or without the placeholder token, else the built-in one.
    pub fn from_user(user_formats: &UserWindowIconFormats) -> (formats: Self)
        ensures
            formats.focused@ == effective_template(user_formats.focused),
            formats.urgent@ == effective_template(user_formats.urgent),
            formats.default@ == effective_template(user_formats.default),
    {
        WindowIconFormats {
            focused: template_or_built_in(&user_formats.focused, FormatSlot::Focused),
            urgent: template_or_built_in(&user_formats.urgent, FormatSlot::Urgent),
            default: template_or_built_in(&user_formats.default, FormatSlot::Default),
        }
    }

    /// The built-in templates.
    pub fn built_in() -> (formats: Self)
        ensures
            formats.focused@ == placeholder(),
            formats.urgent@ == placeholder(),
            formats.default@ == placeholder(),
    {
        WindowIconFormats {
            focused: built_in_template(FormatSlot::Focused),
            urgent: built_in_template(FormatSlot::Urgent),
            default: built_in_template(FormatSlot::Default),
        }
    }
}

impl Config {
    /// The effective configuration: the built-in glyphs with the user's laid
    /// over them, key by key in the casing given; the user's default glyph,
    /// or none; and the effective templates.
    pub fn from_user(uc: &UserConfig) -> (config: Self)
        ensures
            config.window_icons@ == default_icon_map().union_prefer_right(user_icon_map(*uc)),
            config.window_icon_default@ == user_default_icon(*uc),
            config.window_icon_formats.focused@ == effective_template(
                user_template(*uc, FormatSlot::Focused),
            ),
            config.window_icon_formats.urgent@ == effective_template(
                user_template(*uc, FormatSlot::Urgent),
            ),
            config.window_icon_formats.default@ == effective_template(
                user_template(*uc, FormatSlot::Default),
            ),
    {
        let mut window_icons = default_icon_table();
        match &uc.window_icons {
            Some(user_icons) => {
                window_icons.extend(user_icons);
            },
            None => {
                assert(default_icon_map().union_prefer_right(Map::empty()) =~= default_icon_map());
            },
        }
        let window_icon_default = match &uc.window_icon_default {
            Some(glyph) => glyph.clone(),
            None => String::new(),
        };
        let window_icon_formats = match &uc.window_icon_formats {
            Some(formats) => WindowIconFormats::from_user(formats),
            None => WindowIconFormats::built_in(),
        };
        Config { window_icon_default, window_icon_formats, window_icons }
    }
}

/// Of the effective icon table: it holds a key exactly where the built-in
/// table or the user holds it; the user's glyph stands wherever the user
/// gives one; and every other built-in glyph stands as it is.
pub proof fn lemma_user_icons_override_built_in(
    user: Map<Seq<char>, Seq<char>>,
    key: Seq<char>,
)
    ensures
        default_icon_map().union_prefer_right(user).contains_key(key) <==> (
        default_icon_map().contains_key(key) || user.contains_key(key)),
        user.contains_key(key) ==> default_icon_map().union_prefer_right(user)[key] == user[key],
        !user.contains_key(key) && default_icon_map().contains_key(key)
            ==> default_icon_map().union_prefer_right(user)[key] == default_icon_map()[key],
{
}

} // verus!
