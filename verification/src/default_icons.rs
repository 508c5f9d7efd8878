//! The built-in icon table: glyphs for common applications, under lowercase
//! application identifiers. User entries are laid over it.

use crate::icon_table::IconTable;
use vstd::prelude::*;

verus! {

/// The number of built-in entries.
pub const DEFAULT_ICON_COUNT: usize = 67;

/// The built-in entry at index `i`: an application identifier and its glyph.
pub open spec fn default_icon(i: usize) -> (&'static str, &'static str) {
    match i {
        0 => ("alacritty", "п„ "),
        1 => ("atom", "п„Ў"),
        2 => ("banshee", "пҒӢ"),
        3 => ("blender", "пҶІ"),
        4 => ("chromium", "пүЁ"),
        5 => ("com.mitchellh.ghostty", "п„ "),
        6 => ("cura", "пҶІ"),
        7 => ("darktable", "пҖҫ"),
        8 => ("discord", "пҒө"),
        9 => ("eclipse", "п„Ў"),
        10 => ("emacs", "п„Ў"),
        11 => ("eog", "пҖҫ"),
        12 => ("evince", "пҮҒ"),
        13 => ("evolution", "пғ "),
        14 => ("factorio", "пҶ¶"),
        15 => ("feh", "пҖҫ"),
        16 => ("file-roller", "пҒҰ"),
        17 => ("filezilla", "пҲі"),
        18 => ("firefox", "пү©"),
        19 => ("firefox-esr", "пү©"),
        20 => ("foot", "п„ "),
        21 => ("gimp", "пҖҫ"),
        22 => ("gimp-2.8", "пҖҫ"),
        23 => ("gnome-control-center", "пҲ…"),
        24 => ("gnome-terminal-server", "п„ "),
        25 => ("google-chrome", "пүЁ"),
        26 => ("google-chrome", "пүЁ"),
        27 => ("gpick", "пҮ»"),
        28 => ("imv", "пҖҫ"),
        29 => ("insomnia", "пӮ¬"),
        30 => ("java", "п„Ў"),
        31 => ("jetbrains-idea", "п„Ў"),
        32 => ("jetbrains-studio", "п„Ў"),
        33 => ("keepassxc", "пӮ„"),
        34 => ("keybase", "пӮ„"),
        35 => ("kicad", "пӢӣ"),
        36 => ("kitty", "п„ "),
        37 => ("libreoffice", "п…ң"),
        38 => ("lua5.1", "пҶҶ"),
        39 => ("mpv", "пү¬"),
        40 => ("mupdf", "пҮҒ"),
        41 => ("mysql-workbench-bin", "пҮҖ"),
        42 => ("nautilus", "пғ…"),
        43 => ("nemo", "пғ…"),
        44 => ("openscad", "пҶІ"),
        45 => ("pavucontrol", "пҖЁ"),
        46 => ("postman", "пҶ—"),
        47 => ("prusa-slicer", "пҶІ"),
        48 => ("rhythmbox", "пҒӢ"),
        49 => ("robo3t", "пҮҖ"),
        50 => ("signal", "пҒө"),
        51 => ("slack", "пҶҳ"),
        52 => ("slic3r.pl", "пҶІ"),
        53 => ("spotify", "пҖҒ"),
        54 => ("steam", "пҶ¶"),
        55 => ("subl", "п…ң"),
        56 => ("subl3", "п…ң"),
        57 => ("sublime_text", "п…ң"),
        58 => ("thunar", "пғ…"),
        59 => ("thunderbird", "пғ "),
        60 => ("totem", "пҒӢ"),
        61 => ("urxvt", "п„ "),
        62 => ("xfce4-terminal", "п„ "),
        63 => ("xournal", "п…ң"),
        64 => ("yelp", "п„Ў"),
        65 => ("zenity", "пӢҗ"),
        _ => ("zoom", "пҒө"),
    }
}

/// The map that the first `n` built-in entries stand for; a later entry
/// takes the place of an earlier one with the same identifier.
pub open spec fn default_icons_up_to(n: nat) -> Map<Seq<char>, Seq<char>>
    decreases n,
{
    if n == 0 {
        Map::empty()
    } else {
        let entry = default_icon((n - 1) as usize);
        default_icons_up_to((n - 1) as nat).insert(entry.0@, entry.1@)
    }
}

/// The built-in icon table as a map.
pub open spec fn default_icon_map() -> Map<Seq<char>, Seq<char>> {
    default_icons_up_to(DEFAULT_ICON_COUNT as nat)
}

/// The built-in entry at index `i`.
fn default_icon_entry(i: usize) -> (entry: (&'static str, &'static str))
    requires
        i < DEFAULT_ICON_COUNT,
    ensures
        entry == default_icon(i),
{
    match i {
        0 => ("alacritty", "п„ "),
        1 => ("atom", "п„Ў"),
        2 => ("banshee", "пҒӢ"),
        3 => ("blender", "пҶІ"),
        4 => ("chromium", "пүЁ"),
        5 => ("com.mitchellh.ghostty", "п„ "),
        6 => ("cura", "пҶІ"),
        7 => ("darktable", "пҖҫ"),
        8 => ("discord", "пҒө"),
        9 => ("eclipse", "п„Ў"),
        10 => ("emacs", "п„Ў"),
        11 => ("eog", "пҖҫ"),
        12 => ("evince", "пҮҒ"),
        13 => ("evolution", "пғ "),
        14 => ("factorio", "пҶ¶"),
        15 => ("feh", "пҖҫ"),
        16 => ("file-roller", "пҒҰ"),
        17 => ("filezilla", "пҲі"),
        18 => ("firefox", "пү©"),
        19 => ("firefox-esr", "пү©"),
        20 => ("foot", "п„ "),
        21 => ("gimp", "пҖҫ"),
        22 => ("gimp-2.8", "пҖҫ"),
        23 => ("gnome-control-center", "пҲ…"),
        24 => ("gnome-terminal-server", "п„ "),
        25 => ("google-chrome", "пүЁ"),
        26 => ("google-chrome", "пүЁ"),
        27 => ("gpick", "пҮ»"),
        28 => ("imv", "пҖҫ"),
        29 => ("insomnia", "пӮ¬"),
        30 => ("java", "п„Ў"),
        31 => ("jetbrains-idea", "п„Ў"),
        32 => ("jetbrains-studio", "п„Ў"),
        33 => ("keepassxc", "пӮ„"),
        34 => ("keybase", "пӮ„"),
        35 => ("kicad", "пӢӣ"),
        36 => ("kitty", "п„ "),
        37 => ("libreoffice", "п…ң"),
        38 => ("lua5.1", "пҶҶ"),
        39 => ("mpv", "пү¬"),
        40 => ("mupdf", "пҮҒ"),
        41 => ("mysql-workbench-bin", "пҮҖ"),
        42 => ("nautilus", "пғ…"),
        43 => ("nemo", "пғ…"),
        44 => ("openscad", "пҶІ"),
        45 => ("pavucontrol", "пҖЁ"),
        46 => ("postman", "пҶ—"),
        47 => ("prusa-slicer", "пҶІ"),
        48 => ("rhythmbox", "пҒӢ"),
        49 => ("robo3t", "пҮҖ"),
        50 => ("signal", "пҒө"),
        51 => ("slack", "пҶҳ"),
        52 => ("slic3r.pl", "пҶІ"),
        53 => ("spotify", "пҖҒ"),
        54 => ("steam", "пҶ¶"),
        55 => ("subl", "п…ң"),
        56 => ("subl3", "п…ң"),
        57 => ("sublime_text", "п…ң"),
        58 => ("thunar", "пғ…"),
        59 => ("thunderbird", "пғ "),
        60 => ("totem", "пҒӢ"),
        61 => ("urxvt", "п„ "),
        62 => ("xfce4-terminal", "п„ "),
        63 => ("xournal", "п…ң"),
        64 => ("yelp", "п„Ў"),
        65 => ("zenity", "пӢҗ"),
        _ => ("zoom", "пҒө"),
    }
}

/// The built-in entries, in the order in which they are laid into the table.
pub fn default_icons() -> (entries: Vec<(&'static str, &'static str)>)
    ensures
        entries.len() == DEFAULT_ICON_COUNT,
        forall|i: usize| i < DEFAULT_ICON_COUNT ==> entries[i as int] == default_icon(i),
{
    let mut entries: Vec<(&'static str, &'static str)> = Vec::with_capacity(DEFAULT_ICON_COUNT);
    let mut i: usize = 0;
    while i < DEFAULT_ICON_COUNT
        invariant
            i <= DEFAULT_ICON_COUNT,
            entries.len() == i,
            forall|j: usize| j < i ==> entries[j as int] == default_icon(j),
        decreases DEFAULT_ICON_COUNT - i,
    {
        entries.push(default_icon_entry(i));
        i = i + 1;
    }
    entries
}

/// The built-in icon table.
pub fn default_icon_table() -> (table: IconTable)
    ensures
        table@ == default_icon_map(),
{
    let mut table = IconTable::new();
    let mut i: usize = 0;
    while i < DEFAULT_ICON_COUNT
        invariant
            i <= DEFAULT_ICON_COUNT,
            table@ == default_icons_up_to(i as nat),
        decreases DEFAULT_ICON_COUNT - i,
    {
        let entry = default_icon_entry(i);
        table.insert(entry.0.to_owned(), entry.1.to_owned());
        i = i + 1;
    }
    table
}

} // verus!
