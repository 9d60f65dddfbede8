//! Size presets and the tray menu: which lines the presets menu holds, how
//! a preset is labelled and identified in it, and what a chosen menu item
//! asks for.

use crate::text::{chars_of, decimal, decimal_of, has_prefix, same_text};
use vstd::prelude::*;
use vstd::string::StringExecFns;

verus! {

/// A named window size that the user has stored.
#[derive(Debug, Clone, PartialEq, Eq)]
pub struct Preset {
    pub name: String,
    pub width: i32,
    pub height: i32,
}

/// What the choice of a menu item asks for.
#[derive(Debug, Clone, Copy, PartialEq, Eq)]
pub enum MenuAction {
    /// End the application.
    Quit,
    /// Show the main window and give it the focus.
    ShowWindow,
    /// Pass the item's identifier on to the front end, which applies the
    /// preset that it names.
    ApplyPreset,
    /// Nothing: the item is none of this module's.
    Ignore,
}

/// The lower-case form that `str::to_lowercase` gives a text, by the rules
/// of Unicode.
pub uninterp spec fn lowercased(text: Seq<char>) -> Seq<char>;

/// Puts a text in lower case with `str::to_lowercase`. The result depends on
/// the text alone; it is named [`lowercased`] and nothing more is claimed of
/// it.
#[verifier::external_body]
pub(crate) fn to_lowercase(text: &str) -> (lower: String)
    ensures
        lower@ == lowercased(text@),
{
    text.to_lowercase()
}

/// The text with an underscore in place of every space.
pub open spec fn underscored(text: Seq<char>) -> Seq<char> {
    text.map_values(
        |c: char|
            if c == ' ' {
                '_'
            } else {
                c
            },
    )
}

/// The label of a preset in the menu: its name, then its size in parentheses.
pub open spec fn label_of(name: Seq<char>, width: int, height: int) -> Seq<char> {
    name + " ("@ + decimal_of(width) + "\u{d7}"@ + decimal_of(height) + ")"@
}

/// The menu identifier that belongs to a preset name already in lower case.
pub open spec fn menu_id_of(lower_name: Seq<char>) -> Seq<char> {
    "custom_preset_"@ + underscored(lower_name)
}

/// What the choice of the menu item `id` asks for. The items that end the
/// application and show the window are known by their identifiers; every
/// identifier that begins like a preset's is a preset.
pub open spec fn action_of(id: Seq<char>) -> MenuAction {
    if id == "quit"@ || id == "quit_tray"@ {
        MenuAction::Quit
    } else if id == "show_window"@ {
        MenuAction::ShowWindow
    } else if "preset_"@.is_prefix_of(id) || "custom_preset_"@.is_prefix_of(id) {
        MenuAction::ApplyPreset
    } else {
        MenuAction::Ignore
    }
}

/// Writes the menu identifier for a preset name that is already in lower
/// case: a fixed prefix, then the name with its spaces replaced.
pub fn menu_id_from(lower_name: &str) -> (id: String)
    ensures
        id@ == menu_id_of(lower_name@),
{
    let chars = chars_of(lower_name);
    let mut id = String::from_str("custom_preset_");
    let mut i: usize = 0;
    while i < chars.len()
        invariant
            i <= chars.len(),
            chars@ == lower_name@,
            id@ == "custom_preset_"@ + underscored(lower_name@.take(i as int)),
        decreases chars.len() - i,
    {
        let c = chars[i];
        if c == ' ' {
            id.push('_');
        } else {
            id.push(c);
        }
        i = i + 1;
    }
    id
}

/// Decides what the choice of the menu item `id` asks for.
pub fn menu_action(id: &str) -> (action: MenuAction)
    ensures
        action == action_of(id@),
{
    if same_text(id, "quit") || same_text(id, "quit_tray") {
        MenuAction::Quit
    } else if same_text(id, "show_window") {
        MenuAction::ShowWindow
    } else if has_prefix(id, "preset_") || has_prefix(id, "custom_preset_") {
        MenuAction::ApplyPreset
    } else {
        MenuAction::Ignore
    }
}

/// One line of the presets menu.
#[derive(Debug, Clone, PartialEq, Eq)]
pub enum PresetEntry {
    /// A menu item with its identifier and its label.
    Item { id: String, label: String },
    /// The line that parts the stored presets from the built-in ones.
    Separator,
}

/// A line of the presets menu as the contracts speak of it.
pub enum EntryView {
    Item { id: Seq<char>, label: Seq<char> },
    Separator,
}

impl View for PresetEntry {
    type V = EntryView;

    open spec fn view(&self) -> EntryView {
        match *self {
            PresetEntry::Item { id, label } => EntryView::Item { id: id@, label: label@ },
            PresetEntry::Separator => EntryView::Separator,
        }
    }
}

/// The views of a sequence of menu lines.
pub open spec fn entry_views(entries: Seq<PresetEntry>) -> Seq<EntryView> {
    entries.map_values(|entry: PresetEntry| entry@)
}

/// The five presets that every menu offers, in their order.
pub open spec fn built_in_entries() -> Seq<EntryView> {
    seq![
        EntryView::Item { id: "preset_iphone_se"@, label: "iPhone SE (375\u{d7}667)"@ },
        EntryView::Item { id: "preset_iphone_14"@, label: "iPhone 14 (390\u{d7}844)"@ },
        EntryView::Item { id: "preset_ipad"@, label: "iPad (768\u{d7}1024)"@ },
        EntryView::Item { id: "preset_hd"@, label: "HD (1280\u{d7}720)"@ },
        EntryView::Item { id: "preset_fhd"@, label: "FHD (1920\u{d7}1080)"@ },
    ]
}

/// The menu line of a stored preset.
pub open spec fn stored_entry(preset: Preset) -> EntryView {
    EntryView::Item {
        id: menu_id_of(lowercased(preset.name@)),
        label: label_of(preset.name@, preset.width as int, preset.height as int),
    }
}

/// [`stored_entry`] as a function value.
pub open spec fn storing() -> spec_fn(Preset) -> EntryView {
    |preset: Preset| stored_entry(preset)
}

/// The lines of the presets menu: the built-in presets; then, only if any
/// preset is stored, a separator and the stored presets in their order.
pub open spec fn entries_of(stored: Seq<Preset>) -> Seq<EntryView> {
    if stored.len() == 0 {
        built_in_entries()
    } else {
        built_in_entries() + seq![EntryView::Separator] + stored.map_values(storing())
    }
}

/// Makes a menu item.
fn item(id: &str, label: &str) -> (entry: PresetEntry)
    ensures
        entry@ == (EntryView::Item { id: id@, label: label@ }),
{
    PresetEntry::Item { id: String::from_str(id), label: String::from_str(label) }
}

/// Lays out the presets menu: the five built-in presets; then, only if any
/// preset is stored, a separator and one item for each stored preset, in the
/// order in which they are stored.
pub fn preset_entries(stored: &Vec<Preset>) -> (entries: Vec<PresetEntry>)
    ensures
        entry_views(entries@) == entries_of(stored@),
{
    let mut entries: Vec<PresetEntry> = Vec::new();
    entries.push(item("preset_iphone_se", "iPhone SE (375\u{d7}667)"));
    entries.push(item("preset_iphone_14", "iPhone 14 (390\u{d7}844)"));
    entries.push(item("preset_ipad", "iPad (768\u{d7}1024)"));
    entries.push(item("preset_hd", "HD (1280\u{d7}720)"));
    entries.push(item("preset_fhd", "FHD (1920\u{d7}1080)"));
    assert(entry_views(entries@) =~= built_in_entries());
    if stored.len() == 0 {
        return entries;
    }
    entries.push(PresetEntry::Separator);
    let ghost head = built_in_entries() + seq![EntryView::Separator];
    assert(entry_views(entries@) =~= head);
    let mut i: usize = 0;
    while i < stored.len()
        invariant
            i <= stored.len(),
            head == built_in_entries() + seq![EntryView::Separator],
            entry_views(entries@) =~= head + stored@.take(i as int).map_values(storing()),
        decreases stored.len() - i,
    {
        let entry = PresetEntry::Item { id: stored[i].menu_id(), label: stored[i].label() };
        proof {
            let sooner = stored@.take(i as int);
            assert(entry@ == stored_entry(stored@[i as int]));
            assert(stored@.take(i as int + 1) == sooner.push(stored@[i as int]));
            sooner.lemma_push_map_commute(storing(), stored@[i as int]);
            entries@.lemma_push_map_commute(|entry: PresetEntry| entry@, entry);
        }
        entries.push(entry);
        i = i + 1;
    }
    assert(stored@.take(stored@.len() as int) == stored@);
    entries
}

impl Preset {
    /// Writes the label of the preset in the menu.
    pub fn label(&self) -> (label: String)
        ensures
            label@ == label_of(self.name@, self.width as int, self.height as int),
    {
        let mut label = self.name.clone();
        label.append(" (");
        label.append(decimal(self.width).as_str());
        label.append("\u{d7}");
        label.append(decimal(self.height).as_str());
        label.append(")");
        label
    }

    /// Writes the identifier of the preset's menu item: a fixed prefix, then
    /// the name in lower case with its spaces replaced.
    pub fn menu_id(&self) -> (id: String)
        ensures
            id@ == menu_id_of(lowercased(self.name@)),
    {
        let lower = to_lowercase(self.name.as_str());
        menu_id_from(lower.as_str())
    }
}

} // verus!
