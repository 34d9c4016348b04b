//! The catalog entries and the per-job options, with their mathematical
//! views.

use vstd::prelude::*;

verus! {

/// One row of the filter catalog.
#[derive(Debug, Clone)]
pub struct VideoFilter {
    pub short_name: String,
    pub long_name: String,
    pub priority: i8,
    pub code: String,
}

/// What a `VideoFilter` holds, as plain values.
pub struct FilterEntry {
    pub short_name: Seq<char>,
    pub long_name: Seq<char>,
    pub priority: int,
    pub code: Seq<char>,
}

impl View for VideoFilter {
    type V = FilterEntry;

    open spec fn view(&self) -> FilterEntry {
        FilterEntry {
            short_name: self.short_name@,
            long_name: self.long_name@,
            priority: self.priority as int,
            code: self.code@,
        }
    }
}

/// One row of the modifier catalog. `code` is a command fragment in which
/// `#1` stands for the value given with the modifier.
#[derive(Debug, Clone)]
pub struct VideoModifier {
    pub short_name: String,
    pub long_name: String,
    pub code: String,
}

/// What a `VideoModifier` holds, as plain values.
pub struct ModifierEntry {
    pub short_name: Seq<char>,
    pub long_name: Seq<char>,
    pub code: Seq<char>,
}

impl View for VideoModifier {
    type V = ModifierEntry;

    open spec fn view(&self) -> ModifierEntry {
        ModifierEntry {
            short_name: self.short_name@,
            long_name: self.long_name@,
            code: self.code@,
        }
    }
}

/// What one job is asked to do.
#[derive(Debug, Clone)]
pub struct VideoOptions {
    pub filters: Vec<String>,
    pub modifiers: Vec<(String, String)>,
    pub quality: u8,
    pub codec: String,
    pub preset: String,
    pub hwaccel: String,
    pub tag_original: bool,
    pub stabilize: bool,
}

/// What a `VideoOptions` holds, as plain values. A selected modifier is a
/// pair of short name and value.
pub struct ProcessingOptions {
    pub filters: Seq<Seq<char>>,
    pub modifiers: Seq<(Seq<char>, Seq<char>)>,
    pub quality: nat,
    pub codec: Seq<char>,
    pub preset: Seq<char>,
    pub hwaccel: Seq<char>,
    pub tag_original: bool,
    pub stabilize: bool,
}

/// The selected modifiers as pairs of plain values.
pub open spec fn selected_pairs(modifiers: Seq<(String, String)>) -> Seq<(Seq<char>, Seq<char>)> {
    Seq::new(modifiers.len(), |i: int| (modifiers[i].0@, modifiers[i].1@))
}

impl View for VideoOptions {
    type V = ProcessingOptions;

    open spec fn view(&self) -> ProcessingOptions {
        ProcessingOptions {
            filters: self.filters.deep_view(),
            modifiers: selected_pairs(self.modifiers@),
            quality: self.quality as nat,
            codec: self.codec@,
            preset: self.preset@,
            hwaccel: self.hwaccel@,
            tag_original: self.tag_original,
            stabilize: self.stabilize,
        }
    }
}

/// What a finished job reports. The time taken is held in milliseconds.
#[derive(Debug, Clone)]
pub struct ProcessingStats {
    pub duration_millis: u64,
    pub original_size: u64,
    pub new_size: u64,
    pub output_path: String,
}

/// The filter catalog as a sequence of plain entries.
pub open spec fn filter_entries(catalog: Seq<VideoFilter>) -> Seq<FilterEntry> {
    Seq::new(catalog.len(), |i: int| catalog[i]@)
}

/// The modifier catalog as a sequence of plain entries.
pub open spec fn modifier_entries(catalog: Seq<VideoModifier>) -> Seq<ModifierEntry> {
    Seq::new(catalog.len(), |i: int| catalog[i]@)
}

} // verus!
