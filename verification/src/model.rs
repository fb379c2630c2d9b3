//! The persisted records of the application: articles and user settings.

use vstd::prelude::*;
use vstd::string::*;

verus! {

/// A stored reading article.
#[derive(Debug, PartialEq, Eq)]
pub struct Article {
    /// Unique key of the article in the article store.
    pub id: String,
    pub title: String,
    pub content: String,
    /// Creation time, in seconds since the Unix epoch.
    pub created_at: i64,
    pub word_count: usize,
    pub reading_time_minutes: u32,
}

impl Clone for Article {
    fn clone(&self) -> (r: Self)
        ensures
            r == *self,
    {
        Article {
            id: self.id.clone(),
            title: self.title.clone(),
            content: self.content.clone(),
            created_at: self.created_at,
            word_count: self.word_count,
            reading_time_minutes: self.reading_time_minutes,
        }
    }
}

/// Stored user interface settings.
///
/// The font size is a 32-bit float chosen with a slider; the library never
/// computes with it and carries it as its IEEE 754 bit pattern, which the
/// application converts with `f32::to_bits` and `f32::from_bits`.
#[derive(Debug, PartialEq, Eq)]
pub struct Settings {
    pub id: String,
    pub font_size_bits: u32,
    pub font_family: String,
    pub theme: String,
}

impl Clone for Settings {
    fn clone(&self) -> (r: Self)
        ensures
            r == *self,
    {
        Settings {
            id: self.id.clone(),
            font_size_bits: self.font_size_bits,
            font_family: self.font_family.clone(),
            theme: self.theme.clone(),
        }
    }
}

/// Bit pattern of the default font size, 16.0.
pub const DEFAULT_FONT_SIZE_BITS: u32 = 0x4180_0000;

impl Settings {
    /// Whether these settings are the defaults: record id "default", font
    /// size 16, font family "Default" and the "Light" theme.
    pub open spec fn is_default(self) -> bool {
        &&& self.id@ == "default"@
        &&& self.font_size_bits == DEFAULT_FONT_SIZE_BITS
        &&& self.font_family@ == "Default"@
        &&& self.theme@ == "Light"@
    }

    /// The settings used before any are loaded from storage.
    pub fn default_settings() -> (r: Settings)
        ensures
            r.is_default(),
            r.id@ == "default"@,
            r.font_size_bits == 0x4180_0000u32,
            r.font_family@ == "Default"@,
            r.theme@ == "Light"@,
    {
        Settings {
            id: String::from_str("default"),
            font_size_bits: DEFAULT_FONT_SIZE_BITS,
            font_family: String::from_str("Default"),
            theme: String::from_str("Light"),
        }
    }

    /// Whether the dark visuals apply: the theme is exactly "Dark".
    pub fn uses_dark_theme(&self) -> (r: bool)
        ensures
            r == (self.theme@ == "Dark"@),
    {
        let dark = String::from_str("Dark");
        self.theme == dark
    }
}

} // verus!
