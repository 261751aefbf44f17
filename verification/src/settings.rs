//! Application settings: where the data file lives, saving behaviour, the
//! colour theme and the outcome of the last export.

use crate::data_types::text;
use vstd::prelude::*;

verus! {

/// The colour theme.
#[derive(Debug, Clone, Copy, PartialEq, Eq)]
pub enum ThemeChoice {
    Light,
    Dark,
}

impl ThemeChoice {
    /// The themes offered, in order.
    pub fn all() -> (r: Vec<ThemeChoice>)
        ensures
            r@ == seq![ThemeChoice::Light, ThemeChoice::Dark],
    {
        let mut r: Vec<ThemeChoice> = Vec::new();
        r.push(ThemeChoice::Light);
        r.push(ThemeChoice::Dark);
        r
    }

    /// The name the theme is shown with.
    pub fn label(&self) -> (r: String)
        ensures
            r@ == match self {
                ThemeChoice::Light => "Light"@,
                ThemeChoice::Dark => "Dark"@,
            },
    {
        match self {
            ThemeChoice::Light => text("Light"),
            ThemeChoice::Dark => text("Dark"),
        }
    }
}

/// The application settings.
#[derive(Debug, Clone)]
pub struct AppSettings {
    pub file_path: String,
    pub auto_save: bool,
    pub create_backups: bool,
    pub app_theme: ThemeChoice,
    pub export_success: bool,
    pub export_message: String,
}

impl AppSettings {
    /// The default settings for a data file at `file_path`: saving and
    /// backups on, the dark theme, the last export counted a success.
    pub fn with_file_path(file_path: String) -> (r: AppSettings)
        ensures
            r.file_path@ == file_path@,
            r.auto_save,
            r.create_backups,
            r.app_theme == ThemeChoice::Dark,
            r.export_success,
            r.export_message@ == Seq::<char>::empty(),
    {
        AppSettings {
            file_path: file_path,
            auto_save: true,
            create_backups: true,
            app_theme: ThemeChoice::Dark,
            export_success: true,
            export_message: String::new(),
        }
    }
}


/// The two settings hold the same values.
pub open spec fn spec_same_settings(a: AppSettings, b: AppSettings) -> bool {
    &&& a.file_path@ == b.file_path@
    &&& a.auto_save == b.auto_save
    &&& a.create_backups == b.create_backups
    &&& a.app_theme == b.app_theme
    &&& a.export_success == b.export_success
    &&& a.export_message@ == b.export_message@
}

impl AppSettings {
    /// A copy of the settings.
    pub fn copy(&self) -> (r: AppSettings)
        ensures
            spec_same_settings(r, *self),
    {
        AppSettings {
            file_path: self.file_path.clone(),
            auto_save: self.auto_save,
            create_backups: self.create_backups,
            app_theme: self.app_theme,
            export_success: self.export_success,
            export_message: self.export_message.clone(),
        }
    }
}

/// An operation of the settings screen.
#[derive(Debug, Clone)]
pub enum SettingsOperation {
    Save(AppSettings),
    Back,
    ShowError(String),
    ThemeChanged(ThemeChoice),
    UpdateExportSuccess(bool),
    UpdateExportMessage(String),
}

} // verus!
