use vstd::prelude::*;

use crate::text::same_text;

verus! {

/// A page that the tray menu opens in the browser.
#[derive(Clone, Copy, Debug, PartialEq, Eq, Structural)]
pub enum Link {
    Website,
    Feedback,
}

/// A yes/no preference that the tray menu flips.
#[derive(Clone, Copy, Debug, PartialEq, Eq, Structural)]
pub enum Setting {
    RecordCursor,
    ShareUsageData,
}

/// What a click on an item of the tray's menu asks for.
#[derive(Clone, Copy, Debug, PartialEq, Eq, Structural)]
pub enum TrayCommand {
    Open(Link),
    CheckForUpdates,
    Toggle(Setting),
    /// The item needs no handling here.
    Ignore,
}

/// What a click on an item of the quick menu asks for.
#[derive(Clone, Copy, Debug, PartialEq, Eq, Structural)]
pub enum QuickCommand {
    OpenMainWindow,
    Quit,
    Ignore,
}

pub open spec fn link_url_spec(l: Link) -> Seq<char> {
    match l {
        Link::Website => "https://www.craftgen.ai"@,
        Link::Feedback => "https://www.craftgen.ai/discord"@,
    }
}

pub open spec fn setting_key_spec(s: Setting) -> Seq<char> {
    match s {
        Setting::RecordCursor => "record_cursor"@,
        Setting::ShareUsageData => "share_usage_data"@,
    }
}

pub open spec fn tray_command_of(id: Seq<char>) -> TrayCommand {
    if id == "feedback"@ {
        TrayCommand::Open(Link::Feedback)
    } else if id == "website"@ {
        TrayCommand::Open(Link::Website)
    } else if id == "updates"@ {
        TrayCommand::CheckForUpdates
    } else if id == "record_cursor"@ {
        TrayCommand::Toggle(Setting::RecordCursor)
    } else if id == "share_usage_data"@ {
        TrayCommand::Toggle(Setting::ShareUsageData)
    } else {
        TrayCommand::Ignore
    }
}

pub open spec fn quick_command_of(id: Seq<char>) -> QuickCommand {
    if id == "quit"@ {
        QuickCommand::Quit
    } else if id == "open"@ {
        QuickCommand::OpenMainWindow
    } else {
        QuickCommand::Ignore
    }
}

/// The address a link opens.
pub fn link_url(l: Link) -> (r: String)
    ensures
        r@ == link_url_spec(l),
{
    match l {
        Link::Website => "https://www.craftgen.ai".to_owned(),
        Link::Feedback => "https://www.craftgen.ai/discord".to_owned(),
    }
}

/// The key under which a setting is stored.
pub fn setting_key(s: Setting) -> (r: String)
    ensures
        r@ == setting_key_spec(s),
{
    match s {
        Setting::RecordCursor => "record_cursor".to_owned(),
        Setting::ShareUsageData => "share_usage_data".to_owned(),
    }
}

/// Routes a click on the tray menu by the item's id.
pub fn route_tray_menu(id: &str) -> (r: TrayCommand)
    ensures
        r == tray_command_of(id@),
{
    if same_text(id, "feedback") {
        TrayCommand::Open(Link::Feedback)
    } else if same_text(id, "website") {
        TrayCommand::Open(Link::Website)
    } else if same_text(id, "updates") {
        TrayCommand::CheckForUpdates
    } else if same_text(id, "record_cursor") {
        TrayCommand::Toggle(Setting::RecordCursor)
    } else if same_text(id, "share_usage_data") {
        TrayCommand::Toggle(Setting::ShareUsageData)
    } else {
        TrayCommand::Ignore
    }
}

/// Routes a click on the quick menu by the item's id.
pub fn route_quick_menu(id: &str) -> (r: QuickCommand)
    ensures
        r == quick_command_of(id@),
{
    if same_text(id, "quit") {
        QuickCommand::Quit
    } else if same_text(id, "open") {
        QuickCommand::OpenMainWindow
    } else {
        QuickCommand::Ignore
    }
}

/// What the settings store holds under a setting's key.
#[derive(Clone, Copy, Debug, PartialEq, Eq, Structural)]
pub enum StoredSetting {
    Missing,
    Flag(bool),
    /// A value that is not a boolean.
    NotAFlag,
}

/// Why a stored setting cannot be read.
#[derive(Clone, Copy, Debug, PartialEq, Eq, Structural)]
pub enum SettingError {
    NotAFlag,
}

pub open spec fn setting_value_spec(stored: StoredSetting) -> Result<bool, SettingError> {
    match stored {
        StoredSetting::Missing => Ok(true),
        StoredSetting::Flag(b) => Ok(b),
        StoredSetting::NotAFlag => Err(SettingError::NotAFlag),
    }
}

/// A setting's value: what is stored, on when nothing is.
pub fn setting_value(stored: StoredSetting) -> (r: Result<bool, SettingError>)
    ensures
        r == setting_value_spec(stored),
{
    match stored {
        StoredSetting::Missing => Ok(true),
        StoredSetting::Flag(b) => Ok(b),
        StoredSetting::NotAFlag => Err(SettingError::NotAFlag),
    }
}

/// The value to store when the setting is flipped: the opposite of its
/// current value.
pub fn toggled_setting(stored: StoredSetting) -> (r: Result<bool, SettingError>)
    ensures
        r matches Ok(b) ==> setting_value_spec(stored) == Ok::<bool, SettingError>(!b),
        r is Err <==> setting_value_spec(stored) is Err,
{
    match setting_value(stored) {
        Ok(b) => Ok(!b),
        Err(e) => Err(e),
    }
}

} // verus!
