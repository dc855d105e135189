//! Tray-menu item ids and the commands they stand for.

use vstd::prelude::*;
use vstd::string::*;

verus! {

/// What a tray-menu item asks for.
#[derive(Debug, PartialEq, Eq)]
pub enum MenuCommand {
    Quit,
    RemoveSilence,
    /// Select the input device with this name.
    AudioDevice(String),
    SaveRecordings,
    About,
    /// Transcribe in the language with this code ("auto" for detection).
    Language(String),
    Translate,
    StartAtLogin,
    WhisperLogging,
    /// Use the shortcut with this name.
    KeyboardShortcut(String),
    Restart,
    /// An id that names no known item, or an unknown language or shortcut.
    Unknown(String),
}

/// A menu command as a mathematical value.
pub enum MenuChoice {
    Quit,
    RemoveSilence,
    AudioDevice(Seq<char>),
    SaveRecordings,
    About,
    Language(Seq<char>),
    Translate,
    StartAtLogin,
    WhisperLogging,
    KeyboardShortcut(Seq<char>),
    Restart,
    Unknown(Seq<char>),
}

impl View for MenuCommand {
    type V = MenuChoice;

    open spec fn view(&self) -> MenuChoice {
        match self {
            MenuCommand::Quit => MenuChoice::Quit,
            MenuCommand::RemoveSilence => MenuChoice::RemoveSilence,
            MenuCommand::AudioDevice(s) => MenuChoice::AudioDevice(s@),
            MenuCommand::SaveRecordings => MenuChoice::SaveRecordings,
            MenuCommand::About => MenuChoice::About,
            MenuCommand::Language(s) => MenuChoice::Language(s@),
            MenuCommand::Translate => MenuChoice::Translate,
            MenuCommand::StartAtLogin => MenuChoice::StartAtLogin,
            MenuCommand::WhisperLogging => MenuChoice::WhisperLogging,
            MenuCommand::KeyboardShortcut(s) => MenuChoice::KeyboardShortcut(s@),
            MenuCommand::Restart => MenuChoice::Restart,
            MenuCommand::Unknown(s) => MenuChoice::Unknown(s@),
        }
    }
}

/// The rest of `s` after `prefix`, if `s` starts with it.
pub open spec fn after_prefix(s: Seq<char>, prefix: Seq<char>) -> Option<Seq<char>> {
    if prefix.len() <= s.len() && s.subrange(0, prefix.len() as int) == prefix {
        Some(s.subrange(prefix.len() as int, s.len() as int))
    } else {
        None
    }
}

/// Code of a language as its menu item names it.
pub open spec fn language_code(name: Seq<char>) -> Option<Seq<char>> {
    if name == "Automatic"@ {
        Some("auto"@)
    } else if name == "English"@ {
        Some("en"@)
    } else if name == "German"@ {
        Some("de"@)
    } else if name == "French"@ {
        Some("fr"@)
    } else if name == "Spanish"@ {
        Some("es"@)
    } else {
        None
    }
}

/// Whether `name` is a shortcut that the menu offers.
pub open spec fn known_shortcut(name: Seq<char>) -> bool {
    name == "right_option_key"@ || name == "right_command_key"@
}

/// The command of a menu item id.
pub open spec fn menu_choice(id: Seq<char>) -> MenuChoice {
    if id == "quit"@ {
        MenuChoice::Quit
    } else if id == "remove_silence"@ {
        MenuChoice::RemoveSilence
    } else if after_prefix(id, "audio_device_"@) is Some {
        MenuChoice::AudioDevice(after_prefix(id, "audio_device_"@).unwrap())
    } else if id == "save_recordings"@ {
        MenuChoice::SaveRecordings
    } else if id == "about"@ {
        MenuChoice::About
    } else if after_prefix(id, "language_"@) is Some {
        match language_code(after_prefix(id, "language_"@).unwrap()) {
            Some(code) => MenuChoice::Language(code),
            None => MenuChoice::Unknown(id),
        }
    } else if id == "translate"@ {
        MenuChoice::Translate
    } else if id == "start_at_login"@ {
        MenuChoice::StartAtLogin
    } else if id == "whisper_logging"@ {
        MenuChoice::WhisperLogging
    } else if after_prefix(id, "keyboard_shortcut_"@) is Some {
        if known_shortcut(after_prefix(id, "keyboard_shortcut_"@).unwrap()) {
            MenuChoice::KeyboardShortcut(after_prefix(id, "keyboard_shortcut_"@).unwrap())
        } else {
            MenuChoice::Unknown(id)
        }
    } else if id == "restart"@ {
        MenuChoice::Restart
    } else {
        MenuChoice::Unknown(id)
    }
}

/// The rest of `s` after `prefix`, if `s` starts with it.
pub fn strip_prefix(s: &str, prefix: &str) -> (r: Option<String>)
    ensures
        match r {
            Some(rest) => after_prefix(s@, prefix@) == Some(rest@),
            None => after_prefix(s@, prefix@) is None,
        },
{
    let n = s.unicode_len();
    let m = prefix.unicode_len();
    if m > n {
        return None;
    }
    let head = String::from_str(s.substring_char(0, m));
    if head == String::from_str(prefix) {
        Some(String::from_str(s.substring_char(m, n)))
    } else {
        None
    }
}

/// Whether two strings hold the same text.
fn same_text(a: &str, b: &str) -> (r: bool)
    ensures
        r == (a@ == b@),
{
    String::from_str(a) == String::from_str(b)
}

/// Looks up the code of a language by the name its menu item shows.
pub fn language_code_of(name: &str) -> (r: Option<&'static str>)
    ensures
        match r {
            Some(code) => language_code(name@) == Some(code@),
            None => language_code(name@) is None,
        },
{
    if same_text(name, "Automatic") {
        Some("auto")
    } else if same_text(name, "English") {
        Some("en")
    } else if same_text(name, "German") {
        Some("de")
    } else if same_text(name, "French") {
        Some("fr")
    } else if same_text(name, "Spanish") {
        Some("es")
    } else {
        None
    }
}

/// Reads the command of a tray-menu item from its id.
pub fn menu_command(id: &str) -> (r: MenuCommand)
    ensures
        r@ == menu_choice(id@),
{
    if same_text(id, "quit") {
        return MenuCommand::Quit;
    }
    if same_text(id, "remove_silence") {
        return MenuCommand::RemoveSilence;
    }
    if let Some(device) = strip_prefix(id, "audio_device_") {
        return MenuCommand::AudioDevice(device);
    }
    if same_text(id, "save_recordings") {
        return MenuCommand::SaveRecordings;
    }
    if same_text(id, "about") {
        return MenuCommand::About;
    }
    if let Some(name) = strip_prefix(id, "language_") {
        return match language_code_of(name.as_str()) {
            Some(code) => MenuCommand::Language(String::from_str(code)),
            None => MenuCommand::Unknown(String::from_str(id)),
        };
    }
    if same_text(id, "translate") {
        return MenuCommand::Translate;
    }
    if same_text(id, "start_at_login") {
        return MenuCommand::StartAtLogin;
    }
    if same_text(id, "whisper_logging") {
        return MenuCommand::WhisperLogging;
    }
    if let Some(name) = strip_prefix(id, "keyboard_shortcut_") {
        if same_text(name.as_str(), "right_option_key") || same_text(
            name.as_str(),
            "right_command_key",
        ) {
            return MenuCommand::KeyboardShortcut(name);
        }
        return MenuCommand::Unknown(String::from_str(id));
    }
    if same_text(id, "restart") {
        return MenuCommand::Restart;
    }
    MenuCommand::Unknown(String::from_str(id))
}

} // verus!
