//! User preferences and their validation.

use vstd::prelude::*;
use crate::fraction::{fraction_text, Fraction};
use crate::text::{chars_of, decimal, push_decimal, push_signed, signed_decimal};

verus! {

/// The smallest window coordinate that validation accepts.
pub const MIN_POSITION: i32 = -5000;

/// The largest window coordinate that validation accepts.
pub const MAX_POSITION: i32 = 10000;

/// The character that joins the tokens of a hotkey string.
pub const HOTKEY_SEPARATOR: char = '+';

/// A colour with an alpha channel.
#[derive(Clone, Copy, Debug, PartialEq, Eq, Structural)]
pub struct Color {
    pub r: u8,
    pub g: u8,
    pub b: u8,
    pub a: u8,
}

impl Color {
    pub fn new(r: u8, g: u8, b: u8, a: u8) -> (color: Color)
        ensures
            color == (Color { r, g, b, a }),
    {
        Color { r, g, b, a }
    }

    /// Perceived brightness, `0.299 R + 0.587 G + 0.114 B`, in thousandths.
    pub open spec fn luminance_millis(self) -> int {
        299 * self.r + 587 * self.g + 114 * self.b
    }

    /// Perceived brightness, `0.299 R + 0.587 G + 0.114 B`: between 0 for
    /// black and 255 for white.
    pub fn luminance(&self) -> (level: Fraction)
        ensures
            level@ == self.luminance_millis(),
            0 <= level@ <= 255_000,
    {
        let r: i32 = self.r as i32;
        let g: i32 = self.g as i32;
        let b: i32 = self.b as i32;
        Fraction::from_millis(299 * r + 587 * g + 114 * b)
    }

    /// Opaque white.
    pub fn white() -> (color: Color)
        ensures
            color == (Color { r: 255, g: 255, b: 255, a: 255 }),
    {
        Color { r: 255, g: 255, b: 255, a: 255 }
    }

    /// Opaque black.
    pub fn black() -> (color: Color)
        ensures
            color == (Color { r: 0, g: 0, b: 0, a: 255 }),
    {
        Color { r: 0, g: 0, b: 0, a: 255 }
    }

    /// Black with no opacity at all.
    pub fn transparent() -> (color: Color)
        ensures
            color == (Color { r: 0, g: 0, b: 0, a: 0 }),
    {
        Color { r: 0, g: 0, b: 0, a: 0 }
    }
}

/// A hotkey taken apart: the modifiers in the order written, then the key.
#[derive(Clone, Debug)]
pub struct HotkeyInfo {
    pub modifiers: Vec<String>,
    pub key: String,
}

/// What is wrong with one value of a configuration.
#[derive(Clone, Debug, PartialEq)]
pub enum ValidationError {
    /// An opacity outside of 0 to 1, or a hover opacity below the base opacity.
    InvalidTransparency(Fraction),
    /// A window position outside of the accepted range.
    InvalidPosition(i32, i32),
    /// A hotkey string that is not a `+`-joined list of tokens.
    InvalidHotkey(String),
    /// A sound file that was not found.
    InvalidSoundFile(String),
}

/// Why a configuration could not be loaded or stored.
#[derive(Clone, Debug, PartialEq)]
pub enum ConfigError {
    FileNotFound,
    InvalidFormat(String),
    WriteError(String),
    ValidationFailed(Vec<ValidationError>),
}

/// Why a hotkey could not be parsed, registered or released.
#[derive(Clone, Debug, PartialEq)]
pub enum HotkeyError {
    InvalidFormat(String),
    AlreadyRegistered(String),
    RegistrationFailed(String),
    NotRegistered(u32),
}

impl ValidationError {
    /// The finding in words.
    pub open spec fn message(self) -> Seq<char> {
        match self {
            ValidationError::InvalidTransparency(value) => "Invalid transparency value: "@
                + fraction_text(value) + " (must be 0.0-1.0)"@,
            ValidationError::InvalidPosition(x, y) => "Invalid position: ("@ + signed_decimal(
                x as int,
            ) + ", "@ + signed_decimal(y as int) + ") (out of screen bounds)"@,
            ValidationError::InvalidHotkey(keys) => "Invalid hotkey: '"@ + keys@
                + "' (malformed key combination)"@,
            ValidationError::InvalidSoundFile(path) => "Invalid sound file: '"@ + path@
                + "' (file not found or unsupported format)"@,
        }
    }

    /// The finding in words.
    pub fn to_string(&self) -> (text: String)
        ensures
            text@ == self.message(),
    {
        match self {
            ValidationError::InvalidTransparency(value) => {
                let mut text = "Invalid transparency value: ".to_owned();
                value.write_to(&mut text);
                text.append(" (must be 0.0-1.0)");
                text
            },
            ValidationError::InvalidPosition(x, y) => {
                let mut text = "Invalid position: (".to_owned();
                push_signed(&mut text, *x as i64);
                text.append(", ");
                push_signed(&mut text, *y as i64);
                text.append(") (out of screen bounds)");
                text
            },
            ValidationError::InvalidHotkey(keys) => {
                let mut text = "Invalid hotkey: '".to_owned();
                text.append(keys.as_str());
                text.append("' (malformed key combination)");
                text
            },
            ValidationError::InvalidSoundFile(path) => {
                let mut text = "Invalid sound file: '".to_owned();
                text.append(path.as_str());
                text.append("' (file not found or unsupported format)");
                text
            },
        }
    }
}

impl ConfigError {
    /// The error in words.
    pub open spec fn message(self) -> Seq<char> {
        match self {
            ConfigError::FileNotFound => "Configuration file not found"@,
            ConfigError::InvalidFormat(msg) => "Invalid configuration format: "@ + msg@,
            ConfigError::WriteError(msg) => "Failed to write configuration: "@ + msg@,
            ConfigError::ValidationFailed(errors) => "Configuration validation failed: "@ + decimal(
                errors@.len(),
            ) + " errors"@,
        }
    }

    /// The error in words.
    pub fn to_string(&self) -> (text: String)
        ensures
            text@ == self.message(),
    {
        match self {
            ConfigError::FileNotFound => "Configuration file not found".to_owned(),
            ConfigError::InvalidFormat(msg) => "Invalid configuration format: ".to_owned().concat(
                msg.as_str(),
            ),
            ConfigError::WriteError(msg) => "Failed to write configuration: ".to_owned().concat(
                msg.as_str(),
            ),
            ConfigError::ValidationFailed(errors) => {
                let mut text = "Configuration validation failed: ".to_owned();
                push_decimal(&mut text, errors.len() as u128);
                text.append(" errors");
                text
            },
        }
    }
}

impl HotkeyError {
    /// The error in words.
    pub open spec fn message(self) -> Seq<char> {
        match self {
            HotkeyError::InvalidFormat(msg) => "Invalid hotkey format: "@ + msg@,
            HotkeyError::AlreadyRegistered(keys) => "Hotkey already registered: "@ + keys@,
            HotkeyError::RegistrationFailed(msg) => "Hotkey registration failed: "@ + msg@,
            HotkeyError::NotRegistered(id) => "Hotkey not registered: "@ + decimal(id as nat),
        }
    }

    /// The error in words.
    pub fn to_string(&self) -> (text: String)
        ensures
            text@ == self.message(),
    {
        match self {
            HotkeyError::InvalidFormat(msg) => "Invalid hotkey format: ".to_owned().concat(
                msg.as_str(),
            ),
            HotkeyError::AlreadyRegistered(keys) => "Hotkey already registered: ".to_owned().concat(
                keys.as_str(),
            ),
            HotkeyError::RegistrationFailed(msg) => "Hotkey registration failed: ".to_owned().concat(
                msg.as_str(),
            ),
            HotkeyError::NotRegistered(id) => {
                let mut text = "Hotkey not registered: ".to_owned();
                push_decimal(&mut text, *id as u128);
                text
            },
        }
    }
}

/// How the widget looks.
#[derive(Clone, Copy, Debug)]
pub struct DisplayConfig {
    /// Opacity while idle: 0 is fully transparent, 1 is opaque.
    pub transparency: Fraction,
    /// Opacity while the pointer is over the widget or it is being dragged.
    pub hover_transparency: Fraction,
    /// Window position in logical pixels.
    pub position: (i32, i32),
    /// Text colour; none means that it follows the background.
    pub text_color: Option<Color>,
    pub show_controls: bool,
}

/// How the widget behaves.
#[derive(Clone, Copy, Debug)]
pub struct BehaviorConfig {
    pub always_on_top: bool,
    pub remember_position: bool,
    pub auto_detect_background: bool,
    pub minimize_to_tray: bool,
}

/// The global key combinations, each optional.
#[derive(Clone, Debug)]
pub struct HotkeyConfig {
    pub toggle_visibility: Option<String>,
    pub start_stop: Option<String>,
    pub reset: Option<String>,
}

/// What a hotkey asks for.
#[derive(Clone, Copy, Debug, PartialEq, Eq, Structural)]
pub enum HotkeyAction {
    ToggleVisibility,
    StartStop,
    Reset,
}

/// How the end of a countdown is announced.
#[derive(Clone, Debug)]
pub struct NotificationConfig {
    pub sound_enabled: bool,
    pub visual_flash: bool,
    pub system_notification: bool,
    /// A sound file to play; none or empty means the system's default sound.
    pub sound_file: Option<String>,
}

/// All preferences of the widget.
#[derive(Debug)]
pub struct Configuration {
    pub version: String,
    pub display: DisplayConfig,
    pub behavior: BehaviorConfig,
    pub hotkeys: HotkeyConfig,
    pub notifications: NotificationConfig,
}

/// A copy of an optional string.
fn clone_optional(text: &Option<String>) -> (copy: Option<String>)
    ensures
        copy == *text,
{
    match text {
        Some(s) => Some(s.clone()),
        None => None,
    }
}

impl Clone for Configuration {
    fn clone(&self) -> (copy: Configuration)
        ensures
            copy == *self,
    {
        Configuration {
            version: self.version.clone(),
            display: self.display,
            behavior: self.behavior,
            hotkeys: HotkeyConfig {
                toggle_visibility: clone_optional(&self.hotkeys.toggle_visibility),
                start_stop: clone_optional(&self.hotkeys.start_stop),
                reset: clone_optional(&self.hotkeys.reset),
            },
            notifications: NotificationConfig {
                sound_enabled: self.notifications.sound_enabled,
                visual_flash: self.notifications.visual_flash,
                system_notification: self.notifications.system_notification,
                sound_file: clone_optional(&self.notifications.sound_file),
            },
        }
    }
}

impl Configuration {
    /// The look of the widget before the user changes it: 30% opaque, 80%
    /// when hovered, at (100, 100), text colour following the background,
    /// controls shown.
    pub open spec fn default_display() -> DisplayConfig {
        DisplayConfig {
            transparency: Fraction { millis: 300 },
            hover_transparency: Fraction { millis: 800 },
            position: (100, 100),
            text_color: None,
            show_controls: true,
        }
    }

    /// The behaviour of the widget before the user changes it.
    pub open spec fn default_behavior() -> BehaviorConfig {
        BehaviorConfig {
            always_on_top: true,
            remember_position: true,
            auto_detect_background: true,
            minimize_to_tray: false,
        }
    }

    /// Whether this is the configuration that the widget starts with.
    pub open spec fn is_default(self) -> bool {
        &&& self.version@ == "1.0"@
        &&& self.display == Configuration::default_display()
        &&& self.behavior == Configuration::default_behavior()
        &&& self.hotkeys.has_default_keys()
        &&& self.notifications.is_default()
    }
}

impl HotkeyConfig {
    /// Whether the hotkeys are those that the widget starts with:
    /// Ctrl+Alt+T, Ctrl+Alt+S and Ctrl+Alt+R.
    pub open spec fn has_default_keys(self) -> bool {
        &&& self.toggle_visibility is Some && self.toggle_visibility->0@ == "Ctrl+Alt+T"@
        &&& self.start_stop is Some && self.start_stop->0@ == "Ctrl+Alt+S"@
        &&& self.reset is Some && self.reset->0@ == "Ctrl+Alt+R"@
    }
}

impl NotificationConfig {
    /// Whether the notifications are those that the widget starts with: all
    /// on, with the system's sound.
    pub open spec fn is_default(self) -> bool {
        &&& self.sound_enabled
        &&& self.visual_flash
        &&& self.system_notification
        &&& self.sound_file is None
    }
}

impl Default for DisplayConfig {
    fn default() -> (config: DisplayConfig)
        ensures
            config == Configuration::default_display(),
    {
        DisplayConfig {
            transparency: Fraction::from_millis(300),
            hover_transparency: Fraction::from_millis(800),
            position: (100, 100),
            text_color: None,
            show_controls: true,
        }
    }
}

impl Default for BehaviorConfig {
    fn default() -> (config: BehaviorConfig)
        ensures
            config == Configuration::default_behavior(),
    {
        BehaviorConfig {
            always_on_top: true,
            remember_position: true,
            auto_detect_background: true,
            minimize_to_tray: false,
        }
    }
}

impl Default for HotkeyConfig {
    fn default() -> (config: HotkeyConfig)
        ensures
            config.has_default_keys(),
    {
        HotkeyConfig {
            toggle_visibility: Some("Ctrl+Alt+T".to_owned()),
            start_stop: Some("Ctrl+Alt+S".to_owned()),
            reset: Some("Ctrl+Alt+R".to_owned()),
        }
    }
}

impl Default for NotificationConfig {
    fn default() -> (config: NotificationConfig)
        ensures
            config.is_default(),
    {
        NotificationConfig {
            sound_enabled: true,
            visual_flash: true,
            system_notification: true,
            sound_file: None,
        }
    }
}

impl Default for Configuration {
    fn default() -> (config: Configuration)
        ensures
            config.is_default(),
    {
        Configuration {
            version: "1.0".to_owned(),
            display: DisplayConfig::default(),
            behavior: BehaviorConfig::default(),
            hotkeys: HotkeyConfig::default(),
            notifications: NotificationConfig::default(),
        }
    }
}

/// Whether two separators stand side by side somewhere in `keys`.
pub open spec fn has_doubled_separator(keys: Seq<char>) -> bool {
    exists|i: int| 0 <= i < keys.len() - 1 && keys[i] == '+' && #[trigger] keys[i + 1] == '+'
}

/// The form of a hotkey string: not empty, no separator at either end, no two
/// separators side by side. So it is one or more non-empty tokens joined by `+`.
pub open spec fn is_well_formed_hotkey(keys: Seq<char>) -> bool {
    &&& keys.len() > 0
    &&& keys[0] != '+'
    &&& keys[keys.len() - 1] != '+'
    &&& !has_doubled_separator(keys)
}

/// The error that an opacity outside of 0 to 1 gives, if it is outside.
pub open spec fn range_errors(level: Fraction) -> Seq<ValidationError> {
    if level.is_unit() {
        Seq::empty()
    } else {
        seq![ValidationError::InvalidTransparency(level)]
    }
}

/// The error that a malformed hotkey in `slot` gives, if there is one.
pub open spec fn slot_errors(slot: Option<String>) -> Seq<ValidationError> {
    match slot {
        Some(keys) => if is_well_formed_hotkey(keys@) {
            Seq::empty()
        } else {
            seq![ValidationError::InvalidHotkey(keys)]
        },
        None => Seq::empty(),
    }
}

impl DisplayConfig {
    /// Whether the position lies in the range that validation accepts.
    pub open spec fn position_in_range(self) -> bool {
        &&& MIN_POSITION <= self.position.0 <= MAX_POSITION
        &&& MIN_POSITION <= self.position.1 <= MAX_POSITION
    }

    /// What validation finds, in the order it is found: the base opacity out
    /// of range, the hover opacity out of range, the hover opacity below the
    /// base opacity, the position out of range.
    pub open spec fn validation_errors(self) -> Seq<ValidationError> {
        range_errors(self.transparency) + range_errors(self.hover_transparency) + (if self.hover_transparency@
            < self.transparency@ {
            seq![ValidationError::InvalidTransparency(self.hover_transparency)]
        } else {
            Seq::empty()
        }) + (if self.position_in_range() {
            Seq::empty()
        } else {
            seq![ValidationError::InvalidPosition(self.position.0, self.position.1)]
        })
    }

    /// Checks both opacities and the position.
    pub fn validate(&self) -> (errors: Vec<ValidationError>)
        ensures
            errors@ == self.validation_errors(),
    {
        let mut errors: Vec<ValidationError> = Vec::new();
        if !self.transparency.in_unit_range() {
            errors.push(ValidationError::InvalidTransparency(self.transparency));
        }
        assert(errors@ =~= range_errors(self.transparency));
        if !self.hover_transparency.in_unit_range() {
            errors.push(ValidationError::InvalidTransparency(self.hover_transparency));
        }
        assert(errors@ =~= range_errors(self.transparency) + range_errors(self.hover_transparency));
        if self.hover_transparency.millis() < self.transparency.millis() {
            errors.push(ValidationError::InvalidTransparency(self.hover_transparency));
        }
        let ghost before_position = errors@;
        let (x, y) = self.position;
        if x < MIN_POSITION || x > MAX_POSITION || y < MIN_POSITION || y > MAX_POSITION {
            errors.push(ValidationError::InvalidPosition(x, y));
        }
        assert(errors@ =~= before_position + (if self.position_in_range() {
            Seq::empty()
        } else {
            seq![ValidationError::InvalidPosition(self.position.0, self.position.1)]
        }));
        errors
    }
}

impl HotkeyConfig {
    /// What validation finds: an error for each hotkey that is set and
    /// malformed, in the order toggle, start/stop, reset.
    pub open spec fn validation_errors(self) -> Seq<ValidationError> {
        slot_errors(self.toggle_visibility) + slot_errors(self.start_stop) + slot_errors(
            self.reset,
        )
    }

    /// Checks each hotkey that is set.
    pub fn validate(&self) -> (errors: Vec<ValidationError>)
        ensures
            errors@ == self.validation_errors(),
    {
        let mut errors: Vec<ValidationError> = Vec::new();
        HotkeyConfig::validate_slot(&self.toggle_visibility, &mut errors);
        HotkeyConfig::validate_slot(&self.start_stop, &mut errors);
        HotkeyConfig::validate_slot(&self.reset, &mut errors);
        assert(errors@ =~= self.validation_errors());
        errors
    }

    /// Adds to `errors` what `slot` gives.
    fn validate_slot(slot: &Option<String>, errors: &mut Vec<ValidationError>)
        ensures
            final(errors)@ == old(errors)@ + slot_errors(*slot),
    {
        match slot {
            Some(keys) => {
                if !HotkeyConfig::is_valid_hotkey(keys.as_str()) {
                    errors.push(ValidationError::InvalidHotkey(keys.clone()));
                }
            },
            None => {},
        }
        assert(errors@ =~= old(errors)@ + slot_errors(*slot));
    }

    /// What `keys` asks for: the action of the first slot, in the order
    /// toggle, start/stop, reset, that is set to exactly this string.
    pub open spec fn action_of(self, keys: Seq<char>) -> Option<HotkeyAction> {
        if self.toggle_visibility is Some && self.toggle_visibility->0@ == keys {
            Some(HotkeyAction::ToggleVisibility)
        } else if self.start_stop is Some && self.start_stop->0@ == keys {
            Some(HotkeyAction::StartStop)
        } else if self.reset is Some && self.reset->0@ == keys {
            Some(HotkeyAction::Reset)
        } else {
            None
        }
    }

    /// Whether `slot` is set to exactly `keys`.
    fn slot_is(slot: &Option<String>, keys: &String) -> (same: bool)
        ensures
            same == (*slot is Some && slot->0@ == keys@),
    {
        match slot {
            Some(bound) => *bound == *keys,
            None => false,
        }
    }

    /// What `keys` asks for, if any slot is set to it.
    pub fn action_for(&self, keys: &str) -> (action: Option<HotkeyAction>)
        ensures
            action == self.action_of(keys@),
    {
        let pressed = keys.to_owned();
        if HotkeyConfig::slot_is(&self.toggle_visibility, &pressed) {
            Some(HotkeyAction::ToggleVisibility)
        } else if HotkeyConfig::slot_is(&self.start_stop, &pressed) {
            Some(HotkeyAction::StartStop)
        } else if HotkeyConfig::slot_is(&self.reset, &pressed) {
            Some(HotkeyAction::Reset)
        } else {
            None
        }
    }

    /// Whether `keys` has the form of a hotkey string.
    pub fn is_valid_hotkey(keys: &str) -> (valid: bool)
        ensures
            valid == is_well_formed_hotkey(keys@),
    {
        let chars = chars_of(keys);
        let n = chars.len();
        if n == 0 {
            return false;
        }
        if chars[0] == HOTKEY_SEPARATOR || chars[n - 1] == HOTKEY_SEPARATOR {
            return false;
        }
        let mut i: usize = 1;
        while i < n
            invariant
                1 <= i <= n,
                n == chars@.len(),
                chars@ == keys@,
                forall|j: int| 0 <= j < i - 1 ==> !(keys@[j] == '+' && #[trigger] keys@[j + 1] == '+'),
            decreases n - i,
        {
            if chars[i - 1] == HOTKEY_SEPARATOR && chars[i] == HOTKEY_SEPARATOR {
                assert(keys@[i - 1] == '+' && keys@[(i - 1) + 1] == '+');
                return false;
            }
            i += 1;
        }
        true
    }
}

/// `std::path::Path::exists`: whether `path` names something on disk when the
/// call is made. The answer depends on the disk, so nothing is claimed of it.
#[verifier::external_body]
fn path_exists(path: &str) -> bool {
    std::path::Path::new(path).exists()
}

impl NotificationConfig {
    /// Whether a sound file is named, so that validation has to look for it.
    pub open spec fn names_sound_file(self) -> bool {
        self.sound_file is Some && self.sound_file->0@.len() > 0
    }

    /// What validation finds where looking for the sound file gave `found`.
    pub open spec fn validation_errors(self, found: bool) -> Seq<ValidationError> {
        if self.names_sound_file() && !found {
            seq![ValidationError::InvalidSoundFile(self.sound_file->0)]
        } else {
            Seq::empty()
        }
    }

    /// Validation, where looking for the sound file gave `found`.
    pub fn validate_given(&self, found: bool) -> (errors: Vec<ValidationError>)
        ensures
            errors@ == self.validation_errors(found),
    {
        let mut errors: Vec<ValidationError> = Vec::new();
        match &self.sound_file {
            Some(path) => {
                if !path.as_str().is_empty() && !found {
                    errors.push(ValidationError::InvalidSoundFile(path.clone()));
                }
            },
            None => {},
        }
        assert(errors@ =~= self.validation_errors(found));
        errors
    }

    /// Looks for the sound file, where one is named, and reports it if it is
    /// not there. With no sound file named there is nothing to report.
    pub fn validate(&self) -> (errors: Vec<ValidationError>)
        ensures
            !self.names_sound_file() ==> errors@ == Seq::<ValidationError>::empty(),
            exists|found: bool| errors@ == #[trigger] self.validation_errors(found),
    {
        let found = match &self.sound_file {
            Some(path) => path.as_str().is_empty() || path_exists(path.as_str()),
            None => true,
        };
        self.validate_given(found)
    }
}

impl Configuration {
    /// What validation finds where looking for the sound file gave `found`:
    /// the findings on the display, then the hotkeys, then the notifications.
    pub open spec fn validation_errors(self, found: bool) -> Seq<ValidationError> {
        self.display.validation_errors() + self.hotkeys.validation_errors()
            + self.notifications.validation_errors(found)
    }

    /// Validation, where looking for the sound file gave `found`.
    pub fn validate_given(&self, found: bool) -> (errors: Vec<ValidationError>)
        ensures
            errors@ == self.validation_errors(found),
    {
        let mut errors = self.display.validate();
        let mut hotkey_errors = self.hotkeys.validate();
        errors.append(&mut hotkey_errors);
        let mut notification_errors = self.notifications.validate_given(found);
        errors.append(&mut notification_errors);
        errors
    }

    /// Validates every part and lists what is wrong. The configuration is
    /// never changed; the caller decides what to do with the findings.
    pub fn validate(&self) -> (errors: Vec<ValidationError>)
        ensures
            !self.notifications.names_sound_file() ==> errors@ == self.validation_errors(true),
            exists|found: bool| errors@ == #[trigger] self.validation_errors(found),
    {
        let mut errors = self.display.validate();
        let mut hotkey_errors = self.hotkeys.validate();
        errors.append(&mut hotkey_errors);
        let mut notification_errors = self.notifications.validate();
        proof {
            let found = choose|found: bool|
                notification_errors@ == #[trigger] self.notifications.validation_errors(found);
            assert(errors@ + notification_errors@ == self.validation_errors(found));
        }
        errors.append(&mut notification_errors);
        errors
    }

    /// Whether validation finds nothing wrong.
    pub fn is_valid(&self) -> (valid: bool)
        ensures
            !self.notifications.names_sound_file() ==> valid == (self.validation_errors(true).len()
                == 0),
            exists|found: bool| valid == (#[trigger] self.validation_errors(found).len() == 0),
    {
        self.validate().is_empty()
    }
}

impl Configuration {
    /// What validation asks of a configuration, where looking for the sound
    /// file gave `found`: both opacities between 0 and 1, the hover opacity
    /// no lower than the base opacity, the position in range, each hotkey
    /// that is set well formed, and a sound file that is named found.
    pub open spec fn meets_all_rules(self, found: bool) -> bool {
        &&& self.display.transparency.is_unit()
        &&& self.display.hover_transparency.is_unit()
        &&& self.display.hover_transparency@ >= self.display.transparency@
        &&& self.display.position_in_range()
        &&& self.hotkeys.toggle_visibility is Some ==> is_well_formed_hotkey(
            self.hotkeys.toggle_visibility->0@,
        )
        &&& self.hotkeys.start_stop is Some ==> is_well_formed_hotkey(self.hotkeys.start_stop->0@)
        &&& self.hotkeys.reset is Some ==> is_well_formed_hotkey(self.hotkeys.reset->0@)
        &&& self.notifications.names_sound_file() ==> found
    }
}

/// Validation finds nothing exactly in a configuration that meets all rules.
pub proof fn law_no_findings_means_all_rules_met(config: Configuration, found: bool)
    ensures
        config.validation_errors(found).len() == 0 <==> config.meets_all_rules(found),
{
}

/// The configuration that the widget starts with is valid, whatever is on disk.
pub proof fn law_default_configuration_is_valid(config: Configuration, found: bool)
    requires
        config.is_default(),
    ensures
        config.meets_all_rules(found),
        config.validation_errors(found) =~= Seq::<ValidationError>::empty(),
{
    reveal_strlit("Ctrl+Alt+T");
    reveal_strlit("Ctrl+Alt+S");
    reveal_strlit("Ctrl+Alt+R");
    let toggle = config.hotkeys.toggle_visibility->0@;
    let start_stop = config.hotkeys.start_stop->0@;
    let reset = config.hotkeys.reset->0@;
    assert(toggle.len() == 10 && start_stop.len() == 10 && reset.len() == 10);
    assert forall|i: int| 0 <= i < 9 implies !(toggle[i] == '+' && #[trigger] toggle[i + 1] == '+') by {
        assert(toggle[4] == '+' && toggle[8] == '+' && toggle[5] == 'A' && toggle[9] == 'T');
    }
    assert forall|i: int| 0 <= i < 9 implies !(start_stop[i] == '+' && #[trigger] start_stop[i + 1]
        == '+') by {
        assert(start_stop[4] == '+' && start_stop[8] == '+' && start_stop[5] == 'A'
            && start_stop[9] == 'S');
    }
    assert forall|i: int| 0 <= i < 9 implies !(reset[i] == '+' && #[trigger] reset[i + 1] == '+') by {
        assert(reset[4] == '+' && reset[8] == '+' && reset[5] == 'A' && reset[9] == 'R');
    }
}

/// An opacity outside of 0 to 1 is always reported, and as the first finding
/// where it is the base opacity.
pub proof fn law_opacity_out_of_range_is_reported(config: Configuration, found: bool)
    ensures
        !config.display.transparency.is_unit() ==> config.validation_errors(found).len() > 0
            && config.validation_errors(found)[0] == ValidationError::InvalidTransparency(
            config.display.transparency,
        ),
        !config.display.hover_transparency.is_unit() ==> config.validation_errors(found).contains(
            ValidationError::InvalidTransparency(config.display.hover_transparency),
        ),
        config.display.hover_transparency@ < config.display.transparency@
            ==> config.validation_errors(found).contains(
            ValidationError::InvalidTransparency(config.display.hover_transparency),
        ),
{
    let errors = config.validation_errors(found);
    let base = range_errors(config.display.transparency);
    let hover = range_errors(config.display.hover_transparency);
    if !config.display.hover_transparency.is_unit() {
        assert(errors[base.len() as int] == ValidationError::InvalidTransparency(
            config.display.hover_transparency,
        ));
    } else if config.display.hover_transparency@ < config.display.transparency@ {
        assert(errors[(base.len() + hover.len()) as int] == ValidationError::InvalidTransparency(
            config.display.hover_transparency,
        ));
    }
}

/// Validation leaves nothing out and adds nothing: it always finds between
/// none and eight things, at most three on the opacities, one on the
/// position, three on the hotkeys and one on the sound file.
pub proof fn law_findings_are_bounded(config: Configuration, found: bool)
    ensures
        config.display.validation_errors().len() <= 4,
        config.hotkeys.validation_errors().len() <= 3,
        config.notifications.validation_errors(found).len() <= 1,
        config.validation_errors(found).len() <= 8,
{
}

} // verus!
