//! Haptic events, pulse patterns and the device's native waveforms.

use vstd::prelude::*;
use vstd::string::StringExecFns;
use crate::hidpp::haptic_profiles;
use crate::text::same_text;

verus! {

/// A legacy haptic pulse.
#[derive(Debug, Clone, Copy, PartialEq, Eq, Structural)]
pub struct HapticPulse {
    /// Intensity, 0 to 100.
    pub intensity: u8,
    /// Duration in milliseconds.
    pub duration_ms: u16,
}

/// How often a legacy pulse is repeated.
#[derive(Debug, Clone, Copy, PartialEq, Eq, Structural)]
pub enum HapticPattern {
    /// One pulse.
    Single,
    /// Two pulses, 30 ms apart.
    Double,
    /// Three pulses, 20 ms apart.
    Triple,
}

/// One step of a pulse pattern.
#[derive(Debug, Clone, Copy, PartialEq, Eq, Structural)]
pub enum PatternStep {
    /// Send one pulse.
    Pulse,
    /// Wait for this many milliseconds.
    Gap(u64),
}

impl HapticPattern {
    /// The steps of the pattern: its pulses, with the pattern's gap between
    /// each two.
    pub open spec fn spec_steps(&self) -> Seq<PatternStep> {
        match self {
            HapticPattern::Single => seq![PatternStep::Pulse],
            HapticPattern::Double => seq![
                PatternStep::Pulse,
                PatternStep::Gap(30),
                PatternStep::Pulse,
            ],
            HapticPattern::Triple => seq![
                PatternStep::Pulse,
                PatternStep::Gap(20),
                PatternStep::Pulse,
                PatternStep::Gap(20),
                PatternStep::Pulse,
            ],
        }
    }

    /// The steps of the pattern, in the order in which they are performed.
    pub fn steps(&self) -> (steps: Vec<PatternStep>)
        ensures
            steps@ == self.spec_steps(),
    {
        let mut steps: Vec<PatternStep> = Vec::new();
        steps.push(PatternStep::Pulse);
        match self {
            HapticPattern::Single => {},
            HapticPattern::Double => {
                steps.push(PatternStep::Gap(30));
                steps.push(PatternStep::Pulse);
            },
            HapticPattern::Triple => {
                steps.push(PatternStep::Gap(20));
                steps.push(PatternStep::Pulse);
                steps.push(PatternStep::Gap(20));
                steps.push(PatternStep::Pulse);
            },
        }
        steps
    }

    /// Number of pulses of the pattern.
    pub open spec fn spec_pulse_count(&self) -> u8 {
        match self {
            HapticPattern::Single => 1,
            HapticPattern::Double => 2,
            HapticPattern::Triple => 3,
        }
    }

    /// Gap between two pulses of the pattern, in milliseconds.
    pub open spec fn spec_gap_ms(&self) -> u64 {
        match self {
            HapticPattern::Single => 0,
            HapticPattern::Double => 30,
            HapticPattern::Triple => 20,
        }
    }

    /// Number of pulses of the pattern.
    #[verifier::when_used_as_spec(spec_pulse_count)]
    pub fn pulse_count(&self) -> (count: u8)
        ensures
            count == self.spec_pulse_count(),
    {
        match self {
            HapticPattern::Single => 1,
            HapticPattern::Double => 2,
            HapticPattern::Triple => 3,
        }
    }

    /// Gap between two pulses of the pattern, in milliseconds.
    #[verifier::when_used_as_spec(spec_gap_ms)]
    pub fn gap_ms(&self) -> (gap: u64)
        ensures
            gap == self.spec_gap_ms(),
    {
        match self {
            HapticPattern::Single => 0,
            HapticPattern::Double => 30,
            HapticPattern::Triple => 20,
        }
    }
}

/// A native haptic waveform of the MX Master 4, selected on the wire by a
/// one-byte identifier.
#[derive(Debug, Clone, Copy, PartialEq, Eq, Structural)]
pub enum Mx4HapticPattern {
    /// Crisp feedback for a state transition (`0x00`).
    SharpStateChange,
    /// Softer feedback for a state transition (`0x01`).
    DampStateChange,
    /// Strong feedback for a collision (`0x02`).
    SharpCollision,
    /// Soft feedback for a collision (`0x03`).
    DampCollision,
    /// Very light feedback (`0x04`).
    SubtleCollision,
    /// Positive notification (`0x05`).
    HappyAlert,
    /// Error or warning notification (`0x06`).
    AngryAlert,
    /// Success or completion (`0x07`).
    Completed,
    /// Square wave (`0x08`).
    Square,
    /// Wave (`0x09`).
    Wave,
    /// Firework (`0x0A`).
    Firework,
    /// Strong error (`0x0B`).
    Mad,
    /// Knock (`0x0C`).
    Knock,
    /// Jingle (`0x0D`).
    Jingle,
    /// Ringing (`0x0E`).
    Ringing,
    /// The most subtle collision (`0x1B`).
    WhisperCollision,
}

impl Mx4HapticPattern {
    /// The waveform's identifier on the wire.
    pub open spec fn spec_to_id(self) -> u8 {
        match self {
            Mx4HapticPattern::SharpStateChange => 0x00,
            Mx4HapticPattern::DampStateChange => 0x01,
            Mx4HapticPattern::SharpCollision => 0x02,
            Mx4HapticPattern::DampCollision => 0x03,
            Mx4HapticPattern::SubtleCollision => 0x04,
            Mx4HapticPattern::HappyAlert => 0x05,
            Mx4HapticPattern::AngryAlert => 0x06,
            Mx4HapticPattern::Completed => 0x07,
            Mx4HapticPattern::Square => 0x08,
            Mx4HapticPattern::Wave => 0x09,
            Mx4HapticPattern::Firework => 0x0A,
            Mx4HapticPattern::Mad => 0x0B,
            Mx4HapticPattern::Knock => 0x0C,
            Mx4HapticPattern::Jingle => 0x0D,
            Mx4HapticPattern::Ringing => 0x0E,
            Mx4HapticPattern::WhisperCollision => 0x1B,
        }
    }

    /// The waveform with the given identifier, if there is one.
    pub open spec fn spec_from_id(id: u8) -> Option<Self> {
        if id == 0x00 {
            Some(Mx4HapticPattern::SharpStateChange)
        } else if id == 0x01 {
            Some(Mx4HapticPattern::DampStateChange)
        } else if id == 0x02 {
            Some(Mx4HapticPattern::SharpCollision)
        } else if id == 0x03 {
            Some(Mx4HapticPattern::DampCollision)
        } else if id == 0x04 {
            Some(Mx4HapticPattern::SubtleCollision)
        } else if id == 0x05 {
            Some(Mx4HapticPattern::HappyAlert)
        } else if id == 0x06 {
            Some(Mx4HapticPattern::AngryAlert)
        } else if id == 0x07 {
            Some(Mx4HapticPattern::Completed)
        } else if id == 0x08 {
            Some(Mx4HapticPattern::Square)
        } else if id == 0x09 {
            Some(Mx4HapticPattern::Wave)
        } else if id == 0x0A {
            Some(Mx4HapticPattern::Firework)
        } else if id == 0x0B {
            Some(Mx4HapticPattern::Mad)
        } else if id == 0x0C {
            Some(Mx4HapticPattern::Knock)
        } else if id == 0x0D {
            Some(Mx4HapticPattern::Jingle)
        } else if id == 0x0E {
            Some(Mx4HapticPattern::Ringing)
        } else if id == 0x1B {
            Some(Mx4HapticPattern::WhisperCollision)
        } else {
            None
        }
    }

    /// The waveform's display name.
    pub open spec fn spec_name(&self) -> &'static str {
        match self {
            Mx4HapticPattern::SharpStateChange => "Sharp State Change",
            Mx4HapticPattern::DampStateChange => "Damp State Change",
            Mx4HapticPattern::SharpCollision => "Sharp Collision",
            Mx4HapticPattern::DampCollision => "Damp Collision",
            Mx4HapticPattern::SubtleCollision => "Subtle Collision",
            Mx4HapticPattern::HappyAlert => "Happy Alert",
            Mx4HapticPattern::AngryAlert => "Angry Alert",
            Mx4HapticPattern::Completed => "Completed",
            Mx4HapticPattern::Square => "Square",
            Mx4HapticPattern::Wave => "Wave",
            Mx4HapticPattern::Firework => "Firework",
            Mx4HapticPattern::Mad => "Mad",
            Mx4HapticPattern::Knock => "Knock",
            Mx4HapticPattern::Jingle => "Jingle",
            Mx4HapticPattern::Ringing => "Ringing",
            Mx4HapticPattern::WhisperCollision => "Whisper Collision",
        }
    }

    /// The waveform that a configuration name stands for. A name that is not
    /// recognised stands for `SubtleCollision`.
    pub open spec fn spec_from_name(name: Seq<char>) -> Self {
        if name == "sharp_state_change"@ {
            Mx4HapticPattern::SharpStateChange
        } else if name == "damp_state_change"@ {
            Mx4HapticPattern::DampStateChange
        } else if name == "sharp_collision"@ {
            Mx4HapticPattern::SharpCollision
        } else if name == "damp_collision"@ {
            Mx4HapticPattern::DampCollision
        } else if name == "subtle_collision"@ {
            Mx4HapticPattern::SubtleCollision
        } else if name == "whisper_collision"@ {
            Mx4HapticPattern::WhisperCollision
        } else if name == "happy_alert"@ {
            Mx4HapticPattern::HappyAlert
        } else if name == "angry_alert"@ {
            Mx4HapticPattern::AngryAlert
        } else if name == "completed"@ {
            Mx4HapticPattern::Completed
        } else if name == "square"@ {
            Mx4HapticPattern::Square
        } else if name == "wave"@ {
            Mx4HapticPattern::Wave
        } else if name == "firework"@ {
            Mx4HapticPattern::Firework
        } else if name == "mad"@ {
            Mx4HapticPattern::Mad
        } else if name == "knock"@ {
            Mx4HapticPattern::Knock
        } else if name == "jingle"@ {
            Mx4HapticPattern::Jingle
        } else if name == "ringing"@ {
            Mx4HapticPattern::Ringing
        } else {
            Mx4HapticPattern::SubtleCollision
        }
    }

    /// The waveform's identifier for the wire.
    #[verifier::when_used_as_spec(spec_to_id)]
    pub fn to_id(self) -> (id: u8)
        ensures
            id == self.spec_to_id(),
            id <= 0x1B,
    {
        match self {
            Mx4HapticPattern::SharpStateChange => 0x00,
            Mx4HapticPattern::DampStateChange => 0x01,
            Mx4HapticPattern::SharpCollision => 0x02,
            Mx4HapticPattern::DampCollision => 0x03,
            Mx4HapticPattern::SubtleCollision => 0x04,
            Mx4HapticPattern::HappyAlert => 0x05,
            Mx4HapticPattern::AngryAlert => 0x06,
            Mx4HapticPattern::Completed => 0x07,
            Mx4HapticPattern::Square => 0x08,
            Mx4HapticPattern::Wave => 0x09,
            Mx4HapticPattern::Firework => 0x0A,
            Mx4HapticPattern::Mad => 0x0B,
            Mx4HapticPattern::Knock => 0x0C,
            Mx4HapticPattern::Jingle => 0x0D,
            Mx4HapticPattern::Ringing => 0x0E,
            Mx4HapticPattern::WhisperCollision => 0x1B,
        }
    }

    /// The waveform with the given identifier; `None` for an identifier that
    /// names no waveform.
    #[verifier::when_used_as_spec(spec_from_id)]
    pub fn from_id(id: u8) -> (pattern: Option<Self>)
        ensures
            pattern == Self::spec_from_id(id),
            pattern matches Some(p) ==> p.spec_to_id() == id,
    {
        if id == 0x00 {
            Some(Mx4HapticPattern::SharpStateChange)
        } else if id == 0x01 {
            Some(Mx4HapticPattern::DampStateChange)
        } else if id == 0x02 {
            Some(Mx4HapticPattern::SharpCollision)
        } else if id == 0x03 {
            Some(Mx4HapticPattern::DampCollision)
        } else if id == 0x04 {
            Some(Mx4HapticPattern::SubtleCollision)
        } else if id == 0x05 {
            Some(Mx4HapticPattern::HappyAlert)
        } else if id == 0x06 {
            Some(Mx4HapticPattern::AngryAlert)
        } else if id == 0x07 {
            Some(Mx4HapticPattern::Completed)
        } else if id == 0x08 {
            Some(Mx4HapticPattern::Square)
        } else if id == 0x09 {
            Some(Mx4HapticPattern::Wave)
        } else if id == 0x0A {
            Some(Mx4HapticPattern::Firework)
        } else if id == 0x0B {
            Some(Mx4HapticPattern::Mad)
        } else if id == 0x0C {
            Some(Mx4HapticPattern::Knock)
        } else if id == 0x0D {
            Some(Mx4HapticPattern::Jingle)
        } else if id == 0x0E {
            Some(Mx4HapticPattern::Ringing)
        } else if id == 0x1B {
            Some(Mx4HapticPattern::WhisperCollision)
        } else {
            None
        }
    }

    /// The waveform's display name.
    #[verifier::when_used_as_spec(spec_name)]
    pub fn name(&self) -> (text: &'static str)
        ensures
            text == self.spec_name(),
    {
        match self {
            Mx4HapticPattern::SharpStateChange => "Sharp State Change",
            Mx4HapticPattern::DampStateChange => "Damp State Change",
            Mx4HapticPattern::SharpCollision => "Sharp Collision",
            Mx4HapticPattern::DampCollision => "Damp Collision",
            Mx4HapticPattern::SubtleCollision => "Subtle Collision",
            Mx4HapticPattern::HappyAlert => "Happy Alert",
            Mx4HapticPattern::AngryAlert => "Angry Alert",
            Mx4HapticPattern::Completed => "Completed",
            Mx4HapticPattern::Square => "Square",
            Mx4HapticPattern::Wave => "Wave",
            Mx4HapticPattern::Firework => "Firework",
            Mx4HapticPattern::Mad => "Mad",
            Mx4HapticPattern::Knock => "Knock",
            Mx4HapticPattern::Jingle => "Jingle",
            Mx4HapticPattern::Ringing => "Ringing",
            Mx4HapticPattern::WhisperCollision => "Whisper Collision",
        }
    }

    /// Resolves a configuration name, written in snake case, to a waveform.
    /// An unrecognised name resolves to `SubtleCollision`; it is never an
    /// error.
    pub fn from_name(name: &str) -> (pattern: Self)
        ensures
            pattern == Self::spec_from_name(name@),
    {
        if same_text(name, "sharp_state_change") {
            Mx4HapticPattern::SharpStateChange
        } else if same_text(name, "damp_state_change") {
            Mx4HapticPattern::DampStateChange
        } else if same_text(name, "sharp_collision") {
            Mx4HapticPattern::SharpCollision
        } else if same_text(name, "damp_collision") {
            Mx4HapticPattern::DampCollision
        } else if same_text(name, "subtle_collision") {
            Mx4HapticPattern::SubtleCollision
        } else if same_text(name, "whisper_collision") {
            Mx4HapticPattern::WhisperCollision
        } else if same_text(name, "happy_alert") {
            Mx4HapticPattern::HappyAlert
        } else if same_text(name, "angry_alert") {
            Mx4HapticPattern::AngryAlert
        } else if same_text(name, "completed") {
            Mx4HapticPattern::Completed
        } else if same_text(name, "square") {
            Mx4HapticPattern::Square
        } else if same_text(name, "wave") {
            Mx4HapticPattern::Wave
        } else if same_text(name, "firework") {
            Mx4HapticPattern::Firework
        } else if same_text(name, "mad") {
            Mx4HapticPattern::Mad
        } else if same_text(name, "knock") {
            Mx4HapticPattern::Knock
        } else if same_text(name, "jingle") {
            Mx4HapticPattern::Jingle
        } else if same_text(name, "ringing") {
            Mx4HapticPattern::Ringing
        } else {
            Mx4HapticPattern::SubtleCollision
        }
    }
}

/// A pattern's steps hold as many pulses as the pattern counts, each two
/// parted by the pattern's gap: the steps alternate between pulse and gap,
/// start and end with a pulse, and every gap is the pattern's.
pub proof fn lemma_steps_follow_pattern(pattern: HapticPattern)
    ensures
        pattern.spec_steps().len() == 2 * pattern.spec_pulse_count() - 1,
        forall|i: int|
            0 <= i < pattern.spec_steps().len() ==> #[trigger] pattern.spec_steps()[i] == (if i % 2
                == 0 {
                PatternStep::Pulse
            } else {
                PatternStep::Gap(pattern.spec_gap_ms())
            }),
{
}

/// Every waveform is found again by its identifier.
pub proof fn lemma_waveform_id_round_trip(pattern: Mx4HapticPattern)
    ensures
        Mx4HapticPattern::spec_from_id(pattern.spec_to_id()) == Some(pattern),
{
}

/// A menu interaction that is answered with haptic feedback.
#[derive(Debug, Clone, Copy, PartialEq, Eq, Structural)]
pub enum HapticEvent {
    /// The radial menu appears on screen.
    MenuAppear,
    /// The cursor moves onto another slice.
    SliceChange,
    /// The user confirms a selection.
    SelectionConfirm,
    /// The user selects an empty or invalid slice.
    InvalidAction,
}

impl HapticEvent {
    /// Intensity and duration of the event's legacy pulse.
    pub open spec fn spec_base_profile(&self) -> HapticPulse {
        match self {
            HapticEvent::MenuAppear => haptic_profiles::menu_appear(),
            HapticEvent::SliceChange => haptic_profiles::slice_change(),
            HapticEvent::SelectionConfirm => haptic_profiles::confirm(),
            HapticEvent::InvalidAction => haptic_profiles::invalid(),
        }
    }

    /// The event's pulse pattern.
    pub open spec fn spec_pattern(&self) -> HapticPattern {
        match self {
            HapticEvent::MenuAppear => HapticPattern::Single,
            HapticEvent::SliceChange => HapticPattern::Single,
            HapticEvent::SelectionConfirm => HapticPattern::Double,
            HapticEvent::InvalidAction => HapticPattern::Triple,
        }
    }

    /// The waveform that matches the event's feel.
    pub open spec fn spec_mx4_pattern(&self) -> Mx4HapticPattern {
        match self {
            HapticEvent::MenuAppear => Mx4HapticPattern::SubtleCollision,
            HapticEvent::SliceChange => Mx4HapticPattern::SharpStateChange,
            HapticEvent::SelectionConfirm => Mx4HapticPattern::Completed,
            HapticEvent::InvalidAction => Mx4HapticPattern::AngryAlert,
        }
    }

    /// The event's name in configuration and on the control surface.
    pub open spec fn spec_name(&self) -> &'static str {
        match self {
            HapticEvent::MenuAppear => "menu_appear",
            HapticEvent::SliceChange => "slice_change",
            HapticEvent::SelectionConfirm => "selection_confirm",
            HapticEvent::InvalidAction => "invalid_action",
        }
    }

    /// The event that a name stands for; `None` for a name that no event
    /// has.
    pub open spec fn spec_from_name(name: Seq<char>) -> Option<HapticEvent> {
        if name == "menu_appear"@ {
            Some(HapticEvent::MenuAppear)
        } else if name == "slice_change"@ {
            Some(HapticEvent::SliceChange)
        } else if name == "selection_confirm"@ {
            Some(HapticEvent::SelectionConfirm)
        } else if name == "invalid_action"@ {
            Some(HapticEvent::InvalidAction)
        } else {
            None
        }
    }

    /// Resolves the name of an event, as the control surface gives it.
    pub fn from_name(name: &str) -> (event: Option<HapticEvent>)
        ensures
            event == Self::spec_from_name(name@),
    {
        if same_text(name, "menu_appear") {
            Some(HapticEvent::MenuAppear)
        } else if same_text(name, "slice_change") {
            Some(HapticEvent::SliceChange)
        } else if same_text(name, "selection_confirm") {
            Some(HapticEvent::SelectionConfirm)
        } else if same_text(name, "invalid_action") {
            Some(HapticEvent::InvalidAction)
        } else {
            None
        }
    }

    /// Intensity and duration of the event's legacy pulse.
    #[verifier::when_used_as_spec(spec_base_profile)]
    pub fn base_profile(&self) -> (profile: HapticPulse)
        ensures
            profile == self.spec_base_profile(),
    {
        match self {
            HapticEvent::MenuAppear => haptic_profiles::menu_appear(),
            HapticEvent::SliceChange => haptic_profiles::slice_change(),
            HapticEvent::SelectionConfirm => haptic_profiles::confirm(),
            HapticEvent::InvalidAction => haptic_profiles::invalid(),
        }
    }

    /// The event's pulse pattern.
    #[verifier::when_used_as_spec(spec_pattern)]
    pub fn pattern(&self) -> (pattern: HapticPattern)
        ensures
            pattern == self.spec_pattern(),
    {
        match self {
            HapticEvent::MenuAppear => HapticPattern::Single,
            HapticEvent::SliceChange => HapticPattern::Single,
            HapticEvent::SelectionConfirm => HapticPattern::Double,
            HapticEvent::InvalidAction => HapticPattern::Triple,
        }
    }

    /// The event's default intensity, 0 to 100.
    pub fn default_intensity(&self) -> (intensity: u8)
        ensures
            intensity == self.spec_base_profile().intensity,
    {
        self.base_profile().intensity
    }

    /// The duration of the event's legacy pulse in milliseconds.
    pub fn duration_ms(&self) -> (duration: u16)
        ensures
            duration == self.spec_base_profile().duration_ms,
    {
        self.base_profile().duration_ms
    }

    /// The waveform that matches the event's feel.
    #[verifier::when_used_as_spec(spec_mx4_pattern)]
    pub fn mx4_pattern(&self) -> (pattern: Mx4HapticPattern)
        ensures
            pattern == self.spec_mx4_pattern(),
    {
        match self {
            HapticEvent::MenuAppear => Mx4HapticPattern::SubtleCollision,
            HapticEvent::SliceChange => Mx4HapticPattern::SharpStateChange,
            HapticEvent::SelectionConfirm => Mx4HapticPattern::Completed,
            HapticEvent::InvalidAction => Mx4HapticPattern::AngryAlert,
        }
    }

    /// The event's name in configuration and on the control surface.
    pub fn to_string(&self) -> (text: String)
        ensures
            text@ == self.spec_name()@,
    {
        match self {
            HapticEvent::MenuAppear => String::from_str("menu_appear"),
            HapticEvent::SliceChange => String::from_str("slice_change"),
            HapticEvent::SelectionConfirm => String::from_str("selection_confirm"),
            HapticEvent::InvalidAction => String::from_str("invalid_action"),
        }
    }
}

/// Every event is found again by its name.
pub proof fn lemma_event_name_round_trip(event: HapticEvent)
    ensures
        HapticEvent::spec_from_name(event.spec_name()@) == Some(event),
{
    reveal_strlit("menu_appear");
    reveal_strlit("slice_change");
    reveal_strlit("selection_confirm");
    reveal_strlit("invalid_action");
    assert("slice_change"@.len() == 12);
    assert("selection_confirm"@.len() == 17);
    assert("invalid_action"@.len() == 14);
}

/// The waveform that is played for each event.
#[derive(Debug, Clone, Copy, PartialEq, Eq, Structural)]
pub struct PerEventPattern {
    /// Waveform for the menu's appearance.
    pub menu_appear: Mx4HapticPattern,
    /// Waveform for a slice change.
    pub slice_change: Mx4HapticPattern,
    /// Waveform for a confirmed selection.
    pub confirm: Mx4HapticPattern,
    /// Waveform for an invalid action.
    pub invalid: Mx4HapticPattern,
}

impl Default for PerEventPattern {
    fn default() -> (patterns: Self)
        ensures
            patterns == Self::spec_default(),
    {
        Self {
            menu_appear: Mx4HapticPattern::DampStateChange,
            slice_change: Mx4HapticPattern::SubtleCollision,
            confirm: Mx4HapticPattern::SharpStateChange,
            invalid: Mx4HapticPattern::AngryAlert,
        }
    }
}

impl PerEventPattern {
    /// The waveforms that are played where nothing is configured.
    pub open spec fn spec_default() -> Self {
        PerEventPattern {
            menu_appear: Mx4HapticPattern::DampStateChange,
            slice_change: Mx4HapticPattern::SubtleCollision,
            confirm: Mx4HapticPattern::SharpStateChange,
            invalid: Mx4HapticPattern::AngryAlert,
        }
    }

    /// The waveform configured for an event.
    pub open spec fn spec_get(&self, event: &HapticEvent) -> Mx4HapticPattern {
        match event {
            HapticEvent::MenuAppear => self.menu_appear,
            HapticEvent::SliceChange => self.slice_change,
            HapticEvent::SelectionConfirm => self.confirm,
            HapticEvent::InvalidAction => self.invalid,
        }
    }

    /// The waveform configured for an event.
    #[verifier::when_used_as_spec(spec_get)]
    pub fn get(&self, event: &HapticEvent) -> (pattern: Mx4HapticPattern)
        ensures
            pattern == self.spec_get(event),
    {
        match event {
            HapticEvent::MenuAppear => self.menu_appear,
            HapticEvent::SliceChange => self.slice_change,
            HapticEvent::SelectionConfirm => self.confirm,
            HapticEvent::InvalidAction => self.invalid,
        }
    }
}

} // verus!
