//! Emotional expression taxonomy.
use vstd::prelude::*;

verus! {

/// High-level emotional state of the avatar. Modifiers and renderers may
/// change their behaviour based on this.
#[derive(Debug, Clone, Copy, PartialEq, Eq, Structural, Default)]
#[non_exhaustive]
pub enum Emotion {
    /// Baseline / resting face.
    #[default]
    Neutral,
    /// Happy / positive affect.
    Happy,
    /// Sad / negative affect.
    Sad,
    /// Sleepy / eyes half-closed.
    Sleepy,
    /// Surprised / wide-eyed.
    Surprised,
    /// Angry / narrowed eyes + frown. Reactive only.
    Angry,
    /// Skeptical / questioning.
    Doubt,
    /// Disinterested / under-engaged.
    Boring,
    /// Outgoing greeting / wave-hello affect.
    Hi,
    /// Smitten / affectionate.
    Loved,
    /// Curiously interested.
    Curious,
    /// Uncertain / processing.
    Confused,
    /// Furious / much hotter than `Angry`. Reactive only.
    Mad,
}

impl Emotion {
    /// The BLE wire byte of an emotion: its declaration index.
    pub open spec fn spec_wire_byte(self) -> u8 {
        match self {
            Emotion::Neutral => 0,
            Emotion::Happy => 1,
            Emotion::Sad => 2,
            Emotion::Sleepy => 3,
            Emotion::Surprised => 4,
            Emotion::Angry => 5,
            Emotion::Doubt => 6,
            Emotion::Boring => 7,
            Emotion::Hi => 8,
            Emotion::Loved => 9,
            Emotion::Curious => 10,
            Emotion::Confused => 11,
            Emotion::Mad => 12,
        }
    }

    /// The lowercase HTTP wire name of an emotion.
    pub open spec fn spec_wire_str(self) -> Seq<char> {
        match self {
            Emotion::Neutral => "neutral"@,
            Emotion::Happy => "happy"@,
            Emotion::Sad => "sad"@,
            Emotion::Sleepy => "sleepy"@,
            Emotion::Surprised => "surprised"@,
            Emotion::Angry => "angry"@,
            Emotion::Doubt => "doubt"@,
            Emotion::Boring => "boring"@,
            Emotion::Hi => "hi"@,
            Emotion::Loved => "loved"@,
            Emotion::Curious => "curious"@,
            Emotion::Confused => "confused"@,
            Emotion::Mad => "mad"@,
        }
    }

    /// Lowercase wire name for the HTTP control plane.
    pub fn wire_str(self) -> (r: &'static str)
        ensures
            r@ == self.spec_wire_str(),
    {
        match self {
            Emotion::Neutral => "neutral",
            Emotion::Happy => "happy",
            Emotion::Sad => "sad",
            Emotion::Sleepy => "sleepy",
            Emotion::Surprised => "surprised",
            Emotion::Angry => "angry",
            Emotion::Doubt => "doubt",
            Emotion::Boring => "boring",
            Emotion::Hi => "hi",
            Emotion::Loved => "loved",
            Emotion::Curious => "curious",
            Emotion::Confused => "confused",
            Emotion::Mad => "mad",
        }
    }

    /// Single-byte wire encoding for the BLE GATT surface. Append-only.
    pub fn wire_byte(self) -> (r: u8)
        ensures
            r == self.spec_wire_byte(),
    {
        match self {
            Emotion::Neutral => 0,
            Emotion::Happy => 1,
            Emotion::Sad => 2,
            Emotion::Sleepy => 3,
            Emotion::Surprised => 4,
            Emotion::Angry => 5,
            Emotion::Doubt => 6,
            Emotion::Boring => 7,
            Emotion::Hi => 8,
            Emotion::Loved => 9,
            Emotion::Curious => 10,
            Emotion::Confused => 11,
            Emotion::Mad => 12,
        }
    }

    /// Every variant in declaration order.
    pub const ALL: &'static [Emotion; 13] = &[
        Emotion::Neutral,
        Emotion::Happy,
        Emotion::Sad,
        Emotion::Sleepy,
        Emotion::Surprised,
        Emotion::Angry,
        Emotion::Doubt,
        Emotion::Boring,
        Emotion::Hi,
        Emotion::Loved,
        Emotion::Curious,
        Emotion::Confused,
        Emotion::Mad,
    ];
}

/// Wire bytes are one-to-one: two emotions share a byte only if they are
/// the same emotion.
pub proof fn lemma_emotion_wire_byte_injective(a: Emotion, b: Emotion)
    ensures
        a.spec_wire_byte() == b.spec_wire_byte() ==> a == b,
{
}

/// Wire names are one-to-one: two emotions share a name only if they are
/// the same emotion.
pub proof fn lemma_emotion_wire_str_injective(a: Emotion, b: Emotion)
    ensures
        a.spec_wire_str() == b.spec_wire_str() ==> a == b,
{
    reveal_strlit("neutral");
    reveal_strlit("happy");
    reveal_strlit("sad");
    reveal_strlit("sleepy");
    reveal_strlit("surprised");
    reveal_strlit("angry");
    reveal_strlit("doubt");
    reveal_strlit("boring");
    reveal_strlit("hi");
    reveal_strlit("loved");
    reveal_strlit("curious");
    reveal_strlit("confused");
    reveal_strlit("mad");
    if a.spec_wire_str() == b.spec_wire_str() {
        assert(a.spec_wire_str().len() == b.spec_wire_str().len());
        assert(a.spec_wire_str()[0] == b.spec_wire_str()[0]);
    }
}

/// Every wire name is non-empty and made of lowercase ASCII letters only.
pub proof fn lemma_emotion_wire_str_lowercase(e: Emotion)
    ensures
        e.spec_wire_str().len() > 0,
        forall|i: int| 0 <= i < e.spec_wire_str().len() ==> 'a' <= #[trigger] e.spec_wire_str()[i] <= 'z',
{
    reveal_strlit("neutral");
    reveal_strlit("happy");
    reveal_strlit("sad");
    reveal_strlit("sleepy");
    reveal_strlit("surprised");
    reveal_strlit("angry");
    reveal_strlit("doubt");
    reveal_strlit("boring");
    reveal_strlit("hi");
    reveal_strlit("loved");
    reveal_strlit("curious");
    reveal_strlit("confused");
    reveal_strlit("mad");
}

} // verus!
