use vstd::prelude::*;
use vstd::std_specs::cmp::{PartialOrdSpec, PartialOrdSpecImpl};
use core::cmp::Ordering;
use crate::decimal::{decimal_text, push_decimal};

verus! {

/// The kind of an animation event, identified by its raw engine number.
///
/// Raw numbers fall in ranges: specific to one monster from `SPECIFIC`, scripted from
/// `SCRIPTED`, shared from `SHARED`, and client-side from `CLIENT` on.
#[derive(Clone, Copy, Debug, PartialEq, Eq, Structural, Ord)]
pub struct EventKind(i32);

/// The name of the event kind with the raw number `raw`, if it is one of the named ones.
pub open spec fn event_kind_name(raw: i32) -> Option<&'static str> {
    match raw {
        1000i32 => Some("SCRIPT_DEAD"),
        1001i32 => Some("SCRIPT_NOINTERRUPT"),
        1002i32 => Some("SCRIPT_CANINTERRUPT"),
        1003i32 => Some("SCRIPT_FIREEVENT"),
        1004i32 => Some("SCRIPT_SOUND"),
        1005i32 => Some("SCRIPT_SENTENCE"),
        1006i32 => Some("SCRIPT_INAIR"),
        1007i32 => Some("SCRIPT_ENDANIMATION"),
        1008i32 => Some("SCRIPT_SOUND_VOICE"),
        1009i32 => Some("SCRIPT_SENTENCE_RND1"),
        1010i32 => Some("SCRIPT_NOT_DEAD"),
        2001i32 => Some("MONSTER_BODYDROP_LIGHT"),
        2002i32 => Some("MONSTER_BODYDROP_HEAVY"),
        2010i32 => Some("MONSTER_SWISHSOUND"),
        _ => None,
    }
}

/// What `EventKind::to_string` gives for the raw number `raw`.
pub open spec fn event_kind_text(raw: i32) -> Seq<char> {
    match event_kind_name(raw) {
        Some(name) => "event("@ + decimal_text(raw) + ", "@ + name@ + ")"@,
        None => "event("@ + decimal_text(raw) + ")"@,
    }
}

/// Whether `raw` lies in the range of monster-specific events.
pub open spec fn is_specific_raw(raw: i32) -> bool {
    EventKind::SPECIFIC <= raw < EventKind::SCRIPTED
}

/// Whether `raw` lies in the range of scripted events.
pub open spec fn is_scripted_raw(raw: i32) -> bool {
    EventKind::SCRIPTED <= raw < EventKind::SHARED
}

/// Whether `raw` lies in the range of shared events.
pub open spec fn is_shared_raw(raw: i32) -> bool {
    EventKind::SHARED <= raw < EventKind::CLIENT
}

/// Whether `raw` lies in the range of client-side events.
pub open spec fn is_client_raw(raw: i32) -> bool {
    raw >= EventKind::CLIENT
}

/// Whether `raw` is one of the two kinds that play a sound file.
pub open spec fn is_script_sound_raw(raw: i32) -> bool {
    raw == EventKind::SCRIPT_SOUND || raw == EventKind::SCRIPT_SOUND_VOICE
}

impl EventKind {
    /// First raw number of the monster-specific range.
    pub const SPECIFIC: i32 = 0;
    /// First raw number of the scripted range.
    pub const SCRIPTED: i32 = 1000;
    /// First raw number of the shared range.
    pub const SHARED: i32 = 2000;
    /// First raw number of the client-side range.
    pub const CLIENT: i32 = 5000;

    /// Character is now dead.
    pub const SCRIPT_DEAD: i32 = 1000;
    /// Does not allow interrupt.
    pub const SCRIPT_NOINTERRUPT: i32 = 1001;
    /// Will allow interrupt.
    pub const SCRIPT_CANINTERRUPT: i32 = 1002;
    /// Event now fires.
    pub const SCRIPT_FIREEVENT: i32 = 1003;
    /// Play named wave file (body channel).
    pub const SCRIPT_SOUND: i32 = 1004;
    /// Play named sentence.
    pub const SCRIPT_SENTENCE: i32 = 1005;
    /// Leave the character in air at the end of the sequence (do not find the floor).
    pub const SCRIPT_INAIR: i32 = 1006;
    /// Set the animation by name after the sequence completes.
    pub const SCRIPT_ENDANIMATION: i32 = 1007;
    /// Play named wave file (voice channel).
    pub const SCRIPT_SOUND_VOICE: i32 = 1008;
    /// Play sentence group 25% of the time.
    pub const SCRIPT_SENTENCE_RND1: i32 = 1009;
    /// Bring back to life (for life/death sequences).
    pub const SCRIPT_NOT_DEAD: i32 = 1010;
    pub const MONSTER_BODYDROP_LIGHT: i32 = 2001;
    pub const MONSTER_BODYDROP_HEAVY: i32 = 2002;
    pub const MONSTER_SWISHSOUND: i32 = 2010;

    /// The raw engine number of this event kind.
    pub closed spec fn raw(self) -> i32 {
        self.0
    }

    /// The event kind with the raw number `raw`.
    pub closed spec fn spec_from_raw(raw: i32) -> EventKind {
        EventKind(raw)
    }

    pub fn from_raw(raw: i32) -> (r: Self)
        ensures
            r == EventKind::spec_from_raw(raw),
            r.raw() == raw,
    {
        EventKind(raw)
    }

    pub fn into_raw(self) -> (r: i32)
        ensures
            r == self.raw(),
    {
        self.0
    }

    pub fn is_specific(&self) -> (r: bool)
        ensures
            r == is_specific_raw(self.raw()),
    {
        let raw = self.into_raw();
        raw >= Self::SPECIFIC && raw < Self::SCRIPTED
    }

    pub fn is_scripted(&self) -> (r: bool)
        ensures
            r == is_scripted_raw(self.raw()),
    {
        let raw = self.into_raw();
        raw >= Self::SCRIPTED && raw < Self::SHARED
    }

    pub fn is_shared(&self) -> (r: bool)
        ensures
            r == is_shared_raw(self.raw()),
    {
        let raw = self.into_raw();
        raw >= Self::SHARED && raw < Self::CLIENT
    }

    pub fn is_client(&self) -> (r: bool)
        ensures
            r == is_client_raw(self.raw()),
    {
        let raw = self.into_raw();
        raw >= Self::CLIENT
    }

    /// Whether this event plays a named sound file (body or voice channel).
    pub fn is_script_sound(&self) -> (r: bool)
        ensures
            r == is_script_sound_raw(self.raw()),
    {
        self.0 == Self::SCRIPT_SOUND || self.0 == Self::SCRIPT_SOUND_VOICE
    }

    /// The name of this event kind, if it is one of the named ones.
    fn const_as_str(&self) -> (r: Option<&'static str>)
        ensures
            r == event_kind_name(self.raw()),
    {
        match self.0 {
            1000 => Some("SCRIPT_DEAD"),
            1001 => Some("SCRIPT_NOINTERRUPT"),
            1002 => Some("SCRIPT_CANINTERRUPT"),
            1003 => Some("SCRIPT_FIREEVENT"),
            1004 => Some("SCRIPT_SOUND"),
            1005 => Some("SCRIPT_SENTENCE"),
            1006 => Some("SCRIPT_INAIR"),
            1007 => Some("SCRIPT_ENDANIMATION"),
            1008 => Some("SCRIPT_SOUND_VOICE"),
            1009 => Some("SCRIPT_SENTENCE_RND1"),
            1010 => Some("SCRIPT_NOT_DEAD"),
            2001 => Some("MONSTER_BODYDROP_LIGHT"),
            2002 => Some("MONSTER_BODYDROP_HEAVY"),
            2010 => Some("MONSTER_SWISHSOUND"),
            _ => None,
        }
    }

    /// The display text: `event(<raw>, <name>)` for a named kind, `event(<raw>)` otherwise.
    pub fn to_string(&self) -> (r: String)
        ensures
            r@ == event_kind_text(self.raw()),
    {
        let mut s = String::from_str("event(");
        push_decimal(&mut s, self.0);
        match self.const_as_str() {
            Some(name) => {
                s.append(", ");
                s.append(name);
            },
            None => {},
        }
        s.append(")");
        s
    }
}

/// Event kinds are ordered by their raw numbers.
impl PartialOrd for EventKind {
    fn partial_cmp(&self, other: &Self) -> (r: Option<Ordering>) {
        if self.0 < other.0 {
            Some(Ordering::Less)
        } else if self.0 == other.0 {
            Some(Ordering::Equal)
        } else {
            Some(Ordering::Greater)
        }
    }
}

impl PartialOrdSpecImpl for EventKind {
    open spec fn obeys_partial_cmp_spec() -> bool {
        true
    }

    closed spec fn partial_cmp_spec(&self, other: &Self) -> Option<Ordering> {
        if self.0 < other.0 {
            Some(Ordering::Less)
        } else if self.0 == other.0 {
            Some(Ordering::Equal)
        } else {
            Some(Ordering::Greater)
        }
    }
}

/// Event kinds compare as their raw numbers do: one is below another exactly when its
/// raw number is, and they are equal exactly when their raw numbers are.
pub proof fn law_event_kind_order(x: EventKind, y: EventKind)
    ensures
        PartialOrdSpec::partial_cmp_spec(&x, &y) == Some(Ordering::Less) <==> x.raw() < y.raw(),
        PartialOrdSpec::partial_cmp_spec(&x, &y) == Some(Ordering::Equal) <==> x.raw() == y.raw(),
        PartialOrdSpec::partial_cmp_spec(&x, &y) == Some(Ordering::Greater) <==> x.raw() > y.raw(),
        x.raw() == y.raw() <==> x == y,
{
}

impl Default for EventKind {
    fn default() -> (r: Self)
        ensures
            r.raw() == 0,
    {
        EventKind(0)
    }
}

/// An event kind and its raw number determine each other.
pub proof fn law_event_kind_raw_round_trip(k: EventKind, raw: i32)
    ensures
        EventKind::spec_from_raw(raw).raw() == raw,
        EventKind::spec_from_raw(k.raw()) == k,
{
}

/// The four ranges do not overlap, and together they cover every raw number that is not
/// negative: a negative raw number is in none of them.
pub proof fn law_event_kind_ranges_partition(raw: i32)
    ensures
        raw >= 0 ==> (is_specific_raw(raw) || is_scripted_raw(raw) || is_shared_raw(raw) || is_client_raw(raw)),
        raw < 0 ==> !(is_specific_raw(raw) || is_scripted_raw(raw) || is_shared_raw(raw) || is_client_raw(raw)),
        !(is_specific_raw(raw) && is_scripted_raw(raw)),
        !(is_specific_raw(raw) && is_shared_raw(raw)),
        !(is_specific_raw(raw) && is_client_raw(raw)),
        !(is_scripted_raw(raw) && is_shared_raw(raw)),
        !(is_scripted_raw(raw) && is_client_raw(raw)),
        !(is_shared_raw(raw) && is_client_raw(raw)),
{
}

/// Both sound-playing kinds are scripted events, and both are named.
pub proof fn law_script_sound_is_scripted(raw: i32)
    ensures
        is_script_sound_raw(raw) ==> is_scripted_raw(raw) && event_kind_name(raw) is Some,
{
}

/// The two sound-playing kinds are exactly raw 1004 (a sound on the body channel) and
/// raw 1008 (a sound on the voice channel); no other kind plays a sound.
pub proof fn law_script_sound_kinds(raw: i32)
    ensures
        is_script_sound_raw(raw) <==> (raw == 1004 || raw == 1008),
{
}

/// The ranges in raw numbers: monster-specific events are 0 to 999, scripted ones 1000 to
/// 1999, shared ones 2000 to 4999, and client-side ones 5000 and above.
pub proof fn law_event_kind_range_bounds(raw: i32)
    ensures
        is_specific_raw(raw) <==> 0 <= raw <= 999,
        is_scripted_raw(raw) <==> 1000 <= raw <= 1999,
        is_shared_raw(raw) <==> 2000 <= raw <= 4999,
        is_client_raw(raw) <==> raw >= 5000,
{
}

/// The names of the named event kinds by raw number, and no name for any other number.
pub proof fn law_event_kind_name_table(x: i32)
    ensures
        event_kind_name(1000) == Some("SCRIPT_DEAD"),
        event_kind_name(1001) == Some("SCRIPT_NOINTERRUPT"),
        event_kind_name(1002) == Some("SCRIPT_CANINTERRUPT"),
        event_kind_name(1003) == Some("SCRIPT_FIREEVENT"),
        event_kind_name(1004) == Some("SCRIPT_SOUND"),
        event_kind_name(1005) == Some("SCRIPT_SENTENCE"),
        event_kind_name(1006) == Some("SCRIPT_INAIR"),
        event_kind_name(1007) == Some("SCRIPT_ENDANIMATION"),
        event_kind_name(1008) == Some("SCRIPT_SOUND_VOICE"),
        event_kind_name(1009) == Some("SCRIPT_SENTENCE_RND1"),
        event_kind_name(1010) == Some("SCRIPT_NOT_DEAD"),
        event_kind_name(2001) == Some("MONSTER_BODYDROP_LIGHT"),
        event_kind_name(2002) == Some("MONSTER_BODYDROP_HEAVY"),
        event_kind_name(2010) == Some("MONSTER_SWISHSOUND"),
        event_kind_name(x) is Some <==> (x == 1000 || x == 1001 || x == 1002 || x == 1003 || x == 1004 || x == 1005 || x == 1006 || x == 1007 || x == 1008 || x == 1009 || x == 1010 || x == 2001 || x == 2002 || x == 2010),
{
}

} // verus!
