use vstd::prelude::*;
use vstd::std_specs::cmp::{PartialOrdSpec, PartialOrdSpecImpl};
use core::cmp::Ordering;
use crate::decimal::{decimal_text, push_decimal};

verus! {

/// A monster activity, identified by its raw engine number.
///
/// Any number is an activity; the named ones are listed as raw numbers on the type.
#[derive(Clone, Copy, Debug, PartialEq, Eq, Structural, Ord)]
pub struct Activity(i32);

/// The name of the activity with the raw number `raw`, if it is one of the named ones.
pub open spec fn activity_name(raw: i32) -> Option<&'static str> {
    match raw {
        0i32 => Some("RESET"),
        1i32 => Some("IDLE"),
        2i32 => Some("GUARD"),
        3i32 => Some("WALK"),
        4i32 => Some("RUN"),
        5i32 => Some("FLY"),
        6i32 => Some("SWIM"),
        7i32 => Some("HOP"),
        8i32 => Some("LEAP"),
        9i32 => Some("FALL"),
        10i32 => Some("LAND"),
        11i32 => Some("STRAFE_LEFT"),
        12i32 => Some("STRAFE_RIGHT"),
        13i32 => Some("ROLL_LEFT"),
        14i32 => Some("ROLL_RIGHT"),
        15i32 => Some("TURN_LEFT"),
        16i32 => Some("TURN_RIGHT"),
        17i32 => Some("CROUCH"),
        18i32 => Some("CROUCHIDLE"),
        19i32 => Some("STAND"),
        20i32 => Some("USE"),
        21i32 => Some("SIGNAL1"),
        22i32 => Some("SIGNAL2"),
        23i32 => Some("SIGNAL3"),
        24i32 => Some("TWITCH"),
        25i32 => Some("COWER"),
        26i32 => Some("SMALL_FLINCH"),
        27i32 => Some("BIG_FLINCH"),
        28i32 => Some("RANGE_ATTACK1"),
        29i32 => Some("RANGE_ATTACK2"),
        30i32 => Some("MELEE_ATTACK1"),
        31i32 => Some("MELEE_ATTACK2"),
        32i32 => Some("RELOAD"),
        33i32 => Some("ARM"),
        34i32 => Some("DISARM"),
        35i32 => Some("EAT"),
        36i32 => Some("DIESIMPLE"),
        37i32 => Some("DIEBACKWARD"),
        38i32 => Some("DIEFORWARD"),
        39i32 => Some("DIEVIOLENT"),
        40i32 => Some("BARNACLE_HIT"),
        41i32 => Some("BARNACLE_PULL"),
        42i32 => Some("BARNACLE_CHOMP"),
        43i32 => Some("BARNACLE_CHEW"),
        44i32 => Some("SLEEP"),
        45i32 => Some("INSPECT_FLOOR"),
        46i32 => Some("INSPECT_WALL"),
        47i32 => Some("IDLE_ANGRY"),
        48i32 => Some("WALK_HURT"),
        49i32 => Some("RUN_HURT"),
        50i32 => Some("HOVER"),
        51i32 => Some("GLIDE"),
        52i32 => Some("FLY_LEFT"),
        53i32 => Some("FLY_RIGHT"),
        54i32 => Some("DETECT_SCENT"),
        55i32 => Some("SNIFF"),
        56i32 => Some("BITE"),
        57i32 => Some("THREAT_DISPLAY"),
        58i32 => Some("FEAR_DISPLAY"),
        59i32 => Some("EXCITED"),
        60i32 => Some("SPECIAL_ATTACK1"),
        61i32 => Some("SPECIAL_ATTACK2"),
        62i32 => Some("COMBAT_IDLE"),
        63i32 => Some("WALK_SCARED"),
        64i32 => Some("RUN_SCARED"),
        65i32 => Some("VICTORY_DANCE"),
        66i32 => Some("DIE_HEADSHOT"),
        67i32 => Some("DIE_CHESTSHOT"),
        68i32 => Some("DIE_GUTSHOT"),
        69i32 => Some("DIE_BACKSHOT"),
        70i32 => Some("FLINCH_HEAD"),
        71i32 => Some("FLINCH_CHEST"),
        72i32 => Some("FLINCH_STOMACH"),
        73i32 => Some("FLINCH_LEFTARM"),
        74i32 => Some("FLINCH_RIGHTARM"),
        75i32 => Some("FLINCH_LEFTLEG"),
        76i32 => Some("FLINCH_RIGHTLEG"),
        _ => None,
    }
}

/// What `Activity::to_string` gives for the raw number `raw`.
pub open spec fn activity_text(raw: i32) -> Seq<char> {
    match activity_name(raw) {
        Some(name) => "Activity("@ + decimal_text(raw) + ", "@ + name@ + ")"@,
        None => "Activity("@ + decimal_text(raw) + ")"@,
    }
}

impl Activity {
    /// Set m_Activity to this invalid value to force a reset to m_IdealActivity
    pub const RESET: i32 = 0;
    pub const IDLE: i32 = 1;
    pub const GUARD: i32 = 2;
    pub const WALK: i32 = 3;
    pub const RUN: i32 = 4;
    /// Fly (and flap if appropriate)
    pub const FLY: i32 = 5;
    pub const SWIM: i32 = 6;
    /// vertical jump
    pub const HOP: i32 = 7;
    /// long forward jump
    pub const LEAP: i32 = 8;
    pub const FALL: i32 = 9;
    pub const LAND: i32 = 10;
    pub const STRAFE_LEFT: i32 = 11;
    pub const STRAFE_RIGHT: i32 = 12;
    /// tuck and roll, left
    pub const ROLL_LEFT: i32 = 13;
    /// tuck and roll, right
    pub const ROLL_RIGHT: i32 = 14;
    /// turn quickly left (stationary)
    pub const TURN_LEFT: i32 = 15;
    /// turn quickly right (stationary)
    pub const TURN_RIGHT: i32 = 16;
    /// the act of crouching down from a standing position
    pub const CROUCH: i32 = 17;
    /// holding body in crouched position (loops)
    pub const CROUCHIDLE: i32 = 18;
    /// the act of standing from a crouched position
    pub const STAND: i32 = 19;
    pub const USE: i32 = 20;
    pub const SIGNAL1: i32 = 21;
    pub const SIGNAL2: i32 = 22;
    pub const SIGNAL3: i32 = 23;
    pub const TWITCH: i32 = 24;
    pub const COWER: i32 = 25;
    pub const SMALL_FLINCH: i32 = 26;
    pub const BIG_FLINCH: i32 = 27;
    pub const RANGE_ATTACK1: i32 = 28;
    pub const RANGE_ATTACK2: i32 = 29;
    pub const MELEE_ATTACK1: i32 = 30;
    pub const MELEE_ATTACK2: i32 = 31;
    pub const RELOAD: i32 = 32;
    /// pull out gun, for instance
    pub const ARM: i32 = 33;
    /// reholster gun
    pub const DISARM: i32 = 34;
    /// monster chowing on a large food item (loop)
    pub const EAT: i32 = 35;
    pub const DIESIMPLE: i32 = 36;
    pub const DIEBACKWARD: i32 = 37;
    pub const DIEFORWARD: i32 = 38;
    pub const DIEVIOLENT: i32 = 39;
    /// barnacle tongue hits a monster
    pub const BARNACLE_HIT: i32 = 40;
    /// barnacle is lifting the monster ( loop )
    pub const BARNACLE_PULL: i32 = 41;
    /// barnacle latches on to the monster
    pub const BARNACLE_CHOMP: i32 = 42;
    /// barnacle is holding the monster in its mouth ( loop )
    pub const BARNACLE_CHEW: i32 = 43;
    pub const SLEEP: i32 = 44;
    /// for active idles, look at something on or near the floor
    pub const INSPECT_FLOOR: i32 = 45;
    /// for active idles, look at something directly ahead of you ( doesn't HAVE to be a wall or on a wall )
    pub const INSPECT_WALL: i32 = 46;
    /// alternate idle animation in which the monster is clearly agitated. (loop)
    pub const IDLE_ANGRY: i32 = 47;
    /// limp  (loop)
    pub const WALK_HURT: i32 = 48;
    /// limp  (loop)
    pub const RUN_HURT: i32 = 49;
    /// Idle while in flight
    pub const HOVER: i32 = 50;
    /// Fly (don't flap)
    pub const GLIDE: i32 = 51;
    /// Turn left in flight
    pub const FLY_LEFT: i32 = 52;
    /// Turn right in flight
    pub const FLY_RIGHT: i32 = 53;
    /// this means the monster smells a scent carried by the air
    pub const DETECT_SCENT: i32 = 54;
    /// this is the act of actually sniffing an item in front of the monster
    pub const SNIFF: i32 = 55;
    /// some large monsters can eat small things in one bite. This plays one time, EAT loops.
    pub const BITE: i32 = 56;
    /// without attacking, monster demonstrates that it is angry. (Yell, stick out chest, etc )
    pub const THREAT_DISPLAY: i32 = 57;
    /// monster just saw something that it is afraid of
    pub const FEAR_DISPLAY: i32 = 58;
    /// for some reason, monster is excited. Sees something he really likes to eat, or whatever.
    pub const EXCITED: i32 = 59;
    /// very monster specific special attacks.
    pub const SPECIAL_ATTACK1: i32 = 60;
    pub const SPECIAL_ATTACK2: i32 = 61;
    /// agitated idle.
    pub const COMBAT_IDLE: i32 = 62;
    pub const WALK_SCARED: i32 = 63;
    pub const RUN_SCARED: i32 = 64;
    /// killed a player, do a victory dance.
    pub const VICTORY_DANCE: i32 = 65;
    /// die, hit in head.
    pub const DIE_HEADSHOT: i32 = 66;
    /// die, hit in chest
    pub const DIE_CHESTSHOT: i32 = 67;
    /// die, hit in gut
    pub const DIE_GUTSHOT: i32 = 68;
    /// die, hit in back
    pub const DIE_BACKSHOT: i32 = 69;
    pub const FLINCH_HEAD: i32 = 70;
    pub const FLINCH_CHEST: i32 = 71;
    pub const FLINCH_STOMACH: i32 = 72;
    pub const FLINCH_LEFTARM: i32 = 73;
    pub const FLINCH_RIGHTARM: i32 = 74;
    pub const FLINCH_LEFTLEG: i32 = 75;
    pub const FLINCH_RIGHTLEG: i32 = 76;

    /// The raw engine number of this activity.
    pub closed spec fn raw(self) -> i32 {
        self.0
    }

    /// The activity with the raw number `raw`.
    pub closed spec fn spec_from_raw(raw: i32) -> Activity {
        Activity(raw)
    }

    pub fn from_raw(raw: i32) -> (r: Self)
        ensures
            r == Activity::spec_from_raw(raw),
            r.raw() == raw,
    {
        Activity(raw)
    }

    pub fn into_raw(self) -> (r: i32)
        ensures
            r == self.raw(),
    {
        self.0
    }

    /// The name of this activity, if it is one of the named ones.
    pub fn as_str(&self) -> (r: Option<&'static str>)
        ensures
            r == activity_name(self.raw()),
    {
        match self.0 {
            0 => Some("RESET"),
            1 => Some("IDLE"),
            2 => Some("GUARD"),
            3 => Some("WALK"),
            4 => Some("RUN"),
            5 => Some("FLY"),
            6 => Some("SWIM"),
            7 => Some("HOP"),
            8 => Some("LEAP"),
            9 => Some("FALL"),
            10 => Some("LAND"),
            11 => Some("STRAFE_LEFT"),
            12 => Some("STRAFE_RIGHT"),
            13 => Some("ROLL_LEFT"),
            14 => Some("ROLL_RIGHT"),
            15 => Some("TURN_LEFT"),
            16 => Some("TURN_RIGHT"),
            17 => Some("CROUCH"),
            18 => Some("CROUCHIDLE"),
            19 => Some("STAND"),
            20 => Some("USE"),
            21 => Some("SIGNAL1"),
            22 => Some("SIGNAL2"),
            23 => Some("SIGNAL3"),
            24 => Some("TWITCH"),
            25 => Some("COWER"),
            26 => Some("SMALL_FLINCH"),
            27 => Some("BIG_FLINCH"),
            28 => Some("RANGE_ATTACK1"),
            29 => Some("RANGE_ATTACK2"),
            30 => Some("MELEE_ATTACK1"),
            31 => Some("MELEE_ATTACK2"),
            32 => Some("RELOAD"),
            33 => Some("ARM"),
            34 => Some("DISARM"),
            35 => Some("EAT"),
            36 => Some("DIESIMPLE"),
            37 => Some("DIEBACKWARD"),
            38 => Some("DIEFORWARD"),
            39 => Some("DIEVIOLENT"),
            40 => Some("BARNACLE_HIT"),
            41 => Some("BARNACLE_PULL"),
            42 => Some("BARNACLE_CHOMP"),
            43 => Some("BARNACLE_CHEW"),
            44 => Some("SLEEP"),
            45 => Some("INSPECT_FLOOR"),
            46 => Some("INSPECT_WALL"),
            47 => Some("IDLE_ANGRY"),
            48 => Some("WALK_HURT"),
            49 => Some("RUN_HURT"),
            50 => Some("HOVER"),
            51 => Some("GLIDE"),
            52 => Some("FLY_LEFT"),
            53 => Some("FLY_RIGHT"),
            54 => Some("DETECT_SCENT"),
            55 => Some("SNIFF"),
            56 => Some("BITE"),
            57 => Some("THREAT_DISPLAY"),
            58 => Some("FEAR_DISPLAY"),
            59 => Some("EXCITED"),
            60 => Some("SPECIAL_ATTACK1"),
            61 => Some("SPECIAL_ATTACK2"),
            62 => Some("COMBAT_IDLE"),
            63 => Some("WALK_SCARED"),
            64 => Some("RUN_SCARED"),
            65 => Some("VICTORY_DANCE"),
            66 => Some("DIE_HEADSHOT"),
            67 => Some("DIE_CHESTSHOT"),
            68 => Some("DIE_GUTSHOT"),
            69 => Some("DIE_BACKSHOT"),
            70 => Some("FLINCH_HEAD"),
            71 => Some("FLINCH_CHEST"),
            72 => Some("FLINCH_STOMACH"),
            73 => Some("FLINCH_LEFTARM"),
            74 => Some("FLINCH_RIGHTARM"),
            75 => Some("FLINCH_LEFTLEG"),
            76 => Some("FLINCH_RIGHTLEG"),
            _ => None,
        }
    }

    /// The display text: `Activity(<raw>, <name>)` for a named activity, `Activity(<raw>)` otherwise.
    pub fn to_string(&self) -> (r: String)
        ensures
            r@ == activity_text(self.raw()),
    {
        let mut s = String::from_str("Activity(");
        push_decimal(&mut s, self.0);
        match self.as_str() {
            Some(name) => {
                s.append(", ");
                s.append(name);
            },
            None => {},
        }
        s.append(")");
        s
    }
}

/// Activities are ordered by their raw numbers.
impl PartialOrd for Activity {
    fn partial_cmp(&self, other: &Self) -> (r: Option<Ordering>) {
        if self.0 < other.0 {
            Some(Ordering::Less)
        } else if self.0 == other.0 {
            Some(Ordering::Equal)
        } else {
            Some(Ordering::Greater)
        }
    }
}

impl PartialOrdSpecImpl for Activity {
    open spec fn obeys_partial_cmp_spec() -> bool {
        true
    }

    closed spec fn partial_cmp_spec(&self, other: &Self) -> Option<Ordering> {
        if self.0 < other.0 {
            Some(Ordering::Less)
        } else if self.0 == other.0 {
            Some(Ordering::Equal)
        } else {
            Some(Ordering::Greater)
        }
    }
}

/// Activities compare as their raw numbers do: one is below another exactly when its
/// raw number is, and they are equal exactly when their raw numbers are.
pub proof fn law_activity_order(x: Activity, y: Activity)
    ensures
        PartialOrdSpec::partial_cmp_spec(&x, &y) == Some(Ordering::Less) <==> x.raw() < y.raw(),
        PartialOrdSpec::partial_cmp_spec(&x, &y) == Some(Ordering::Equal) <==> x.raw() == y.raw(),
        PartialOrdSpec::partial_cmp_spec(&x, &y) == Some(Ordering::Greater) <==> x.raw() > y.raw(),
        x.raw() == y.raw() <==> x == y,
{
}

impl Default for Activity {
    fn default() -> (r: Self)
        ensures
            r.raw() == 0,
    {
        Activity(0)
    }
}

/// An activity and its raw number determine each other: going from a raw number to an
/// activity and back gives the number, and going from an activity to its number and back
/// gives the activity.
pub proof fn law_activity_raw_round_trip(a: Activity, raw: i32)
    ensures
        Activity::spec_from_raw(raw).raw() == raw,
        Activity::spec_from_raw(a.raw()) == a,
{
}

/// The named activities are exactly the raw numbers from `RESET` to `FLINCH_RIGHTLEG`, and
/// no two of them share a name.
pub proof fn law_activity_names(x: i32, y: i32)
    ensures
        activity_name(x) is Some <==> Activity::RESET <= x <= Activity::FLINCH_RIGHTLEG,
        activity_name(x) is Some && x != y ==> activity_name(x) != activity_name(y),
{
}

/// The names of the named activitys by raw number, and no name for any other number.
pub proof fn law_activity_name_table(x: i32)
    ensures
        activity_name(0) == Some("RESET"),
        activity_name(1) == Some("IDLE"),
        activity_name(2) == Some("GUARD"),
        activity_name(3) == Some("WALK"),
        activity_name(4) == Some("RUN"),
        activity_name(5) == Some("FLY"),
        activity_name(6) == Some("SWIM"),
        activity_name(7) == Some("HOP"),
        activity_name(8) == Some("LEAP"),
        activity_name(9) == Some("FALL"),
        activity_name(10) == Some("LAND"),
        activity_name(11) == Some("STRAFE_LEFT"),
        activity_name(12) == Some("STRAFE_RIGHT"),
        activity_name(13) == Some("ROLL_LEFT"),
        activity_name(14) == Some("ROLL_RIGHT"),
        activity_name(15) == Some("TURN_LEFT"),
        activity_name(16) == Some("TURN_RIGHT"),
        activity_name(17) == Some("CROUCH"),
        activity_name(18) == Some("CROUCHIDLE"),
        activity_name(19) == Some("STAND"),
        activity_name(20) == Some("USE"),
        activity_name(21) == Some("SIGNAL1"),
        activity_name(22) == Some("SIGNAL2"),
        activity_name(23) == Some("SIGNAL3"),
        activity_name(24) == Some("TWITCH"),
        activity_name(25) == Some("COWER"),
        activity_name(26) == Some("SMALL_FLINCH"),
        activity_name(27) == Some("BIG_FLINCH"),
        activity_name(28) == Some("RANGE_ATTACK1"),
        activity_name(29) == Some("RANGE_ATTACK2"),
        activity_name(30) == Some("MELEE_ATTACK1"),
        activity_name(31) == Some("MELEE_ATTACK2"),
        activity_name(32) == Some("RELOAD"),
        activity_name(33) == Some("ARM"),
        activity_name(34) == Some("DISARM"),
        activity_name(35) == Some("EAT"),
        activity_name(36) == Some("DIESIMPLE"),
        activity_name(37) == Some("DIEBACKWARD"),
        activity_name(38) == Some("DIEFORWARD"),
        activity_name(39) == Some("DIEVIOLENT"),
        activity_name(40) == Some("BARNACLE_HIT"),
        activity_name(41) == Some("BARNACLE_PULL"),
        activity_name(42) == Some("BARNACLE_CHOMP"),
        activity_name(43) == Some("BARNACLE_CHEW"),
        activity_name(44) == Some("SLEEP"),
        activity_name(45) == Some("INSPECT_FLOOR"),
        activity_name(46) == Some("INSPECT_WALL"),
        activity_name(47) == Some("IDLE_ANGRY"),
        activity_name(48) == Some("WALK_HURT"),
        activity_name(49) == Some("RUN_HURT"),
        activity_name(50) == Some("HOVER"),
        activity_name(51) == Some("GLIDE"),
        activity_name(52) == Some("FLY_LEFT"),
        activity_name(53) == Some("FLY_RIGHT"),
        activity_name(54) == Some("DETECT_SCENT"),
        activity_name(55) == Some("SNIFF"),
        activity_name(56) == Some("BITE"),
        activity_name(57) == Some("THREAT_DISPLAY"),
        activity_name(58) == Some("FEAR_DISPLAY"),
        activity_name(59) == Some("EXCITED"),
        activity_name(60) == Some("SPECIAL_ATTACK1"),
        activity_name(61) == Some("SPECIAL_ATTACK2"),
        activity_name(62) == Some("COMBAT_IDLE"),
        activity_name(63) == Some("WALK_SCARED"),
        activity_name(64) == Some("RUN_SCARED"),
        activity_name(65) == Some("VICTORY_DANCE"),
        activity_name(66) == Some("DIE_HEADSHOT"),
        activity_name(67) == Some("DIE_CHESTSHOT"),
        activity_name(68) == Some("DIE_GUTSHOT"),
        activity_name(69) == Some("DIE_BACKSHOT"),
        activity_name(70) == Some("FLINCH_HEAD"),
        activity_name(71) == Some("FLINCH_CHEST"),
        activity_name(72) == Some("FLINCH_STOMACH"),
        activity_name(73) == Some("FLINCH_LEFTARM"),
        activity_name(74) == Some("FLINCH_RIGHTARM"),
        activity_name(75) == Some("FLINCH_LEFTLEG"),
        activity_name(76) == Some("FLINCH_RIGHTLEG"),
        activity_name(x) is Some <==> 0 <= x <= 76,
{
}

} // verus!
