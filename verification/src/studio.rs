use vstd::prelude::*;
use crate::activity::Activity;
use crate::cstr::{c_str, c_str_bytes, eq_ignore_ascii_case, bytes_eq_ignore_ascii_case};
use crate::event_kind::{EventKind, is_script_sound_raw};
use crate::motion::Motion;

verus! {

/// An animation event of a sequence: the plain fields of the engine's event record.
#[derive(Clone, Debug)]
pub struct Event {
    frame: i32,
    event: i32,
    options: Vec<u8>,
}

impl Event {
    /// The frame at which the event fires.
    pub closed spec fn spec_frame(self) -> i32 {
        self.frame
    }

    /// The raw kind of the event.
    pub closed spec fn spec_kind(self) -> i32 {
        self.event
    }

    /// The fixed options buffer of the record, which holds a C string.
    pub closed spec fn spec_options(self) -> Seq<u8> {
        self.options@
    }

    /// An event record with the given frame, raw kind and options buffer.
    pub fn new(frame: i32, event: i32, options: Vec<u8>) -> (r: Self)
        ensures
            r.spec_frame() == frame,
            r.spec_kind() == event,
            r.spec_options() == options@,
    {
        Event { frame, event, options }
    }

    pub fn frame(&self) -> (r: i32)
        ensures
            r == self.spec_frame(),
    {
        self.frame
    }

    pub fn kind(&self) -> (r: EventKind)
        ensures
            r.raw() == self.spec_kind(),
    {
        EventKind::from_raw(self.event)
    }

    /// The options text: the C string in the options buffer, without its NUL.
    pub fn options(&self) -> (r: &[u8])
        ensures
            r@ == c_str(self.spec_options()),
    {
        c_str_bytes(self.options.as_slice())
    }
}

/// What precaching a sequence asks of the engine for one of its events.
#[derive(Clone, Copy, Debug, PartialEq, Eq, Structural)]
pub enum PrecacheAction {
    /// Precache the sound named by the options of the event with this position.
    Sound { event: usize },
    /// The event with this position plays a sound but names none: report it.
    InvalidSound { event: usize },
}

/// What precaching asks for the event `e` at position `i`, if anything.
pub open spec fn precache_step(e: Event, i: int) -> Option<PrecacheAction> {
    if e.spec_kind() >= EventKind::CLIENT || !is_script_sound_raw(e.spec_kind()) {
        None
    } else if c_str(e.spec_options()).len() > 0 {
        Some(PrecacheAction::Sound { event: i as usize })
    } else {
        Some(PrecacheAction::InvalidSound { event: i as usize })
    }
}

/// What precaching asks for the first `n` events, in order.
pub open spec fn precache_plan(events: Seq<Event>, n: int) -> Seq<PrecacheAction>
    decreases n,
{
    if n <= 0 {
        Seq::empty()
    } else {
        match precache_step(events[n - 1], n - 1) {
            Some(a) => precache_plan(events, n - 1).push(a),
            None => precache_plan(events, n - 1),
        }
    }
}

/// The plain fields of the engine's sequence description that this library reads.
#[derive(Clone, Debug)]
pub struct SequenceDesc {
    /// The fixed name buffer, which holds a C string.
    pub label: Vec<u8>,
    pub flags: i32,
    pub activity: i32,
    pub actweight: i32,
    pub events: Vec<Event>,
    pub numframes: i32,
    pub entrynode: i32,
    pub exitnode: i32,
}

/// Whether the name of the sequence `d` equals `name`, ASCII letters without case.
pub open spec fn name_matches(d: SequenceDesc, name: Seq<u8>) -> bool {
    eq_ignore_ascii_case(c_str(d.label@), name)
}

/// The positions, in order, of the first `n` sequences that have the activity `activity`.
pub open spec fn activity_indices(seqs: Seq<SequenceDesc>, activity: i32, n: int) -> Seq<usize>
    decreases n,
{
    if n <= 0 {
        Seq::empty()
    } else if seqs[n - 1].activity == activity {
        activity_indices(seqs, activity, n - 1).push((n - 1) as usize)
    } else {
        activity_indices(seqs, activity, n - 1)
    }
}

/// A sequence of a model: its description and its position in the model.
#[derive(Clone, Copy)]
pub struct Sequence<'a> {
    desc: &'a SequenceDesc,
    index: usize,
}

impl<'a> Sequence<'a> {
    const FLAG_LOOPING: i32 = 1;
    const FLAG_STATIC: i32 = 1 << 15;

    /// The description of the sequence.
    pub closed spec fn spec_desc(self) -> SequenceDesc {
        *self.desc
    }

    /// The position of the sequence in its model.
    pub closed spec fn spec_index(self) -> usize {
        self.index
    }

    pub fn index(&self) -> (r: usize)
        ensures
            r == self.spec_index(),
    {
        self.index
    }

    /// The name of the sequence: the C string in its name buffer, without its NUL.
    pub fn name(&self) -> (r: &[u8])
        ensures
            r@ == c_str(self.spec_desc().label@),
    {
        c_str_bytes(self.desc.label.as_slice())
    }

    pub fn flags(&self) -> (r: i32)
        ensures
            r == self.spec_desc().flags,
    {
        self.desc.flags
    }

    pub fn is_looping(&self) -> (r: bool)
        ensures
            r == (self.spec_desc().flags & 1 != 0),
    {
        self.desc.flags & Self::FLAG_LOOPING != 0
    }

    pub fn is_static(&self) -> (r: bool)
        ensures
            r == (self.spec_desc().flags & 0x8000 != 0),
    {
        assert(1i32 << 15i32 == 0x8000i32) by (bit_vector);
        self.desc.flags & Self::FLAG_STATIC != 0
    }

    pub fn activity(&self) -> (r: Activity)
        ensures
            r.raw() == self.spec_desc().activity,
    {
        Activity::from_raw(self.desc.activity)
    }

    pub fn activity_weight(&self) -> (r: i32)
        ensures
            r == self.spec_desc().actweight,
    {
        self.desc.actweight
    }

    pub fn events(&self) -> (r: &'a [Event])
        ensures
            r@ == self.spec_desc().events@,
    {
        self.desc.events.as_slice()
    }

    pub fn frames(&self) -> (r: i32)
        ensures
            r == self.spec_desc().numframes,
    {
        self.desc.numframes
    }

    pub fn entry_node(&self) -> (r: i32)
        ensures
            r == self.spec_desc().entrynode,
    {
        self.desc.entrynode
    }

    pub fn exit_node(&self) -> (r: i32)
        ensures
            r == self.spec_desc().exitnode,
    {
        self.desc.exitnode
    }

    /// What precaching this sequence asks of the engine, in the order of its events: for
    /// each server-side event that plays a sound, the sound to precache, or a report when
    /// the event names no sound.
    pub fn precache(&self) -> (r: Vec<PrecacheAction>)
        ensures
            r@ == precache_plan(self.spec_desc().events@, self.spec_desc().events@.len() as int),
    {
        let events = self.desc.events.as_slice();
        let mut actions: Vec<PrecacheAction> = Vec::new();
        let mut i: usize = 0;
        while i < events.len()
            invariant
                i <= events@.len(),
                events@ == self.spec_desc().events@,
                actions@ == precache_plan(events@, i as int),
            decreases events.len() - i,
        {
            let event = &events[i];
            let kind = event.kind();
            if kind.into_raw() >= EventKind::CLIENT {
                // client-side events are not sent to the server
            } else if !kind.is_script_sound() {
            } else {
                let sound_name = event.options();
                if sound_name.len() != 0 {
                    actions.push(PrecacheAction::Sound { event: i });
                } else {
                    actions.push(PrecacheAction::InvalidSound { event: i });
                }
            }
            i = i + 1;
        }
        actions
    }
}

/// A bone controller of a model: the plain fields of the engine's record that this library
/// reads.
#[derive(Clone, Copy, Debug)]
pub struct BoneController {
    ty: i32,
    index: i32,
}

impl BoneController {
    /// The raw motion type field of the record.
    pub closed spec fn spec_ty(self) -> i32 {
        self.ty
    }

    /// The controller number.
    pub closed spec fn spec_index(self) -> i32 {
        self.index
    }

    /// A record with the given raw motion type field and controller number.
    pub fn new(ty: i32, index: i32) -> (r: Self)
        ensures
            r.spec_ty() == ty,
            r.spec_index() == index,
    {
        BoneController { ty, index }
    }

    /// The motion type: the raw field's bits, read as unsigned.
    pub fn ty(&self) -> (r: Motion)
        ensures
            r.spec_bits() == self.spec_ty() as u32,
    {
        Motion::from_bits_retain(self.ty as u32)
    }

    pub fn index(&self) -> (r: i32)
        ensures
            r == self.spec_index(),
    {
        self.index
    }
}

/// A studio model: the plain parts of the engine's model header that this library reads.
pub struct Model {
    name: Vec<u8>,
    version: i32,
    flags: i32,
    bone_controllers: Vec<BoneController>,
    sequences: Vec<SequenceDesc>,
    transitions: Vec<u8>,
}

/// Whether `i` is the position of the first sequence named `name`.
pub open spec fn first_named(seqs: Seq<SequenceDesc>, name: Seq<u8>, i: int) -> bool {
    &&& 0 <= i < seqs.len()
    &&& name_matches(seqs[i], name)
    &&& forall|j: int| 0 <= j < i ==> !name_matches(#[trigger] seqs[j], name)
}

/// Whether no sequence is named `name`.
pub open spec fn none_named(seqs: Seq<SequenceDesc>, name: Seq<u8>) -> bool {
    forall|j: int| 0 <= j < seqs.len() ==> !name_matches(#[trigger] seqs[j], name)
}

/// Whether `i` is the position of the heaviest sequence with the activity `activity`,
/// the last one among equally heavy ones.
pub open spec fn last_heaviest(seqs: Seq<SequenceDesc>, activity: i32, i: int) -> bool {
    &&& 0 <= i < seqs.len()
    &&& seqs[i].activity == activity
    &&& forall|j: int|
        0 <= j < seqs.len() && #[trigger] seqs[j].activity == activity ==> seqs[j].actweight
            <= seqs[i].actweight
    &&& forall|j: int|
        i < j < seqs.len() && #[trigger] seqs[j].activity == activity ==> seqs[j].actweight
            < seqs[i].actweight
}

/// Whether no sequence has the activity `activity`.
pub open spec fn none_with_activity(seqs: Seq<SequenceDesc>, activity: i32) -> bool {
    forall|j: int| 0 <= j < seqs.len() ==> #[trigger] seqs[j].activity != activity
}

/// The running total of the weights of the first `n` sequences that have the activity
/// `activity`.
pub open spec fn weight_total(seqs: Seq<SequenceDesc>, activity: i32, n: int) -> int
    decreases n,
{
    if n <= 0 {
        0
    } else if seqs[n - 1].activity == activity {
        weight_total(seqs, activity, n - 1) + seqs[n - 1].actweight
    } else {
        weight_total(seqs, activity, n - 1)
    }
}

/// Whether every running total over the sequences fits in an `i32` and is above its
/// minimum, so that neither the total nor the bound below it overflows.
pub open spec fn weight_totals_fit(seqs: Seq<SequenceDesc>, activity: i32) -> bool {
    forall|n: int|
        0 <= n <= seqs.len() ==> i32::MIN < #[trigger] weight_total(seqs, activity, n) <= i32::MAX
}

/// The random numbers that picking a sequence with the activity `activity` at random draws
/// among the first `n` sequences, in order: for each sequence with the activity at which the
/// running total is not zero, its position and the upper bound `total - 1` of a number drawn
/// from `0`.
pub open spec fn draw_plan(seqs: Seq<SequenceDesc>, activity: i32, n: int) -> Seq<(usize, i32)>
    decreases n,
{
    if n <= 0 {
        Seq::empty()
    } else if seqs[n - 1].activity == activity && weight_total(seqs, activity, n) != 0 {
        draw_plan(seqs, activity, n - 1).push(
            ((n - 1) as usize, (weight_total(seqs, activity, n) - 1) as i32),
        )
    } else {
        draw_plan(seqs, activity, n - 1)
    }
}

/// The weighted choice among the first `n` sequences with the activity `activity`, where
/// `rolls[k]` answers the `k`-th draw of `draw_plan`: a sequence with the activity replaces
/// the choice so far when the running total is then zero, or else when the number drawn
/// for it is below its weight.
pub open spec fn weighted_pick(
    seqs: Seq<SequenceDesc>,
    activity: i32,
    rolls: Seq<i32>,
    n: int,
) -> Option<usize>
    decreases n,
{
    if n <= 0 {
        None
    } else if seqs[n - 1].activity == activity && (weight_total(seqs, activity, n) == 0
        || rolls[draw_plan(seqs, activity, n - 1).len() as int] < seqs[n - 1].actweight) {
        Some((n - 1) as usize)
    } else {
        weighted_pick(seqs, activity, rolls, n - 1)
    }
}

/// Whether `i` is the position of the first bone controller numbered `controller`.
pub open spec fn first_controller(ctrls: Seq<BoneController>, controller: i32, i: int) -> bool {
    &&& 0 <= i < ctrls.len()
    &&& ctrls[i].spec_index() == controller
    &&& forall|j: int| 0 <= j < i ==> #[trigger] ctrls[j].spec_index() != controller
}

impl Model {
    pub closed spec fn spec_name(self) -> Seq<u8> {
        self.name@
    }

    pub closed spec fn spec_version(self) -> i32 {
        self.version
    }

    pub closed spec fn spec_flags(self) -> i32 {
        self.flags
    }

    pub closed spec fn spec_bone_controllers(self) -> Seq<BoneController> {
        self.bone_controllers@
    }

    pub closed spec fn spec_sequences(self) -> Seq<SequenceDesc> {
        self.sequences@
    }

    pub closed spec fn spec_transitions(self) -> Seq<u8> {
        self.transitions@
    }

    /// A model with the given name buffer, version, flags, bone controllers, sequences and
    /// transition table.
    pub fn new(
        name: Vec<u8>,
        version: i32,
        flags: i32,
        bone_controllers: Vec<BoneController>,
        sequences: Vec<SequenceDesc>,
        transitions: Vec<u8>,
    ) -> (r: Self)
        ensures
            r.spec_name() == name@,
            r.spec_version() == version,
            r.spec_flags() == flags,
            r.spec_bone_controllers() == bone_controllers@,
            r.spec_sequences() == sequences@,
            r.spec_transitions() == transitions@,
    {
        Model { name, version, flags, bone_controllers, sequences, transitions }
    }

    pub fn version(&self) -> (r: i32)
        ensures
            r == self.spec_version(),
    {
        self.version
    }

    /// The model's name: the C string in its name buffer, without its NUL.
    pub fn name(&self) -> (r: &[u8])
        ensures
            r@ == c_str(self.spec_name()),
    {
        c_str_bytes(self.name.as_slice())
    }

    pub fn flags(&self) -> (r: i32)
        ensures
            r == self.spec_flags(),
    {
        self.flags
    }

    pub fn bone_controllers(&self) -> (r: &[BoneController])
        ensures
            r@ == self.spec_bone_controllers(),
    {
        self.bone_controllers.as_slice()
    }

    /// The position of the first bone controller numbered `controller`, if any: the one
    /// whose setting `set_bone_controller` changes.
    pub fn find_bone_controller(&self, controller: i32) -> (r: Option<usize>)
        ensures
            match r {
                Some(i) => first_controller(self.spec_bone_controllers(), controller, i as int),
                None => forall|j: int|
                    0 <= j < self.spec_bone_controllers().len()
                        ==> #[trigger] self.spec_bone_controllers()[j].spec_index() != controller,
            },
    {
        let ctrls = self.bone_controllers.as_slice();
        let mut i: usize = 0;
        while i < ctrls.len()
            invariant
                i <= ctrls@.len(),
                ctrls@ == self.spec_bone_controllers(),
                forall|j: int| 0 <= j < i ==> #[trigger] ctrls@[j].spec_index() != controller,
            decreases ctrls.len() - i,
        {
            if ctrls[i].index() == controller {
                return Some(i);
            }
            i = i + 1;
        }
        None
    }

    pub fn sequences_raw(&self) -> (r: &[SequenceDesc])
        ensures
            r@ == self.spec_sequences(),
    {
        self.sequences.as_slice()
    }

    /// Every sequence of the model, in order.
    pub fn sequences(&self) -> (r: Vec<Sequence<'_>>)
        ensures
            r@.len() == self.spec_sequences().len(),
            forall|i: int|
                0 <= i < r@.len() ==> (#[trigger] r@[i]).spec_index() == i && r@[i].spec_desc()
                    == self.spec_sequences()[i],
    {
        let seqs = self.sequences.as_slice();
        let mut r: Vec<Sequence<'_>> = Vec::new();
        let mut i: usize = 0;
        while i < seqs.len()
            invariant
                i <= seqs@.len(),
                seqs@ == self.spec_sequences(),
                r@.len() == i,
                forall|k: int|
                    0 <= k < i ==> (#[trigger] r@[k]).spec_index() == k && r@[k].spec_desc()
                        == seqs@[k],
            decreases seqs.len() - i,
        {
            r.push(Sequence { desc: &seqs[i], index: i });
            i = i + 1;
        }
        r
    }

    /// The sequences with the activity `activity`, in order.
    pub fn sequences_by_activity(&self, activity: Activity) -> (r: Vec<Sequence<'_>>)
        ensures
            r@.len() == activity_indices(
                self.spec_sequences(),
                activity.raw(),
                self.spec_sequences().len() as int,
            ).len(),
            forall|k: int|
                0 <= k < r@.len() ==> (#[trigger] r@[k]).spec_index() == activity_indices(
                    self.spec_sequences(),
                    activity.raw(),
                    self.spec_sequences().len() as int,
                )[k] && r@[k].spec_desc() == self.spec_sequences()[r@[k].spec_index() as int],
    {
        let seqs = self.sequences.as_slice();
        let mut r: Vec<Sequence<'_>> = Vec::new();
        let mut i: usize = 0;
        while i < seqs.len()
            invariant
                i <= seqs@.len(),
                seqs@ == self.spec_sequences(),
                r@.len() == activity_indices(seqs@, activity.raw(), i as int).len(),
                forall|k: int|
                    0 <= k < r@.len() ==> (#[trigger] r@[k]).spec_index() == activity_indices(
                        seqs@,
                        activity.raw(),
                        i as int,
                    )[k] && r@[k].spec_desc() == seqs@[r@[k].spec_index() as int],
            decreases seqs.len() - i,
        {
            if seqs[i].activity == activity.into_raw() {
                r.push(Sequence { desc: &seqs[i], index: i });
            }
            i = i + 1;
        }
        r
    }

    /// The sequence at position `index`, if there is one.
    pub fn sequence(&self, index: usize) -> (r: Option<Sequence<'_>>)
        ensures
            match r {
                Some(s) => index < self.spec_sequences().len() && s.spec_index() == index
                    && s.spec_desc() == self.spec_sequences()[index as int],
                None => index >= self.spec_sequences().len(),
            },
    {
        if index < self.sequences.len() {
            Some(Sequence { desc: &self.sequences[index], index })
        } else {
            None
        }
    }

    /// Searches for the first sequence named `name`, ASCII letters without case.
    pub fn find_sequence(&self, name: &[u8]) -> (r: Option<Sequence<'_>>)
        ensures
            match r {
                Some(s) => first_named(self.spec_sequences(), name@, s.spec_index() as int)
                    && s.spec_desc() == self.spec_sequences()[s.spec_index() as int],
                None => none_named(self.spec_sequences(), name@),
            },
    {
        let seqs = self.sequences.as_slice();
        let mut i: usize = 0;
        while i < seqs.len()
            invariant
                i <= seqs@.len(),
                seqs@ == self.spec_sequences(),
                forall|j: int| 0 <= j < i ==> !name_matches(#[trigger] seqs@[j], name@),
            decreases seqs.len() - i,
        {
            let label = c_str_bytes(seqs[i].label.as_slice());
            if bytes_eq_ignore_ascii_case(label, name) {
                return Some(Sequence { desc: &seqs[i], index: i });
            }
            i = i + 1;
        }
        None
    }

    /// Searches for the first sequence named `name`; gives `0` if there is none.
    pub fn find_sequence_index(&self, name: &[u8]) -> (r: usize)
        ensures
            none_named(self.spec_sequences(), name@) ==> r == 0,
            !none_named(self.spec_sequences(), name@) ==> first_named(
                self.spec_sequences(),
                name@,
                r as int,
            ),
    {
        match self.find_sequence(name) {
            Some(seq) => seq.index(),
            None => 0,
        }
    }

    /// The random numbers that picking a sequence with the activity `activity` draws, in
    /// order: for each sequence with the activity at which the running total of weights is
    /// not zero, its position and the bound `high` of a number drawn from `0` to `high`.
    pub fn activity_draws(&self, activity: Activity) -> (r: Vec<(usize, i32)>)
        requires
            weight_totals_fit(self.spec_sequences(), activity.raw()),
        ensures
            r@ == draw_plan(
                self.spec_sequences(),
                activity.raw(),
                self.spec_sequences().len() as int,
            ),
    {
        let seqs = self.sequences.as_slice();
        let a = activity.into_raw();
        let mut draws: Vec<(usize, i32)> = Vec::new();
        let mut total: i32 = 0;
        let mut i: usize = 0;
        while i < seqs.len()
            invariant
                i <= seqs@.len(),
                seqs@ == self.spec_sequences(),
                a == activity.raw(),
                weight_totals_fit(seqs@, a),
                total == weight_total(seqs@, a, i as int),
                draws@ == draw_plan(seqs@, a, i as int),
            decreases seqs.len() - i,
        {
            assert(i32::MIN < weight_total(seqs@, a, i + 1) <= i32::MAX);
            if seqs[i].activity == a {
                total = total + seqs[i].actweight;
                if total != 0 {
                    draws.push((i, total - 1));
                }
            }
            i = i + 1;
        }
        draws
    }

    /// Picks a sequence with the activity `activity` at random, each in proportion to its
    /// weight, given the answers `rolls` to the draws that `activity_draws` lists, in order.
    ///
    /// Going through the sequences with the activity in order, each adds its weight to a
    /// running total and replaces the choice so far when the total is zero, or else when
    /// the number drawn for it is below its weight.
    pub fn find_sequence_by_activity(&self, activity: Activity, rolls: &[i32]) -> (r: Option<
        Sequence<'_>,
    >)
        requires
            weight_totals_fit(self.spec_sequences(), activity.raw()),
            rolls@.len() == draw_plan(
                self.spec_sequences(),
                activity.raw(),
                self.spec_sequences().len() as int,
            ).len(),
        ensures
            match r {
                Some(s) => weighted_pick(
                    self.spec_sequences(),
                    activity.raw(),
                    rolls@,
                    self.spec_sequences().len() as int,
                ) == Some(s.spec_index()) && s.spec_desc()
                    == self.spec_sequences()[s.spec_index() as int],
                None => weighted_pick(
                    self.spec_sequences(),
                    activity.raw(),
                    rolls@,
                    self.spec_sequences().len() as int,
                ) is None,
            },
    {
        let seqs = self.sequences.as_slice();
        let a = activity.into_raw();
        let mut ret: Option<usize> = None;
        let mut total: i32 = 0;
        let mut drawn: usize = 0;
        let mut i: usize = 0;
        while i < seqs.len()
            invariant
                i <= seqs@.len(),
                seqs@ == self.spec_sequences(),
                a == activity.raw(),
                weight_totals_fit(seqs@, a),
                rolls@.len() == draw_plan(seqs@, a, seqs@.len() as int).len(),
                total == weight_total(seqs@, a, i as int),
                drawn == draw_plan(seqs@, a, i as int).len(),
                ret == weighted_pick(seqs@, a, rolls@, i as int),
                ret matches Some(b) ==> b < i,
            decreases seqs.len() - i,
        {
            assert(i32::MIN < weight_total(seqs@, a, i + 1) <= i32::MAX);
            proof {
                lemma_draw_plan_len_grows(seqs@, a, i + 1, seqs@.len() as int);
            }
            if seqs[i].activity == a {
                let weight = seqs[i].actweight;
                total = total + weight;
                if total == 0 {
                    ret = Some(i);
                } else {
                    if rolls[drawn] < weight {
                        ret = Some(i);
                    }
                    drawn = drawn + 1;
                }
            }
            i = i + 1;
        }
        match ret {
            Some(b) => Some(Sequence { desc: &seqs[b], index: b }),
            None => None,
        }
    }

    /// Picks a sequence with the activity `activity` at random as
    /// `find_sequence_by_activity` does, from the same answers; gives `0` if none is picked.
    pub fn find_sequence_index_by_activity(&self, activity: Activity, rolls: &[i32]) -> (r: usize)
        requires
            weight_totals_fit(self.spec_sequences(), activity.raw()),
            rolls@.len() == draw_plan(
                self.spec_sequences(),
                activity.raw(),
                self.spec_sequences().len() as int,
            ).len(),
        ensures
            r == match weighted_pick(
                self.spec_sequences(),
                activity.raw(),
                rolls@,
                self.spec_sequences().len() as int,
            ) {
                Some(i) => i,
                None => 0,
            },
    {
        match self.find_sequence_by_activity(activity, rolls) {
            Some(seq) => seq.index(),
            None => 0,
        }
    }

    /// Searches for the heaviest sequence with the activity `activity`; among equally heavy
    /// ones, the last.
    pub fn find_sequence_by_activity_heaviest(&self, activity: Activity) -> (r: Option<
        Sequence<'_>,
    >)
        ensures
            match r {
                Some(s) => last_heaviest(self.spec_sequences(), activity.raw(), s.spec_index() as int)
                    && s.spec_desc() == self.spec_sequences()[s.spec_index() as int],
                None => none_with_activity(self.spec_sequences(), activity.raw()),
            },
    {
        let seqs = self.sequences.as_slice();
        let a = activity.into_raw();
        let mut best: Option<usize> = None;
        let mut i: usize = 0;
        while i < seqs.len()
            invariant
                i <= seqs@.len(),
                seqs@ == self.spec_sequences(),
                a == activity.raw(),
                match best {
                    Some(b) => {
                        &&& b < i
                        &&& seqs@[b as int].activity == a
                        &&& forall|j: int|
                            0 <= j < i && #[trigger] seqs@[j].activity == a ==> seqs@[j].actweight
                                <= seqs@[b as int].actweight
                        &&& forall|j: int|
                            b < j < i && #[trigger] seqs@[j].activity == a ==> seqs@[j].actweight
                                < seqs@[b as int].actweight
                    },
                    None => forall|j: int| 0 <= j < i ==> #[trigger] seqs@[j].activity != a,
                },
            decreases seqs.len() - i,
        {
            if seqs[i].activity == a {
                match best {
                    Some(b) => {
                        if seqs[i].actweight >= seqs[b].actweight {
                            best = Some(i);
                        }
                    },
                    None => {
                        best = Some(i);
                    },
                }
            }
            i = i + 1;
        }
        match best {
            Some(b) => Some(Sequence { desc: &seqs[b], index: b }),
            None => None,
        }
    }

    /// Searches for the heaviest sequence with the activity `activity`; gives `0` if there
    /// is none.
    pub fn find_sequence_index_by_activity_heaviest(&self, activity: Activity) -> (r: usize)
        ensures
            none_with_activity(self.spec_sequences(), activity.raw()) ==> r == 0,
            !none_with_activity(self.spec_sequences(), activity.raw()) ==> last_heaviest(
                self.spec_sequences(),
                activity.raw(),
                r as int,
            ),
    {
        match self.find_sequence_by_activity_heaviest(activity) {
            Some(seq) => seq.index(),
            None => 0,
        }
    }

    /// Precaching of the first sequence named `name`: that sequence and what precaching it
    /// asks of the engine, or nothing when no sequence has that name.
    pub fn precache_sequence_by_name(&self, name: &[u8]) -> (r: Option<
        (Sequence<'_>, Vec<PrecacheAction>),
    >)
        ensures
            match r {
                Some((s, actions)) => first_named(
                    self.spec_sequences(),
                    name@,
                    s.spec_index() as int,
                ) && s.spec_desc() == self.spec_sequences()[s.spec_index() as int] && actions@
                    == precache_plan(s.spec_desc().events@, s.spec_desc().events@.len() as int),
                None => none_named(self.spec_sequences(), name@),
            },
    {
        match self.find_sequence(name) {
            Some(seq) => {
                let actions = seq.precache();
                Some((seq, actions))
            },
            None => None,
        }
    }

    pub fn transitions_raw(&self) -> (r: &[u8])
        ensures
            r@ == self.spec_transitions(),
    {
        self.transitions.as_slice()
    }
}

/// The plan of draws only grows as more sequences are taken in.
pub proof fn lemma_draw_plan_len_grows(seqs: Seq<SequenceDesc>, activity: i32, m: int, n: int)
    requires
        m <= n,
    ensures
        draw_plan(seqs, activity, m).len() <= draw_plan(seqs, activity, n).len(),
    decreases n - m,
{
    if m < n {
        lemma_draw_plan_len_grows(seqs, activity, m, n - 1);
    }
}

/// Whenever the weighted choice picks a sequence, that sequence has the activity.
pub proof fn law_weighted_pick_has_activity(
    seqs: Seq<SequenceDesc>,
    activity: i32,
    rolls: Seq<i32>,
    n: int,
)
    requires
        0 <= n <= seqs.len() <= usize::MAX,
    ensures
        weighted_pick(seqs, activity, rolls, n) matches Some(i) ==> i < n
            && seqs[i as int].activity == activity,
    decreases n,
{
    if n > 0 {
        law_weighted_pick_has_activity(seqs, activity, rolls, n - 1);
    }
}

/// Once the weighted choice has picked a sequence, it keeps having picked one.
pub proof fn lemma_weighted_pick_stays(
    seqs: Seq<SequenceDesc>,
    activity: i32,
    rolls: Seq<i32>,
    m: int,
    n: int,
)
    requires
        0 <= m <= n,
        weighted_pick(seqs, activity, rolls, m) is Some,
    ensures
        weighted_pick(seqs, activity, rolls, n) is Some,
    decreases n - m,
{
    if m < n {
        lemma_weighted_pick_stays(seqs, activity, rolls, m, n - 1);
    }
}

/// When some sequence has the activity and the first such has a weight that is not
/// negative, the weighted choice picks a sequence, provided the number drawn for it, if
/// any, lies between `0` and the running total less one.
pub proof fn law_weighted_pick_finds(
    seqs: Seq<SequenceDesc>,
    activity: i32,
    rolls: Seq<i32>,
    k: int,
)
    requires
        0 <= k < seqs.len(),
        seqs[k].activity == activity,
        seqs[k].actweight >= 0,
        forall|j: int| 0 <= j < k ==> #[trigger] seqs[j].activity != activity,
        weight_total(seqs, activity, k + 1) != 0 ==> 0 <= rolls[draw_plan(
            seqs,
            activity,
            k,
        ).len() as int] < weight_total(seqs, activity, k + 1),
    ensures
        weighted_pick(seqs, activity, rolls, seqs.len() as int) is Some,
{
    lemma_weight_total_zero_before(seqs, activity, k);
    lemma_weighted_pick_stays(seqs, activity, rolls, k + 1, seqs.len() as int);
}

/// Before the first sequence with the activity, the running total is zero.
proof fn lemma_weight_total_zero_before(seqs: Seq<SequenceDesc>, activity: i32, k: int)
    requires
        0 <= k <= seqs.len(),
        forall|j: int| 0 <= j < k ==> #[trigger] seqs[j].activity != activity,
    ensures
        weight_total(seqs, activity, k) == 0,
    decreases k,
{
    if k > 0 {
        lemma_weight_total_zero_before(seqs, activity, k - 1);
    }
}

/// Each draw in the plan belongs to a sequence with the activity, at which the running total
/// is not zero, and its bound is that total less one; the draws come in the order of the
/// sequences, one for each such sequence and none for any other.
pub proof fn law_draw_plan_entries(seqs: Seq<SequenceDesc>, activity: i32, n: int)
    requires
        0 <= n <= seqs.len() <= usize::MAX,
        weight_totals_fit(seqs, activity),
    ensures
        forall|k: int|
            0 <= k < draw_plan(seqs, activity, n).len() ==> {
                let (p, high) = #[trigger] draw_plan(seqs, activity, n)[k];
                &&& p < n
                &&& seqs[p as int].activity == activity
                &&& weight_total(seqs, activity, p + 1) != 0
                &&& high == weight_total(seqs, activity, p + 1) - 1
            },
        forall|k: int, l: int|
            0 <= k < l < draw_plan(seqs, activity, n).len() ==> (#[trigger] draw_plan(
                seqs,
                activity,
                n,
            )[k]).0 < (#[trigger] draw_plan(seqs, activity, n)[l]).0,
        forall|p: int|
            0 <= p < n && #[trigger] seqs[p].activity == activity && weight_total(
                seqs,
                activity,
                p + 1,
            ) != 0 ==> exists|k: int|
                0 <= k < draw_plan(seqs, activity, n).len() && (#[trigger] draw_plan(
                    seqs,
                    activity,
                    n,
                )[k]).0 == p,
    decreases n,
{
    if n > 0 {
        law_draw_plan_entries(seqs, activity, n - 1);
        let prev = draw_plan(seqs, activity, n - 1);
        let cur = draw_plan(seqs, activity, n);
        assert forall|k: int| 0 <= k < prev.len() implies #[trigger] cur[k] == prev[k] by {}
        assert(i32::MIN < weight_total(seqs, activity, n) <= i32::MAX);
        assert forall|p: int|
            0 <= p < n && #[trigger] seqs[p].activity == activity && weight_total(
                seqs,
                activity,
                p + 1,
            ) != 0 implies exists|k: int| 0 <= k < cur.len() && (#[trigger] cur[k]).0 == p by {
            if p < n - 1 {
                let k = choose|k: int| 0 <= k < prev.len() && (#[trigger] prev[k]).0 == p;
                assert(cur[k] == prev[k]);
            } else {
                assert(cur[prev.len() as int].0 == p);
            }
        }
    }
}

/// When no sequence has the activity, nothing is drawn and nothing is picked, so the index
/// of the pick is `0`.
pub proof fn law_no_activity_no_draws(
    seqs: Seq<SequenceDesc>,
    activity: i32,
    rolls: Seq<i32>,
    n: int,
)
    requires
        0 <= n <= seqs.len(),
        forall|j: int| 0 <= j < n ==> #[trigger] seqs[j].activity != activity,
    ensures
        draw_plan(seqs, activity, n).len() == 0,
        weighted_pick(seqs, activity, rolls, n) is None,
    decreases n,
{
    if n > 0 {
        law_no_activity_no_draws(seqs, activity, rolls, n - 1);
    }
}

/// When every sequence with the activity weighs zero, nothing is drawn, and the pick is the
/// last sequence with the activity, if there is one.
pub proof fn law_zero_weights_no_draws(
    seqs: Seq<SequenceDesc>,
    activity: i32,
    rolls: Seq<i32>,
    n: int,
)
    requires
        0 <= n <= seqs.len() <= usize::MAX,
        forall|j: int| 0 <= j < n && #[trigger] seqs[j].activity == activity ==> seqs[j].actweight == 0,
    ensures
        weight_total(seqs, activity, n) == 0,
        draw_plan(seqs, activity, n).len() == 0,
        weighted_pick(seqs, activity, rolls, n) matches Some(i) ==> i < n && seqs[i as int].activity
            == activity && forall|j: int| i < j < n ==> #[trigger] seqs[j].activity != activity,
        weighted_pick(seqs, activity, rolls, n) is None ==> forall|j: int|
            0 <= j < n ==> #[trigger] seqs[j].activity != activity,
    decreases n,
{
    if n > 0 {
        law_zero_weights_no_draws(seqs, activity, rolls, n - 1);
    }
}

/// Each action that precaching asks for concerns an event of the sequence that is a
/// server-side sound event: a sound to precache when the event names one, a report when it
/// names none; and every such event gets its action.
pub proof fn law_precache_plan(events: Seq<Event>, n: int)
    requires
        0 <= n <= events.len() <= usize::MAX,
    ensures
        forall|k: int|
            0 <= k < precache_plan(events, n).len() ==> match #[trigger] precache_plan(
                events,
                n,
            )[k] {
                PrecacheAction::Sound { event } => event < n && precache_step(
                    events[event as int],
                    event as int,
                ) == Some(PrecacheAction::Sound { event }) && c_str(
                    events[event as int].spec_options(),
                ).len() > 0 && is_script_sound_raw(events[event as int].spec_kind())
                    && events[event as int].spec_kind() < EventKind::CLIENT,
                PrecacheAction::InvalidSound { event } => event < n && c_str(
                    events[event as int].spec_options(),
                ).len() == 0 && is_script_sound_raw(events[event as int].spec_kind())
                    && events[event as int].spec_kind() < EventKind::CLIENT,
            },
        forall|p: int|
            0 <= p < n && (#[trigger] precache_step(events[p], p)) is Some ==> exists|k: int|
                0 <= k < precache_plan(events, n).len() && precache_plan(events, n)[k]
                    == precache_step(events[p], p)->0,
        precache_plan(events, n).len() <= n,
    decreases n,
{
    if n > 0 {
        law_precache_plan(events, n - 1);
        let prev = precache_plan(events, n - 1);
        let cur = precache_plan(events, n);
        assert forall|k: int| 0 <= k < prev.len() implies #[trigger] cur[k] == prev[k] by {}
        assert forall|p: int|
            0 <= p < n && (#[trigger] precache_step(events[p], p)) is Some implies exists|k: int|
                0 <= k < cur.len() && cur[k] == precache_step(events[p], p)->0 by {
            if p < n - 1 {
                let k = choose|k: int|
                    0 <= k < prev.len() && prev[k] == precache_step(events[p], p)->0;
                assert(cur[k] == prev[k]);
            } else {
                assert(cur[prev.len() as int] == precache_step(events[p], p)->0);
            }
        }
    }
}

/// Whether the sequence at position `j` replaces the choice when the weighted choice comes
/// to it: it has the activity, and the running total there is zero or the number drawn for
/// it is below its weight.
pub open spec fn pick_replaces(
    seqs: Seq<SequenceDesc>,
    activity: i32,
    rolls: Seq<i32>,
    j: int,
) -> bool {
    seqs[j].activity == activity && (weight_total(seqs, activity, j + 1) == 0
        || rolls[draw_plan(seqs, activity, j).len() as int] < seqs[j].actweight)
}

/// The weighted choice is the last position that replaces the choice, or nothing when no
/// position does.
pub proof fn law_weighted_pick_is_last_replacing(
    seqs: Seq<SequenceDesc>,
    activity: i32,
    rolls: Seq<i32>,
    n: int,
)
    requires
        0 <= n <= seqs.len() <= usize::MAX,
    ensures
        weighted_pick(seqs, activity, rolls, n) matches Some(i) ==> i < n && pick_replaces(
            seqs,
            activity,
            rolls,
            i as int,
        ) && forall|j: int| i < j < n ==> !#[trigger] pick_replaces(seqs, activity, rolls, j),
        weighted_pick(seqs, activity, rolls, n) is None ==> forall|j: int|
            0 <= j < n ==> !#[trigger] pick_replaces(seqs, activity, rolls, j),
    decreases n,
{
    if n > 0 {
        law_weighted_pick_is_last_replacing(seqs, activity, rolls, n - 1);
    }
}

/// Precaching asks, for every event whose raw kind is 1004 or 1008 (the sound-playing
/// kinds, all below the client-side range), for one action at its position: the sound to
/// precache when its name is not empty, a report when it is; it asks for nothing about any
/// other event.
pub proof fn law_precache_sound_events(events: Seq<Event>)
    requires
        events.len() <= usize::MAX,
    ensures
        forall|p: int|
            0 <= p < events.len() && (events[p].spec_kind() == 1004 || events[p].spec_kind() == 1008)
                ==> exists|k: int|
                0 <= k < precache_plan(events, events.len() as int).len() && #[trigger] precache_plan(
                    events,
                    events.len() as int,
                )[k] == (if c_str(events[p].spec_options()).len() > 0 {
                    PrecacheAction::Sound { event: p as usize }
                } else {
                    PrecacheAction::InvalidSound { event: p as usize }
                }),
        forall|k: int|
            0 <= k < precache_plan(events, events.len() as int).len() ==> match #[trigger] precache_plan(
                events,
                events.len() as int,
            )[k] {
                PrecacheAction::Sound { event } => event < events.len() && (events[event as int].spec_kind()
                    == 1004 || events[event as int].spec_kind() == 1008) && c_str(
                    events[event as int].spec_options(),
                ).len() > 0,
                PrecacheAction::InvalidSound { event } => event < events.len() && (events[event as int].spec_kind()
                    == 1004 || events[event as int].spec_kind() == 1008) && c_str(
                    events[event as int].spec_options(),
                ).len() == 0,
            },
{
    let n = events.len() as int;
    law_precache_plan(events, n);
    let plan = precache_plan(events, n);
    assert forall|p: int|
        0 <= p < n && (events[p].spec_kind() == 1004 || events[p].spec_kind() == 1008)
            implies exists|k: int|
            0 <= k < plan.len() && #[trigger] plan[k] == (if c_str(events[p].spec_options()).len() > 0 {
                PrecacheAction::Sound { event: p as usize }
            } else {
                PrecacheAction::InvalidSound { event: p as usize }
            }) by {
        assert(precache_step(events[p], p) is Some);
        let k = choose|k: int| 0 <= k < plan.len() && plan[k] == precache_step(events[p], p)->0;
        assert(plan[k] == precache_step(events[p], p)->0);
    }
}

/// The sequences with an activity are exactly those whose activity it is, each once, in
/// the order of their positions.
pub proof fn law_activity_indices(seqs: Seq<SequenceDesc>, activity: i32, n: int)
    requires
        0 <= n <= seqs.len() <= usize::MAX,
    ensures
        forall|k: int|
            0 <= k < activity_indices(seqs, activity, n).len() ==> #[trigger] activity_indices(
                seqs,
                activity,
                n,
            )[k] < n && seqs[activity_indices(seqs, activity, n)[k] as int].activity == activity,
        forall|k: int, l: int|
            0 <= k < l < activity_indices(seqs, activity, n).len() ==> #[trigger] activity_indices(
                seqs,
                activity,
                n,
            )[k] < #[trigger] activity_indices(seqs, activity, n)[l],
        forall|j: int|
            0 <= j < n && #[trigger] seqs[j].activity == activity ==> exists|k: int|
                0 <= k < activity_indices(seqs, activity, n).len() && activity_indices(
                    seqs,
                    activity,
                    n,
                )[k] == j,
    decreases n,
{
    if n > 0 {
        law_activity_indices(seqs, activity, n - 1);
        let prev = activity_indices(seqs, activity, n - 1);
        let cur = activity_indices(seqs, activity, n);
        assert forall|k: int| 0 <= k < prev.len() implies #[trigger] cur[k] == prev[k] by {}
        assert forall|j: int|
            0 <= j < n && #[trigger] seqs[j].activity == activity implies exists|k: int|
                0 <= k < cur.len() && cur[k] == j by {
            if j < n - 1 {
                let k = choose|k: int| 0 <= k < prev.len() && prev[k] == j;
                assert(cur[k] == prev[k]);
            } else {
                assert(cur[prev.len() as int] == j);
            }
        }
    }
}

/// One step of the weighted choice: the running total adds the weight of a sequence exactly
/// when it has the activity; such a sequence becomes the choice when the total is then zero,
/// or the number drawn for it is below its weight, and otherwise the choice stays; a
/// sequence without the activity changes nothing and draws nothing.
pub proof fn law_weighted_pick_step(
    seqs: Seq<SequenceDesc>,
    activity: i32,
    rolls: Seq<i32>,
    n: int,
)
    requires
        0 <= n < seqs.len() <= usize::MAX,
    ensures
        seqs[n].activity == activity ==> weight_total(seqs, activity, n + 1) == weight_total(
            seqs,
            activity,
            n,
        ) + seqs[n].actweight,
        seqs[n].activity != activity ==> weight_total(seqs, activity, n + 1) == weight_total(
            seqs,
            activity,
            n,
        ) && draw_plan(seqs, activity, n + 1) == draw_plan(seqs, activity, n)
            && weighted_pick(seqs, activity, rolls, n + 1) == weighted_pick(seqs, activity, rolls, n),
        seqs[n].activity == activity && weight_total(seqs, activity, n + 1) == 0 ==> weighted_pick(
            seqs,
            activity,
            rolls,
            n + 1,
        ) == Some(n as usize) && draw_plan(seqs, activity, n + 1) == draw_plan(seqs, activity, n),
        seqs[n].activity == activity && weight_total(seqs, activity, n + 1) != 0 ==> {
            let d = draw_plan(seqs, activity, n).len() as int;
            &&& draw_plan(seqs, activity, n + 1).len() == d + 1
            &&& rolls[d] < seqs[n].actweight ==> weighted_pick(seqs, activity, rolls, n + 1) == Some(
                n as usize,
            )
            &&& rolls[d] >= seqs[n].actweight ==> weighted_pick(seqs, activity, rolls, n + 1)
                == weighted_pick(seqs, activity, rolls, n)
        },
{
}

} // verus!
