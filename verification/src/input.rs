//! The input encoder.
//!
//! Every logical frame the state of eight controls is packed into one 16-bit
//! record. Each control owns two neighbouring bits: the lower one is set while
//! the control is held, the upper one only on the frame on which the control
//! went from released to held.

use vstd::prelude::*;

verus! {

// Direction inputs
pub const INPUT_UP: u16 = 0x0001;
pub const INPUT_UP_JUST_PRESSED: u16 = 0x0002;
pub const INPUT_DOWN: u16 = 0x0004;
pub const INPUT_DOWN_JUST_PRESSED: u16 = 0x0008;
pub const INPUT_LEFT: u16 = 0x0010;
pub const INPUT_LEFT_JUST_PRESSED: u16 = 0x0020;
pub const INPUT_RIGHT: u16 = 0x0040;
pub const INPUT_RIGHT_JUST_PRESSED: u16 = 0x0080;

// Attack inputs
pub const INPUT_PUNCH: u16 = 0x0100;
pub const INPUT_PUNCH_JUST_PRESSED: u16 = 0x0200;
pub const INPUT_KICK: u16 = 0x0400;
pub const INPUT_KICK_JUST_PRESSED: u16 = 0x0800;
pub const INPUT_SLASH: u16 = 0x1000;
pub const INPUT_SLASH_JUST_PRESSED: u16 = 0x2000;
pub const INPUT_HEAVY: u16 = 0x4000;
pub const INPUT_HEAVY_JUST_PRESSED: u16 = 0x8000;

/// The session configuration shared with the rollback layer: a 16-bit input
/// record per player and per frame, peers addressed by their signalling id.
pub type GgrsConfig = bevy_ggrs::GgrsConfig<u16, matchbox_protocol::PeerId>;

/// One of the eight logical controls.
#[derive(Clone, Copy, Debug, PartialEq, Eq, Structural)]
pub enum Control {
    Up,
    Down,
    Left,
    Right,
    Punch,
    Kick,
    Slash,
    Heavy,
}

impl Control {
    /// The bit that is set on every frame on which the control is held.
    pub open spec fn held_mask(self) -> u16 {
        match self {
            Control::Up => INPUT_UP,
            Control::Down => INPUT_DOWN,
            Control::Left => INPUT_LEFT,
            Control::Right => INPUT_RIGHT,
            Control::Punch => INPUT_PUNCH,
            Control::Kick => INPUT_KICK,
            Control::Slash => INPUT_SLASH,
            Control::Heavy => INPUT_HEAVY,
        }
    }

    /// The bit that is set only on the frame on which the control was activated.
    pub open spec fn edge_mask(self) -> u16 {
        match self {
            Control::Up => INPUT_UP_JUST_PRESSED,
            Control::Down => INPUT_DOWN_JUST_PRESSED,
            Control::Left => INPUT_LEFT_JUST_PRESSED,
            Control::Right => INPUT_RIGHT_JUST_PRESSED,
            Control::Punch => INPUT_PUNCH_JUST_PRESSED,
            Control::Kick => INPUT_KICK_JUST_PRESSED,
            Control::Slash => INPUT_SLASH_JUST_PRESSED,
            Control::Heavy => INPUT_HEAVY_JUST_PRESSED,
        }
    }

    pub fn held_bit(self) -> (mask: u16)
        ensures
            mask == self.held_mask(),
    {
        match self {
            Control::Up => INPUT_UP,
            Control::Down => INPUT_DOWN,
            Control::Left => INPUT_LEFT,
            Control::Right => INPUT_RIGHT,
            Control::Punch => INPUT_PUNCH,
            Control::Kick => INPUT_KICK,
            Control::Slash => INPUT_SLASH,
            Control::Heavy => INPUT_HEAVY,
        }
    }

    pub fn edge_bit(self) -> (mask: u16)
        ensures
            mask == self.edge_mask(),
    {
        match self {
            Control::Up => INPUT_UP_JUST_PRESSED,
            Control::Down => INPUT_DOWN_JUST_PRESSED,
            Control::Left => INPUT_LEFT_JUST_PRESSED,
            Control::Right => INPUT_RIGHT_JUST_PRESSED,
            Control::Punch => INPUT_PUNCH_JUST_PRESSED,
            Control::Kick => INPUT_KICK_JUST_PRESSED,
            Control::Slash => INPUT_SLASH_JUST_PRESSED,
            Control::Heavy => INPUT_HEAVY_JUST_PRESSED,
        }
    }
}

/// The input record of one player for one frame.
#[derive(Clone, Copy, Debug, PartialEq, Eq, Hash, Structural)]
pub struct InferiInput {
    pub buttons: u16,
}

impl Default for InferiInput {
    fn default() -> (record: Self)
        ensures
            record.buttons == 0,
    {
        InferiInput { buttons: 0 }
    }
}

impl InferiInput {
    /// Whether the record says that `control` is held on its frame.
    pub open spec fn is_held(self, control: Control) -> bool {
        self.buttons & control.held_mask() != 0
    }

    /// Whether the record says that `control` was activated on its frame.
    pub open spec fn is_just_pressed(self, control: Control) -> bool {
        self.buttons & control.edge_mask() != 0
    }

    pub fn held(&self, control: Control) -> (set: bool)
        ensures
            set == self.is_held(control),
    {
        self.buttons & control.held_bit() != 0
    }

    pub fn just_pressed(&self, control: Control) -> (set: bool)
        ensures
            set == self.is_just_pressed(control),
    {
        self.buttons & control.edge_bit() != 0
    }
}

/// The raw activation state of the eight controls at one sampling point.
#[derive(Clone, Copy, Debug, PartialEq, Eq, Structural)]
pub struct ControlSample {
    pub up: bool,
    pub down: bool,
    pub left: bool,
    pub right: bool,
    pub punch: bool,
    pub kick: bool,
    pub slash: bool,
    pub heavy: bool,
}

impl Default for ControlSample {
    /// The sample of a device on which nothing is pressed.
    fn default() -> (sample: Self)
        ensures
            sample == ControlSample::released(),
    {
        ControlSample {
            up: false,
            down: false,
            left: false,
            right: false,
            punch: false,
            kick: false,
            slash: false,
            heavy: false,
        }
    }
}

impl ControlSample {
    /// No control is active.
    pub open spec fn released() -> ControlSample {
        ControlSample {
            up: false,
            down: false,
            left: false,
            right: false,
            punch: false,
            kick: false,
            slash: false,
            heavy: false,
        }
    }

    pub open spec fn is_active(self, control: Control) -> bool {
        match control {
            Control::Up => self.up,
            Control::Down => self.down,
            Control::Left => self.left,
            Control::Right => self.right,
            Control::Punch => self.punch,
            Control::Kick => self.kick,
            Control::Slash => self.slash,
            Control::Heavy => self.heavy,
        }
    }

    pub fn active(&self, control: Control) -> (on: bool)
        ensures
            on == self.is_active(control),
    {
        match control {
            Control::Up => self.up,
            Control::Down => self.down,
            Control::Left => self.left,
            Control::Right => self.right,
            Control::Punch => self.punch,
            Control::Kick => self.kick,
            Control::Slash => self.slash,
            Control::Heavy => self.heavy,
        }
    }
}

/// The two bits that `control` contributes to the record of a frame whose
/// sample is `current`, when the sample before it was `previous`.
pub open spec fn control_bits(control: Control, previous: ControlSample, current: ControlSample) -> u16 {
    if !current.is_active(control) {
        0u16
    } else if previous.is_active(control) {
        control.held_mask()
    } else {
        control.held_mask() | control.edge_mask()
    }
}

/// The record of a frame: the contributions of the eight controls, or-ed.
pub open spec fn encoded(previous: ControlSample, current: ControlSample) -> u16 {
    control_bits(Control::Up, previous, current)
        | control_bits(Control::Left, previous, current)
        | control_bits(Control::Down, previous, current)
        | control_bits(Control::Right, previous, current)
        | control_bits(Control::Punch, previous, current)
        | control_bits(Control::Kick, previous, current)
        | control_bits(Control::Slash, previous, current)
        | control_bits(Control::Heavy, previous, current)
}

proof fn lemma_fields_do_not_overlap(
    up: u16,
    left: u16,
    down: u16,
    right: u16,
    punch: u16,
    kick: u16,
    slash: u16,
    heavy: u16,
)
    by (bit_vector)
    requires
        up == 0 || up == 0x0001 || up == 0x0001 | 0x0002,
        down == 0 || down == 0x0004 || down == 0x0004 | 0x0008,
        left == 0 || left == 0x0010 || left == 0x0010 | 0x0020,
        right == 0 || right == 0x0040 || right == 0x0040 | 0x0080,
        punch == 0 || punch == 0x0100 || punch == 0x0100 | 0x0200,
        kick == 0 || kick == 0x0400 || kick == 0x0400 | 0x0800,
        slash == 0 || slash == 0x1000 || slash == 0x1000 | 0x2000,
        heavy == 0 || heavy == 0x4000 || heavy == 0x4000 | 0x8000,
    ensures
        ((up | left | down | right | punch | kick | slash | heavy) & 0x0001 != 0) == (up != 0),
        ((up | left | down | right | punch | kick | slash | heavy) & 0x0002 != 0) == (up == 0x0001
            | 0x0002),
        ((up | left | down | right | punch | kick | slash | heavy) & 0x0004 != 0) == (down != 0),
        ((up | left | down | right | punch | kick | slash | heavy) & 0x0008 != 0) == (down == 0x0004
            | 0x0008),
        ((up | left | down | right | punch | kick | slash | heavy) & 0x0010 != 0) == (left != 0),
        ((up | left | down | right | punch | kick | slash | heavy) & 0x0020 != 0) == (left == 0x0010
            | 0x0020),
        ((up | left | down | right | punch | kick | slash | heavy) & 0x0040 != 0) == (right != 0),
        ((up | left | down | right | punch | kick | slash | heavy) & 0x0080 != 0) == (right
            == 0x0040 | 0x0080),
        ((up | left | down | right | punch | kick | slash | heavy) & 0x0100 != 0) == (punch != 0),
        ((up | left | down | right | punch | kick | slash | heavy) & 0x0200 != 0) == (punch
            == 0x0100 | 0x0200),
        ((up | left | down | right | punch | kick | slash | heavy) & 0x0400 != 0) == (kick != 0),
        ((up | left | down | right | punch | kick | slash | heavy) & 0x0800 != 0) == (kick == 0x0400
            | 0x0800),
        ((up | left | down | right | punch | kick | slash | heavy) & 0x1000 != 0) == (slash != 0),
        ((up | left | down | right | punch | kick | slash | heavy) & 0x2000 != 0) == (slash
            == 0x1000 | 0x2000),
        ((up | left | down | right | punch | kick | slash | heavy) & 0x4000 != 0) == (heavy != 0),
        ((up | left | down | right | punch | kick | slash | heavy) & 0x8000 != 0) == (heavy
            == 0x4000 | 0x8000),
        0x0001u16 | 0x0002 == 0x0003,
        0x0004u16 | 0x0008 == 0x000c,
        0x0010u16 | 0x0020 == 0x0030,
        0x0040u16 | 0x0080 == 0x00c0,
        0x0100u16 | 0x0200 == 0x0300,
        0x0400u16 | 0x0800 == 0x0c00,
        0x1000u16 | 0x2000 == 0x3000,
        0x4000u16 | 0x8000 == 0xc000,
{
}

/// Reading a record back gives the samples it was made from: the held bit of
/// a control is set exactly if the control is active in `current`, and its
/// edge bit exactly if it is active in `current` and was not in `previous`.
pub proof fn lemma_encoded_bits(previous: ControlSample, current: ControlSample, control: Control)
    ensures
        (InferiInput { buttons: encoded(previous, current) }).is_held(control)
            == current.is_active(control),
        (InferiInput { buttons: encoded(previous, current) }).is_just_pressed(control) == (
        current.is_active(control) && !previous.is_active(control)),
{
    lemma_fields_do_not_overlap(
        control_bits(Control::Up, previous, current),
        control_bits(Control::Left, previous, current),
        control_bits(Control::Down, previous, current),
        control_bits(Control::Right, previous, current),
        control_bits(Control::Punch, previous, current),
        control_bits(Control::Kick, previous, current),
        control_bits(Control::Slash, previous, current),
        control_bits(Control::Heavy, previous, current),
    );
}

fn control_record(control: Control, previous: &ControlSample, current: &ControlSample) -> (bits:
    u16)
    ensures
        bits == control_bits(control, *previous, *current),
{
    if !current.active(control) {
        0
    } else if previous.active(control) {
        control.held_bit()
    } else {
        control.held_bit() | control.edge_bit()
    }
}

/// Packs the difference of two consecutive samples into the record of the
/// later one.
pub fn encode(previous: &ControlSample, current: &ControlSample) -> (record: InferiInput)
    ensures
        record.buttons == encoded(*previous, *current),
        forall|control: Control| #[trigger]
            record.is_held(control) == current.is_active(control),
        forall|control: Control| #[trigger]
            record.is_just_pressed(control) == (current.is_active(control)
                && !previous.is_active(control)),
{
    let buttons = control_record(Control::Up, previous, current) | control_record(
        Control::Left,
        previous,
        current,
    ) | control_record(Control::Down, previous, current) | control_record(
        Control::Right,
        previous,
        current,
    ) | control_record(Control::Punch, previous, current) | control_record(
        Control::Kick,
        previous,
        current,
    ) | control_record(Control::Slash, previous, current) | control_record(
        Control::Heavy,
        previous,
        current,
    );
    let record = InferiInput { buttons };
    proof {
        assert forall|control: Control| #[trigger]
            record.is_held(control) == current.is_active(control) by {
            lemma_encoded_bits(*previous, *current, control);
        }
        assert forall|control: Control| #[trigger]
            record.is_just_pressed(control) == (current.is_active(control)
                && !previous.is_active(control)) by {
            lemma_encoded_bits(*previous, *current, control);
        }
    }
    record
}

/// The records of consecutive frames: each is made from the sample of its
/// frame and the sample of the frame before, the first from `before`.
pub open spec fn records(before: ControlSample, samples: Seq<ControlSample>) -> Seq<InferiInput> {
    Seq::new(
        samples.len(),
        |i: int|
            InferiInput {
                buttons: encoded(
                    if i == 0 {
                        before
                    } else {
                        samples[i - 1]
                    },
                    samples[i],
                ),
            },
    )
}

/// Whether `control` was held on the frame before frame `i` of a sampled
/// sequence: as the record of that frame says, or, before the first frame,
/// as the sample before the sequence says.
pub open spec fn held_before(
    before: ControlSample,
    samples: Seq<ControlSample>,
    control: Control,
    i: int,
) -> bool {
    if i == 0 {
        before.is_active(control)
    } else {
        records(before, samples)[i - 1].is_held(control)
    }
}

/// Edge-flag correctness. On every frame of a sampled sequence, the held bit
/// of a control is set if and only if the control is active on that frame,
/// and its edge bit is set if and only if its held bit is set on this frame
/// and was clear on the frame before.
pub proof fn law_edge_flag(
    before: ControlSample,
    samples: Seq<ControlSample>,
    control: Control,
    i: int,
)
    requires
        0 <= i < samples.len(),
    ensures
        records(before, samples)[i].is_held(control) == samples[i].is_active(control),
        records(before, samples)[i].is_just_pressed(control) == (records(before, samples)[i].is_held(
            control,
        ) && !held_before(before, samples, control, i)),
{
    if i == 0 {
        lemma_encoded_bits(before, samples[0], control);
    } else {
        lemma_encoded_bits(samples[i - 1], samples[i], control);
        if i == 1 {
            lemma_encoded_bits(before, samples[0], control);
        } else {
            lemma_encoded_bits(samples[i - 2], samples[i - 1], control);
        }
    }
}

/// The records of the local players for one frame, keyed by player handle, in
/// the form in which the rollback layer takes them. Holds a
/// `bevy_ggrs::LocalInputs`, a newtype around a `bevy::utils::HashMap`.
#[verifier::external_body]
pub struct LocalInputs {
    pub inner: bevy_ggrs::LocalInputs<GgrsConfig>,
}

/// What a `LocalInputs` holds: the 16 bits of the record of each handle that
/// has one.
pub uninterp spec fn local_input_records(inputs: LocalInputs) -> Map<usize, u16>;

/// No record at all.
pub open spec fn no_records() -> Map<usize, u16> {
    Map::empty()
}

/// `bevy::utils::HashMap::new` inside the `bevy_ggrs::LocalInputs` tuple
/// struct: the new map has no entry.
#[verifier::external_body]
fn local_inputs_new() -> (inputs: LocalInputs)
    ensures
        local_input_records(inputs) == no_records(),
{
    LocalInputs { inner: bevy_ggrs::LocalInputs(bevy::utils::HashMap::new()) }
}

/// `bevy::utils::HashMap::insert`: afterwards `handle` maps to the bits of
/// `record`, whether or not it had an entry before, and no other entry has
/// changed.
#[verifier::external_body]
fn local_inputs_insert(inputs: &mut LocalInputs, handle: usize, record: InferiInput)
    ensures
        local_input_records(*final(inputs))
            == local_input_records(*old(inputs)).insert(handle, record.buttons),
{
    inputs.inner.0.insert(handle, record.buttons);
}

/// The mapping that `input` hands to the rollback layer: every local player
/// gets the record of the frame, and nobody else gets one.
pub open spec fn local_records(
    previous: ControlSample,
    current: ControlSample,
    local_players: Seq<usize>,
) -> Map<usize, u16> {
    Map::new(
        |handle: usize| local_players.contains(handle),
        |handle: usize| encoded(previous, current),
    )
}

/// Collects the local contribution to a frame: the record made from the last
/// two samples of the controls, once for each locally controlled player.
/// Remote players get no entry; without local players the mapping is empty.
pub fn input(previous: &ControlSample, current: &ControlSample, local_players: &Vec<usize>) -> (inputs:
    LocalInputs)
    ensures
        local_input_records(inputs) == local_records(*previous, *current, local_players@),
{
    let mut local_inputs = local_inputs_new();
    let inferi_input = encode(previous, current);
    proof {
        assert(local_input_records(local_inputs) =~= local_records(
            *previous,
            *current,
            local_players@.take(0),
        ));
    }
    let mut i: usize = 0;
    while i < local_players.len()
        invariant
            i <= local_players.len(),
            inferi_input.buttons == encoded(*previous, *current),
            local_input_records(local_inputs) == local_records(
                *previous,
                *current,
                local_players@.take(i as int),
            ),
        decreases local_players.len() - i,
    {
        let handle: usize = local_players[i];
        local_inputs_insert(&mut local_inputs, handle, inferi_input);
        proof {
            let before = local_players@.take(i as int);
            let after = local_players@.take(i + 1);
            assert(after == before.push(handle));
            assert forall|h: usize| after.contains(h) == (before.contains(h) || h == handle) by {
                if before.contains(h) {
                    let j = choose|j: int| 0 <= j < before.len() && before[j] == h;
                    assert(after[j] == h);
                }
                if h == handle {
                    assert(after[i as int] == h);
                }
            }
            assert(local_input_records(local_inputs) =~= local_records(
                *previous,
                *current,
                after,
            ));
        }
        i += 1;
    }
    proof {
        assert(local_players@.take(local_players.len() as int) == local_players@);
    }
    local_inputs
}

} // verus!
