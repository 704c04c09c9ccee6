//! One forward step of the simulation.
//!
//! A step runs four stages in a fixed order: the outcome of the physics step
//! is taken over, every fighter reacts to the input of its player, the shadow
//! positions are refreshed, and the frame counter goes up. The physics
//! engine and the velocities it owns stay outside; a step is told where the
//! bodies ended up and answers with the impulses to give them.

use crate::frame::increase_frame_system;
use crate::input::{law_edge_flag, records, Control, ControlSample, InferiInput};
use crate::world::{
    AnimationIndices, Coordinates, Fighter, PrevPos, SimulationContext, Snapshot, PUNCH_FIRST,
    PUNCH_LAST,
};
use vstd::prelude::*;

verus! {

/// The axis along which an impulse acts.
#[derive(Clone, Copy, Debug, PartialEq, Eq, Structural)]
pub enum Axis {
    X,
    Y,
}

/// A change of linear velocity, in world units per second.
#[derive(Clone, Copy, Debug, PartialEq, Eq, Structural)]
pub struct Impulse {
    pub axis: Axis,
    pub amount: i32,
}

/// Upward impulse of a jump.
pub const JUMP_IMPULSE: i32 = 125;

/// Impulse per frame while down, left or right is held.
pub const DOWN_IMPULSE: i32 = -10;

pub const LEFT_IMPULSE: i32 = -10;

pub const RIGHT_IMPULSE: i32 = 10;

/// What the world outside the step reports of one fighter for one frame: the
/// position after the physics step, whether the body has a linear velocity
/// to act on, and whether the animation timer ran out on this frame.
#[derive(Clone, Copy, Debug, PartialEq, Eq, Structural)]
pub struct Observation {
    pub position: Coordinates,
    pub has_velocity: bool,
    pub timer_finished: bool,
}

/// Everything a step takes besides the state: the resolved input of each
/// player, indexed by handle, and one observation per fighter, in the order
/// of the fighters.
pub struct Frame {
    pub inputs: Seq<InferiInput>,
    pub observed: Seq<Observation>,
}

/// The impulses that a record asks for, in the order in which they are
/// applied. A jump fires on the frame on which up is activated and not while
/// it stays held; down, left and right push on every frame they are held.
pub open spec fn impulses_of(record: InferiInput) -> Seq<Impulse> {
    (if record.is_just_pressed(Control::Up) {
        seq![Impulse { axis: Axis::Y, amount: JUMP_IMPULSE }]
    } else {
        Seq::<Impulse>::empty()
    }) + (if record.is_held(Control::Down) {
        seq![Impulse { axis: Axis::Y, amount: DOWN_IMPULSE }]
    } else {
        Seq::<Impulse>::empty()
    }) + (if record.is_held(Control::Left) {
        seq![Impulse { axis: Axis::X, amount: LEFT_IMPULSE }]
    } else {
        Seq::<Impulse>::empty()
    }) + (if record.is_held(Control::Right) {
        seq![Impulse { axis: Axis::X, amount: RIGHT_IMPULSE }]
    } else {
        Seq::<Impulse>::empty()
    })
}

/// Whether the sprite is mirrored after a record: activating left mirrors
/// it, activating right restores it, and right wins when both come at once.
pub open spec fn facing_after(flip_x: bool, record: InferiInput) -> bool {
    if record.is_just_pressed(Control::Right) {
        false
    } else if record.is_just_pressed(Control::Left) {
        true
    } else {
        flip_x
    }
}

/// A fighter after it has reacted to the record of its player. Only a body
/// with a linear velocity turns. Activating punch selects the punch cells.
/// When the timer runs out the sprite moves on one cell, or, from the last
/// cell of its range, back to rest.
pub open spec fn reacted(
    fighter: Fighter,
    record: InferiInput,
    has_velocity: bool,
    timer_finished: bool,
) -> Fighter {
    let flip_x = if has_velocity {
        facing_after(fighter.flip_x, record)
    } else {
        fighter.flip_x
    };
    let indices = if record.is_just_pressed(Control::Punch) {
        AnimationIndices { first: PUNCH_FIRST, last: PUNCH_LAST }
    } else {
        fighter.indices
    };
    if !timer_finished {
        Fighter { flip_x, indices, ..fighter }
    } else if fighter.sprite_index == indices.last {
        Fighter { flip_x, indices: AnimationIndices { first: 0, last: 0 }, sprite_index: 0, ..fighter }
    } else {
        Fighter { flip_x, indices, sprite_index: (fighter.sprite_index + 1) as usize, ..fighter }
    }
}

/// The impulses to give the body of a fighter that has reacted to `record`.
pub open spec fn impulses_for(record: InferiInput, has_velocity: bool) -> Seq<Impulse> {
    if has_velocity {
        impulses_of(record)
    } else {
        Seq::empty()
    }
}

/// The impulses that `record` asks for.
pub fn velocity_impulses(record: InferiInput) -> (impulses: Vec<Impulse>)
    ensures
        impulses@ == impulses_of(record),
{
    let mut impulses: Vec<Impulse> = Vec::new();
    if record.just_pressed(Control::Up) {
        impulses.push(Impulse { axis: Axis::Y, amount: JUMP_IMPULSE });
    }
    if record.held(Control::Down) {
        impulses.push(Impulse { axis: Axis::Y, amount: DOWN_IMPULSE });
    }
    if record.held(Control::Left) {
        impulses.push(Impulse { axis: Axis::X, amount: LEFT_IMPULSE });
    }
    if record.held(Control::Right) {
        impulses.push(Impulse { axis: Axis::X, amount: RIGHT_IMPULSE });
    }
    assert(impulses@ =~= impulses_of(record));
    impulses
}

/// Lets one fighter react to the record of its player, and returns the
/// impulses to give its body.
pub fn react(fighter: &mut Fighter, record: InferiInput, has_velocity: bool, timer_finished: bool) -> (impulses:
    Vec<Impulse>)
    requires
        old(fighter).animation_wf(),
    ensures
        *final(fighter) == reacted(*old(fighter), record, has_velocity, timer_finished),
        impulses@ == impulses_for(record, has_velocity),
        final(fighter).animation_wf(),
{
    let mut impulses: Vec<Impulse> = Vec::new();
    // Handle movement logic
    if has_velocity {
        impulses = velocity_impulses(record);
        // Handles changing directions
        if record.just_pressed(Control::Left) {
            fighter.flip_x = true;
        }
        if record.just_pressed(Control::Right) {
            fighter.flip_x = false;
        }
    }
    // Check if the punch button is just pressed in the current frame
    let punch_pressed = record.just_pressed(Control::Punch);
    if punch_pressed {
        fighter.indices = AnimationIndices { first: PUNCH_FIRST, last: PUNCH_LAST };
    }
    // Update the sprite index based on the animation indices
    if timer_finished {
        if fighter.sprite_index == fighter.indices.last {
            fighter.sprite_index = 0;
            fighter.indices = AnimationIndices { first: 0, last: 0 };
        } else {
            fighter.sprite_index += 1;
        }
    }
    impulses
}

/// Whether a record makes its fighter jump.
pub open spec fn jumps(record: InferiInput) -> bool {
    impulses_of(record).contains(Impulse { axis: Axis::Y, amount: JUMP_IMPULSE })
}

/// On how many of the frames of `records` the fighter jumps.
pub open spec fn jump_count(records: Seq<InferiInput>) -> nat
    decreases records.len(),
{
    if records.len() == 0 {
        0
    } else {
        jump_count(records.drop_last()) + if jumps(records.last()) {
            1nat
        } else {
            0nat
        }
    }
}

/// A record makes its fighter jump exactly if it carries the edge bit of up.
pub proof fn lemma_jump_needs_edge(record: InferiInput)
    ensures
        jumps(record) == record.is_just_pressed(Control::Up),
{
    let jump = Impulse { axis: Axis::Y, amount: JUMP_IMPULSE };
    let given = impulses_of(record);
    if record.is_just_pressed(Control::Up) {
        assert(given[0] == jump);
    } else {
        assert forall|i: int| 0 <= i < given.len() implies given[i] != jump by {
            assert(given[i].amount != JUMP_IMPULSE);
        }
    }
}

/// Holding jump gives one impulse. If up is released before a sequence of
/// frames and held on every frame of it, the fighter jumps on the first of
/// these frames and on no other, however long up stays held.
pub proof fn law_held_jump_fires_once(before: ControlSample, samples: Seq<ControlSample>)
    requires
        !before.up,
        samples.len() >= 1,
        forall|i: int| 0 <= i < samples.len() ==> (#[trigger] samples[i]).up,
    ensures
        jumps(records(before, samples)[0]),
        forall|i: int| 1 <= i < samples.len() ==> !jumps(#[trigger] records(before, samples)[i]),
        jump_count(records(before, samples)) == 1,
    decreases samples.len(),
{
    let all = records(before, samples);
    assert forall|i: int| 0 <= i < samples.len() implies jumps(#[trigger] all[i]) == (i == 0) by {
        lemma_jump_needs_edge(all[i]);
        law_edge_flag(before, samples, Control::Up, i);
        if i > 0 {
            assert(samples[i - 1].up);
            law_edge_flag(before, samples, Control::Up, i - 1);
        }
        assert(samples[i].up);
    }
    if samples.len() == 1 {
        assert(all.drop_last().len() == 0);
        assert(jump_count(all.drop_last()) == 0);
    } else {
        let shorter = samples.drop_last();
        law_held_jump_fires_once(before, shorter);
        assert(records(before, shorter) =~= all.drop_last());
        assert(!jumps(all[samples.len() - 1]));
    }
}

/// Stage one on a sequence of fighters: each takes the position that the
/// physics step left its body at. A fighter of which nothing is reported
/// stays where it was.
pub open spec fn moved(fighters: Seq<Fighter>, observed: Seq<Observation>) -> Seq<Fighter> {
    Seq::new(
        fighters.len(),
        |i: int|
            if i < observed.len() {
                Fighter { position: observed[i].position, ..fighters[i] }
            } else {
                fighters[i]
            },
    )
}

/// Whether the fighter at index `i` reacts on this frame: it does if its
/// player has a record and something was reported of it.
pub open spec fn takes_part(fighters: Seq<Fighter>, frame: Frame, i: int) -> bool {
    0 <= i < fighters.len() && i < frame.observed.len() && fighters[i].player.handle
        < frame.inputs.len()
}

/// Stage two on a sequence of fighters, visited by ascending index.
pub open spec fn played(fighters: Seq<Fighter>, frame: Frame) -> Seq<Fighter> {
    Seq::new(
        fighters.len(),
        |i: int|
            if takes_part(fighters, frame, i) {
                reacted(
                    fighters[i],
                    frame.inputs[fighters[i].player.handle as int],
                    frame.observed[i].has_velocity,
                    frame.observed[i].timer_finished,
                )
            } else {
                fighters[i]
            },
    )
}

/// The impulses of stage two, one list per fighter.
pub open spec fn actions(fighters: Seq<Fighter>, frame: Frame) -> Seq<Seq<Impulse>> {
    Seq::new(
        fighters.len(),
        |i: int|
            if takes_part(fighters, frame, i) {
                impulses_for(
                    frame.inputs[fighters[i].player.handle as int],
                    frame.observed[i].has_velocity,
                )
            } else {
                Seq::empty()
            },
    )
}

/// Stage three on a sequence of fighters: the shadow position becomes the
/// position.
pub open spec fn shadowed(fighters: Seq<Fighter>) -> Seq<Fighter> {
    Seq::new(
        fighters.len(),
        |i: int| Fighter { previous_position: PrevPos(fighters[i].position), ..fighters[i] },
    )
}

impl Snapshot {
    /// The snapshot after one forward step: the stages one to three in this
    /// order, then the frame counter raised by one.
    pub open spec fn after(self, frame: Frame) -> Snapshot {
        Snapshot {
            frame: self.frame + 1,
            walls: self.walls,
            fighters: shadowed(played(moved(self.fighters, frame.observed), frame)),
        }
    }

    /// The impulses that the step from this snapshot hands out.
    pub open spec fn actions(self, frame: Frame) -> Seq<Seq<Impulse>> {
        actions(moved(self.fighters, frame.observed), frame)
    }
}

/// Reacting keeps the sprite in a state that the animation can reach, and
/// changes neither the player nor the position of a fighter.
pub proof fn lemma_reacted_keeps_fighter(
    fighter: Fighter,
    record: InferiInput,
    has_velocity: bool,
    timer_finished: bool,
)
    requires
        fighter.animation_wf(),
    ensures
        reacted(fighter, record, has_velocity, timer_finished).animation_wf(),
        reacted(fighter, record, has_velocity, timer_finished).player == fighter.player,
        reacted(fighter, record, has_velocity, timer_finished).position == fighter.position,
{
}

/// A forward step keeps a snapshot well formed.
pub proof fn lemma_step_keeps_wf(snapshot: Snapshot, frame: Frame)
    requires
        snapshot.wf(),
    ensures
        snapshot.after(frame).wf(),
{
    let before = snapshot.fighters;
    let placed = moved(before, frame.observed);
    let after = snapshot.after(frame).fighters;
    assert forall|i: int| 0 <= i < after.len() implies (#[trigger] after[i]).animation_wf()
        && after[i].player == before[i].player by {
        assert(before[i].animation_wf());
        if takes_part(placed, frame, i) {
            lemma_reacted_keeps_fighter(
                placed[i],
                frame.inputs[placed[i].player.handle as int],
                frame.observed[i].has_velocity,
                frame.observed[i].timer_finished,
            );
        }
    }
}

/// The cast of a match is fixed. A forward step changes neither the walls,
/// nor the number of fighters, nor the player of any fighter.
pub proof fn law_step_keeps_cast(snapshot: Snapshot, frame: Frame)
    ensures
        snapshot.after(frame).walls == snapshot.walls,
        snapshot.after(frame).fighters.len() == snapshot.fighters.len(),
        forall|i: int|
            0 <= i < snapshot.fighters.len() ==> (#[trigger] snapshot.after(frame).fighters[i]).player
                == snapshot.fighters[i].player,
{
}

/// After a forward step the shadow position of every fighter is the
/// position that the step left it at.
pub proof fn law_shadow_follows_position(snapshot: Snapshot, frame: Frame)
    ensures
        forall|i: int|
            0 <= i < snapshot.fighters.len() ==> (#[trigger] snapshot.after(
                frame,
            ).fighters[i]).previous_position == PrevPos(snapshot.after(frame).fighters[i].position),
        forall|i: int|
            0 <= i < snapshot.fighters.len() && i < frame.observed.len() ==> (
            #[trigger] snapshot.after(frame).fighters[i]).position == frame.observed[i].position,
{
}

/// Whether all sprites are in a state that the animation can reach.
pub open spec fn sprites_wf(fighters: Seq<Fighter>) -> bool {
    forall|i: int| 0 <= i < fighters.len() ==> #[trigger] fighters[i].animation_wf()
}

/// Stage one: takes over the outcome of the physics step.
pub fn step_physics(fighters: &mut Vec<Fighter>, observed: &Vec<Observation>)
    ensures
        final(fighters)@ == moved(old(fighters)@, observed@),
{
    let mut i: usize = 0;
    while i < fighters.len() && i < observed.len()
        invariant
            fighters.len() == old(fighters).len(),
            i <= fighters.len(),
            i <= observed.len(),
            forall|k: int| 0 <= k < i ==> fighters@[k] == moved(old(fighters)@, observed@)[k],
            forall|k: int| i <= k < fighters.len() ==> fighters@[k] == old(fighters)@[k],
        decreases fighters.len() - i,
    {
        let mut fighter = fighters[i];
        fighter.position = observed[i].position;
        fighters.set(i, fighter);
        i += 1;
    }
    assert(fighters@ =~= moved(old(fighters)@, observed@));
}

/// Stage two: every fighter whose player has a record reacts to it, in
/// ascending order of the fighters. Returns the impulses for each body.
pub fn handle_player_input(
    fighters: &mut Vec<Fighter>,
    inputs: &Vec<InferiInput>,
    observed: &Vec<Observation>,
) -> (impulses: Vec<Vec<Impulse>>)
    requires
        sprites_wf(old(fighters)@),
    ensures
        final(fighters)@ == played(
            old(fighters)@,
            Frame { inputs: inputs@, observed: observed@ },
        ),
        impulses@.len() == old(fighters)@.len(),
        forall|i: int|
            0 <= i < impulses@.len() ==> (#[trigger] impulses@[i])@ == actions(
                old(fighters)@,
                Frame { inputs: inputs@, observed: observed@ },
            )[i],
        sprites_wf(final(fighters)@),
{
    let ghost frame = Frame { inputs: inputs@, observed: observed@ };
    let mut impulses: Vec<Vec<Impulse>> = Vec::new();
    let mut i: usize = 0;
    while i < fighters.len()
        invariant
            fighters.len() == old(fighters).len(),
            i <= fighters.len(),
            impulses@.len() == i,
            frame == (Frame { inputs: inputs@, observed: observed@ }),
            forall|k: int| 0 <= k < i ==> fighters@[k] == played(old(fighters)@, frame)[k],
            forall|k: int| i <= k < fighters.len() ==> fighters@[k] == old(fighters)@[k],
            forall|k: int| 0 <= k < i ==> (#[trigger] impulses@[k])@ == actions(old(fighters)@, frame)[k],
            sprites_wf(old(fighters)@),
            forall|k: int| 0 <= k < i ==> (#[trigger] fighters@[k]).animation_wf(),
        decreases fighters.len() - i,
    {
        let mut fighter = fighters[i];
        let handle: usize = fighter.player.handle;
        let mut given: Vec<Impulse> = Vec::new();
        if i < observed.len() && handle < inputs.len() {
            given = react(
                &mut fighter,
                inputs[handle],
                observed[i].has_velocity,
                observed[i].timer_finished,
            );
        }
        fighters.set(i, fighter);
        impulses.push(given);
        i += 1;
    }
    assert(fighters@ =~= played(old(fighters)@, frame));
    impulses
}

/// Stage three: refreshes the shadow position of every fighter.
pub fn update_previous_position(fighters: &mut Vec<Fighter>)
    ensures
        final(fighters)@ == shadowed(old(fighters)@),
{
    let mut i: usize = 0;
    while i < fighters.len()
        invariant
            fighters.len() == old(fighters).len(),
            i <= fighters.len(),
            forall|k: int| 0 <= k < i ==> fighters@[k] == shadowed(old(fighters)@)[k],
            forall|k: int| i <= k < fighters.len() ==> fighters@[k] == old(fighters)@[k],
        decreases fighters.len() - i,
    {
        let mut fighter = fighters[i];
        fighter.previous_position = PrevPos(fighter.position);
        fighters.set(i, fighter);
        i += 1;
    }
    assert(fighters@ =~= shadowed(old(fighters)@));
}

/// One forward step. Runs the four stages in their order on the context and
/// returns the impulses for the bodies, one list per fighter.
pub fn advance_frame(
    ctx: &mut SimulationContext,
    inputs: &Vec<InferiInput>,
    observed: &Vec<Observation>,
) -> (impulses: Vec<Vec<Impulse>>)
    requires
        old(ctx)@.wf(),
        old(ctx).frame_count.frame < usize::MAX,
    ensures
        final(ctx)@ == old(ctx)@.after(Frame { inputs: inputs@, observed: observed@ }),
        impulses@.len() == old(ctx)@.fighters.len(),
        forall|i: int|
            0 <= i < impulses@.len() ==> (#[trigger] impulses@[i])@ == old(ctx)@.actions(
                Frame { inputs: inputs@, observed: observed@ },
            )[i],
        final(ctx)@.wf(),
{
    proof {
        lemma_step_keeps_wf(ctx@, Frame { inputs: inputs@, observed: observed@ });
    }
    step_physics(&mut ctx.fighters, observed);
    proof {
        assert forall|i: int| 0 <= i < ctx.fighters@.len() implies (#[trigger] ctx.fighters@[i]).animation_wf() by {
            assert(old(ctx).fighters@[i].animation_wf());
        }
    }
    let impulses = handle_player_input(&mut ctx.fighters, inputs, observed);
    update_previous_position(&mut ctx.fighters);
    increase_frame_system(&mut ctx.frame_count);
    impulses
}

} // verus!
