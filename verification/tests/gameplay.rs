use inferi::gameplay::{
    advance_frame, handle_player_input, react, step_physics, update_previous_position,
    velocity_impulses, Axis, Impulse, Observation, DOWN_IMPULSE, JUMP_IMPULSE, LEFT_IMPULSE,
    RIGHT_IMPULSE,
};
use inferi::input::{
    encode, ControlSample, InferiInput, INPUT_DOWN, INPUT_KICK_JUST_PRESSED, INPUT_LEFT,
    INPUT_LEFT_JUST_PRESSED, INPUT_PUNCH, INPUT_PUNCH_JUST_PRESSED, INPUT_RIGHT,
    INPUT_RIGHT_JUST_PRESSED, INPUT_UP, INPUT_UP_JUST_PRESSED,
};
use inferi::world::{
    spawn_characters, spawn_fighter, AnimationIndices, Coordinates, Fighter, PrevPos,
    SimulationContext,
};

fn record(buttons: u16) -> InferiInput {
    InferiInput { buttons }
}

fn seen(x: u32, y: u32) -> Observation {
    Observation { position: Coordinates { x, y }, has_velocity: true, timer_finished: false }
}

#[test]
fn impulse_magnitudes() {
    assert_eq!(JUMP_IMPULSE, 125);
    assert_eq!(DOWN_IMPULSE, -10);
    assert_eq!(LEFT_IMPULSE, -10);
    assert_eq!(RIGHT_IMPULSE, 10);
}

#[test]
fn jump_needs_the_edge_bit() {
    assert_eq!(
        velocity_impulses(record(INPUT_UP | INPUT_UP_JUST_PRESSED)),
        vec![Impulse { axis: Axis::Y, amount: 125 }]
    );
    assert_eq!(velocity_impulses(record(INPUT_UP)), Vec::<Impulse>::new());
}

#[test]
fn directions_push_while_held() {
    assert_eq!(velocity_impulses(record(INPUT_DOWN)), vec![Impulse { axis: Axis::Y, amount: -10 }]);
    assert_eq!(velocity_impulses(record(INPUT_LEFT)), vec![Impulse { axis: Axis::X, amount: -10 }]);
    assert_eq!(velocity_impulses(record(INPUT_RIGHT)), vec![Impulse { axis: Axis::X, amount: 10 }]);
    assert_eq!(
        velocity_impulses(record(INPUT_LEFT | INPUT_LEFT_JUST_PRESSED)),
        vec![Impulse { axis: Axis::X, amount: -10 }]
    );
}

#[test]
fn impulses_come_in_the_order_up_down_left_right() {
    assert_eq!(
        velocity_impulses(record(0xffff)),
        vec![
            Impulse { axis: Axis::Y, amount: 125 },
            Impulse { axis: Axis::Y, amount: -10 },
            Impulse { axis: Axis::X, amount: -10 },
            Impulse { axis: Axis::X, amount: 10 },
        ]
    );
}

#[test]
fn attacks_give_no_impulse() {
    assert!(velocity_impulses(record(INPUT_PUNCH | INPUT_PUNCH_JUST_PRESSED)).is_empty());
    assert!(velocity_impulses(record(INPUT_KICK_JUST_PRESSED)).is_empty());
    assert!(velocity_impulses(record(0)).is_empty());
}

#[test]
fn holding_jump_for_five_frames_gives_one_impulse() {
    let released = ControlSample::default();
    let mut up = released;
    up.up = true;
    let mut previous = released;
    let mut upward: i32 = 0;
    let mut jumps: usize = 0;
    for frame in 0..5 {
        let impulses = velocity_impulses(encode(&previous, &up));
        for impulse in &impulses {
            assert_eq!(impulse.axis, Axis::Y);
            upward += impulse.amount;
            jumps += 1;
        }
        assert_eq!(impulses.len(), if frame == 0 { 1 } else { 0 });
        previous = up;
    }
    assert_eq!(jumps, 1);
    assert_eq!(upward, 125);
}

#[test]
fn holding_right_for_five_frames_pushes_five_times() {
    let released = ControlSample::default();
    let mut right = released;
    right.right = true;
    let mut previous = released;
    let mut sideways: i32 = 0;
    for _ in 0..5 {
        for impulse in velocity_impulses(encode(&previous, &right)) {
            assert_eq!(impulse.axis, Axis::X);
            sideways += impulse.amount;
        }
        previous = right;
    }
    assert_eq!(sideways, 50);
}

#[test]
fn activating_left_mirrors_and_right_restores() {
    let mut fighter = spawn_fighter(0);
    assert!(!fighter.flip_x);
    react(&mut fighter, record(INPUT_LEFT | INPUT_LEFT_JUST_PRESSED), true, false);
    assert!(fighter.flip_x);
    react(&mut fighter, record(INPUT_LEFT), true, false);
    assert!(fighter.flip_x);
    react(&mut fighter, record(INPUT_RIGHT), true, false);
    assert!(fighter.flip_x);
    react(&mut fighter, record(INPUT_RIGHT | INPUT_RIGHT_JUST_PRESSED), true, false);
    assert!(!fighter.flip_x);
    react(&mut fighter, record(INPUT_LEFT_JUST_PRESSED | INPUT_RIGHT_JUST_PRESSED), true, false);
    assert!(!fighter.flip_x);
    fighter.flip_x = true;
    react(&mut fighter, record(INPUT_LEFT_JUST_PRESSED | INPUT_RIGHT_JUST_PRESSED), true, false);
    assert!(!fighter.flip_x);
}

#[test]
fn a_body_without_velocity_neither_moves_nor_turns() {
    let mut fighter = spawn_fighter(0);
    let impulses = react(&mut fighter, record(0xffff), false, false);
    assert!(impulses.is_empty());
    assert!(!fighter.flip_x);
    assert_eq!(fighter.indices, AnimationIndices { first: 1, last: 4 });
}

#[test]
fn punch_runs_through_its_cells_and_comes_to_rest() {
    let mut fighter = spawn_fighter(0);
    react(&mut fighter, record(INPUT_PUNCH | INPUT_PUNCH_JUST_PRESSED), true, false);
    assert_eq!(fighter.indices, AnimationIndices { first: 1, last: 4 });
    assert_eq!(fighter.sprite_index, 0);
    for cell in 1..=4 {
        react(&mut fighter, record(INPUT_PUNCH), true, true);
        assert_eq!(fighter.sprite_index, cell);
        assert_eq!(fighter.indices, AnimationIndices { first: 1, last: 4 });
    }
    react(&mut fighter, record(0), true, true);
    assert_eq!(fighter.sprite_index, 0);
    assert_eq!(fighter.indices, AnimationIndices { first: 0, last: 0 });
    react(&mut fighter, record(0), true, true);
    assert_eq!(fighter.sprite_index, 0);
    assert_eq!(fighter.indices, AnimationIndices { first: 0, last: 0 });
}

#[test]
fn punch_on_the_tick_of_the_timer_moves_to_the_first_cell() {
    let mut fighter = spawn_fighter(1);
    react(&mut fighter, record(INPUT_PUNCH_JUST_PRESSED), true, true);
    assert_eq!(fighter.sprite_index, 1);
    assert_eq!(fighter.indices, AnimationIndices { first: 1, last: 4 });
}

#[test]
fn held_punch_does_not_restart_the_animation() {
    let mut fighter = spawn_fighter(0);
    react(&mut fighter, record(INPUT_PUNCH), true, false);
    assert_eq!(fighter.indices, AnimationIndices { first: 0, last: 0 });
}

#[test]
fn physics_outcome_is_taken_over_in_order() {
    let mut fighters = vec![spawn_fighter(0), spawn_fighter(1)];
    let start = fighters[1].position;
    step_physics(&mut fighters, &vec![seen(11, 12)]);
    assert_eq!(fighters[0].position, Coordinates { x: 11, y: 12 });
    assert_eq!(fighters[1].position, start);
    assert_eq!(fighters[0].previous_position, PrevPos(start));
    step_physics(&mut fighters, &vec![seen(1, 2), seen(3, 4), seen(5, 6)]);
    assert_eq!(fighters[0].position, Coordinates { x: 1, y: 2 });
    assert_eq!(fighters[1].position, Coordinates { x: 3, y: 4 });
    assert_eq!(fighters.len(), 2);
}

#[test]
fn shadow_position_copies_the_position() {
    let mut fighters = vec![spawn_fighter(0), spawn_fighter(1)];
    fighters[0].position = Coordinates { x: 0x3f80_0000, y: 0xbf80_0000 };
    update_previous_position(&mut fighters);
    assert_eq!(fighters[0].previous_position, PrevPos(Coordinates { x: 0x3f80_0000, y: 0xbf80_0000 }));
    assert_eq!(fighters[1].previous_position, PrevPos(fighters[1].position));
    assert_eq!(fighters[0].position, Coordinates { x: 0x3f80_0000, y: 0xbf80_0000 });
}

#[test]
fn each_fighter_reacts_to_the_record_of_its_handle() {
    let mut fighters = vec![spawn_fighter(0), spawn_fighter(1)];
    let inputs = vec![record(INPUT_UP | INPUT_UP_JUST_PRESSED), record(INPUT_LEFT | INPUT_LEFT_JUST_PRESSED)];
    let observed = vec![seen(0, 0), seen(0, 0)];
    let impulses = handle_player_input(&mut fighters, &inputs, &observed);
    assert_eq!(impulses.len(), 2);
    assert_eq!(impulses[0], vec![Impulse { axis: Axis::Y, amount: 125 }]);
    assert_eq!(impulses[1], vec![Impulse { axis: Axis::X, amount: -10 }]);
    assert!(!fighters[0].flip_x);
    assert!(fighters[1].flip_x);
}

#[test]
fn a_fighter_without_record_or_report_stays_as_it_is() {
    let mut fighters = vec![spawn_fighter(0), spawn_fighter(5)];
    let untouched: Vec<Fighter> = fighters.clone();
    let inputs = vec![record(0xffff)];
    let observed = vec![
        Observation { position: Coordinates { x: 0, y: 0 }, has_velocity: true, timer_finished: true },
        Observation { position: Coordinates { x: 0, y: 0 }, has_velocity: true, timer_finished: true },
    ];
    let impulses = handle_player_input(&mut fighters, &inputs, &observed);
    assert_eq!(impulses[0].len(), 4);
    assert!(impulses[1].is_empty());
    assert_eq!(fighters[1], untouched[1]);
    assert_ne!(fighters[0], untouched[0]);

    let mut fighters = vec![spawn_fighter(0), spawn_fighter(1)];
    let inputs = vec![record(0xffff), record(0xffff)];
    let impulses = handle_player_input(&mut fighters, &inputs, &vec![seen(0, 0)]);
    assert_eq!(impulses[0].len(), 4);
    assert!(impulses[1].is_empty());
    assert_eq!(fighters[1], untouched[0].clone_with_handle(1));
}

trait WithHandle {
    fn clone_with_handle(&self, handle: usize) -> Fighter;
}

impl WithHandle for Fighter {
    fn clone_with_handle(&self, handle: usize) -> Fighter {
        let mut copy = *self;
        copy.player.handle = handle;
        copy
    }
}

#[test]
fn a_step_runs_the_stages_in_order() {
    let mut ctx = SimulationContext::new();
    assert!(spawn_characters(&mut ctx));
    let inputs = vec![record(INPUT_UP | INPUT_UP_JUST_PRESSED | INPUT_RIGHT | INPUT_RIGHT_JUST_PRESSED), record(0)];
    let observed = vec![seen(0x4120_0000, 0x4220_0000), seen(0xc120_0000, 0)];
    let impulses = advance_frame(&mut ctx, &inputs, &observed);
    assert_eq!(ctx.frame_count.frame, 1);
    assert_eq!(
        impulses,
        vec![
            vec![Impulse { axis: Axis::Y, amount: 125 }, Impulse { axis: Axis::X, amount: 10 }],
            Vec::new(),
        ]
    );
    assert_eq!(ctx.fighters[0].position, Coordinates { x: 0x4120_0000, y: 0x4220_0000 });
    assert_eq!(ctx.fighters[0].previous_position, PrevPos(Coordinates { x: 0x4120_0000, y: 0x4220_0000 }));
    assert_eq!(ctx.fighters[1].position, Coordinates { x: 0xc120_0000, y: 0 });
    assert_eq!(ctx.fighters[1].previous_position, PrevPos(Coordinates { x: 0xc120_0000, y: 0 }));
    assert_eq!(ctx.fighters[0].player.handle, 0);
    assert_eq!(ctx.fighters[1].player.handle, 1);
}

#[test]
fn a_step_without_input_or_report_still_counts() {
    let mut ctx = SimulationContext::new();
    spawn_characters(&mut ctx);
    let before = ctx.fighters.clone();
    let impulses = advance_frame(&mut ctx, &Vec::new(), &Vec::new());
    assert_eq!(ctx.frame_count.frame, 1);
    assert_eq!(ctx.fighters, before);
    assert_eq!(impulses, vec![Vec::new(), Vec::new()]);

    let mut empty = SimulationContext::new();
    let impulses = advance_frame(&mut empty, &vec![record(0xffff)], &vec![seen(1, 1)]);
    assert!(impulses.is_empty());
    assert_eq!(empty.frame_count.frame, 1);
    assert!(empty.fighters.is_empty());
}
