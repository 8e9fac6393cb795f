use core::time::Duration;
use nice_bevy_utils::click::{
    depth_key, handle_mouse_clicks, handle_sample, handle_touches, mouse_click_phase,
    next_press_state, select_target, Candidate, ClickDispatch, ClickPhase, ElementId,
    InputDevice, MouseButtons, PressedEntity, TouchPhase, TouchSample,
};

const A: ElementId = ElementId(1);
const B: ElementId = ElementId(2);

fn hit(entity: ElementId, depth: i64) -> Candidate {
    Candidate {
        entity,
        enabled: true,
        hit: true,
        depth,
    }
}

fn miss(entity: ElementId, depth: i64) -> Candidate {
    Candidate {
        entity,
        enabled: true,
        hit: false,
        depth,
    }
}

fn pressed(start: Option<ElementId>, current: Option<ElementId>, t: u64, device: InputDevice) -> PressedEntity {
    PressedEntity::Pressed {
        start_entity: start,
        current_entity: current,
        start_elapsed: Duration::from_millis(t),
        device,
    }
}

const HELD: MouseButtons = MouseButtons {
    just_pressed: false,
    pressed: true,
    just_released: false,
};

const DOWN: MouseButtons = MouseButtons {
    just_pressed: true,
    pressed: true,
    just_released: false,
};

const UP: MouseButtons = MouseButtons {
    just_pressed: false,
    pressed: false,
    just_released: true,
};

#[test]
fn phase_predicates() {
    assert!(ClickPhase::Start.is_start());
    assert!(!ClickPhase::Start.is_move());
    assert!(ClickPhase::Move.is_move());
    assert!(!ClickPhase::Move.is_end());
    assert!(ClickPhase::End.is_end());
    assert!(!ClickPhase::End.is_start());
}

#[test]
fn is_mouse_of_press_states() {
    assert!(!PressedEntity::Idle.is_mouse());
    assert!(pressed(None, None, 0, InputDevice::Mouse).is_mouse());
    assert!(!pressed(None, None, 0, InputDevice::Touch).is_mouse());
    assert_eq!(PressedEntity::default(), PressedEntity::Idle);
}

#[test]
fn select_nothing() {
    assert_eq!(select_target(&vec![]), None);
    let disabled = Candidate {
        entity: A,
        enabled: false,
        hit: true,
        depth: 5,
    };
    assert_eq!(select_target(&vec![disabled, miss(B, 9)]), None);
}

#[test]
fn select_deepest() {
    assert_eq!(select_target(&vec![hit(A, 1), hit(B, 3)]), Some(1));
    assert_eq!(select_target(&vec![hit(B, 3), hit(A, 1)]), Some(0));
    // A deeper element that is not hit does not take the click.
    assert_eq!(select_target(&vec![hit(A, 1), miss(B, 3)]), Some(0));
}

#[test]
fn higher_depth_wins_in_any_order() {
    let low = hit(A, depth_key(1.0f32.to_bits()));
    let high = hit(B, depth_key(2.5f32.to_bits()));
    let other = miss(ElementId(3), depth_key(9.0f32.to_bits()));
    let orders = [
        vec![low, high, other],
        vec![high, low, other],
        vec![other, low, high],
        vec![other, high, low],
    ];
    for order in orders.iter() {
        let i = select_target(order).unwrap();
        assert_eq!(order[i].entity, B);
    }
}

#[test]
fn equal_depth_last_registered_wins() {
    assert_eq!(select_target(&vec![hit(A, 4), hit(B, 4)]), Some(1));
    assert_eq!(select_target(&vec![hit(B, 4), hit(A, 4), miss(ElementId(3), 4)]), Some(1));
}

#[test]
fn depth_key_follows_total_order() {
    let values = [
        f32::NEG_INFINITY,
        -1.0e30f32,
        -2.0,
        -1.5,
        -f32::MIN_POSITIVE,
        -0.0,
        0.0,
        f32::MIN_POSITIVE,
        0.5,
        1.0,
        3.25,
        1.0e30,
        f32::INFINITY,
    ];
    for a in values {
        for b in values {
            assert_eq!(
                depth_key(a.to_bits()).cmp(&depth_key(b.to_bits())),
                a.total_cmp(&b),
                "{a} vs {b}"
            );
        }
    }
    assert_eq!(depth_key(0), 0);
    assert_eq!(depth_key(0x8000_0000), -1);
    assert_eq!(depth_key(1.0f32.to_bits()), 0x3f80_0000);
    assert_eq!(depth_key((-1.0f32).to_bits()), -1 - 0x3f80_0000);
}

#[test]
fn gesture_start_move_end_on_one_element() {
    // Start@(5,5), Move@(6,6), End@(6,6): every sample is over A.
    let mut state = PressedEntity::Idle;
    let over_a = vec![hit(A, 0)];
    let mut phases = Vec::new();

    let d = handle_sample(&mut state, InputDevice::Touch, ClickPhase::Start, &over_a, Duration::from_millis(10));
    phases.push(d.unwrap().click_phase);
    assert_eq!(state, pressed(Some(A), Some(A), 10, InputDevice::Touch));

    let d = handle_sample(&mut state, InputDevice::Touch, ClickPhase::Move, &over_a, Duration::from_millis(20));
    phases.push(d.unwrap().click_phase);
    assert_eq!(state, pressed(Some(A), Some(A), 10, InputDevice::Touch));

    let d = handle_sample(&mut state, InputDevice::Touch, ClickPhase::End, &over_a, Duration::from_millis(30));
    phases.push(d.unwrap().click_phase);
    assert_eq!(state, PressedEntity::Idle);

    assert_eq!(phases, vec![ClickPhase::Start, ClickPhase::Move, ClickPhase::End]);
}

#[test]
fn gesture_through_touch_frame() {
    let mut state = PressedEntity::Idle;
    let samples = vec![
        TouchSample {
            phase: TouchPhase::Started,
            candidates: Some(vec![hit(A, 0)]),
        },
        TouchSample {
            phase: TouchPhase::Moved,
            candidates: Some(vec![hit(A, 0)]),
        },
        TouchSample {
            phase: TouchPhase::Ended,
            candidates: Some(vec![hit(A, 0)]),
        },
    ];
    let out = handle_touches(&mut state, &samples, Duration::from_millis(7));
    let expected: Vec<Option<ClickDispatch>> = [ClickPhase::Start, ClickPhase::Move, ClickPhase::End]
        .iter()
        .map(|p| {
            Some(ClickDispatch {
                index: 0,
                entity: A,
                input_device: InputDevice::Touch,
                click_phase: *p,
            })
        })
        .collect();
    assert_eq!(out, expected);
    assert_eq!(state, PressedEntity::Idle);
}

#[test]
fn gesture_through_mouse_frames() {
    let mut state = PressedEntity::Idle;
    let over_a = Some(vec![miss(B, 2), hit(A, 0)]);
    let d = handle_mouse_clicks(&mut state, DOWN, &over_a, Duration::from_millis(1));
    assert_eq!(
        d,
        Some(ClickDispatch {
            index: 1,
            entity: A,
            input_device: InputDevice::Mouse,
            click_phase: ClickPhase::Start
        })
    );
    assert_eq!(state, pressed(Some(A), Some(A), 1, InputDevice::Mouse));
    let d = handle_mouse_clicks(&mut state, HELD, &over_a, Duration::from_millis(2));
    assert_eq!(d.unwrap().click_phase, ClickPhase::Move);
    assert_eq!(state, pressed(Some(A), Some(A), 1, InputDevice::Mouse));
    let d = handle_mouse_clicks(&mut state, UP, &over_a, Duration::from_millis(3));
    assert_eq!(d.unwrap().click_phase, ClickPhase::End);
    assert_eq!(state, PressedEntity::Idle);
}

#[test]
fn mouse_phase_priority() {
    assert_eq!(mouse_click_phase(MouseButtons::default()), None);
    assert_eq!(mouse_click_phase(HELD), Some(ClickPhase::Move));
    assert_eq!(mouse_click_phase(DOWN), Some(ClickPhase::Start));
    assert_eq!(mouse_click_phase(UP), Some(ClickPhase::End));
    let all = MouseButtons {
        just_pressed: true,
        pressed: true,
        just_released: true,
    };
    assert_eq!(mouse_click_phase(all), Some(ClickPhase::End));
}

#[test]
fn mouse_move_leaves_touch_press() {
    let touch = pressed(Some(A), Some(A), 5, InputDevice::Touch);
    let mut state = touch;
    let d = handle_mouse_clicks(&mut state, HELD, &Some(vec![hit(B, 1)]), Duration::from_millis(9));
    // The click still goes to the element under the cursor.
    assert_eq!(d.unwrap().entity, B);
    assert_eq!(state, touch);
    handle_mouse_clicks(&mut state, HELD, &None, Duration::from_millis(9));
    assert_eq!(state, touch);
    handle_mouse_clicks(&mut state, MouseButtons::default(), &None, Duration::from_millis(9));
    assert_eq!(state, touch);
    handle_mouse_clicks(&mut state, UP, &Some(vec![hit(B, 1)]), Duration::from_millis(9));
    assert_eq!(state, touch);
}

#[test]
fn idle_mouse_releases_mouse_press() {
    let mut state = pressed(Some(A), Some(B), 5, InputDevice::Mouse);
    let d = handle_mouse_clicks(&mut state, MouseButtons::default(), &None, Duration::from_millis(9));
    assert_eq!(d, None);
    assert_eq!(state, PressedEntity::Idle);
}

#[test]
fn mouse_start_overwrites_touch_press() {
    let mut state = pressed(Some(A), Some(A), 5, InputDevice::Touch);
    handle_mouse_clicks(&mut state, DOWN, &Some(vec![hit(B, 1)]), Duration::from_millis(9));
    assert_eq!(state, pressed(Some(B), Some(B), 9, InputDevice::Mouse));
}

#[test]
fn start_on_empty_space() {
    let mut state = PressedEntity::Idle;
    let d = handle_sample(&mut state, InputDevice::Mouse, ClickPhase::Start, &vec![miss(A, 0)], Duration::from_millis(4));
    assert_eq!(d, None);
    assert_eq!(state, pressed(None, None, 4, InputDevice::Mouse));
    // Dragging onto an element keeps the empty start.
    handle_sample(&mut state, InputDevice::Mouse, ClickPhase::Move, &vec![hit(A, 0)], Duration::from_millis(6));
    assert_eq!(state, pressed(None, Some(A), 4, InputDevice::Mouse));
}

#[test]
fn move_without_target_keeps_state() {
    let before = pressed(Some(A), Some(A), 1, InputDevice::Touch);
    let mut state = before;
    let d = handle_sample(&mut state, InputDevice::Touch, ClickPhase::Move, &vec![miss(A, 0)], Duration::from_millis(3));
    assert_eq!(d, None);
    assert_eq!(state, before);
    let mut idle = PressedEntity::Idle;
    handle_sample(&mut idle, InputDevice::Touch, ClickPhase::Move, &vec![], Duration::from_millis(3));
    assert_eq!(idle, PressedEntity::Idle);
}

#[test]
fn move_from_idle_starts_press() {
    let mut state = PressedEntity::Idle;
    handle_sample(&mut state, InputDevice::Touch, ClickPhase::Move, &vec![hit(B, 0)], Duration::from_millis(8));
    assert_eq!(state, pressed(Some(B), Some(B), 8, InputDevice::Touch));
}

#[test]
fn drag_changes_current_only() {
    let mut state = pressed(Some(A), Some(A), 1, InputDevice::Touch);
    handle_sample(&mut state, InputDevice::Touch, ClickPhase::Move, &vec![hit(B, 0)], Duration::from_millis(8));
    assert_eq!(state, pressed(Some(A), Some(B), 1, InputDevice::Touch));
}

#[test]
fn end_on_empty_space_resets() {
    let mut state = pressed(Some(A), Some(A), 1, InputDevice::Touch);
    let d = handle_sample(&mut state, InputDevice::Touch, ClickPhase::End, &vec![], Duration::from_millis(8));
    assert_eq!(d, None);
    assert_eq!(state, PressedEntity::Idle);
}

#[test]
fn unresolved_touch_resets() {
    let mut state = pressed(Some(A), Some(A), 1, InputDevice::Touch);
    let samples = vec![TouchSample {
        phase: TouchPhase::Moved,
        candidates: None,
    }];
    let out = handle_touches(&mut state, &samples, Duration::from_millis(2));
    assert_eq!(out, vec![None]);
    assert_eq!(state, PressedEntity::Idle);
}

#[test]
fn cancelled_touch_ends_gesture() {
    assert_eq!(TouchPhase::Canceled.click_phase(), ClickPhase::End);
    assert_eq!(TouchPhase::Ended.click_phase(), ClickPhase::End);
    assert_eq!(TouchPhase::Started.click_phase(), ClickPhase::Start);
    assert_eq!(TouchPhase::Moved.click_phase(), ClickPhase::Move);
    let mut state = pressed(Some(A), Some(A), 1, InputDevice::Touch);
    let samples = vec![TouchSample {
        phase: TouchPhase::Canceled,
        candidates: Some(vec![hit(A, 0)]),
    }];
    let out = handle_touches(&mut state, &samples, Duration::from_millis(2));
    assert_eq!(out[0].unwrap().click_phase, ClickPhase::End);
    assert_eq!(state, PressedEntity::Idle);
}

#[test]
fn touch_frame_of_many_samples() {
    let mut state = PressedEntity::Idle;
    let samples = vec![
        TouchSample {
            phase: TouchPhase::Started,
            candidates: Some(vec![]),
        },
        TouchSample {
            phase: TouchPhase::Moved,
            candidates: Some(vec![hit(A, 0), hit(B, 1)]),
        },
        TouchSample {
            phase: TouchPhase::Moved,
            candidates: Some(vec![hit(A, 0)]),
        },
    ];
    let out = handle_touches(&mut state, &samples, Duration::from_millis(3));
    assert_eq!(out[0], None);
    assert_eq!(out[1].unwrap().index, 1);
    assert_eq!(out[2].unwrap().entity, A);
    assert_eq!(state, pressed(None, Some(A), 3, InputDevice::Touch));
}

#[test]
fn next_press_state_transitions() {
    let now = Duration::from_millis(50);
    let touch = pressed(Some(A), Some(A), 1, InputDevice::Touch);
    assert_eq!(
        next_press_state(touch, InputDevice::Mouse, ClickPhase::Move, Some(B), now),
        touch
    );
    assert_eq!(
        next_press_state(touch, InputDevice::Mouse, ClickPhase::End, Some(B), now),
        touch
    );
    assert_eq!(
        next_press_state(touch, InputDevice::Touch, ClickPhase::End, None, now),
        PressedEntity::Idle
    );
    assert_eq!(
        next_press_state(touch, InputDevice::Mouse, ClickPhase::Start, None, now),
        pressed(None, None, 50, InputDevice::Mouse)
    );
}
