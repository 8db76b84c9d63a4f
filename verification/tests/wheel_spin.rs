use spin_wheel::angle::Turns;
use spin_wheel::render::{render_wheel, DrawCmd};
use spin_wheel::spin::{SpinController, TickStep, TimerHandle};
use spin_wheel::wheel::{default_palette, Wheel};

const REFERENCE_PALETTE: [u32; 12] = [
    0xB8D430, 0x3AB745, 0x029990, 0x3501CB, 0x2E2C75, 0x673A7E, 0xCC0071, 0xF80120, 0xF35B20,
    0xFB9A00, 0xFFCC00, 0xFEF200,
];

#[test]
fn default_wheel_matches_reference() {
    let w = Wheel::default();
    assert_eq!(w.sector_count, 12);
    assert_eq!(w.center_x, 32);
    assert_eq!(w.center_y, 32);
    assert_eq!(w.radius, 32);
    assert_eq!(w.palette, REFERENCE_PALETTE.to_vec());
    assert_eq!(default_palette(), REFERENCE_PALETTE.to_vec());
}

#[test]
fn turns_keeps_its_fields() {
    let t = Turns::new(3, 4);
    assert_eq!(t.num, 3);
    assert_eq!(t.den, 4);
    let z = Turns::zero();
    assert_eq!(z.num, 0);
    assert_eq!(z.den, 1);
}

#[test]
fn render_clears_once_before_any_sector() {
    let w = Wheel::default();
    let cmds = render_wheel(&w, Turns::new(123, 7));
    assert_eq!(cmds.len(), 1 + 6 * 12);
    assert_eq!(cmds[0], DrawCmd::Clear);
    let clears = cmds.iter().filter(|c| matches!(c, DrawCmd::Clear)).count();
    assert_eq!(clears, 1);
}

#[test]
fn sector_commands_come_in_draw_order() {
    let w = Wheel::default();
    let cmds = render_wheel(&w, Turns::zero());
    for i in 0..12usize {
        assert_eq!(cmds[6 * i + 1], DrawCmd::BeginPath);
        assert!(matches!(cmds[6 * i + 2], DrawCmd::Arc { .. }));
        assert_eq!(cmds[6 * i + 3], DrawCmd::LineTo { x: 32, y: 32 });
        assert!(matches!(cmds[6 * i + 4], DrawCmd::SetFillColor { .. }));
        assert_eq!(cmds[6 * i + 5], DrawCmd::Stroke);
        assert_eq!(cmds[6 * i + 6], DrawCmd::Fill);
    }
}

#[test]
fn palette_wraps_past_its_length() {
    // More sectors than palette entries: the colors wrap around.
    let w = Wheel::new(15, default_palette(), 32, 32, 32);
    let cmds = render_wheel(&w, Turns::zero());
    for i in 0..15usize {
        assert_eq!(
            cmds[6 * i + 4],
            DrawCmd::SetFillColor { color: REFERENCE_PALETTE[i % 12] },
        );
    }
    assert_eq!(cmds[6 * 12 + 4], DrawCmd::SetFillColor { color: 0xB8D430 });
    assert_eq!(cmds[6 * 13 + 4], DrawCmd::SetFillColor { color: 0x3AB745 });
}

#[test]
fn color_of_wraps_around_the_palette() {
    let w = Wheel::new(30, vec![0x111111, 0x222222, 0x333333], 10, 10, 5);
    assert_eq!(w.color_of(0), 0x111111);
    assert_eq!(w.color_of(1), 0x222222);
    assert_eq!(w.color_of(2), 0x333333);
    assert_eq!(w.color_of(3), 0x111111);
    assert_eq!(w.color_of(29), 0x333333);
}

#[test]
fn sector_angles_at_zero_rotation() {
    // With no rotation, sector i spans (turn * i) / 12 .. (turn * (i + 1)) / 12.
    let w = Wheel::default();
    let cmds = render_wheel(&w, Turns::new(0, 1));
    for i in 0..12usize {
        match cmds[6 * i + 2] {
            DrawCmd::Arc { cx, cy, radius, start, end } => {
                assert_eq!((cx, cy, radius), (32, 32, 32));
                assert_eq!(start, Turns::new(i as i128, 12));
                assert_eq!(end, Turns::new(i as i128 + 1, 12));
            }
            ref other => panic!("expected an arc, got {:?}", other),
        }
    }
}

#[test]
fn sector_angles_at_half_turn_rotation() {
    // A rotation of half a turn (pi radians) shifts the numerators:
    // sector i spans (2 * i + 1) / 24 .. (2 * i + 3) / 24 of a turn.
    let w = Wheel::default();
    let cmds = render_wheel(&w, Turns::new(1, 2));
    for i in 0..12usize {
        match cmds[6 * i + 2] {
            DrawCmd::Arc { start, end, .. } => {
                assert_eq!(start, Turns::new(2 * i as i128 + 1, 24));
                assert_eq!(end, Turns::new(2 * i as i128 + 3, 24));
            }
            ref other => panic!("expected an arc, got {:?}", other),
        }
    }
}

#[test]
fn arcs_carry_the_wheel_geometry() {
    let w = Wheel::new(3, vec![0xABCDEF], 5, 6, 9);
    let cmds = render_wheel(&w, Turns::zero());
    for i in 0..3usize {
        match cmds[6 * i + 2] {
            DrawCmd::Arc { cx, cy, radius, .. } => {
                assert_eq!((cx, cy, radius), (5, 6, 9));
            }
            ref other => panic!("expected an arc, got {:?}", other),
        }
        assert_eq!(cmds[6 * i + 3], DrawCmd::LineTo { x: 5, y: 6 });
    }
}

#[test]
fn stop_while_idle_is_a_no_op() {
    let mut c = SpinController::new();
    assert!(!c.is_spinning());
    assert!(c.stop().is_none());
    assert!(!c.is_spinning());
    assert!(c.stop().is_none());
}

#[test]
fn preemption_releases_exactly_the_prior_handle() {
    let mut c = SpinController::new();
    let first = c.start(TimerHandle::new(7), Wheel::default(), 5000, 4, 1, 1);
    assert!(first.is_none());
    assert!(c.is_spinning());

    // A second start while spinning hands back the prior handle, once.
    let released = c.start(TimerHandle::new(9), Wheel::default(), 5000, 4, 1, 1);
    assert_eq!(released.map(|h| h.token()), Some(7));
    assert!(c.is_spinning());

    // Exactly the new handle is active afterwards.
    let rest = c.stop();
    assert_eq!(rest.map(|h| h.token()), Some(9));
    assert!(!c.is_spinning());
}

#[test]
fn exhausted_budget_goes_quiet_and_releases() {
    let mut c = SpinController::new();
    c.start(TimerHandle::new(3), Wheel::default(), 2, 4, 1, 1);

    assert!(matches!(c.on_tick(), TickStep::Draw { .. }));
    assert!(matches!(c.on_tick(), TickStep::Draw { .. }));

    // The firing that finds the budget exhausted draws nothing and
    // releases the handle.
    match c.on_tick() {
        TickStep::Finish { released } => assert_eq!(released.token(), 3),
        _ => panic!("expected the spin to finish"),
    }
    assert!(!c.is_spinning());

    // Later stale firings stay inert.
    assert!(matches!(c.on_tick(), TickStep::Inert));
    assert!(matches!(c.on_tick(), TickStep::Inert));
}

#[test]
fn zero_budget_spin_never_draws() {
    let mut c = SpinController::new();
    c.start(TimerHandle::new(1), Wheel::default(), 0, 4, 1, 1);
    match c.on_tick() {
        TickStep::Finish { released } => assert_eq!(released.token(), 1),
        _ => panic!("expected the spin to finish without drawing"),
    }
    assert!(!c.is_spinning());
}

#[test]
fn five_tick_spin_scenario() {
    // start(wheel = 12 sectors, radius 32, center (32, 32), budget 5,
    // speed 4, period 1 ms): exactly five draws, at rotations
    // tick * 4 / 100 of a turn, each a full clear-and-redraw of 12 sectors.
    let mut c = SpinController::new();
    c.start(TimerHandle::new(11), Wheel::default(), 5, 4, 1, 1);

    for tick in 0..5u32 {
        match c.on_tick() {
            TickStep::Draw { rotation, cmds } => {
                assert_eq!(rotation.num, 4 * tick as i128);
                assert_eq!(rotation.den, 100);
                assert_eq!(cmds.len(), 1 + 6 * 12);
                assert_eq!(cmds[0], DrawCmd::Clear);
                // Sector 0 spans (4 * tick) / 1200 .. (100 + 4 * tick) / 1200
                // of a turn: the rotation-shifted formula, over twelve sectors.
                match cmds[2] {
                    DrawCmd::Arc { start, end, .. } => {
                        assert_eq!(start, Turns::new(4 * tick as i128, 1200));
                        assert_eq!(end, Turns::new(100 + 4 * tick as i128, 1200));
                    }
                    ref other => panic!("expected an arc, got {:?}", other),
                }
                for i in 0..12usize {
                    assert_eq!(
                        cmds[6 * i + 4],
                        DrawCmd::SetFillColor { color: REFERENCE_PALETTE[i] },
                    );
                    assert_eq!(cmds[6 * i + 5], DrawCmd::Stroke);
                    assert_eq!(cmds[6 * i + 6], DrawCmd::Fill);
                }
            }
            _ => panic!("expected draw number {}", tick + 1),
        }
    }

    match c.on_tick() {
        TickStep::Finish { released } => assert_eq!(released.token(), 11),
        _ => panic!("expected the spin to finish after five draws"),
    }
    assert!(matches!(c.on_tick(), TickStep::Inert));
}

#[test]
fn draw_plans_are_repeatable() {
    // The same wheel and rotation always plan the same image.
    let w = Wheel::default();
    let a = render_wheel(&w, Turns::new(5, 8));
    let b = render_wheel(&w, Turns::new(5, 8));
    assert_eq!(a, b);
}
