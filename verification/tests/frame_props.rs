use sceneview::bits::{ONE_BITS, ZERO_BITS};
use sceneview::frame::{frame_plan, overridden_component, PassStep};

#[test]
fn frame_plan_orders_offscreen_then_main_then_present() {
    let plan = frame_plan(2, 3, true);
    assert_eq!(plan.len(), 2 * 3 * 6 + 2);
    // First step: pass 0, batch 0, axis 0, writing generation 1 while
    // generation 0 holds the previous result.
    assert_eq!(
        plan[0],
        PassStep::Offscreen {
            pass_index: 0,
            batch_index: 0,
            axis_index: 0,
            write_generation: 1,
            read_generation: 0,
        }
    );
    // The offscreen block iterates axes innermost, then batches, then
    // passes; the second pass flips the ping-pong generations.
    assert_eq!(
        plan[6],
        PassStep::Offscreen {
            pass_index: 0,
            batch_index: 1,
            axis_index: 0,
            write_generation: 1,
            read_generation: 0,
        }
    );
    assert_eq!(
        plan[18 + 5],
        PassStep::Offscreen {
            pass_index: 1,
            batch_index: 0,
            axis_index: 5,
            write_generation: 0,
            read_generation: 1,
        }
    );
    // Main pass clears to opaque black and far depth, with the debug
    // geometry enabled; the present comes last.
    match plan[plan.len() - 2] {
        PassStep::Main { clear_color, clear_depth, debug_geometry } => {
            assert_eq!(clear_color.x, ZERO_BITS);
            assert_eq!(clear_color.y, ZERO_BITS);
            assert_eq!(clear_color.z, ZERO_BITS);
            assert_eq!(clear_color.w, ONE_BITS);
            assert_eq!(f32::from_bits(clear_depth), 1.0);
            assert!(debug_geometry);
        }
        _ => panic!("second-to-last step must be the main pass"),
    }
    assert_eq!(plan[plan.len() - 1], PassStep::Present);
}

#[test]
fn frame_plan_with_zero_passes_only_renders_main() {
    let plan = frame_plan(0, 16, false);
    assert_eq!(plan.len(), 2);
    match plan[0] {
        PassStep::Main { debug_geometry, .. } => assert!(!debug_geometry),
        _ => panic!("first step must be the main pass"),
    }
    assert_eq!(plan[1], PassStep::Present);
}

#[test]
fn light_override_keeps_previous_value_on_parse_failure() {
    let previous = 4.5f32.to_bits();
    // A field that parsed takes the new value.
    assert_eq!(
        overridden_component(previous, Some(7.25f32.to_bits())),
        7.25f32.to_bits()
    );
    // A field that failed to parse keeps the previous value.
    assert_eq!(overridden_component(previous, None), previous);
}
