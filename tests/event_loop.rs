use usrs::backend::macos::event_loop::{next_loop_action, LoopAction};

#[test]
fn loop_exits_after_the_slice_in_which_termination_is_signalled() {
    assert_eq!(next_loop_action(false), LoopAction::RunSlice);
    assert_eq!(next_loop_action(true), LoopAction::Exit);
    let flags = [false, false, true, true];
    let mut slices = 0;
    for flag in flags {
        slices += 1;
        if next_loop_action(flag) == LoopAction::Exit {
            break;
        }
    }
    assert_eq!(slices, 3);
}
