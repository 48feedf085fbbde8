use anyrender_vello_cpu::timing::FrameTimings;

#[test]
fn phases_are_differences_of_marks() {
    let t = FrameTimings::from_marks(3, 10, 12, 20);
    assert_eq!(t.overall_ms, 20);
    assert_eq!(t.command_ms, 3);
    assert_eq!(t.render_ms, 7);
    assert_eq!(t.convert_ms, 2);
    assert_eq!(t.present_ms, 8);
    assert_eq!(t.command_ms + t.render_ms + t.convert_ms + t.present_ms, t.overall_ms);
}

#[test]
fn phases_are_never_negative() {
    let t = FrameTimings::from_marks(5, 4, 4, 1);
    assert_eq!(t.overall_ms, 5);
    assert_eq!(t.command_ms, 5);
    assert_eq!(t.render_ms, 0);
    assert_eq!(t.convert_ms, 0);
    assert_eq!(t.present_ms, 0);
    assert_eq!(t.command_ms + t.render_ms + t.convert_ms + t.present_ms, t.overall_ms);
}

#[test]
fn out_of_order_mark_counts_as_the_one_before() {
    let t = FrameTimings::from_marks(2, 9, 6, 15);
    assert_eq!(t.overall_ms, 15);
    assert_eq!(t.render_ms, 7);
    assert_eq!(t.convert_ms, 0);
    assert_eq!(t.present_ms, 6);
}

#[test]
fn instant_frame_has_zero_phases() {
    let t = FrameTimings::from_marks(0, 0, 0, 0);
    assert_eq!(
        t,
        FrameTimings { overall_ms: 0, command_ms: 0, render_ms: 0, convert_ms: 0, present_ms: 0 }
    );
}
