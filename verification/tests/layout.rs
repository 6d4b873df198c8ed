use egui_demo::layout::{Align, Direction, Layout};
use egui_demo::layout_demo::{LayoutDemo, LayoutInput};

fn resolve(dir: Direction, align: Align, reversed: bool) -> Layout {
    LayoutDemo { dir, align, reversed }.layout()
}

#[test]
fn reversed_center_mirrors_the_main_axis_and_keeps_the_centering() {
    let forwards = resolve(Direction::Horizontal, Align::Center, false);
    let backwards = resolve(Direction::Horizontal, Align::Center, true);
    assert_eq!(forwards.align, Align::Center);
    assert_eq!(backwards.align, Align::Center);
    assert_eq!(forwards.dir, backwards.dir);
    assert_eq!(forwards.align_axis(), Direction::Vertical);
    assert_eq!(backwards.align_axis(), Direction::Vertical);
    let count = 5;
    let order: Vec<usize> = (0..count).map(|i| forwards.slot(i, count)).collect();
    let mut mirrored: Vec<usize> = (0..count).map(|i| backwards.slot(i, count)).collect();
    assert_eq!(order, vec![0, 1, 2, 3, 4]);
    assert_eq!(mirrored, vec![4, 3, 2, 1, 0]);
    mirrored.reverse();
    assert_eq!(order, mirrored);
}

#[test]
fn justified_fills_the_cross_axis_in_every_layout() {
    for dir in [Direction::Horizontal, Direction::Vertical] {
        for reversed in [false, true] {
            let layout = resolve(dir, Align::Justified, reversed);
            assert!(layout.is_justified());
            assert_eq!(layout.align, Align::Justified);
            assert_eq!(layout.dir, dir);
            assert_eq!(layout.reversed, reversed);
        }
    }
}

#[test]
fn fixed_placements_are_not_justified() {
    for align in [Align::Min, Align::Center, Align::Max] {
        for dir in [Direction::Horizontal, Direction::Vertical] {
            for reversed in [false, true] {
                let layout = resolve(dir, align, reversed);
                assert!(!layout.is_justified());
                assert_eq!(layout.align, align);
            }
        }
    }
}

#[test]
fn alignment_speaks_of_the_cross_axis() {
    assert_eq!(Direction::Horizontal.cross(), Direction::Vertical);
    assert_eq!(Direction::Vertical.cross(), Direction::Horizontal);
    assert_eq!(resolve(Direction::Horizontal, Align::Min, false).align_axis(), Direction::Vertical);
    assert_eq!(resolve(Direction::Vertical, Align::Max, true).align_axis(), Direction::Horizontal);
}

#[test]
fn from_dir_align_walks_forwards() {
    let layout = Layout::from_dir_align(Direction::Vertical, Align::Max);
    assert_eq!(layout, Layout { dir: Direction::Vertical, align: Align::Max, reversed: false });
}

#[test]
fn reverse_flips_only_the_walk() {
    let layout = Layout::from_dir_align(Direction::Horizontal, Align::Min);
    let back = layout.reverse();
    assert_eq!(back, Layout { dir: Direction::Horizontal, align: Align::Min, reversed: true });
    assert_eq!(back.reverse(), layout);
}

#[test]
fn slot_of_a_single_child() {
    let layout = Layout::from_dir_align(Direction::Horizontal, Align::Min);
    assert_eq!(layout.slot(0, 1), 0);
    assert_eq!(layout.reverse().slot(0, 1), 0);
    assert_eq!(layout.reverse().slot(0, usize::MAX), usize::MAX - 1);
}

#[test]
fn demo_starts_vertical_centered_forwards() {
    let demo = LayoutDemo::default();
    assert_eq!(demo, LayoutDemo { dir: Direction::Vertical, align: Align::Center, reversed: false });
    assert_eq!(
        demo.layout(),
        Layout { dir: Direction::Vertical, align: Align::Center, reversed: false }
    );
}

#[test]
fn idle_frame_changes_nothing() {
    let mut demo = LayoutDemo { dir: Direction::Horizontal, align: Align::Max, reversed: true };
    let before = demo;
    demo.content_ui(&LayoutInput::default());
    assert_eq!(demo, before);
}

#[test]
fn each_control_sets_its_setting() {
    let idle = LayoutInput::default();
    let mut demo = LayoutDemo::default();
    demo.content_ui(&LayoutInput { horizontal: true, ..idle });
    assert_eq!(demo.dir, Direction::Horizontal);
    demo.content_ui(&LayoutInput { vertical: true, ..idle });
    assert_eq!(demo.dir, Direction::Vertical);
    demo.content_ui(&LayoutInput { reversed: true, ..idle });
    assert!(demo.reversed);
    demo.content_ui(&LayoutInput { reversed: true, ..idle });
    assert!(!demo.reversed);
    demo.content_ui(&LayoutInput { min: true, ..idle });
    assert_eq!(demo.align, Align::Min);
    demo.content_ui(&LayoutInput { max: true, ..idle });
    assert_eq!(demo.align, Align::Max);
    demo.content_ui(&LayoutInput { justified: true, ..idle });
    assert_eq!(demo.align, Align::Justified);
    demo.content_ui(&LayoutInput { center: true, ..idle });
    assert_eq!(demo.align, Align::Center);
}

#[test]
fn reset_restores_the_initial_settings() {
    let mut demo = LayoutDemo { dir: Direction::Horizontal, align: Align::Justified, reversed: true };
    demo.content_ui(&LayoutInput { reset: true, ..LayoutInput::default() });
    assert_eq!(demo, LayoutDemo::default());
}

#[test]
fn reset_comes_before_the_other_controls() {
    let mut demo = LayoutDemo { dir: Direction::Horizontal, align: Align::Justified, reversed: true };
    let input = LayoutInput { reset: true, reversed: true, max: true, ..LayoutInput::default() };
    demo.content_ui(&input);
    assert_eq!(demo, LayoutDemo { dir: Direction::Vertical, align: Align::Max, reversed: true });
}

#[test]
fn the_choice_shown_later_stands() {
    let mut demo = LayoutDemo::default();
    let all = LayoutInput {
        reset: false,
        horizontal: true,
        vertical: true,
        reversed: false,
        min: true,
        center: true,
        max: true,
        justified: true,
    };
    demo.content_ui(&all);
    assert_eq!(demo.dir, Direction::Vertical);
    assert_eq!(demo.align, Align::Justified);
    demo.content_ui(&LayoutInput { justified: false, ..all });
    assert_eq!(demo.align, Align::Max);
}

#[test]
fn the_layout_of_a_pass_is_resolved_before_its_controls_act() {
    let mut demo = LayoutDemo::default();
    let input = LayoutInput { horizontal: true, reversed: true, justified: true, ..LayoutInput::default() };
    let layout = demo.ui(&input);
    assert_eq!(layout, Layout { dir: Direction::Vertical, align: Align::Center, reversed: false });
    assert_eq!(demo, LayoutDemo { dir: Direction::Horizontal, align: Align::Justified, reversed: true });
    let next = demo.ui(&LayoutInput::default());
    assert_eq!(next, Layout { dir: Direction::Horizontal, align: Align::Justified, reversed: true });
}
