use egui_demo::painting::{Drag, Painting, PaintingInput, Path, Point, Srgba, Stroke, UNIT_WIDTH};

/// The point with the coordinates `x` and `y`.
fn pt(x: f32, y: f32) -> Point {
    Point { x: x.to_bits(), y: y.to_bits() }
}

fn down(x: f32, y: f32) -> Drag {
    Drag { active: true, pointer: Some(pt(x, y)) }
}

fn up() -> Drag {
    Drag { active: false, pointer: None }
}

fn frame(drag: Drag) -> PaintingInput {
    PaintingInput { stroke: None, clear: false, drag }
}

fn drag_and_release(painting: &mut Painting) {
    painting.content(&down(0.0, 0.0));
    painting.content(&down(0.0, 0.0));
    painting.content(&down(5.0, 5.0));
    painting.content(&up());
}

#[test]
fn fresh_painting_is_empty_with_a_light_gray_pen() {
    let painting = Painting::default();
    assert!(painting.lines.is_empty());
    assert_eq!(painting.stroke.width, 1.0f32.to_bits());
    assert_eq!(painting.stroke.width, UNIT_WIDTH);
    assert_eq!(painting.stroke.color, Srgba { r: 220, g: 220, b: 220, a: 255 });
    assert_eq!(painting.stroke.color, Srgba::light_gray());
}

#[test]
fn drag_with_a_resting_pointer_gives_one_line() {
    let mut painting = Painting::default();
    drag_and_release(&mut painting);
    assert_eq!(painting.lines, vec![vec![pt(0.0, 0.0), pt(5.0, 5.0)], vec![]]);
}

#[test]
fn clear_then_the_same_drag_gives_the_same_line() {
    let mut painting = Painting::default();
    painting.content(&down(9.0, 9.0));
    painting.content(&down(8.0, 1.0));
    painting.content(&up());
    drag_and_release(&mut painting);
    assert_eq!(painting.lines.len(), 3);
    painting.clear();
    assert!(painting.lines.is_empty());
    drag_and_release(&mut painting);
    assert_eq!(painting.lines, vec![vec![pt(0.0, 0.0), pt(5.0, 5.0)], vec![]]);
}

#[test]
fn first_frame_opens_an_empty_line() {
    let mut painting = Painting::default();
    let paths = painting.content(&up());
    assert_eq!(painting.lines, vec![Vec::<Point>::new()]);
    assert!(paths.is_empty());
}

#[test]
fn frames_without_a_drag_do_not_pile_up_empty_lines() {
    let mut painting = Painting::default();
    for _ in 0..5 {
        painting.content(&up());
    }
    assert_eq!(painting.lines, vec![Vec::<Point>::new()]);
    painting.content(&down(1.0, 2.0));
    for _ in 0..5 {
        painting.content(&up());
    }
    assert_eq!(painting.lines, vec![vec![pt(1.0, 2.0)], vec![]]);
}

#[test]
fn drag_without_a_known_place_changes_nothing() {
    let mut painting = Painting::default();
    painting.content(&down(1.0, 1.0));
    painting.content(&Drag { active: true, pointer: None });
    assert_eq!(painting.lines, vec![vec![pt(1.0, 1.0)]]);
}

#[test]
fn pointer_of_a_frame_without_a_drag_is_not_recorded() {
    let mut painting = Painting::default();
    painting.content(&Drag { active: false, pointer: Some(pt(3.0, 3.0)) });
    assert_eq!(painting.lines, vec![Vec::<Point>::new()]);
}

#[test]
fn a_point_may_come_again_after_another() {
    let mut painting = Painting::default();
    painting.content(&down(0.0, 0.0));
    painting.content(&down(1.0, 0.0));
    painting.content(&down(0.0, 0.0));
    assert_eq!(painting.lines, vec![vec![pt(0.0, 0.0), pt(1.0, 0.0), pt(0.0, 0.0)]]);
}

#[test]
fn points_differ_when_one_coordinate_differs() {
    let mut painting = Painting::default();
    painting.content(&down(1.0, 2.0));
    painting.content(&down(1.0, 3.0));
    painting.content(&down(4.0, 3.0));
    painting.content(&down(4.0, 3.0));
    assert_eq!(painting.lines, vec![vec![pt(1.0, 2.0), pt(1.0, 3.0), pt(4.0, 3.0)]]);
}

#[test]
fn two_drags_give_two_lines() {
    let mut painting = Painting::default();
    painting.content(&down(0.0, 0.0));
    painting.content(&down(1.0, 1.0));
    painting.content(&up());
    painting.content(&down(1.0, 1.0));
    painting.content(&down(2.0, 2.0));
    assert_eq!(
        painting.lines,
        vec![vec![pt(0.0, 0.0), pt(1.0, 1.0)], vec![pt(1.0, 1.0), pt(2.0, 2.0)]]
    );
}

#[test]
fn only_lines_of_two_points_or_more_are_painted() {
    let mut painting = Painting::default();
    painting.content(&down(0.0, 0.0));
    painting.content(&down(1.0, 1.0));
    painting.content(&up());
    painting.content(&down(7.0, 7.0));
    painting.content(&up());
    painting.content(&down(2.0, 2.0));
    painting.content(&down(3.0, 3.0));
    let paths = painting.content(&down(4.0, 4.0));
    assert_eq!(painting.lines.len(), 3);
    let pen = Stroke { width: UNIT_WIDTH, color: Srgba::light_gray() };
    assert_eq!(
        paths,
        vec![
            Path {
                points: vec![pt(0.0, 0.0), pt(1.0, 1.0)],
                closed: false,
                stroke: pen,
                fill: Srgba::transparent(),
            },
            Path {
                points: vec![pt(2.0, 2.0), pt(3.0, 3.0), pt(4.0, 4.0)],
                closed: false,
                stroke: pen,
                fill: Srgba::transparent(),
            },
        ]
    );
    assert_eq!(painting.paths(), paths);
    assert_eq!(Srgba::transparent(), Srgba { r: 0, g: 0, b: 0, a: 0 });
}

#[test]
fn capture_follows_the_pointer_without_painting() {
    let mut painting = Painting::default();
    painting.capture(&down(0.0, 0.0));
    painting.capture(&down(0.0, 1.0));
    painting.capture(&up());
    assert_eq!(painting.lines, vec![vec![pt(0.0, 0.0), pt(0.0, 1.0)], vec![]]);
}

#[test]
fn clear_in_the_middle_of_a_drag_starts_a_new_line() {
    let mut painting = Painting::default();
    painting.ui(&frame(down(0.0, 0.0)));
    painting.ui(&frame(down(1.0, 1.0)));
    let cleared = PaintingInput { stroke: None, clear: true, drag: down(2.0, 2.0) };
    let paths = painting.ui(&cleared);
    assert!(paths.is_empty());
    assert_eq!(painting.lines, vec![vec![pt(2.0, 2.0)]]);
    let paths = painting.ui(&frame(down(3.0, 3.0)));
    assert_eq!(paths.len(), 1);
    assert_eq!(paths[0].points, vec![pt(2.0, 2.0), pt(3.0, 3.0)]);
}

#[test]
fn clear_keeps_the_pen() {
    let pen = Stroke { width: 2.5f32.to_bits(), color: Srgba { r: 1, g: 2, b: 3, a: 4 } };
    let mut painting = Painting { lines: vec![vec![pt(0.0, 0.0)]], stroke: pen };
    painting.clear();
    assert!(painting.lines.is_empty());
    assert_eq!(painting.stroke, pen);
}

#[test]
fn a_new_pen_draws_every_line() {
    let mut painting = Painting::default();
    painting.ui(&frame(down(0.0, 0.0)));
    painting.ui(&frame(down(1.0, 0.0)));
    painting.ui(&frame(up()));
    let pen = Stroke { width: 3.0f32.to_bits(), color: Srgba { r: 255, g: 0, b: 0, a: 255 } };
    painting.ui(&PaintingInput { stroke: Some(pen), clear: false, drag: down(5.0, 5.0) });
    let paths = painting.ui(&frame(down(6.0, 6.0)));
    assert_eq!(painting.stroke, pen);
    assert_eq!(paths.len(), 2);
    assert!(paths.iter().all(|path| path.stroke == pen && !path.closed));
}

#[test]
fn points_are_compared_bit_for_bit() {
    // Zero and negative zero are two words, so two points.
    let mut painting = Painting::default();
    painting.content(&down(0.0, 0.0));
    painting.content(&down(-0.0, 0.0));
    assert_eq!(painting.lines[0].len(), 2);
    // One word twice is one point, whatever number it stands for.
    let mut painting = Painting::default();
    painting.content(&down(f32::NAN, 0.0));
    painting.content(&down(f32::NAN, 0.0));
    assert_eq!(painting.lines[0].len(), 1);
}

#[test]
fn a_painting_that_was_not_tidy_is_taken_as_it_is() {
    let mut painting = Painting {
        lines: vec![vec![], vec![pt(1.0, 1.0), pt(1.0, 1.0)], vec![]],
        stroke: Stroke { width: UNIT_WIDTH, color: Srgba::light_gray() },
    };
    let paths = painting.content(&up());
    assert_eq!(painting.lines.len(), 3);
    assert_eq!(paths.len(), 1);
    assert_eq!(paths[0].points, vec![pt(1.0, 1.0), pt(1.0, 1.0)]);
}

#[test]
fn clone_holds_the_same_lines_and_pen() {
    let mut painting = Painting::default();
    drag_and_release(&mut painting);
    let copy = painting.clone();
    assert_eq!(copy, painting);
    let paths = painting.paths();
    assert_eq!(paths[0].clone(), paths[0]);
}
