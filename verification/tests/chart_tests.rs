use queue_dashboard::chart::{
    highlight, max_value, point_step, render, scale_y, tick_value, DrawCmd, Point, Rgb,
};

#[test]
fn tick_labels_for_max_100() {
    let snapshot: Vec<i64> = vec![10, 100, 40];
    let title = String::from("FAILED count");
    let cmds = render(&snapshot, 300, 150, Rgb { r: 255, g: 0, b: 0 }, &title);
    let labels: Vec<i64> = cmds
        .iter()
        .filter_map(|c| match c {
            DrawCmd::TickLabel { value, .. } => Some(*value),
            _ => None,
        })
        .collect();
    assert_eq!(labels, vec![0, 20, 40, 60, 80, 100]);
}

#[test]
fn highlight_triggers_above_15() {
    let title = String::from("BUILDING count");
    assert!(highlight(&title, &vec![3, 16]));
    assert!(!highlight(&title, &vec![3, 15]));
    assert!(!highlight(&title, &vec![]));
}

#[test]
fn highlight_only_for_building_title() {
    let title = String::from("FAILED count");
    assert!(!highlight(&title, &vec![16]));
}

#[test]
fn background_reflects_highlight() {
    let building = String::from("BUILDING count");
    let alert_cmds = render(&vec![16], 300, 150, Rgb { r: 0, g: 0, b: 255 }, &building);
    assert_eq!(alert_cmds[0], DrawCmd::Fill { color: Rgb { r: 255, g: 204, b: 230 } });
    let calm_cmds = render(&vec![15], 300, 150, Rgb { r: 0, g: 0, b: 255 }, &building);
    assert_eq!(calm_cmds[0], DrawCmd::Fill { color: Rgb { r: 255, g: 255, b: 255 } });
}

#[test]
fn max_value_floors_at_one() {
    assert_eq!(max_value(&vec![]), 1);
    assert_eq!(max_value(&vec![0, 0]), 1);
    assert_eq!(max_value(&vec![3, 9, 2]), 9);
}

#[test]
fn scale_y_interpolates_between_baseline_and_top() {
    assert_eq!(scale_y(0, 42, 150), 130);
    assert_eq!(scale_y(42, 42, 150), 20);
    assert_eq!(scale_y(21, 42, 150), 75);
}

#[test]
fn tick_value_is_fifth_of_scale() {
    assert_eq!(tick_value(100, 0), 0);
    assert_eq!(tick_value(100, 3), 60);
    assert_eq!(tick_value(100, 5), 100);
    assert_eq!(tick_value(7, 3), 4);
}

#[test]
fn point_step_divides_plot_width() {
    assert_eq!(point_step(300, 2), 130);
    assert_eq!(point_step(300, 0), 260);
    assert_eq!(point_step(300, 100), 2);
}

#[test]
fn empty_snapshot_renders_axis_title_and_ticks() {
    let title = String::from("BUILDING count");
    let cmds = render(&vec![], 300, 150, Rgb { r: 51, g: 102, b: 204 }, &title);
    assert_eq!(cmds.len(), 16);
    assert_eq!(cmds[0], DrawCmd::Fill { color: Rgb { r: 255, g: 255, b: 255 } });
    match &cmds[1] {
        DrawCmd::Path { points, color, stroke_width } => {
            assert_eq!(
                points,
                &vec![
                    Point { x: 30, y: 10 },
                    Point { x: 30, y: 130 },
                    Point { x: 290, y: 130 },
                ]
            );
            assert_eq!(*color, Rgb { r: 0, g: 0, b: 0 });
            assert_eq!(*stroke_width, 1);
        }
        other => panic!("expected the axis path, got {:?}", other),
    }
    match &cmds[2] {
        DrawCmd::Title { x, y, text } => {
            assert_eq!((*x, *y), (40, 20));
            assert_eq!(text.as_str(), "BUILDING count");
        }
        other => panic!("expected the title, got {:?}", other),
    }
    match &cmds[15] {
        DrawCmd::Path { points, stroke_width, .. } => {
            assert!(points.is_empty());
            assert_eq!(*stroke_width, 2);
        }
        other => panic!("expected the polyline, got {:?}", other),
    }
}

#[test]
fn tick_marks_sit_left_of_axis() {
    let title = String::from("FAILED count");
    let cmds = render(&vec![100], 300, 150, Rgb { r: 255, g: 0, b: 0 }, &title);
    // tick 0 is the zero baseline: height - 20 = 130
    match &cmds[3] {
        DrawCmd::Path { points, .. } => {
            assert_eq!(points, &vec![Point { x: 25, y: 130 }, Point { x: 30, y: 130 }]);
        }
        other => panic!("expected a tick mark, got {:?}", other),
    }
    // tick 5 is the full scale: top of the plot area, y = 20
    match &cmds[13] {
        DrawCmd::Path { points, .. } => {
            assert_eq!(points, &vec![Point { x: 25, y: 20 }, Point { x: 30, y: 20 }]);
        }
        other => panic!("expected a tick mark, got {:?}", other),
    }
    // each label sits 4 below its mark, at the left edge
    match &cmds[14] {
        DrawCmd::TickLabel { x, y, value } => {
            assert_eq!((*x, *y, *value), (5, 24, 100));
        }
        other => panic!("expected a tick label, got {:?}", other),
    }
}
