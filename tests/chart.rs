use eld::draw::{GRID_LINE_WIDTH, HOUR_FONT, SEGMENT_LINE_WIDTH};
use eld::geometry::SUBPIXELS;
use eld::{
    draw_grid, draw_segments, generate_hour_labels, hour_label_of, hour_position,
    minute_position, row_center_position, row_rule_position, ChartProps, DrawOp, DutyStatus,
    Point, RedrawState, Segment,
};

fn seg(start_minute: i32, end_minute: i32, status: DutyStatus) -> Segment {
    Segment {
        start_minute,
        end_minute,
        status,
        location: String::new(),
        note: String::new(),
    }
}

fn px(v: i64) -> i64 {
    v * SUBPIXELS
}

fn day_log() -> Vec<Segment> {
    vec![
        seg(0, 360, DutyStatus::OffDuty),
        seg(360, 720, DutyStatus::Sleeper),
        seg(720, 1080, DutyStatus::Driving),
        seg(1080, 1440, DutyStatus::OnDuty),
    ]
}

fn count_clears(ops: &[DrawOp]) -> usize {
    ops.iter().filter(|o| matches!(o, DrawOp::Clear { .. })).count()
}

fn count_texts(ops: &[DrawOp]) -> usize {
    ops.iter().filter(|o| matches!(o, DrawOp::Text { .. })).count()
}

#[test]
fn hour_labels_format() {
    let labels = generate_hour_labels();
    assert_eq!(labels.len(), 25);
    assert_eq!(labels[0], "12 AM");
    assert_eq!(labels[1], "1 AM");
    assert_eq!(labels[11], "11 AM");
    assert_eq!(labels[12], "12 PM");
    assert_eq!(labels[13], "1 PM");
    assert_eq!(labels[23], "11 PM");
    assert_eq!(labels[24], "12 AM");
}

#[test]
fn hour_label_two_digit_hours() {
    assert_eq!(hour_label_of(10), "10 AM");
    assert_eq!(hour_label_of(22), "10 PM");
    assert_eq!(hour_label_of(9), "9 AM");
    assert_eq!(hour_label_of(24), "12 AM");
    assert_eq!(hour_label_of(36), "12 PM");
}

#[test]
fn horizontal_mapping_six_to_noon() {
    // col_width = (1000 - 140) / 24 px, so 6 h is 215 px and 12 h is 430 px.
    assert_eq!(minute_position(1000, 360), px(70 + 215));
    assert_eq!(minute_position(1000, 720), px(70 + 430));
    assert_eq!(hour_position(1000, 6), px(70 + 215));
    assert_eq!(hour_position(1000, 12), px(70 + 430));
}

#[test]
fn horizontal_mapping_half_hour() {
    // 6:30 on a 1000 px chart: 70 + 6.5 * 860 / 24 = 302.9166... px.
    assert_eq!(minute_position(1000, 390), px(70) + 390 * 860);
    let x = minute_position(1000, 390) as f64 / SUBPIXELS as f64;
    assert!((x - (70.0 + 6.5 * 860.0 / 24.0)).abs() < 1e-9);
}

#[test]
fn times_outside_the_day_fall_outside_the_grid() {
    assert_eq!(minute_position(1000, -60), px(70) - 60 * 860);
    assert!(minute_position(1000, 1500) > px(1000 - 70));
}

#[test]
fn row_mapping_on_400px() {
    // row_height = (400 - 80) / 4 = 80 px; centres at 80, 160, 240, 320 px.
    let props = ChartProps::default();
    let statuses = [DutyStatus::OffDuty, DutyStatus::Sleeper, DutyStatus::Driving, DutyStatus::OnDuty];
    for (row, status) in statuses.iter().enumerate() {
        let y = px(40 + 80 * row as i64 + 40);
        assert_eq!(row_center_position(400, row as u32), y);
        let ops = draw_segments(&[seg(0, 60, *status)], 800, 400, &props);
        assert_eq!(ops.len(), 1);
        match &ops[0] {
            DrawOp::Line { from, to, .. } => {
                assert_eq!(from.y, y);
                assert_eq!(to.y, y);
            }
            other => panic!("unexpected {:?}", other),
        }
    }
}

#[test]
fn row_rules_on_400px() {
    for i in 0..5u32 {
        assert_eq!(row_rule_position(400, i), px(40 + 80 * i as i64));
    }
}

#[test]
fn status_rows_and_names() {
    assert_eq!(DutyStatus::OffDuty.row(), Some(0));
    assert_eq!(DutyStatus::Sleeper.row(), Some(1));
    assert_eq!(DutyStatus::Driving.row(), Some(2));
    assert_eq!(DutyStatus::OnDuty.row(), Some(3));
    assert_eq!(DutyStatus::PersonalConveyance.row(), None);
    assert_eq!(DutyStatus::YardMove.row(), None);
    assert_eq!(DutyStatus::OffDuty.as_str(), "OffDuty");
    assert_eq!(DutyStatus::PersonalConveyance.as_str(), "PersonalConveyance");
    assert_eq!(DutyStatus::YardMove.as_str(), "YardMove");
}

#[test]
fn status_colors() {
    let props = ChartProps::default();
    assert_eq!(props.color_of(DutyStatus::OffDuty), Some("#8E8E8E"));
    assert_eq!(props.color_of(DutyStatus::Sleeper), Some("black"));
    assert_eq!(props.color_of(DutyStatus::Driving), Some("green"));
    assert_eq!(props.color_of(DutyStatus::OnDuty), Some("orange"));
    assert_eq!(props.color_of(DutyStatus::YardMove), None);
}

#[test]
fn default_props() {
    let props = ChartProps::default();
    assert_eq!(props.width, 900);
    assert_eq!(props.height, 300);
    assert_eq!(props.background_color, "#FFFFFF");
    assert_eq!(props.grid_color, "#CCCCCC");
    assert_eq!(props.font, "bold 14px Arial");
    assert_eq!(props.label_color, "#444444");
}

#[test]
fn grid_layout() {
    let props = ChartProps::default();
    let ops = draw_grid(800, 400, &props);
    // clear, 5 + 25 lines, 4 row captions, 13 hour captions
    assert_eq!(ops.len(), 1 + 30 + 4 + 13);
    assert_eq!(ops[0], DrawOp::Clear { width: 800, height: 400 });
    assert_eq!(
        ops[1],
        DrawOp::Line {
            from: Point { x: px(70), y: px(40) },
            to: Point { x: px(800), y: px(40) },
            color: "#CCCCCC",
            line_width: GRID_LINE_WIDTH,
        }
    );
    assert_eq!(
        ops[2],
        DrawOp::Text {
            text: "Off Duty".to_string(),
            at: Point { x: px(10), y: px(80) },
            font: "bold 14px Arial",
            color: "#444444",
        }
    );
    let captions: Vec<String> = ops
        .iter()
        .filter_map(|o| match o {
            DrawOp::Text { text, .. } => Some(text.clone()),
            _ => None,
        })
        .collect();
    assert_eq!(&captions[0..4], &["Off Duty", "Sleeper", "Driving", "On Duty"]);
    assert_eq!(captions[4], "12 AM");
    assert_eq!(captions[5], "2 AM");
    assert_eq!(captions[10], "12 PM");
    assert_eq!(captions[16], "12 AM");
    // the last horizontal line, then the first vertical line and its caption
    assert_eq!(
        ops[9],
        DrawOp::Line {
            from: Point { x: px(70), y: px(360) },
            to: Point { x: px(800), y: px(360) },
            color: "#CCCCCC",
            line_width: GRID_LINE_WIDTH,
        }
    );
    assert_eq!(
        ops[10],
        DrawOp::Line {
            from: Point { x: px(70), y: px(40) },
            to: Point { x: px(70), y: px(400) },
            color: "#CCCCCC",
            line_width: GRID_LINE_WIDTH,
        }
    );
    assert_eq!(
        ops[11],
        DrawOp::Text {
            text: "12 AM".to_string(),
            at: Point { x: px(60), y: px(390) },
            font: HOUR_FONT,
            color: "#444444",
        }
    );
    // the rightmost hour line stands at the right edge less the margin
    assert_eq!(
        ops[ops.len() - 2],
        DrawOp::Line {
            from: Point { x: px(730), y: px(40) },
            to: Point { x: px(730), y: px(400) },
            color: "#CCCCCC",
            line_width: GRID_LINE_WIDTH,
        }
    );
}

#[test]
fn unplotted_statuses_paint_nothing() {
    let props = ChartProps::default();
    let log = vec![
        seg(0, 120, DutyStatus::PersonalConveyance),
        seg(120, 240, DutyStatus::YardMove),
    ];
    assert!(draw_segments(&log, 800, 400, &props).is_empty());
    let mut mixed = day_log();
    mixed.insert(2, seg(600, 660, DutyStatus::YardMove));
    assert_eq!(
        draw_segments(&mixed, 800, 400, &props),
        draw_segments(&day_log(), 800, 400, &props)
    );
}

#[test]
fn overlapping_segments_keep_input_order() {
    let props = ChartProps::default();
    let log = vec![seg(0, 600, DutyStatus::Driving), seg(300, 400, DutyStatus::OffDuty)];
    let ops = draw_segments(&log, 800, 400, &props);
    assert_eq!(ops.len(), 2);
    assert!(matches!(&ops[0], DrawOp::Line { color: "green", .. }));
    assert!(matches!(&ops[1], DrawOp::Line { color: "#8E8E8E", .. }));
}

#[test]
fn grid_painted_once_over_two_renders() {
    let props = ChartProps::default();
    let log = day_log();
    let mut state = RedrawState::new();
    let first = state.render(&log, 800, 400, &props);
    assert!(state.grid_drawn);
    let second = state.render(&log, 800, 400, &props);
    assert!(state.grid_drawn);
    assert_eq!(count_clears(&first), 1);
    assert_eq!(count_clears(&second), 0);
    assert_eq!(first.len(), 48 + 4);
    assert_eq!(second, draw_segments(&log, 800, 400, &props));
    assert_eq!(&first[48..], &second[..]);
}

#[test]
fn clear_resets_redraw_state() {
    let props = ChartProps::default();
    let log = day_log();
    let mut state = RedrawState::new();
    state.render(&log, 800, 400, &props);
    let wipe = state.clear(800, 400);
    assert_eq!(wipe, DrawOp::Clear { width: 800, height: 400 });
    assert!(!state.grid_drawn);
    let again = state.render(&log, 800, 400, &props);
    assert_eq!(count_clears(&again), 1);
    assert_eq!(count_texts(&again), 17);
    assert_eq!(&again[..48], &draw_grid(800, 400, &props)[..]);
}

#[test]
fn marker_round_trip() {
    assert!(RedrawState::from_marker(Some("true".to_string())).grid_drawn);
    assert!(!RedrawState::from_marker(Some("false".to_string())).grid_drawn);
    assert!(!RedrawState::from_marker(Some("yes".to_string())).grid_drawn);
    assert!(!RedrawState::from_marker(Some("TRUE".to_string())).grid_drawn);
    assert!(!RedrawState::from_marker(None).grid_drawn);
    let mut state = RedrawState::new();
    assert_eq!(state.marker_value(), "false");
    state.render(&[], 800, 400, &ChartProps::default());
    assert_eq!(state.marker_value(), "true");
    let read_back = RedrawState::from_marker(Some(state.marker_value().to_string()));
    assert_eq!(read_back, state);
}

#[test]
fn end_to_end_day_on_800_by_400() {
    let props = ChartProps::default();
    let mut state = RedrawState::new();
    let ops = state.render(&day_log(), 800, 400, &props);
    assert!(state.grid_drawn);
    assert_eq!(ops.len(), 52);
    let lines = &ops[48..];
    let expected = [
        (0, 6, 80, "#8E8E8E"),
        (6, 12, 160, "black"),
        (12, 18, 240, "green"),
        (18, 24, 320, "orange"),
    ];
    // col_width = (800 - 140) / 24 = 27.5 px
    for (op, (start_h, end_h, y, color)) in lines.iter().zip(expected.iter()) {
        let x0 = px(70) + start_h * 660 * SUBPIXELS / 24;
        let x1 = px(70) + end_h * 660 * SUBPIXELS / 24;
        assert_eq!(
            *op,
            DrawOp::Line {
                from: Point { x: x0, y: px(*y) },
                to: Point { x: x1, y: px(*y) },
                color,
                line_width: SEGMENT_LINE_WIDTH,
            }
        );
    }
    // the four lines meet end to end and span the grid from margin to margin
    assert!(matches!(&lines[0], DrawOp::Line { from: Point { x, .. }, .. } if *x == px(70)));
    assert!(matches!(&lines[3], DrawOp::Line { to: Point { x, .. }, .. } if *x == px(730)));
}
