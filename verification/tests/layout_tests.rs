//! Tests of the adaptive layout engine: panel arrangement, border-glyph
//! junctions, and the tail-anchored log window.

use ez_rke::app::App;
use ez_rke::config::{Config, Servers};
use ez_rke::event::Event;
use ez_rke::layout::{
    config_glyphs, control_glyphs, scroll_offset, visible_height, vip_glyphs, worker_glyphs,
    LayoutPlan, Panel, PanelContent, PanelKind, Rect,
};
use ez_rke::log::{LogEvent, LogLevel, Timestamp};

fn topology(control: Vec<&str>, worker: Vec<&str>, vip: Option<&str>) -> Config {
    Config {
        servers: Servers {
            control: control.into_iter().map(|s| s.to_string()).collect(),
            worker: worker.into_iter().map(|s| s.to_string()).collect(),
            vip: vip.map(|s| s.to_string()),
        },
    }
}

fn record(target: &str) -> LogEvent {
    LogEvent {
        level: LogLevel::Info,
        target: target.to_string(),
        name: "event".to_string(),
        fields: vec![],
        timestamp: Timestamp { year: 2024, month: 1, day: 2, hour: 3, minute: 4, second: 5, micros: 6 },
        span: None,
    }
}

fn content_eq(a: &PanelContent, b: &PanelContent) -> bool {
    match (a, b) {
        (PanelContent::Items(x), PanelContent::Items(y)) => x == y,
        (PanelContent::Text(x), PanelContent::Text(y)) => x == y,
        (
            PanelContent::Logs { offset: ox, lines: lx },
            PanelContent::Logs { offset: oy, lines: ly },
        ) => {
            ox == oy && lx.len() == ly.len()
                && lx.iter().zip(ly.iter()).all(|(p, q)| {
                    p.timestamp == q.timestamp && p.level == q.level && p.color == q.color
                        && p.scope == q.scope && p.fields == q.fields
                })
        },
        _ => false,
    }
}

fn panel_eq(a: &Panel, b: &Panel) -> bool {
    a.kind == b.kind && a.area == b.area && a.edges == b.edges && a.glyphs == b.glyphs
        && a.title == b.title && a.bottom_title == b.bottom_title && content_eq(&a.content, &b.content)
}

fn plan_eq(a: &LayoutPlan, b: &LayoutPlan) -> bool {
    a.panels.len() == b.panels.len()
        && a.panels.iter().zip(b.panels.iter()).all(|(p, q)| panel_eq(p, q))
}

fn kinds(plan: &LayoutPlan) -> Vec<PanelKind> {
    plan.panels.iter().map(|p| p.kind).collect()
}

fn find<'a>(plan: &'a LayoutPlan, kind: PanelKind) -> &'a Panel {
    plan.panels.iter().find(|p| p.kind == kind).expect("panel missing")
}

#[test]
fn scroll_offset_is_tail_anchored() {
    assert_eq!(scroll_offset(10, 4), 6);
    assert_eq!(scroll_offset(4, 4), 0);
    assert_eq!(scroll_offset(3, 10), 0);
    assert_eq!(scroll_offset(0, 0), 0);
    assert_eq!(visible_height(12), 11);
    assert_eq!(visible_height(1), 0);
    assert_eq!(visible_height(0), 0);
}

#[test]
fn two_control_nodes_no_workers_no_vip_gives_two_panels() {
    let app = App::new(topology(vec!["alpha", "beta"], vec![], None));
    let plan = app.draw(80, 24);
    assert_eq!(kinds(&plan), vec![PanelKind::Configuration, PanelKind::ControlNodes]);
    let config = find(&plan, PanelKind::Configuration);
    assert_eq!(config.area, Rect { x: 0, y: 0, width: 20, height: 24 });
    assert!(!config.edges.right);
    assert_eq!(config.bottom_title, None);
    let control = find(&plan, PanelKind::ControlNodes);
    assert_eq!(control.area, Rect { x: 20, y: 0, width: 60, height: 24 });
    assert!(control.edges.bottom);
    match &control.content {
        PanelContent::Items(items) => assert_eq!(items, &vec!["alpha".to_string(), "beta".to_string()]),
        _ => panic!("control panel should list node names"),
    }
    assert_eq!(control.glyphs.top_left, '┬');
    assert_eq!(control.glyphs.bottom_left, '┴');
    assert_eq!(control.glyphs.bottom_right, '┘');
}

#[test]
fn debug_with_empty_buffer_gives_three_panels_and_empty_log_lines() {
    let mut app = App::new(topology(vec!["alpha", "beta"], vec![], None));
    app.debug = true;
    let plan = app.draw(80, 24);
    assert_eq!(
        kinds(&plan),
        vec![PanelKind::Logs, PanelKind::Configuration, PanelKind::ControlNodes]
    );
    let logs = find(&plan, PanelKind::Logs);
    assert_eq!(logs.area, Rect { x: 0, y: 12, width: 80, height: 12 });
    assert!(!logs.edges.top);
    assert!(logs.edges.left && logs.edges.right && logs.edges.bottom);
    match &logs.content {
        PanelContent::Logs { offset, lines } => {
            assert_eq!(*offset, 0);
            assert!(lines.is_empty());
        },
        _ => panic!("logs panel should hold log lines"),
    }
    let config = find(&plan, PanelKind::Configuration);
    assert_eq!(config.area, Rect { x: 0, y: 0, width: 20, height: 12 });
    assert_eq!(config.bottom_title, Some("Tracing Logs".to_string()));
    assert_eq!(config.glyphs.bottom_left, '├');
    let control = find(&plan, PanelKind::ControlNodes);
    assert_eq!(control.glyphs.bottom_right, '┤');
}

#[test]
fn vip_takes_a_strip_above_the_control_panel() {
    let app = App::new(topology(vec!["alpha"], vec![], Some("10.0.0.1")));
    let plan = app.draw(80, 24);
    assert_eq!(
        kinds(&plan),
        vec![PanelKind::Configuration, PanelKind::Vip, PanelKind::ControlNodes]
    );
    let vip = find(&plan, PanelKind::Vip);
    assert_eq!(vip.area, Rect { x: 20, y: 0, width: 60, height: 2 });
    assert!(!vip.edges.bottom);
    assert_eq!(vip.title, "VIP");
    match &vip.content {
        PanelContent::Text(t) => assert_eq!(t, "10.0.0.1"),
        _ => panic!("vip panel should show the address"),
    }
    assert_eq!(vip.glyphs.top_left, '┬');
    let control = find(&plan, PanelKind::ControlNodes);
    assert_eq!(control.area, Rect { x: 20, y: 2, width: 60, height: 22 });
    assert_eq!(control.glyphs.top_left, '├');
    assert_eq!(control.glyphs.top_right, '┤');
}

#[test]
fn workers_take_the_lower_half_of_the_stack() {
    let app = App::new(topology(vec!["alpha"], vec!["w1", "w2"], None));
    let plan = app.draw(80, 24);
    assert_eq!(
        kinds(&plan),
        vec![PanelKind::Configuration, PanelKind::WorkerNodes, PanelKind::ControlNodes]
    );
    let control = find(&plan, PanelKind::ControlNodes);
    assert_eq!(control.area, Rect { x: 20, y: 0, width: 60, height: 12 });
    assert!(!control.edges.bottom);
    let worker = find(&plan, PanelKind::WorkerNodes);
    assert_eq!(worker.area, Rect { x: 20, y: 12, width: 60, height: 12 });
    assert!(worker.edges.top && worker.edges.bottom && worker.edges.left && worker.edges.right);
    assert_eq!(worker.glyphs.top_left, '├');
    assert_eq!(worker.glyphs.top_right, '┤');
    match &worker.content {
        PanelContent::Items(items) => assert_eq!(items, &vec!["w1".to_string(), "w2".to_string()]),
        _ => panic!("worker panel should list node names"),
    }
}

#[test]
fn empty_control_list_shows_placeholder() {
    let app = App::new(topology(vec![], vec![], None));
    let plan = app.draw(80, 24);
    let control = find(&plan, PanelKind::ControlNodes);
    match &control.content {
        PanelContent::Items(items) => {
            assert_eq!(items, &vec!["No control plane nodes configured".to_string()])
        },
        _ => panic!("control panel should show the placeholder"),
    }
}

#[test]
fn layout_is_idempotent_for_identical_inputs() {
    let mut app = App::new(topology(vec!["alpha", "beta"], vec!["w1"], Some("10.0.0.9")));
    app.debug = true;
    for _ in 0..5 {
        app.handle_events(Event::Log(record("t")));
    }
    let first = app.draw(97, 31);
    let second = app.draw(97, 31);
    assert!(plan_eq(&first, &second));
}

#[test]
fn log_window_clips_to_the_newest_records() {
    let mut app = App::new(topology(vec!["alpha"], vec![], None));
    app.debug = true;
    for i in 0..15 {
        app.handle_events(Event::Log(record(&format!("t{i}"))));
    }
    // Height 24 splits into halves of 12; 11 lines fit above the bottom border.
    let plan = app.draw(80, 24);
    let logs = find(&plan, PanelKind::Logs);
    match &logs.content {
        PanelContent::Logs { offset, lines } => {
            assert_eq!(*offset, 4);
            assert_eq!(lines.len(), 11);
            assert_eq!(lines[0].scope, "t4");
            assert_eq!(lines[10].scope, "t14");
        },
        _ => panic!("logs panel should hold log lines"),
    }
}

#[test]
fn short_buffer_renders_every_record() {
    let mut app = App::new(topology(vec![], vec![], None));
    app.debug = true;
    for i in 0..3 {
        app.handle_events(Event::Log(record(&format!("t{i}"))));
    }
    let plan = app.draw(80, 24);
    let logs = find(&plan, PanelKind::Logs);
    match &logs.content {
        PanelContent::Logs { offset, lines } => {
            assert_eq!(*offset, 0);
            assert_eq!(lines.len(), 3);
        },
        _ => panic!("logs panel should hold log lines"),
    }
}

#[test]
fn junction_glyphs_are_consistent_across_all_eight_combinations() {
    for &vip in &[false, true] {
        for &worker in &[false, true] {
            for &debug in &[false, true] {
                // The configuration column opens toward the logs panel
                // exactly when that panel exists.
                let cfg = config_glyphs(debug);
                assert_eq!(cfg.bottom_left, if debug { '├' } else { '└' });
                // The topmost stack panel joins the configuration column's
                // top line with a downward T-junction.
                let top = if vip { vip_glyphs(debug) } else { control_glyphs(vip, debug) };
                assert_eq!(top.top_left, '┬');
                assert_eq!(top.top_right, '┐');
                // A stack panel below another starts with side T-junctions.
                if vip {
                    let below = control_glyphs(vip, debug);
                    assert_eq!(below.top_left, '├');
                    assert_eq!(below.top_right, '┤');
                }
                let w = worker_glyphs(debug);
                assert_eq!(w.top_left, '├');
                assert_eq!(w.top_right, '┤');
                // The bottommost stack panel closes into the configuration
                // column's bottom line, and into the logs panel's right line
                // exactly when the logs panel exists.
                let bottom = if worker { worker_glyphs(debug) } else { control_glyphs(vip, debug) };
                assert_eq!(bottom.bottom_left, '┴');
                assert_eq!(bottom.bottom_right, if debug { '┤' } else { '┘' });
            }
        }
    }
}

#[test]
fn adjacent_panels_never_draw_a_double_border() {
    // Wherever two panels stack vertically, exactly one of them owns the
    // shared edge.
    for &vip in &[None, Some("10.0.0.1")] {
        for worker in [vec![], vec!["w1"]] {
            for &debug in &[false, true] {
                let mut app = App::new(topology(vec!["alpha"], worker.clone(), vip));
                app.debug = debug;
                let plan = app.draw(80, 24);
                if vip.is_some() {
                    let v = find(&plan, PanelKind::Vip);
                    let c = find(&plan, PanelKind::ControlNodes);
                    assert!(!v.edges.bottom && c.edges.top);
                }
                if !worker.is_empty() {
                    let c = find(&plan, PanelKind::ControlNodes);
                    let w = find(&plan, PanelKind::WorkerNodes);
                    assert!(!c.edges.bottom && w.edges.top);
                }
                if debug {
                    let l = find(&plan, PanelKind::Logs);
                    assert!(!l.edges.top);
                    let bottom_of_stack = if worker.is_empty() {
                        find(&plan, PanelKind::ControlNodes)
                    } else {
                        find(&plan, PanelKind::WorkerNodes)
                    };
                    assert!(bottom_of_stack.edges.bottom);
                }
            }
        }
    }
}

#[test]
fn odd_height_leaves_the_extra_row_to_the_logs_panel() {
    let mut app = App::new(topology(vec!["alpha"], vec![], None));
    app.debug = true;
    let plan = app.draw(80, 25);
    let logs = find(&plan, PanelKind::Logs);
    assert_eq!(logs.area, Rect { x: 0, y: 12, width: 80, height: 13 });
    let config = find(&plan, PanelKind::Configuration);
    assert_eq!(config.area.height, 12);
}

#[test]
fn narrow_terminal_gives_everything_to_the_config_column() {
    let app = App::new(topology(vec!["alpha"], vec![], None));
    let plan = app.draw(10, 24);
    let config = find(&plan, PanelKind::Configuration);
    assert_eq!(config.area, Rect { x: 0, y: 0, width: 10, height: 24 });
    let control = find(&plan, PanelKind::ControlNodes);
    assert_eq!(control.area, Rect { x: 10, y: 0, width: 0, height: 24 });
}
