//! The application state and its state machine: the running flag driving the
//! run loop, the debug-panel toggle, the append-only log buffer, the key
//! command interpreter, and the adaptive layout computation for one frame.

use vstd::prelude::*;
use crate::config::Config;
use crate::event::{Event, KeyCode, KeyEvent};
use crate::layout::{LayoutPlan, Panel, PanelModel, Rect, build_config_panel, build_control_panel,
    build_logs_panel, build_vip_panel, build_worker_panel, spec_config_panel, spec_control_panel,
    spec_logs_panel, spec_split_half_v, spec_split_left, spec_split_top, spec_vip_panel,
    spec_worker_panel, split_half_v, split_left, split_top};
use crate::log::LogEvent;

verus! {

/// The mutable UI state: alive until a quit command, an optional debug (log)
/// panel, the accumulated log buffer, and the immutable topology snapshot.
pub struct App {
    /// True from `start` until a quit command is processed.
    pub running: bool,
    /// Whether the logs panel is visible.
    pub debug: bool,
    /// The captured log records, in arrival order, append-only.
    pub logs: Vec<LogEvent>,
    /// The topology snapshot, never mutated after load.
    pub config: Config,
}

/// Whether a key event requests quitting: `Esc`, `q`, or `c`/`C` with only
/// the control modifier held.
pub open spec fn is_quit_key(k: KeyEvent) -> bool {
    ||| k.code == KeyCode::Esc
    ||| k.code == KeyCode::Char('q')
    ||| ((k.code == KeyCode::Char('c') || k.code == KeyCode::Char('C')) && k.modifiers.ctrl
        && !k.modifiers.alt && !k.modifiers.shift)
}

/// Whether a key event toggles the debug panel: `d` or `D`.
pub open spec fn is_toggle_key(k: KeyEvent) -> bool {
    k.code == KeyCode::Char('d') || k.code == KeyCode::Char('D')
}

/// The debug flag after one key event.
pub open spec fn spec_debug_after(debug: bool, k: KeyEvent) -> bool {
    if is_toggle_key(k) {
        !debug
    } else {
        debug
    }
}

/// The log buffer after one multiplexed event: a `Log` event appends its
/// record, every other event leaves the buffer unchanged.
pub open spec fn spec_step_logs(logs: Seq<LogEvent>, e: Event) -> Seq<LogEvent> {
    match e {
        Event::Log(l) => logs.push(l),
        _ => logs,
    }
}

/// The log buffer after a whole sequence of events, applied in order.
pub open spec fn spec_run_logs(init: Seq<LogEvent>, events: Seq<Event>) -> Seq<LogEvent>
    decreases events.len(),
{
    if events.len() == 0 {
        init
    } else {
        spec_run_logs(spec_step_logs(init, events[0]), events.drop_first())
    }
}

/// Law: for any sequence of `Log` events fed to the run loop, the resulting
/// log buffer equals the initial buffer followed by exactly those records,
/// in arrival order — append-only and order-preserving.
pub proof fn lemma_log_buffer_order(init: Seq<LogEvent>, records: Seq<LogEvent>)
    ensures
        spec_run_logs(init, records.map_values(|r: LogEvent| Event::Log(r))) == init + records,
    decreases records.len(),
{
    let events = records.map_values(|r: LogEvent| Event::Log(r));
    if records.len() == 0 {
        assert(init + records =~= init);
    } else {
        lemma_log_buffer_order(init.push(records[0]), records.drop_first());
        assert(events[0] == Event::Log(records[0]));
        assert(events.drop_first() =~= records.drop_first().map_values(
            |r: LogEvent| Event::Log(r),
        ));
        assert(init.push(records[0]) + records.drop_first() =~= init + records);
    }
}

/// Law: the `d` key flips the debug panel exactly once per key press, and
/// repeated presses alternate.
pub proof fn lemma_debug_toggle_alternates(debug: bool, k: KeyEvent)
    requires
        is_toggle_key(k),
    ensures
        spec_debug_after(debug, k) == !debug,
        spec_debug_after(spec_debug_after(debug, k), k) == debug,
{
}

/// The layout plan of one frame: a pure function of the terminal size and
/// the application state.
///
/// When the debug panel is shown, the lower half of the terminal holds the
/// logs panel and the upper half is the main area; the main area splits into
/// the configuration column and the control-server area; a configured
/// virtual IP takes a fixed-height strip off the top; a non-empty worker
/// list takes the lower half of what remains. Panels are listed in draw
/// order: logs, configuration, virtual IP, workers, control nodes.
pub open spec fn spec_draw(width: u16, height: u16, app: App) -> Seq<PanelModel> {
    let whole = Rect { x: 0, y: 0, width, height };
    let halves = spec_split_half_v(whole);
    let main = if app.debug {
        halves.0
    } else {
        whole
    };
    let logs_part = if app.debug {
        seq![spec_logs_panel(halves.1, app.logs@)]
    } else {
        Seq::<PanelModel>::empty()
    };
    let cols = spec_split_left(main);
    let config_panel = spec_config_panel(cols.0, app.debug);
    let has_vip = app.config.servers.vip is Some;
    let vsplit = spec_split_top(cols.1);
    let vip_part = match app.config.servers.vip {
        Some(v) => seq![spec_vip_panel(vsplit.0, v@, app.debug)],
        None => Seq::<PanelModel>::empty(),
    };
    let stack = if has_vip {
        vsplit.1
    } else {
        cols.1
    };
    let has_worker = app.config.servers.worker@.len() > 0;
    let wsplit = spec_split_half_v(stack);
    let worker_part = if has_worker {
        seq![
            spec_worker_panel(wsplit.1, app.config.servers.worker@.map_values(|s: String| s@),
                app.debug),
        ]
    } else {
        Seq::<PanelModel>::empty()
    };
    let control_area = if has_worker {
        wsplit.0
    } else {
        stack
    };
    let control_panel = spec_control_panel(
        control_area,
        app.config.servers.control@.map_values(|s: String| s@),
        has_vip,
        has_worker,
        app.debug,
    );
    logs_part + seq![config_panel] + vip_part + worker_part + seq![control_panel]
}

impl App {
    /// A fresh application around a loaded topology: not yet running, debug
    /// panel hidden, empty log buffer.
    pub fn new(config: Config) -> (r: App)
        ensures
            !r.running,
            !r.debug,
            r.logs@.len() == 0,
            r.config == config,
    {
        App { running: false, debug: false, logs: Vec::new(), config }
    }

    /// Enters the `Running` state; everything else is untouched.
    pub fn start(&mut self)
        ensures
            final(self).running,
            final(self).debug == old(self).debug,
            final(self).logs == old(self).logs,
            final(self).config == old(self).config,
    {
        self.running = true;
    }

    /// Whether the run loop should keep iterating.
    pub fn is_running(&self) -> (r: bool)
        ensures
            r == self.running,
    {
        self.running
    }

    /// Interprets one key event: `Esc`, `q` and control-`c`/`C` quit, `d`/`D`
    /// toggles the debug panel, every other key is ignored.
    pub fn handle_key_events(&mut self, key_event: KeyEvent)
        ensures
            final(self).running == (old(self).running && !is_quit_key(key_event)),
            final(self).debug == spec_debug_after(old(self).debug, key_event),
            final(self).logs == old(self).logs,
            final(self).config == old(self).config,
    {
        match key_event.code {
            KeyCode::Esc => {
                self.running = false;
            },
            KeyCode::Char(c) => {
                if c == 'q' {
                    self.running = false;
                } else if c == 'c' || c == 'C' {
                    if key_event.modifiers.ctrl && !key_event.modifiers.alt
                        && !key_event.modifiers.shift {
                        self.running = false;
                    }
                } else if c == 'd' || c == 'D' {
                    self.debug = !self.debug;
                }
            },
            KeyCode::Other => {},
        }
    }

    /// Applies one multiplexed event: keys go to the key interpreter, log
    /// records are appended to the buffer, ticks, mouse events, resizes and
    /// the closed-channel sentinel are no-ops.
    pub fn handle_events(&mut self, event: Event)
        ensures
            final(self).logs@ == spec_step_logs(old(self).logs@, event),
            final(self).config == old(self).config,
            match event {
                Event::Key(k) => final(self).running == (old(self).running && !is_quit_key(k))
                    && final(self).debug == spec_debug_after(old(self).debug, k),
                _ => final(self).running == old(self).running && final(self).debug == old(
                    self,
                ).debug,
            },
    {
        match event {
            Event::Tick => {},
            Event::Key(k) => self.handle_key_events(k),
            Event::Mouse(_) => {},
            Event::Resize(_, _) => {},
            Event::Log(l) => self.logs.push(l),
            Event::Invalid => {},
        }
    }

    /// Computes the layout plan of one frame for the given terminal size: a
    /// pure function of size and state, safely recomputable every frame.
    pub fn draw(&self, width: u16, height: u16) -> (r: LayoutPlan)
        ensures
            r@ == spec_draw(width, height, *self),
    {
        let whole = Rect { x: 0, y: 0, width, height };
        let mut panels: Vec<Panel> = Vec::new();
        let main: Rect;
        if self.debug {
            let halves = split_half_v(whole);
            main = halves.0;
            panels.push(build_logs_panel(halves.1, &self.logs));
        } else {
            main = whole;
        }
        let cols = split_left(main);
        panels.push(build_config_panel(cols.0, self.debug));
        let has_vip: bool;
        let stack: Rect;
        match &self.config.servers.vip {
            Some(v) => {
                let vsplit = split_top(cols.1);
                panels.push(build_vip_panel(vsplit.0, v.clone(), self.debug));
                has_vip = true;
                stack = vsplit.1;
            },
            None => {
                has_vip = false;
                stack = cols.1;
            },
        }
        let has_worker = self.config.servers.worker.len() > 0;
        let control_area: Rect;
        if has_worker {
            let wsplit = split_half_v(stack);
            panels.push(build_worker_panel(wsplit.1, &self.config.servers.worker, self.debug));
            control_area = wsplit.0;
        } else {
            control_area = stack;
        }
        panels.push(build_control_panel(control_area, &self.config.servers.control, has_vip,
            has_worker, self.debug));
        let plan = LayoutPlan { panels };
        proof {
            assert(plan@ =~= spec_draw(width, height, *self));
        }
        plan
    }
}

/// Law: the layout engine is idempotent — two plans computed from identical
/// size and state are identical.
pub proof fn lemma_draw_idempotent(
    width: u16,
    height: u16,
    app: App,
    p1: Seq<PanelModel>,
    p2: Seq<PanelModel>,
)
    requires
        p1 == spec_draw(width, height, app),
        p2 == spec_draw(width, height, app),
    ensures
        p1 == p2,
{
}

} // verus!
