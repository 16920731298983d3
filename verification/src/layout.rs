//! The adaptive layout engine's building blocks: screen rectangles and their
//! splits, panel kinds, border edges and border-junction glyphs, and the
//! ghost models of a computed layout plan.
//!
//! Border glyphs are chosen so that the shared edge of two adjacent panels
//! renders as one continuous line: wherever a border line of one panel runs
//! into a border line of another, the meeting corner is a T-junction rather
//! than a plain corner.

use vstd::prelude::*;
use crate::log::{LogColor, LogEvent, LogLine, fields_model, spec_color, spec_fields_render,
    spec_label, spec_ts_micros};

verus! {

/// Width reserved for the configuration column on the left.
pub const CONFIG_PANEL_WIDTH: u16 = 20;

/// Height of the strip showing the virtual IP.
pub const VIP_PANEL_HEIGHT: u16 = 2;

/// A rectangular region of the terminal, in cells.
#[derive(Clone, Copy, PartialEq, Eq, Structural, Debug)]
pub struct Rect {
    pub x: u16,
    pub y: u16,
    pub width: u16,
    pub height: u16,
}

impl Rect {
    /// The region lies within the addressable cell grid.
    pub open spec fn wf(self) -> bool {
        self.x + self.width <= u16::MAX && self.y + self.height <= u16::MAX
    }
}

/// The upper and lower halves of a region; an odd height leaves the extra
/// row to the lower half.
pub open spec fn spec_split_half_v(r: Rect) -> (Rect, Rect) {
    (
        Rect { x: r.x, y: r.y, width: r.width, height: (r.height / 2) as u16 },
        Rect {
            x: r.x,
            y: (r.y + r.height / 2) as u16,
            width: r.width,
            height: (r.height - r.height / 2) as u16,
        },
    )
}

/// Splits a region into its upper and lower halves.
pub fn split_half_v(r: Rect) -> (res: (Rect, Rect))
    requires
        r.wf(),
    ensures
        res == spec_split_half_v(r),
        res.0.wf(),
        res.1.wf(),
{
    let top_h = r.height / 2;
    (
        Rect { x: r.x, y: r.y, width: r.width, height: top_h },
        Rect { x: r.x, y: r.y + top_h, width: r.width, height: r.height - top_h },
    )
}

/// A fixed-minimum-width left column and the remainder to its right; a
/// narrower region goes entirely to the column.
pub open spec fn spec_split_left(r: Rect) -> (Rect, Rect) {
    let lw = if r.width < CONFIG_PANEL_WIDTH {
        r.width
    } else {
        CONFIG_PANEL_WIDTH
    };
    (
        Rect { x: r.x, y: r.y, width: lw, height: r.height },
        Rect { x: (r.x + lw) as u16, y: r.y, width: (r.width - lw) as u16, height: r.height },
    )
}

/// Splits off the configuration column on the left.
pub fn split_left(r: Rect) -> (res: (Rect, Rect))
    requires
        r.wf(),
    ensures
        res == spec_split_left(r),
        res.0.wf(),
        res.1.wf(),
{
    let lw = if r.width < CONFIG_PANEL_WIDTH {
        r.width
    } else {
        CONFIG_PANEL_WIDTH
    };
    (
        Rect { x: r.x, y: r.y, width: lw, height: r.height },
        Rect { x: r.x + lw, y: r.y, width: r.width - lw, height: r.height },
    )
}

/// A fixed-height strip at the top and the remainder below it; a shorter
/// region goes entirely to the strip.
pub open spec fn spec_split_top(r: Rect) -> (Rect, Rect) {
    let th = if r.height < VIP_PANEL_HEIGHT {
        r.height
    } else {
        VIP_PANEL_HEIGHT
    };
    (
        Rect { x: r.x, y: r.y, width: r.width, height: th },
        Rect { x: r.x, y: (r.y + th) as u16, width: r.width, height: (r.height - th) as u16 },
    )
}

/// Splits off the virtual-IP strip at the top.
pub fn split_top(r: Rect) -> (res: (Rect, Rect))
    requires
        r.wf(),
    ensures
        res == spec_split_top(r),
        res.0.wf(),
        res.1.wf(),
{
    let th = if r.height < VIP_PANEL_HEIGHT {
        r.height
    } else {
        VIP_PANEL_HEIGHT
    };
    (
        Rect { x: r.x, y: r.y, width: r.width, height: th },
        Rect { x: r.x, y: r.y + th, width: r.width, height: r.height - th },
    )
}

/// What a panel shows.
#[derive(Clone, Copy, PartialEq, Eq, Structural, Debug)]
pub enum PanelKind {
    Configuration,
    ControlNodes,
    WorkerNodes,
    Vip,
    Logs,
}

/// Which sides of a panel draw a border line.
#[derive(Clone, Copy, PartialEq, Eq, Structural, Debug)]
pub struct BorderEdges {
    pub top: bool,
    pub right: bool,
    pub bottom: bool,
    pub left: bool,
}

/// The four corner glyphs of a panel's border.
#[derive(Clone, Copy, PartialEq, Eq, Structural, Debug)]
pub struct BorderSet {
    pub top_left: char,
    pub top_right: char,
    pub bottom_left: char,
    pub bottom_right: char,
}

/// Plain box corners, no junctions.
pub open spec fn spec_plain() -> BorderSet {
    BorderSet { top_left: '┌', top_right: '┐', bottom_left: '└', bottom_right: '┘' }
}

/// Corner glyphs of the configuration column: its bottom-left corner becomes
/// a left T-junction when the logs panel continues the line below it.
pub open spec fn spec_config_glyphs(debug: bool) -> BorderSet {
    if debug {
        BorderSet { bottom_left: '├', ..spec_plain() }
    } else {
        spec_plain()
    }
}

/// Bottom corner glyphs shared by the control-server stack: the bottom-left
/// meets the configuration column's bottom line, and the bottom-right meets
/// the logs panel's right line when the logs panel is shown.
pub open spec fn spec_stack_base(debug: bool) -> BorderSet {
    BorderSet {
        bottom_left: '┴',
        bottom_right: if debug {
            '┤'
        } else {
            '┘'
        },
        ..spec_plain()
    }
}

/// Corner glyphs of the virtual-IP strip: its top-left corner meets the
/// configuration column's top line.
pub open spec fn spec_vip_glyphs(debug: bool) -> BorderSet {
    BorderSet { top_left: '┬', ..spec_stack_base(debug) }
}

/// Corner glyphs of the control-nodes panel: T-junctions at the top when the
/// virtual-IP strip sits above it, otherwise a junction with the
/// configuration column's top line.
pub open spec fn spec_control_glyphs(vip: bool, debug: bool) -> BorderSet {
    if vip {
        BorderSet { top_left: '├', top_right: '┤', ..spec_stack_base(debug) }
    } else {
        BorderSet { top_left: '┬', ..spec_stack_base(debug) }
    }
}

/// Corner glyphs of the worker-nodes panel: T-junctions at the top where its
/// border meets the control-nodes panel's side lines.
pub open spec fn spec_worker_glyphs(debug: bool) -> BorderSet {
    BorderSet { top_left: '├', top_right: '┤', ..spec_stack_base(debug) }
}

/// Picks the corner glyphs of the configuration column.
pub fn config_glyphs(debug: bool) -> (r: BorderSet)
    ensures
        r == spec_config_glyphs(debug),
{
    if debug {
        BorderSet { top_left: '┌', top_right: '┐', bottom_left: '├', bottom_right: '┘' }
    } else {
        BorderSet { top_left: '┌', top_right: '┐', bottom_left: '└', bottom_right: '┘' }
    }
}

/// Picks the corner glyphs of the virtual-IP strip.
pub fn vip_glyphs(debug: bool) -> (r: BorderSet)
    ensures
        r == spec_vip_glyphs(debug),
{
    BorderSet {
        top_left: '┬',
        top_right: '┐',
        bottom_left: '┴',
        bottom_right: if debug {
            '┤'
        } else {
            '┘'
        },
    }
}

/// Picks the corner glyphs of the control-nodes panel.
pub fn control_glyphs(vip: bool, debug: bool) -> (r: BorderSet)
    ensures
        r == spec_control_glyphs(vip, debug),
{
    BorderSet {
        top_left: if vip {
            '├'
        } else {
            '┬'
        },
        top_right: if vip {
            '┤'
        } else {
            '┐'
        },
        bottom_left: '┴',
        bottom_right: if debug {
            '┤'
        } else {
            '┘'
        },
    }
}

/// Picks the corner glyphs of the worker-nodes panel.
pub fn worker_glyphs(debug: bool) -> (r: BorderSet)
    ensures
        r == spec_worker_glyphs(debug),
{
    BorderSet {
        top_left: '├',
        top_right: '┤',
        bottom_left: '┴',
        bottom_right: if debug {
            '┤'
        } else {
            '┘'
        },
    }
}

/// What a panel renders inside its border.
#[derive(Clone, Debug)]
pub enum PanelContent {
    /// A list, one item per line, in the given order.
    Items(Vec<String>),
    /// A single paragraph of text.
    Text(String),
    /// The visible tail of the log buffer: the scroll offset into the buffer
    /// and the rendered lines from that offset on.
    Logs { offset: usize, lines: Vec<LogLine> },
}

/// One bordered rectangular region of the computed layout.
#[derive(Clone, Debug)]
pub struct Panel {
    pub kind: PanelKind,
    pub area: Rect,
    pub edges: BorderEdges,
    pub glyphs: BorderSet,
    pub title: String,
    pub bottom_title: Option<String>,
    pub content: PanelContent,
}

/// The full layout of one frame, panels in draw order. Recomputed from
/// scratch every frame; never persisted.
#[derive(Clone, Debug)]
pub struct LayoutPlan {
    pub panels: Vec<Panel>,
}

/// Ghost model of one rendered log line.
#[verifier::ext_equal]
pub ghost struct LogLineModel {
    pub timestamp: Seq<char>,
    pub level: Seq<char>,
    pub color: LogColor,
    pub scope: Seq<char>,
    pub fields: Seq<char>,
}

/// The rendered pieces of a record's log-panel line.
pub open spec fn spec_line(e: LogEvent) -> LogLineModel {
    LogLineModel {
        timestamp: spec_ts_micros(e.timestamp),
        level: seq![' '] + spec_label(e.level) + seq![' '],
        color: spec_color(e.level),
        scope: e.spec_scope(),
        fields: seq![' '] + spec_fields_render(fields_model(e.fields@)),
    }
}

impl View for LogLine {
    type V = LogLineModel;

    open spec fn view(&self) -> LogLineModel {
        LogLineModel {
            timestamp: self.timestamp@,
            level: self.level@,
            color: self.color,
            scope: self.scope@,
            fields: self.fields@,
        }
    }
}

/// Ghost model of a panel's content.
#[verifier::ext_equal]
pub ghost enum ContentModel {
    Items(Seq<Seq<char>>),
    Text(Seq<char>),
    Logs { offset: nat, lines: Seq<LogLineModel> },
}

impl View for PanelContent {
    type V = ContentModel;

    open spec fn view(&self) -> ContentModel {
        match self {
            PanelContent::Items(items) => ContentModel::Items(
                items@.map_values(|s: String| s@),
            ),
            PanelContent::Text(t) => ContentModel::Text(t@),
            PanelContent::Logs { offset, lines } => ContentModel::Logs {
                offset: *offset as nat,
                lines: lines@.map_values(|l: LogLine| l@),
            },
        }
    }
}

/// Ghost model of one panel.
#[verifier::ext_equal]
pub ghost struct PanelModel {
    pub kind: PanelKind,
    pub area: Rect,
    pub edges: BorderEdges,
    pub glyphs: BorderSet,
    pub title: Seq<char>,
    pub bottom_title: Option<Seq<char>>,
    pub content: ContentModel,
}

impl View for Panel {
    type V = PanelModel;

    open spec fn view(&self) -> PanelModel {
        PanelModel {
            kind: self.kind,
            area: self.area,
            edges: self.edges,
            glyphs: self.glyphs,
            title: self.title@,
            bottom_title: match self.bottom_title {
                Some(ref t) => Some(t@),
                None => None,
            },
            content: self.content@,
        }
    }
}

impl View for LayoutPlan {
    type V = Seq<PanelModel>;

    open spec fn view(&self) -> Seq<PanelModel> {
        self.panels@.map_values(|p: Panel| p@)
    }
}

/// The number of log lines that fit inside the logs panel: its height less
/// the bottom border row.
pub open spec fn spec_visible_height(h: u16) -> nat {
    if h >= 1 {
        (h - 1) as nat
    } else {
        0
    }
}

/// The tail-anchored scroll offset: the index of the oldest record still
/// shown when `visible` lines fit.
pub open spec fn spec_scroll_offset(n: nat, visible: nat) -> nat {
    if n > visible {
        (n - visible) as nat
    } else {
        0
    }
}

/// Computes the line capacity of the logs panel.
pub fn visible_height(h: u16) -> (r: u16)
    ensures
        r as nat == spec_visible_height(h),
{
    if h >= 1 {
        h - 1
    } else {
        0
    }
}

/// Computes the tail-anchored scroll offset of the log panel.
pub fn scroll_offset(len: usize, visible: usize) -> (r: usize)
    ensures
        r as nat == spec_scroll_offset(len as nat, visible as nat),
{
    if len > visible {
        len - visible
    } else {
        0
    }
}

/// Law: border-glyph selection is a pure function of which optional panels
/// are present — `(vip, worker, debug)` — and for all eight combinations the
/// panels meet at their shared edges with matching junction glyphs, neither
/// a double line nor a gap:
/// the configuration column opens a left T-junction toward the logs panel
/// exactly when that panel is shown; the topmost panel of the control-server
/// stack joins the configuration column's top line with a downward
/// T-junction; a stack panel sitting directly below another starts with
/// left/right T-junctions; and the bottommost stack panel ends with an
/// upward T-junction into the configuration column's bottom line and joins
/// the logs panel's right line exactly when that panel is shown.
pub proof fn lemma_junction_consistency(vip: bool, worker: bool, debug: bool)
    ensures
        spec_config_glyphs(debug).bottom_left == (if debug {
            '├'
        } else {
            '└'
        }),
        (if vip {
            spec_vip_glyphs(debug)
        } else {
            spec_control_glyphs(vip, debug)
        }).top_left == '┬',
        (if vip {
            spec_vip_glyphs(debug)
        } else {
            spec_control_glyphs(vip, debug)
        }).top_right == '┐',
        vip ==> spec_control_glyphs(vip, debug).top_left == '├' && spec_control_glyphs(
            vip,
            debug,
        ).top_right == '┤',
        spec_worker_glyphs(debug).top_left == '├' && spec_worker_glyphs(debug).top_right == '┤',
        (if worker {
            spec_worker_glyphs(debug)
        } else {
            spec_control_glyphs(vip, debug)
        }).bottom_left == '┴',
        (if worker {
            spec_worker_glyphs(debug)
        } else {
            spec_control_glyphs(vip, debug)
        }).bottom_right == (if debug {
            '┤'
        } else {
            '┘'
        }),
{
}

/// The model of the configuration panel: the left column, listing the loaded
/// configuration, with a bottom title naming the log feed when the logs
/// panel is shown.
pub open spec fn spec_config_panel(area: Rect, debug: bool) -> PanelModel {
    PanelModel {
        kind: PanelKind::Configuration,
        area,
        edges: BorderEdges { top: true, right: false, bottom: true, left: true },
        glyphs: spec_config_glyphs(debug),
        title: "Configuration"@,
        bottom_title: if debug {
            Some("Tracing Logs"@)
        } else {
            None
        },
        content: ContentModel::Items(seq!["Test config"@]),
    }
}

/// The model of the virtual-IP strip, showing the address; no bottom border,
/// so the panel below continues its side lines.
pub open spec fn spec_vip_panel(area: Rect, vip: Seq<char>, debug: bool) -> PanelModel {
    PanelModel {
        kind: PanelKind::Vip,
        area,
        edges: BorderEdges { top: true, right: true, bottom: false, left: true },
        glyphs: spec_vip_glyphs(debug),
        title: "VIP"@,
        bottom_title: None,
        content: ContentModel::Text(vip),
    }
}

/// The model of the control-nodes panel: the node names in declared order, or
/// a placeholder line when none are configured; no bottom border when the
/// worker panel continues below it.
pub open spec fn spec_control_panel(
    area: Rect,
    names: Seq<Seq<char>>,
    vip: bool,
    worker: bool,
    debug: bool,
) -> PanelModel {
    PanelModel {
        kind: PanelKind::ControlNodes,
        area,
        edges: BorderEdges { top: true, right: true, bottom: !worker, left: true },
        glyphs: spec_control_glyphs(vip, debug),
        title: "Control Nodes"@,
        bottom_title: None,
        content: ContentModel::Items(
            if names.len() == 0 {
                seq!["No control plane nodes configured"@]
            } else {
                names
            },
        ),
    }
}

/// The model of the worker-nodes panel: the node names in declared order.
pub open spec fn spec_worker_panel(area: Rect, names: Seq<Seq<char>>, debug: bool) -> PanelModel {
    PanelModel {
        kind: PanelKind::WorkerNodes,
        area,
        edges: BorderEdges { top: true, right: true, bottom: true, left: true },
        glyphs: spec_worker_glyphs(debug),
        title: "Worker Nodes"@,
        bottom_title: None,
        content: ContentModel::Items(names),
    }
}

/// The model of the logs panel: the rendered tail of the log buffer, no top
/// border (the panel above closes the frame).
pub open spec fn spec_logs_panel(area: Rect, logs: Seq<LogEvent>) -> PanelModel {
    let off = spec_scroll_offset(logs.len(), spec_visible_height(area.height));
    PanelModel {
        kind: PanelKind::Logs,
        area,
        edges: BorderEdges { top: false, right: true, bottom: true, left: true },
        glyphs: spec_plain(),
        title: Seq::empty(),
        bottom_title: None,
        content: ContentModel::Logs {
            offset: off,
            lines: logs.skip(off as int).map_values(|e: LogEvent| spec_line(e)),
        },
    }
}

/// Law: for every buffer length and panel height, the logs panel's window is
/// tail-anchored — its scroll offset is `max(0, n - visible_height)` and it
/// renders exactly `min(n, visible_height)` lines, so the newest records are
/// always the ones shown.
pub proof fn lemma_logs_panel_window(area: Rect, logs: Seq<LogEvent>)
    ensures
        ({
            let vh = spec_visible_height(area.height);
            let n = logs.len();
            spec_logs_panel(area, logs).content matches ContentModel::Logs { offset, lines }
                && offset == spec_scroll_offset(n, vh) && offset as int == (if n > vh {
                n - vh
            } else {
                0
            }) && lines.len() == (if n < vh {
                n as int
            } else {
                vh as int
            })
        }),
{
    let vh = spec_visible_height(area.height);
    let off = spec_scroll_offset(logs.len(), vh);
    assert(logs.skip(off as int).map_values(|e: LogEvent| spec_line(e)).len() == logs.len() - off);
}

/// Copies a list of names, preserving order and contents.
fn clone_strings(v: &Vec<String>) -> (r: Vec<String>)
    ensures
        r@.map_values(|s: String| s@) == v@.map_values(|s: String| s@),
{
    let mut out: Vec<String> = Vec::new();
    let mut i: usize = 0;
    while i < v.len()
        invariant
            i <= v@.len(),
            out@.len() == i,
            forall|j: int| 0 <= j < i ==> out@[j]@ == v@[j]@,
        decreases v@.len() - i,
    {
        out.push(v[i].clone());
        i = i + 1;
    }
    proof {
        let m1 = out@.map_values(|s: String| s@);
        let m2 = v@.map_values(|s: String| s@);
        assert forall|j: int| 0 <= j < m1.len() implies m1[j] == m2[j] by {
            assert(m1[j] == out@[j]@);
            assert(m2[j] == v@[j]@);
        }
        assert(m1 =~= m2);
    }
    out
}

/// Renders the log records from `offset` to the end of the buffer, in order.
fn build_log_lines(logs: &Vec<LogEvent>, offset: usize) -> (r: Vec<LogLine>)
    requires
        offset <= logs@.len(),
    ensures
        r@.map_values(|l: LogLine| l@) == logs@.skip(offset as int).map_values(
            |e: LogEvent| spec_line(e),
        ),
{
    let mut out: Vec<LogLine> = Vec::new();
    let mut i: usize = offset;
    while i < logs.len()
        invariant
            offset <= i <= logs@.len(),
            out@.len() == i - offset,
            forall|j: int| 0 <= j < out@.len() ==> out@[j]@ == spec_line(logs@[offset + j]),
        decreases logs@.len() - i,
    {
        out.push(logs[i].line());
        i = i + 1;
    }
    proof {
        let m1 = out@.map_values(|l: LogLine| l@);
        let m2 = logs@.skip(offset as int).map_values(|e: LogEvent| spec_line(e));
        assert forall|j: int| 0 <= j < m1.len() implies m1[j] == m2[j] by {
            assert(m1[j] == out@[j]@);
            assert(logs@.skip(offset as int)[j] == logs@[offset + j]);
            assert(m2[j] == spec_line(logs@[offset + j]));
        }
        assert(m1 =~= m2);
    }
    out
}

/// Builds the configuration panel.
pub fn build_config_panel(area: Rect, debug: bool) -> (r: Panel)
    ensures
        r@ == spec_config_panel(area, debug),
{
    let mut items: Vec<String> = Vec::new();
    items.push("Test config".to_owned());
    let r = Panel {
        kind: PanelKind::Configuration,
        area,
        edges: BorderEdges { top: true, right: false, bottom: true, left: true },
        glyphs: config_glyphs(debug),
        title: "Configuration".to_owned(),
        bottom_title: if debug {
            Some("Tracing Logs".to_owned())
        } else {
            None
        },
        content: PanelContent::Items(items),
    };
    proof {
        assert(r@.content =~= spec_config_panel(area, debug).content);
        assert(r@ =~= spec_config_panel(area, debug));
    }
    r
}

/// Builds the virtual-IP strip showing the given address.
pub fn build_vip_panel(area: Rect, vip: String, debug: bool) -> (r: Panel)
    ensures
        r@ == spec_vip_panel(area, vip@, debug),
{
    let r = Panel {
        kind: PanelKind::Vip,
        area,
        edges: BorderEdges { top: true, right: true, bottom: false, left: true },
        glyphs: vip_glyphs(debug),
        title: "VIP".to_owned(),
        bottom_title: None,
        content: PanelContent::Text(vip),
    };
    proof {
        assert(r@ =~= spec_vip_panel(area, vip@, debug));
    }
    r
}

/// Builds the control-nodes panel from the declared node names.
pub fn build_control_panel(
    area: Rect,
    names: &Vec<String>,
    vip: bool,
    worker: bool,
    debug: bool,
) -> (r: Panel)
    ensures
        r@ == spec_control_panel(area, names@.map_values(|s: String| s@), vip, worker, debug),
{
    let items: Vec<String> = if names.len() == 0 {
        let mut placeholder: Vec<String> = Vec::new();
        placeholder.push("No control plane nodes configured".to_owned());
        proof {
            assert(placeholder@.map_values(|s: String| s@) =~= seq![
                "No control plane nodes configured"@,
            ]);
        }
        placeholder
    } else {
        clone_strings(names)
    };
    let r = Panel {
        kind: PanelKind::ControlNodes,
        area,
        edges: BorderEdges { top: true, right: true, bottom: !worker, left: true },
        glyphs: control_glyphs(vip, debug),
        title: "Control Nodes".to_owned(),
        bottom_title: None,
        content: PanelContent::Items(items),
    };
    proof {
        assert(r@ =~= spec_control_panel(area, names@.map_values(|s: String| s@), vip, worker,
            debug));
    }
    r
}

/// Builds the worker-nodes panel from the declared node names.
pub fn build_worker_panel(area: Rect, names: &Vec<String>, debug: bool) -> (r: Panel)
    ensures
        r@ == spec_worker_panel(area, names@.map_values(|s: String| s@), debug),
{
    let r = Panel {
        kind: PanelKind::WorkerNodes,
        area,
        edges: BorderEdges { top: true, right: true, bottom: true, left: true },
        glyphs: worker_glyphs(debug),
        title: "Worker Nodes".to_owned(),
        bottom_title: None,
        content: PanelContent::Items(clone_strings(names)),
    };
    proof {
        assert(r@ =~= spec_worker_panel(area, names@.map_values(|s: String| s@), debug));
    }
    r
}

/// Builds the logs panel: the rendered tail of the log buffer, anchored so
/// the newest records stay visible.
pub fn build_logs_panel(area: Rect, logs: &Vec<LogEvent>) -> (r: Panel)
    ensures
        r@ == spec_logs_panel(area, logs@),
{
    let vis = visible_height(area.height);
    let off = scroll_offset(logs.len(), vis as usize);
    proof {
        assert(off <= logs@.len());
    }
    let lines = build_log_lines(logs, off);
    let r = Panel {
        kind: PanelKind::Logs,
        area,
        edges: BorderEdges { top: false, right: true, bottom: true, left: true },
        glyphs: BorderSet {
            top_left: '┌',
            top_right: '┐',
            bottom_left: '└',
            bottom_right: '┘',
        },
        title: String::new(),
        bottom_title: None,
        content: PanelContent::Logs { offset: off, lines },
    };
    proof {
        assert(r@ =~= spec_logs_panel(area, logs@));
    }
    r
}

/// The visible log window always tracks the tail: the scroll offset is
/// `max(0, n - visible)` and the number of rendered lines is
/// `min(n, visible)`, for every buffer length `n` and panel height `h`.
pub proof fn lemma_scroll_window(h: u16, n: nat)
    ensures
        spec_scroll_offset(n, spec_visible_height(h)) == if n > spec_visible_height(h) {
            n - spec_visible_height(h)
        } else {
            0
        },
        n - spec_scroll_offset(n, spec_visible_height(h)) == if n < spec_visible_height(h) {
            n as int
        } else {
            spec_visible_height(h) as int
        },
{
}

} // verus!
