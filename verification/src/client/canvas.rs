//! The sparkline charts of the page: which tracker is drawn on which canvas,
//! in which colours.
use vstd::prelude::*;

verus! {

/// One chart: a tracker name, its canvas, the bar colour and the background.
pub struct Sparkline {
    pub topic: &'static str,
    pub canvas_id: &'static str,
    pub bar_color: &'static str,
    pub bg_color: &'static str,
}

/// The charts, one per topic and one for all messages.
pub open spec fn sparkline_specs() -> Seq<(Seq<char>, Seq<char>, Seq<char>, Seq<char>)> {
    seq![
        ("liquid"@, "canvas-liquid"@, "#60b0e8"@, "#0a1a28"@),
        ("solid"@, "canvas-solid"@, "#d8a040"@, "#1a1000"@),
        ("gas"@, "canvas-gas"@, "#80d050"@, "#0a1400"@),
        ("critical"@, "canvas-critical"@, "#e05050"@, "#280000"@),
        ("__total__"@, "canvas-total"@, "#c97a1a"@, "#1a0d00"@),
    ]
}

pub open spec fn sparkline_view(s: Sparkline) -> (Seq<char>, Seq<char>, Seq<char>, Seq<char>) {
    (s.topic@, s.canvas_id@, s.bar_color@, s.bg_color@)
}

/// The charts to redraw on every tick, in drawing order.
pub fn redraw_all() -> (r: Vec<Sparkline>)
    ensures
        r@.map_values(|s: Sparkline| sparkline_view(s)) == sparkline_specs(),
{
    let mut r: Vec<Sparkline> = Vec::new();
    r.push(Sparkline { topic: "liquid", canvas_id: "canvas-liquid", bar_color: "#60b0e8", bg_color: "#0a1a28" });
    r.push(Sparkline { topic: "solid", canvas_id: "canvas-solid", bar_color: "#d8a040", bg_color: "#1a1000" });
    r.push(Sparkline { topic: "gas", canvas_id: "canvas-gas", bar_color: "#80d050", bg_color: "#0a1400" });
    r.push(Sparkline { topic: "critical", canvas_id: "canvas-critical", bar_color: "#e05050", bg_color: "#280000" });
    r.push(Sparkline { topic: "__total__", canvas_id: "canvas-total", bar_color: "#c97a1a", bg_color: "#1a0d00" });
    assert(r@.map_values(|s: Sparkline| sparkline_view(s)) =~= sparkline_specs());
    r
}

} // verus!
