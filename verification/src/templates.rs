//! The rendering bridge: a finalized configuration together with its
//! target element id and dimensions, rendered into an embeddable script
//! fragment, and a minimal page around such fragments. The emitted text is
//! deterministic and stated exactly.

use vstd::prelude::*;
use crate::axis_typing::AxisKindMarker;
use crate::common::Size;
use crate::json::json_text;
use crate::options::EChartOptions;
use crate::wire::options_wire;

verus! {

/// The script fragment for one chart: a mount element followed by the
/// initialization script that applies the configuration.
pub open spec fn script_text(
    id: Seq<char>,
    width: Seq<char>,
    height: Seq<char>,
    config: Seq<char>,
) -> Seq<char> {
    "<div id=\""@ + id + "\" style=\"width:"@ + width + ";height:"@ + height + ";\"></div>\n<script type=\"text/javascript\">echarts.init(document.getElementById(\""@
        + id + "\")).setOption("@ + config + ");</script>\n"@
}

/// A render-ready chart: the target element id, the dimensions, and the
/// finalized configuration.
#[derive(Debug)]
pub struct ScriptTemplate<X: AxisKindMarker, Y: AxisKindMarker> {
    pub chart_target_id: String,
    pub width: Size,
    pub height: Size,
    pub options: EChartOptions<X, Y>,
}

impl<X: AxisKindMarker, Y: AxisKindMarker> ScriptTemplate<X, Y> {
    pub fn new(chart_target_id: String, width: Size, height: Size, options: EChartOptions<X, Y>)
        -> (r: Self)
        ensures
            r == (ScriptTemplate { chart_target_id, width, height, options }),
    {
        Self { chart_target_id, width, height, options }
    }

    /// Renders the chart into its script fragment; the result is exactly
    /// the fragment that the configuration's wire document prescribes.
    pub fn render_once(self) -> (r: String)
        ensures
            r@ == script_text(
                self.chart_target_id@,
                self.width.spec_text(),
                self.height.spec_text(),
                json_text(options_wire(self.options)),
            ),
    {
        let ScriptTemplate { chart_target_id, width, height, options } = self;
        let config = options.to_json_text();
        let mut r = String::new();
        r.append("<div id=\"");
        r.append(chart_target_id.as_str());
        r.append("\" style=\"width:");
        let w = width.to_string();
        r.append(w.as_str());
        r.append(";height:");
        let h = height.to_string();
        r.append(h.as_str());
        r.append(";\"></div>\n<script type=\"text/javascript\">echarts.init(document.getElementById(\"");
        r.append(chart_target_id.as_str());
        r.append("\")).setOption(");
        r.append(config.as_str());
        r.append(");</script>\n");
        proof {
            assert(r@ =~= script_text(
                chart_target_id@,
                width.spec_text(),
                height.spec_text(),
                json_text(options_wire(options)),
            ));
        }
        r
    }
}

/// The text of a minimal page holding a title and a body.
pub open spec fn page_text(title: Seq<char>, body: Seq<char>) -> Seq<char> {
    "<!DOCTYPE html>\n<html><head><title>"@ + title + "</title></head><body>"@ + body
        + "</body></html>\n"@
}

/// A minimal page around rendered chart fragments.
#[derive(Debug, Clone, Copy)]
pub struct OnePage<'a> {
    pub title: &'a str,
    pub body: &'a str,
}

impl<'a> OnePage<'a> {
    pub fn new(title: &'a str, body: &'a str) -> (r: Self)
        ensures
            r == (OnePage { title, body }),
    {
        Self { title, body }
    }

    /// Renders the page; the result is exactly the page text.
    pub fn render_once(self) -> (r: String)
        ensures
            r@ == page_text(self.title@, self.body@),
    {
        let mut r = String::new();
        r.append("<!DOCTYPE html>\n<html><head><title>");
        r.append(self.title);
        r.append("</title></head><body>");
        r.append(self.body);
        r.append("</body></html>\n");
        proof {
            assert(r@ =~= page_text(self.title@, self.body@));
        }
        r
    }
}

} // verus!
