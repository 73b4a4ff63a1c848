use vstd::prelude::*;
use vstd::string::*;

use crate::objective::{Objective, ObjectiveView};

verus! {

/// The windows over which an error ratio is recorded directly.
pub open spec fn windows() -> Seq<Seq<char>> {
    seq!["5m"@, "30m"@, "1h"@, "2h"@, "6h"@, "1d"@, "3d"@]
}

/// One recording rule as it appears in a rule group.
pub open spec fn recording_rule(record: Seq<char>, expr: Seq<char>, labels: Seq<char>) -> Seq<
    char,
> {
    "  - record: "@ + record + "\n    expr: "@ + expr + "\n    "@ + labels + "\n"@
}

/// One alert rule as it appears in a rule group.
pub open spec fn alert_rule(
    alert: Seq<char>,
    expr: Seq<char>,
    severity: Seq<char>,
    summary: Seq<char>,
    title: Seq<char>,
) -> Seq<char> {
    "  - alert: "@ + alert + "\n    expr: "@ + expr + "\n    labels:\n      severity: "@ + severity
        + "\n    annotations:\n      summary: "@ + summary + "\n      title: "@ + title + "\n"@
}

/// The first two lines of a rule group.
pub open spec fn group_header(name: Seq<char>) -> Seq<char> {
    "- name: "@ + name + "\n  rules:\n"@
}

impl ObjectiveView {
    /// Error ratio over `window`, recorded under a name that ends in the window.
    pub open spec fn window_rule(self, window: Seq<char>) -> Seq<char> {
        recording_rule(
            "slo:sli_error:ratio_rate"@ + window,
            self.error_query(window) + " / "@ + self.total_query(window),
            self.recording_labels() + "\n      window: "@ + window,
        )
    }

    /// The window rules for each of `ws`, in order.
    pub open spec fn window_rules(self, ws: Seq<Seq<char>>) -> Seq<char>
        decreases ws.len(),
    {
        if ws.len() == 0 {
            Seq::empty()
        } else {
            self.window_rules(ws.drop_last()) + self.window_rule(ws.last())
        }
    }

    /// Expression of the 30-day error ratio: the average of the 5-minute ratio over 30 days.
    pub open spec fn period_ratio_expr(self) -> Seq<char> {
        "|\n      sum_over_time(slo:sli_error:ratio_rate5m"@ + self.filter_labels()
            + "[30d])\n      / ignoring(window)\n      count_over_time(slo:sli_error:ratio_rate5m"@
            + self.filter_labels() + "[30d])"@
    }

    pub open spec fn period_ratio_rule(self) -> Seq<char> {
        recording_rule(
            "slo:sli_error:ratio_rate30d"@,
            self.period_ratio_expr(),
            self.recording_labels() + "\n      window: 30d"@,
        )
    }

    pub open spec fn error_ratio_group_name(self) -> Seq<char> {
        "autometrics-slo-sli-recordings-"@ + self.id() + "-"@ + self.slo_type()
    }

    /// The rule group of error ratios: one rule per window, then the 30-day rule.
    #[verifier::opaque]
    pub open spec fn error_ratio_recording_rules(self) -> Seq<char> {
        group_header(self.error_ratio_group_name()) + self.window_rules(windows())
            + self.period_ratio_rule()
    }

    /// `numerator` divided by the error budget of the same objective.
    pub open spec fn burn_rate_expr(self, numerator: Seq<char>) -> Seq<char> {
        numerator + self.filter_labels()
            + " / on(function, module, objective) group_left slo:error_budget:ratio"@
            + self.filter_labels()
    }

    pub open spec fn meta_group_name(self) -> Seq<char> {
        "autometrics-slo-meta-recordings-"@ + self.id() + "-"@ + self.slo_type()
    }

    /// The rule group of objective, error budget, period and burn rates.
    #[verifier::opaque]
    pub open spec fn meta_recording_rules(self) -> Seq<char> {
        let labels = self.recording_labels();
        group_header(self.meta_group_name()) + recording_rule(
            "slo:objective:ratio"@,
            "vector("@ + self.success_rate() + ")"@,
            labels,
        ) + recording_rule(
            "slo:error_budget:ratio"@,
            "vector(1 - "@ + self.success_rate() + ")"@,
            labels,
        ) + recording_rule("slo:time_period:days"@, "vector(30)"@, labels) + recording_rule(
            "slo:current_burn_rate:ratio"@,
            self.burn_rate_expr("slo:sli_error:ratio_rate5m"@),
            labels,
        ) + recording_rule(
            "slo:period_burn_rate:ratio"@,
            self.burn_rate_expr("slo:sli_error:ratio_rate30d"@),
            labels,
        ) + recording_rule(
            "slo:period_error_budget_remaining:ratio"@,
            "1 - slo:period_burn_rate:ratio"@ + self.filter_labels(),
            labels,
        )
    }

    /// The fraction of calls that may fail: `(1 - target)`.
    pub open spec fn error_rate(self) -> Seq<char> {
        "(1 - "@ + self.success_rate() + ")"@
    }

    /// Both the `short` and the `long` window ratio exceed `factor` times the error rate.
    pub open spec fn burn_condition(self, short: Seq<char>, long: Seq<char>, factor: Seq<char>) -> Seq<
        char,
    > {
        "(\n        max(slo:sli_error:ratio_rate"@ + short + self.filter_labels() + " > ("@ + factor
            + " * "@ + self.error_rate() + "))\n        and\n        max(slo:sli_error:ratio_rate"@
            + long + self.filter_labels() + " > ("@ + factor + " * "@ + self.error_rate()
            + "))\n      )"@
    }

    /// Page tier: 5m and 1h above 14.4x, or 30m and 6h above 6x.
    pub open spec fn page_expr(self) -> Seq<char> {
        "|\n      "@ + self.burn_condition("5m"@, "1h"@, "14.4"@) + "\n      or\n      "@
            + self.burn_condition("30m"@, "6h"@, "6"@)
    }

    /// Ticket tier: 2h and 1d above 3x, or 6h and 3d above 1x.
    pub open spec fn ticket_expr(self) -> Seq<char> {
        "|\n      "@ + self.burn_condition("2h"@, "1d"@, "3"@) + "\n      or\n      "@
            + self.burn_condition("6h"@, "3d"@, "1"@)
    }

    pub open spec fn alert_name(self) -> Seq<char> {
        "HighErrorRate-"@ + self.id() + "-"@ + self.slo_type()
    }

    pub open spec fn alert_summary(self) -> Seq<char> {
        "High error rate for function '"@ + self.function() + "' in module '"@ + self.module()
            + "'"@
    }

    pub open spec fn alert_title(self, severity: Seq<char>) -> Seq<char> {
        "("@ + severity + ") '"@ + self.function() + "' in module '"@ + self.module()
            + "' SLO error budget burn rate is too fast."@
    }

    pub open spec fn alert_group_name(self) -> Seq<char> {
        "autometrics-slo-alerts-"@ + self.id() + "-"@ + self.slo_type()
    }

    /// The rule group of the two alerts, page then ticket, which share one name.
    #[verifier::opaque]
    pub open spec fn alert_rules(self) -> Seq<char> {
        group_header(self.alert_group_name()) + alert_rule(
            self.alert_name(),
            self.page_expr(),
            "page"@,
            self.alert_summary(),
            self.alert_title("page"@),
        ) + alert_rule(
            self.alert_name(),
            self.ticket_expr(),
            "ticket"@,
            self.alert_summary(),
            self.alert_title("ticket"@),
        )
    }
}

/// Renders one recording rule.
pub fn render_recording_rule(record: &str, expr: &str, labels: &str) -> (r: String)
    ensures
        r@ == recording_rule(record@, expr@, labels@),
{
    let mut r = String::from_str("  - record: ");
    r.append(record);
    r.append("\n    expr: ");
    r.append(expr);
    r.append("\n    ");
    r.append(labels);
    r.append("\n");
    r
}

/// Renders one alert rule.
pub fn render_alert_rule(
    alert: &str,
    expr: &str,
    severity: &str,
    summary: &str,
    title: &str,
) -> (r: String)
    ensures
        r@ == alert_rule(alert@, expr@, severity@, summary@, title@),
{
    let mut r = String::from_str("  - alert: ");
    r.append(alert);
    r.append("\n    expr: ");
    r.append(expr);
    r.append("\n    labels:\n      severity: ");
    r.append(severity);
    r.append("\n    annotations:\n      summary: ");
    r.append(summary);
    r.append("\n      title: ");
    r.append(title);
    r.append("\n");
    r
}

/// Starts a rule group with its name and an empty rule list.
pub fn render_group_header(name: &str) -> (r: String)
    ensures
        r@ == group_header(name@),
{
    let mut r = String::from_str("- name: ");
    r.append(name);
    r.append("\n  rules:\n");
    r
}

/// Joins `prefix`, the objective's id and its kind into a group or alert name.
fn tagged_name(o: &Objective, prefix: &str) -> (r: String)
    ensures
        r@ == prefix@ + o@.id() + "-"@ + o@.slo_type(),
{
    let mut r = String::from_str(prefix);
    r.append(o.id().as_str());
    r.append("-");
    r.append(o.slo_type());
    r
}

impl Objective {
    pub fn window_rule(&self, window: &str) -> (r: String)
        ensures
            r@ == self@.window_rule(window@),
    {
        let mut record = String::from_str("slo:sli_error:ratio_rate");
        record.append(window);
        let mut expr = self.error_query(window);
        expr.append(" / ");
        expr.append(self.total_query(window).as_str());
        let mut labels = self.recording_labels();
        labels.append("\n      window: ");
        labels.append(window);
        render_recording_rule(record.as_str(), expr.as_str(), labels.as_str())
    }

    /// Recording rules for the error ratio at each window, and over the 30-day period.
    pub fn error_ratio_recording_rules(&self) -> (r: String)
        ensures
            r@ == self@.error_ratio_recording_rules(),
    {
        reveal(ObjectiveView::error_ratio_recording_rules);
        let name = tagged_name(self, "autometrics-slo-sli-recordings-");
        let mut rules = render_group_header(name.as_str());
        let ghost header = rules@;
        let names: [&str; 7] = ["5m", "30m", "1h", "2h", "6h", "1d", "3d"];
        assert(names@.map_values(|w: &str| w@) =~= windows());
        let mut i: usize = 0;
        while i < 7
            invariant
                i <= 7,
                names@.map_values(|w: &str| w@) == windows(),
                header == group_header(self@.error_ratio_group_name()),
                rules@ == header + self@.window_rules(windows().take(i as int)),
            decreases 7 - i,
        {
            let window = names[i];
            assert(window@ == windows()[i as int]);
            let rule = self.window_rule(window);
            rules.append(rule.as_str());
            assert(windows().take(i + 1).drop_last() =~= windows().take(i as int));
            assert(rules@ =~= header + self@.window_rules(windows().take(i + 1)));
            i = i + 1;
        }
        assert(windows().take(7) =~= windows());
        let filter_labels = self.filter_labels();
        let mut expr = String::from_str("|\n      sum_over_time(slo:sli_error:ratio_rate5m");
        expr.append(filter_labels.as_str());
        expr.append("[30d])\n      / ignoring(window)\n      count_over_time(slo:sli_error:ratio_rate5m");
        expr.append(filter_labels.as_str());
        expr.append("[30d])");
        let mut labels = self.recording_labels();
        labels.append("\n      window: 30d");
        let last = render_recording_rule("slo:sli_error:ratio_rate30d", expr.as_str(), labels.as_str());
        rules.append(last.as_str());
        rules
    }

    /// `numerator` divided by the error budget of the same objective.
    fn burn_rate_expr(&self, numerator: &str, filter_labels: &str) -> (r: String)
        requires
            filter_labels@ == self@.filter_labels(),
        ensures
            r@ == self@.burn_rate_expr(numerator@),
    {
        let mut r = String::from_str(numerator);
        r.append(filter_labels);
        r.append(" / on(function, module, objective) group_left slo:error_budget:ratio");
        r.append(filter_labels);
        r
    }

    /// Recording rules for the objective, the error budget, the period and the burn rates.
    pub fn meta_recording_rules(&self) -> (r: String)
        ensures
            r@ == self@.meta_recording_rules(),
    {
        reveal(ObjectiveView::meta_recording_rules);
        let labels = self.recording_labels();
        let filter_labels = self.filter_labels();
        let success_rate = self.success_rate();
        let name = tagged_name(self, "autometrics-slo-meta-recordings-");
        let mut rules = render_group_header(name.as_str());

        let mut expr = String::from_str("vector(");
        expr.append(success_rate);
        expr.append(")");
        let rule = render_recording_rule("slo:objective:ratio", expr.as_str(), labels.as_str());
        rules.append(rule.as_str());

        let mut expr = String::from_str("vector(1 - ");
        expr.append(success_rate);
        expr.append(")");
        let rule = render_recording_rule("slo:error_budget:ratio", expr.as_str(), labels.as_str());
        rules.append(rule.as_str());

        let rule = render_recording_rule("slo:time_period:days", "vector(30)", labels.as_str());
        rules.append(rule.as_str());

        let expr = self.burn_rate_expr("slo:sli_error:ratio_rate5m", filter_labels.as_str());
        let rule = render_recording_rule(
            "slo:current_burn_rate:ratio",
            expr.as_str(),
            labels.as_str(),
        );
        rules.append(rule.as_str());

        let expr = self.burn_rate_expr("slo:sli_error:ratio_rate30d", filter_labels.as_str());
        let rule = render_recording_rule("slo:period_burn_rate:ratio", expr.as_str(), labels.as_str());
        rules.append(rule.as_str());

        let mut expr = String::from_str("1 - slo:period_burn_rate:ratio");
        expr.append(filter_labels.as_str());
        let rule = render_recording_rule(
            "slo:period_error_budget_remaining:ratio",
            expr.as_str(),
            labels.as_str(),
        );
        rules.append(rule.as_str());
        rules
    }

    /// Both the `short` and the `long` window ratio exceed `factor` times the error rate.
    fn burn_condition(
        &self,
        short: &str,
        long: &str,
        factor: &str,
        filter_labels: &str,
        error_rate: &str,
    ) -> (r: String)
        requires
            filter_labels@ == self@.filter_labels(),
            error_rate@ == self@.error_rate(),
        ensures
            r@ == self@.burn_condition(short@, long@, factor@),
    {
        let mut r = String::from_str("(\n        max(slo:sli_error:ratio_rate");
        r.append(short);
        r.append(filter_labels);
        r.append(" > (");
        r.append(factor);
        r.append(" * ");
        r.append(error_rate);
        r.append("))\n        and\n        max(slo:sli_error:ratio_rate");
        r.append(long);
        r.append(filter_labels);
        r.append(" > (");
        r.append(factor);
        r.append(" * ");
        r.append(error_rate);
        r.append("))\n      )");
        r
    }

    fn alert_title(&self, severity: &str) -> (r: String)
        ensures
            r@ == self@.alert_title(severity@),
    {
        let mut r = String::from_str("(");
        r.append(severity);
        r.append(") '");
        r.append(self.function());
        r.append("' in module '");
        r.append(self.module());
        r.append("' SLO error budget burn rate is too fast.");
        r
    }

    /// The page and the ticket alert of this objective.
    pub fn alert_rules(&self) -> (r: String)
        ensures
            r@ == self@.alert_rules(),
    {
        reveal(ObjectiveView::alert_rules);
        let filter_labels = self.filter_labels();
        let mut error_rate = String::from_str("(1 - ");
        error_rate.append(self.success_rate());
        error_rate.append(")");
        let name = tagged_name(self, "autometrics-slo-alerts-");
        let alert = tagged_name(self, "HighErrorRate-");
        let mut summary = String::from_str("High error rate for function '");
        summary.append(self.function());
        summary.append("' in module '");
        summary.append(self.module());
        summary.append("'");
        let mut rules = render_group_header(name.as_str());

        let mut expr = String::from_str("|\n      ");
        let cond = self.burn_condition(
            "5m",
            "1h",
            "14.4",
            filter_labels.as_str(),
            error_rate.as_str(),
        );
        expr.append(cond.as_str());
        expr.append("\n      or\n      ");
        let cond = self.burn_condition(
            "30m",
            "6h",
            "6",
            filter_labels.as_str(),
            error_rate.as_str(),
        );
        expr.append(cond.as_str());
        let title = self.alert_title("page");
        let rule = render_alert_rule(
            alert.as_str(),
            expr.as_str(),
            "page",
            summary.as_str(),
            title.as_str(),
        );
        rules.append(rule.as_str());

        let mut expr = String::from_str("|\n      ");
        let cond = self.burn_condition(
            "2h",
            "1d",
            "3",
            filter_labels.as_str(),
            error_rate.as_str(),
        );
        expr.append(cond.as_str());
        expr.append("\n      or\n      ");
        let cond = self.burn_condition(
            "6h",
            "3d",
            "1",
            filter_labels.as_str(),
            error_rate.as_str(),
        );
        expr.append(cond.as_str());
        let title = self.alert_title("ticket");
        let rule = render_alert_rule(
            alert.as_str(),
            expr.as_str(),
            "ticket",
            summary.as_str(),
            title.as_str(),
        );
        rules.append(rule.as_str());
        rules
    }
}

proof fn lemma_window_rules_append(o: ObjectiveView, a: Seq<Seq<char>>, b: Seq<Seq<char>>)
    ensures
        o.window_rules(a + b) == o.window_rules(a) + o.window_rules(b),
    decreases b.len(),
{
    if b.len() == 0 {
        assert(a + b =~= a);
        assert(o.window_rules(a) + o.window_rules(b) =~= o.window_rules(a));
    } else {
        lemma_window_rules_append(o, a, b.drop_last());
        assert((a + b).drop_last() =~= a + b.drop_last());
        assert(o.window_rules(a + b) =~= o.window_rules(a) + o.window_rules(b));
    }
}

/// For every objective and every window, the error-ratio group holds a rule named
/// `slo:sli_error:ratio_rate{window}` whose expression divides the error query by the
/// total query over that window; the result is the text around that rule.
pub proof fn lemma_window_rule_recorded(o: ObjectiveView, i: int) -> (around: (Seq<char>, Seq<char>))
    requires
        0 <= i < windows().len(),
    ensures
        o.error_ratio_recording_rules() == around.0 + recording_rule(
            "slo:sli_error:ratio_rate"@ + windows()[i],
            o.error_query(windows()[i]) + " / "@ + o.total_query(windows()[i]),
            o.recording_labels() + "\n      window: "@ + windows()[i],
        ) + around.1,
{
    reveal(ObjectiveView::error_ratio_recording_rules);
    let ws = windows();
    let a = ws.take(i);
    let b = ws.skip(i + 1);
    assert(ws =~= a.push(ws[i]) + b);
    lemma_window_rules_append(o, a.push(ws[i]), b);
    assert(a.push(ws[i]).drop_last() =~= a);
    let before = group_header(o.error_ratio_group_name()) + o.window_rules(a);
    let after = o.window_rules(b) + o.period_ratio_rule();
    assert(o.error_ratio_recording_rules() =~= before + o.window_rule(ws[i]) + after);
    (before, after)
}

/// The error-ratio group ends with the single 30-day rule, which averages the 5-minute
/// ratio over 30 days; no window rule before it carries the 30-day name.
pub proof fn lemma_period_rule(o: ObjectiveView)
    ensures
        o.error_ratio_recording_rules() == group_header(o.error_ratio_group_name())
            + o.window_rules(windows()) + recording_rule(
            "slo:sli_error:ratio_rate30d"@,
            "|\n      sum_over_time(slo:sli_error:ratio_rate5m"@ + o.filter_labels()
                + "[30d])\n      / ignoring(window)\n      count_over_time(slo:sli_error:ratio_rate5m"@
                + o.filter_labels() + "[30d])"@,
            o.recording_labels() + "\n      window: 30d"@,
        ),
        forall|i: int|
            0 <= i < windows().len() ==> "slo:sli_error:ratio_rate"@ + #[trigger] windows()[i]
                != "slo:sli_error:ratio_rate30d"@,
{
    reveal(ObjectiveView::error_ratio_recording_rules);
    reveal_strlit("slo:sli_error:ratio_rate");
    reveal_strlit("slo:sli_error:ratio_rate30d");
    reveal_strlit("5m");
    reveal_strlit("30m");
    reveal_strlit("1h");
    reveal_strlit("2h");
    reveal_strlit("6h");
    reveal_strlit("1d");
    reveal_strlit("3d");
    assert forall|i: int| 0 <= i < windows().len() implies "slo:sli_error:ratio_rate"@
        + #[trigger] windows()[i] != "slo:sli_error:ratio_rate30d"@ by {
        let name = "slo:sli_error:ratio_rate"@ + windows()[i];
        if i == 1 {
            assert(name[26] == 'm');
        } else {
            assert(name.len() == 26);
        }
    }
}

/// For a target `r`, the meta group opens with `slo:objective:ratio` recorded as
/// `vector(r)` and `slo:error_budget:ratio` as `vector(1 - r)`; the result is the rest.
pub proof fn lemma_objective_and_budget(o: ObjectiveView) -> (rest: Seq<char>)
    ensures
        o.meta_recording_rules() == group_header(o.meta_group_name()) + recording_rule(
            "slo:objective:ratio"@,
            "vector("@ + o.success_rate() + ")"@,
            o.recording_labels(),
        ) + recording_rule(
            "slo:error_budget:ratio"@,
            "vector(1 - "@ + o.success_rate() + ")"@,
            o.recording_labels(),
        ) + rest,
{
    reveal(ObjectiveView::meta_recording_rules);
    let labels = o.recording_labels();
    let start = group_header(o.meta_group_name()) + recording_rule(
        "slo:objective:ratio"@,
        "vector("@ + o.success_rate() + ")"@,
        labels,
    ) + recording_rule("slo:error_budget:ratio"@, "vector(1 - "@ + o.success_rate() + ")"@, labels);
    let rest = recording_rule("slo:time_period:days"@, "vector(30)"@, labels) + recording_rule(
        "slo:current_burn_rate:ratio"@,
        o.burn_rate_expr("slo:sli_error:ratio_rate5m"@),
        labels,
    ) + recording_rule(
        "slo:period_burn_rate:ratio"@,
        o.burn_rate_expr("slo:sli_error:ratio_rate30d"@),
        labels,
    ) + recording_rule(
        "slo:period_error_budget_remaining:ratio"@,
        "1 - slo:period_burn_rate:ratio"@ + o.filter_labels(),
        labels,
    );
    assert(o.meta_recording_rules() =~= start + rest);
    rest
}

/// The alert group holds two alerts under the same name, told apart by severity: the
/// page tier first, then the ticket tier.
pub proof fn lemma_alert_tiers(o: ObjectiveView)
    ensures
        o.alert_rules() == group_header(o.alert_group_name()) + alert_rule(
            "HighErrorRate-"@ + o.id() + "-"@ + o.slo_type(),
            o.page_expr(),
            "page"@,
            o.alert_summary(),
            o.alert_title("page"@),
        ) + alert_rule(
            "HighErrorRate-"@ + o.id() + "-"@ + o.slo_type(),
            o.ticket_expr(),
            "ticket"@,
            o.alert_summary(),
            o.alert_title("ticket"@),
        ),
{
    reveal(ObjectiveView::alert_rules);
}

} // verus!
