use autometrics::{generate_alerts, Alert, Objective};

const HEADER: &str =
    "---\n# Prometheus recording and alerting rules generated by autometrics-rs\n\ngroups:\n";

fn alert(
    function: &str,
    module: &str,
    success_rate: Option<&str>,
    latency: Option<(&str, &str)>,
) -> Alert {
    Alert {
        function: function.to_string(),
        module: module.to_string(),
        success_rate: success_rate.map(|s| s.to_string()),
        latency: latency.map(|(t, o)| (t.to_string(), o.to_string())),
    }
}

fn group_names(doc: &str) -> Vec<String> {
    doc.lines()
        .filter_map(|l| l.strip_prefix("- name: "))
        .map(|l| l.to_string())
        .collect()
}

#[test]
fn empty_input_gives_header_only() {
    assert_eq!(generate_alerts(&[]), HEADER);
}

#[test]
fn checkout_scenario() {
    let doc = generate_alerts(&[alert("checkout", "orders", Some("0.995"), None)]);
    assert!(doc.contains("  - record: slo:objective:ratio\n    expr: vector(0.995)\n"));
    assert!(doc.contains("  - record: slo:error_budget:ratio\n    expr: vector(1 - 0.995)\n"));
    assert_eq!(
        doc.matches("  - alert: HighErrorRate-orders-checkout-success-rate\n").count(),
        2
    );
    assert_eq!(doc.matches("      severity: page\n").count(), 1);
    assert_eq!(doc.matches("      severity: ticket\n").count(), 1);
    let page = doc.find("severity: page").unwrap();
    let ticket = doc.find("severity: ticket").unwrap();
    assert!(page < ticket);
}

#[test]
fn success_rate_only_gives_three_groups() {
    let doc = generate_alerts(&[alert("checkout", "orders", Some("0.995"), None)]);
    assert_eq!(
        group_names(&doc),
        vec![
            "autometrics-slo-sli-recordings-orders-checkout-success-rate",
            "autometrics-slo-meta-recordings-orders-checkout-success-rate",
            "autometrics-slo-alerts-orders-checkout-success-rate",
        ]
    );
    assert!(!doc.contains("objective: latency"));
}

#[test]
fn both_targets_give_six_groups_success_rate_first() {
    let doc = generate_alerts(&[alert(
        "checkout",
        "orders",
        Some("0.995"),
        Some(("0.25", "0.99")),
    )]);
    assert_eq!(
        group_names(&doc),
        vec![
            "autometrics-slo-sli-recordings-orders-checkout-success-rate",
            "autometrics-slo-meta-recordings-orders-checkout-success-rate",
            "autometrics-slo-alerts-orders-checkout-success-rate",
            "autometrics-slo-sli-recordings-orders-checkout-latency",
            "autometrics-slo-meta-recordings-orders-checkout-latency",
            "autometrics-slo-alerts-orders-checkout-latency",
        ]
    );
    assert!(doc.contains("expr: vector(0.99)\n"));
    assert!(doc.contains("(14.4 * (1 - 0.99))"));
}

#[test]
fn every_window_has_a_ratio_rule() {
    let doc = generate_alerts(&[alert("checkout", "orders", Some("0.995"), None)]);
    for window in ["5m", "30m", "1h", "2h", "6h", "1d", "3d"] {
        let rule = format!(
            "  - record: slo:sli_error:ratio_rate{window}\n    expr: \
             sum(rate(function_calls_count{{function=\"checkout\",module=\"orders\",result=\"error\"}}[{window}])) \
             / sum(rate(function_calls_count{{function=\"checkout\",module=\"orders\"}}[{window}]))\n    \
             labels:\n      objective: success-rate\n      function: checkout\n      module: orders\n      \
             window: {window}\n"
        );
        assert_eq!(doc.matches(rule.as_str()).count(), 1, "window {window}");
    }
}

#[test]
fn latency_window_rule_counts_slow_calls() {
    let o = Objective::Latency {
        function: "f".to_string(),
        module: "m".to_string(),
        latency_threshold: "0.25".to_string(),
        latency_objective: "0.99".to_string(),
    };
    assert_eq!(
        o.window_rule("1h"),
        "  - record: slo:sli_error:ratio_rate1h\n    expr: \
         (sum(rate(function_calls_duration_bucket{function=\"f\",module=\"m\"}[1h])) \
         - sum(rate(function_calls_duration_bucket{le=\"0.25\",function=\"f\",module=\"m\"}[1h]))) \
         / sum(rate(function_calls_duration_bucket{function=\"f\",module=\"m\"}[1h]))\n    \
         labels:\n      objective: latency\n      function: f\n      module: m\n      window: 1h\n"
    );
}

#[test]
fn one_period_rule_per_objective() {
    let doc = generate_alerts(&[alert("f", "m", Some("0.9"), Some(("0.1", "0.95")))]);
    assert_eq!(doc.matches("record: slo:sli_error:ratio_rate30d\n").count(), 2);
    assert!(doc.contains(
        "  - record: slo:sli_error:ratio_rate30d\n    expr: |\n      \
         sum_over_time(slo:sli_error:ratio_rate5m{function=\"f\",module=\"m\",objective=\"latency\"}[30d])\n      \
         / ignoring(window)\n      \
         count_over_time(slo:sli_error:ratio_rate5m{function=\"f\",module=\"m\",objective=\"latency\"}[30d])\n    \
         labels:\n      objective: latency\n      function: f\n      module: m\n      window: 30d\n"
    ));
}

#[test]
fn meta_group_exact() {
    let o = Objective::SuccessRate {
        function: "f".to_string(),
        module: "m".to_string(),
        success_rate: "0.9".to_string(),
    };
    let labels = "    labels:\n      objective: success-rate\n      function: f\n      module: m\n";
    let filter = "{function=\"f\",module=\"m\",objective=\"success-rate\"}";
    let expected = format!(
        "- name: autometrics-slo-meta-recordings-m-f-success-rate\n  rules:\n\
         \x20 - record: slo:objective:ratio\n    expr: vector(0.9)\n{labels}\
         \x20 - record: slo:error_budget:ratio\n    expr: vector(1 - 0.9)\n{labels}\
         \x20 - record: slo:time_period:days\n    expr: vector(30)\n{labels}\
         \x20 - record: slo:current_burn_rate:ratio\n    expr: slo:sli_error:ratio_rate5m{filter} \
         / on(function, module, objective) group_left slo:error_budget:ratio{filter}\n{labels}\
         \x20 - record: slo:period_burn_rate:ratio\n    expr: slo:sli_error:ratio_rate30d{filter} \
         / on(function, module, objective) group_left slo:error_budget:ratio{filter}\n{labels}\
         \x20 - record: slo:period_error_budget_remaining:ratio\n    expr: 1 - slo:period_burn_rate:ratio{filter}\n{labels}"
    );
    assert_eq!(o.meta_recording_rules(), expected);
}

#[test]
fn alert_group_exact() {
    let o = Objective::SuccessRate {
        function: "f".to_string(),
        module: "m".to_string(),
        success_rate: "0.9".to_string(),
    };
    let l = "{function=\"f\",module=\"m\",objective=\"success-rate\"}";
    let expected = format!(
        "- name: autometrics-slo-alerts-m-f-success-rate
  rules:
  - alert: HighErrorRate-m-f-success-rate
    expr: |
      (
        max(slo:sli_error:ratio_rate5m{l} > (14.4 * (1 - 0.9)))
        and
        max(slo:sli_error:ratio_rate1h{l} > (14.4 * (1 - 0.9)))
      )
      or
      (
        max(slo:sli_error:ratio_rate30m{l} > (6 * (1 - 0.9)))
        and
        max(slo:sli_error:ratio_rate6h{l} > (6 * (1 - 0.9)))
      )
    labels:
      severity: page
    annotations:
      summary: High error rate for function 'f' in module 'm'
      title: (page) 'f' in module 'm' SLO error budget burn rate is too fast.
  - alert: HighErrorRate-m-f-success-rate
    expr: |
      (
        max(slo:sli_error:ratio_rate2h{l} > (3 * (1 - 0.9)))
        and
        max(slo:sli_error:ratio_rate1d{l} > (3 * (1 - 0.9)))
      )
      or
      (
        max(slo:sli_error:ratio_rate6h{l} > (1 * (1 - 0.9)))
        and
        max(slo:sli_error:ratio_rate3d{l} > (1 * (1 - 0.9)))
      )
    labels:
      severity: ticket
    annotations:
      summary: High error rate for function 'f' in module 'm'
      title: (ticket) 'f' in module 'm' SLO error budget burn rate is too fast.\n"
    );
    assert_eq!(o.alert_rules(), expected);
}

#[test]
fn groups_are_joined_by_one_line_break() {
    let a = alert("f", "m", Some("0.9"), None);
    let o = &a.to_objectives()[0];
    let expected = format!(
        "{HEADER}{}\n{}\n{}",
        o.error_ratio_recording_rules(),
        o.meta_recording_rules(),
        o.alert_rules()
    );
    assert_eq!(generate_alerts(&[a]), expected);
}

#[test]
fn generating_twice_gives_identical_text() {
    let alerts = [
        alert("checkout", "orders", Some("0.995"), Some(("0.5", "0.99"))),
        alert("login", "auth", Some("0.9"), None),
    ];
    assert_eq!(generate_alerts(&alerts), generate_alerts(&alerts));
}

#[test]
fn output_follows_input_order() {
    let first = alert("b", "z", None, Some(("0.1", "0.9")));
    let second = alert("a", "y", Some("0.99"), None);
    let doc = generate_alerts(&[first, second]);
    assert_eq!(
        group_names(&doc),
        vec![
            "autometrics-slo-sli-recordings-z-b-latency",
            "autometrics-slo-meta-recordings-z-b-latency",
            "autometrics-slo-alerts-z-b-latency",
            "autometrics-slo-sli-recordings-y-a-success-rate",
            "autometrics-slo-meta-recordings-y-a-success-rate",
            "autometrics-slo-alerts-y-a-success-rate",
        ]
    );
}

#[test]
fn operation_without_targets_is_absent() {
    let with = generate_alerts(&[
        alert("a", "m", Some("0.9"), None),
        alert("ghost", "hidden", None, None),
        alert("b", "m", None, Some(("1", "0.9"))),
    ]);
    let without = generate_alerts(&[
        alert("a", "m", Some("0.9"), None),
        alert("b", "m", None, Some(("1", "0.9"))),
    ]);
    assert_eq!(with, without);
    assert!(!with.contains("ghost"));
    assert_eq!(generate_alerts(&[alert("ghost", "hidden", None, None)]), HEADER);
}

#[test]
fn objectives_in_field_order() {
    let a = alert("f", "m", Some("0.9"), Some(("0.2", "0.8")));
    let objectives = a.to_objectives();
    assert_eq!(objectives.len(), 2);
    assert_eq!(objectives[0].slo_type(), "success-rate");
    assert_eq!(objectives[0].success_rate(), "0.9");
    assert_eq!(objectives[1].slo_type(), "latency");
    assert_eq!(objectives[1].success_rate(), "0.8");
    assert_eq!(objectives[1].id(), "m-f");
    assert!(alert("f", "m", None, None).to_objectives().is_empty());
}
