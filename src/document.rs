use vstd::prelude::*;
use vstd::string::*;

use crate::objective::{Alert, AlertView, Objective, ObjectiveView};

verus! {

/// The lines that open every rule document.
pub open spec fn header() -> Seq<char> {
    "---\n# Prometheus recording and alerting rules generated by autometrics-rs\n\ngroups:\n"@
}

/// The three rule groups of one objective, in the order they are emitted.
pub open spec fn objective_groups(o: ObjectiveView) -> Seq<Seq<char>> {
    seq![o.error_ratio_recording_rules(), o.meta_recording_rules(), o.alert_rules()]
}

pub open spec fn groups_of_objectives(os: Seq<ObjectiveView>) -> Seq<Seq<char>>
    decreases os.len(),
{
    if os.len() == 0 {
        Seq::empty()
    } else {
        groups_of_objectives(os.drop_last()) + objective_groups(os.last())
    }
}

/// All rule groups of `alerts`: alert by alert, objective by objective.
pub open spec fn rule_groups(alerts: Seq<AlertView>) -> Seq<Seq<char>>
    decreases alerts.len(),
{
    if alerts.len() == 0 {
        Seq::empty()
    } else {
        rule_groups(alerts.drop_last()) + groups_of_objectives(alerts.last().objectives())
    }
}

/// The groups separated by line breaks.
pub open spec fn join_groups(gs: Seq<Seq<char>>) -> Seq<char>
    decreases gs.len(),
{
    if gs.len() == 0 {
        Seq::empty()
    } else if gs.len() == 1 {
        gs[0]
    } else {
        join_groups(gs.drop_last()) + "\n"@ + gs.last()
    }
}

/// The rule document for `alerts`.
pub open spec fn document(alerts: Seq<AlertView>) -> Seq<char> {
    header() + join_groups(rule_groups(alerts))
}

/// What each operation of `alerts` holds, in order.
pub open spec fn views(alerts: Seq<Alert>) -> Seq<AlertView> {
    alerts.map_values(|a: Alert| a@)
}

proof fn lemma_join_push(gs: Seq<Seq<char>>, g: Seq<char>)
    ensures
        join_groups(gs.push(g)) == if gs.len() == 0 {
            g
        } else {
            join_groups(gs) + "\n"@ + g
        },
{
    assert(gs.push(g).drop_last() =~= gs);
}

proof fn lemma_append_joined(h: Seq<char>, joined: Seq<char>, sep: Seq<char>, g: Seq<char>)
    ensures
        h + joined + sep + g == h + (joined + sep + g),
        h + joined + g == h + (joined + g),
{
    assert(h + joined + sep + g =~= h + (joined + sep + g));
    assert(h + joined + g =~= h + (joined + g));
}

/// Appends `group` to `out`, after a line break unless it is the first.
fn append_group(out: &mut String, first: bool, group: &str, Ghost(gs): Ghost<Seq<Seq<char>>>)
    requires
        old(out)@ == header() + join_groups(gs),
        first == (gs.len() == 0),
    ensures
        final(out)@ == header() + join_groups(gs.push(group@)),
{
    proof {
        lemma_join_push(gs, group@);
        lemma_append_joined(header(), join_groups(gs), "\n"@, group@);
    }
    if !first {
        out.append("\n");
    }
    out.append(group);
}

/// Appends the three rule groups of `o`.
fn append_objective(out: &mut String, first: bool, o: &Objective, Ghost(gs): Ghost<Seq<Seq<char>>>)
    requires
        old(out)@ == header() + join_groups(gs),
        first == (gs.len() == 0),
    ensures
        final(out)@ == header() + join_groups(gs + objective_groups(o@)),
{
    let g1 = o.error_ratio_recording_rules();
    append_group(out, first, g1.as_str(), Ghost(gs));
    let g2 = o.meta_recording_rules();
    append_group(out, false, g2.as_str(), Ghost(gs.push(g1@)));
    let g3 = o.alert_rules();
    append_group(out, false, g3.as_str(), Ghost(gs.push(g1@).push(g2@)));
    assert(gs.push(g1@).push(g2@).push(g3@) =~= gs + objective_groups(o@));
}

/// Returns the recording and alerting rules of `alerts` as one rule document.
pub fn generate_alerts(alerts: &[Alert]) -> (r: String)
    ensures
        r@ == document(views(alerts@)),
{
    let ghost vs = views(alerts@);
    let mut out = String::from_str(
        "---\n# Prometheus recording and alerting rules generated by autometrics-rs\n\ngroups:\n",
    );
    let ghost mut gs: Seq<Seq<char>> = Seq::empty();
    assert(out@ =~= header() + join_groups(gs));
    let mut first = true;
    let mut i: usize = 0;
    while i < alerts.len()
        invariant
            i <= alerts.len(),
            vs == views(alerts@),
            gs == rule_groups(vs.take(i as int)),
            out@ == header() + join_groups(gs),
            first == (gs.len() == 0),
        decreases alerts.len() - i,
    {
        let objectives = alerts[i].to_objectives();
        let ghost os = objectives@.map_values(|o: Objective| o@);
        let ghost gs0 = gs;
        let mut j: usize = 0;
        while j < objectives.len()
            invariant
                j <= objectives.len(),
                os == objectives@.map_values(|o: Objective| o@),
                gs == gs0 + groups_of_objectives(os.take(j as int)),
                out@ == header() + join_groups(gs),
                first == (gs.len() == 0),
            decreases objectives.len() - j,
        {
            append_objective(&mut out, first, &objectives[j], Ghost(gs));
            proof {
                assert(os.take(j + 1).drop_last() =~= os.take(j as int));
                assert(gs0 + groups_of_objectives(os.take(j + 1)) =~= gs + objective_groups(
                    os[j as int],
                ));
                gs = gs + objective_groups(os[j as int]);
            }
            first = false;
            j = j + 1;
        }
        proof {
            assert(os.take(j as int) =~= os);
            assert(vs.take(i + 1).drop_last() =~= vs.take(i as int));
            assert(gs =~= rule_groups(vs.take(i + 1)));
        }
        i = i + 1;
    }
    assert(vs.take(i as int) =~= vs);
    out
}

/// An operation with only a success-rate target yields exactly one objective, of kind
/// success-rate, and so exactly its three rule groups.
pub proof fn lemma_success_rate_only(a: AlertView)
    requires
        a.success_rate is Some,
        a.latency is None,
    ensures
        a.objectives() == seq![
            ObjectiveView::SuccessRate {
                function: a.function,
                module: a.module,
                success_rate: a.success_rate->0,
            },
        ],
        a.objectives()[0].slo_type() == "success-rate"@,
        rule_groups(seq![a]) == objective_groups(a.objectives()[0]),
        rule_groups(seq![a]).len() == 3,
{
    let os = a.objectives();
    assert(os =~= seq![
        ObjectiveView::SuccessRate {
            function: a.function,
            module: a.module,
            success_rate: a.success_rate->0,
        },
    ]);
    assert(seq![a].drop_last() =~= Seq::<AlertView>::empty());
    assert(os.drop_last() =~= Seq::<ObjectiveView>::empty());
    assert(rule_groups(seq![a]) == rule_groups(Seq::empty()) + groups_of_objectives(os));
    assert(groups_of_objectives(os) == groups_of_objectives(Seq::empty()) + objective_groups(
        os[0],
    ));
    assert(rule_groups(seq![a]) =~= objective_groups(os[0]));
}

/// An operation with both targets yields its success-rate objective and then its latency
/// objective, so six rule groups, those of the success rate first.
pub proof fn lemma_both_objectives(a: AlertView)
    requires
        a.success_rate is Some,
        a.latency is Some,
    ensures
        a.objectives() == seq![
            ObjectiveView::SuccessRate {
                function: a.function,
                module: a.module,
                success_rate: a.success_rate->0,
            },
            ObjectiveView::Latency {
                function: a.function,
                module: a.module,
                latency_threshold: (a.latency->0).0,
                latency_objective: (a.latency->0).1,
            },
        ],
        rule_groups(seq![a]) == objective_groups(a.objectives()[0]) + objective_groups(
            a.objectives()[1],
        ),
        rule_groups(seq![a]).len() == 6,
{
    let os = a.objectives();
    assert(os =~= seq![
        ObjectiveView::SuccessRate {
            function: a.function,
            module: a.module,
            success_rate: a.success_rate->0,
        },
        ObjectiveView::Latency {
            function: a.function,
            module: a.module,
            latency_threshold: (a.latency->0).0,
            latency_objective: (a.latency->0).1,
        },
    ]);
    assert(seq![a].drop_last() =~= Seq::<AlertView>::empty());
    assert(os.drop_last().drop_last() =~= Seq::<ObjectiveView>::empty());
    assert(os.drop_last() =~= seq![os[0]]);
    assert(rule_groups(seq![a]) == rule_groups(Seq::empty()) + groups_of_objectives(os));
    assert(groups_of_objectives(os) == groups_of_objectives(os.drop_last()) + objective_groups(
        os[1],
    ));
    assert(groups_of_objectives(os.drop_last()) == groups_of_objectives(Seq::empty())
        + objective_groups(os[0]));
    assert(rule_groups(seq![a]) =~= objective_groups(os[0]) + objective_groups(os[1]));
}

/// The rule groups follow the input order: those of `a` come before those of `b`, and
/// each operation contributes the groups of its objectives in their order.
pub proof fn lemma_groups_follow_input(a: Seq<AlertView>, b: Seq<AlertView>)
    ensures
        rule_groups(a + b) == rule_groups(a) + rule_groups(b),
    decreases b.len(),
{
    if b.len() == 0 {
        assert(a + b =~= a);
        assert(rule_groups(a) + rule_groups(b) =~= rule_groups(a));
    } else {
        lemma_groups_follow_input(a, b.drop_last());
        assert((a + b).drop_last() =~= a + b.drop_last());
        assert(rule_groups(a + b) =~= rule_groups(a) + rule_groups(b));
    }
}

/// An operation with neither target leaves the document exactly as if it were absent.
pub proof fn lemma_no_targets_no_output(a: Seq<AlertView>, x: AlertView, b: Seq<AlertView>)
    requires
        x.success_rate is None,
        x.latency is None,
    ensures
        rule_groups(seq![x]) == Seq::<Seq<char>>::empty(),
        document(a + seq![x] + b) == document(a + b),
{
    assert(x.objectives() =~= Seq::<ObjectiveView>::empty());
    assert(seq![x].drop_last() =~= Seq::<AlertView>::empty());
    assert(rule_groups(seq![x]) == rule_groups(Seq::empty()) + groups_of_objectives(
        x.objectives(),
    ));
    assert(groups_of_objectives(x.objectives()) == Seq::<Seq<char>>::empty());
    assert(rule_groups(seq![x]) =~= Seq::<Seq<char>>::empty());
    lemma_groups_follow_input(a, seq![x]);
    lemma_groups_follow_input(a + seq![x], b);
    lemma_groups_follow_input(a, b);
    assert(rule_groups(a + seq![x]) =~= rule_groups(a));
}

/// With no operations the document is the header alone.
pub proof fn lemma_empty_document()
    ensures
        document(Seq::empty()) == header(),
{
    assert(header() + Seq::<char>::empty() =~= header());
}

/// The document depends only on what the operations hold and in which order, so two
/// generations from the same snapshot give the same text.
pub proof fn lemma_same_snapshot_same_document(first: Seq<Alert>, second: Seq<Alert>)
    requires
        views(first) == views(second),
    ensures
        document(views(first)) == document(views(second)),
{
}

} // verus!
