use vstd::prelude::*;
use vstd::string::*;

verus! {

/// One instrumented operation and the objectives attached to it.
pub struct Alert {
    pub function: String,
    pub module: String,
    /// Target fraction of successful calls, as a query expression.
    pub success_rate: Option<String>,
    /// Latency bucket label and the target fraction of calls under it.
    pub latency: Option<(String, String)>,
}

/// What an `Alert` holds, as character sequences.
pub struct AlertView {
    pub function: Seq<char>,
    pub module: Seq<char>,
    pub success_rate: Option<Seq<char>>,
    pub latency: Option<(Seq<char>, Seq<char>)>,
}

impl View for Alert {
    type V = AlertView;

    open spec fn view(&self) -> AlertView {
        AlertView {
            function: self.function@,
            module: self.module@,
            success_rate: match self.success_rate {
                Some(s) => Some(s@),
                None => None,
            },
            latency: match self.latency {
                Some((t, o)) => Some((t@, o@)),
                None => None,
            },
        }
    }
}

/// A single measurable target of one operation.
pub enum Objective {
    SuccessRate { function: String, module: String, success_rate: String },
    Latency {
        function: String,
        module: String,
        latency_threshold: String,
        latency_objective: String,
    },
}

/// What an `Objective` holds, as character sequences.
pub enum ObjectiveView {
    SuccessRate { function: Seq<char>, module: Seq<char>, success_rate: Seq<char> },
    Latency {
        function: Seq<char>,
        module: Seq<char>,
        latency_threshold: Seq<char>,
        latency_objective: Seq<char>,
    },
}

impl View for Objective {
    type V = ObjectiveView;

    open spec fn view(&self) -> ObjectiveView {
        match self {
            Objective::SuccessRate { function, module, success_rate } => ObjectiveView::SuccessRate {
                function: function@,
                module: module@,
                success_rate: success_rate@,
            },
            Objective::Latency { function, module, latency_threshold, latency_objective } =>
                ObjectiveView::Latency {
                function: function@,
                module: module@,
                latency_threshold: latency_threshold@,
                latency_objective: latency_objective@,
            },
        }
    }
}

impl AlertView {
    /// The objectives of an operation: success rate first, then latency.
    pub open spec fn objectives(self) -> Seq<ObjectiveView> {
        let sr: Seq<ObjectiveView> = match self.success_rate {
            Some(s) => seq![
                ObjectiveView::SuccessRate {
                    function: self.function,
                    module: self.module,
                    success_rate: s,
                },
            ],
            None => Seq::empty(),
        };
        let lat: Seq<ObjectiveView> = match self.latency {
            Some((t, o)) => seq![
                ObjectiveView::Latency {
                    function: self.function,
                    module: self.module,
                    latency_threshold: t,
                    latency_objective: o,
                },
            ],
            None => Seq::empty(),
        };
        sr + lat
    }
}

impl ObjectiveView {
    pub open spec fn function(self) -> Seq<char> {
        match self {
            ObjectiveView::SuccessRate { function, .. } => function,
            ObjectiveView::Latency { function, .. } => function,
        }
    }

    pub open spec fn module(self) -> Seq<char> {
        match self {
            ObjectiveView::SuccessRate { module, .. } => module,
            ObjectiveView::Latency { module, .. } => module,
        }
    }

    /// The target fraction that the error budget is derived from.
    pub open spec fn success_rate(self) -> Seq<char> {
        match self {
            ObjectiveView::SuccessRate { success_rate, .. } => success_rate,
            ObjectiveView::Latency { latency_objective, .. } => latency_objective,
        }
    }

    pub open spec fn slo_type(self) -> Seq<char> {
        match self {
            ObjectiveView::SuccessRate { .. } => "success-rate"@,
            ObjectiveView::Latency { .. } => "latency"@,
        }
    }

    pub open spec fn id(self) -> Seq<char> {
        self.module() + "-"@ + self.function()
    }

    /// Label matcher that selects the series recorded for this objective.
    pub open spec fn filter_labels(self) -> Seq<char> {
        "{function=\""@ + self.function() + "\",module=\""@ + self.module() + "\",objective=\""@
            + self.slo_type() + "\"}"@
    }

    /// The label block attached to every recording rule of this objective.
    pub open spec fn recording_labels(self) -> Seq<char> {
        "labels:\n      objective: "@ + self.slo_type() + "\n      function: "@ + self.function()
            + "\n      module: "@ + self.module()
    }

    /// Rate of failed calls (success rate) or of slow calls (latency) over `window`.
    pub open spec fn error_query(self, window: Seq<char>) -> Seq<char> {
        match self {
            ObjectiveView::SuccessRate { function, module, .. } =>
                "sum(rate(function_calls_count{function=\""@ + function + "\",module=\""@ + module
                    + "\",result=\"error\"}["@ + window + "]))"@,
            ObjectiveView::Latency { function, module, latency_threshold, .. } =>
                "(sum(rate(function_calls_duration_bucket{function=\""@ + function + "\",module=\""@
                    + module + "\"}["@ + window
                    + "])) - sum(rate(function_calls_duration_bucket{le=\""@ + latency_threshold
                    + "\",function=\""@ + function + "\",module=\""@ + module + "\"}["@ + window
                    + "])))"@,
        }
    }

    /// Rate of all calls (success rate) or of all bucketed observations (latency) over `window`.
    pub open spec fn total_query(self, window: Seq<char>) -> Seq<char> {
        match self {
            ObjectiveView::SuccessRate { function, module, .. } =>
                "sum(rate(function_calls_count{function=\""@ + function + "\",module=\""@ + module
                    + "\"}["@ + window + "]))"@,
            ObjectiveView::Latency { function, module, .. } =>
                "sum(rate(function_calls_duration_bucket{function=\""@ + function + "\",module=\""@
                    + module + "\"}["@ + window + "]))"@,
        }
    }
}

impl Alert {
    /// The objectives this operation declares, success rate before latency.
    pub fn to_objectives(&self) -> (r: Vec<Objective>)
        ensures
            r@.map_values(|o: Objective| o@) == self@.objectives(),
    {
        let mut objectives: Vec<Objective> = Vec::new();
        if let Some(success_rate) = &self.success_rate {
            objectives.push(
                Objective::SuccessRate {
                    function: self.function.clone(),
                    module: self.module.clone(),
                    success_rate: success_rate.clone(),
                },
            );
        }
        if let Some((latency_threshold, latency_objective)) = &self.latency {
            objectives.push(
                Objective::Latency {
                    function: self.function.clone(),
                    module: self.module.clone(),
                    latency_threshold: latency_threshold.clone(),
                    latency_objective: latency_objective.clone(),
                },
            );
        }
        assert(objectives@.map_values(|o: Objective| o@) =~= self@.objectives());
        objectives
    }
}

impl Objective {
    pub fn slo_type(&self) -> (r: &'static str)
        ensures
            r@ == self@.slo_type(),
    {
        match self {
            Objective::SuccessRate { .. } => "success-rate",
            Objective::Latency { .. } => "latency",
        }
    }

    pub fn function(&self) -> (r: &str)
        ensures
            r@ == self@.function(),
    {
        match self {
            Objective::SuccessRate { function, .. } => function.as_str(),
            Objective::Latency { function, .. } => function.as_str(),
        }
    }

    pub fn module(&self) -> (r: &str)
        ensures
            r@ == self@.module(),
    {
        match self {
            Objective::SuccessRate { module, .. } => module.as_str(),
            Objective::Latency { module, .. } => module.as_str(),
        }
    }

    pub fn success_rate(&self) -> (r: &str)
        ensures
            r@ == self@.success_rate(),
    {
        match self {
            Objective::SuccessRate { success_rate, .. } => success_rate.as_str(),
            Objective::Latency { latency_objective, .. } => latency_objective.as_str(),
        }
    }

    pub fn id(&self) -> (r: String)
        ensures
            r@ == self@.id(),
    {
        let mut r = String::from_str(self.module());
        r.append("-");
        r.append(self.function());
        r
    }

    pub fn filter_labels(&self) -> (r: String)
        ensures
            r@ == self@.filter_labels(),
    {
        let mut r = String::from_str("{function=\"");
        r.append(self.function());
        r.append("\",module=\"");
        r.append(self.module());
        r.append("\",objective=\"");
        r.append(self.slo_type());
        r.append("\"}");
        r
    }

    pub fn recording_labels(&self) -> (r: String)
        ensures
            r@ == self@.recording_labels(),
    {
        let mut r = String::from_str("labels:\n      objective: ");
        r.append(self.slo_type());
        r.append("\n      function: ");
        r.append(self.function());
        r.append("\n      module: ");
        r.append(self.module());
        r
    }

    pub fn error_query(&self, window: &str) -> (r: String)
        ensures
            r@ == self@.error_query(window@),
    {
        match self {
            Objective::SuccessRate { function, module, .. } => {
                let mut r = String::from_str("sum(rate(function_calls_count{function=\"");
                r.append(function.as_str());
                r.append("\",module=\"");
                r.append(module.as_str());
                r.append("\",result=\"error\"}[");
                r.append(window);
                r.append("]))");
                r
            },
            Objective::Latency { function, module, latency_threshold, .. } => {
                let mut r = String::from_str("(sum(rate(function_calls_duration_bucket{function=\"");
                r.append(function.as_str());
                r.append("\",module=\"");
                r.append(module.as_str());
                r.append("\"}[");
                r.append(window);
                r.append("])) - sum(rate(function_calls_duration_bucket{le=\"");
                r.append(latency_threshold.as_str());
                r.append("\",function=\"");
                r.append(function.as_str());
                r.append("\",module=\"");
                r.append(module.as_str());
                r.append("\"}[");
                r.append(window);
                r.append("])))");
                r
            },
        }
    }

    pub fn total_query(&self, window: &str) -> (r: String)
        ensures
            r@ == self@.total_query(window@),
    {
        let mut r = match self {
            Objective::SuccessRate { .. } => String::from_str("sum(rate(function_calls_count{function=\""),
            Objective::Latency { .. } => String::from_str(
                "sum(rate(function_calls_duration_bucket{function=\"",
            ),
        };
        r.append(self.function());
        r.append("\",module=\"");
        r.append(self.module());
        r.append("\"}[");
        r.append(window);
        r.append("]))");
        r
    }
}

} // verus!
