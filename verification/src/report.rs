//! The fitted cost model of one operation, in the form in which it is rendered.

use vstd::prelude::*;
use crate::classify::{
    components, components_of, used_of, used_parameters, Component, ComponentSpec,
};
use crate::error::Error;
use crate::fit::{Analysis, Model};
use crate::parameter::BenchmarkParameter;

verus! {

/// How a metric grows with one parameter.
#[derive(Clone, Debug, PartialEq, Eq)]
pub struct ComponentSlope {
    pub name: String,
    pub slope: u128,
    pub error: u128,
}

/// What a [`ComponentSlope`] says.
pub ghost struct SlopeSpec {
    pub name: Seq<char>,
    pub slope: u128,
    pub error: u128,
}

impl View for ComponentSlope {
    type V = SlopeSpec;

    open spec fn view(&self) -> SlopeSpec {
        SlopeSpec { name: self.name@, slope: self.slope, error: self.error }
    }
}

impl DeepView for ComponentSlope {
    type V = SlopeSpec;

    open spec fn deep_view(&self) -> SlopeSpec {
        self@
    }
}

/// The cost model of one operation: its parameters, and base and slopes of its
/// weight, its storage reads and its storage writes.
#[derive(Clone, Debug, PartialEq, Eq)]
pub struct BenchmarkData {
    pub name: String,
    pub components: Vec<Component>,
    pub base_weight: u128,
    pub base_reads: u128,
    pub base_writes: u128,
    pub component_weight: Vec<ComponentSlope>,
    pub component_reads: Vec<ComponentSlope>,
    pub component_writes: Vec<ComponentSlope>,
}

/// What a [`BenchmarkData`] says.
pub ghost struct ReportSpec {
    pub name: Seq<char>,
    pub components: Seq<ComponentSpec>,
    pub base_weight: u128,
    pub base_reads: u128,
    pub base_writes: u128,
    pub component_weight: Seq<SlopeSpec>,
    pub component_reads: Seq<SlopeSpec>,
    pub component_writes: Seq<SlopeSpec>,
}

impl View for BenchmarkData {
    type V = ReportSpec;

    open spec fn view(&self) -> ReportSpec {
        ReportSpec {
            name: self.name@,
            components: self.components.deep_view(),
            base_weight: self.base_weight,
            base_reads: self.base_reads,
            base_writes: self.base_writes,
            component_weight: self.component_weight.deep_view(),
            component_reads: self.component_reads.deep_view(),
            component_writes: self.component_writes.deep_view(),
        }
    }
}

impl DeepView for BenchmarkData {
    type V = ReportSpec;

    open spec fn deep_view(&self) -> ReportSpec {
        self@
    }
}

/// Fitted times are multiplied by this to give weights.
pub const WEIGHT_SCALE: u128 = 1000;

/// A fitted time as a weight: a thousand times the time, or the largest
/// weight there is where that is too large.
pub open spec fn scaled(value: u128) -> u128 {
    if value * WEIGHT_SCALE > u128::MAX {
        u128::MAX
    } else {
        (value * WEIGHT_SCALE) as u128
    }
}

/// Converts a fitted time to a weight.
pub fn scale(value: u128) -> (r: u128)
    ensures
        r == scaled(value),
{
    if value > u128::MAX / WEIGHT_SCALE {
        u128::MAX
    } else {
        value * WEIGHT_SCALE
    }
}

/// The value as it is reported: scaled for a time, as it is otherwise.
pub open spec fn reported(value: u128, is_time: bool) -> u128 {
    if is_time {
        scaled(value)
    } else {
        value
    }
}

/// The standard error of the slope at a position; zero where the model has
/// none.
pub open spec fn error_at(errors: Option<Seq<u128>>, i: int) -> u128 {
    match errors {
        Some(values) => if 0 <= i < values.len() {
            values[i]
        } else {
            0
        },
        None => 0,
    }
}

/// The model has one slope for each of the parameters.
pub open spec fn shaped(model: Model, used: Seq<BenchmarkParameter>) -> bool {
    model.1.len() == used.len()
}

/// The slope entries of a model: one for each parameter, in order.
pub open spec fn slope_entries(used: Seq<BenchmarkParameter>, model: Model, is_time: bool) -> Seq<
    SlopeSpec,
> {
    Seq::new(
        used.len(),
        |i: int|
            SlopeSpec {
                name: used[i].name_spec(),
                slope: reported(model.1[i], is_time),
                error: reported(error_at(model.2, i), is_time),
            },
    )
}

/// The report of an operation from its classified parameters and the three
/// fitted models. Where a model is missing, or has not one slope for each used
/// parameter, there is no report: such a model says nothing of a parameter
/// that the report must give a slope for. The least squares give a base
/// without slopes where there are fewer than three samples.
pub open spec fn report_of(
    name: Seq<char>,
    classes: Seq<(BenchmarkParameter, bool)>,
    time: Option<Model>,
    reads: Option<Model>,
    writes: Option<Model>,
) -> Result<ReportSpec, Error> {
    let used = used_of(classes);
    match (time, reads, writes) {
        (Some(time_model), Some(reads_model), Some(writes_model)) => if shaped(time_model, used)
            && shaped(reads_model, used) && shaped(writes_model, used) {
            let (time_base, _, _) = time_model;
            let (reads_base, _, _) = reads_model;
            let (writes_base, _, _) = writes_model;
            Ok(
                ReportSpec {
                    name,
                    components: components_of(classes),
                    base_weight: scaled(time_base),
                    base_reads: reads_base,
                    base_writes: writes_base,
                    component_weight: slope_entries(used, time_model, true),
                    component_reads: slope_entries(used, reads_model, false),
                    component_writes: slope_entries(used, writes_model, false),
                },
            )
        } else {
            Err(Error::Analysis)
        },
        _ => Err(Error::Analysis),
    }
}

/// What a report, or the failure to make one, says.
pub open spec fn outcome_of(outcome: Result<BenchmarkData, Error>) -> Result<ReportSpec, Error> {
    match outcome {
        Ok(data) => Ok(data@),
        Err(error) => Err(error),
    }
}

/// The slope entries of a model.
fn entries(used: &Vec<BenchmarkParameter>, model: &Analysis, is_time: bool) -> (r: Vec<
    ComponentSlope,
>)
    requires
        shaped(model@, used@),
    ensures
        r.deep_view() == slope_entries(used@, model@, is_time),
{
    let mut out: Vec<ComponentSlope> = Vec::new();
    let mut i: usize = 0;
    while i < used.len()
        invariant
            i <= used.len(),
            shaped(model@, used@),
            out.len() == i,
            forall|k: int|
                0 <= k < i ==> (#[trigger] out@[k])@ == slope_entries(used@, model@, is_time)[k],
        decreases used.len() - i,
    {
        let slope = model.slopes[i];
        let error: u128 = match &model.errors {
            Some(values) => if i < values.len() {
                values[i]
            } else {
                0
            },
            None => 0,
        };
        assert(error == error_at(model@.2, i as int));
        let entry = if is_time {
            ComponentSlope { name: used[i].name(), slope: scale(slope), error: scale(error) }
        } else {
            ComponentSlope { name: used[i].name(), slope, error }
        };
        out.push(entry);
        i += 1;
    }
    assert(out.deep_view() =~= slope_entries(used@, model@, is_time));
    out
}

impl BenchmarkData {
    /// Builds the report of an operation from its classified parameters and
    /// the models fitted to its time, its reads and its writes. Times become
    /// weights; reads and writes stay as they are. Fails where a model is
    /// missing or has not one slope for each used parameter.
    pub fn from_fits(
        name: String,
        classes: &Vec<(BenchmarkParameter, bool)>,
        time: Option<Analysis>,
        reads: Option<Analysis>,
        writes: Option<Analysis>,
    ) -> (r: Result<BenchmarkData, Error>)
        ensures
            outcome_of(r) == report_of(
                name@,
                classes@,
                crate::fit::model_of(time),
                crate::fit::model_of(reads),
                crate::fit::model_of(writes),
            ),
    {
        let used = used_parameters(classes);
        match (time, reads, writes) {
            (Some(time_fit), Some(reads_fit), Some(writes_fit)) => {
                if time_fit.slopes.len() != used.len() || reads_fit.slopes.len() != used.len()
                    || writes_fit.slopes.len() != used.len() {
                    return Err(Error::Analysis);
                }
                let data = BenchmarkData {
                    name,
                    components: components(classes),
                    base_weight: scale(time_fit.base),
                    base_reads: reads_fit.base,
                    base_writes: writes_fit.base,
                    component_weight: entries(&used, &time_fit, true),
                    component_reads: entries(&used, &reads_fit, false),
                    component_writes: entries(&used, &writes_fit, false),
                };
                Ok(data)
            },
            _ => Err(Error::Analysis),
        }
    }
}

/// Every used parameter stands among the classified ones with its mark set.
pub proof fn lemma_used_marked(classes: Seq<(BenchmarkParameter, bool)>, i: int)
    requires
        0 <= i < used_of(classes).len(),
    ensures
        classes.contains((used_of(classes)[i], true)),
    decreases classes.len(),
{
    if classes.len() > 0 {
        let front = classes.drop_last();
        if classes.last().1 && i == used_of(front).len() {
            assert(classes[classes.len() - 1] == (used_of(classes)[i], true));
        } else {
            lemma_used_marked(front, i);
            let at = choose|at: int| 0 <= at < front.len() && front[at] == (used_of(front)[i], true);
            assert(classes[at] == (used_of(classes)[i], true));
        }
    }
}

/// A report holds slope entries only for parameters that it marks as used,
/// and the same parameters in each of its three lists.
pub proof fn lemma_entries_are_used(
    name: Seq<char>,
    classes: Seq<(BenchmarkParameter, bool)>,
    time: Option<Model>,
    reads: Option<Model>,
    writes: Option<Model>,
)
    requires
        report_of(name, classes, time, reads, writes) is Ok,
    ensures
        ({
            let report = report_of(name, classes, time, reads, writes)->Ok_0;
            &&& report.component_weight.len() == report.component_reads.len()
                == report.component_writes.len()
            &&& forall|i: int|
                0 <= i < report.component_weight.len() ==> {
                    &&& report.components.contains(
                        ComponentSpec { name: (#[trigger] report.component_weight[i]).name, is_used: true },
                    )
                    &&& report.component_reads[i].name == report.component_weight[i].name
                    &&& report.component_writes[i].name == report.component_weight[i].name
                }
        }),
{
    let report = report_of(name, classes, time, reads, writes)->Ok_0;
    let used = used_of(classes);
    assert forall|i: int| 0 <= i < report.component_weight.len() implies report.components.contains(
        ComponentSpec { name: (#[trigger] report.component_weight[i]).name, is_used: true },
    ) by {
        lemma_used_marked(classes, i);
        let at = choose|at: int| 0 <= at < classes.len() && classes[at] == (used[i], true);
        assert(report.components[at] == ComponentSpec {
            name: report.component_weight[i].name,
            is_used: true,
        });
    }
}

/// A report's weights are the fitted times times a thousand, exactly, as long
/// as the product is a weight at all; its reads and writes are the fitted
/// values, exactly.
pub proof fn lemma_scaling(
    name: Seq<char>,
    classes: Seq<(BenchmarkParameter, bool)>,
    time: Model,
    reads: Model,
    writes: Model,
)
    requires
        report_of(name, classes, Some(time), Some(reads), Some(writes)) is Ok,
    ensures
        ({
            let report = report_of(name, classes, Some(time), Some(reads), Some(writes))->Ok_0;
            &&& time.0 * 1000 <= u128::MAX ==> report.base_weight == time.0 * 1000
            &&& report.base_reads == reads.0
            &&& report.base_writes == writes.0
            &&& forall|i: int|
                0 <= i < report.component_weight.len() && (#[trigger] time.1[i]) * 1000
                    <= u128::MAX ==> report.component_weight[i].slope == time.1[i] * 1000
            &&& forall|i: int|
                0 <= i < report.component_reads.len() ==> (#[trigger] report.component_reads[i]).slope
                    == reads.1[i]
            &&& forall|i: int|
                0 <= i < report.component_writes.len() ==> (#[trigger] report.component_writes[i]).slope
                    == writes.1[i]
        }),
{
}

} // verus!
