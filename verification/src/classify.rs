//! Which parameters an operation declares, and which of them its samples vary.

use vstd::prelude::*;
use crate::batch::{Assignment, BenchmarkBatchSplitResults, BenchmarkResult};
use crate::parameter::BenchmarkParameter;

verus! {

/// A declared parameter of an operation, with the mark that tells whether the
/// samples vary it.
#[derive(Clone, Debug, PartialEq, Eq)]
pub struct Component {
    pub name: String,
    pub is_used: bool,
}

/// What a [`Component`] says.
pub ghost struct ComponentSpec {
    pub name: Seq<char>,
    pub is_used: bool,
}

impl View for Component {
    type V = ComponentSpec;

    open spec fn view(&self) -> ComponentSpec {
        ComponentSpec { name: self.name@, is_used: self.is_used }
    }
}

impl DeepView for Component {
    type V = ComponentSpec;

    open spec fn deep_view(&self) -> ComponentSpec {
        self@
    }
}

/// The assignment rows that a vector of rows holds.
pub open spec fn rows_of(rows: Seq<Vec<Assignment>>) -> Seq<Seq<Assignment>> {
    Seq::new(rows.len(), |i: int| rows[i]@)
}

/// `seen`, followed by the parameters of `items` that are new, each once, in
/// the order in which they first appear.
pub open spec fn absorb(seen: Seq<BenchmarkParameter>, items: Seq<Assignment>) -> Seq<
    BenchmarkParameter,
>
    decreases items.len(),
{
    if items.len() == 0 {
        seen
    } else {
        let before = absorb(seen, items.drop_last());
        if before.contains(items.last().0) {
            before
        } else {
            before.push(items.last().0)
        }
    }
}

/// [`absorb`] over the rows in turn.
pub open spec fn absorb_rows(seen: Seq<BenchmarkParameter>, rows: Seq<Seq<Assignment>>) -> Seq<
    BenchmarkParameter,
>
    decreases rows.len(),
{
    if rows.len() == 0 {
        seen
    } else {
        absorb(absorb_rows(seen, rows.drop_last()), rows.last())
    }
}

/// The parameters that the rows name, each once, in the order of first
/// appearance: rows in order, and the entries of a row in order.
pub open spec fn declared(rows: Seq<Seq<Assignment>>) -> Seq<BenchmarkParameter> {
    absorb_rows(Seq::empty(), rows)
}

/// The value that a row gives a parameter: that of its first entry for it.
pub open spec fn value_of(row: Seq<Assignment>, param: BenchmarkParameter) -> Option<u32>
    decreases row.len(),
{
    if row.len() == 0 {
        None
    } else if row[0].0 == param {
        Some(row[0].1)
    } else {
        value_of(row.skip(1), param)
    }
}

/// Two rows give the parameter different values.
pub open spec fn is_varied(rows: Seq<Seq<Assignment>>, param: BenchmarkParameter) -> bool {
    exists|i: int, j: int|
        0 <= i < rows.len() && 0 <= j < rows.len() && (#[trigger] value_of(rows[i], param))
            is Some && (#[trigger] value_of(rows[j], param)) is Some && value_of(rows[i], param)
            != value_of(rows[j], param)
}

/// The declared parameters in order, each with its mark.
pub open spec fn classification(rows: Seq<Seq<Assignment>>) -> Seq<(BenchmarkParameter, bool)> {
    Seq::new(
        declared(rows).len(),
        |i: int| (declared(rows)[i], is_varied(rows, declared(rows)[i])),
    )
}

/// The report entries for classified parameters.
pub open spec fn components_of(classes: Seq<(BenchmarkParameter, bool)>) -> Seq<ComponentSpec> {
    Seq::new(
        classes.len(),
        |i: int| ComponentSpec { name: classes[i].0.name_spec(), is_used: classes[i].1 },
    )
}

/// The parameters that carry the mark, in order.
pub open spec fn used_of(classes: Seq<(BenchmarkParameter, bool)>) -> Seq<BenchmarkParameter>
    decreases classes.len(),
{
    if classes.len() == 0 {
        Seq::empty()
    } else if classes.last().1 {
        used_of(classes.drop_last()).push(classes.last().0)
    } else {
        used_of(classes.drop_last())
    }
}

/// The assignment rows of a batch: its timing samples, then its storage
/// samples.
pub open spec fn batch_rows(batch: BenchmarkBatchSplitResults) -> Seq<Seq<Assignment>> {
    crate::batch::assignments(batch.time_results@) + crate::batch::assignments(
        batch.db_results@,
    )
}

/// Absorbing never loses or reorders what was seen, adds nothing twice, and
/// adds exactly the parameters of the items.
pub proof fn lemma_absorb(seen: Seq<BenchmarkParameter>, items: Seq<Assignment>)
    requires
        seen.no_duplicates(),
    ensures
        absorb(seen, items).no_duplicates(),
        seen.is_prefix_of(absorb(seen, items)),
        forall|param: BenchmarkParameter| #[trigger]
            absorb(seen, items).contains(param) <==> seen.contains(param) || exists|k: int|
                0 <= k < items.len() && (#[trigger] items[k]).0 == param,
    decreases items.len(),
{
    if items.len() > 0 {
        let front = items.drop_last();
        let before = absorb(seen, front);
        lemma_absorb(seen, front);
        let after = absorb(seen, items);
        assert forall|param: BenchmarkParameter| #[trigger]
            after.contains(param) <==> seen.contains(param) || exists|k: int|
                0 <= k < items.len() && (#[trigger] items[k]).0 == param by {
            if after.contains(param) {
                if before.contains(param) {
                    if !seen.contains(param) {
                        let k = choose|k: int| 0 <= k < front.len() && (#[trigger] front[k]).0 == param;
                        assert(items[k].0 == param);
                    }
                } else {
                    assert(after == before.push(items.last().0));
                    let at = choose|at: int| 0 <= at < after.len() && after[at] == param;
                    if at < before.len() {
                        assert(before[at] == param);
                    }
                    assert(items[items.len() - 1].0 == param);
                }
            }
            if seen.contains(param) {
                let at = choose|at: int| 0 <= at < seen.len() && seen[at] == param;
                assert(after[at] == param);
            }
            if exists|k: int| 0 <= k < items.len() && (#[trigger] items[k]).0 == param {
                let k = choose|k: int| 0 <= k < items.len() && (#[trigger] items[k]).0 == param;
                if k < front.len() {
                    assert(front[k].0 == param);
                    assert(before.contains(param));
                    let at = choose|at: int| 0 <= at < before.len() && before[at] == param;
                    assert(after[at] == param);
                } else if before.contains(param) {
                } else {
                    assert(after[before.len() as int] == param);
                }
            }
        }
    }
}

/// The declared parameters are distinct, and they are exactly the parameters
/// that some row names.
pub proof fn lemma_declared(rows: Seq<Seq<Assignment>>)
    ensures
        declared(rows).no_duplicates(),
        forall|param: BenchmarkParameter| #[trigger]
            declared(rows).contains(param) <==> exists|i: int|
                0 <= i < rows.len() && (#[trigger] value_of(rows[i], param)) is Some,
    decreases rows.len(),
{
    if rows.len() > 0 {
        let front = rows.drop_last();
        lemma_declared(front);
        lemma_absorb(declared(front), rows.last());
        assert forall|param: BenchmarkParameter| #[trigger]
            declared(rows).contains(param) <==> exists|i: int|
                0 <= i < rows.len() && (#[trigger] value_of(rows[i], param)) is Some by {
            lemma_value_of_names(rows.last(), param);
            if declared(rows).contains(param) {
                if declared(front).contains(param) {
                    let i = choose|i: int|
                        0 <= i < front.len() && (#[trigger] value_of(front[i], param)) is Some;
                    assert(value_of(rows[i], param) is Some);
                } else {
                    assert(value_of(rows[rows.len() - 1], param) is Some);
                }
            }
            if exists|i: int| 0 <= i < rows.len() && (#[trigger] value_of(rows[i], param)) is Some {
                let i = choose|i: int|
                    0 <= i < rows.len() && (#[trigger] value_of(rows[i], param)) is Some;
                if i < front.len() {
                    assert(value_of(front[i], param) is Some);
                }
            }
        }
    }
}

/// A row gives a parameter a value exactly when one of its entries names it.
pub proof fn lemma_value_of_names(row: Seq<Assignment>, param: BenchmarkParameter)
    ensures
        value_of(row, param) is Some <==> exists|k: int|
            0 <= k < row.len() && (#[trigger] row[k]).0 == param,
    decreases row.len(),
{
    if row.len() > 0 {
        let rest = row.skip(1);
        lemma_value_of_names(rest, param);
        if row[0].0 != param {
            if value_of(row, param) is Some {
                let k = choose|k: int| 0 <= k < rest.len() && (#[trigger] rest[k]).0 == param;
                assert(row[k + 1].0 == param);
            }
            if exists|k: int| 0 <= k < row.len() && (#[trigger] row[k]).0 == param {
                let k = choose|k: int| 0 <= k < row.len() && (#[trigger] row[k]).0 == param;
                assert(rest[k - 1].0 == param);
            }
        }
    }
}

/// Whether the parameter is among those seen.
fn holds(seen: &Vec<BenchmarkParameter>, param: BenchmarkParameter) -> (r: bool)
    ensures
        r == seen@.contains(param),
{
    let mut i: usize = 0;
    while i < seen.len()
        invariant
            i <= seen.len(),
            forall|k: int| 0 <= k < i ==> seen@[k] != param,
        decreases seen.len() - i,
    {
        if seen[i] == param {
            return true;
        }
        i += 1;
    }
    false
}

/// The value that the row gives the parameter, if it gives one.
pub fn lookup(row: &Vec<(BenchmarkParameter, u32)>, param: BenchmarkParameter) -> (r: Option<u32>)
    ensures
        r == value_of(row@, param),
{
    let mut found: Option<u32> = None;
    let mut i: usize = row.len();
    while i > 0
        invariant
            i <= row.len(),
            found == value_of(row@.skip(i as int), param),
        decreases i,
    {
        i -= 1;
        assert(row@.skip(i as int).skip(1) =~= row@.skip(i + 1));
        if row[i].0 == param {
            found = Some(row[i].1);
        }
    }
    assert(row@.skip(0) =~= row@);
    found
}

/// The declared parameters of the rows.
pub fn declared_parameters(rows: &Vec<Vec<(BenchmarkParameter, u32)>>) -> (r: Vec<
    BenchmarkParameter,
>)
    ensures
        r@ == declared(rows_of(rows@)),
{
    let ghost all = rows_of(rows@);
    let mut seen: Vec<BenchmarkParameter> = Vec::new();
    let mut i: usize = 0;
    while i < rows.len()
        invariant
            i <= rows.len(),
            all == rows_of(rows@),
            seen@ == absorb_rows(Seq::empty(), all.take(i as int)),
        decreases rows.len() - i,
    {
        let row = &rows[i];
        let ghost before = seen@;
        let mut j: usize = 0;
        while j < row.len()
            invariant
                j <= row.len(),
                seen@ == absorb(before, row@.take(j as int)),
            decreases row.len() - j,
        {
            assert(row@.take(j + 1).drop_last() =~= row@.take(j as int));
            if !holds(&seen, row[j].0) {
                seen.push(row[j].0);
            }
            j += 1;
        }
        assert(row@.take(row.len() as int) =~= row@);
        assert(all.take(i + 1).drop_last() =~= all.take(i as int));
        assert(all.take(i + 1).last() == row@);
        i += 1;
    }
    assert(all.take(rows.len() as int) =~= all);
    seen
}

/// Whether two rows give the parameter different values.
pub fn is_used(rows: &Vec<Vec<(BenchmarkParameter, u32)>>, param: BenchmarkParameter) -> (r: bool)
    ensures
        r == is_varied(rows_of(rows@), param),
{
    let ghost all = rows_of(rows@);
    let mut known: Option<u32> = None;
    let ghost mut at: int = 0;
    let mut i: usize = 0;
    while i < rows.len()
        invariant
            i <= rows.len(),
            all == rows_of(rows@),
            known is Some ==> 0 <= at < i && value_of(all[at], param) == known,
            forall|k: int|
                0 <= k < i && (#[trigger] value_of(all[k], param)) is Some ==> value_of(
                    all[k],
                    param,
                ) == known,
        decreases rows.len() - i,
    {
        let here = lookup(&rows[i], param);
        assert(here == value_of(all[i as int], param));
        match here {
            Some(value) => {
                match known {
                    Some(first) => {
                        if first != value {
                            assert(value_of(all[at], param) != value_of(all[i as int], param));
                            return true;
                        }
                    },
                    None => {
                        known = Some(value);
                        proof {
                            at = i as int;
                        }
                    },
                }
            },
            None => {},
        }
        i += 1;
    }
    false
}

/// The declared parameters of the rows, each with its mark.
pub fn classify_rows(rows: &Vec<Vec<(BenchmarkParameter, u32)>>) -> (r: Vec<
    (BenchmarkParameter, bool),
>)
    ensures
        r@ == classification(rows_of(rows@)),
{
    let params = declared_parameters(rows);
    let mut out: Vec<(BenchmarkParameter, bool)> = Vec::new();
    let mut i: usize = 0;
    while i < params.len()
        invariant
            i <= params.len(),
            params@ == declared(rows_of(rows@)),
            out@ == classification(rows_of(rows@)).take(i as int),
        decreases params.len() - i,
    {
        let used = is_used(rows, params[i]);
        out.push((params[i], used));
        assert(out@ =~= classification(rows_of(rows@)).take(i + 1));
        i += 1;
    }
    assert(out@ =~= classification(rows_of(rows@)));
    out
}

/// The parameters that carry the mark, in order.
pub fn used_parameters(classes: &Vec<(BenchmarkParameter, bool)>) -> (r: Vec<BenchmarkParameter>)
    ensures
        r@ == used_of(classes@),
{
    let mut out: Vec<BenchmarkParameter> = Vec::new();
    let mut i: usize = 0;
    while i < classes.len()
        invariant
            i <= classes.len(),
            out@ == used_of(classes@.take(i as int)),
        decreases classes.len() - i,
    {
        assert(classes@.take(i + 1).drop_last() =~= classes@.take(i as int));
        if classes[i].1 {
            out.push(classes[i].0);
        }
        i += 1;
    }
    assert(classes@.take(classes.len() as int) =~= classes@);
    out
}

/// The report entries for classified parameters.
pub fn components(classes: &Vec<(BenchmarkParameter, bool)>) -> (r: Vec<Component>)
    ensures
        r.deep_view() == components_of(classes@),
{
    let mut out: Vec<Component> = Vec::new();
    let mut i: usize = 0;
    while i < classes.len()
        invariant
            i <= classes.len(),
            out.len() == i,
            forall|k: int| 0 <= k < i ==> (#[trigger] out@[k])@ == components_of(classes@)[k],
        decreases classes.len() - i,
    {
        out.push(Component { name: classes[i].0.name(), is_used: classes[i].1 });
        i += 1;
    }
    assert(out.deep_view() =~= components_of(classes@));
    out
}

/// Copies the assignment rows of the samples onto the end of `rows`.
fn push_rows(rows: &mut Vec<Vec<(BenchmarkParameter, u32)>>, samples: &Vec<BenchmarkResult>)
    ensures
        rows_of(final(rows)@) == rows_of(old(rows)@) + crate::batch::assignments(samples@),
{
    let ghost start = rows_of(rows@);
    let ghost added = crate::batch::assignments(samples@);
    let mut i: usize = 0;
    while i < samples.len()
        invariant
            i <= samples.len(),
            added == crate::batch::assignments(samples@),
            rows_of(rows@) == start + added.take(i as int),
        decreases samples.len() - i,
    {
        let source = &samples[i].components;
        let mut row: Vec<(BenchmarkParameter, u32)> = Vec::new();
        let mut j: usize = 0;
        while j < source.len()
            invariant
                j <= source.len(),
                row@ == source@.take(j as int),
            decreases source.len() - j,
        {
            row.push(source[j]);
            assert(row@ =~= source@.take(j + 1));
            j += 1;
        }
        assert(row@ =~= source@);
        let ghost before = rows@;
        rows.push(row);
        assert forall|k: int| 0 <= k < rows@.len() implies #[trigger] rows_of(rows@)[k] == (start
            + added.take(i + 1))[k] by {
            assert(rows_of(before).len() == start.len() + i);
            if k < before.len() {
                assert(rows_of(rows@)[k] == rows_of(before)[k]);
                assert(rows_of(before)[k] == (start + added.take(i as int))[k]);
            } else {
                assert(rows_of(rows@)[k] == source@);
                assert(added.take(i + 1)[i as int] == source@);
            }
        }
        assert(rows_of(before).len() == start.len() + i);
        assert(rows_of(rows@).len() == (start + added.take(i + 1)).len());
        assert(rows_of(rows@) =~= start + added.take(i + 1));
        i += 1;
    }
    assert(added.take(samples.len() as int) =~= added);
}

/// The assignment rows of a batch: its timing samples, then its storage
/// samples.
pub fn assignment_rows(batch: &BenchmarkBatchSplitResults) -> (r: Vec<
    Vec<(BenchmarkParameter, u32)>,
>)
    ensures
        rows_of(r@) == batch_rows(*batch),
{
    let mut rows: Vec<Vec<(BenchmarkParameter, u32)>> = Vec::new();
    assert(rows_of(rows@) =~= Seq::<Seq<Assignment>>::empty());
    push_rows(&mut rows, &batch.time_results);
    push_rows(&mut rows, &batch.db_results);
    assert(rows_of(rows@) =~= batch_rows(*batch));
    rows
}

/// Lists the parameters that the batch's samples name, in the order in which
/// they first appear, and marks each as used exactly if two samples give it
/// different values.
pub fn classify(batch: &BenchmarkBatchSplitResults) -> (r: Vec<Component>)
    ensures
        r.deep_view() == components_of(classification(batch_rows(*batch))),
{
    let rows = assignment_rows(batch);
    let classes = classify_rows(&rows);
    components(&classes)
}

} // verus!
