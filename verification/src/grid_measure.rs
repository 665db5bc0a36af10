use vstd::prelude::*;
use crate::grid::CellGroups;

verus! {

/// One step of measuring a grid. The sizes themselves are computed by whoever runs the steps;
/// this module decides their order.
#[derive(PartialEq, Eq, Structural, Clone, Copy, Debug)]
pub enum MeasureStep {
    /// Measure the children of a cell group (1 to 4) and widen the definitions to fit them.
    MeasureGroup { group: u8, ignore_desired_size_u: bool, force_infinity_v: bool },
    /// Share the available width among the fill columns.
    ResolveFillU,
    /// Share the available height among the fill rows.
    ResolveFillV,
    /// Remember the minimum sizes of the columns and the rows of the group 3 cells.
    CacheGroup3MinSizes,
    /// Give the columns of the group 3 cells their remembered minimum sizes back.
    RestoreMinSizesU,
    /// Give the rows of the group 3 cells their remembered minimum sizes back.
    RestoreMinSizesV,
}

/// What the order of measuring depends on.
#[derive(PartialEq, Eq, Structural, Clone, Copy, Debug)]
pub struct MeasureFlags {
    pub has_fill_cells_u: bool,
    pub has_fill_cells_v: bool,
    pub has_group_3_cells_in_auto_rows: bool,
    pub group_2_empty: bool,
}

/// The most rounds of the group 2 / group 3 loop.
pub const MAX_MEASURE_ROUNDS: u32 = 6;

/// Measuring a group with the grid's sizes as they are.
pub open spec fn plain_measure(group: u8) -> MeasureStep {
    MeasureStep::MeasureGroup { group, ignore_desired_size_u: false, force_infinity_v: false }
}

/// The step `s` when `c` holds, else nothing.
pub open spec fn step_if(c: bool, s: MeasureStep) -> Seq<MeasureStep> {
    if c {
        seq![s]
    } else {
        Seq::empty()
    }
}

/// Whether the grid must measure groups 2 and 3 in turn until group 2's widths settle: when
/// group 3 cells lie in auto rows and group 2 is not empty.
pub open spec fn needs_loop(f: MeasureFlags) -> bool {
    f.has_group_3_cells_in_auto_rows && !f.group_2_empty
}

/// The steps before the loop (or, without a loop, before group 4). Group 1 comes first. Without
/// group 3 cells in auto rows: fill rows, group 2, fill columns, group 3. With them but no
/// group 2: fill columns, group 3, fill rows. Otherwise the group 3 minimum sizes are cached and
/// group 2 is measured with infinite height.
pub open spec fn measure_start_spec(f: MeasureFlags) -> Seq<MeasureStep> {
    seq![plain_measure(1)] + if !f.has_group_3_cells_in_auto_rows {
        step_if(f.has_fill_cells_v, MeasureStep::ResolveFillV) + seq![plain_measure(2)] + step_if(
            f.has_fill_cells_u,
            MeasureStep::ResolveFillU,
        ) + seq![plain_measure(3)]
    } else if f.group_2_empty {
        step_if(f.has_fill_cells_u, MeasureStep::ResolveFillU) + seq![plain_measure(3)] + step_if(
            f.has_fill_cells_v,
            MeasureStep::ResolveFillV,
        )
    } else {
        seq![
            MeasureStep::CacheGroup3MinSizes,
            MeasureStep::MeasureGroup { group: 2, ignore_desired_size_u: false, force_infinity_v: true },
        ]
    }
}

/// One round of the loop: after group 2's widths changed, the rows get their cached sizes back;
/// fill columns, group 3, the columns' cached sizes back, fill rows, and group 2 again (in the
/// last round without taking its widths).
pub open spec fn measure_round_spec(f: MeasureFlags, changed_before: bool, round: int) -> Seq<
    MeasureStep,
> {
    step_if(changed_before, MeasureStep::RestoreMinSizesV) + step_if(
        f.has_fill_cells_u,
        MeasureStep::ResolveFillU,
    ) + seq![plain_measure(3), MeasureStep::RestoreMinSizesU] + step_if(
        f.has_fill_cells_v,
        MeasureStep::ResolveFillV,
    ) + seq![
        MeasureStep::MeasureGroup {
            group: 2,
            ignore_desired_size_u: round == 5,
            force_infinity_v: false,
        },
    ]
}

/// The flags of a grid's cell groups.
pub fn measure_flags(groups: &CellGroups) -> (f: MeasureFlags)
    ensures
        f.has_fill_cells_u == groups.has_fill_cells_u,
        f.has_fill_cells_v == groups.has_fill_cells_v,
        f.has_group_3_cells_in_auto_rows == groups.has_group_3_cells_in_auto_rows,
        f.group_2_empty == (groups.cell_group_2@.len() == 0),
{
    MeasureFlags {
        has_fill_cells_u: groups.has_fill_cells_u,
        has_fill_cells_v: groups.has_fill_cells_v,
        has_group_3_cells_in_auto_rows: groups.has_group_3_cells_in_auto_rows,
        group_2_empty: groups.cell_group_2.len() == 0,
    }
}

fn push_when(v: &mut Vec<MeasureStep>, c: bool, s: MeasureStep)
    ensures
        final(v)@ == old(v)@ + step_if(c, s),
{
    if c {
        v.push(s);
    }
    assert(old(v)@ + step_if(c, s) == if c {
        old(v)@.push(s)
    } else {
        old(v)@
    });
}

fn measure_step(group: u8) -> (s: MeasureStep)
    ensures
        s == plain_measure(group),
{
    MeasureStep::MeasureGroup { group, ignore_desired_size_u: false, force_infinity_v: false }
}

/// The steps before the loop (or before group 4 when there is no loop).
pub fn measure_start(f: MeasureFlags) -> (steps: Vec<MeasureStep>)
    ensures
        steps@ == measure_start_spec(f),
{
    let mut v: Vec<MeasureStep> = Vec::new();
    v.push(measure_step(1));
    assert(v@ == seq![plain_measure(1)]);
    if !f.has_group_3_cells_in_auto_rows {
        push_when(&mut v, f.has_fill_cells_v, MeasureStep::ResolveFillV);
        v.push(measure_step(2));
        push_when(&mut v, f.has_fill_cells_u, MeasureStep::ResolveFillU);
        v.push(measure_step(3));
        assert(v@ == seq![plain_measure(1)] + (step_if(f.has_fill_cells_v, MeasureStep::ResolveFillV)
            + seq![plain_measure(2)] + step_if(f.has_fill_cells_u, MeasureStep::ResolveFillU) + seq![
            plain_measure(3)]));
    } else if f.group_2_empty {
        push_when(&mut v, f.has_fill_cells_u, MeasureStep::ResolveFillU);
        v.push(measure_step(3));
        push_when(&mut v, f.has_fill_cells_v, MeasureStep::ResolveFillV);
        assert(v@ == seq![plain_measure(1)] + (step_if(f.has_fill_cells_u, MeasureStep::ResolveFillU)
            + seq![plain_measure(3)] + step_if(f.has_fill_cells_v, MeasureStep::ResolveFillV)));
    } else {
        v.push(MeasureStep::CacheGroup3MinSizes);
        v.push(
            MeasureStep::MeasureGroup { group: 2, ignore_desired_size_u: false, force_infinity_v: true },
        );
        assert(v@ == seq![plain_measure(1)] + seq![
            MeasureStep::CacheGroup3MinSizes,
            MeasureStep::MeasureGroup { group: 2, ignore_desired_size_u: false, force_infinity_v: true },
        ]);
    }
    v
}

/// Whether the group 2 / group 3 loop runs.
pub fn measure_needs_loop(f: MeasureFlags) -> (b: bool)
    ensures
        b == needs_loop(f),
{
    f.has_group_3_cells_in_auto_rows && !f.group_2_empty
}

/// The steps of round `round` (counted from 0) of the loop; `changed_before` tells whether the
/// previous round changed a width of group 2.
pub fn measure_round(f: MeasureFlags, changed_before: bool, round: u32) -> (steps: Vec<
    MeasureStep,
>)
    ensures
        steps@ == measure_round_spec(f, changed_before, round as int),
{
    let mut v: Vec<MeasureStep> = Vec::new();
    push_when(&mut v, changed_before, MeasureStep::RestoreMinSizesV);
    push_when(&mut v, f.has_fill_cells_u, MeasureStep::ResolveFillU);
    v.push(measure_step(3));
    v.push(MeasureStep::RestoreMinSizesU);
    push_when(&mut v, f.has_fill_cells_v, MeasureStep::ResolveFillV);
    v.push(
        MeasureStep::MeasureGroup { group: 2, ignore_desired_size_u: round == 5, force_infinity_v: false },
    );
    assert(v@ == measure_round_spec(f, changed_before, round as int));
    v
}

/// Whether another round follows the one numbered `round` (counted from 0), in which group 2's
/// widths changed or not: while they change, for at most six rounds.
pub fn measure_round_follows(changed: bool, round: u32) -> (b: bool)
    ensures
        b == (changed && round + 1 < MAX_MEASURE_ROUNDS),
{
    changed && round < MAX_MEASURE_ROUNDS - 1
}

/// The last step: group 4.
pub fn measure_end() -> (s: MeasureStep)
    ensures
        s == plain_measure(4),
{
    measure_step(4)
}

/// Every measuring starts with group 1, and outside the loop groups 2 and 3 are measured once
/// each when there is no loop.
pub proof fn lemma_group_one_first(f: MeasureFlags)
    ensures
        measure_start_spec(f)[0] == plain_measure(1),
        !needs_loop(f) ==> measure_start_spec(f).contains(plain_measure(3)),
        !f.has_group_3_cells_in_auto_rows ==> measure_start_spec(f).contains(plain_measure(2)),
{
    let s = measure_start_spec(f);
    if !f.has_group_3_cells_in_auto_rows {
        let k = 2 + (if f.has_fill_cells_v { 1int } else { 0 }) + (if f.has_fill_cells_u { 1int } else { 0 });
        assert(s[k] == plain_measure(3));
        let j = 1 + (if f.has_fill_cells_v { 1int } else { 0 });
        assert(s[j] == plain_measure(2));
    } else if f.group_2_empty {
        let k = 1 + (if f.has_fill_cells_u { 1int } else { 0 });
        assert(s[k] == plain_measure(3));
    }
}

/// Every round of the loop ends by measuring group 2, taking its widths in all rounds but the
/// last one that can follow.
pub proof fn lemma_round_ends_with_group_two(f: MeasureFlags, changed_before: bool, round: u32)
    ensures
        measure_round_spec(f, changed_before, round as int).last() == (MeasureStep::MeasureGroup {
            group: 2,
            ignore_desired_size_u: round + 1 == MAX_MEASURE_ROUNDS,
            force_infinity_v: false,
        }),
{
}

} // verus!
