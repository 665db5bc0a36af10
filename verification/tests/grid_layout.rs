use fui::grid_measure::{
    measure_end, measure_flags, measure_needs_loop, measure_round, measure_round_follows,
    measure_start, MeasureFlags, MeasureStep,
};
use fui::grid::{
    decide_number_of_rows_and_columns, definition_values, prepare_cell_cache, CellCache,
    GridAttachment, LengthKind,
};

fn free() -> GridAttachment {
    GridAttachment { row: None, row_span: None, column: None, column_span: None }
}

fn at(row: i32, column: i32) -> GridAttachment {
    GridAttachment { row: Some(row), row_span: None, column: Some(column), column_span: None }
}

#[test]
fn columns_given_rows_follow_children() {
    let children = vec![free(); 5];
    assert_eq!(decide_number_of_rows_and_columns(0, 2, &children), (3, 2));
    assert_eq!(decide_number_of_rows_and_columns(4, 2, &children), (4, 2));
}

#[test]
fn rows_given_columns_follow_children() {
    let children = vec![free(); 7];
    assert_eq!(decide_number_of_rows_and_columns(3, 0, &children), (3, 3));
}

#[test]
fn no_counts_no_cells() {
    let children = vec![free(); 3];
    assert_eq!(decide_number_of_rows_and_columns(0, 0, &children), (0, 0));
}

#[test]
fn empty_grid_with_columns_has_one_row() {
    assert_eq!(decide_number_of_rows_and_columns(0, 3, &vec![]), (1, 3));
    assert_eq!(decide_number_of_rows_and_columns(2, 0, &vec![]), (2, 1));
}

#[test]
fn empty_grid_with_a_single_line_has_no_other_lines() {
    assert_eq!(decide_number_of_rows_and_columns(0, 1, &vec![]), (0, 1));
    assert_eq!(decide_number_of_rows_and_columns(1, 0, &vec![]), (1, 0));
}

#[test]
fn attached_children_grow_the_grid() {
    let mut spanning = at(1, 2);
    spanning.row_span = Some(3);
    let children = vec![free(), spanning];
    assert_eq!(decide_number_of_rows_and_columns(0, 1, &children), (4, 3));
    assert_eq!(decide_number_of_rows_and_columns(6, 5, &children), (6, 5));
}

#[test]
fn definition_values_apply_overrides_in_order() {
    let kinds = definition_values(
        4,
        LengthKind::Auto,
        &vec![(1, LengthKind::Fill), (3, LengthKind::Exact), (1, LengthKind::Exact), (7, LengthKind::Fill), (-1, LengthKind::Fill)],
    );
    assert_eq!(kinds, vec![LengthKind::Auto, LengthKind::Exact, LengthKind::Auto, LengthKind::Exact]);
}

fn cell(child: usize, row: usize, column: usize, fill_u: bool, fill_v: bool) -> CellCache {
    CellCache {
        child_index: child,
        column_index: column,
        row_index: row,
        column_span: 1,
        row_span: 1,
        is_fill_u: fill_u,
        is_auto_u: !fill_u,
        is_fill_v: fill_v,
        is_auto_v: !fill_v,
    }
}

#[test]
fn horizontal_flow_fills_rows() {
    let ku = vec![LengthKind::Auto, LengthKind::Fill];
    let kv = vec![LengthKind::Auto, LengthKind::Auto];
    let g = prepare_cell_cache(true, &ku, &kv, &vec![free(); 3]);
    assert_eq!(g.cell_group_1, vec![cell(0, 0, 0, false, false), cell(2, 1, 0, false, false)]);
    assert_eq!(g.cell_group_3, vec![cell(1, 0, 1, true, false)]);
    assert!(g.cell_group_2.is_empty());
    assert!(g.cell_group_4.is_empty());
    assert!(g.has_fill_cells_u);
    assert!(!g.has_fill_cells_v);
    assert!(g.has_group_3_cells_in_auto_rows);
}

#[test]
fn vertical_flow_fills_columns() {
    let ku = vec![LengthKind::Auto, LengthKind::Auto];
    let kv = vec![LengthKind::Fill, LengthKind::Auto];
    let g = prepare_cell_cache(false, &ku, &kv, &vec![free(); 3]);
    assert_eq!(g.cell_group_2, vec![cell(0, 0, 0, false, true), cell(2, 0, 1, false, true)]);
    assert_eq!(g.cell_group_1, vec![cell(1, 1, 0, false, false)]);
    assert!(g.has_fill_cells_v);
    assert!(!g.has_fill_cells_u);
}

#[test]
fn attached_child_moves_the_flow_and_outside_cells_are_dropped() {
    let ku = vec![LengthKind::Auto, LengthKind::Auto];
    let kv = vec![LengthKind::Auto, LengthKind::Auto];
    let g = prepare_cell_cache(true, &ku, &kv, &vec![at(1, 0), free(), at(5, 5), free()]);
    // the second child follows the first at (1, 1); the third lies outside; the fourth
    // continues after it and falls out of the grid too
    assert_eq!(g.cell_group_1, vec![cell(0, 1, 0, false, false), cell(1, 1, 1, false, false)]);
}

#[test]
fn mixed_fill_goes_to_group_four() {
    let ku = vec![LengthKind::Fill];
    let kv = vec![LengthKind::Fill];
    let g = prepare_cell_cache(true, &ku, &kv, &vec![free()]);
    assert_eq!(g.cell_group_4, vec![cell(0, 0, 0, true, true)]);
    assert!(!g.has_group_3_cells_in_auto_rows);
}

fn plain(group: u8) -> MeasureStep {
    MeasureStep::MeasureGroup { group, ignore_desired_size_u: false, force_infinity_v: false }
}

fn flags(fill_u: bool, fill_v: bool, g3_auto: bool, g2_empty: bool) -> MeasureFlags {
    MeasureFlags {
        has_fill_cells_u: fill_u,
        has_fill_cells_v: fill_v,
        has_group_3_cells_in_auto_rows: g3_auto,
        group_2_empty: g2_empty,
    }
}

#[test]
fn measure_order_without_group_3_in_auto_rows() {
    let f = flags(true, true, false, false);
    assert_eq!(
        measure_start(f),
        vec![plain(1), MeasureStep::ResolveFillV, plain(2), MeasureStep::ResolveFillU, plain(3)]
    );
    assert!(!measure_needs_loop(f));
    assert_eq!(measure_start(flags(false, false, false, true)), vec![plain(1), plain(2), plain(3)]);
    assert_eq!(measure_end(), plain(4));
}

#[test]
fn measure_order_with_group_3_in_auto_rows() {
    let f = flags(true, true, true, true);
    assert_eq!(
        measure_start(f),
        vec![plain(1), MeasureStep::ResolveFillU, plain(3), MeasureStep::ResolveFillV]
    );
    assert!(!measure_needs_loop(f));
    let g = flags(true, false, true, false);
    assert!(measure_needs_loop(g));
    assert_eq!(
        measure_start(g),
        vec![
            plain(1),
            MeasureStep::CacheGroup3MinSizes,
            MeasureStep::MeasureGroup { group: 2, ignore_desired_size_u: false, force_infinity_v: true },
        ]
    );
}

#[test]
fn measure_loop_rounds() {
    let g = flags(true, false, true, false);
    assert_eq!(
        measure_round(g, false, 0),
        vec![MeasureStep::ResolveFillU, plain(3), MeasureStep::RestoreMinSizesU, plain(2)]
    );
    assert_eq!(
        measure_round(g, true, 5),
        vec![
            MeasureStep::RestoreMinSizesV,
            MeasureStep::ResolveFillU,
            plain(3),
            MeasureStep::RestoreMinSizesU,
            MeasureStep::MeasureGroup { group: 2, ignore_desired_size_u: true, force_infinity_v: false },
        ]
    );
    assert!(measure_round_follows(true, 0));
    assert!(measure_round_follows(true, 4));
    assert!(!measure_round_follows(true, 5));
    assert!(!measure_round_follows(false, 0));
}

#[test]
fn measure_flags_from_groups() {
    let ku = vec![LengthKind::Fill];
    let kv = vec![LengthKind::Auto];
    let g = prepare_cell_cache(true, &ku, &kv, &vec![free()]);
    assert_eq!(measure_flags(&g), flags(true, false, true, true));
}
