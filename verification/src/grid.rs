use vstd::prelude::*;

verus! {

/// The kind of a column width or row height: sized to the content, an exact size, or a share
/// of the free space. (The sizes themselves belong to the layout arithmetic.)
#[derive(PartialEq, Eq, Structural, Clone, Copy, Debug)]
pub enum LengthKind {
    Auto,
    Exact,
    Fill,
}

/// The values that a child attaches for the grid: its row, column and spans, where given.
#[derive(PartialEq, Eq, Structural, Clone, Copy, Debug)]
pub struct GridAttachment {
    pub row: Option<i32>,
    pub row_span: Option<i32>,
    pub column: Option<i32>,
    pub column_span: Option<i32>,
}

/// The last row (or column) that an attachment reaches: `start + span - 1`, the start alone
/// without a span, and -1 without a start.
pub open spec fn attached_last(start: Option<i32>, span: Option<i32>) -> int {
    match start {
        Some(s) => match span {
            Some(n) => s + n - 1,
            None => s as int,
        },
        None => -1,
    }
}

pub open spec fn max_int(a: int, b: int) -> int {
    if a >= b {
        a
    } else {
        b
    }
}

/// The largest last row that the first `k` children reach (-1 for none).
pub open spec fn max_attached_row(cs: Seq<GridAttachment>, k: nat) -> int
    decreases k,
{
    if k == 0 {
        -1
    } else {
        max_int(
            max_attached_row(cs, (k - 1) as nat),
            attached_last(cs[k - 1].row, cs[k - 1].row_span),
        )
    }
}

/// The largest last column that the first `k` children reach (-1 for none).
pub open spec fn max_attached_column(cs: Seq<GridAttachment>, k: nat) -> int
    decreases k,
{
    if k == 0 {
        -1
    } else {
        max_int(
            max_attached_column(cs, (k - 1) as nat),
            attached_last(cs[k - 1].column, cs[k - 1].column_span),
        )
    }
}

/// `(n - 1) / d + 1` with the quotient truncated toward zero, for `n >= 0` and `d > 0`: the
/// number of lines that `n` children need at `d` per line, which for no children is 0 when
/// `d` is 1 and 1 otherwise.
pub open spec fn lines_needed(n: int, d: int) -> int {
    if n == 0 {
        if d == 1 {
            0
        } else {
            1
        }
    } else {
        (n - 1) / d + 1
    }
}

/// The number of rows and columns of a grid. When a child is placed explicitly, the grid
/// grows to reach every placed child; otherwise children flow row by row (when a column count
/// is given) or column by column (when only a row count is given) and the other count is what
/// they need; with neither the grid has no rows and no columns.
pub open spec fn grid_dimensions(rows: int, columns: int, cs: Seq<GridAttachment>) -> (int, int) {
    let mr = max_attached_row(cs, cs.len());
    let mc = max_attached_column(cs, cs.len());
    let n = cs.len() as int;
    if mr >= 0 || mc >= 0 {
        (max_int(max_int(rows, mr + 1), 0), max_int(max_int(columns, mc + 1), 0))
    } else if columns > 0 {
        (
            if rows > 0 {
                rows
            } else {
                lines_needed(n, columns)
            },
            columns,
        )
    } else if rows > 0 {
        (rows, lines_needed(n, rows))
    } else {
        (0, 0)
    }
}

/// Decides how many rows and columns a grid has (see `grid_dimensions`). Returns
/// `(rows, columns)`.
pub fn decide_number_of_rows_and_columns(rows: i32, columns: i32, children: &Vec<
    GridAttachment,
>) -> (r: (usize, usize))
    requires
        children.len() <= i32::MAX,
        forall|k: int|
            0 <= k < children.len() ==> i32::MIN <= attached_last(
                (#[trigger] children@[k]).row,
                children@[k].row_span,
            ) < i32::MAX && i32::MIN <= attached_last(
                children@[k].column,
                children@[k].column_span,
            ) < i32::MAX,
    ensures
        r.0 as int == grid_dimensions(rows as int, columns as int, children@).0,
        r.1 as int == grid_dimensions(rows as int, columns as int, children@).1,
{
    let mut max_row: i32 = -1;
    let mut max_column: i32 = -1;
    let mut k: usize = 0;
    while k < children.len()
        invariant
            k <= children.len(),
            forall|j: int|
                0 <= j < children.len() ==> i32::MIN <= attached_last(
                    (#[trigger] children@[j]).row,
                    children@[j].row_span,
                ) < i32::MAX && i32::MIN <= attached_last(
                    children@[j].column,
                    children@[j].column_span,
                ) < i32::MAX,
            max_row as int == max_attached_row(children@, k as nat),
            max_column as int == max_attached_column(children@, k as nat),
            -1 <= max_row < i32::MAX,
            -1 <= max_column < i32::MAX,
        decreases children.len() - k,
    {
        let c = children[k];
        let last_row: i32 = match c.row {
            Some(r) => match c.row_span {
                Some(s) => r + s - 1,
                None => r,
            },
            None => -1,
        };
        if last_row > max_row {
            max_row = last_row;
        }
        let last_column: i32 = match c.column {
            Some(col) => match c.column_span {
                Some(s) => col + s - 1,
                None => col,
            },
            None => -1,
        };
        if last_column > max_column {
            max_column = last_column;
        }
        k += 1;
    }
    let n = children.len() as i32;
    let number_of_rows: i32;
    let number_of_columns: i32;
    if max_row >= 0 || max_column >= 0 {
        let r = if rows > max_row + 1 {
            rows
        } else {
            max_row + 1
        };
        let c = if columns > max_column + 1 {
            columns
        } else {
            max_column + 1
        };
        number_of_rows = if r > 0 {
            r
        } else {
            0
        };
        number_of_columns = if c > 0 {
            c
        } else {
            0
        };
    } else if columns > 0 {
        number_of_columns = columns;
        number_of_rows = if rows > 0 {
            rows
        } else if n == 0 {
            if columns == 1 {
                0
            } else {
                1
            }
        } else {
            (n - 1) / columns + 1
        };
    } else if rows > 0 {
        number_of_rows = rows;
        number_of_columns = if n == 0 {
            if rows == 1 {
                0
            } else {
                1
            }
        } else {
            (n - 1) / rows + 1
        };
    } else {
        number_of_rows = 0;
        number_of_columns = 0;
    }
    (number_of_rows as usize, number_of_columns as usize)
}

/// The values of `count` definitions (their lengths, or their minimum or maximum sizes):
/// `default`, then each `(index, value)` of `overrides` in turn sets its index when the index
/// lies in the grid.
pub open spec fn definition_values_spec<T>(count: int, default: T, overrides: Seq<(i32, T)>) -> Seq<T>
    decreases overrides.len(),
{
    if overrides.len() == 0 {
        Seq::new(count as nat, |i: int| default)
    } else {
        let prev = definition_values_spec(count, default, overrides.drop_last());
        let (i, value) = overrides.last();
        if 0 <= i < count {
            prev.update(i as int, value)
        } else {
            prev
        }
    }
}

/// The values of the widths (or heights, or their minimum or maximum sizes) of a grid with
/// `count` columns (or rows). An override whose index equals `count` is left out: there the
/// indexing fails.
pub fn definition_values<T: Copy>(count: usize, default: T, overrides: &Vec<(i32, T)>) -> (r:
    Vec<T>)
    requires
        count <= i32::MAX,
        forall|k: int| 0 <= k < overrides.len() ==> (#[trigger] overrides@[k]).0 != count,
    ensures
        r@ == definition_values_spec(count as int, default, overrides@),
{
    let mut r: Vec<T> = Vec::new();
    for i in 0..count
        invariant
            r@ == Seq::new(i as nat, |j: int| default),
    {
        r.push(default);
        assert(r@ == Seq::new((i + 1) as nat, |j: int| default));
    }
    assert(overrides@.take(0) =~= Seq::<(i32, T)>::empty());
    for k in 0..overrides.len()
        invariant
            forall|j: int| 0 <= j < overrides.len() ==> (#[trigger] overrides@[j]).0 != count,
            r@ == definition_values_spec(count as int, default, overrides@.take(k as int)),
            r@.len() == count,
    {
        let (i, value) = overrides[k];
        assert(overrides@.take(k + 1).drop_last() == overrides@.take(k as int));
        if i >= 0 && (i as usize) <= r.len() {
            r.set(i as usize, value);
        }
    }
    assert(overrides@.take(overrides.len() as int) == overrides@);
    r
}

/// A child's place in the grid, with the kinds of definitions that its cell spans.
#[derive(PartialEq, Eq, Structural, Clone, Copy, Debug)]
pub struct CellCache {
    pub child_index: usize,
    pub column_index: usize,
    pub row_index: usize,
    pub column_span: usize,
    pub row_span: usize,
    pub is_fill_u: bool,
    pub is_auto_u: bool,
    pub is_fill_v: bool,
    pub is_auto_v: bool,
}

/// Where the flow stands after placing `(row, col)`: the next column (wrapping to the next row)
/// in a horizontal flow, the next row (wrapping to the next column) otherwise.
pub open spec fn flow_advance(row: int, col: int, horizontal: bool, nu: int, nv: int) -> (int, int) {
    if horizontal {
        if col + 1 >= nu {
            (row + 1, 0)
        } else {
            (row, col + 1)
        }
    } else {
        if row + 1 >= nv {
            (0, col + 1)
        } else {
            (row + 1, col)
        }
    }
}

/// The `(row, column)` where child `k` is placed: its attached row and column, or else where
/// the flow stands.
pub open spec fn cell_position(cs: Seq<GridAttachment>, horizontal: bool, nu: int, nv: int, k: nat) -> (
    int,
    int,
)
    decreases k, 1int,
{
    let st = flow_state(cs, horizontal, nu, nv, k);
    (
        match cs[k as int].row {
            Some(r) => r as int,
            None => st.0,
        },
        match cs[k as int].column {
            Some(c) => c as int,
            None => st.1,
        },
    )
}

/// Where the flow stands before child `k`.
pub open spec fn flow_state(cs: Seq<GridAttachment>, horizontal: bool, nu: int, nv: int, k: nat) -> (
    int,
    int,
)
    decreases k, 0int,
{
    if k == 0 {
        (0, 0)
    } else {
        let p = cell_position(cs, horizontal, nu, nv, (k - 1) as nat);
        flow_advance(p.0, p.1, horizontal, nu, nv)
    }
}

pub open spec fn span_of(span: Option<i32>) -> int {
    match span {
        Some(s) => s as int,
        None => 1,
    }
}

/// Whether a child placed at `(row, col)` lies inside a grid of `nu` columns and `nv` rows,
/// with positive spans.
pub open spec fn cell_valid_at(a: GridAttachment, row: int, col: int, nu: int, nv: int) -> bool {
    let rs = span_of(a.row_span);
    let csp = span_of(a.column_span);
    &&& 0 <= col < nu
    &&& 0 <= row < nv
    &&& csp >= 1
    &&& rs >= 1
    &&& col + csp - 1 < nu
    &&& row + rs - 1 < nv
}

/// Whether a definition of `kind` lies in `[start, start + count)`.
pub open spec fn range_has(kinds: Seq<LengthKind>, start: int, count: int, kind: LengthKind) -> bool {
    exists|i: int| start <= i < start + count && kinds[i] == kind
}

/// The cell of child `k` placed at `(row, col)`.
pub open spec fn cell_at(
    a: GridAttachment,
    row: int,
    col: int,
    kinds_u: Seq<LengthKind>,
    kinds_v: Seq<LengthKind>,
    k: nat,
) -> CellCache {
    let rs = span_of(a.row_span);
    let csp = span_of(a.column_span);
    CellCache {
        child_index: k as usize,
        column_index: col as usize,
        row_index: row as usize,
        column_span: csp as usize,
        row_span: rs as usize,
        is_fill_u: range_has(kinds_u, col, csp, LengthKind::Fill),
        is_auto_u: range_has(kinds_u, col, csp, LengthKind::Auto),
        is_fill_v: range_has(kinds_v, row, rs, LengthKind::Fill),
        is_auto_v: range_has(kinds_v, row, rs, LengthKind::Auto),
    }
}

/// Whether the cell of child `k` lies inside the grid with positive spans.
pub open spec fn cell_valid(cs: Seq<GridAttachment>, horizontal: bool, nu: int, nv: int, k: nat) -> bool {
    let p = cell_position(cs, horizontal, nu, nv, k);
    cell_valid_at(cs[k as int], p.0, p.1, nu, nv)
}

/// The cell of child `k` (meaningful when `cell_valid`).
pub open spec fn cell_of(
    cs: Seq<GridAttachment>,
    horizontal: bool,
    kinds_u: Seq<LengthKind>,
    kinds_v: Seq<LengthKind>,
    k: nat,
) -> CellCache {
    let p = cell_position(cs, horizontal, kinds_u.len() as int, kinds_v.len() as int, k);
    cell_at(cs[k as int], p.0, p.1, kinds_u, kinds_v, k)
}

/// The measuring group of a cell: 1 without fill in either direction, 3 with fill only across,
/// 2 with fill down and auto (not fill) across, 4 with fill down otherwise.
pub open spec fn cell_group(c: CellCache) -> int {
    if !c.is_fill_v {
        if !c.is_fill_u {
            1
        } else {
            3
        }
    } else {
        if c.is_auto_u && !c.is_fill_u {
            2
        } else {
            4
        }
    }
}

/// The cells of group `g` among the first `k` children, in order.
pub open spec fn group_cells(
    cs: Seq<GridAttachment>,
    horizontal: bool,
    kinds_u: Seq<LengthKind>,
    kinds_v: Seq<LengthKind>,
    k: nat,
    g: int,
) -> Seq<CellCache>
    decreases k,
{
    if k == 0 {
        Seq::empty()
    } else {
        let prev = group_cells(cs, horizontal, kinds_u, kinds_v, (k - 1) as nat, g);
        let j = (k - 1) as nat;
        if cell_valid(cs, horizontal, kinds_u.len() as int, kinds_v.len() as int, j) && cell_group(
            cell_of(cs, horizontal, kinds_u, kinds_v, j),
        ) == g {
            prev.push(cell_of(cs, horizontal, kinds_u, kinds_v, j))
        } else {
            prev
        }
    }
}

/// Whether some valid cell among the first `k` children satisfies `p`.
pub open spec fn some_cell(
    cs: Seq<GridAttachment>,
    horizontal: bool,
    kinds_u: Seq<LengthKind>,
    kinds_v: Seq<LengthKind>,
    k: nat,
    p: spec_fn(CellCache) -> bool,
) -> bool {
    exists|j: nat|
        j < k && cell_valid(cs, horizontal, kinds_u.len() as int, kinds_v.len() as int, j) && p(
            #[trigger] cell_of(cs, horizontal, kinds_u, kinds_v, j),
        )
}

/// The children's cells sorted into the four measuring groups, with what the measuring needs
/// to know of them.
pub struct CellGroups {
    pub cell_group_1: Vec<CellCache>,
    pub cell_group_2: Vec<CellCache>,
    pub cell_group_3: Vec<CellCache>,
    pub cell_group_4: Vec<CellCache>,
    pub has_fill_cells_u: bool,
    pub has_fill_cells_v: bool,
    pub has_group_3_cells_in_auto_rows: bool,
}

proof fn lemma_flow_bounds(cs: Seq<GridAttachment>, horizontal: bool, nu: int, nv: int, k: nat)
    requires
        k <= cs.len(),
    ensures
        -2147483648 - k <= flow_state(cs, horizontal, nu, nv, k).0 <= 2147483648 + k,
        -2147483648 - k <= flow_state(cs, horizontal, nu, nv, k).1 <= 2147483648 + k,
    decreases k,
{
    if k > 0 {
        lemma_flow_bounds(cs, horizontal, nu, nv, (k - 1) as nat);
    }
}

/// Whether a definition of `kind` lies in `kinds[start .. start + count)`.
fn kinds_in_range(kinds: &Vec<LengthKind>, start: usize, count: usize, kind: LengthKind) -> (r: bool)
    requires
        start + count <= kinds.len(),
    ensures
        r == range_has(kinds@, start as int, count as int, kind),
{
    let mut i = start;
    while i < start + count
        invariant
            start <= i <= start + count <= kinds.len(),
            forall|j: int| start <= j < i ==> kinds@[j] != kind,
        decreases start + count - i,
    {
        if kinds[i] == kind {
            return true;
        }
        i += 1;
    }
    false
}

/// The cell of a child placed at `(row, column)`, or `None` when it does not lie inside the
/// grid.
fn child_cell(
    a: GridAttachment,
    row_index: i64,
    column_index: i64,
    kinds_u: &Vec<LengthKind>,
    kinds_v: &Vec<LengthKind>,
    k: usize,
) -> (r: Option<CellCache>)
    requires
        -4294967296 <= row_index <= 4294967296,
        -4294967296 <= column_index <= 4294967296,
        kinds_u.len() <= i32::MAX,
        kinds_v.len() <= i32::MAX,
    ensures
        match r {
            Some(c) => cell_valid_at(
                a,
                row_index as int,
                column_index as int,
                kinds_u.len() as int,
                kinds_v.len() as int,
            ) && c == cell_at(a, row_index as int, column_index as int, kinds_u@, kinds_v@, k as nat),
            None => !cell_valid_at(
                a,
                row_index as int,
                column_index as int,
                kinds_u.len() as int,
                kinds_v.len() as int,
            ),
        },
{
    let nu = kinds_u.len() as i64;
    let nv = kinds_v.len() as i64;
    let row_span: i64 = match a.row_span {
        Some(s) => s as i64,
        None => 1,
    };
    let column_span: i64 = match a.column_span {
        Some(s) => s as i64,
        None => 1,
    };
    if column_index >= 0 && column_index < nu && row_index >= 0 && row_index < nv
        && column_span >= 1 && row_span >= 1 && column_index + column_span - 1 < nu
        && row_index + row_span - 1 < nv {
        let is_fill_u = kinds_in_range(
            kinds_u,
            column_index as usize,
            column_span as usize,
            LengthKind::Fill,
        );
        let is_auto_u = kinds_in_range(
            kinds_u,
            column_index as usize,
            column_span as usize,
            LengthKind::Auto,
        );
        let is_fill_v = kinds_in_range(kinds_v, row_index as usize, row_span as usize, LengthKind::Fill);
        let is_auto_v = kinds_in_range(kinds_v, row_index as usize, row_span as usize, LengthKind::Auto);
        Some(
            CellCache {
                child_index: k,
                column_index: column_index as usize,
                row_index: row_index as usize,
                column_span: column_span as usize,
                row_span: row_span as usize,
                is_fill_u,
                is_auto_u,
                is_fill_v,
                is_auto_v,
            },
        )
    } else {
        None
    }
}

proof fn lemma_group_cells_step(
    cs: Seq<GridAttachment>,
    horizontal: bool,
    kinds_u: Seq<LengthKind>,
    kinds_v: Seq<LengthKind>,
    k: nat,
    g: int,
)
    ensures
        group_cells(cs, horizontal, kinds_u, kinds_v, k + 1, g) == if cell_valid(
            cs,
            horizontal,
            kinds_u.len() as int,
            kinds_v.len() as int,
            k,
        ) && cell_group(cell_of(cs, horizontal, kinds_u, kinds_v, k)) == g {
            group_cells(cs, horizontal, kinds_u, kinds_v, k, g).push(
                cell_of(cs, horizontal, kinds_u, kinds_v, k),
            )
        } else {
            group_cells(cs, horizontal, kinds_u, kinds_v, k, g)
        },
{
}

proof fn lemma_some_cell_step(
    cs: Seq<GridAttachment>,
    horizontal: bool,
    kinds_u: Seq<LengthKind>,
    kinds_v: Seq<LengthKind>,
    k: nat,
    p: spec_fn(CellCache) -> bool,
)
    ensures
        some_cell(cs, horizontal, kinds_u, kinds_v, k + 1, p) == (some_cell(
            cs,
            horizontal,
            kinds_u,
            kinds_v,
            k,
            p,
        ) || (cell_valid(cs, horizontal, kinds_u.len() as int, kinds_v.len() as int, k) && p(
            cell_of(cs, horizontal, kinds_u, kinds_v, k),
        ))),
{
    let nu = kinds_u.len() as int;
    let nv = kinds_v.len() as int;
    if cell_valid(cs, horizontal, nu, nv, k) && p(cell_of(cs, horizontal, kinds_u, kinds_v, k)) {
        assert(some_cell(cs, horizontal, kinds_u, kinds_v, k + 1, p));
    }
    if some_cell(cs, horizontal, kinds_u, kinds_v, k, p) {
        let j = choose|j: nat|
            j < k && cell_valid(cs, horizontal, nu, nv, j) && p(
                #[trigger] cell_of(cs, horizontal, kinds_u, kinds_v, j),
            );
        assert(some_cell(cs, horizontal, kinds_u, kinds_v, k + 1, p));
    }
    if some_cell(cs, horizontal, kinds_u, kinds_v, k + 1, p) {
        let j = choose|j: nat|
            j < k + 1 && cell_valid(cs, horizontal, nu, nv, j) && p(
                #[trigger] cell_of(cs, horizontal, kinds_u, kinds_v, j),
            );
        if j < k {
            assert(some_cell(cs, horizontal, kinds_u, kinds_v, k, p));
        }
    }
}

/// Places every child in a cell and sorts the cells into the four measuring groups. Children
/// flow row by row when `horizontal_flow`, column by column otherwise; a child's attached
/// row and column override the flow, which then continues from there. A child whose cell does
/// not lie inside the grid gets no cell.
pub fn prepare_cell_cache(
    horizontal_flow: bool,
    kinds_u: &Vec<LengthKind>,
    kinds_v: &Vec<LengthKind>,
    children: &Vec<GridAttachment>,
) -> (r: CellGroups)
    requires
        children.len() <= i32::MAX,
        kinds_u.len() <= i32::MAX,
        kinds_v.len() <= i32::MAX,
    ensures
        r.cell_group_1@ == group_cells(
            children@,
            horizontal_flow,
            kinds_u@,
            kinds_v@,
            children.len() as nat,
            1,
        ),
        r.cell_group_2@ == group_cells(
            children@,
            horizontal_flow,
            kinds_u@,
            kinds_v@,
            children.len() as nat,
            2,
        ),
        r.cell_group_3@ == group_cells(
            children@,
            horizontal_flow,
            kinds_u@,
            kinds_v@,
            children.len() as nat,
            3,
        ),
        r.cell_group_4@ == group_cells(
            children@,
            horizontal_flow,
            kinds_u@,
            kinds_v@,
            children.len() as nat,
            4,
        ),
        r.has_fill_cells_u == some_cell(
            children@,
            horizontal_flow,
            kinds_u@,
            kinds_v@,
            children.len() as nat,
            |c: CellCache| c.is_fill_u,
        ),
        r.has_fill_cells_v == some_cell(
            children@,
            horizontal_flow,
            kinds_u@,
            kinds_v@,
            children.len() as nat,
            |c: CellCache| c.is_fill_v,
        ),
        r.has_group_3_cells_in_auto_rows == some_cell(
            children@,
            horizontal_flow,
            kinds_u@,
            kinds_v@,
            children.len() as nat,
            |c: CellCache| cell_group(c) == 3 && c.is_auto_v,
        ),
{
    let ghost cs = children@;
    let ghost ku = kinds_u@;
    let ghost kv = kinds_v@;
    let ghost nu = kinds_u.len() as int;
    let ghost nv = kinds_v.len() as int;
    let ghost pu = |c: CellCache| c.is_fill_u;
    let ghost pv = |c: CellCache| c.is_fill_v;
    let ghost p3 = |c: CellCache| cell_group(c) == 3 && c.is_auto_v;
    let nu_e = kinds_u.len() as i64;
    let nv_e = kinds_v.len() as i64;
    let mut g1: Vec<CellCache> = Vec::new();
    let mut g2: Vec<CellCache> = Vec::new();
    let mut g3: Vec<CellCache> = Vec::new();
    let mut g4: Vec<CellCache> = Vec::new();
    let mut fill_u = false;
    let mut fill_v = false;
    let mut g3_auto = false;
    let mut row_index: i64 = 0;
    let mut column_index: i64 = 0;
    let mut k: usize = 0;
    while k < children.len()
        invariant
            k <= children.len() <= i32::MAX,
            cs == children@,
            ku == kinds_u@,
            kv == kinds_v@,
            nu == kinds_u.len(),
            nv == kinds_v.len(),
            nu_e == nu,
            nv_e == nv,
            nu <= i32::MAX,
            nv <= i32::MAX,
            pu == (|c: CellCache| c.is_fill_u),
            pv == (|c: CellCache| c.is_fill_v),
            p3 == (|c: CellCache| cell_group(c) == 3 && c.is_auto_v),
            (row_index as int, column_index as int) == flow_state(cs, horizontal_flow, nu, nv, k as nat),
            g1@ == group_cells(cs, horizontal_flow, ku, kv, k as nat, 1),
            g2@ == group_cells(cs, horizontal_flow, ku, kv, k as nat, 2),
            g3@ == group_cells(cs, horizontal_flow, ku, kv, k as nat, 3),
            g4@ == group_cells(cs, horizontal_flow, ku, kv, k as nat, 4),
            fill_u == some_cell(cs, horizontal_flow, ku, kv, k as nat, pu),
            fill_v == some_cell(cs, horizontal_flow, ku, kv, k as nat, pv),
            g3_auto == some_cell(cs, horizontal_flow, ku, kv, k as nat, p3),
        decreases children.len() - k,
    {
        proof {
            lemma_flow_bounds(cs, horizontal_flow, nu, nv, k as nat);
            lemma_group_cells_step(cs, horizontal_flow, ku, kv, k as nat, 1);
            lemma_group_cells_step(cs, horizontal_flow, ku, kv, k as nat, 2);
            lemma_group_cells_step(cs, horizontal_flow, ku, kv, k as nat, 3);
            lemma_group_cells_step(cs, horizontal_flow, ku, kv, k as nat, 4);
            lemma_some_cell_step(cs, horizontal_flow, ku, kv, k as nat, pu);
            lemma_some_cell_step(cs, horizontal_flow, ku, kv, k as nat, pv);
            lemma_some_cell_step(cs, horizontal_flow, ku, kv, k as nat, p3);
        }
        let c = children[k];
        if let Some(row) = c.row {
            row_index = row as i64;
        }
        if let Some(column) = c.column {
            column_index = column as i64;
        }
        assert(cell_position(cs, horizontal_flow, nu, nv, k as nat) == (
            row_index as int,
            column_index as int,
        ));
        match child_cell(c, row_index, column_index, kinds_u, kinds_v, k) {
            Some(cache) => {
                assert(cache == cell_of(cs, horizontal_flow, ku, kv, k as nat));
                assert(pu(cache) == cache.is_fill_u);
                assert(pv(cache) == cache.is_fill_v);
                assert(p3(cache) == (cell_group(cache) == 3 && cache.is_auto_v));
                if cache.is_fill_u {
                    fill_u = true;
                }
                if cache.is_fill_v {
                    fill_v = true;
                }
                if !cache.is_fill_v {
                    if !cache.is_fill_u {
                        g1.push(cache);
                    } else {
                        g3.push(cache);
                        if cache.is_auto_v {
                            g3_auto = true;
                        }
                    }
                } else {
                    if cache.is_auto_u && !cache.is_fill_u {
                        g2.push(cache);
                    } else {
                        g4.push(cache);
                    }
                }
            },
            None => {
                assert(!cell_valid(cs, horizontal_flow, nu, nv, k as nat));
            },
        }
        if horizontal_flow {
            column_index += 1;
            if column_index >= nu_e {
                column_index = 0;
                row_index += 1;
            }
        } else {
            row_index += 1;
            if row_index >= nv_e {
                row_index = 0;
                column_index += 1;
            }
        }
        k += 1;
    }
    CellGroups {
        cell_group_1: g1,
        cell_group_2: g2,
        cell_group_3: g3,
        cell_group_4: g4,
        has_fill_cells_u: fill_u,
        has_fill_cells_v: fill_v,
        has_group_3_cells_in_auto_rows: g3_auto,
    }
}

/// No child places itself: every child has neither a row nor a column attached.
pub open spec fn no_placement(cs: Seq<GridAttachment>) -> bool {
    forall|k: int| 0 <= k < cs.len() ==> (#[trigger] cs[k]).row is None && cs[k].column is None
}

proof fn lemma_no_placement_max(cs: Seq<GridAttachment>, k: nat)
    requires
        no_placement(cs),
        k <= cs.len(),
    ensures
        max_attached_row(cs, k) == -1,
        max_attached_column(cs, k) == -1,
    decreases k,
{
    if k > 0 {
        lemma_no_placement_max(cs, (k - 1) as nat);
        assert(cs[k - 1].row is None && cs[k - 1].column is None);
    }
}

/// Flowing row by row without placed children, child `k` lands in row `k / columns` and
/// column `k % columns`.
pub proof fn lemma_horizontal_flow_positions(cs: Seq<GridAttachment>, nu: int, nv: int, k: nat)
    requires
        no_placement(cs),
        nu > 0,
        k <= cs.len(),
    ensures
        flow_state(cs, true, nu, nv, k) == (k as int / nu, k as int % nu),
        k < cs.len() ==> cell_position(cs, true, nu, nv, k) == (k as int / nu, k as int % nu),
    decreases k,
{
    if k > 0 {
        let j = (k - 1) as nat;
        lemma_horizontal_flow_positions(cs, nu, nv, j);
        assert(cs[j as int].row is None && cs[j as int].column is None);
        let q = j as int / nu;
        let r = j as int % nu;
        vstd::arithmetic::div_mod::lemma_fundamental_div_mod(j as int, nu);
        vstd::arithmetic::div_mod::lemma_mod_bound(j as int, nu);
        if r + 1 >= nu {
            assert(k as int == (q + 1) * nu + 0) by (nonlinear_arith)
                requires
                    j as int == nu * q + r,
                    r == nu - 1,
                    k == j + 1,
            ;
            vstd::arithmetic::div_mod::lemma_fundamental_div_mod_converse(k as int, nu, q + 1, 0);
        } else {
            assert(k as int == q * nu + (r + 1)) by (nonlinear_arith)
                requires
                    j as int == nu * q + r,
                    k == j + 1,
            ;
            vstd::arithmetic::div_mod::lemma_fundamental_div_mod_converse(
                k as int,
                nu,
                q,
                r + 1,
            );
        }
    }
    if k < cs.len() {
        assert(cs[k as int].row is None && cs[k as int].column is None);
    }
}

proof fn lemma_max_attached_bounds(cs: Seq<GridAttachment>, n: nat, k: int)
    requires
        0 <= k < n,
        n <= cs.len(),
    ensures
        max_attached_row(cs, n) >= attached_last(cs[k].row, cs[k].row_span),
        max_attached_column(cs, n) >= attached_last(cs[k].column, cs[k].column_span),
    decreases n,
{
    if k < n - 1 {
        lemma_max_attached_bounds(cs, (n - 1) as nat, k);
    }
}

/// A grid grows to hold every child placed explicitly: when a child reaches a row or a column,
/// the grid has more rows than the last row it reaches and more columns than the last column
/// it reaches (start plus span, less one). So every child placed at a non-negative row and
/// column with positive spans lies inside the grid.
pub proof fn lemma_placed_children_fit(rows: int, columns: int, cs: Seq<GridAttachment>, k: int)
    requires
        0 <= k < cs.len(),
        attached_last(cs[k].row, cs[k].row_span) >= 0 || attached_last(
            cs[k].column,
            cs[k].column_span,
        ) >= 0,
    ensures
        grid_dimensions(rows, columns, cs).0 > attached_last(cs[k].row, cs[k].row_span),
        grid_dimensions(rows, columns, cs).1 > attached_last(cs[k].column, cs[k].column_span),
        (cs[k].row matches Some(r) && cs[k].column matches Some(c) && r >= 0 && c >= 0
            && span_of(cs[k].row_span) >= 1 && span_of(cs[k].column_span) >= 1) ==> cell_valid_at(
            cs[k],
            cs[k].row->0 as int,
            cs[k].column->0 as int,
            grid_dimensions(rows, columns, cs).1,
            grid_dimensions(rows, columns, cs).0,
        ),
{
    lemma_max_attached_bounds(cs, cs.len(), k);
}

/// A grid given only a column count, whose children place nothing, gets enough rows for every
/// child: each child's cell lies inside the grid.
pub proof fn lemma_flow_fits_grid(cs: Seq<GridAttachment>, rows: int, columns: int, k: nat)
    requires
        no_placement(cs),
        forall|j: int|
            0 <= j < cs.len() ==> (#[trigger] cs[j]).row_span is None && cs[j].column_span is None,
        rows <= 0,
        columns > 0,
        k < cs.len(),
    ensures
        ({
            let (nv, nu) = grid_dimensions(rows, columns, cs);
            cell_valid(cs, true, nu, nv, k)
        }),
{
    lemma_no_placement_max(cs, cs.len());
    let n = cs.len() as int;
    let (nv, nu) = grid_dimensions(rows, columns, cs);
    assert(nu == columns);
    assert(nv == (n - 1) / columns + 1);
    lemma_horizontal_flow_positions(cs, nu, nv, k);
    vstd::arithmetic::div_mod::lemma_div_is_ordered(k as int, n - 1, columns);
    vstd::arithmetic::div_mod::lemma_div_pos_is_pos(k as int, columns);
    vstd::arithmetic::div_mod::lemma_mod_bound(k as int, columns);
    assert(cs[k as int].row_span is None && cs[k as int].column_span is None);
}

} // verus!
