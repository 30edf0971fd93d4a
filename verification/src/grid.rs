use vstd::prelude::*;

verus! {

/// The spacing scale of a theme, in logical pixels.
#[derive(Clone, Copy, Debug, PartialEq, Eq)]
pub struct Spacing {
    pub space_none: u16,
    pub space_xxxs: u16,
    pub space_xxs: u16,
    pub space_xs: u16,
    pub space_s: u16,
    pub space_m: u16,
    pub space_l: u16,
    pub space_xl: u16,
    pub space_xxl: u16,
    pub space_xxxl: u16,
}

/// How a row of cards of a minimum width fills an available width.
#[derive(Clone, Copy, Debug, PartialEq, Eq)]
pub struct GridMetrics {
    pub cols: usize,
    pub item_width: usize,
    pub column_spacing: u16,
}

/// Number of columns beyond the first that fit into `width`.
pub open spec fn extra_cols(width: int, min_width: int, column_spacing: int) -> int {
    (if width > min_width { width - min_width } else { 0 }) / (min_width + column_spacing)
}

/// Width of one item once the gaps between `cols` columns are taken out.
pub open spec fn item_width_for(width: int, extra: int, column_spacing: int) -> int {
    let rest = width - extra * column_spacing;
    (if rest > 0 { rest } else { 0 }) / (extra + 1)
}

/// The minimum card width used by the grids of the tool for a spacing scale.
pub open spec fn custom_min_width(space_s: int) -> int {
    240 + 2 * space_s
}

impl GridMetrics {
    /// Lays out as many columns of at least `min_width` as fit into `width`,
    /// with `column_spacing` between them; there is always at least one column.
    pub fn new(width: usize, min_width: usize, column_spacing: u16) -> (g: Self)
        requires
            min_width + column_spacing > 0,
            min_width + column_spacing <= usize::MAX,
            extra_cols(width as int, min_width as int, column_spacing as int) + 1 <= usize::MAX,
        ensures
            g.cols == extra_cols(width as int, min_width as int, column_spacing as int) + 1,
            g.item_width == item_width_for(
                width as int,
                extra_cols(width as int, min_width as int, column_spacing as int),
                column_spacing as int,
            ),
            g.column_spacing == column_spacing,
    {
        let width_m1 = width.saturating_sub(min_width);
        let cols_m1 = width_m1 / (min_width + column_spacing as usize);
        let cols = cols_m1 + 1;
        proof {
            let d: int = min_width + column_spacing;
            let w: int = width_m1 as int;
            let c: int = cols_m1 as int;
            assert(c * d <= w) by (nonlinear_arith)
                requires c == w / d, d > 0, w >= 0;
            assert(c * column_spacing <= c * d) by (nonlinear_arith)
                requires column_spacing <= d, c >= 0;
        }
        let item_width = width
            .saturating_sub(cols_m1 * column_spacing as usize)
            .checked_div(cols)
            .unwrap_or(0);
        GridMetrics { cols, item_width, column_spacing }
    }

    /// The grid the tool uses for theme and layout cards: cards at least
    /// `240 + 2 * space_s` wide, separated by `space_xxs`.
    pub fn custom(spacing: &Spacing, width: usize) -> (g: Self)
        requires
            extra_cols(width as int, custom_min_width(spacing.space_s as int), spacing.space_xxs as int)
                + 1 <= usize::MAX,
        ensures
            g == Self::spec_new(width as int, custom_min_width(spacing.space_s as int), spacing.space_xxs),
    {
        Self::new(width, 240 + 2 * spacing.space_s as usize, spacing.space_xxs)
    }

    /// The metrics `new` computes, as a value.
    pub open spec fn spec_new(width: int, min_width: int, column_spacing: u16) -> GridMetrics {
        let extra = extra_cols(width, min_width, column_spacing as int);
        GridMetrics {
            cols: (extra + 1) as usize,
            item_width: item_width_for(width, extra, column_spacing as int) as usize,
            column_spacing,
        }
    }
}

/// Where cards go in a grid of `cols` columns, filled row by row: with at
/// least one column, card `i` sits at row `i / cols`, column `i % cols`; with
/// none, a new row is started before every card.
pub fn grid_positions(count: usize, cols: usize) -> (v: Vec<(usize, usize)>)
    ensures
        v@.len() == count,
        forall|i: int| 0 <= i < count ==> {
            let (r, c) = #[trigger] v@[i];
            if cols > 0 {
                r * cols + c == i && c < cols
            } else {
                r == i + 1 && c == 0
            }
        },
{
    let mut v: Vec<(usize, usize)> = Vec::new();
    let mut row: usize = 0;
    let mut col: usize = 0;
    let mut i: usize = 0;
    while i < count
        invariant
            i <= count,
            v@.len() == i,
            cols > 0 ==> row * cols + col == i && col <= cols && row <= i,
            cols == 0 ==> row == i && col == (if i == 0 { 0usize } else { 1usize }),
            i > 0 ==> col >= 1,
            forall|j: int| 0 <= j < i ==> {
                let (r, c) = #[trigger] v@[j];
                if cols > 0 {
                    r * cols + c == j && c < cols
                } else {
                    r == j + 1 && c == 0
                }
            },
        decreases count - i,
    {
        if col >= cols {
            row = row + 1;
            col = 0;
            proof {
                if cols > 0 {
                    assert((row - 1) * cols + cols == row * cols) by (nonlinear_arith);
                }
            }
        }
        v.push((row, col));
        col = col + 1;
        i = i + 1;
    }
    v
}

} // verus!
