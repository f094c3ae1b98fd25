//! The options of one stitching call and what is derived from them.

use vstd::prelude::*;

verus! {

/// How the inputs are laid out in the composite.
#[derive(Clone, Copy, Debug, PartialEq, Eq, Structural)]
pub enum AlignmentMode {
    /// Rows and columns, chosen by the compositor.
    Grid,
    /// One row.
    Horizontal,
    /// One column.
    Vertical,
}

/// The resampling used when an input is scaled.
#[derive(Clone, Copy, Debug, PartialEq, Eq, Structural)]
pub enum ResizeFilter {
    /// Nearest neighbour: fast.
    Nearest,
    /// Lanczos with window 3: slow, high quality.
    Lanczos3,
}

/// The options of one call, named as in the configuration record.
#[derive(Clone, Copy, Debug, PartialEq, Eq, Structural)]
pub struct Options {
    pub horizontal: bool,
    pub vertical: bool,
    /// Quality for lossy encoders, 0 to 100.
    pub quality: u32,
    /// Prefer a small output over a fast encode.
    pub small: bool,
    /// Prefer a fast resize over a good one.
    pub fast: bool,
    /// One limit for both dimensions; 0 means none.
    pub maxd: u32,
    /// Limit on the composite's width; 0 means none.
    pub maxw: u32,
    /// Limit on the composite's height; 0 means none.
    pub maxh: u32,
}

/// The layout that the two direction flags select. Only a single set flag
/// selects a line; both or neither select the grid.
pub open spec fn alignment_of(horizontal: bool, vertical: bool) -> AlignmentMode {
    if horizontal && !vertical {
        AlignmentMode::Horizontal
    } else if vertical && !horizontal {
        AlignmentMode::Vertical
    } else {
        AlignmentMode::Grid
    }
}

/// The filter that the `fast` flag selects.
pub open spec fn filter_of(fast: bool) -> ResizeFilter {
    if fast {
        ResizeFilter::Nearest
    } else {
        ResizeFilter::Lanczos3
    }
}

/// The options with a positive `maxd` written over both single limits.
pub open spec fn normalized(o: Options) -> Options {
    if o.maxd > 0 {
        Options { maxw: o.maxd, maxh: o.maxd, ..o }
    } else {
        o
    }
}

impl Options {
    /// Makes `maxw` and `maxh` the limits that count: a positive `maxd`
    /// replaces both, and nothing else changes.
    pub fn prepare_for_use(&mut self)
        ensures
            *final(self) == normalized(*old(self)),
    {
        if self.maxd > 0 {
            self.maxw = self.maxd;
            self.maxh = self.maxd;
        }
    }

    /// The layout selected by `horizontal` and `vertical`.
    pub fn get_alignment(&self) -> (mode: AlignmentMode)
        ensures
            mode == alignment_of(self.horizontal, self.vertical),
    {
        match (self.horizontal, self.vertical) {
            (true, false) => AlignmentMode::Horizontal,
            (false, true) => AlignmentMode::Vertical,
            _ => AlignmentMode::Grid,
        }
    }

    /// The resize filter selected by `fast`.
    pub fn get_resize_filter(&self) -> (filter: ResizeFilter)
        ensures
            filter == filter_of(self.fast),
    {
        if self.fast {
            ResizeFilter::Nearest
        } else {
            ResizeFilter::Lanczos3
        }
    }
}

/// With a positive `maxd`, both limits equal it after normalization, whatever
/// they were before, and every other field is kept.
pub proof fn lemma_square_limit_overrides(o: Options)
    requires
        o.maxd > 0,
    ensures
        normalized(o).maxw == o.maxd,
        normalized(o).maxh == o.maxd,
        normalized(o).maxd == o.maxd,
        normalized(o).horizontal == o.horizontal,
        normalized(o).vertical == o.vertical,
        normalized(o).quality == o.quality,
        normalized(o).small == o.small,
        normalized(o).fast == o.fast,
{
}

/// Without a `maxd`, normalization changes nothing.
pub proof fn lemma_no_square_limit_keeps(o: Options)
    requires
        o.maxd == 0,
    ensures
        normalized(o) == o,
{
}

/// Normalizing twice is normalizing once.
pub proof fn lemma_normalized_idempotent(o: Options)
    ensures
        normalized(normalized(o)) == normalized(o),
{
}

/// The layout depends on the two direction flags alone, by this table:
/// only horizontal gives a row, only vertical a column, both or neither the
/// grid.
pub proof fn lemma_alignment_table(a: Options, b: Options)
    requires
        a.horizontal == b.horizontal,
        a.vertical == b.vertical,
    ensures
        alignment_of(a.horizontal, a.vertical) == alignment_of(b.horizontal, b.vertical),
        alignment_of(true, false) == AlignmentMode::Horizontal,
        alignment_of(false, true) == AlignmentMode::Vertical,
        alignment_of(true, true) == AlignmentMode::Grid,
        alignment_of(false, false) == AlignmentMode::Grid,
        alignment_of(normalized(a).horizontal, normalized(a).vertical) == alignment_of(
            a.horizontal,
            a.vertical,
        ),
{
}

} // verus!
