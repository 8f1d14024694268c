//! The animations of the level's flags, cells and spikes.
use vstd::prelude::*;

use crate::anim::Anim;

verus! {

/// A flag waving, or bare once collected.
#[derive(Clone, Copy, Debug, PartialEq, Eq, Structural)]
pub enum FlagAnim {
    Wave,
    Bare,
}

impl Anim for FlagAnim {
    open spec fn spec_index(self) -> usize {
        match self {
            FlagAnim::Wave => 0,
            FlagAnim::Bare => 1,
        }
    }

    open spec fn spec_from_index(index: usize) -> FlagAnim {
        if index == 1 {
            FlagAnim::Bare
        } else {
            FlagAnim::Wave
        }
    }

    proof fn lemma_index_roundtrip(a: FlagAnim) {
    }

    fn index(&self) -> (i: usize) {
        match self {
            FlagAnim::Wave => 0,
            FlagAnim::Bare => 1,
        }
    }

    fn from_index(index: usize) -> (a: FlagAnim) {
        match index {
            1 => FlagAnim::Bare,
            _ => FlagAnim::Wave,
        }
    }
}

/// The arrow at the edge of the view that points at a flag out of view.
#[derive(Clone, Copy, Debug, PartialEq, Eq, Structural)]
pub enum FlagIndicatorAnim {
    Indicator,
}

impl Anim for FlagIndicatorAnim {
    open spec fn spec_index(self) -> usize {
        0
    }

    open spec fn spec_from_index(index: usize) -> FlagIndicatorAnim {
        FlagIndicatorAnim::Indicator
    }

    proof fn lemma_index_roundtrip(a: FlagIndicatorAnim) {
    }

    fn index(&self) -> (i: usize) {
        0
    }

    fn from_index(index: usize) -> (a: FlagIndicatorAnim) {
        FlagIndicatorAnim::Indicator
    }
}

/// The left half of a fixed cell: a permanent cell or a "never" cell.
#[derive(Clone, Copy, Debug, PartialEq, Eq, Structural)]
pub enum LeftCellAnim {
    Locked,
    Never,
}

impl Anim for LeftCellAnim {
    open spec fn spec_index(self) -> usize {
        match self {
            LeftCellAnim::Locked => 0,
            LeftCellAnim::Never => 1,
        }
    }

    open spec fn spec_from_index(index: usize) -> LeftCellAnim {
        if index == 1 {
            LeftCellAnim::Never
        } else {
            LeftCellAnim::Locked
        }
    }

    proof fn lemma_index_roundtrip(a: LeftCellAnim) {
    }

    fn index(&self) -> (i: usize) {
        match self {
            LeftCellAnim::Locked => 0,
            LeftCellAnim::Never => 1,
        }
    }

    fn from_index(index: usize) -> (a: LeftCellAnim) {
        match index {
            1 => LeftCellAnim::Never,
            _ => LeftCellAnim::Locked,
        }
    }
}

/// The right half of a fixed cell, drawn mirrored.
#[derive(Clone, Copy, Debug, PartialEq, Eq, Structural)]
pub enum RightCellAnim {
    Empty,
}

impl Anim for RightCellAnim {
    open spec fn spec_index(self) -> usize {
        0
    }

    open spec fn spec_from_index(index: usize) -> RightCellAnim {
        RightCellAnim::Empty
    }

    proof fn lemma_index_roundtrip(a: RightCellAnim) {
    }

    fn index(&self) -> (i: usize) {
        0
    }

    fn from_index(index: usize) -> (a: RightCellAnim) {
        RightCellAnim::Empty
    }
}

/// Spikes.
#[derive(Clone, Copy, Debug, PartialEq, Eq, Structural)]
pub enum SpikeAnim {
    Spikes,
}

impl Anim for SpikeAnim {
    open spec fn spec_index(self) -> usize {
        0
    }

    open spec fn spec_from_index(index: usize) -> SpikeAnim {
        SpikeAnim::Spikes
    }

    proof fn lemma_index_roundtrip(a: SpikeAnim) {
    }

    fn index(&self) -> (i: usize) {
        0
    }

    fn from_index(index: usize) -> (a: SpikeAnim) {
        SpikeAnim::Spikes
    }
}

} // verus!
