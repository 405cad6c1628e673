use vstd::prelude::*;
use crate::BLOCKS_PER_SECTION;

verus! {

/// The most values that a palette holds.
pub const PALETTE_CAPACITY: usize = 16;

/// A palette and the slot numbers that refer to it fit together: the palette
/// has between one and sixteen entries, no two of them equal, and each of the
/// 4096 cells names one of its slots.
pub open spec fn palette_wf<T>(palette: Seq<T>, indices: Seq<u8>) -> bool {
    &&& 1 <= palette.len() <= PALETTE_CAPACITY
    &&& palette.no_duplicates()
    &&& indices.len() == BLOCKS_PER_SECTION
    &&& forall|i: int| 0 <= i < indices.len() ==> (#[trigger] indices[i]) < palette.len()
}

/// The value of every cell, looked up through the palette.
pub open spec fn palette_cells<T>(palette: Seq<T>, indices: Seq<u8>) -> Seq<T> {
    Seq::new(indices.len(), |i: int| palette[indices[i] as int])
}

/// Whether `value` can be stored through the palette: it is there already,
/// or a slot is free for it.
pub open spec fn palette_takes<T>(palette: Seq<T>, value: T) -> bool {
    palette.contains(value) || palette.len() < PALETTE_CAPACITY
}

/// The palette once `value` has a slot in it: unchanged where it had one,
/// else with `value` appended.
pub open spec fn palette_with<T>(palette: Seq<T>, value: T) -> Seq<T> {
    if palette.contains(value) {
        palette
    } else {
        palette.push(value)
    }
}

/// The slot of `value` in `palette_with(palette, value)`.
pub open spec fn palette_slot<T>(palette: Seq<T>, value: T) -> int {
    if palette.contains(value) {
        palette.index_of(value)
    } else {
        palette.len() as int
    }
}

/// Slot numbers that send every cell to slot 0.
pub open spec fn zero_indices() -> Seq<u8> {
    Seq::new(BLOCKS_PER_SECTION as nat, |i: int| 0u8)
}

/// What a container is made of: which of its three representations it is in,
/// and what that representation stores.
#[verifier::ext_equal]
pub enum Repr<T> {
    /// Every cell holds this value.
    Single(T),
    /// Cell `i` holds `palette[indices[i]]`.
    Indirect { palette: Seq<T>, indices: Seq<u8> },
    /// Cell `i` holds the `i`-th value.
    Direct(Seq<T>),
}

impl<T> Repr<T> {
    /// The representation is one that a container can be in.
    pub open spec fn wf(self) -> bool {
        match self {
            Repr::Single(_) => true,
            Repr::Indirect { palette, indices } => palette_wf(palette, indices),
            Repr::Direct(cells) => cells.len() == BLOCKS_PER_SECTION,
        }
    }

    /// The value of each of the 4096 cells.
    pub open spec fn cells(self) -> Seq<T> {
        match self {
            Repr::Single(value) => Seq::new(BLOCKS_PER_SECTION as nat, |i: int| value),
            Repr::Indirect { palette, indices } => palette_cells(palette, indices),
            Repr::Direct(cells) => cells,
        }
    }

    /// How many promotions are still ahead: two from `Single`, one from
    /// `Indirect`, none from `Direct`.
    pub open spec fn promotions_left(self) -> nat {
        match self {
            Repr::Single(_) => 2,
            Repr::Indirect { .. } => 1,
            Repr::Direct(_) => 0,
        }
    }

    /// The next more general representation of the same cells; `Direct` is
    /// the last one and stays.
    pub open spec fn promoted(self) -> Repr<T> {
        match self {
            Repr::Single(value) => Repr::Indirect {
                palette: seq![value],
                indices: zero_indices(),
            },
            Repr::Indirect { .. } => Repr::Direct(self.cells()),
            Repr::Direct(_) => self,
        }
    }

    /// Whether a write of `value` can be stored without a promotion.
    pub open spec fn takes(self, value: T) -> bool {
        match self {
            Repr::Single(current) => value == current,
            Repr::Indirect { palette, .. } => palette_takes(palette, value),
            Repr::Direct(_) => true,
        }
    }

    /// The representation after `value` was written to cell `i`.
    ///
    /// A `Single` container keeps its value where that is the value written,
    /// and else becomes `Indirect` with the two values as its palette. An
    /// `Indirect` container stores the write through its palette where the
    /// palette takes the value, and else becomes `Direct`. A `Direct`
    /// container stores the value in the cell.
    pub open spec fn after_set(self, i: int, value: T) -> Repr<T> {
        match self {
            Repr::Single(current) => if value == current {
                self
            } else {
                Repr::Indirect {
                    palette: seq![current, value],
                    indices: zero_indices().update(i, 1u8),
                }
            },
            Repr::Indirect { palette, indices } => if palette_takes(palette, value) {
                Repr::Indirect {
                    palette: palette_with(palette, value),
                    indices: indices.update(i, palette_slot(palette, value) as u8),
                }
            } else {
                Repr::Direct(self.cells().update(i, value))
            },
            Repr::Direct(cells) => Repr::Direct(cells.update(i, value)),
        }
    }

    /// The representation after the writes `(cell, value)` of `writes` were
    /// made in order.
    pub open spec fn after_writes(self, writes: Seq<(int, T)>) -> Repr<T>
        decreases writes.len(),
    {
        if writes.len() == 0 {
            self
        } else {
            self.after_writes(writes.drop_last()).after_set(writes.last().0, writes.last().1)
        }
    }
}

} // verus!
