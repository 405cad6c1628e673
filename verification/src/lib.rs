//! A container for the 4096 cells of a cubic section of side 16, which keeps
//! the most compact of three representations that can hold its values.

use vstd::prelude::*;
use vstd::laws_eq::obeys_concrete_eq;
use crate::model::Repr;

pub mod indirect;
pub mod laws;
pub mod model;
pub mod vec_u4;

pub use crate::indirect::Indirect;

verus! {

/// Number of cells in one section: a cube of side 16.
pub const BLOCKS_PER_SECTION: usize = 4096;

/// The cells of one section, each holding a `T`.
#[derive(Debug, PartialEq, Eq)]
pub enum PalettedContainer<T> {
    /// Every cell holds this value.
    Single(T),
    /// At most sixteen different values, stored through a palette.
    Indirect(Indirect<T>),
    /// One stored value for each cell, 4096 in all.
    Direct(Vec<T>),
}

impl<T: Clone> Clone for PalettedContainer<T> {
    /// A container in the same representation that stores a clone of each
    /// stored value in the place of the value.
    fn clone(&self) -> (r: Self)
        ensures
            match (*self, r) {
                (PalettedContainer::Single(value), PalettedContainer::Single(copy)) => cloned(
                    value,
                    copy,
                ),
                (PalettedContainer::Indirect(store), PalettedContainer::Indirect(copy)) => {
                    &&& copy.indices() == store.indices()
                    &&& copy.packed() == store.packed()
                    &&& copy.palette().len() == store.palette().len()
                    &&& forall|k: int|
                        0 <= k < store.palette().len() ==> cloned(
                            #[trigger] store.palette()[k],
                            copy.palette()[k],
                        )
                },
                (PalettedContainer::Direct(direct), PalettedContainer::Direct(copy)) => {
                    &&& copy@.len() == direct@.len()
                    &&& forall|k: int|
                        0 <= k < direct@.len() ==> cloned(#[trigger] direct@[k], copy@[k])
                },
                _ => false,
            },
    {
        match self {
            PalettedContainer::Single(value) => PalettedContainer::Single(value.clone()),
            PalettedContainer::Indirect(store) => PalettedContainer::Indirect(store.clone()),
            PalettedContainer::Direct(direct) => PalettedContainer::Direct(direct.clone()),
        }
    }
}

impl<T> View for PalettedContainer<T> {
    type V = Seq<T>;

    /// The value of each cell.
    open spec fn view(&self) -> Seq<T> {
        self.repr().cells()
    }
}

impl<T> PalettedContainer<T> {
    /// The representation that the container is in and what it stores.
    pub open spec fn repr(&self) -> Repr<T> {
        match self {
            PalettedContainer::Single(value) => Repr::Single(*value),
            PalettedContainer::Indirect(indirect) => Repr::Indirect {
                palette: indirect.palette(),
                indices: indirect.indices(),
            },
            PalettedContainer::Direct(direct) => Repr::Direct(direct@),
        }
    }

    /// The container has its 4096 cells: a `Direct` buffer has that length,
    /// and an `Indirect` store is well formed.
    pub open spec fn wf(&self) -> bool {
        match self {
            PalettedContainer::Single(_) => true,
            PalettedContainer::Indirect(indirect) => indirect.wf(),
            PalettedContainer::Direct(direct) => direct@.len() == BLOCKS_PER_SECTION,
        }
    }
}

impl<T: Copy> PalettedContainer<T> {
    /// Rewrites the container in the next more general representation, with
    /// every cell keeping its value. `Direct` is the last one and stays.
    fn upgrade(&mut self)
        requires
            old(self).wf(),
        ensures
            final(self).wf(),
            final(self).repr() == old(self).repr().promoted(),
            final(self)@ == old(self)@,
    {
        let promoted = match self {
            PalettedContainer::Single(value) => PalettedContainer::Indirect(
                Indirect::from_single(*value),
            ),
            PalettedContainer::Indirect(indirect) => {
                let mut direct: Vec<T> = Vec::with_capacity(BLOCKS_PER_SECTION);
                let mut i: usize = 0;
                while i < BLOCKS_PER_SECTION
                    invariant
                        indirect.wf(),
                        i <= BLOCKS_PER_SECTION,
                        direct@ == indirect@.take(i as int),
                    decreases BLOCKS_PER_SECTION - i,
                {
                    direct.push(*indirect.get_unchecked(i));
                    i = i + 1;
                }
                PalettedContainer::Direct(direct)
            },
            PalettedContainer::Direct(_) => {
                return ;
            },
        };
        *self = promoted;
    }
}

impl<T: PartialEq + Copy> PalettedContainer<T> {
    /// Writes `value` to cell `index`. Where the representation cannot hold
    /// the value, the container is promoted first: `Single` to `Indirect`
    /// on the first different value, `Indirect` to `Direct` on a value that
    /// would need a seventeenth palette slot.
    pub fn set(&mut self, index: usize, value: T)
        requires
            old(self).wf(),
            index < BLOCKS_PER_SECTION,
            obeys_concrete_eq::<T>(),
        ensures
            final(self).wf(),
            final(self)@ == old(self)@.update(index as int, value),
            final(self).repr() == old(self).repr().after_set(index as int, value),
        decreases old(self).repr().promotions_left(),
    {
        match self {
            PalettedContainer::Single(current) => {
                proof {
                    reveal(obeys_concrete_eq);
                }
                if value == *current {
                    return ;
                }
                self.upgrade();
                self.set(index, value);
            },
            PalettedContainer::Indirect(indirect) => {
                if indirect.set(index, value).is_ok() {
                    return ;
                }
                self.upgrade();
                self.set(index, value);
            },
            PalettedContainer::Direct(direct) => {
                direct[index] = value;
            },
        }
    }

    /// The value of cell `index`.
    pub fn get(&self, index: usize) -> (r: &T)
        requires
            self.wf(),
            index < BLOCKS_PER_SECTION,
        ensures
            *r == self@[index as int],
    {
        match self {
            PalettedContainer::Single(current) => current,
            PalettedContainer::Indirect(indirect) => indirect.get_unchecked(index),
            PalettedContainer::Direct(direct) => &direct[index],
        }
    }
}

} // verus!
