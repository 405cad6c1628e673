use vstd::prelude::*;
use vstd::laws_eq::obeys_concrete_eq;
use crate::model::{
    palette_cells, palette_slot, palette_takes, palette_wf, palette_with, zero_indices,
    PALETTE_CAPACITY,
};
use crate::vec_u4::VecU4;
use crate::BLOCKS_PER_SECTION;

verus! {

/// Why [`Indirect::set`] refused a write.
#[derive(Clone, Copy, Debug, PartialEq, Eq, Structural)]
pub enum IndirectIndexError {
    /// The value is not in the palette and the palette has no free slot.
    Full,
}

/// A section of 4096 cells that holds at most sixteen different values: the
/// values stand once in a palette, and each cell stores the four-bit number
/// of a palette slot.
#[derive(Debug, PartialEq, Eq)]
pub struct Indirect<T> {
    palette: Vec<T>,
    elements: VecU4,
}

impl<T: Clone> Clone for Indirect<T> {
    /// A store whose cells name the same slots, and whose palette holds a
    /// clone of each entry in the slot of the entry.
    fn clone(&self) -> (r: Self)
        ensures
            r.indices() == self.indices(),
            r.packed() == self.packed(),
            r.palette().len() == self.palette().len(),
            forall|k: int|
                0 <= k < self.palette().len() ==> cloned(
                    #[trigger] self.palette()[k],
                    r.palette()[k],
                ),
    {
        Indirect { palette: self.palette.clone(), elements: self.elements.clone() }
    }
}

impl<T> View for Indirect<T> {
    type V = Seq<T>;

    /// The value of each cell.
    open spec fn view(&self) -> Seq<T> {
        palette_cells(self.palette(), self.indices())
    }
}

impl<T> Indirect<T> {
    /// The palette: the different values in the order in which they came.
    pub closed spec fn palette(&self) -> Seq<T> {
        self.palette@
    }

    /// The palette slot that each cell names.
    pub closed spec fn indices(&self) -> Seq<u8> {
        self.elements@
    }

    /// The slot numbers are packed as `VecU4` wants them.
    pub closed spec fn packed(&self) -> bool {
        self.elements.wf()
    }

    /// The palette has between one and sixteen entries, all different, and
    /// each of the 4096 cells names one of its slots.
    pub open spec fn wf(&self) -> bool {
        &&& self.packed()
        &&& palette_wf(self.palette(), self.indices())
    }

    /// A section whose every cell holds `element`.
    pub fn from_single(element: T) -> (r: Self)
        ensures
            r.wf(),
            r.palette() == seq![element],
            r.indices() == zero_indices(),
            r@ == Seq::new(BLOCKS_PER_SECTION as nat, |i: int| element),
    {
        let mut palette = Vec::with_capacity(PALETTE_CAPACITY);
        palette.push(element);
        Indirect { palette, elements: VecU4::zeroed(BLOCKS_PER_SECTION) }
    }

    /// The entries of the palette, slot 0 first.
    pub fn palette_entries(&self) -> (r: &[T])
        ensures
            r@ == self.palette(),
    {
        self.palette.as_slice()
    }

    /// The value of cell `index`, for an index that the caller knows to be
    /// below 4096.
    pub fn get_unchecked(&self, index: usize) -> (r: &T)
        requires
            self.wf(),
            index < BLOCKS_PER_SECTION,
        ensures
            *r == self@[index as int],
    {
        let palette_index = self.elements.get_unchecked(index);
        &self.palette[palette_index as usize]
    }

    /// The value of cell `index`, or `None` where `index` is not below 4096.
    pub fn get(&self, index: usize) -> (r: Option<&T>)
        requires
            self.wf(),
        ensures
            r == (if index < BLOCKS_PER_SECTION {
                Some(&self@[index as int])
            } else {
                None
            }),
    {
        match self.elements.get(index) {
            Some(palette_index) => Some(&self.palette[palette_index as usize]),
            None => None,
        }
    }

    /// The value of every cell, in the order of the cells.
    pub fn iter(&self) -> (r: Vec<&T>)
        requires
            self.wf(),
        ensures
            r@.len() == BLOCKS_PER_SECTION,
            forall|i: int| 0 <= i < BLOCKS_PER_SECTION ==> *(#[trigger] r@[i]) == self@[i],
    {
        let mut cells: Vec<&T> = Vec::with_capacity(BLOCKS_PER_SECTION);
        let mut i: usize = 0;
        while i < BLOCKS_PER_SECTION
            invariant
                self.wf(),
                i <= BLOCKS_PER_SECTION,
                cells@.len() == i,
                forall|k: int| 0 <= k < i ==> *(#[trigger] cells@[k]) == self@[k],
            decreases BLOCKS_PER_SECTION - i,
        {
            cells.push(self.get_unchecked(i));
            i = i + 1;
        }
        cells
    }
}

impl<T: PartialEq> Indirect<T> {
    /// Writes `element` to cell `index`. The cell gets the slot that holds
    /// `element`; where no slot holds it yet, `element` is appended to the
    /// palette first. Where that needs a seventeenth slot, nothing is
    /// written and the error is `Full`.
    pub fn set(&mut self, index: usize, element: T) -> (r: Result<(), IndirectIndexError>)
        requires
            old(self).wf(),
            index < BLOCKS_PER_SECTION,
            obeys_concrete_eq::<T>(),
        ensures
            final(self).wf(),
            palette_takes(old(self).palette(), element) ==> r == Ok::<(), IndirectIndexError>(()),
            !palette_takes(old(self).palette(), element) ==> r == Err::<(), IndirectIndexError>(
                IndirectIndexError::Full,
            ),
            r is Ok ==> final(self).palette() == palette_with(old(self).palette(), element),
            r is Ok ==> final(self).indices() == old(self).indices().update(
                index as int,
                palette_slot(old(self).palette(), element) as u8,
            ),
            r is Ok ==> final(self)@ == old(self)@.update(index as int, element),
            r is Err ==> *final(self) == *old(self),
    {
        if let Some(palette_index) = self.find_index(&element) {
            self.elements.set_unchecked(index, palette_index);
            return Ok(());
        }
        if self.palette.len() == PALETTE_CAPACITY {
            return Err(IndirectIndexError::Full);
        }
        let palette_index = self.palette.len();
        self.palette.push(element);
        self.elements.set_unchecked(index, palette_index as u8);
        Ok(())
    }

    /// The slot that holds `element`, or `None` where no slot holds it.
    fn find_index(&self, element: &T) -> (r: Option<u8>)
        requires
            self.wf(),
            obeys_concrete_eq::<T>(),
        ensures
            match r {
                Some(slot) => self.palette().contains(*element) && slot == palette_slot(
                    self.palette(),
                    *element,
                ),
                None => !self.palette().contains(*element),
            },
    {
        let mut i: usize = 0;
        while i < self.palette.len()
            invariant
                self.wf(),
                i <= self.palette.len(),
                obeys_concrete_eq::<T>(),
                forall|k: int| 0 <= k < i ==> self.palette@[k] != *element,
            decreases self.palette.len() - i,
        {
            proof {
                reveal(obeys_concrete_eq);
            }
            if self.palette[i] == *element {
                return Some(i as u8);
            }
            i = i + 1;
        }
        None
    }
}

} // verus!
