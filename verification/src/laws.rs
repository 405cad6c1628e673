use vstd::prelude::*;
use vstd::set_lib::{lemma_len_subset, lemma_subset_equality};
use crate::model::{
    palette_cells, palette_slot, palette_wf, palette_with, Repr, PALETTE_CAPACITY,
};
use crate::BLOCKS_PER_SECTION;

verus! {

/// The slot that `palette_slot` gives holds `value` once the palette has
/// made room for it, and the palette stays one that slot numbers can refer
/// to.
pub proof fn lemma_palette_with<T>(palette: Seq<T>, value: T)
    requires
        palette.no_duplicates(),
    ensures
        0 <= palette_slot(palette, value) < palette_with(palette, value).len(),
        palette_with(palette, value)[palette_slot(palette, value)] == value,
        palette_with(palette, value).no_duplicates(),
        palette_with(palette, value).len() <= palette.len() + 1,
        forall|k: int|
            0 <= k < palette.len() ==> #[trigger] palette_with(palette, value)[k] == palette[k],
        forall|k: int|
            0 <= k < palette_with(palette, value).len() && #[trigger] palette_with(
                palette,
                value,
            )[k] == value ==> k == palette_slot(palette, value),
{
}

/// A promotion cannot be seen from the cells: the promoted representation is
/// well formed and every cell holds the value that it held before.
pub proof fn lemma_promotion_keeps_cells<T>(m: Repr<T>)
    requires
        m.wf(),
    ensures
        m.promoted().wf(),
        m.promoted().cells() == m.cells(),
        m.promoted().promotions_left() <= m.promotions_left(),
        !(m is Direct) ==> m.promoted().promotions_left() + 1 == m.promotions_left(),
{
}

/// A write that the representation does not take is a promotion followed
/// by the same write.
pub proof fn lemma_set_promotes_then_sets<T>(m: Repr<T>, i: int, value: T)
    requires
        !m.takes(value),
    ensures
        m.after_set(i, value) == m.promoted().after_set(i, value),
        m.promoted().promotions_left() < m.promotions_left(),
{
}

/// A write changes the one cell it names and leaves a well-formed
/// representation: afterwards the cells are the old ones with `value` at
/// `i`.
pub proof fn lemma_set_updates_cells<T>(m: Repr<T>, i: int, value: T)
    requires
        m.wf(),
        0 <= i < BLOCKS_PER_SECTION,
    ensures
        m.after_set(i, value).wf(),
        m.after_set(i, value).cells() == m.cells().update(i, value),
{
}

/// A write is read back: after `value` was written to cell `i`, cell `i`
/// holds `value`.
pub proof fn lemma_set_then_get<T>(m: Repr<T>, i: int, value: T)
    requires
        m.wf(),
        0 <= i < BLOCKS_PER_SECTION,
    ensures
        m.after_set(i, value).cells()[i] == value,
{
}

/// A write is local: after a write to cell `i`, every other cell `j` holds
/// what it held before.
pub proof fn lemma_set_keeps_other_cells<T>(m: Repr<T>, i: int, value: T, j: int)
    requires
        m.wf(),
        0 <= i < BLOCKS_PER_SECTION,
        0 <= j < BLOCKS_PER_SECTION,
        j != i,
    ensures
        m.after_set(i, value).cells()[j] == m.cells()[j],
{
}

/// A write is idempotent: making the same write a second time changes
/// nothing, neither the cells nor the representation.
pub proof fn lemma_set_twice<T>(m: Repr<T>, i: int, value: T)
    requires
        m.wf(),
        0 <= i < BLOCKS_PER_SECTION,
    ensures
        m.after_set(i, value).after_set(i, value) == m.after_set(i, value),
{
    if let Repr::Indirect { palette, .. } = m {
        lemma_palette_with(palette, value);
    }
}

/// Writes in sequence leave a well-formed representation whose cells are
/// the old cells with each write applied in order.
pub proof fn lemma_writes_update_cells<T>(m: Repr<T>, writes: Seq<(int, T)>)
    requires
        m.wf(),
        forall|k: int| 0 <= k < writes.len() ==> 0 <= (#[trigger] writes[k]).0 < BLOCKS_PER_SECTION,
    ensures
        m.after_writes(writes).wf(),
        m.after_writes(writes).cells() == written(m.cells(), writes),
    decreases writes.len(),
{
    if writes.len() > 0 {
        lemma_writes_update_cells(m, writes.drop_last());
        lemma_set_updates_cells(
            m.after_writes(writes.drop_last()),
            writes.last().0,
            writes.last().1,
        );
    }
}

/// The cells `cells` with each write `(cell, value)` of `writes` applied in
/// order.
pub open spec fn written<T>(cells: Seq<T>, writes: Seq<(int, T)>) -> Seq<T>
    decreases writes.len(),
{
    if writes.len() == 0 {
        cells
    } else {
        written(cells, writes.drop_last()).update(writes.last().0, writes.last().1)
    }
}

/// What the cells hold does not depend on the representation: two
/// containers whose cells agree, in whatever representations, still agree in
/// every cell after the same writes were made to both.
pub proof fn lemma_cells_independent_of_repr<T>(a: Repr<T>, b: Repr<T>, writes: Seq<(int, T)>)
    requires
        a.wf(),
        b.wf(),
        a.cells() == b.cells(),
        forall|k: int| 0 <= k < writes.len() ==> 0 <= (#[trigger] writes[k]).0 < BLOCKS_PER_SECTION,
    ensures
        a.after_writes(writes).cells() == b.after_writes(writes).cells(),
{
    lemma_writes_update_cells(a, writes);
    lemma_writes_update_cells(b, writes);
}

/// Promotion goes one way, one step at a time: a write never leads back to
/// a more compact representation, and it promotes at most once. What is
/// `Direct` stays `Direct`, and what is `Indirect` does not become `Single`.
pub proof fn lemma_set_never_demotes<T>(m: Repr<T>, i: int, value: T)
    ensures
        m.after_set(i, value).promotions_left() <= m.promotions_left(),
        m.promotions_left() <= m.after_set(i, value).promotions_left() + 1,
        m is Direct ==> m.after_set(i, value) is Direct,
        m is Indirect ==> !(m.after_set(i, value) is Single),
{
}

/// A palette only grows: while a container stays `Indirect`, a write keeps
/// every palette entry in its slot, also an entry that no cell names any
/// more, and adds at most the value written.
pub proof fn lemma_palette_only_grows<T>(m: Repr<T>, i: int, value: T)
    requires
        m is Indirect,
        m.after_set(i, value) is Indirect,
    ensures
        m->palette.is_prefix_of(m.after_set(i, value)->palette),
        m.after_set(i, value)->palette == m->palette || m.after_set(i, value)->palette
            == m->palette.push(value),
{
}

/// Promotion goes one way over any number of writes: once `Direct`, a
/// container is `Direct` after every later write, and once `Indirect` it is
/// never `Single` again.
pub proof fn lemma_writes_never_demote<T>(m: Repr<T>, writes: Seq<(int, T)>)
    ensures
        m.after_writes(writes).promotions_left() <= m.promotions_left(),
        m is Direct ==> m.after_writes(writes) is Direct,
        m is Indirect ==> !(m.after_writes(writes) is Single),
    decreases writes.len(),
{
    if writes.len() > 0 {
        lemma_writes_never_demote(m, writes.drop_last());
        lemma_set_never_demotes(
            m.after_writes(writes.drop_last()),
            writes.last().0,
            writes.last().1,
        );
    }
}

/// Every value that a cell holds through a palette is an entry of the
/// palette.
proof fn lemma_cells_within_palette<T>(palette: Seq<T>, indices: Seq<u8>)
    requires
        palette_wf(palette, indices),
    ensures
        palette_cells(palette, indices).to_set().subset_of(palette.to_set()),
        palette.to_set().finite(),
        palette.to_set().len() == palette.len(),
{
    let cells = palette_cells(palette, indices);
    assert forall|value: T| cells.to_set().contains(value) implies palette.to_set().contains(
        value,
    ) by {
        let k = choose|k: int| 0 <= k < cells.len() && cells[k] == value;
        assert(palette[indices[k] as int] == value);
    }
    palette.unique_seq_to_set();
}

/// The palette bounds the number of different values: the cells of an
/// `Indirect` container hold at most sixteen of them.
pub proof fn lemma_indirect_holds_few_values<T>(m: Repr<T>)
    requires
        m.wf(),
        m is Indirect,
    ensures
        m.cells().to_set().finite(),
        m.cells().to_set().len() <= PALETTE_CAPACITY,
{
    if let Repr::Indirect { palette, indices } = m {
        lemma_cells_within_palette(palette, indices);
        lemma_len_subset(m.cells().to_set(), palette.to_set());
    }
}

/// A seventeenth value forces the promotion: where the cells of an
/// `Indirect` container hold sixteen different values, a write of a value
/// that is none of them makes the container `Direct`.
pub proof fn lemma_seventeenth_value_promotes<T>(m: Repr<T>, i: int, value: T)
    requires
        m.wf(),
        m is Indirect,
        m.cells().to_set().len() == PALETTE_CAPACITY,
        !m.cells().contains(value),
    ensures
        m.after_set(i, value) is Direct,
{
    if let Repr::Indirect { palette, indices } = m {
        // sixteen different values in the cells, all of them palette entries,
        // and at most sixteen entries: the entries are those values
        lemma_cells_within_palette(palette, indices);
        lemma_len_subset(m.cells().to_set(), palette.to_set());
        lemma_subset_equality(m.cells().to_set(), palette.to_set());
        assert(!m.cells().to_set().contains(value));
    }
}

/// A full palette forces the promotion whatever the cells hold: a write of
/// a value that is not among the sixteen entries of the palette makes the
/// container `Direct`, and any other write leaves it `Indirect`.
pub proof fn lemma_indirect_promotes_when_full<T>(m: Repr<T>, i: int, value: T)
    requires
        m is Indirect,
    ensures
        m.after_set(i, value) is Direct <==> !m.takes(value),
        m.after_set(i, value) is Indirect <==> m.takes(value),
{
}

/// No needless promotion: a write of the value that a `Single` container
/// holds leaves it as it is.
pub proof fn lemma_same_value_keeps_single<T>(current: T, i: int)
    ensures
        Repr::Single(current).after_set(i, current) == Repr::Single(current),
{
}

} // verus!
