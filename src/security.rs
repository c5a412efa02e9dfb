use crate::errors::MemoryError;
use crate::memory::{spec_cell, Memory};
use crate::relocatable::{MaybeRelocatable, Relocatable};
use vstd::arithmetic::div_mod::{lemma_fundamental_div_mod, lemma_fundamental_div_mod_converse};
use vstd::prelude::*;

verus! {

pub open spec fn is_address_cell(c: Option<MaybeRelocatable>) -> bool {
    c matches Some(MaybeRelocatable::RelocatableValue(_))
}

/// The offsets, in increasing order, of the first `k` cells of `row` that hold an address.
pub open spec fn address_offsets(row: Seq<Option<MaybeRelocatable>>, k: int) -> Seq<int>
    decreases k,
{
    if k <= 0 {
        Seq::empty()
    } else if is_address_cell(row[k - 1]) {
        address_offsets(row, k - 1).push(k - 1)
    } else {
        address_offsets(row, k - 1)
    }
}

/// The input-cell offsets of the first `n` instances, in increasing order:
/// `i * cells_per_instance + j` for each instance `i` and input index `j`.
pub open spec fn expected_offsets(n: int, cells_per_instance: int, n_input_cells: int) -> Seq<int> {
    Seq::new(
        (n * n_input_cells) as nat,
        |k: int| (k / n_input_cells) * cells_per_instance + k % n_input_cells,
    )
}

/// One pass over `expected` with a single cursor into `offsets`: an expected
/// offset equal to the offset under the cursor is matched and advances it;
/// any other is reported missing.
pub open spec fn merge_missing(expected: Seq<int>, offsets: Seq<int>) -> Seq<int>
    decreases expected.len(),
{
    if expected.len() == 0 {
        Seq::empty()
    } else if offsets.len() > 0 && offsets[0] == expected[0] {
        merge_missing(expected.drop_first(), offsets.drop_first())
    } else {
        seq![expected[0]] + merge_missing(expected.drop_first(), offsets)
    }
}

pub open spec fn addr_at(base: isize, t: int) -> Relocatable {
    Relocatable { segment_index: base, offset: t as usize }
}

/// Every non-input cell of the first `n` instances has been validated.
pub open spec fn auto_cells_validated(
    base: isize,
    n: int,
    cells_per_instance: int,
    n_input_cells: int,
    validated: Seq<Relocatable>,
) -> bool {
    forall|t: int|
        0 <= t < n * cells_per_instance && t % cells_per_instance >= n_input_cells
            ==> validated.contains(#[trigger] addr_at(base, t))
}

/// When nothing is reported missing, every expected offset is present.
pub proof fn lemma_no_missing_means_present(expected: Seq<int>, offsets: Seq<int>)
    requires
        merge_missing(expected, offsets).len() == 0,
    ensures
        forall|i: int| 0 <= i < expected.len() ==> offsets.contains(#[trigger] expected[i]),
    decreases expected.len(),
{
    if expected.len() > 0 {
        if offsets.len() > 0 && offsets[0] == expected[0] {
            lemma_no_missing_means_present(expected.drop_first(), offsets.drop_first());
            assert forall|i: int| 0 <= i < expected.len() implies offsets.contains(
                #[trigger] expected[i],
            ) by {
                if i == 0 {
                    assert(offsets[0] == expected[0]);
                } else {
                    assert(expected[i] == expected.drop_first()[i - 1]);
                    let k = choose|k: int|
                        0 <= k < offsets.drop_first().len() && offsets.drop_first()[k]
                            == expected[i];
                    assert(offsets[k + 1] == expected[i]);
                }
            }
        }
    }
}

proof fn lemma_expected_at(idx: int, n: int, cpi: int, nic: int)
    requires
        0 <= idx < n * nic,
        0 < nic <= cpi,
    ensures
        expected_offsets(n, cpi, nic)[idx] == (idx / nic) * cpi + idx % nic,
        0 <= idx % nic < nic,
        0 <= idx / nic < n,
{
    lemma_fundamental_div_mod(idx, nic);
    assert(idx / nic < n) by (nonlinear_arith)
        requires idx < n * nic, idx == nic * (idx / nic) + idx % nic, 0 <= idx % nic, nic > 0;
}

proof fn lemma_address_offsets_hold_addresses(row: Seq<Option<MaybeRelocatable>>, k: int)
    requires
        0 <= k <= row.len(),
    ensures
        forall|x: int|
            #[trigger] address_offsets(row, k).contains(x) ==> 0 <= x < k && is_address_cell(row[x]),
    decreases k,
{
    if k > 0 {
        lemma_address_offsets_hold_addresses(row, k - 1);
        let prev = address_offsets(row, k - 1);
        assert forall|x: int| #[trigger] address_offsets(row, k).contains(x) implies 0 <= x < k
            && is_address_cell(row[x]) by {
            if is_address_cell(row[k - 1]) {
                let cur = prev.push(k - 1);
                let idx = choose|idx: int| 0 <= idx < cur.len() && #[trigger] cur[idx] == x;
                if idx < prev.len() {
                    assert(prev[idx] == x);
                    assert(prev.contains(x));
                }
            }
        }
    }
}

/// When the check finds the segment complete, every input cell of each of the
/// `n` instances that the address-valued cells imply holds an address.
pub proof fn lemma_complete_segment_has_inputs(
    cells_per_instance: int,
    n_input_cells: int,
    base: isize,
    memory: Memory,
    i: int,
    j: int,
)
    requires
        0 < n_input_cells <= cells_per_instance,
        spec_completeness(cells_per_instance, n_input_cells, base, memory) is Complete,
        0 <= i < address_offsets(
            memory.data@[base as int]@,
            memory.data@[base as int]@.len() as int,
        ).len() as int / cells_per_instance,
        0 <= j < n_input_cells,
    ensures
        is_address_cell(spec_cell(memory.data@, base as int, i * cells_per_instance + j)),
{
    let row = memory.data@[base as int]@;
    let offsets = address_offsets(row, row.len() as int);
    let n = offsets.len() as int / cells_per_instance;
    let expected = expected_offsets(n, cells_per_instance, n_input_cells);
    lemma_no_missing_means_present(expected, offsets);
    let idx = i * n_input_cells + j;
    assert(0 <= idx < n * n_input_cells) by (nonlinear_arith)
        requires 0 <= i < n, 0 <= j < n_input_cells, idx == i * n_input_cells + j;
    lemma_fundamental_div_mod_converse(idx, n_input_cells, i, j);
    assert(expected[idx] == i * cells_per_instance + j);
    assert(offsets.contains(expected[idx]));
    lemma_address_offsets_hold_addresses(row, row.len() as int);
}

/// What the completeness check of a segment finds.
pub enum CompletenessOutcome {
    /// The base is a temporary segment.
    TemporarySegment,
    /// Memory holds no data row for the segment.
    NoDataRow,
    /// Too few input cells for the implied instance count.
    TooFewInputCells,
    /// The input-cell offsets reported missing, in order (never empty).
    MissingOffsets(Seq<int>),
    /// Every instance is complete; `revalidate` tells whether some non-input
    /// cell is not among the validated addresses.
    Complete { revalidate: bool },
}

/// The completeness check of the segment at `base`, whose instances have
/// `cells_per_instance` cells of which the first `n_input_cells` are inputs.
pub open spec fn spec_completeness(
    cells_per_instance: int,
    n_input_cells: int,
    base: isize,
    memory: Memory,
) -> CompletenessOutcome {
    if base < 0 {
        CompletenessOutcome::TemporarySegment
    } else if base >= memory.data@.len() {
        CompletenessOutcome::NoDataRow
    } else {
        let row = memory.data@[base as int]@;
        let offsets = address_offsets(row, row.len() as int);
        let n = offsets.len() as int / cells_per_instance;
        let missing = merge_missing(
            expected_offsets(n, cells_per_instance, n_input_cells),
            offsets,
        );
        if n > offsets.len() as int / n_input_cells {
            CompletenessOutcome::TooFewInputCells
        } else if missing.len() > 0 {
            CompletenessOutcome::MissingOffsets(missing)
        } else {
            CompletenessOutcome::Complete {
                revalidate: !auto_cells_validated(
                    base,
                    n,
                    cells_per_instance,
                    n_input_cells,
                    memory.validated_addresses@,
                ),
            }
        }
    }
}

/// `r` reports the outcome `o` of the check of the builtin `name` at `base`.
pub open spec fn reports(
    r: Result<bool, MemoryError>,
    name: &'static str,
    base: isize,
    o: CompletenessOutcome,
) -> bool {
    match o {
        CompletenessOutcome::TemporarySegment => r == Err::<bool, MemoryError>(
            MemoryError::AddressInTemporarySegment(base),
        ),
        CompletenessOutcome::NoDataRow => r == Err::<bool, MemoryError>(MemoryError::NumOutOfBounds),
        CompletenessOutcome::TooFewInputCells => r == Err::<bool, MemoryError>(
            MemoryError::MissingMemoryCells(name),
        ),
        CompletenessOutcome::MissingOffsets(m) => match r {
            Err(MemoryError::MissingMemoryCellsWithOffsets(label, v)) => label == name
                && v@.map_values(|x: usize| x as int) == m,
            _ => false,
        },
        CompletenessOutcome::Complete { revalidate } => r == Ok::<bool, MemoryError>(revalidate),
    }
}

/// The completeness check of a builtin segment, with its input cells identified
/// by the address-valued cells of the segment. On success, tells whether some
/// non-input cell has not been validated, so that auto-deduced cells must be
/// verified again.
pub fn check_instances_complete(
    name: &'static str,
    cells_per_instance: usize,
    n_input_cells: usize,
    base: isize,
    memory: &Memory,
) -> (r: Result<bool, MemoryError>)
    requires
        0 < n_input_cells <= cells_per_instance,
    ensures
        reports(
            r,
            name,
            base,
            spec_completeness(cells_per_instance as int, n_input_cells as int, base, *memory),
        ),
{
    if base < 0 {
        return Err(MemoryError::AddressInTemporarySegment(base));
    }
    if base as usize >= memory.data.len() {
        return Err(MemoryError::NumOutOfBounds);
    }
    let row = &memory.data[base as usize];
    let ghost srow = row@;
    let mut offsets: Vec<usize> = Vec::new();
    let mut k: usize = 0;
    while k < row.len()
        invariant
            srow == row@,
            k <= srow.len(),
            offsets@.map_values(|x: usize| x as int) == address_offsets(srow, k as int),
            offsets@.len() <= k,
        decreases srow.len() - k,
    {
        if let Some(MaybeRelocatable::RelocatableValue(_)) = &row[k] {
            offsets.push(k);
        }
        proof {
            assert(offsets@.map_values(|x: usize| x as int) =~= address_offsets(srow, k + 1));
        }
        k = k + 1;
    }
    let ghost offs = address_offsets(srow, srow.len() as int);
    let len = offsets.len();
    let n = len / cells_per_instance;
    if n > len / n_input_cells {
        return Err(MemoryError::MissingMemoryCells(name));
    }
    let ghost expected = expected_offsets(n as int, cells_per_instance as int, n_input_cells as int);
    proof {
        lemma_fundamental_div_mod(len as int, cells_per_instance as int);
        assert(n * n_input_cells <= n * cells_per_instance) by (nonlinear_arith)
            requires n_input_cells <= cells_per_instance;
        assert(n * cells_per_instance <= len) by (nonlinear_arith)
            requires
                len as int == cells_per_instance as int * n as int + len as int % cells_per_instance as int,
                len as int % cells_per_instance as int >= 0;
    }
    let total = n * n_input_cells;
    let mut missing: Vec<usize> = Vec::new();
    let mut p: usize = 0;
    let mut idx: usize = 0;
    proof {
        assert(expected.skip(0) =~= expected);
        assert(offs.skip(0) =~= offs);
        assert(missing@.map_values(|x: usize| x as int) + merge_missing(expected, offs)
            =~= merge_missing(expected, offs));
    }
    while idx < total
        invariant
            total == n * n_input_cells,
            n * cells_per_instance <= len,
            len == offsets@.len(),
            0 < n_input_cells <= cells_per_instance,
            offsets@.map_values(|x: usize| x as int) == offs,
            expected == expected_offsets(n as int, cells_per_instance as int, n_input_cells as int),
            idx <= total,
            p <= len,
            missing@.map_values(|x: usize| x as int) + merge_missing(
                expected.skip(idx as int),
                offs.skip(p as int),
            ) == merge_missing(expected, offs),
        decreases total - idx,
    {
        let i = idx / n_input_cells;
        let j = idx % n_input_cells;
        proof {
            lemma_expected_at(idx as int, n as int, cells_per_instance as int, n_input_cells as int);
            assert(i * cells_per_instance + j < n * cells_per_instance) by (nonlinear_arith)
                requires i < n, j < n_input_cells, n_input_cells <= cells_per_instance;
        }
        let offset = i * cells_per_instance + j;
        let ghost rest_e = expected.skip(idx as int);
        let ghost rest_o = offs.skip(p as int);
        proof {
            assert(rest_e[0] == offset as int);
            assert(rest_e.drop_first() =~= expected.skip(idx + 1));
            assert(p < len ==> rest_o[0] == offsets@[p as int] as int);
            assert(p < len ==> rest_o.drop_first() =~= offs.skip(p + 1));
        }
        if p < len && offsets[p] == offset {
            p = p + 1;
        } else {
            let ghost m0 = missing@;
            missing.push(offset);
            proof {
                assert(missing@.map_values(|x: usize| x as int) =~= m0.map_values(
                    |x: usize| x as int,
                ).push(offset as int));
                assert(seq![offset as int] + merge_missing(expected.skip(idx + 1), rest_o)
                    == merge_missing(rest_e, rest_o));
                assert(m0.map_values(|x: usize| x as int).push(offset as int) + merge_missing(
                    expected.skip(idx + 1),
                    rest_o,
                ) =~= m0.map_values(|x: usize| x as int) + (seq![offset as int] + merge_missing(
                    expected.skip(idx + 1),
                    rest_o,
                )));
            }
        }
        idx = idx + 1;
    }
    proof {
        assert(expected.skip(total as int).len() == 0);
        assert(missing@.map_values(|x: usize| x as int) + Seq::<int>::empty() =~= missing@.map_values(
            |x: usize| x as int,
        ));
    }
    if missing.len() > 0 {
        return Err(MemoryError::MissingMemoryCellsWithOffsets(name, missing));
    }
    let cells = n * cells_per_instance;
    let mut unvalidated = false;
    let mut t: usize = 0;
    while t < cells
        invariant
            cells == n * cells_per_instance,
            0 < n_input_cells <= cells_per_instance,
            t <= cells,
            unvalidated == !(forall|u: int|
                0 <= u < t && u % cells_per_instance as int >= n_input_cells
                    ==> memory.validated_addresses@.contains(#[trigger] addr_at(base, u))),
        decreases cells - t,
    {
        if t % cells_per_instance >= n_input_cells {
            let addr = Relocatable { segment_index: base, offset: t };
            assert(addr == addr_at(base, t as int));
            if !memory.is_validated(&addr) {
                unvalidated = true;
            }
        }
        t = t + 1;
    }
    Ok(unvalidated)
}

} // verus!
