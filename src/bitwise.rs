use crate::errors::RunnerError;
use crate::felt::{lemma_limbs_value_zero, limbs_value, Felt};
use crate::memory::{spec_cell, Memory};
use crate::relocatable::{MaybeRelocatable, Relocatable};
use vstd::prelude::*;

verus! {

/// Cells per bitwise instance: the inputs `x`, `y` and the outputs
/// `x & y`, `x ^ y`, `x | y`.
pub const CELLS_PER_BITWISE: u32 = 5;

/// Input cells per bitwise instance.
pub const INPUT_CELLS_PER_BITWISE: u32 = 2;

/// Configuration of the bitwise builtin.
#[derive(Debug, Clone, Copy, PartialEq, Eq)]
pub struct BitwiseInstanceDef {
    pub ratio: u32,
    pub total_n_bits: u32,
}

impl Default for BitwiseInstanceDef {
    fn default() -> (r: BitwiseInstanceDef)
        ensures
            r.ratio == 256,
            r.total_n_bits == 251,
    {
        BitwiseInstanceDef { ratio: 256, total_n_bits: 251 }
    }
}

impl BitwiseInstanceDef {
    pub fn new(ratio: u32) -> (r: BitwiseInstanceDef)
        ensures
            r.ratio == ratio,
            r.total_n_bits == 251,
    {
        BitwiseInstanceDef { ratio, total_n_bits: 251 }
    }
}

/// How many bit positions `e < k` fall in the first `spacing` positions of
/// their block of `block` positions; with `reach > 0`, only those with
/// `e + reach + 1 > total`.
pub open spec fn diluted_count(spacing: int, block: int, total: int, reach: int, k: int) -> int
    decreases k,
{
    if k <= 0 {
        0
    } else {
        let e = k - 1;
        diluted_count(spacing, block, total, reach, k - 1) + if e % block < spacing && (reach
            < 0 || e + reach + 1 > total) {
            1int
        } else {
            0
        }
    }
}

proof fn lemma_diluted_count_bound(spacing: int, block: int, total: int, reach: int, k: int)
    ensures
        0 <= diluted_count(spacing, block, total, reach, k) <= if k < 0 { 0 } else { k },
    decreases k,
{
    if k > 0 {
        lemma_diluted_count_bound(spacing, block, total, reach, k - 1);
    }
}

/// Limb `i` of `s`, zero past its end.
pub open spec fn limb_at(s: Seq<u64>, i: int) -> u64 {
    if 0 <= i < s.len() {
        s[i]
    } else {
        0
    }
}

/// The limbs hold no bit at or above position `total_bits`.
pub open spec fn fits_bits(s: Seq<u64>, total_bits: int) -> bool {
    forall|i: int|
        0 <= i < s.len() ==> if 64 * i >= total_bits {
            #[trigger] s[i] == 0
        } else if total_bits - 64 * i < 64 {
            s[i] < (1u64 << ((total_bits - 64 * i) as u64))
        } else {
            true
        }
}

/// An input accepted by the bitwise builtin: non-negative, below `2^total_bits`.
pub open spec fn valid_input(x: Felt, total_bits: int) -> bool {
    x@ >= 0 && fits_bits(x.limbs@, total_bits)
}

/// The output operation of cell `index` of an instance, on one limb.
pub open spec fn limb_op(index: int, a: u64, b: u64) -> u64 {
    if index == 2 {
        a & b
    } else if index == 3 {
        a ^ b
    } else {
        a | b
    }
}

/// The limbs of the output of cell `index` (2: and, 3: xor, 4: or).
pub open spec fn combine(index: int, xs: Seq<u64>, ys: Seq<u64>) -> Seq<u64> {
    Seq::new(
        if xs.len() >= ys.len() { xs.len() } else { ys.len() },
        |i: int| limb_op(index, limb_at(xs, i), limb_at(ys, i)),
    )
}

/// `r` is what deduction gives for `address` of a bitwise segment laid out in
/// instances of `cells_per_instance` cells, the first `n_input_cells` inputs.
pub open spec fn bitwise_deduction(
    cells_per_instance: int,
    n_input_cells: int,
    total_n_bits: u32,
    address: Relocatable,
    memory: Memory,
    r: Result<Option<MaybeRelocatable>, RunnerError>,
) -> bool {
    let index = address.offset as int % cells_per_instance;
    let x_addr = Relocatable {
        segment_index: address.segment_index,
        offset: (address.offset - index) as usize,
    };
    let y_addr = Relocatable {
        segment_index: address.segment_index,
        offset: (address.offset - index + 1) as usize,
    };
    if index < n_input_cells {
        r == Ok::<Option<MaybeRelocatable>, RunnerError>(None)
    } else {
        match (
            spec_cell(memory.data@, x_addr.segment_index as int, x_addr.offset as int),
            spec_cell(memory.data@, y_addr.segment_index as int, y_addr.offset as int),
        ) {
            (Some(MaybeRelocatable::Int(x)), Some(MaybeRelocatable::Int(y))) => if !valid_input(
                x,
                total_n_bits as int,
            ) {
                r == Err::<Option<MaybeRelocatable>, RunnerError>(
                    RunnerError::IntegerBiggerThanPowerOfTwo(x_addr, total_n_bits),
                )
            } else if !valid_input(y, total_n_bits as int) {
                r == Err::<Option<MaybeRelocatable>, RunnerError>(
                    RunnerError::IntegerBiggerThanPowerOfTwo(y_addr, total_n_bits),
                )
            } else if 2 <= index <= 4 {
                match r {
                    Ok(Some(MaybeRelocatable::Int(z))) => z@ == limbs_value(
                        combine(index, x.limbs@, y.limbs@),
                    ) && z.is_canonical(),
                    _ => false,
                }
            } else {
                r == Ok::<Option<MaybeRelocatable>, RunnerError>(None)
            },
            _ => r == Ok::<Option<MaybeRelocatable>, RunnerError>(None),
        }
    }
}

/// Whether `x` is non-negative and below `2^total_bits`.
fn is_valid_input(x: &Felt, total_bits: u32) -> (r: bool)
    ensures
        r == valid_input(*x, total_bits as int),
{
    let n = x.limbs.len();
    let mut fits = true;
    let mut zero = true;
    let mut i: usize = 0;
    while i < n
        invariant
            n == x.limbs@.len(),
            i <= n,
            fits == fits_bits(x.limbs@.take(i as int), total_bits as int),
            zero == (forall|k: int| 0 <= k < i ==> x.limbs@[k] == 0),
        decreases n - i,
    {
        let limb = x.limbs[i];
        let ghost prefix = x.limbs@.take(i as int);
        let ghost next = x.limbs@.take(i + 1);
        let ok: bool = if (i as u64) >= (total_bits as u64) / 64 + 1 {
            limb == 0
        } else if (total_bits as u64) < 64 * (i as u64) + 64 {
            if (total_bits as u64) <= 64 * (i as u64) {
                limb == 0
            } else {
                limb < (1u64 << ((total_bits as u64) - 64 * (i as u64)))
            }
        } else {
            true
        };
        proof {
            let t = total_bits as int;
            let ii = i as int;
            assert(ii >= t / 64 + 1 ==> 64 * ii >= t);
            assert(ok == if 64 * ii >= t {
                limb == 0
            } else if t - 64 * ii < 64 {
                limb < (1u64 << ((t - 64 * ii) as u64))
            } else {
                true
            });
            assert forall|k: int| 0 <= k < i implies next[k] == prefix[k] by {}
            assert(next[ii] == limb);
            if fits && ok {
                assert(fits_bits(next, t));
            }
            if !fits {
                let k = choose|k: int|
                    0 <= k < prefix.len() && !(if 64 * k >= t {
                        #[trigger] prefix[k] == 0
                    } else if t - 64 * k < 64 {
                        prefix[k] < (1u64 << ((t - 64 * k) as u64))
                    } else {
                        true
                    });
                assert(next[k] == prefix[k]);
            }
        }
        fits = fits && ok;
        if limb != 0 {
            zero = false;
        }
        i = i + 1;
        proof {
            if !zero {
                if limb == 0 {
                    let k = choose|k: int| 0 <= k < i - 1 && x.limbs@[k] != 0;
                    assert(0 <= k < i && x.limbs@[k] != 0);
                }
            }
        }
    }
    proof {
        assert(x.limbs@.take(n as int) =~= x.limbs@);
        lemma_limbs_value_zero(x.limbs@);
    }
    fits && (!x.negative || zero)
}

/// The bitwise builtin.
#[derive(Debug)]
pub struct BitwiseBuiltinRunner {
    pub ratio: u32,
    pub base: isize,
    pub cells_per_instance: u32,
    pub n_input_cells: u32,
    pub stop_ptr: Option<usize>,
    pub total_n_bits: u32,
    pub included: bool,
}

impl BitwiseBuiltinRunner {
    pub fn new(instance_def: &BitwiseInstanceDef, included: bool) -> (r: BitwiseBuiltinRunner)
        ensures
            r.ratio == instance_def.ratio,
            r.total_n_bits == instance_def.total_n_bits,
            r.base == 0,
            r.cells_per_instance == CELLS_PER_BITWISE,
            r.n_input_cells == INPUT_CELLS_PER_BITWISE,
            r.stop_ptr.is_none(),
            r.included == included,
    {
        BitwiseBuiltinRunner {
            ratio: instance_def.ratio,
            base: 0,
            cells_per_instance: CELLS_PER_BITWISE,
            n_input_cells: INPUT_CELLS_PER_BITWISE,
            stop_ptr: None,
            total_n_bits: instance_def.total_n_bits,
            included,
        }
    }

    pub fn base(&self) -> (r: isize)
        ensures
            r == self.base,
    {
        self.base
    }

    pub fn ratio(&self) -> (r: u32)
        ensures
            r == self.ratio,
    {
        self.ratio
    }

    /// The value of output cell `address`: `x & y`, `x ^ y` or `x | y` of
    /// its instance's inputs `x` and `y`, once both are written integers.
    /// Nothing for an input cell or when an input is missing; an error when an
    /// input is negative or not below `2^total_n_bits`.
    pub fn deduce_memory_cell(&self, address: &Relocatable, memory: &Memory) -> (r: Result<
        Option<MaybeRelocatable>,
        RunnerError,
    >)
        requires
            self.cells_per_instance == CELLS_PER_BITWISE,
            self.n_input_cells == INPUT_CELLS_PER_BITWISE,
        ensures
            bitwise_deduction(
                self.cells_per_instance as int,
                self.n_input_cells as int,
                self.total_n_bits,
                *address,
                *memory,
                r,
            ),
    {
        let index = address.offset % (self.cells_per_instance as usize);
        if index < self.n_input_cells as usize {
            return Ok(None);
        }
        proof {
            let o = address.offset as int;
            let c = self.cells_per_instance as int;
            vstd::arithmetic::div_mod::lemma_fundamental_div_mod(o, c);
            assert(c * (o / c) >= 0) by (nonlinear_arith)
                requires c > 0, o >= 0;
        }
        let x_addr = Relocatable {
            segment_index: address.segment_index,
            offset: address.offset - index,
        };
        let y_addr = Relocatable {
            segment_index: address.segment_index,
            offset: address.offset - index + 1,
        };
        let (x, y) = match (memory.get(&x_addr), memory.get(&y_addr)) {
            (Some(MaybeRelocatable::Int(x)), Some(MaybeRelocatable::Int(y))) => (x, y),
            _ => return Ok(None),
        };
        if !is_valid_input(x, self.total_n_bits) {
            return Err(RunnerError::IntegerBiggerThanPowerOfTwo(x_addr, self.total_n_bits));
        }
        if !is_valid_input(y, self.total_n_bits) {
            return Err(RunnerError::IntegerBiggerThanPowerOfTwo(y_addr, self.total_n_bits));
        }
        if index < 2 || index > 4 {
            return Ok(None);
        }
        let len = if x.limbs.len() >= y.limbs.len() {
            x.limbs.len()
        } else {
            y.limbs.len()
        };
        let mut limbs: Vec<u64> = Vec::new();
        let mut i: usize = 0;
        while i < len
            invariant
                i <= len,
                len == (if x.limbs@.len() >= y.limbs@.len() {
                    x.limbs@.len()
                } else {
                    y.limbs@.len()
                }),
                2 <= index <= 4,
                limbs@ == combine(index as int, x.limbs@, y.limbs@).take(i as int),
            decreases len - i,
        {
            let a: u64 = if i < x.limbs.len() { x.limbs[i] } else { 0 };
            let b: u64 = if i < y.limbs.len() { y.limbs[i] } else { 0 };
            let v: u64 = if index == 2 {
                a & b
            } else if index == 3 {
                a ^ b
            } else {
                a | b
            };
            limbs.push(v);
            proof {
                assert(limbs@ =~= combine(index as int, x.limbs@, y.limbs@).take(i + 1));
            }
            i = i + 1;
        }
        proof {
            assert(limbs@ =~= combine(index as int, x.limbs@, y.limbs@));
        }
        Ok(Some(MaybeRelocatable::Int(Felt::from_parts(false, limbs))))
    }

    pub open spec fn spec_diluted_units(&self, diluted_spacing: u32, diluted_n_bits: u32) -> int {
        let block = diluted_spacing as int * diluted_n_bits as int;
        let total = self.total_n_bits as int;
        4 * diluted_count(diluted_spacing as int, block, total, -1, total) + diluted_count(
            diluted_spacing as int,
            block,
            total,
            diluted_spacing as int * (diluted_n_bits as int - 1),
            total,
        )
    }

    /// Diluted-check units: the bit positions below `total_n_bits` that lie in
    /// the first `diluted_spacing` positions of their block of
    /// `diluted_spacing * diluted_n_bits`, counted four times each, plus once
    /// more each for those that `diluted_spacing * (diluted_n_bits - 1)` more
    /// positions would carry past `total_n_bits`.
    pub fn get_used_diluted_check_units(&self, diluted_spacing: u32, diluted_n_bits: u32) -> (r:
        usize)
        requires
            diluted_spacing > 0,
            diluted_n_bits > 0,
            5 * self.total_n_bits as int <= usize::MAX,
        ensures
            r as int == self.spec_diluted_units(diluted_spacing, diluted_n_bits),
    {
        let spacing = diluted_spacing as u64;
        proof {
            let sp = diluted_spacing as int;
            let nb = diluted_n_bits as int;
            assert(0 < sp * nb <= 0xffff_ffff * 0xffff_ffff) by (nonlinear_arith)
                requires 0 < sp <= 0xffff_ffff, 0 < nb <= 0xffff_ffff;
            assert(0 <= sp * (nb - 1) <= 0xffff_ffff * 0xffff_fffe) by (nonlinear_arith)
                requires 0 < sp <= 0xffff_ffff, 0 < nb <= 0xffff_ffff;
        }
        let block = spacing * (diluted_n_bits as u64);
        let reach = spacing * (diluted_n_bits as u64 - 1);
        let total = self.total_n_bits as u64;
        let ghost s = spacing as int;
        let ghost b = block as int;
        let ghost t = total as int;
        let mut partition: u64 = 0;
        let mut trimmed: u64 = 0;
        let mut e: u64 = 0;
        while e < total
            invariant
                e <= total,
                total == self.total_n_bits,
                spacing == diluted_spacing,
                block == diluted_spacing as int * diluted_n_bits as int,
                reach == diluted_spacing as int * (diluted_n_bits as int - 1),
                block > 0,
                s == spacing as int,
                b == block as int,
                t == total as int,
                reach <= 0xffff_ffff * 0xffff_fffe,
                total <= 0xffff_ffff,
                partition == diluted_count(s, b, t, -1, e as int),
                trimmed == diluted_count(s, b, t, reach as int, e as int),
            decreases total - e,
        {
            proof {
                lemma_diluted_count_bound(s, b, t, -1, e as int);
                lemma_diluted_count_bound(s, b, t, reach as int, e as int);
            }
            if e % block < spacing {
                partition = partition + 1;
                if e + reach + 1 > total {
                    trimmed = trimmed + 1;
                }
            }
            e = e + 1;
        }
        proof {
            lemma_diluted_count_bound(s, b, t, -1, t);
            lemma_diluted_count_bound(s, b, t, reach as int, t);
        }
        (4 * partition + trimmed) as usize
    }
}

} // verus!
