//! The instructions that a builder asks the backend to emit.

use vstd::prelude::*;
use vstd::arithmetic::power2::{lemma_pow2_unfold, pow2};
use vstd::bits::{lemma_u64_pow2_no_overflow, lemma_u64_shl_is_mul};
use crate::handle::{BlockRef, TypeRef, ValueRef};
use crate::value::Predicate;

verus! {

/// The backend's operations on two operands and its conversions.
#[derive(Clone, Copy, Debug, PartialEq, Eq, Structural)]
pub enum Opcode {
    Add,
    FAdd,
    Sub,
    FSub,
    Mul,
    FMul,
    SDiv,
    FDiv,
    SRem,
    FRem,
    Shl,
    AShr,
    And,
    Or,
    Xor,
    Trunc,
    ZExt,
    SExt,
    FPToUI,
    FPToSI,
    UIToFP,
    SIToFP,
    FPTrunc,
    FPExt,
    PtrToInt,
    IntToPtr,
    BitCast,
}

impl Opcode {
    /// Whether the operation converts one value to another type.
    pub open spec fn is_cast(self) -> bool {
        match self {
            Opcode::Trunc
            | Opcode::ZExt
            | Opcode::SExt
            | Opcode::FPToUI
            | Opcode::FPToSI
            | Opcode::UIToFP
            | Opcode::SIToFP
            | Opcode::FPTrunc
            | Opcode::FPExt
            | Opcode::PtrToInt
            | Opcode::IntToPtr
            | Opcode::BitCast => true,
            _ => false,
        }
    }

}

/// The backend's comparisons of integers. `U` reads both bit patterns as
/// unsigned numbers, `S` as two's complement.
#[derive(Clone, Copy, Debug, PartialEq, Eq, Structural)]
pub enum IntPredicate {
    EQ,
    NE,
    UGT,
    UGE,
    ULT,
    ULE,
    SGT,
    SGE,
    SLT,
    SLE,
}

/// The backend's ordered comparisons of floating-point numbers: each is false
/// when an operand is not a number.
#[derive(Clone, Copy, Debug, PartialEq, Eq, Structural)]
pub enum RealPredicate {
    OEQ,
    ONE,
    OGT,
    OGE,
    OLT,
    OLE,
}

/// Whether the highest of the `bits` bits of `pattern` is set.
pub open spec fn high_bit(bits: nat, pattern: nat) -> bool
    recommends
        bits >= 1,
        pattern < pow2(bits),
{
    pattern >= pow2((bits - 1) as nat)
}

/// The number that `pattern` stands for when its `bits` bits are read as two's
/// complement.
pub open spec fn signed_value(bits: nat, pattern: nat) -> int
    recommends
        bits >= 1,
        pattern < pow2(bits),
{
    if high_bit(bits, pattern) {
        pattern - pow2(bits)
    } else {
        pattern as int
    }
}

impl IntPredicate {
    /// The backend predicate for `pred` on integers, read as signed or as
    /// unsigned numbers. Equality does not depend on the reading.
    pub open spec fn spec_select(pred: Predicate, signed: bool) -> IntPredicate {
        match pred {
            Predicate::Eq => IntPredicate::EQ,
            Predicate::Ne => IntPredicate::NE,
            Predicate::Lt => if signed { IntPredicate::SLT } else { IntPredicate::ULT },
            Predicate::Le => if signed { IntPredicate::SLE } else { IntPredicate::ULE },
            Predicate::Gt => if signed { IntPredicate::SGT } else { IntPredicate::UGT },
            Predicate::Ge => if signed { IntPredicate::SGE } else { IntPredicate::UGE },
        }
    }

    pub fn select(pred: Predicate, signed: bool) -> (p: IntPredicate)
        ensures
            p == Self::spec_select(pred, signed),
    {
        match (pred, signed) {
            (Predicate::Eq, _) => IntPredicate::EQ,
            (Predicate::Ne, _) => IntPredicate::NE,
            (Predicate::Lt, true) => IntPredicate::SLT,
            (Predicate::Lt, false) => IntPredicate::ULT,
            (Predicate::Le, true) => IntPredicate::SLE,
            (Predicate::Le, false) => IntPredicate::ULE,
            (Predicate::Gt, true) => IntPredicate::SGT,
            (Predicate::Gt, false) => IntPredicate::UGT,
            (Predicate::Ge, true) => IntPredicate::SGE,
            (Predicate::Ge, false) => IntPredicate::UGE,
        }
    }

    /// What the predicate decides of two bit patterns of `bits` bits.
    pub open spec fn holds(self, bits: nat, a: nat, b: nat) -> bool
        recommends
            bits >= 1,
            a < pow2(bits),
            b < pow2(bits),
    {
        match self {
            IntPredicate::EQ => a == b,
            IntPredicate::NE => a != b,
            IntPredicate::UGT => a > b,
            IntPredicate::UGE => a >= b,
            IntPredicate::ULT => a < b,
            IntPredicate::ULE => a <= b,
            IntPredicate::SGT => signed_value(bits, a) > signed_value(bits, b),
            IntPredicate::SGE => signed_value(bits, a) >= signed_value(bits, b),
            IntPredicate::SLT => signed_value(bits, a) < signed_value(bits, b),
            IntPredicate::SLE => signed_value(bits, a) <= signed_value(bits, b),
        }
    }

    /// Decides the predicate on two bit patterns of `bits` bits.
    pub fn eval(&self, bits: u32, a: u64, b: u64) -> (yes: bool)
        requires
            1 <= bits <= 64,
            a < pow2(bits as nat),
            b < pow2(bits as nat),
        ensures
            yes == self.holds(bits as nat, a as nat, b as nat),
    {
        let shift: u64 = (bits - 1) as u64;
        proof {
            lemma_u64_pow2_no_overflow(shift as nat);
            lemma_u64_shl_is_mul(1, shift);
            lemma_pow2_unfold(bits as nat);
        }
        let half: u64 = 1u64 << shift;
        let a_high: bool = a >= half;
        let b_high: bool = b >= half;
        // With both high bits alike the two readings order the patterns alike;
        // otherwise the pattern with the high bit set is the negative one.
        let signed_lt: bool = if a_high == b_high { a < b } else { a_high };
        let signed_gt: bool = if a_high == b_high { a > b } else { b_high };
        match self {
            IntPredicate::EQ => a == b,
            IntPredicate::NE => a != b,
            IntPredicate::UGT => a > b,
            IntPredicate::UGE => a >= b,
            IntPredicate::ULT => a < b,
            IntPredicate::ULE => a <= b,
            IntPredicate::SGT => signed_gt,
            IntPredicate::SGE => signed_gt || a == b,
            IntPredicate::SLT => signed_lt,
            IntPredicate::SLE => signed_lt || a == b,
        }
    }
}

impl RealPredicate {
    /// The backend predicate for `pred` on floating-point numbers: always the
    /// ordered one.
    pub open spec fn spec_select(pred: Predicate) -> RealPredicate {
        match pred {
            Predicate::Eq => RealPredicate::OEQ,
            Predicate::Ne => RealPredicate::ONE,
            Predicate::Gt => RealPredicate::OGT,
            Predicate::Ge => RealPredicate::OGE,
            Predicate::Lt => RealPredicate::OLT,
            Predicate::Le => RealPredicate::OLE,
        }
    }

    pub fn select(pred: Predicate) -> (p: RealPredicate)
        ensures
            p == Self::spec_select(pred),
    {
        match pred {
            Predicate::Eq => RealPredicate::OEQ,
            Predicate::Ne => RealPredicate::ONE,
            Predicate::Gt => RealPredicate::OGT,
            Predicate::Ge => RealPredicate::OGE,
            Predicate::Lt => RealPredicate::OLT,
            Predicate::Le => RealPredicate::OLE,
        }
    }
}

/// The block that a conditional branch goes to.
pub open spec fn branch_target(
    condition: bool,
    then_block: BlockRef,
    else_block: BlockRef,
) -> BlockRef {
    if condition {
        then_block
    } else {
        else_block
    }
}

/// A comparison of two integers, followed by a branch on its result, goes to
/// the first block exactly when the comparison is true of the two numbers: of
/// the numbers that the bit patterns stand for in two's complement where the
/// comparison is signed, of the patterns themselves where it is unsigned.
pub proof fn law_comparison_branches_as_arithmetic(
    pred: Predicate,
    bits: nat,
    a: nat,
    b: nat,
    then_block: BlockRef,
    else_block: BlockRef,
)
    requires
        bits >= 1,
        a < pow2(bits),
        b < pow2(bits),
    ensures
        branch_target(
            IntPredicate::spec_select(pred, true).holds(bits, a, b),
            then_block,
            else_block,
        ) == (if pred.compare(signed_value(bits, a), signed_value(bits, b)) {
            then_block
        } else {
            else_block
        }),
        branch_target(
            IntPredicate::spec_select(pred, false).holds(bits, a, b),
            then_block,
            else_block,
        ) == (if pred.compare(a as int, b as int) {
            then_block
        } else {
            else_block
        }),
{
}

/// The signed and the unsigned reading of a comparison disagree on two bit
/// patterns exactly when the comparison is one of order and the high bit is
/// set in one of the two patterns and clear in the other.
pub proof fn law_signedness_matters_on_high_bit(pred: Predicate, bits: nat, a: nat, b: nat)
    requires
        bits >= 1,
        a < pow2(bits),
        b < pow2(bits),
    ensures
        (IntPredicate::spec_select(pred, true).holds(bits, a, b) != IntPredicate::spec_select(
            pred,
            false,
        ).holds(bits, a, b)) <==> (!(pred is Eq) && !(pred is Ne) && high_bit(bits, a) != high_bit(
            bits,
            b,
        )),
{
    lemma_pow2_unfold(bits);
}

/// One instruction, as a builder hands it to the backend for emission at its
/// current position. Operands are handles; no instruction but a phi node
/// carries a name.
#[allow(inconsistent_fields)]
#[derive(Debug, PartialEq, Eq)]
pub enum Instr<'a> {
    RetVoid,
    Ret { value: ValueRef },
    /// Room on the stack for `size` elements of type `elem`.
    ArrayAlloca { elem: TypeRef, size: ValueRef },
    /// Room on the stack for one value of type `ty`.
    Alloca { ty: TypeRef },
    Free { ptr: ValueRef },
    Store { value: ValueRef, ptr: ValueRef },
    Load { ptr: ValueRef },
    Br { dest: BlockRef },
    CondBr { cond: ValueRef, then_block: BlockRef, else_block: BlockRef },
    /// A branch to the block paired with the constant that `value` equals, or
    /// to `default` if there is none.
    Switch { value: ValueRef, default: BlockRef, cases: Vec<(ValueRef, BlockRef)> },
    /// A call of `func`; `tail_call` marks it as one that may be turned into a
    /// jump.
    Call { func: ValueRef, args: Vec<ValueRef>, tail_call: bool },
    Select { cond: ValueRef, true_val: ValueRef, false_val: ValueRef },
    Cast { op: Opcode, value: ValueRef, dest_ty: TypeRef },
    InsertValue { agg: ValueRef, elem: ValueRef, index: u32 },
    ExtractValue { agg: ValueRef, index: u32 },
    Neg { value: ValueRef },
    Not { value: ValueRef },
    Binary { op: Opcode, lhs: ValueRef, rhs: ValueRef },
    IntCompare { pred: IntPredicate, lhs: ValueRef, rhs: ValueRef },
    FloatCompare { pred: RealPredicate, lhs: ValueRef, rhs: ValueRef },
    /// The address of a part of what `pointer` points to, found by `indices`
    /// and taken to lie within it.
    InBoundsGep { pointer: ValueRef, indices: Vec<ValueRef> },
    Phi { ty: TypeRef, name: &'a str },
}

} // verus!
