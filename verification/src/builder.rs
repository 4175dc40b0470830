//! The instruction builder: a cursor into a function under construction.
//!
//! A builder is made standing nowhere. Once it has been moved into a block
//! it stays positioned, and every instruction it selects is meant for the place
//! where it then stands. Selecting an instruction changes nothing in the
//! builder: what is selected depends on the operands alone.

use vstd::prelude::*;
use crate::block::BasicBlock;
use vstd::arithmetic::power2::pow2;
use crate::handle::{
    handles_of, low_u32, to_llvmref_array, BlockRef, BuilderRef, ContextRef, LLVMRef, ValueRef,
};
use crate::instr::{
    branch_target, law_comparison_branches_as_arithmetic, signed_value, Instr, IntPredicate,
    Opcode, RealPredicate,
};
use crate::request::Request;
use crate::types::Ty;
use crate::value::{Function, Predicate, Value};

verus! {

/// The conversions from one type to another.
#[derive(Clone, Copy, Debug, PartialEq, Eq, Structural)]
pub enum CastOp {
    /// Cuts an integer down to a narrower integer type.
    Trunc,
    /// Widens an integer, filling with zeros.
    ZExt,
    /// Widens an integer, filling with its sign bit.
    SExt,
    /// Cuts a floating-point number down to a narrower floating-point type.
    FPTrunc,
    /// Widens a floating-point number.
    FPExt,
    /// Turns an unsigned integer into a floating-point number.
    UIToFP,
    /// Turns a signed integer into a floating-point number.
    SIToFP,
    /// Turns a floating-point number into an unsigned integer.
    FPToUI,
    /// Turns a floating-point number into a signed integer.
    FPToSI,
    /// Turns a pointer into an integer.
    PtrToInt,
    /// Turns an integer into a pointer.
    IntToPtr,
    /// Reads the bits of a value as a value of another type of the same size.
    BitCast,
}

impl CastOp {
    /// The backend operation that carries the conversion out.
    pub open spec fn spec_opcode(self) -> Opcode {
        match self {
            CastOp::Trunc => Opcode::Trunc,
            CastOp::ZExt => Opcode::ZExt,
            CastOp::SExt => Opcode::SExt,
            CastOp::FPTrunc => Opcode::FPTrunc,
            CastOp::FPExt => Opcode::FPExt,
            CastOp::UIToFP => Opcode::UIToFP,
            CastOp::SIToFP => Opcode::SIToFP,
            CastOp::FPToUI => Opcode::FPToUI,
            CastOp::FPToSI => Opcode::FPToSI,
            CastOp::PtrToInt => Opcode::PtrToInt,
            CastOp::IntToPtr => Opcode::IntToPtr,
            CastOp::BitCast => Opcode::BitCast,
        }
    }

    pub fn opcode(&self) -> (op: Opcode)
        ensures
            op == self.spec_opcode(),
            op.is_cast(),
    {
        match self {
            CastOp::Trunc => Opcode::Trunc,
            CastOp::ZExt => Opcode::ZExt,
            CastOp::SExt => Opcode::SExt,
            CastOp::FPTrunc => Opcode::FPTrunc,
            CastOp::FPExt => Opcode::FPExt,
            CastOp::UIToFP => Opcode::UIToFP,
            CastOp::SIToFP => Opcode::SIToFP,
            CastOp::FPToUI => Opcode::FPToUI,
            CastOp::FPToSI => Opcode::FPToSI,
            CastOp::PtrToInt => Opcode::PtrToInt,
            CastOp::IntToPtr => Opcode::IntToPtr,
            CastOp::BitCast => Opcode::BitCast,
        }
    }
}

/// No two conversions are carried out by the same backend operation.
pub proof fn law_conversions_are_distinct(a: CastOp, b: CastOp)
    requires
        a.spec_opcode() == b.spec_opcode(),
    ensures
        a == b,
{
}

/// The operation that works on two operands of type `ty`: `int_op` where the
/// type is an integer, `float_op` where it is anything else.
pub open spec fn arith_opcode(ty: Ty, int_op: Opcode, float_op: Opcode) -> Opcode {
    if ty.kind is Integer {
        int_op
    } else {
        float_op
    }
}

/// Whether the constants of `cases` are all different. The backend keeps one
/// object for each constant, so two constants are the same exactly when their
/// handles are.
pub open spec fn distinct_cases(cases: Seq<(ValueRef, BlockRef)>) -> bool {
    forall|i: int, j: int| 0 <= i < j < cases.len() ==> cases[i].0 != cases[j].0
}

/// The constants and blocks of `cases`, as handles.
pub open spec fn case_handles(cases: Seq<(&Value, &BasicBlock)>) -> Seq<(ValueRef, BlockRef)> {
    Seq::new(cases.len(), |i: int| (cases[i].0.handle, cases[i].1.0))
}

/// An instruction builder.
#[derive(Debug, PartialEq, Eq)]
pub struct Builder {
    handle: BuilderRef,
    positioned: bool,
}

impl Builder {
    /// Whether the builder stands in a block.
    pub closed spec fn positioned(&self) -> bool {
        self.positioned
    }

    /// Asks for a builder in `ctx`.
    pub fn new(ctx: ContextRef) -> (request: Request<'static>)
        ensures
            request == (Request::CreateBuilder { ctx }),
    {
        Request::CreateBuilder { ctx }
    }

    /// The builder that the backend made under `handle`. It stands nowhere
    /// yet.
    pub fn attach(handle: BuilderRef) -> (builder: Builder)
        ensures
            builder.handle() == handle,
            !builder.positioned(),
    {
        Builder { handle, positioned: false }
    }

    pub fn is_positioned(&self) -> (yes: bool)
        ensures
            yes == self.positioned(),
    {
        self.positioned
    }

    /// Asks to have the builder released.
    pub fn dispose(self) -> (request: Request<'static>)
        ensures
            request == (Request::DisposeBuilder { builder: self.handle() }),
    {
        Request::DisposeBuilder { builder: self.handle }
    }

    /// Asks for the block in which the builder stands.
    pub fn get_insert_block(&self) -> (request: Request<'static>)
        ensures
            request == (Request::GetInsertBlock { builder: self.handle() }),
    {
        Request::GetInsertBlock { builder: self.handle }
    }

    /// Moves the builder in front of `instr` within `block`.
    pub fn position_at(
        &mut self,
        block: &BasicBlock,
        instr: &Value,
    ) -> (request: Request<'static>)
        ensures
            final(self).handle() == old(self).handle(),
            final(self).positioned(),
            request == (Request::PositionBuilder {
                builder: old(self).handle(),
                block: block.0,
                before: instr.handle,
            }),
    {
        self.positioned = true;
        Request::PositionBuilder { builder: self.handle, block: block.0, before: instr.handle }
    }

    /// Moves the builder to the end of `block`.
    pub fn position_at_end(&mut self, block: &BasicBlock) -> (request: Request<'static>)
        ensures
            final(self).handle() == old(self).handle(),
            final(self).positioned(),
            request == (Request::PositionBuilderAtEnd {
                builder: old(self).handle(),
                block: block.0,
            }),
    {
        self.positioned = true;
        Request::PositionBuilderAtEnd { builder: self.handle, block: block.0 }
    }

    /// Records that the backend has moved the builder into a block on its own
    /// account.
    pub(crate) fn enter(&mut self)
        ensures
            final(self).handle() == old(self).handle(),
            final(self).positioned(),
    {
        self.positioned = true;
    }

    /// Return from the function without a value.
    pub fn create_ret_void(&self) -> (instr: Instr<'static>)
        requires
            self.positioned(),
        ensures
            instr == Instr::RetVoid,
    {
        Instr::RetVoid
    }

    /// Return `value` from the function.
    pub fn create_ret(&self, value: &Value) -> (instr: Instr<'static>)
        requires
            self.positioned(),
        ensures
            instr == (Instr::Ret { value: value.handle }),
    {
        Instr::Ret { value: value.handle }
    }

    /// Room on the stack for `size` elements of type `elem`.
    pub fn build_array_alloca(&self, elem: &Ty, size: &Value) -> (instr: Instr<'static>)
        requires
            self.positioned(),
        ensures
            instr == (Instr::ArrayAlloca { elem: elem.handle, size: size.handle }),
    {
        Instr::ArrayAlloca { elem: elem.handle, size: size.handle }
    }

    /// Room on the stack for one value of type `ty`. The result is the
    /// pointer to it.
    pub fn create_alloca(&self, ty: &Ty) -> (instr: Instr<'static>)
        requires
            self.positioned(),
        ensures
            instr == (Instr::Alloca { ty: ty.handle }),
    {
        Instr::Alloca { ty: ty.handle }
    }

    /// Release the memory that `val` points to.
    pub fn create_free(&self, val: &Value) -> (instr: Instr<'static>)
        requires
            self.positioned(),
        ensures
            instr == (Instr::Free { ptr: val.handle }),
    {
        Instr::Free { ptr: val.handle }
    }

    /// Store `val` where `ptr` points. Whether `ptr` is a pointer is left to
    /// the backend's verifier.
    pub fn create_store(&self, val: &Value, ptr: &Value) -> (instr: Instr<'static>)
        requires
            self.positioned(),
        ensures
            instr == (Instr::Store { value: val.handle, ptr: ptr.handle }),
    {
        Instr::Store { value: val.handle, ptr: ptr.handle }
    }

    /// Go to `dest`.
    pub fn create_br(&self, dest: &BasicBlock) -> (instr: Instr<'static>)
        requires
            self.positioned(),
        ensures
            instr == (Instr::Br { dest: dest.0 }),
    {
        Instr::Br { dest: dest.0 }
    }

    /// Go to `if_block` if `cond` is true, to `else_block` otherwise.
    pub fn create_cond_br(
        &self,
        cond: &Value,
        if_block: &BasicBlock,
        else_block: &BasicBlock,
    ) -> (instr: Instr<'static>)
        requires
            self.positioned(),
        ensures
            instr == (Instr::CondBr {
                cond: cond.handle,
                then_block: if_block.0,
                else_block: else_block.0,
            }),
    {
        Instr::CondBr { cond: cond.handle, then_block: if_block.0, else_block: else_block.0 }
    }

    /// Go to the block whose constant `value` equals, or to `default` if it
    /// equals none. Nothing is selected if two cases have the same constant.
    pub fn create_switch(
        &self,
        value: &Value,
        default: &BasicBlock,
        cases: &[(&Value, &BasicBlock)],
    ) -> (selected: Option<Instr<'static>>)
        requires
            self.positioned(),
        ensures
            distinct_cases(case_handles(cases@)) ==> (selected matches Some(
                Instr::Switch { value: v, default: d, cases: c },
            ) && v == value.handle && d == default.0 && c@ == case_handles(cases@)),
            !distinct_cases(case_handles(cases@)) ==> selected is None,
    {
        let mut list: Vec<(ValueRef, BlockRef)> = Vec::new();
        let mut i: usize = 0;
        while i < cases.len()
            invariant
                i <= cases@.len(),
                list@ == case_handles(cases@).subrange(0, i as int),
                distinct_cases(list@),
            decreases cases@.len() - i,
        {
            let constant: ValueRef = cases[i].0.handle;
            let target: BlockRef = cases[i].1.0;
            let mut j: usize = 0;
            while j < list.len()
                invariant
                    i < cases@.len(),
                    j <= list@.len(),
                    list@ == case_handles(cases@).subrange(0, i as int),
                    constant == case_handles(cases@)[i as int].0,
                    forall|k: int| 0 <= k < j ==> list@[k].0 != constant,
                decreases list@.len() - j,
            {
                if list[j].0.0 == constant.0 {
                    assert(case_handles(cases@)[j as int].0 == list@[j as int].0);
                    return None;
                }
                j = j + 1;
            }
            list.push((constant, target));
            assert(list@ =~= case_handles(cases@).subrange(0, i + 1));
            i = i + 1;
        }
        assert(list@ =~= case_handles(cases@));
        Some(Instr::Switch { value: value.handle, default: default.0, cases: list })
    }

    fn create_call_internal<V: LLVMRef<ValueRef>>(
        &self,
        func: &Function,
        args: &[&V],
        tail_call: bool,
    ) -> (instr: Instr<'static>)
        requires
            self.positioned(),
        ensures
            instr matches Instr::Call { func: f, args: a, tail_call: t } && f == func.handle && a@
                == handles_of::<ValueRef, V>(args@) && t == tail_call,
    {
        let refs: Vec<ValueRef> = to_llvmref_array(args);
        Instr::Call { func: func.handle, args: refs, tail_call }
    }

    /// Call `func` with `args`. The result is what the function returns.
    pub fn create_call(&self, func: &Function, args: &[&Value]) -> (instr: Instr<'static>)
        requires
            self.positioned(),
        ensures
            instr matches Instr::Call { func: f, args: a, tail_call: t } && f == func.handle && a@
                == handles_of::<ValueRef, Value>(args@) && !t,
    {
        self.create_call_internal(func, args, false)
    }

    /// Call `func` with `args`, as a call that may be turned into a jump.
    pub fn create_tail_call<V: LLVMRef<ValueRef>>(
        &self,
        func: &Function,
        args: &[&V],
    ) -> (instr: Instr<'static>)
        requires
            self.positioned(),
        ensures
            instr matches Instr::Call { func: f, args: a, tail_call: t } && f == func.handle && a@
                == handles_of::<ValueRef, V>(args@) && t,
    {
        self.create_call_internal(func, args, true)
    }

    /// `true_val` if `cond` is true, `false_val` otherwise.
    pub fn create_select(
        &self,
        cond: &Value,
        true_val: &Value,
        false_val: &Value,
    ) -> (instr: Instr<'static>)
        requires
            self.positioned(),
        ensures
            instr == (Instr::Select {
                cond: cond.handle,
                true_val: true_val.handle,
                false_val: false_val.handle,
            }),
    {
        Instr::Select {
            cond: cond.handle,
            true_val: true_val.handle,
            false_val: false_val.handle,
        }
    }

    /// Convert `value` to `dest_ty` by `op`. Whether the two types allow the
    /// conversion is left to the backend's verifier.
    pub fn create_cast(&self, op: CastOp, value: &Value, dest_ty: &Ty) -> (instr: Instr<'static>)
        requires
            self.positioned(),
        ensures
            instr == (Instr::Cast {
                op: op.spec_opcode(),
                value: value.handle,
                dest_ty: dest_ty.handle,
            }),
    {
        Instr::Cast { op: op.opcode(), value: value.handle, dest_ty: dest_ty.handle }
    }

    /// Read the bits of `value` as a value of type `dest`.
    pub fn create_bit_cast(&self, value: &Value, dest: &Ty) -> (instr: Instr<'static>)
        requires
            self.positioned(),
        ensures
            instr == (Instr::Cast {
                op: Opcode::BitCast,
                value: value.handle,
                dest_ty: dest.handle,
            }),
    {
        Instr::Cast { op: Opcode::BitCast, value: value.handle, dest_ty: dest.handle }
    }

    /// The aggregate `agg` with `elem` in place of its field `index`. The
    /// backend reads the low 32 bits of the index.
    pub fn create_insert_value(
        &self,
        agg: &Value,
        elem: &Value,
        index: usize,
    ) -> (instr: Instr<'static>)
        requires
            self.positioned(),
        ensures
            instr matches Instr::InsertValue { agg: a, elem: e, index: i } && a == agg.handle && e
                == elem.handle && i as int == (index as int) % 0x1_0000_0000,
    {
        Instr::InsertValue { agg: agg.handle, elem: elem.handle, index: low_u32(index) }
    }

    /// The field `index` of the aggregate `agg`. The backend reads the low 32
    /// bits of the index.
    pub fn create_extract_value(&self, agg: &Value, index: usize) -> (instr: Instr<'static>)
        requires
            self.positioned(),
        ensures
            instr matches Instr::ExtractValue { agg: a, index: i } && a == agg.handle && i as int
                == (index as int) % 0x1_0000_0000,
    {
        Instr::ExtractValue { agg: agg.handle, index: low_u32(index) }
    }

    /// The value that `value` points to.
    pub fn create_load(&self, value: &Value) -> (instr: Instr<'static>)
        requires
            self.positioned(),
        ensures
            instr == (Instr::Load { ptr: value.handle }),
    {
        Instr::Load { ptr: value.handle }
    }

    /// The negation of `value`.
    pub fn create_neg(&self, value: &Value) -> (instr: Instr<'static>)
        requires
            self.positioned(),
        ensures
            instr == (Instr::Neg { value: value.handle }),
    {
        Instr::Neg { value: value.handle }
    }

    /// `value` with every bit flipped.
    pub fn create_not(&self, value: &Value) -> (instr: Instr<'static>)
        requires
            self.positioned(),
        ensures
            instr == (Instr::Not { value: value.handle }),
    {
        Instr::Not { value: value.handle }
    }

    /// The operation on `lhs` and `rhs` that their common type calls for:
    /// `int_op` for integers, `float_op` otherwise.
    fn arith(
        &self,
        lhs: &Value,
        rhs: &Value,
        int_op: Opcode,
        float_op: Opcode,
    ) -> (instr: Instr<'static>)
        requires
            self.positioned(),
            lhs.ty.same(rhs.ty),
        ensures
            instr == (Instr::Binary {
                op: arith_opcode(lhs.ty, int_op, float_op),
                lhs: lhs.handle,
                rhs: rhs.handle,
            }),
    {
        let op: Opcode = if lhs.ty.is_integer() { int_op } else { float_op };
        Instr::Binary { op, lhs: lhs.handle, rhs: rhs.handle }
    }

    /// The sum of two values of one type.
    pub fn create_add(&self, lhs: &Value, rhs: &Value) -> (instr: Instr<'static>)
        requires
            self.positioned(),
            lhs.ty.same(rhs.ty),
        ensures
            instr == (Instr::Binary {
                op: arith_opcode(lhs.ty, Opcode::Add, Opcode::FAdd),
                lhs: lhs.handle,
                rhs: rhs.handle,
            }),
    {
        self.arith(lhs, rhs, Opcode::Add, Opcode::FAdd)
    }

    /// The difference of two values of one type.
    pub fn create_sub(&self, lhs: &Value, rhs: &Value) -> (instr: Instr<'static>)
        requires
            self.positioned(),
            lhs.ty.same(rhs.ty),
        ensures
            instr == (Instr::Binary {
                op: arith_opcode(lhs.ty, Opcode::Sub, Opcode::FSub),
                lhs: lhs.handle,
                rhs: rhs.handle,
            }),
    {
        self.arith(lhs, rhs, Opcode::Sub, Opcode::FSub)
    }

    /// The product of two values of one type.
    pub fn create_mul(&self, lhs: &Value, rhs: &Value) -> (instr: Instr<'static>)
        requires
            self.positioned(),
            lhs.ty.same(rhs.ty),
        ensures
            instr == (Instr::Binary {
                op: arith_opcode(lhs.ty, Opcode::Mul, Opcode::FMul),
                lhs: lhs.handle,
                rhs: rhs.handle,
            }),
    {
        self.arith(lhs, rhs, Opcode::Mul, Opcode::FMul)
    }

    /// The quotient of two values of one type; integers are divided as signed
    /// numbers.
    pub fn create_div(&self, lhs: &Value, rhs: &Value) -> (instr: Instr<'static>)
        requires
            self.positioned(),
            lhs.ty.same(rhs.ty),
        ensures
            instr == (Instr::Binary {
                op: arith_opcode(lhs.ty, Opcode::SDiv, Opcode::FDiv),
                lhs: lhs.handle,
                rhs: rhs.handle,
            }),
    {
        self.arith(lhs, rhs, Opcode::SDiv, Opcode::FDiv)
    }

    /// The remainder of two values of one type; integers are divided as
    /// signed numbers.
    pub fn create_rem(&self, lhs: &Value, rhs: &Value) -> (instr: Instr<'static>)
        requires
            self.positioned(),
            lhs.ty.same(rhs.ty),
        ensures
            instr == (Instr::Binary {
                op: arith_opcode(lhs.ty, Opcode::SRem, Opcode::FRem),
                lhs: lhs.handle,
                rhs: rhs.handle,
            }),
    {
        self.arith(lhs, rhs, Opcode::SRem, Opcode::FRem)
    }

    /// `lhs` shifted left by `rhs` bits.
    pub fn create_shl(&self, lhs: &Value, rhs: &Value) -> (instr: Instr<'static>)
        requires
            self.positioned(),
        ensures
            instr == (Instr::Binary { op: Opcode::Shl, lhs: lhs.handle, rhs: rhs.handle }),
    {
        Instr::Binary { op: Opcode::Shl, lhs: lhs.handle, rhs: rhs.handle }
    }

    /// `lhs` shifted right by `rhs` bits, filling with its sign bit.
    pub fn create_ashr(&self, lhs: &Value, rhs: &Value) -> (instr: Instr<'static>)
        requires
            self.positioned(),
        ensures
            instr == (Instr::Binary { op: Opcode::AShr, lhs: lhs.handle, rhs: rhs.handle }),
    {
        Instr::Binary { op: Opcode::AShr, lhs: lhs.handle, rhs: rhs.handle }
    }

    /// The bits set in both `lhs` and `rhs`.
    pub fn create_and(&self, lhs: &Value, rhs: &Value) -> (instr: Instr<'static>)
        requires
            self.positioned(),
        ensures
            instr == (Instr::Binary { op: Opcode::And, lhs: lhs.handle, rhs: rhs.handle }),
    {
        Instr::Binary { op: Opcode::And, lhs: lhs.handle, rhs: rhs.handle }
    }

    /// The bits set in `lhs` or in `rhs`.
    pub fn create_or(&self, lhs: &Value, rhs: &Value) -> (instr: Instr<'static>)
        requires
            self.positioned(),
        ensures
            instr == (Instr::Binary { op: Opcode::Or, lhs: lhs.handle, rhs: rhs.handle }),
    {
        Instr::Binary { op: Opcode::Or, lhs: lhs.handle, rhs: rhs.handle }
    }

    /// The bits set in one of `lhs` and `rhs` and not in the other.
    pub fn create_xor(&self, lhs: &Value, rhs: &Value) -> (instr: Instr<'static>)
        requires
            self.positioned(),
        ensures
            instr == (Instr::Binary { op: Opcode::Xor, lhs: lhs.handle, rhs: rhs.handle }),
    {
        Instr::Binary { op: Opcode::Xor, lhs: lhs.handle, rhs: rhs.handle }
    }

    /// Compare two numbers of one type by `pred`, integers as signed numbers.
    pub fn create_cmp(&self, l: &Value, r: &Value, pred: Predicate) -> (instr: Instr<'static>)
        requires
            self.positioned(),
            l.ty.same(r.ty),
            l.ty.kind is Integer || l.ty.kind is Float,
        ensures
            instr == comparison(l, r, pred, true),
    {
        self.create_cmp_internal(l, r, pred, true)
    }

    /// Compare two numbers of one type by `pred`, integers as unsigned
    /// numbers.
    pub fn create_ucmp(&self, l: &Value, r: &Value, pred: Predicate) -> (instr: Instr<'static>)
        requires
            self.positioned(),
            l.ty.same(r.ty),
            l.ty.kind is Integer || l.ty.kind is Float,
        ensures
            instr == comparison(l, r, pred, false),
    {
        self.create_cmp_internal(l, r, pred, false)
    }

    fn create_cmp_internal(
        &self,
        l: &Value,
        r: &Value,
        pred: Predicate,
        signed: bool,
    ) -> (instr: Instr<'static>)
        requires
            self.positioned(),
            l.ty.same(r.ty),
            l.ty.kind is Integer || l.ty.kind is Float,
        ensures
            instr == comparison(l, r, pred, signed),
    {
        let lhs_ty: Ty = l.ty();
        if lhs_ty.is_integer() {
            Instr::IntCompare {
                pred: IntPredicate::select(pred, signed),
                lhs: l.handle,
                rhs: r.handle,
            }
        } else {
            Instr::FloatCompare { pred: RealPredicate::select(pred), lhs: l.handle, rhs: r.handle }
        }
    }

    /// The address of a part of what `pointer` points to, found by following
    /// `indices` in their order. The indices are not checked.
    pub fn create_gep(&self, pointer: &Value, indices: &[&Value]) -> (instr: Instr<'static>)
        requires
            self.positioned(),
        ensures
            instr matches Instr::InBoundsGep { pointer: p, indices: i } && p == pointer.handle
                && i@ == handles_of::<ValueRef, Value>(indices@),
    {
        let refs: Vec<ValueRef> = to_llvmref_array(indices);
        Instr::InBoundsGep { pointer: pointer.handle, indices: refs }
    }

    /// A phi node of type `ty`, named `name`.
    pub fn create_phi<'a>(&self, ty: &Ty, name: &'a str) -> (instr: Instr<'a>)
        requires
            self.positioned(),
        ensures
            instr == (Instr::Phi { ty: ty.handle, name }),
    {
        Instr::Phi { ty: ty.handle, name }
    }
}

/// The comparison of `l` and `r` by `pred`: of integers by the backend's
/// predicate for the given signedness, of anything else by its ordered
/// floating-point predicate.
pub open spec fn comparison(l: &Value, r: &Value, pred: Predicate, signed: bool) -> Instr<'static> {
    if l.ty.kind is Integer {
        Instr::IntCompare {
            pred: IntPredicate::spec_select(pred, signed),
            lhs: l.handle,
            rhs: r.handle,
        }
    } else {
        Instr::FloatCompare { pred: RealPredicate::spec_select(pred), lhs: l.handle, rhs: r.handle }
    }
}

/// What a comparison decides of two bit patterns of `bits` bits: what its
/// predicate decides, where it compares integers.
pub open spec fn decides(instr: Instr, bits: nat, a: nat, b: nat) -> bool {
    match instr {
        Instr::IntCompare { pred, .. } => pred.holds(bits, a, b),
        _ => false,
    }
}

/// A signed or an unsigned comparison of two integers `l` and `r` of `bits`
/// bits, followed by a conditional branch on its result, goes to the first
/// block exactly when the comparison is true of the two numbers that the
/// operands hold, and to the second otherwise. The numbers are the two's
/// complement readings of the operands' bit patterns `a` and `b` where the
/// comparison is signed, the patterns themselves where it is unsigned.
pub proof fn law_compare_then_branch(
    l: &Value,
    r: &Value,
    pred: Predicate,
    bits: nat,
    a: nat,
    b: nat,
    then_block: BlockRef,
    else_block: BlockRef,
)
    requires
        l.ty.kind matches crate::types::TypeKind::Integer { bits: width } && width == bits,
        bits >= 1,
        a < pow2(bits),
        b < pow2(bits),
    ensures
        branch_target(decides(comparison(l, r, pred, true), bits, a, b), then_block, else_block)
            == (if pred.compare(signed_value(bits, a), signed_value(bits, b)) {
            then_block
        } else {
            else_block
        }),
        branch_target(decides(comparison(l, r, pred, false), bits, a, b), then_block, else_block)
            == (if pred.compare(a as int, b as int) {
            then_block
        } else {
            else_block
        }),
{
    law_comparison_branches_as_arithmetic(pred, bits, a, b, then_block, else_block);
}

impl LLVMRef<BuilderRef> for Builder {
    closed spec fn handle(&self) -> BuilderRef {
        self.handle
    }

    fn as_ref(&self) -> BuilderRef {
        self.handle
    }
}

} // verus!
