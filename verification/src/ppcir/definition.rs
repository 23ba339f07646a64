//! Translated code does what the architecture defines.
//!
//! Stated here for integer instructions that the interpreter does not execute, or not
//! in every form. The overflow flags are left alone throughout.

use vstd::prelude::*;

use super::inst::IrInst::{
    I32Add, I32And, I32Bswap, I32Bswap16, I32Const, I32Ctz, I32Eqz, I32Extend16S, I32Extend8S,
    I32GtU, I32LtU, I32Not, I32Or, I32Rotl, I32Shl, I32ShrS, I32ShrU, I32Sub, I32Xor, LoadCr,
    LoadGpr, LoadTbHi, LoadTbLo, LoadXer, LocalGet, LocalSet, LocalTee, ReadU16, ReadU32, ReadU8,
    StoreCr, StoreGpr, WriteU16, WriteU32, WriteU8,
};
use super::inst::{local_at, IrLocal, IrTy};
use super::meaning::{
    half_swapped, rotated_left, run, run_1, run_2, run_3, run_4, run_5, run_6, run_7, run_8,
    run_in_pieces, truth, Machine, Value,
};
use super::pieces::{
    lemma_bits, lemma_carry, lemma_carry_bits, lemma_constant, lemma_result, lemma_signed,
    lemma_truth, ready,
};
use super::translate::{
    arithmetic_code, bit_operation_code, carry_add_code, carry_code, carry_sub_code, condition_code,
    ea_d_code, ea_x_code, field_mask, get_bit_code, load_code, logic_code, rotate_family_code,
    rotate_mask, set_bit_code, shift_code, so_position, spr_load, spr_store, store_code,
    system_code, translate, MAX_LOCALS, MINUS_ONE,
};
use crate::disasm::{Ins, Opcode};
use crate::gekko::{hi32, lo32, CpuView};
use crate::ppcint::arithmetic::{immediate, wrapped};
use crate::ppcint::compare::{extended16, extended8};
use crate::ppcint::logic::swapped;
use crate::ppcint::memory::{widened16, widened8};
use crate::ppcint::system::{bit, with_bit, with_field, SystemView, XER_CA};

verus! {

/// The unsigned immediate operand in the upper halfword.
pub open spec fn upper(ins: Ins) -> u32 {
    (ins.field_uimm() as u32) << 16
}

/// `word` shifted right by `count` bits, its sign filling up from the left.
pub open spec fn shifted_right(word: u32, count: u32) -> u32 {
    ((word as i32) >> (if count < 32 {
        count
    } else {
        31
    })) as u32
}

impl SystemView {
    /// A sum in register `rd`, with its carry, and its sign if `rc` is set.
    pub open spec fn carried(self, rd: u8, rc: bool, sum: int) -> SystemView {
        self.with_xer(with_bit(self.cpu.xer, XER_CA, sum >= 0x1_0000_0000)).stored(
            rd,
            wrapped(sum),
            rc,
        )
    }

    /// A word shifted right by `count` bits, with its sign: the carry tells whether
    /// ones were shifted out of a negative word.
    pub open spec fn sign_shifted(self, ins: Ins, count: u32) -> SystemView {
        let s = self.gpr(ins.gpr_s());
        self.with_xer(
            with_bit(self.cpu.xer, XER_CA, (s as i32) < 0 && s.trailing_zeros() < count),
        ).stored(ins.gpr_a(), shifted_right(s, count), ins.field_rc())
    }

    /// What was read in the destination register, if there is memory.
    pub open spec fn fetched(self, ins: Ins, value: Option<u32>) -> Option<SystemView> {
        match value {
            Some(v) => Some(self.with_gpr(ins.gpr_d(), v)),
            None => None,
        }
    }

    /// The same, with the address in the base register, which is not register 0.
    pub open spec fn fetched_update(
        self,
        ins: Ins,
        ea: u32,
        value: Option<u32>,
    ) -> Option<SystemView> {
        if ins.gpr_a() == 0 {
            None
        } else {
            self.with_gpr(ins.gpr_a(), ea).fetched(ins, value)
        }
    }

    /// The address in the base register after a store, if that is not register 0.
    pub open spec fn updated(self, ins: Ins, ea: u32) -> Option<SystemView> {
        if ins.gpr_a() == 0 {
            None
        } else {
            Some(self.with_gpr(ins.gpr_a(), ea))
        }
    }

    /// The low halfword of a word stored at `ea`.
    pub open spec fn low_half_stored(self, ea: u32, word: u32) -> SystemView {
        self.written16(ea, (word & 0xFFFF) as u16)
    }

    /// A condition bit set to the outcome of a test on two others.
    pub open spec fn condition_set(self, ins: Ins) -> SystemView {
        let p = bit(self.cpu.cr, (31 - ins.field_crba()) as u32);
        let q = bit(self.cpu.cr, (31 - ins.field_crbb()) as u32);
        self.with_cr(
            with_bit(
                self.cpu.cr,
                (31 - ins.field_crbd()) as u32,
                match ins.op {
                    Opcode::Crxor => p != q,
                    Opcode::Creqv => p == q,
                    Opcode::Cror => p || q,
                    Opcode::Crorc => p || !q,
                    Opcode::Crnor => !(p || q),
                    Opcode::Crand => p && q,
                    Opcode::Crandc => p && !q,
                    _ => !(p && q),
                },
            ),
        )
    }

    /// Special-purpose register `spr` of those that only translated code keeps.
    pub open spec fn special(self, spr: u16) -> Option<u32> {
        if spr == 22 {
            Some(self.cpu.dec)
        } else if 272 <= spr <= 275 {
            Some(self.cpu.sprg[spr - 272])
        } else {
            None
        }
    }

    /// That register replaced.
    pub open spec fn with_special(self, spr: u16, value: u32) -> Option<SystemView> {
        if spr == 22 {
            Some(SystemView { cpu: CpuView { dec: value, ..self.cpu }, ..self })
        } else if 272 <= spr <= 275 {
            Some(
                SystemView {
                    cpu: CpuView { sprg: self.cpu.sprg.update(spr - 272, value), ..self.cpu },
                    ..self
                },
            )
        } else {
            None
        }
    }
}

/// What arithmetic and logic is defined to leave.
pub open spec fn defined_result(ins: Ins, sys: SystemView) -> SystemView {
    let a = sys.gpr(ins.gpr_a());
    let b = sys.gpr(ins.gpr_b());
    let s = sys.gpr(ins.gpr_s());
    let rc = ins.field_rc();
    let ca = sys.carry_in();
    match ins.op {
        Opcode::Subf => sys.stored(ins.gpr_d(), wrapped(b - a), rc),
        Opcode::Addc => sys.carried(ins.gpr_d(), rc, a + b),
        Opcode::Adde => sys.carried(ins.gpr_d(), rc, a + b + ca),
        Opcode::Addme => sys.carried(ins.gpr_d(), rc, a + u32::MAX + ca),
        Opcode::Addze => sys.carried(ins.gpr_d(), rc, a + ca),
        Opcode::Subfic => sys.carried(ins.gpr_d(), false, !a + immediate(ins) + 1),
        Opcode::Subfc => sys.carried(ins.gpr_d(), rc, !a + b + 1),
        Opcode::Subfe => sys.carried(ins.gpr_d(), rc, !a + b + ca),
        Opcode::Subfze => sys.carried(ins.gpr_d(), rc, !a + ca),
        Opcode::Subfme => sys.carried(ins.gpr_d(), rc, !a + u32::MAX + ca),
        Opcode::Or => sys.stored(ins.gpr_a(), s | b, rc),
        Opcode::Orc => sys.stored(ins.gpr_a(), s | !b, rc),
        Opcode::Nand => sys.stored(ins.gpr_a(), !(s & b), rc),
        Opcode::Eqv => sys.stored(ins.gpr_a(), !(s ^ b), rc),
        Opcode::Andi_ => sys.stored(ins.gpr_a(), s & (ins.field_uimm() as u32), true),
        Opcode::Andis_ => sys.stored(ins.gpr_a(), s & upper(ins), true),
        Opcode::Oris => sys.with_gpr(ins.gpr_a(), s | upper(ins)),
        Opcode::Xori => sys.with_gpr(ins.gpr_a(), s ^ (ins.field_uimm() as u32)),
        Opcode::Extsb => sys.stored(ins.gpr_a(), extended8(s), rc),
        Opcode::Slw => sys.stored(
            ins.gpr_a(),
            if b & 0x20 == 0 {
                s << (b & 31)
            } else {
                0
            },
            rc,
        ),
        Opcode::Srw => sys.stored(
            ins.gpr_a(),
            if b & 0x20 == 0 {
                s >> (b & 31)
            } else {
                0
            },
            rc,
        ),
        Opcode::Sraw => sys.sign_shifted(ins, b & 0x3F),
        Opcode::Srawi => sys.sign_shifted(ins, ins.field_sh() as u32),
        Opcode::Rlwnm => sys.stored(
            ins.gpr_a(),
            rotated_left(s, b) & rotate_mask(ins.field_mb() as u32, ins.field_me() as u32),
            rc,
        ),
        _ => sys,
    }
}

/// What a load or store is defined to leave, if there is memory to load from and the
/// registers go together.
pub open spec fn defined_transfer(ins: Ins, sys: SystemView) -> Option<SystemView> {
    let s = sys.gpr(ins.gpr_s());
    let ea = sys.displaced(ins);
    let ex = sys.indexed(ins);
    match ins.op {
        Opcode::Lbzx => sys.fetched(ins, widened8(sys.read8(ex))),
        Opcode::Lha => sys.fetched(ins, signed16(sys.read16(ea))),
        Opcode::Lhax => sys.fetched(ins, signed16(sys.read16(ex))),
        Opcode::Lwarx => sys.fetched(ins, sys.read32(ex)),
        Opcode::Lwbrx => sys.fetched(ins, match sys.read32(ex) {
            Some(v) => Some(swapped(v)),
            None => None,
        }),
        Opcode::Lhbrx => sys.fetched(ins, match sys.read16(ex) {
            Some(v) => Some(half_swapped(v as u32)),
            None => None,
        }),
        Opcode::Lwzux => sys.fetched_update(ins, ex, sys.read32(ex)),
        Opcode::Lhzux => sys.fetched_update(ins, ex, widened16(sys.read16(ex))),
        Opcode::Lbzux => sys.fetched_update(ins, ex, widened8(sys.read8(ex))),
        Opcode::Lhau => sys.fetched_update(ins, ea, signed16(sys.read16(ea))),
        Opcode::Lhaux => sys.fetched_update(ins, ex, signed16(sys.read16(ex))),
        Opcode::Sth => Some(sys.low_half_stored(ea, s)),
        Opcode::Sthx => Some(sys.low_half_stored(ex, s)),
        Opcode::Stwx => Some(sys.written32(ex, s)),
        Opcode::Stwbrx => Some(sys.written32(ex, swapped(s))),
        Opcode::Sthbrx => Some(sys.low_half_stored(ex, half_swapped(s))),
        Opcode::Sthu => sys.low_half_stored(ea, s).updated(ins, ea),
        Opcode::Sthux => sys.low_half_stored(ex, s).updated(ins, ex),
        Opcode::Stwux => sys.written32(ex, s).updated(ins, ex),
        Opcode::Stbux => sys.written8(ex, (s & 0xFF) as u8).updated(ins, ex),
        _ => None,
    }
}

/// A halfword extended by its sign.
pub open spec fn signed16(value: Option<u16>) -> Option<u32> {
    match value {
        Some(v) => Some(extended16(v as u32)),
        None => None,
    }
}

/// What an instruction on the condition register or a special-purpose register is
/// defined to leave.
pub open spec fn defined_control(ins: Ins, sys: SystemView) -> Option<SystemView> {
    let s = sys.gpr(ins.gpr_s());
    let cr = sys.cpu.cr;
    match ins.op {
        Opcode::Mfcr => Some(sys.with_gpr(ins.gpr_d(), cr)),
        Opcode::Mtcrf => {
            let mask = field_mask(ins.field_crm(), 8);
            Some(sys.with_cr((cr & !mask) | (s & mask)))
        },
        Opcode::Mcrf => {
            let flags = (cr >> so_position(ins.field_crfs())) & 0xF;
            Some(sys.with_cr(with_field(cr, so_position(ins.field_crfd()), flags)))
        },
        Opcode::Mftb => Some(
            sys.with_gpr(
                ins.gpr_d(),
                if ins.field_tbr() == 268 {
                    lo32(sys.cpu.tb)
                } else {
                    hi32(sys.cpu.tb)
                },
            ),
        ),
        Opcode::Mfspr => sys.fetched(ins, sys.special(ins.field_spr())),
        Opcode::Mtspr => sys.with_special(ins.field_spr(), s),
        _ => None,
    }
}

/// What an instruction is defined to leave, for those that are treated here.
pub open spec fn defined(ins: Ins, sys: SystemView) -> Option<SystemView> {
    match ins.op {
        Opcode::Subf | Opcode::Addc | Opcode::Adde | Opcode::Addme | Opcode::Addze
        | Opcode::Subfic | Opcode::Subfc | Opcode::Subfe | Opcode::Subfze | Opcode::Subfme
        | Opcode::Or | Opcode::Orc | Opcode::Nand | Opcode::Eqv | Opcode::Andi_ | Opcode::Andis_
        | Opcode::Oris | Opcode::Xori | Opcode::Extsb | Opcode::Slw | Opcode::Srw | Opcode::Sraw
        | Opcode::Srawi | Opcode::Rlwnm => Some(defined_result(ins, sys)),
        Opcode::Crxor | Opcode::Creqv | Opcode::Cror | Opcode::Crorc | Opcode::Crnor
        | Opcode::Crand | Opcode::Crandc | Opcode::Crnand => Some(sys.condition_set(ins)),
        Opcode::Mfcr | Opcode::Mtcrf | Opcode::Mcrf | Opcode::Mftb | Opcode::Mfspr
        | Opcode::Mtspr => defined_control(ins, sys),
        _ => defined_transfer(ins, sys),
    }
}

/// Whether code has run to its end and left the guest as `want` says.
pub open spec fn completed(after: Machine, want: Option<SystemView>) -> bool {
    ready(after) && want == Some(after.sys)
}


proof fn lemma_or(ins: Ins, pc: u32, n: nat, m: Machine)
    requires
        ready(m),
        ins.op is Or,
        n <= MAX_LOCALS,
    ensures
        completed(run(translate(ins, pc, n), m), defined(ins, m.sys)),
{
    reveal(logic_code);
    broadcast use crate::ppcir::meaning::group_steps;

    let b = m.sys.gpr(ins.gpr_b());
    let s = m.sys.gpr(ins.gpr_s());
    let p1 = seq![LoadGpr(ins.gpr_s()), LoadGpr(ins.gpr_b()), I32Or];
    run_3(LoadGpr(ins.gpr_s()), LoadGpr(ins.gpr_b()), I32Or, m);
    lemma_result(p1, ins.gpr_a(), ins.field_rc(), n, m, s | b);
}

proof fn lemma_orc(ins: Ins, pc: u32, n: nat, m: Machine)
    requires
        ready(m),
        ins.op is Orc,
        n <= MAX_LOCALS,
    ensures
        completed(run(translate(ins, pc, n), m), defined(ins, m.sys)),
{
    reveal(logic_code);
    broadcast use crate::ppcir::meaning::group_steps;

    let b = m.sys.gpr(ins.gpr_b());
    let s = m.sys.gpr(ins.gpr_s());
    let p1 = seq![LoadGpr(ins.gpr_s()), LoadGpr(ins.gpr_b()), I32Not, I32Or];
    run_4(LoadGpr(ins.gpr_s()), LoadGpr(ins.gpr_b()), I32Not, I32Or, m);
    lemma_result(p1, ins.gpr_a(), ins.field_rc(), n, m, s | !b);
}

proof fn lemma_nand(ins: Ins, pc: u32, n: nat, m: Machine)
    requires
        ready(m),
        ins.op is Nand,
        n <= MAX_LOCALS,
    ensures
        completed(run(translate(ins, pc, n), m), defined(ins, m.sys)),
{
    reveal(logic_code);
    broadcast use crate::ppcir::meaning::group_steps;

    let b = m.sys.gpr(ins.gpr_b());
    let s = m.sys.gpr(ins.gpr_s());
    let p1 = seq![LoadGpr(ins.gpr_s()), LoadGpr(ins.gpr_b()), I32And, I32Not];
    run_4(LoadGpr(ins.gpr_s()), LoadGpr(ins.gpr_b()), I32And, I32Not, m);
    lemma_result(p1, ins.gpr_a(), ins.field_rc(), n, m, !(s & b));
}

proof fn lemma_eqv(ins: Ins, pc: u32, n: nat, m: Machine)
    requires
        ready(m),
        ins.op is Eqv,
        n <= MAX_LOCALS,
    ensures
        completed(run(translate(ins, pc, n), m), defined(ins, m.sys)),
{
    reveal(logic_code);
    broadcast use crate::ppcir::meaning::group_steps;

    let b = m.sys.gpr(ins.gpr_b());
    let s = m.sys.gpr(ins.gpr_s());
    let p1 = seq![LoadGpr(ins.gpr_s()), LoadGpr(ins.gpr_b()), I32Xor, I32Not];
    run_4(LoadGpr(ins.gpr_s()), LoadGpr(ins.gpr_b()), I32Xor, I32Not, m);
    lemma_result(p1, ins.gpr_a(), ins.field_rc(), n, m, !(s ^ b));
}

proof fn lemma_andi(ins: Ins, pc: u32, n: nat, m: Machine)
    requires
        ready(m),
        ins.op is Andi_,
        n <= MAX_LOCALS,
    ensures
        completed(run(translate(ins, pc, n), m), defined(ins, m.sys)),
{
    reveal(logic_code);
    broadcast use crate::ppcir::meaning::group_steps;

    let s = m.sys.gpr(ins.gpr_s());
    let p1 = seq![LoadGpr(ins.gpr_s()), I32Const(ins.field_uimm() as i32), I32And];
    run_3(LoadGpr(ins.gpr_s()), I32Const(ins.field_uimm() as i32), I32And, m);
    lemma_result(p1, ins.gpr_a(), true, n, m, s & (ins.field_uimm() as u32));
}

proof fn lemma_andis(ins: Ins, pc: u32, n: nat, m: Machine)
    requires
        ready(m),
        ins.op is Andis_,
        n <= MAX_LOCALS,
    ensures
        completed(run(translate(ins, pc, n), m), defined(ins, m.sys)),
{
    reveal(logic_code);
    broadcast use crate::ppcir::meaning::group_steps;

    let s = m.sys.gpr(ins.gpr_s());
    lemma_bits(ins.code, 0, 0, 0, 0);
    let p1 = seq![LoadGpr(ins.gpr_s()), I32Const((ins.field_uimm() as i32) << 16), I32And];
    run_3(LoadGpr(ins.gpr_s()), I32Const((ins.field_uimm() as i32) << 16), I32And, m);
    lemma_result(p1, ins.gpr_a(), true, n, m, s & upper(ins));
}

proof fn lemma_oris(ins: Ins, pc: u32, n: nat, m: Machine)
    requires
        ready(m),
        ins.op is Oris,
        n <= MAX_LOCALS,
    ensures
        completed(run(translate(ins, pc, n), m), defined(ins, m.sys)),
{
    reveal(logic_code);
    broadcast use crate::ppcir::meaning::group_steps;

    lemma_bits(ins.code, 0, 0, 0, 0);
    let p1 = seq![
        LoadGpr(ins.gpr_s()), I32Const((ins.field_uimm() as i32) << 16), I32Or,
        StoreGpr(ins.gpr_a()),
    ];
    run_4(
        LoadGpr(ins.gpr_s()), I32Const((ins.field_uimm() as i32) << 16), I32Or,
        StoreGpr(ins.gpr_a()), m,
    );
}

proof fn lemma_xori(ins: Ins, pc: u32, n: nat, m: Machine)
    requires
        ready(m),
        ins.op is Xori,
        n <= MAX_LOCALS,
    ensures
        completed(run(translate(ins, pc, n), m), defined(ins, m.sys)),
{
    reveal(logic_code);
    broadcast use crate::ppcir::meaning::group_steps;

    let p1 = seq![
        LoadGpr(ins.gpr_s()), I32Const(ins.field_uimm() as i32), I32Xor, StoreGpr(ins.gpr_a()),
    ];
    run_4(
        LoadGpr(ins.gpr_s()), I32Const(ins.field_uimm() as i32), I32Xor, StoreGpr(ins.gpr_a()), m,
    );
}

proof fn lemma_extsb(ins: Ins, pc: u32, n: nat, m: Machine)
    requires
        ready(m),
        ins.op is Extsb,
        n <= MAX_LOCALS,
    ensures
        completed(run(translate(ins, pc, n), m), defined(ins, m.sys)),
{
    reveal(logic_code);
    broadcast use crate::ppcir::meaning::group_steps;

    let s = m.sys.gpr(ins.gpr_s());
    let p1 = seq![LoadGpr(ins.gpr_s()), I32Extend8S];
    run_2(LoadGpr(ins.gpr_s()), I32Extend8S, m);
    lemma_result(p1, ins.gpr_a(), ins.field_rc(), n, m, extended8(s));
}

proof fn lemma_subf(ins: Ins, pc: u32, n: nat, m: Machine)
    requires
        ready(m),
        ins.op is Subf,
        n <= MAX_LOCALS,
    ensures
        completed(run(translate(ins, pc, n), m), defined(ins, m.sys)),
{
    reveal(arithmetic_code);
    broadcast use crate::ppcir::meaning::group_steps;

    let a = m.sys.gpr(ins.gpr_a());
    let b = m.sys.gpr(ins.gpr_b());
    let p1 = seq![LoadGpr(ins.gpr_b()), LoadGpr(ins.gpr_a()), I32Sub];
    run_3(LoadGpr(ins.gpr_b()), LoadGpr(ins.gpr_a()), I32Sub, m);
    lemma_result(p1, ins.gpr_d(), ins.field_rc(), n, m, wrapped(b - a));
}

#[verifier::spinoff_prover]
proof fn lemma_addc(ins: Ins, pc: u32, n: nat, m: Machine)
    requires
        ready(m),
        ins.op is Addc,
        n <= MAX_LOCALS,
    ensures
        completed(run(translate(ins, pc, n), m), defined(ins, m.sys)),
{
    reveal(carry_add_code);
    broadcast use crate::ppcir::meaning::group_steps;

    let a = m.sys.gpr(ins.gpr_a());
    let b = m.sys.gpr(ins.gpr_b());
    let ra_val = local_at(n + 1, IrTy::I32);
    let result = local_at(n + 2, IrTy::I32);
    let carry = local_at(n + 3, IrTy::I32);
    let p1 = seq![
        LoadGpr(ins.gpr_a()), LocalTee(ra_val), LoadGpr(ins.gpr_b()), I32Add, LocalTee(result),
        LocalGet(ra_val), I32LtU, LocalSet(carry),
    ];
    run_8(
        LoadGpr(ins.gpr_a()), LocalTee(ra_val), LoadGpr(ins.gpr_b()), I32Add, LocalTee(result),
        LocalGet(ra_val), I32LtU, LocalSet(carry), m,
    );
    let m1 = run(p1, m);
    let p2 = carry_code(carry);
    lemma_carry(carry, m1, a + b >= 0x1_0000_0000);
    run_in_pieces(p1, p2, m);
    let q2 = p1 + p2;
    let m2 = run(q2, m);
    let p3 = seq![LocalGet(result)];
    run_1(LocalGet(result), m2);
    run_in_pieces(q2, p3, m);
    let q3 = q2 + p3;
    lemma_result(q3, ins.gpr_d(), ins.field_rc(), n + 3, m, wrapped(a + b));
}

#[verifier::spinoff_prover]
proof fn lemma_adde(ins: Ins, pc: u32, n: nat, m: Machine)
    requires
        ready(m),
        ins.op is Adde,
        n <= MAX_LOCALS,
    ensures
        completed(run(translate(ins, pc, n), m), defined(ins, m.sys)),
{
    reveal(carry_add_code);
    broadcast use crate::ppcir::meaning::group_steps;

    let a = m.sys.gpr(ins.gpr_a());
    let b = m.sys.gpr(ins.gpr_b());
    let ra_val = local_at(n + 1, IrTy::I32);
    let sum1 = local_at(n + 2, IrTy::I32);
    let c1 = local_at(n + 3, IrTy::I32);
    let ca_in = local_at(n + 4, IrTy::I32);
    let result = local_at(n + 5, IrTy::I32);
    let c2 = local_at(n + 6, IrTy::I32);
    let carry = local_at(n + 7, IrTy::I32);
    let ca = m.sys.carry_in();
    let first = wrapped(a + b);
    lemma_carry_bits(m.sys.cpu.xer);
    lemma_truth(first < a, wrapped(first + ca) < first);
    let p1 = seq![
        LoadGpr(ins.gpr_a()), LocalTee(ra_val), LoadGpr(ins.gpr_b()), I32Add, LocalTee(sum1),
        LocalGet(ra_val), I32LtU, LocalSet(c1),
    ];
    run_8(
        LoadGpr(ins.gpr_a()), LocalTee(ra_val), LoadGpr(ins.gpr_b()), I32Add, LocalTee(sum1),
        LocalGet(ra_val), I32LtU, LocalSet(c1), m,
    );
    let m1 = run(p1, m);
    let p2 = seq![LoadXer, I32Const(29), I32ShrU, I32Const(1), I32And, LocalSet(ca_in)];
    run_6(LoadXer, I32Const(29), I32ShrU, I32Const(1), I32And, LocalSet(ca_in), m1);
    run_in_pieces(p1, p2, m);
    let q2 = p1 + p2;
    let m2 = run(q2, m);
    let p3 = seq![
        LocalGet(sum1), LocalGet(ca_in), I32Add, LocalTee(result), LocalGet(sum1), I32LtU,
    ];
    run_6(LocalGet(sum1), LocalGet(ca_in), I32Add, LocalTee(result), LocalGet(sum1), I32LtU, m2);
    run_in_pieces(q2, p3, m);
    let q3 = q2 + p3;
    let m3 = run(q3, m);
    let p4 = seq![LocalSet(c2), LocalGet(c1), LocalGet(c2), I32Or, LocalSet(carry)];
    run_5(LocalSet(c2), LocalGet(c1), LocalGet(c2), I32Or, LocalSet(carry), m3);
    run_in_pieces(q3, p4, m);
    let q4 = q3 + p4;
    let m4 = run(q4, m);
    let p5 = carry_code(carry);
    lemma_carry(carry, m4, a + b + ca >= 0x1_0000_0000);
    run_in_pieces(q4, p5, m);
    let q5 = q4 + p5;
    let m5 = run(q5, m);
    let p6 = seq![LocalGet(result)];
    run_1(LocalGet(result), m5);
    run_in_pieces(q5, p6, m);
    let q6 = q5 + p6;
    lemma_result(q6, ins.gpr_d(), ins.field_rc(), n + 7, m, wrapped(a + b + ca));
}

#[verifier::spinoff_prover]
proof fn lemma_addme(ins: Ins, pc: u32, n: nat, m: Machine)
    requires
        ready(m),
        ins.op is Addme,
        n <= MAX_LOCALS,
    ensures
        completed(run(translate(ins, pc, n), m), defined(ins, m.sys)),
{
    reveal(carry_add_code);
    broadcast use crate::ppcir::meaning::group_steps;

    let a = m.sys.gpr(ins.gpr_a());
    let ra_val = local_at(n + 1, IrTy::I32);
    let sum1 = local_at(n + 2, IrTy::I32);
    let c1 = local_at(n + 3, IrTy::I32);
    let ca_in = local_at(n + 4, IrTy::I32);
    let result = local_at(n + 5, IrTy::I32);
    let c2 = local_at(n + 6, IrTy::I32);
    let carry = local_at(n + 7, IrTy::I32);
    let ca = m.sys.carry_in();
    let first = wrapped(a + u32::MAX);
    lemma_carry_bits(m.sys.cpu.xer);
    lemma_signed(MINUS_ONE);
    lemma_truth(first < a, wrapped(first + ca) < first);
    let p1 = seq![
        LoadGpr(ins.gpr_a()), LocalTee(ra_val), I32Const(MINUS_ONE), I32Add, LocalTee(sum1),
        LocalGet(ra_val), I32LtU, LocalSet(c1),
    ];
    run_8(
        LoadGpr(ins.gpr_a()), LocalTee(ra_val), I32Const(MINUS_ONE), I32Add, LocalTee(sum1),
        LocalGet(ra_val), I32LtU, LocalSet(c1), m,
    );
    let m1 = run(p1, m);
    let p2 = seq![LoadXer, I32Const(29), I32ShrU, I32Const(1), I32And, LocalSet(ca_in)];
    run_6(LoadXer, I32Const(29), I32ShrU, I32Const(1), I32And, LocalSet(ca_in), m1);
    run_in_pieces(p1, p2, m);
    let q2 = p1 + p2;
    let m2 = run(q2, m);
    let p3 = seq![
        LocalGet(sum1), LocalGet(ca_in), I32Add, LocalTee(result), LocalGet(sum1), I32LtU,
    ];
    run_6(LocalGet(sum1), LocalGet(ca_in), I32Add, LocalTee(result), LocalGet(sum1), I32LtU, m2);
    run_in_pieces(q2, p3, m);
    let q3 = q2 + p3;
    let m3 = run(q3, m);
    let p4 = seq![LocalSet(c2), LocalGet(c1), LocalGet(c2), I32Or, LocalSet(carry)];
    run_5(LocalSet(c2), LocalGet(c1), LocalGet(c2), I32Or, LocalSet(carry), m3);
    run_in_pieces(q3, p4, m);
    let q4 = q3 + p4;
    let m4 = run(q4, m);
    let p5 = carry_code(carry);
    lemma_carry(carry, m4, a + u32::MAX + ca >= 0x1_0000_0000);
    run_in_pieces(q4, p5, m);
    let q5 = q4 + p5;
    let m5 = run(q5, m);
    let p6 = seq![LocalGet(result)];
    run_1(LocalGet(result), m5);
    run_in_pieces(q5, p6, m);
    let q6 = q5 + p6;
    lemma_result(q6, ins.gpr_d(), ins.field_rc(), n + 7, m, wrapped(a + u32::MAX + ca));
}

#[verifier::spinoff_prover]
proof fn lemma_addze(ins: Ins, pc: u32, n: nat, m: Machine)
    requires
        ready(m),
        ins.op is Addze,
        n <= MAX_LOCALS,
    ensures
        completed(run(translate(ins, pc, n), m), defined(ins, m.sys)),
{
    reveal(carry_add_code);
    broadcast use crate::ppcir::meaning::group_steps;

    let a = m.sys.gpr(ins.gpr_a());
    let ra_val = local_at(n + 1, IrTy::I32);
    let ca_in = local_at(n + 2, IrTy::I32);
    let result = local_at(n + 3, IrTy::I32);
    let carry = local_at(n + 4, IrTy::I32);
    let ca = m.sys.carry_in();
    lemma_carry_bits(m.sys.cpu.xer);
    let p1 = seq![LoadGpr(ins.gpr_a()), LocalSet(ra_val)];
    run_2(LoadGpr(ins.gpr_a()), LocalSet(ra_val), m);
    let m1 = run(p1, m);
    let p2 = seq![LoadXer, I32Const(29), I32ShrU, I32Const(1), I32And, LocalSet(ca_in)];
    run_6(LoadXer, I32Const(29), I32ShrU, I32Const(1), I32And, LocalSet(ca_in), m1);
    run_in_pieces(p1, p2, m);
    let q2 = p1 + p2;
    let m2 = run(q2, m);
    let p3 = seq![
        LocalGet(ra_val), LocalGet(ca_in), I32Add, LocalTee(result), LocalGet(ra_val), I32LtU,
        LocalSet(carry),
    ];
    run_7(
        LocalGet(ra_val), LocalGet(ca_in), I32Add, LocalTee(result), LocalGet(ra_val), I32LtU,
        LocalSet(carry), m2,
    );
    run_in_pieces(q2, p3, m);
    let q3 = q2 + p3;
    let m3 = run(q3, m);
    let p4 = carry_code(carry);
    lemma_carry(carry, m3, a + ca >= 0x1_0000_0000);
    run_in_pieces(q3, p4, m);
    let q4 = q3 + p4;
    let m4 = run(q4, m);
    let p5 = seq![LocalGet(result)];
    run_1(LocalGet(result), m4);
    run_in_pieces(q4, p5, m);
    let q5 = q4 + p5;
    lemma_result(q5, ins.gpr_d(), ins.field_rc(), n + 4, m, wrapped(a + ca));
}

#[verifier::spinoff_prover]
#[verifier::rlimit(40)]
proof fn lemma_subfic(ins: Ins, pc: u32, n: nat, m: Machine)
    requires
        ready(m),
        ins.op is Subfic,
        n <= MAX_LOCALS,
    ensures
        completed(run(translate(ins, pc, n), m), defined(ins, m.sys)),
{
    reveal(carry_sub_code);
    broadcast use crate::ppcir::meaning::group_steps;

    let a = m.sys.gpr(ins.gpr_a());
    let ra_val = local_at(n + 1, IrTy::I32);
    let result = local_at(n + 2, IrTy::I32);
    let carry = local_at(n + 3, IrTy::I32);
    let imm = immediate(ins);
    assert(!a == 0xFFFF_FFFF - a) by {
        lemma_bits(0, 0, a, 0, 0);
    }
    lemma_truth(a > imm, false);
    let p1 = seq![
        LoadGpr(ins.gpr_a()), LocalSet(ra_val), I32Const(ins.field_simm() as i32),
        LocalGet(ra_val), I32Sub, LocalSet(result),
    ];
    run_6(
        LoadGpr(ins.gpr_a()), LocalSet(ra_val), I32Const(ins.field_simm() as i32),
        LocalGet(ra_val), I32Sub, LocalSet(result), m,
    );
    let m1 = run(p1, m);
    let p2 = seq![
        LocalGet(ra_val), I32Const(ins.field_simm() as i32), I32GtU, I32Const(1), I32Xor,
        LocalSet(carry),
    ];
    run_6(
        LocalGet(ra_val), I32Const(ins.field_simm() as i32), I32GtU, I32Const(1), I32Xor,
        LocalSet(carry), m1,
    );
    run_in_pieces(p1, p2, m);
    let q2 = p1 + p2;
    let m2 = run(q2, m);
    let p3 = carry_code(carry);
    lemma_carry(carry, m2, !a + imm + 1 >= 0x1_0000_0000);
    run_in_pieces(q2, p3, m);
    let q3 = q2 + p3;
    let m3 = run(q3, m);
    let p4 = seq![LocalGet(result), StoreGpr(ins.gpr_d())];
    run_2(LocalGet(result), StoreGpr(ins.gpr_d()), m3);
    run_in_pieces(q3, p4, m);
    let q4 = q3 + p4;
}

#[verifier::spinoff_prover]
#[verifier::rlimit(40)]
proof fn lemma_subfc(ins: Ins, pc: u32, n: nat, m: Machine)
    requires
        ready(m),
        ins.op is Subfc,
        n <= MAX_LOCALS,
    ensures
        completed(run(translate(ins, pc, n), m), defined(ins, m.sys)),
{
    reveal(carry_sub_code);
    broadcast use crate::ppcir::meaning::group_steps;

    let a = m.sys.gpr(ins.gpr_a());
    let b = m.sys.gpr(ins.gpr_b());
    let ra_val = local_at(n + 1, IrTy::I32);
    let rb_val = local_at(n + 2, IrTy::I32);
    let carry = local_at(n + 3, IrTy::I32);
    assert(!a == 0xFFFF_FFFF - a) by {
        lemma_bits(0, 0, a, 0, 0);
    }
    lemma_truth(b < a, false);
    let p1 = seq![LoadGpr(ins.gpr_a()), LocalSet(ra_val), LoadGpr(ins.gpr_b()), LocalSet(rb_val)];
    run_4(LoadGpr(ins.gpr_a()), LocalSet(ra_val), LoadGpr(ins.gpr_b()), LocalSet(rb_val), m);
    let m1 = run(p1, m);
    let p2 = seq![LocalGet(rb_val), LocalGet(ra_val), I32LtU, I32Const(1), I32Xor, LocalSet(carry)];
    run_6(LocalGet(rb_val), LocalGet(ra_val), I32LtU, I32Const(1), I32Xor, LocalSet(carry), m1);
    run_in_pieces(p1, p2, m);
    let q2 = p1 + p2;
    let m2 = run(q2, m);
    let p3 = carry_code(carry);
    lemma_carry(carry, m2, !a + b + 1 >= 0x1_0000_0000);
    run_in_pieces(q2, p3, m);
    let q3 = q2 + p3;
    let m3 = run(q3, m);
    let p4 = seq![LocalGet(rb_val), LocalGet(ra_val), I32Sub];
    run_3(LocalGet(rb_val), LocalGet(ra_val), I32Sub, m3);
    run_in_pieces(q3, p4, m);
    let q4 = q3 + p4;
    lemma_result(q4, ins.gpr_d(), ins.field_rc(), n + 3, m, wrapped(b - a));
}

#[verifier::spinoff_prover]
#[verifier::rlimit(40)]
proof fn lemma_subfe(ins: Ins, pc: u32, n: nat, m: Machine)
    requires
        ready(m),
        ins.op is Subfe,
        n <= MAX_LOCALS,
    ensures
        completed(run(translate(ins, pc, n), m), defined(ins, m.sys)),
{
    reveal(carry_sub_code);
    broadcast use crate::ppcir::meaning::group_steps;

    let a = m.sys.gpr(ins.gpr_a());
    let b = m.sys.gpr(ins.gpr_b());
    let ra_val = local_at(n + 1, IrTy::I32);
    let rb_val = local_at(n + 2, IrTy::I32);
    let not_ra = local_at(n + 3, IrTy::I32);
    let sum1 = local_at(n + 4, IrTy::I32);
    let c1 = local_at(n + 5, IrTy::I32);
    let ca_in = local_at(n + 6, IrTy::I32);
    let result = local_at(n + 7, IrTy::I32);
    let c2 = local_at(n + 8, IrTy::I32);
    let carry = local_at(n + 9, IrTy::I32);
    let ca = m.sys.carry_in();
    let first = wrapped(b + !a);
    lemma_carry_bits(m.sys.cpu.xer);
    lemma_truth(first < b, wrapped(first + ca) < first);
    let p1 = seq![LoadGpr(ins.gpr_a()), LocalSet(ra_val), LoadGpr(ins.gpr_b()), LocalSet(rb_val)];
    run_4(LoadGpr(ins.gpr_a()), LocalSet(ra_val), LoadGpr(ins.gpr_b()), LocalSet(rb_val), m);
    let m1 = run(p1, m);
    let p2 = seq![LocalGet(ra_val), I32Not, LocalSet(not_ra)];
    run_3(LocalGet(ra_val), I32Not, LocalSet(not_ra), m1);
    run_in_pieces(p1, p2, m);
    let q2 = p1 + p2;
    let m2 = run(q2, m);
    let p3 = seq![
        LocalGet(rb_val), LocalGet(not_ra), I32Add, LocalTee(sum1), LocalGet(rb_val), I32LtU,
        LocalSet(c1),
    ];
    run_7(
        LocalGet(rb_val), LocalGet(not_ra), I32Add, LocalTee(sum1), LocalGet(rb_val), I32LtU,
        LocalSet(c1), m2,
    );
    run_in_pieces(q2, p3, m);
    let q3 = q2 + p3;
    let m3 = run(q3, m);
    let p4 = seq![LoadXer, I32Const(29), I32ShrU, I32Const(1), I32And, LocalSet(ca_in)];
    run_6(LoadXer, I32Const(29), I32ShrU, I32Const(1), I32And, LocalSet(ca_in), m3);
    run_in_pieces(q3, p4, m);
    let q4 = q3 + p4;
    let m4 = run(q4, m);
    let p5 = seq![
        LocalGet(sum1), LocalGet(ca_in), I32Add, LocalTee(result), LocalGet(sum1), I32LtU,
    ];
    run_6(LocalGet(sum1), LocalGet(ca_in), I32Add, LocalTee(result), LocalGet(sum1), I32LtU, m4);
    run_in_pieces(q4, p5, m);
    let q5 = q4 + p5;
    let m5 = run(q5, m);
    let p6 = seq![LocalSet(c2), LocalGet(c1), LocalGet(c2), I32Or, LocalSet(carry)];
    run_5(LocalSet(c2), LocalGet(c1), LocalGet(c2), I32Or, LocalSet(carry), m5);
    run_in_pieces(q5, p6, m);
    let q6 = q5 + p6;
    let m6 = run(q6, m);
    let p7 = carry_code(carry);
    lemma_carry(carry, m6, !a + b + ca >= 0x1_0000_0000);
    run_in_pieces(q6, p7, m);
    let q7 = q6 + p7;
    let m7 = run(q7, m);
    let p8 = seq![LocalGet(result)];
    run_1(LocalGet(result), m7);
    run_in_pieces(q7, p8, m);
    let q8 = q7 + p8;
    lemma_result(q8, ins.gpr_d(), ins.field_rc(), n + 9, m, wrapped(!a + b + ca));
}

#[verifier::spinoff_prover]
proof fn lemma_subfze(ins: Ins, pc: u32, n: nat, m: Machine)
    requires
        ready(m),
        ins.op is Subfze,
        n <= MAX_LOCALS,
    ensures
        completed(run(translate(ins, pc, n), m), defined(ins, m.sys)),
{
    reveal(carry_sub_code);
    broadcast use crate::ppcir::meaning::group_steps;

    let a = m.sys.gpr(ins.gpr_a());
    let not_ra = local_at(n + 1, IrTy::I32);
    let ca_in = local_at(n + 2, IrTy::I32);
    let result = local_at(n + 3, IrTy::I32);
    let carry = local_at(n + 4, IrTy::I32);
    let ca = m.sys.carry_in();
    lemma_carry_bits(m.sys.cpu.xer);
    let p1 = seq![LoadGpr(ins.gpr_a()), I32Not, LocalSet(not_ra)];
    run_3(LoadGpr(ins.gpr_a()), I32Not, LocalSet(not_ra), m);
    let m1 = run(p1, m);
    let p2 = seq![LoadXer, I32Const(29), I32ShrU, I32Const(1), I32And, LocalSet(ca_in)];
    run_6(LoadXer, I32Const(29), I32ShrU, I32Const(1), I32And, LocalSet(ca_in), m1);
    run_in_pieces(p1, p2, m);
    let q2 = p1 + p2;
    let m2 = run(q2, m);
    let p3 = seq![
        LocalGet(not_ra), LocalGet(ca_in), I32Add, LocalTee(result), LocalGet(not_ra), I32LtU,
        LocalSet(carry),
    ];
    run_7(
        LocalGet(not_ra), LocalGet(ca_in), I32Add, LocalTee(result), LocalGet(not_ra), I32LtU,
        LocalSet(carry), m2,
    );
    run_in_pieces(q2, p3, m);
    let q3 = q2 + p3;
    let m3 = run(q3, m);
    let p4 = carry_code(carry);
    lemma_carry(carry, m3, !a + ca >= 0x1_0000_0000);
    run_in_pieces(q3, p4, m);
    let q4 = q3 + p4;
    let m4 = run(q4, m);
    let p5 = seq![LocalGet(result)];
    run_1(LocalGet(result), m4);
    run_in_pieces(q4, p5, m);
    let q5 = q4 + p5;
    lemma_result(q5, ins.gpr_d(), ins.field_rc(), n + 4, m, wrapped(!a + ca));
}

#[verifier::spinoff_prover]
proof fn lemma_subfme(ins: Ins, pc: u32, n: nat, m: Machine)
    requires
        ready(m),
        ins.op is Subfme,
        n <= MAX_LOCALS,
    ensures
        completed(run(translate(ins, pc, n), m), defined(ins, m.sys)),
{
    reveal(carry_sub_code);
    broadcast use crate::ppcir::meaning::group_steps;

    let a = m.sys.gpr(ins.gpr_a());
    let not_ra = local_at(n + 1, IrTy::I32);
    let sum1 = local_at(n + 2, IrTy::I32);
    let c1 = local_at(n + 3, IrTy::I32);
    let ca_in = local_at(n + 4, IrTy::I32);
    let result = local_at(n + 5, IrTy::I32);
    let c2 = local_at(n + 6, IrTy::I32);
    let carry = local_at(n + 7, IrTy::I32);
    let ca = m.sys.carry_in();
    let first = wrapped(!a + u32::MAX);
    lemma_carry_bits(m.sys.cpu.xer);
    lemma_signed(MINUS_ONE);
    lemma_truth(first < !a, wrapped(first + ca) < first);
    let p1 = seq![LoadGpr(ins.gpr_a()), I32Not, LocalSet(not_ra)];
    run_3(LoadGpr(ins.gpr_a()), I32Not, LocalSet(not_ra), m);
    let m1 = run(p1, m);
    let p2 = seq![
        LocalGet(not_ra), I32Const(MINUS_ONE), I32Add, LocalTee(sum1), LocalGet(not_ra), I32LtU,
        LocalSet(c1),
    ];
    run_7(
        LocalGet(not_ra), I32Const(MINUS_ONE), I32Add, LocalTee(sum1), LocalGet(not_ra), I32LtU,
        LocalSet(c1), m1,
    );
    run_in_pieces(p1, p2, m);
    let q2 = p1 + p2;
    let m2 = run(q2, m);
    let p3 = seq![LoadXer, I32Const(29), I32ShrU, I32Const(1), I32And, LocalSet(ca_in)];
    run_6(LoadXer, I32Const(29), I32ShrU, I32Const(1), I32And, LocalSet(ca_in), m2);
    run_in_pieces(q2, p3, m);
    let q3 = q2 + p3;
    let m3 = run(q3, m);
    let p4 = seq![
        LocalGet(sum1), LocalGet(ca_in), I32Add, LocalTee(result), LocalGet(sum1), I32LtU,
    ];
    run_6(LocalGet(sum1), LocalGet(ca_in), I32Add, LocalTee(result), LocalGet(sum1), I32LtU, m3);
    run_in_pieces(q3, p4, m);
    let q4 = q3 + p4;
    let m4 = run(q4, m);
    let p5 = seq![LocalSet(c2), LocalGet(c1), LocalGet(c2), I32Or, LocalSet(carry)];
    run_5(LocalSet(c2), LocalGet(c1), LocalGet(c2), I32Or, LocalSet(carry), m4);
    run_in_pieces(q4, p5, m);
    let q5 = q4 + p5;
    let m5 = run(q5, m);
    let p6 = carry_code(carry);
    lemma_carry(carry, m5, !a + u32::MAX + ca >= 0x1_0000_0000);
    run_in_pieces(q5, p6, m);
    let q6 = q5 + p6;
    let m6 = run(q6, m);
    let p7 = seq![LocalGet(result)];
    run_1(LocalGet(result), m6);
    run_in_pieces(q6, p7, m);
    let q7 = q6 + p7;
    lemma_result(q7, ins.gpr_d(), ins.field_rc(), n + 7, m, wrapped(!a + u32::MAX + ca));
}

#[verifier::spinoff_prover]
proof fn lemma_slw(ins: Ins, pc: u32, n: nat, m: Machine)
    requires
        ready(m),
        ins.op is Slw,
        n <= MAX_LOCALS,
    ensures
        completed(run(translate(ins, pc, n), m), defined(ins, m.sys)),
{
    reveal(shift_code);
    broadcast use crate::ppcir::meaning::group_steps;

    let b = m.sys.gpr(ins.gpr_b());
    let s = m.sys.gpr(ins.gpr_s());
    let rs_val = local_at(n + 1, IrTy::I32);
    let exceeds = local_at(n + 2, IrTy::I32);
    lemma_bits(0, 0, b, 0, 0);
    lemma_bits(0, 0, s << (b & 31), 0, 0);
    let p1 = seq![
        LoadGpr(ins.gpr_s()), LocalSet(rs_val), LoadGpr(ins.gpr_b()), I32Const(5), I32ShrU,
        I32Const(1), I32And, LocalSet(exceeds),
    ];
    run_8(
        LoadGpr(ins.gpr_s()), LocalSet(rs_val), LoadGpr(ins.gpr_b()), I32Const(5), I32ShrU,
        I32Const(1), I32And, LocalSet(exceeds), m,
    );
    let m1 = run(p1, m);
    let p2 = seq![
        LocalGet(rs_val), LoadGpr(ins.gpr_b()), I32Shl, I32Const(0), LocalGet(exceeds), I32Sub,
        I32Not, I32And,
    ];
    run_8(
        LocalGet(rs_val), LoadGpr(ins.gpr_b()), I32Shl, I32Const(0), LocalGet(exceeds), I32Sub,
        I32Not, I32And, m1,
    );
    run_in_pieces(p1, p2, m);
    let q2 = p1 + p2;
    lemma_result(
        q2, ins.gpr_a(), ins.field_rc(), n + 2, m, if b & 0x20 == 0 { s << (b & 31) } else { 0 },
    );
}

#[verifier::spinoff_prover]
proof fn lemma_srw(ins: Ins, pc: u32, n: nat, m: Machine)
    requires
        ready(m),
        ins.op is Srw,
        n <= MAX_LOCALS,
    ensures
        completed(run(translate(ins, pc, n), m), defined(ins, m.sys)),
{
    reveal(shift_code);
    broadcast use crate::ppcir::meaning::group_steps;

    let b = m.sys.gpr(ins.gpr_b());
    let s = m.sys.gpr(ins.gpr_s());
    let rs_val = local_at(n + 1, IrTy::I32);
    let exceeds = local_at(n + 2, IrTy::I32);
    lemma_bits(0, 0, b, 0, 0);
    lemma_bits(0, 0, s >> (b & 31), 0, 0);
    let p1 = seq![
        LoadGpr(ins.gpr_s()), LocalSet(rs_val), LoadGpr(ins.gpr_b()), I32Const(5), I32ShrU,
        I32Const(1), I32And, LocalSet(exceeds),
    ];
    run_8(
        LoadGpr(ins.gpr_s()), LocalSet(rs_val), LoadGpr(ins.gpr_b()), I32Const(5), I32ShrU,
        I32Const(1), I32And, LocalSet(exceeds), m,
    );
    let m1 = run(p1, m);
    let p2 = seq![
        LocalGet(rs_val), LoadGpr(ins.gpr_b()), I32ShrU, I32Const(0), LocalGet(exceeds), I32Sub,
        I32Not, I32And,
    ];
    run_8(
        LocalGet(rs_val), LoadGpr(ins.gpr_b()), I32ShrU, I32Const(0), LocalGet(exceeds), I32Sub,
        I32Not, I32And, m1,
    );
    run_in_pieces(p1, p2, m);
    let q2 = p1 + p2;
    lemma_result(
        q2, ins.gpr_a(), ins.field_rc(), n + 2, m, if b & 0x20 == 0 { s >> (b & 31) } else { 0 },
    );
}

#[verifier::spinoff_prover]
proof fn lemma_sraw(ins: Ins, pc: u32, n: nat, m: Machine)
    requires
        ready(m),
        ins.op is Sraw,
        n <= MAX_LOCALS,
    ensures
        completed(run(translate(ins, pc, n), m), defined(ins, m.sys)),
{
    reveal(shift_code);
    let b = m.sys.gpr(ins.gpr_b());
    let s = m.sys.gpr(ins.gpr_s());
    let rs_val = local_at(n + 1, IrTy::I32);
    let sh = local_at(n + 2, IrTy::I32);
    let sh_clamped = local_at(n + 3, IrTy::I32);
    let result = local_at(n + 4, IrTy::I32);
    let is_neg = local_at(n + 5, IrTy::I32);
    let tz = local_at(n + 6, IrTy::I32);
    let carry = local_at(n + 7, IrTy::I32);
    let overflow = local_at(n + 8, IrTy::I32);
    let count = b & 0x3F;
    assert({
        &&& count <= 63
        &&& (count >> (5u32 & 31)) & 1 == if count & 0x20 == 0 {
            0u32
        } else {
            1
        }
        &&& count & 0x20 == 0 ==> count < 32
        &&& count & 0x20 != 0 ==> count >= 32
        &&& count < 32 ==> count & 31 == count
        &&& (count ^ 31) ^ count == 31
        &&& 0xFFFF_FFFFu32 & (count ^ 31) == count ^ 31
        &&& 0u32 & (count ^ 31) == 0
        &&& 0u32 ^ count == count
        &&& (s >> (31u32 & 31)) & 1 == if (s as i32) < 0 {
            1u32
        } else {
            0
        }
        &&& 31u32 & 31 == 31
    }) by {
        lemma_bits(0, 0, b, 0, 0);
        lemma_bits(0, 0, count, 0, 0);
        lemma_bits(0, 0, count ^ 31, 0, 0);
        lemma_bits(0, 0, s, 0, 0);
        lemma_bits(0, 0, 31, 0, 0);
    }
    lemma_truth(s.trailing_zeros() < count, (s as i32) < 0);
    let late = (count >> (5u32 & 31)) & 1;
    let clamped = (wrapped(0 - late) & (count ^ 31)) ^ count;
    let shifted = ((s as i32) >> (clamped & 31)) as u32;
    let sign = (s >> (31u32 & 31)) & 1;
    let zeros = s.trailing_zeros();
    let lost = truth(count > zeros) & sign;
    let p1 = seq![
        LoadGpr(ins.gpr_s()), LocalSet(rs_val), LoadGpr(ins.gpr_b()), I32Const(0x3F), I32And,
        LocalSet(sh),
    ];
    let l1 = m.locals.insert(rs_val.index, Value::I32(s)).insert(sh.index, Value::I32(count));
    assert(run(p1, m) == (Machine { locals: l1, ..m })) by {
        broadcast use crate::ppcir::meaning::group_steps;

        run_6(
            LoadGpr(ins.gpr_s()), LocalSet(rs_val), LoadGpr(ins.gpr_b()), I32Const(0x3F), I32And,
            LocalSet(sh), m,
        );
    }
    let m1 = run(p1, m);
    let p2 = seq![LocalGet(sh), I32Const(5), I32ShrU, I32Const(1), I32And, LocalSet(overflow)];
    let q2 = p1 + p2;
    let l2 = l1.insert(overflow.index, Value::I32(late));
    assert(run(q2, m) == (Machine { locals: l2, ..m })) by {
        broadcast use crate::ppcir::meaning::group_steps;

        run_6(LocalGet(sh), I32Const(5), I32ShrU, I32Const(1), I32And, LocalSet(overflow), m1);
        run_in_pieces(p1, p2, m);
    }
    let m2 = run(q2, m);
    let p3 = seq![I32Const(0), LocalGet(overflow), I32Sub, LocalGet(sh), I32Const(31)];
    let q3 = q2 + p3;
    let p4 = seq![I32Xor, I32And, LocalGet(sh), I32Xor, LocalSet(sh_clamped)];
    let q4 = q3 + p4;
    let l4 = l2.insert(sh_clamped.index, Value::I32(clamped));
    assert(run(q4, m) == (Machine { locals: l4, ..m })) by {
        broadcast use crate::ppcir::meaning::group_steps;

        run_5(I32Const(0), LocalGet(overflow), I32Sub, LocalGet(sh), I32Const(31), m2);
        run_in_pieces(q2, p3, m);
        run_5(I32Xor, I32And, LocalGet(sh), I32Xor, LocalSet(sh_clamped), run(q3, m));
        run_in_pieces(q3, p4, m);
    }
    let m4 = run(q4, m);
    let p5 = seq![LocalGet(rs_val), LocalGet(sh_clamped), I32ShrS, LocalSet(result)];
    let q5 = q4 + p5;
    let l5 = l4.insert(result.index, Value::I32(shifted));
    assert(run(q5, m) == (Machine { locals: l5, ..m })) by {
        broadcast use crate::ppcir::meaning::group_steps;

        run_4(LocalGet(rs_val), LocalGet(sh_clamped), I32ShrS, LocalSet(result), m4);
        run_in_pieces(q4, p5, m);
    }
    let m5 = run(q5, m);
    let p6 = seq![LocalGet(rs_val), I32Const(31), I32ShrU, I32Const(1), I32And, LocalSet(is_neg)];
    let q6 = q5 + p6;
    let l6 = l5.insert(is_neg.index, Value::I32(sign));
    assert(run(q6, m) == (Machine { locals: l6, ..m })) by {
        broadcast use crate::ppcir::meaning::group_steps;

        run_6(LocalGet(rs_val), I32Const(31), I32ShrU, I32Const(1), I32And, LocalSet(is_neg), m5);
        run_in_pieces(q5, p6, m);
    }
    let m6 = run(q6, m);
    let p7 = seq![LocalGet(rs_val), I32Ctz, LocalSet(tz)];
    let q7 = q6 + p7;
    let l7 = l6.insert(tz.index, Value::I32(zeros));
    assert(run(q7, m) == (Machine { locals: l7, ..m })) by {
        broadcast use crate::ppcir::meaning::group_steps;

        run_3(LocalGet(rs_val), I32Ctz, LocalSet(tz), m6);
        run_in_pieces(q6, p7, m);
    }
    let m7 = run(q7, m);
    let p8 = seq![LocalGet(sh), LocalGet(tz), I32GtU, LocalGet(is_neg), I32And, LocalSet(carry)];
    let q8 = q7 + p8;
    let l8 = l7.insert(carry.index, Value::I32(lost));
    assert(run(q8, m) == (Machine { locals: l8, ..m })) by {
        broadcast use crate::ppcir::meaning::group_steps;

        run_6(LocalGet(sh), LocalGet(tz), I32GtU, LocalGet(is_neg), I32And, LocalSet(carry), m7);
        run_in_pieces(q7, p8, m);
    }
    let m8 = run(q8, m);
    let p9 = carry_code(carry);
    lemma_carry(carry, m8, (s as i32) < 0 && s.trailing_zeros() < count);
    run_in_pieces(q8, p9, m);
    let q9 = q8 + p9;
    let m9 = run(q9, m);
    let p10 = seq![LocalGet(result)];
    let q10 = q9 + p10;
    assert(run(q10, m) == m9.pushed32(shifted)) by {
        broadcast use crate::ppcir::meaning::group_steps;

        run_1(LocalGet(result), m9);
        run_in_pieces(q9, p10, m);
    }
    lemma_result(q10, ins.gpr_a(), ins.field_rc(), n + 8, m, shifted_right(s, count));
}

proof fn lemma_rlwnm(ins: Ins, pc: u32, n: nat, m: Machine)
    requires
        ready(m),
        ins.op is Rlwnm,
        n <= MAX_LOCALS,
    ensures
        completed(run(translate(ins, pc, n), m), defined(ins, m.sys)),
{
    reveal(rotate_family_code);
    broadcast use crate::ppcir::meaning::group_steps;

    let b = m.sys.gpr(ins.gpr_b());
    let s = m.sys.gpr(ins.gpr_s());
    let mask = rotate_mask(ins.field_mb() as u32, ins.field_me() as u32);
    lemma_constant(mask);
    let p1 = seq![
        LoadGpr(ins.gpr_s()), LoadGpr(ins.gpr_b()), I32Rotl, I32Const(mask as i32), I32And,
    ];
    run_5(LoadGpr(ins.gpr_s()), LoadGpr(ins.gpr_b()), I32Rotl, I32Const(mask as i32), I32And, m);
    lemma_result(p1, ins.gpr_a(), ins.field_rc(), n, m, rotated_left(s, b) & mask);
}

proof fn lemma_lbzx(ins: Ins, pc: u32, n: nat, m: Machine)
    requires
        ready(m),
        ins.op is Lbzx,
        n <= MAX_LOCALS,
        defined(ins, m.sys) is Some,
    ensures
        completed(run(translate(ins, pc, n), m), defined(ins, m.sys)),
{
    reveal(load_code);
    broadcast use crate::ppcir::meaning::group_steps;

    let p1 = ea_x_code(ins.gpr_a(), ins.gpr_b());
    let first = LoadGpr(ins.gpr_a());
    let second = LoadGpr(ins.gpr_b());
    run_1(second, m);
    run_3(first, second, I32Add, m);
    let m1 = run(p1, m);
    assert(m1 == m.pushed32(m.sys.indexed(ins)));
    let p2 = seq![ReadU8, StoreGpr(ins.gpr_d())];
    run_2(ReadU8, StoreGpr(ins.gpr_d()), m1);
    run_in_pieces(p1, p2, m);
    let q2 = p1 + p2;
}

proof fn lemma_lha(ins: Ins, pc: u32, n: nat, m: Machine)
    requires
        ready(m),
        ins.op is Lha,
        n <= MAX_LOCALS,
        defined(ins, m.sys) is Some,
    ensures
        completed(run(translate(ins, pc, n), m), defined(ins, m.sys)),
{
    reveal(load_code);
    broadcast use crate::ppcir::meaning::group_steps;

    lemma_signed(ins.field_offset() as i32);
    let p1 = ea_d_code(ins.gpr_a(), ins.field_offset() as i32);
    let first = LoadGpr(ins.gpr_a());
    let second = I32Const(ins.field_offset() as i32);
    run_1(first, m);
    run_1(second, m);
    run_3(first, second, I32Add, m);
    let m1 = run(p1, m);
    assert(m1 == m.pushed32(m.sys.displaced(ins)));
    let p2 = seq![ReadU16, I32Extend16S, StoreGpr(ins.gpr_d())];
    run_3(ReadU16, I32Extend16S, StoreGpr(ins.gpr_d()), m1);
    run_in_pieces(p1, p2, m);
    let q2 = p1 + p2;
}

proof fn lemma_lhax(ins: Ins, pc: u32, n: nat, m: Machine)
    requires
        ready(m),
        ins.op is Lhax,
        n <= MAX_LOCALS,
        defined(ins, m.sys) is Some,
    ensures
        completed(run(translate(ins, pc, n), m), defined(ins, m.sys)),
{
    reveal(load_code);
    broadcast use crate::ppcir::meaning::group_steps;

    let p1 = ea_x_code(ins.gpr_a(), ins.gpr_b());
    let first = LoadGpr(ins.gpr_a());
    let second = LoadGpr(ins.gpr_b());
    run_1(second, m);
    run_3(first, second, I32Add, m);
    let m1 = run(p1, m);
    assert(m1 == m.pushed32(m.sys.indexed(ins)));
    let p2 = seq![ReadU16, I32Extend16S, StoreGpr(ins.gpr_d())];
    run_3(ReadU16, I32Extend16S, StoreGpr(ins.gpr_d()), m1);
    run_in_pieces(p1, p2, m);
    let q2 = p1 + p2;
}

proof fn lemma_lwbrx(ins: Ins, pc: u32, n: nat, m: Machine)
    requires
        ready(m),
        ins.op is Lwbrx,
        n <= MAX_LOCALS,
        defined(ins, m.sys) is Some,
    ensures
        completed(run(translate(ins, pc, n), m), defined(ins, m.sys)),
{
    reveal(load_code);
    broadcast use crate::ppcir::meaning::group_steps;

    let p1 = ea_x_code(ins.gpr_a(), ins.gpr_b());
    let first = LoadGpr(ins.gpr_a());
    let second = LoadGpr(ins.gpr_b());
    run_1(second, m);
    run_3(first, second, I32Add, m);
    let m1 = run(p1, m);
    assert(m1 == m.pushed32(m.sys.indexed(ins)));
    let p2 = seq![ReadU32, I32Bswap, StoreGpr(ins.gpr_d())];
    run_3(ReadU32, I32Bswap, StoreGpr(ins.gpr_d()), m1);
    run_in_pieces(p1, p2, m);
    let q2 = p1 + p2;
}

proof fn lemma_lhbrx(ins: Ins, pc: u32, n: nat, m: Machine)
    requires
        ready(m),
        ins.op is Lhbrx,
        n <= MAX_LOCALS,
        defined(ins, m.sys) is Some,
    ensures
        completed(run(translate(ins, pc, n), m), defined(ins, m.sys)),
{
    reveal(load_code);
    broadcast use crate::ppcir::meaning::group_steps;

    let p1 = ea_x_code(ins.gpr_a(), ins.gpr_b());
    let first = LoadGpr(ins.gpr_a());
    let second = LoadGpr(ins.gpr_b());
    run_1(second, m);
    run_3(first, second, I32Add, m);
    let m1 = run(p1, m);
    assert(m1 == m.pushed32(m.sys.indexed(ins)));
    let p2 = seq![ReadU16, I32Bswap16, StoreGpr(ins.gpr_d())];
    run_3(ReadU16, I32Bswap16, StoreGpr(ins.gpr_d()), m1);
    run_in_pieces(p1, p2, m);
    let q2 = p1 + p2;
}

proof fn lemma_lwarx(ins: Ins, pc: u32, n: nat, m: Machine)
    requires
        ready(m),
        ins.op is Lwarx,
        n <= MAX_LOCALS,
        defined(ins, m.sys) is Some,
    ensures
        completed(run(translate(ins, pc, n), m), defined(ins, m.sys)),
{
    reveal(load_code);
    broadcast use crate::ppcir::meaning::group_steps;

    let p1 = ea_x_code(ins.gpr_a(), ins.gpr_b());
    let first = LoadGpr(ins.gpr_a());
    let second = LoadGpr(ins.gpr_b());
    run_1(second, m);
    run_3(first, second, I32Add, m);
    let m1 = run(p1, m);
    assert(m1 == m.pushed32(m.sys.indexed(ins)));
    let p2 = seq![ReadU32, StoreGpr(ins.gpr_d())];
    run_2(ReadU32, StoreGpr(ins.gpr_d()), m1);
    run_in_pieces(p1, p2, m);
    let q2 = p1 + p2;
}

proof fn lemma_lwzux(ins: Ins, pc: u32, n: nat, m: Machine)
    requires
        ready(m),
        ins.op is Lwzux,
        n <= MAX_LOCALS,
        defined(ins, m.sys) is Some,
    ensures
        completed(run(translate(ins, pc, n), m), defined(ins, m.sys)),
{
    reveal(load_code);
    broadcast use crate::ppcir::meaning::group_steps;

    let ea = local_at(n + 1, IrTy::I32);
    let p1 = seq![
        LoadGpr(ins.gpr_a()), LoadGpr(ins.gpr_b()), I32Add, LocalTee(ea), StoreGpr(ins.gpr_a()),
        LocalGet(ea), ReadU32, StoreGpr(ins.gpr_d()),
    ];
    run_8(
        LoadGpr(ins.gpr_a()), LoadGpr(ins.gpr_b()), I32Add, LocalTee(ea), StoreGpr(ins.gpr_a()),
        LocalGet(ea), ReadU32, StoreGpr(ins.gpr_d()), m,
    );
}

proof fn lemma_lhzux(ins: Ins, pc: u32, n: nat, m: Machine)
    requires
        ready(m),
        ins.op is Lhzux,
        n <= MAX_LOCALS,
        defined(ins, m.sys) is Some,
    ensures
        completed(run(translate(ins, pc, n), m), defined(ins, m.sys)),
{
    reveal(load_code);
    broadcast use crate::ppcir::meaning::group_steps;

    let ea = local_at(n + 1, IrTy::I32);
    let p1 = seq![
        LoadGpr(ins.gpr_a()), LoadGpr(ins.gpr_b()), I32Add, LocalTee(ea), StoreGpr(ins.gpr_a()),
        LocalGet(ea), ReadU16, StoreGpr(ins.gpr_d()),
    ];
    run_8(
        LoadGpr(ins.gpr_a()), LoadGpr(ins.gpr_b()), I32Add, LocalTee(ea), StoreGpr(ins.gpr_a()),
        LocalGet(ea), ReadU16, StoreGpr(ins.gpr_d()), m,
    );
}

proof fn lemma_lbzux(ins: Ins, pc: u32, n: nat, m: Machine)
    requires
        ready(m),
        ins.op is Lbzux,
        n <= MAX_LOCALS,
        defined(ins, m.sys) is Some,
    ensures
        completed(run(translate(ins, pc, n), m), defined(ins, m.sys)),
{
    reveal(load_code);
    broadcast use crate::ppcir::meaning::group_steps;

    let ea = local_at(n + 1, IrTy::I32);
    let p1 = seq![
        LoadGpr(ins.gpr_a()), LoadGpr(ins.gpr_b()), I32Add, LocalTee(ea), StoreGpr(ins.gpr_a()),
        LocalGet(ea), ReadU8, StoreGpr(ins.gpr_d()),
    ];
    run_8(
        LoadGpr(ins.gpr_a()), LoadGpr(ins.gpr_b()), I32Add, LocalTee(ea), StoreGpr(ins.gpr_a()),
        LocalGet(ea), ReadU8, StoreGpr(ins.gpr_d()), m,
    );
}

proof fn lemma_lhau(ins: Ins, pc: u32, n: nat, m: Machine)
    requires
        ready(m),
        ins.op is Lhau,
        n <= MAX_LOCALS,
        defined(ins, m.sys) is Some,
    ensures
        completed(run(translate(ins, pc, n), m), defined(ins, m.sys)),
{
    reveal(load_code);
    broadcast use crate::ppcir::meaning::group_steps;

    let ea = local_at(n + 1, IrTy::I32);
    lemma_signed(ins.field_offset() as i32);
    let p1 = seq![
        LoadGpr(ins.gpr_a()), I32Const(ins.field_offset() as i32), I32Add, LocalTee(ea),
        StoreGpr(ins.gpr_a()),
    ];
    run_5(
        LoadGpr(ins.gpr_a()), I32Const(ins.field_offset() as i32), I32Add, LocalTee(ea),
        StoreGpr(ins.gpr_a()), m,
    );
    let m1 = run(p1, m);
    let p2 = seq![LocalGet(ea), ReadU16, I32Extend16S, StoreGpr(ins.gpr_d())];
    run_4(LocalGet(ea), ReadU16, I32Extend16S, StoreGpr(ins.gpr_d()), m1);
    run_in_pieces(p1, p2, m);
    let q2 = p1 + p2;
}

proof fn lemma_lhaux(ins: Ins, pc: u32, n: nat, m: Machine)
    requires
        ready(m),
        ins.op is Lhaux,
        n <= MAX_LOCALS,
        defined(ins, m.sys) is Some,
    ensures
        completed(run(translate(ins, pc, n), m), defined(ins, m.sys)),
{
    reveal(load_code);
    broadcast use crate::ppcir::meaning::group_steps;

    let ea = local_at(n + 1, IrTy::I32);
    let p1 = seq![
        LoadGpr(ins.gpr_a()), LoadGpr(ins.gpr_b()), I32Add, LocalTee(ea), StoreGpr(ins.gpr_a()),
    ];
    run_5(
        LoadGpr(ins.gpr_a()), LoadGpr(ins.gpr_b()), I32Add, LocalTee(ea), StoreGpr(ins.gpr_a()), m,
    );
    let m1 = run(p1, m);
    let p2 = seq![LocalGet(ea), ReadU16, I32Extend16S, StoreGpr(ins.gpr_d())];
    run_4(LocalGet(ea), ReadU16, I32Extend16S, StoreGpr(ins.gpr_d()), m1);
    run_in_pieces(p1, p2, m);
    let q2 = p1 + p2;
}

proof fn lemma_sth(ins: Ins, pc: u32, n: nat, m: Machine)
    requires
        ready(m),
        ins.op is Sth,
        n <= MAX_LOCALS,
    ensures
        completed(run(translate(ins, pc, n), m), defined(ins, m.sys)),
{
    reveal(store_code);
    broadcast use crate::ppcir::meaning::group_steps;

    lemma_signed(ins.field_offset() as i32);
    let p1 = ea_d_code(ins.gpr_a(), ins.field_offset() as i32);
    let first = LoadGpr(ins.gpr_a());
    let second = I32Const(ins.field_offset() as i32);
    run_1(first, m);
    run_1(second, m);
    run_3(first, second, I32Add, m);
    let m1 = run(p1, m);
    assert(m1 == m.pushed32(m.sys.displaced(ins)));
    let p2 = seq![LoadGpr(ins.gpr_s()), WriteU16];
    run_2(LoadGpr(ins.gpr_s()), WriteU16, m1);
    run_in_pieces(p1, p2, m);
    let q2 = p1 + p2;
}

proof fn lemma_sthx(ins: Ins, pc: u32, n: nat, m: Machine)
    requires
        ready(m),
        ins.op is Sthx,
        n <= MAX_LOCALS,
    ensures
        completed(run(translate(ins, pc, n), m), defined(ins, m.sys)),
{
    reveal(store_code);
    broadcast use crate::ppcir::meaning::group_steps;

    let p1 = ea_x_code(ins.gpr_a(), ins.gpr_b());
    let first = LoadGpr(ins.gpr_a());
    let second = LoadGpr(ins.gpr_b());
    run_1(second, m);
    run_3(first, second, I32Add, m);
    let m1 = run(p1, m);
    assert(m1 == m.pushed32(m.sys.indexed(ins)));
    let p2 = seq![LoadGpr(ins.gpr_s()), WriteU16];
    run_2(LoadGpr(ins.gpr_s()), WriteU16, m1);
    run_in_pieces(p1, p2, m);
    let q2 = p1 + p2;
}

proof fn lemma_stwx(ins: Ins, pc: u32, n: nat, m: Machine)
    requires
        ready(m),
        ins.op is Stwx,
        n <= MAX_LOCALS,
    ensures
        completed(run(translate(ins, pc, n), m), defined(ins, m.sys)),
{
    reveal(store_code);
    broadcast use crate::ppcir::meaning::group_steps;

    let p1 = ea_x_code(ins.gpr_a(), ins.gpr_b());
    let first = LoadGpr(ins.gpr_a());
    let second = LoadGpr(ins.gpr_b());
    run_1(second, m);
    run_3(first, second, I32Add, m);
    let m1 = run(p1, m);
    assert(m1 == m.pushed32(m.sys.indexed(ins)));
    let p2 = seq![LoadGpr(ins.gpr_s()), WriteU32];
    run_2(LoadGpr(ins.gpr_s()), WriteU32, m1);
    run_in_pieces(p1, p2, m);
    let q2 = p1 + p2;
}

proof fn lemma_stwbrx(ins: Ins, pc: u32, n: nat, m: Machine)
    requires
        ready(m),
        ins.op is Stwbrx,
        n <= MAX_LOCALS,
    ensures
        completed(run(translate(ins, pc, n), m), defined(ins, m.sys)),
{
    reveal(store_code);
    broadcast use crate::ppcir::meaning::group_steps;

    let p1 = ea_x_code(ins.gpr_a(), ins.gpr_b());
    let first = LoadGpr(ins.gpr_a());
    let second = LoadGpr(ins.gpr_b());
    run_1(second, m);
    run_3(first, second, I32Add, m);
    let m1 = run(p1, m);
    assert(m1 == m.pushed32(m.sys.indexed(ins)));
    let p2 = seq![LoadGpr(ins.gpr_s()), I32Bswap, WriteU32];
    run_3(LoadGpr(ins.gpr_s()), I32Bswap, WriteU32, m1);
    run_in_pieces(p1, p2, m);
    let q2 = p1 + p2;
}

proof fn lemma_sthbrx(ins: Ins, pc: u32, n: nat, m: Machine)
    requires
        ready(m),
        ins.op is Sthbrx,
        n <= MAX_LOCALS,
    ensures
        completed(run(translate(ins, pc, n), m), defined(ins, m.sys)),
{
    reveal(store_code);
    broadcast use crate::ppcir::meaning::group_steps;

    let p1 = ea_x_code(ins.gpr_a(), ins.gpr_b());
    let first = LoadGpr(ins.gpr_a());
    let second = LoadGpr(ins.gpr_b());
    run_1(second, m);
    run_3(first, second, I32Add, m);
    let m1 = run(p1, m);
    assert(m1 == m.pushed32(m.sys.indexed(ins)));
    let p2 = seq![LoadGpr(ins.gpr_s()), I32Bswap16, WriteU16];
    run_3(LoadGpr(ins.gpr_s()), I32Bswap16, WriteU16, m1);
    run_in_pieces(p1, p2, m);
    let q2 = p1 + p2;
}

proof fn lemma_stwux(ins: Ins, pc: u32, n: nat, m: Machine)
    requires
        ready(m),
        ins.op is Stwux,
        n <= MAX_LOCALS,
        defined(ins, m.sys) is Some,
    ensures
        completed(run(translate(ins, pc, n), m), defined(ins, m.sys)),
{
    reveal(store_code);
    broadcast use crate::ppcir::meaning::group_steps;

    let ea = local_at(n + 1, IrTy::I32);
    let p1 = seq![LoadGpr(ins.gpr_a()), LoadGpr(ins.gpr_b()), I32Add, LocalSet(ea), LocalGet(ea)];
    run_5(LoadGpr(ins.gpr_a()), LoadGpr(ins.gpr_b()), I32Add, LocalSet(ea), LocalGet(ea), m);
    let m1 = run(p1, m);
    let p2 = seq![LoadGpr(ins.gpr_s()), WriteU32, LocalGet(ea), StoreGpr(ins.gpr_a())];
    run_4(LoadGpr(ins.gpr_s()), WriteU32, LocalGet(ea), StoreGpr(ins.gpr_a()), m1);
    run_in_pieces(p1, p2, m);
    let q2 = p1 + p2;
}

proof fn lemma_sthux(ins: Ins, pc: u32, n: nat, m: Machine)
    requires
        ready(m),
        ins.op is Sthux,
        n <= MAX_LOCALS,
        defined(ins, m.sys) is Some,
    ensures
        completed(run(translate(ins, pc, n), m), defined(ins, m.sys)),
{
    reveal(store_code);
    broadcast use crate::ppcir::meaning::group_steps;

    let ea = local_at(n + 1, IrTy::I32);
    let p1 = seq![LoadGpr(ins.gpr_a()), LoadGpr(ins.gpr_b()), I32Add, LocalSet(ea), LocalGet(ea)];
    run_5(LoadGpr(ins.gpr_a()), LoadGpr(ins.gpr_b()), I32Add, LocalSet(ea), LocalGet(ea), m);
    let m1 = run(p1, m);
    let p2 = seq![LoadGpr(ins.gpr_s()), WriteU16, LocalGet(ea), StoreGpr(ins.gpr_a())];
    run_4(LoadGpr(ins.gpr_s()), WriteU16, LocalGet(ea), StoreGpr(ins.gpr_a()), m1);
    run_in_pieces(p1, p2, m);
    let q2 = p1 + p2;
}

proof fn lemma_stbux(ins: Ins, pc: u32, n: nat, m: Machine)
    requires
        ready(m),
        ins.op is Stbux,
        n <= MAX_LOCALS,
        defined(ins, m.sys) is Some,
    ensures
        completed(run(translate(ins, pc, n), m), defined(ins, m.sys)),
{
    reveal(store_code);
    broadcast use crate::ppcir::meaning::group_steps;

    let ea = local_at(n + 1, IrTy::I32);
    let p1 = seq![LoadGpr(ins.gpr_a()), LoadGpr(ins.gpr_b()), I32Add, LocalSet(ea), LocalGet(ea)];
    run_5(LoadGpr(ins.gpr_a()), LoadGpr(ins.gpr_b()), I32Add, LocalSet(ea), LocalGet(ea), m);
    let m1 = run(p1, m);
    let p2 = seq![LoadGpr(ins.gpr_s()), WriteU8, LocalGet(ea), StoreGpr(ins.gpr_a())];
    run_4(LoadGpr(ins.gpr_s()), WriteU8, LocalGet(ea), StoreGpr(ins.gpr_a()), m1);
    run_in_pieces(p1, p2, m);
    let q2 = p1 + p2;
}

proof fn lemma_sthu(ins: Ins, pc: u32, n: nat, m: Machine)
    requires
        ready(m),
        ins.op is Sthu,
        n <= MAX_LOCALS,
        defined(ins, m.sys) is Some,
    ensures
        completed(run(translate(ins, pc, n), m), defined(ins, m.sys)),
{
    reveal(store_code);
    broadcast use crate::ppcir::meaning::group_steps;

    let ea = local_at(n + 1, IrTy::I32);
    lemma_signed(ins.field_offset() as i32);
    let p1 = seq![
        LoadGpr(ins.gpr_a()), I32Const(ins.field_offset() as i32), I32Add, LocalSet(ea),
        LocalGet(ea),
    ];
    run_5(
        LoadGpr(ins.gpr_a()), I32Const(ins.field_offset() as i32), I32Add, LocalSet(ea),
        LocalGet(ea), m,
    );
    let m1 = run(p1, m);
    let p2 = seq![LoadGpr(ins.gpr_s()), WriteU16, LocalGet(ea), StoreGpr(ins.gpr_a())];
    run_4(LoadGpr(ins.gpr_s()), WriteU16, LocalGet(ea), StoreGpr(ins.gpr_a()), m1);
    run_in_pieces(p1, p2, m);
    let q2 = p1 + p2;
}

proof fn lemma_mfcr(ins: Ins, pc: u32, n: nat, m: Machine)
    requires
        ready(m),
        ins.op is Mfcr,
        n <= MAX_LOCALS,
    ensures
        completed(run(translate(ins, pc, n), m), defined(ins, m.sys)),
{
    reveal(system_code);
    broadcast use crate::ppcir::meaning::group_steps;

    let p1 = seq![LoadCr, StoreGpr(ins.gpr_d())];
    run_2(LoadCr, StoreGpr(ins.gpr_d()), m);
}

proof fn lemma_mtcrf(ins: Ins, pc: u32, n: nat, m: Machine)
    requires
        ready(m),
        ins.op is Mtcrf,
        n <= MAX_LOCALS,
    ensures
        completed(run(translate(ins, pc, n), m), defined(ins, m.sys)),
{
    reveal(system_code);
    broadcast use crate::ppcir::meaning::group_steps;

    let mask = field_mask(ins.field_crm(), 8);
    lemma_constant(mask);
    lemma_constant(!mask);
    let p1 = seq![
        LoadCr, I32Const(!mask as i32), I32And, LoadGpr(ins.gpr_s()), I32Const(mask as i32),
        I32And, I32Or, StoreCr,
    ];
    run_8(
        LoadCr, I32Const(!mask as i32), I32And, LoadGpr(ins.gpr_s()), I32Const(mask as i32),
        I32And, I32Or, StoreCr, m,
    );
}

proof fn lemma_mcrf(ins: Ins, pc: u32, n: nat, m: Machine)
    requires
        ready(m),
        ins.op is Mcrf,
        n <= MAX_LOCALS,
    ensures
        completed(run(translate(ins, pc, n), m), defined(ins, m.sys)),
{
    reveal(system_code);
    broadcast use crate::ppcir::meaning::group_steps;

    let loc = local_at(n + 1, IrTy::I32);
    let from = so_position(ins.field_crfs());
    let to = so_position(ins.field_crfd());
    ins.lemma_register_fields();
    lemma_bits(0, 0, from, 0, 0);
    lemma_bits(0, 0, to, 0, 0);
    lemma_constant(!(0xFu32 << to));
    let p1 = seq![
        LoadCr, I32Const(from as i32), I32ShrU, I32Const(0xF), I32And, I32Const(to as i32), I32Shl,
        LocalSet(loc),
    ];
    run_8(
        LoadCr, I32Const(from as i32), I32ShrU, I32Const(0xF), I32And, I32Const(to as i32), I32Shl,
        LocalSet(loc), m,
    );
    let m1 = run(p1, m);
    let p2 = seq![LoadCr, I32Const(!(0xFu32 << to) as i32), I32And, LocalGet(loc), I32Or, StoreCr];
    run_6(LoadCr, I32Const(!(0xFu32 << to) as i32), I32And, LocalGet(loc), I32Or, StoreCr, m1);
    run_in_pieces(p1, p2, m);
    let q2 = p1 + p2;
}

proof fn lemma_mftb(ins: Ins, pc: u32, n: nat, m: Machine)
    requires
        ready(m),
        ins.op is Mftb,
        n <= MAX_LOCALS,
    ensures
        completed(run(translate(ins, pc, n), m), defined(ins, m.sys)),
{
    reveal(system_code);
    broadcast use crate::ppcir::meaning::group_steps;

    let p1 = seq![if ins.field_tbr() == 268 { LoadTbLo } else { LoadTbHi }, StoreGpr(ins.gpr_d())];
    run_2(if ins.field_tbr() == 268 { LoadTbLo } else { LoadTbHi }, StoreGpr(ins.gpr_d()), m);
}

proof fn lemma_mfspr(ins: Ins, pc: u32, n: nat, m: Machine)
    requires
        ready(m),
        ins.op is Mfspr,
        n <= MAX_LOCALS,
        defined(ins, m.sys) is Some,
    ensures
        completed(run(translate(ins, pc, n), m), defined(ins, m.sys)),
{
    reveal(system_code);
    broadcast use crate::ppcir::meaning::group_steps;

    let p1 = seq![spr_load(ins.field_spr()), StoreGpr(ins.gpr_d())];
    run_2(spr_load(ins.field_spr()), StoreGpr(ins.gpr_d()), m);
}

proof fn lemma_mtspr(ins: Ins, pc: u32, n: nat, m: Machine)
    requires
        ready(m),
        ins.op is Mtspr,
        n <= MAX_LOCALS,
        defined(ins, m.sys) is Some,
    ensures
        completed(run(translate(ins, pc, n), m), defined(ins, m.sys)),
{
    reveal(system_code);
    broadcast use crate::ppcir::meaning::group_steps;

    let p1 = seq![LoadGpr(ins.gpr_s()), spr_store(ins.field_spr())];
    run_2(LoadGpr(ins.gpr_s()), spr_store(ins.field_spr()), m);
}

/// Ones are shifted out exactly if the lowest one is.
proof fn lemma_shifted_out(s: u32, count: u32)
    requires
        count < 32,
    ensures
        s & (((1u32 << count) - 1) as u32) == 0 <==> s.trailing_zeros() >= count,
{
    vstd::std_specs::bits::axiom_u32_trailing_zeros(s);
    let tz = s.trailing_zeros();
    let out = (32 - tz) as u32;
    assert(count < 32 && tz <= 32 && out == 32 - tz && s << out == 0 && (tz < 32 ==> (s >> tz) & 1
        == 1) ==> (s & (((1u32 << count) - 1) as u32) == 0 <==> tz >= count)) by (bit_vector);
}

#[verifier::spinoff_prover]
proof fn lemma_srawi(ins: Ins, pc: u32, n: nat, m: Machine)
    requires
        ready(m),
        ins.op is Srawi,
        n <= MAX_LOCALS,
    ensures
        completed(run(translate(ins, pc, n), m), defined(ins, m.sys)),
{
    reveal(rotate_family_code);
    broadcast use crate::ppcir::meaning::group_steps;

    let s = m.sys.gpr(ins.gpr_s());
    let sh = ins.field_sh();
    let count = sh as u32;
    let rs_val = local_at(n + 1, IrTy::I32);
    let result = local_at(n + 2, IrTy::I32);
    let carry = local_at(n + 3, IrTy::I32);
    let is_neg = local_at(n + 4, IrTy::I32);
    let has_lo = local_at(n + 5, IrTy::I32);
    ins.lemma_register_fields();
    assert({
        &&& count < 32 ==> count & 31 == count
        &&& (s >> (31u32 & 31)) & 1 == if (s as i32) < 0 {
            1u32
        } else {
            0
        }
        &&& (count as i32) as u32 == count
    }) by {
        lemma_bits(0, 0, count, 0, 0);
        lemma_bits(0, 0, s, 0, 0);
    }
    lemma_shifted_out(s, count);
    let shift = I32Const(sh as i32);
    let p1 = seq![LoadGpr(ins.gpr_s()), LocalTee(rs_val), shift, I32ShrS, LocalSet(result)];
    run_5(LoadGpr(ins.gpr_s()), LocalTee(rs_val), shift, I32ShrS, LocalSet(result), m);
    let m1 = run(p1, m);
    let set = (s as i32) < 0 && s.trailing_zeros() < count;
    let last = seq![LocalGet(result)];
    if sh == 0 {
        let p2 = seq![I32Const(0), LocalSet(carry)];
        run_2(I32Const(0), LocalSet(carry), m1);
        run_in_pieces(p1, p2, m);
        let q2 = p1 + p2;
        let m2 = run(q2, m);
        let p3 = carry_code(carry);
        lemma_carry(carry, m2, set);
        run_in_pieces(q2, p3, m);
        let q3 = q2 + p3;
        run_1(LocalGet(result), run(q3, m));
        run_in_pieces(q3, last, m);
        lemma_result(
            q3 + last,
            ins.gpr_a(),
            ins.field_rc(),
            n + 3,
            m,
            shifted_right(s, count),
        );
    } else {
        let mask = ((1u32 << sh) - 1) as u32;
        lemma_constant(mask);
        lemma_truth(s & mask == 0, false);
        lemma_truth((s as i32) < 0, s & mask != 0);
        let p2 = seq![
            LocalGet(rs_val), I32Const(31), I32ShrU, I32Const(1), I32And, LocalSet(is_neg),
        ];
        run_6(
            LocalGet(rs_val),
            I32Const(31),
            I32ShrU,
            I32Const(1),
            I32And,
            LocalSet(is_neg),
            m1,
        );
        run_in_pieces(p1, p2, m);
        let q2 = p1 + p2;
        let m2 = run(q2, m);
        let low = I32Const(((1u32 << sh) - 1) as i32);
        let p3 = seq![
            LocalGet(rs_val), low, I32And, I32Eqz, I32Const(1), I32Xor, LocalSet(has_lo),
        ];
        run_7(
            LocalGet(rs_val),
            low,
            I32And,
            I32Eqz,
            I32Const(1),
            I32Xor,
            LocalSet(has_lo),
            m2,
        );
        run_in_pieces(q2, p3, m);
        let q3 = q2 + p3;
        let m3 = run(q3, m);
        let p4 = seq![LocalGet(is_neg), LocalGet(has_lo), I32And, LocalSet(carry)];
        run_4(LocalGet(is_neg), LocalGet(has_lo), I32And, LocalSet(carry), m3);
        run_in_pieces(q3, p4, m);
        let q4 = q3 + p4;
        let m4 = run(q4, m);
        let p5 = carry_code(carry);
        lemma_carry(carry, m4, set);
        run_in_pieces(q4, p5, m);
        let q5 = q4 + p5;
        run_1(LocalGet(result), run(q5, m));
        run_in_pieces(q5, last, m);
        lemma_result(
            q5 + last,
            ins.gpr_a(),
            ins.field_rc(),
            n + 5,
            m,
            shifted_right(s, count),
        );
    }
}

/// Taking a condition bit into a local.
proof fn lemma_get_bit(position: u8, loc: IrLocal, m: Machine)
    requires
        m.exit is None,
        position < 32,
    ensures
        run(get_bit_code(position, loc), m) == (Machine {
            locals: m.locals.insert(
                loc.index,
                Value::I32(truth(bit(m.sys.cpu.cr, (31 - position) as u32))),
            ),
            ..m
        }),
{
    broadcast use crate::ppcir::meaning::group_steps;

    let shift = I32Const((31 - position) as i32);
    run_6(LoadCr, shift, I32ShrU, I32Const(1), I32And, LocalSet(loc), m);
    lemma_bits(0, 0, m.sys.cpu.cr, (31 - position) as u32, 0);
}

/// Setting a condition bit from a local.
proof fn lemma_set_bit(position: u8, val: IrLocal, m: Machine, set: bool)
    requires
        m.exit is None,
        position < 32,
        m.locals[val.index] == Value::I32(truth(set)),
    ensures
        run(set_bit_code(position, val), m) == (Machine {
            sys: m.sys.with_cr(with_bit(m.sys.cpu.cr, (31 - position) as u32, set)),
            ..m
        }),
{
    broadcast use crate::ppcir::meaning::group_steps;

    let p = (31 - position) as u32;
    let clear = I32Const(!(1u32 << p) as i32);
    let shift = I32Const((31 - position) as i32);
    run_8(LoadCr, clear, I32And, LocalGet(val), shift, I32Shl, I32Or, StoreCr, m);
    lemma_constant(!(1u32 << p));
    lemma_bits(0, 0, m.sys.cpu.cr, p, 0);
}

/// Combining two condition bits.
proof fn lemma_bit_operation(op: Opcode, la: IrLocal, lb: IrLocal, m: Machine, p: bool, q: bool)
    requires
        m.exit is None,
        m.locals[la.index] == Value::I32(truth(p)),
        m.locals[lb.index] == Value::I32(truth(q)),
    ensures
        run(bit_operation_code(op, la, lb), m) == m.pushed32(
            truth(
                match op {
                    Opcode::Crxor => p != q,
                    Opcode::Creqv => p == q,
                    Opcode::Cror => p || q,
                    Opcode::Crorc => p || !q,
                    Opcode::Crnor => !(p || q),
                    Opcode::Crand => p && q,
                    Opcode::Crandc => p && !q,
                    _ => !(p && q),
                },
            ),
        ),
{
    broadcast use crate::ppcir::meaning::group_steps;

    let (a, b) = (LocalGet(la), LocalGet(lb));
    let one = I32Const(1);
    lemma_truth(p, q);
    lemma_truth(q, p);
    lemma_truth(!q, p);
    lemma_truth(p != q, false);
    lemma_truth(p || q, false);
    lemma_truth(p && q, false);
    match op {
        Opcode::Crxor => run_3(a, b, I32Xor, m),
        Opcode::Creqv => run_5(a, b, I32Xor, one, I32Xor, m),
        Opcode::Cror => run_3(a, b, I32Or, m),
        Opcode::Crorc => run_5(b, one, I32Xor, a, I32Or, m),
        Opcode::Crnor => run_5(a, b, I32Or, one, I32Xor, m),
        Opcode::Crand => run_3(a, b, I32And, m),
        Opcode::Crandc => run_5(b, one, I32Xor, a, I32And, m),
        _ => run_5(a, b, I32And, one, I32Xor, m),
    }
}

proof fn lemma_condition(ins: Ins, n: nat, m: Machine)
    requires
        ready(m),
        n <= MAX_LOCALS,
    ensures
        completed(run(condition_code(ins, n), m), Some(m.sys.condition_set(ins))),
{
    reveal(condition_code);
    broadcast use crate::ppcir::meaning::group_steps;

    ins.lemma_register_fields();
    let la = local_at(n + 1, IrTy::I32);
    let lb = local_at(n + 2, IrTy::I32);
    let lv = local_at(n + 3, IrTy::I32);
    let cr = m.sys.cpu.cr;
    let p = bit(cr, (31 - ins.field_crba()) as u32);
    let q = bit(cr, (31 - ins.field_crbb()) as u32);
    let p1 = get_bit_code(ins.field_crba(), la);
    lemma_get_bit(ins.field_crba(), la, m);
    let m1 = run(p1, m);
    let p2 = get_bit_code(ins.field_crbb(), lb);
    lemma_get_bit(ins.field_crbb(), lb, m1);
    run_in_pieces(p1, p2, m);
    let q2 = p1 + p2;
    let m2 = run(q2, m);
    let p3 = bit_operation_code(ins.op, la, lb);
    lemma_bit_operation(ins.op, la, lb, m2, p, q);
    run_in_pieces(q2, p3, m);
    let q3 = q2 + p3;
    let m3 = run(q3, m);
    let p4 = seq![LocalSet(lv)];
    run_1(LocalSet(lv), m3);
    run_in_pieces(q3, p4, m);
    let q4 = q3 + p4;
    let m4 = run(q4, m);
    let p5 = set_bit_code(ins.field_crbd(), lv);
    lemma_set_bit(
        ins.field_crbd(),
        lv,
        m4,
        match ins.op {
            Opcode::Crxor => p != q,
            Opcode::Creqv => p == q,
            Opcode::Cror => p || q,
            Opcode::Crorc => p || !q,
            Opcode::Crnor => !(p || q),
            Opcode::Crand => p && q,
            Opcode::Crandc => p && !q,
            _ => !(p && q),
        },
    );
    run_in_pieces(q4, p5, m);
}

/// The code that an instruction is translated to does what the instruction is defined
/// to do.
pub proof fn translation_is_as_defined(ins: Ins, pc: u32, n: nat, m: Machine)
    requires
        ready(m),
        n <= MAX_LOCALS,
        defined(ins, m.sys) is Some,
    ensures
        completed(run(translate(ins, pc, n), m), defined(ins, m.sys)),
{
    match ins.op {
        Opcode::Or => lemma_or(ins, pc, n, m),
        Opcode::Orc => lemma_orc(ins, pc, n, m),
        Opcode::Nand => lemma_nand(ins, pc, n, m),
        Opcode::Eqv => lemma_eqv(ins, pc, n, m),
        Opcode::Andi_ => lemma_andi(ins, pc, n, m),
        Opcode::Andis_ => lemma_andis(ins, pc, n, m),
        Opcode::Oris => lemma_oris(ins, pc, n, m),
        Opcode::Xori => lemma_xori(ins, pc, n, m),
        Opcode::Extsb => lemma_extsb(ins, pc, n, m),
        Opcode::Subf => lemma_subf(ins, pc, n, m),
        Opcode::Addc => lemma_addc(ins, pc, n, m),
        Opcode::Adde => lemma_adde(ins, pc, n, m),
        Opcode::Addme => lemma_addme(ins, pc, n, m),
        Opcode::Addze => lemma_addze(ins, pc, n, m),
        Opcode::Subfic => lemma_subfic(ins, pc, n, m),
        Opcode::Subfc => lemma_subfc(ins, pc, n, m),
        Opcode::Subfe => lemma_subfe(ins, pc, n, m),
        Opcode::Subfze => lemma_subfze(ins, pc, n, m),
        Opcode::Subfme => lemma_subfme(ins, pc, n, m),
        Opcode::Slw => lemma_slw(ins, pc, n, m),
        Opcode::Srw => lemma_srw(ins, pc, n, m),
        Opcode::Sraw => lemma_sraw(ins, pc, n, m),
        Opcode::Rlwnm => lemma_rlwnm(ins, pc, n, m),
        Opcode::Lbzx => lemma_lbzx(ins, pc, n, m),
        Opcode::Lha => lemma_lha(ins, pc, n, m),
        Opcode::Lhax => lemma_lhax(ins, pc, n, m),
        Opcode::Lwbrx => lemma_lwbrx(ins, pc, n, m),
        Opcode::Lhbrx => lemma_lhbrx(ins, pc, n, m),
        Opcode::Lwarx => lemma_lwarx(ins, pc, n, m),
        Opcode::Lwzux => lemma_lwzux(ins, pc, n, m),
        Opcode::Lhzux => lemma_lhzux(ins, pc, n, m),
        Opcode::Lbzux => lemma_lbzux(ins, pc, n, m),
        Opcode::Lhau => lemma_lhau(ins, pc, n, m),
        Opcode::Lhaux => lemma_lhaux(ins, pc, n, m),
        Opcode::Sth => lemma_sth(ins, pc, n, m),
        Opcode::Sthx => lemma_sthx(ins, pc, n, m),
        Opcode::Stwx => lemma_stwx(ins, pc, n, m),
        Opcode::Stwbrx => lemma_stwbrx(ins, pc, n, m),
        Opcode::Sthbrx => lemma_sthbrx(ins, pc, n, m),
        Opcode::Stwux => lemma_stwux(ins, pc, n, m),
        Opcode::Sthux => lemma_sthux(ins, pc, n, m),
        Opcode::Stbux => lemma_stbux(ins, pc, n, m),
        Opcode::Sthu => lemma_sthu(ins, pc, n, m),
        Opcode::Mfcr => lemma_mfcr(ins, pc, n, m),
        Opcode::Mtcrf => lemma_mtcrf(ins, pc, n, m),
        Opcode::Mcrf => lemma_mcrf(ins, pc, n, m),
        Opcode::Mftb => lemma_mftb(ins, pc, n, m),
        Opcode::Mfspr => lemma_mfspr(ins, pc, n, m),
        Opcode::Mtspr => lemma_mtspr(ins, pc, n, m),
        Opcode::Srawi => lemma_srawi(ins, pc, n, m),
        _ => lemma_condition(ins, n, m),
    }
}

} // verus!
