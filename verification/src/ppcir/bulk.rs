//! Translated code that moves several words or bytes, that concerns the flags that XER
//! keeps, or that leaves a block without a branch, does what the architecture defines.

use vstd::prelude::*;

use super::floats::lemma_ea_x;
use super::inst::IrInst::{
    I32Add, I32And, I32Const, I32Or, I32Shl, I32ShrU, LoadCr, LoadGpr, LoadXer, LocalGet, LocalSet,
    LocalTee, RaiseException, ReadU8, ReturnStatic, StoreCr, StoreGpr, StorePC, StoreXer, WriteU32,
    WriteU8,
};
use super::inst::{local_at, IrInst, IrLocal, IrTy};
use super::meaning::{
    run, run_1, run_2, run_3, run_5, run_6, run_in_pieces, step, Machine, Value,
};
use super::pieces::{lemma_bits, lemma_constant, lemma_signed, ready};
use super::translate::{
    base_code, bulk_code, clear_registers_code, cleared_field_code, ea_plus_code, ea_x_code,
    leave_code, load_string_code, next_pc, shifted_code, so_position, store_code,
    store_string_code, string_length, string_register, string_shift, system_code, translate,
    zero_words_code, MAX_LOCALS,
};
use crate::bytes::{be_byte, be_bytes, byte_digits, low_address};
use crate::disasm::{register_places, Ins};
use crate::gekko::CpuView;
use crate::ppcint::arithmetic::wrapped;
use crate::ppcint::system::SystemView;

verus! {

/// Lines of 32 and 128 bytes, bytes of a word, and the flags in XER and CR.
proof fn lemma_bulk_bits(x: u32, b: u32, cr: u32, xer: u32, f: u32, j: u32)
    by (bit_vector)
    ensures
        x & !31u32 == x - x % 32,
        x & !127u32 == x - x % 128,
        (((x & 0xFF) & 0xFF) as u8) == x % 0x100,
        ((((x >> (8u32 & 31)) & 0xFF) & 0xFF) as u8) == x / 0x100 % 0x100,
        ((((x >> (16u32 & 31)) & 0xFF) & 0xFF) as u8) == x / 0x1_0000 % 0x100,
        ((((x >> (24u32 & 31)) & 0xFF) & 0xFF) as u8) == x / 0x100_0000,
        b < 0x100 && x % 0x100 == 0 ==> b | x == x + b,
        b < 0x100 && x % 0x1_0000 == 0 ==> (b << (8u32 & 31)) | x == x + 0x100 * b,
        b < 0x100 && x % 0x100_0000 == 0 ==> (b << (16u32 & 31)) | x == x + 0x1_0000 * b,
        b < 0x100 ==> (b << (24u32 & 31)) | 0 == 0x100_0000 * b,
        1i32 << 29u32 == 0x2000_0000,
        ((cr & !(0xFu32 << 28u32)) | 0x2000_0000) | (((xer >> (31u32 & 31)) & 1) << (28u32 & 31))
            == cr % 0x1000_0000 + 0x2000_0000 + 0x1000_0000 * (xer / 0x8000_0000),
        xer & !(7u32 << 29u32) == xer % 0x2000_0000,
        f < 8 && j < 8 ==> (((cr & !(0xFu32 << ((28 - 4 * f) as u32))) | ((xer & (7u32 << 29u32))
            >> (((4 * f) as u32) & 31))) >> ((28 - 4 * j) as u32)) & 0xF == (if f == j {
            2 * (xer / 0x2000_0000)
        } else {
            ((cr >> ((28 - 4 * j) as u32)) & 0xF) as int
        }),
        x >> (0u32 & 31) == x,
{
}

proof fn lemma_ea_plus(ea: IrLocal, offset: int, m: Machine, addr: u32)
    requires
        m.exit is None,
        m.locals[ea.index] == Value::I32(addr),
        0 <= offset < 256,
    ensures
        run(ea_plus_code(ea, offset), m) == m.pushed32(wrapped(addr + offset)),
{
    broadcast use crate::ppcir::meaning::group_steps;

    lemma_signed(offset as i32);
    run_1(LocalGet(ea), m);
    run_3(LocalGet(ea), I32Const(offset as i32), I32Add, m);
}

/// The guest with `count` words cleared from `addr` on.
spec fn cleared(sys: SystemView, addr: u32, count: int) -> SystemView
    decreases count,
{
    if count <= 0 {
        sys
    } else {
        cleared(sys, addr, count - 1).written32(wrapped(addr + 4 * (count - 1)), 0)
    }
}

proof fn lemma_zero_words(ea: IrLocal, count: int, m: Machine, addr: u32)
    requires
        ready(m),
        m.locals[ea.index] == Value::I32(addr),
        0 <= count <= 32,
    ensures
        run(zero_words_code(ea, count), m) == (Machine { sys: cleared(m.sys, addr, count), ..m }),
    decreases count,
{
    broadcast use crate::ppcir::meaning::group_steps;

    if count > 0 {
        lemma_zero_words(ea, count - 1, m, addr);
        let p1 = zero_words_code(ea, count - 1);
        let p2 = ea_plus_code(ea, 4 * (count - 1));
        let m1 = run(p1, m);
        run_in_pieces(p1, p2, m);
        lemma_ea_plus(ea, 4 * (count - 1), m1, addr);
        lemma_signed(0);
        run_2(I32Const(0), WriteU32, run(p1 + p2, m));
        run_in_pieces(p1 + p2, seq![I32Const(0), WriteU32], m);
    }
}

/// `ram` with `len` bytes from `at` on cleared.
pub open spec fn zeroed(ram: Seq<u8>, at: int, len: int) -> Seq<u8> {
    Seq::new(
        ram.len(),
        |k: int|
            if at <= k < at + len {
                0
            } else {
                ram[k]
            },
    )
}

proof fn lemma_cleared(sys: SystemView, addr: u32, count: int)
    requires
        0 <= count,
        addr % 0x0200_0000 + 4 * count <= 0x0200_0000,
        addr % 0x0200_0000 + 4 * count <= sys.ram.len(),
    ensures
        cleared(sys, addr, count) == (SystemView {
            ram: zeroed(sys.ram, addr as int % 0x0200_0000, 4 * count),
            ..sys
        }),
    decreases count,
{
    let at = addr as int % 0x0200_0000;
    if count > 0 {
        lemma_cleared(sys, addr, count - 1);
        let word = wrapped(addr + 4 * (count - 1));
        low_address(word);
        byte_digits(0);
        assert(be_byte(0, 0) == be_bytes(0)[0] && be_byte(0, 1) == be_bytes(0)[1] && be_byte(0, 2)
            == be_bytes(0)[2] && be_byte(0, 3) == be_bytes(0)[3]);
        assert(word as int % 0x0200_0000 == at + 4 * (count - 1));
        assert(cleared(sys, addr, count).ram =~= zeroed(sys.ram, at, 4 * count));
    } else {
        assert(zeroed(sys.ram, at, 0) =~= sys.ram);
    }
}

/// Where lines lie in main memory, which is a whole number of them.
proof fn lemma_line(addr: u32)
    ensures
        (addr & !31u32) as int % 0x0200_0000 == addr as int % 0x0200_0000 - addr as int % 32,
        (addr & !31u32) % 0x0200_0000 + 32 <= 0x0200_0000,
        (addr & !127u32) as int % 0x0200_0000 == addr as int % 0x0200_0000 - addr as int % 128,
        (addr & !127u32) % 0x0200_0000 + 128 <= 0x0200_0000,
{
    lemma_bulk_bits(addr, 0, 0, 0, 0, 0);
    let at = addr as int % 0x0200_0000;
    assert(at % 32 == addr as int % 32);
    assert(at % 128 == addr as int % 128);
}

proof fn lemma_clear_line(ins: Ins, n: nat, m: Machine, mask: u32, count: int)
    requires
        ready(m),
        0 <= count <= 32,
    ensures
        ({
            let ea = local_at(n + 1, IrTy::I32);
            let code = ea_x_code(ins.gpr_a(), ins.gpr_b()) + seq![
                I32Const(mask as i32),
                I32And,
                LocalSet(ea),
            ] + zero_words_code(ea, count);
            let after = run(code, m);
            &&& ready(after)
            &&& after.sys == cleared(m.sys, m.sys.indexed(ins) & mask, count)
        }),
{
    broadcast use crate::ppcir::meaning::group_steps;

    let ea = local_at(n + 1, IrTy::I32);
    lemma_constant(mask);
    let p1 = ea_x_code(ins.gpr_a(), ins.gpr_b());
    let p2 = seq![I32Const(mask as i32), I32And, LocalSet(ea)];
    let p3 = zero_words_code(ea, count);
    lemma_ea_x(ins, m);
    run_in_pieces(p1, p2, m);
    run_3(I32Const(mask as i32), I32And, LocalSet(ea), run(p1, m));
    run_in_pieces(p1 + p2, p3, m);
    lemma_zero_words(ea, count, run(p1 + p2, m), m.sys.indexed(ins) & mask);
}

/// Clearing a line clears the 32 or 128 bytes that its address lies in, and nothing else.
#[verifier::spinoff_prover]
#[verifier::rlimit(40)]
pub proof fn cache_lines_are_cleared(ins: Ins, pc: u32, n: nat, m: Machine)
    requires
        ready(m),
        n <= MAX_LOCALS,
        ins.op is Dcbz || ins.op is DcbzL,
        0x0200_0000 <= m.sys.ram.len(),
    ensures
        ({
            let after = run(translate(ins, pc, n), m);
            let base = if ins.gpr_a() == 0 {
                0
            } else {
                m.sys.cpu.gpr[ins.gpr_a() as int] as int
            };
            let ea = (base + m.sys.cpu.gpr[ins.gpr_b() as int]) % 0x1_0000_0000;
            let size: int = if ins.op is Dcbz {
                32
            } else {
                128
            };
            let at = ea % 0x0200_0000 - ea % size;
            &&& ready(after)
            &&& after.sys == (SystemView { ram: zeroed(m.sys.ram, at, size), ..m.sys })
        }),
{
    reveal(bulk_code);
    let addr = m.sys.indexed(ins);
    lemma_line(addr);
    if ins.op is Dcbz {
        lemma_clear_line(ins, n, m, !31u32, 8);
        lemma_cleared(m.sys, addr & !31u32, 8);
    } else {
        lemma_clear_line(ins, n, m, !127u32, 32);
        lemma_cleared(m.sys, addr & !127u32, 32);
    }
}

/// The guest with the first `count` bytes of registers `first` and following stored.
spec fn string_stored(sys: SystemView, first: u8, addr: u32, count: int) -> SystemView
    decreases count,
{
    if count <= 0 {
        sys
    } else {
        string_stored(sys, first, addr, count - 1).written8(
            wrapped(addr + count - 1),
            string_byte(sys.cpu.gpr, first, count - 1),
        )
    }
}

/// Byte `i` of the string that begins in register `first`: four bytes in each register,
/// the most significant first, and register 0 behind register 31.
pub open spec fn string_byte(gpr: Seq<u32>, first: u8, i: int) -> u8 {
    let word = gpr[(first + i / 4) % 32];
    let digit = if i % 4 == 0 {
        word / 0x100_0000
    } else if i % 4 == 1 {
        word / 0x1_0000 % 0x100
    } else if i % 4 == 2 {
        word / 0x100 % 0x100
    } else {
        word % 0x100
    };
    digit as u8
}

proof fn lemma_string_stored(sys: SystemView, first: u8, addr: u32, count: int, k: int)
    requires
        0 <= count,
        addr % 0x0200_0000 + count <= 0x0200_0000,
        addr % 0x0200_0000 + count <= sys.ram.len(),
        0 <= k < sys.ram.len(),
    ensures
        ({
            let after = string_stored(sys, first, addr, count);
            let at = addr as int % 0x0200_0000;
            &&& after == (SystemView { ram: after.ram, ..sys })
            &&& after.ram.len() == sys.ram.len()
            &&& after.ram[k] == if at <= k < at + count {
                string_byte(sys.cpu.gpr, first, k - at)
            } else {
                sys.ram[k]
            }
        }),
    decreases count,
{
    if count > 0 {
        lemma_string_stored(sys, first, addr, count - 1, k);
        let byte = wrapped(addr + count - 1);
        low_address(byte);
        assert(byte as int % 0x0200_0000 == addr as int % 0x0200_0000 + count - 1);
    }
}

proof fn lemma_store_string(rs: u8, ea: IrLocal, count: int, m: Machine, addr: u32)
    requires
        ready(m),
        m.locals[ea.index] == Value::I32(addr),
        0 <= count <= 32,
        rs < 32,
    ensures
        run(store_string_code(rs, ea, count), m) == (Machine {
            sys: string_stored(m.sys, rs, addr, count),
            ..m
        }),
        string_stored(m.sys, rs, addr, count).cpu == m.sys.cpu,
    decreases count,
{
    broadcast use crate::ppcir::meaning::group_steps;

    if count > 0 {
        let i = count - 1;
        lemma_store_string(rs, ea, i, m, addr);
        let p1 = store_string_code(rs, ea, i);
        let p2 = ea_plus_code(ea, i);
        let p3 = seq![LoadGpr(string_register(rs, i))];
        let p4 = shifted_code(string_shift(i), I32ShrU);
        let p5 = seq![I32Const(0xFF), I32And, WriteU8];
        let word = m.sys.cpu.gpr[(rs + i / 4) % 32];
        lemma_bulk_bits(word, 0, 0, 0, 0, 0);
        lemma_signed(string_shift(i));
        lemma_signed(0xFF);
        run_in_pieces(p1, p2, m);
        lemma_ea_plus(ea, i, run(p1, m), addr);
        run_in_pieces(p1 + p2, p3, m);
        run_1(LoadGpr(string_register(rs, i)), run(p1 + p2, m));
        let m3 = run(p1 + p2 + p3, m);
        run_in_pieces(p1 + p2 + p3, p4, m);
        let m4 = run(p1 + p2 + p3 + p4, m);
        if string_shift(i) > 0 {
            run_2(I32Const(string_shift(i)), I32ShrU, m3);
        } else {
            assert(run(p4, m3) == m3);
        }
        run_in_pieces(p1 + p2 + p3 + p4, p5, m);
        run_3(I32Const(0xFF), I32And, WriteU8, m4);
    }
}

proof fn lemma_base(ins: Ins, ea: IrLocal, m: Machine)
    requires
        ready(m),
    ensures
        run(base_code(ins.gpr_a(), ea), m) == (Machine {
            locals: m.locals.insert(ea.index, Value::I32(m.sys.gpr_or_zero(ins.gpr_a()))),
            ..m
        }),
{
    broadcast use crate::ppcir::meaning::group_steps;

    lemma_signed(0);
    run_2(I32Const(0), LocalSet(ea), m);
    run_2(LoadGpr(ins.gpr_a()), LocalSet(ea), m);
}

/// A string store puts as many bytes as it says, 32 for none, at the address in the base
/// register, or at 0 for register 0.
pub proof fn strings_are_stored(ins: Ins, pc: u32, n: nat, m: Machine, k: int)
    requires
        ready(m),
        n <= MAX_LOCALS,
        ins.op is Stswi,
        0 <= k < m.sys.ram.len(),
        m.sys.gpr_or_zero(ins.gpr_a()) % 0x0200_0000 + 32 <= m.sys.ram.len(),
        m.sys.gpr_or_zero(ins.gpr_a()) % 0x0200_0000 + 32 <= 0x0200_0000,
    ensures
        ({
            let after = run(translate(ins, pc, n), m);
            let at = if ins.gpr_a() == 0 {
                0
            } else {
                m.sys.cpu.gpr[ins.gpr_a() as int] as int % 0x0200_0000
            };
            let len: int = if ins.field_nb() == 0 {
                32
            } else {
                ins.field_nb() as int
            };
            &&& ready(after)
            &&& after.sys == (SystemView { ram: after.sys.ram, ..m.sys })
            &&& after.sys.ram.len() == m.sys.ram.len()
            &&& after.sys.ram[k] == if at <= k < at + len {
                string_byte(m.sys.cpu.gpr, ins.gpr_s(), k - at)
            } else {
                m.sys.ram[k]
            }
        }),
{
    reveal(bulk_code);
    register_places(ins);
    let ea = local_at(n + 1, IrTy::I32);
    let addr = m.sys.gpr_or_zero(ins.gpr_a());
    let p1 = base_code(ins.gpr_a(), ea);
    let p2 = store_string_code(ins.gpr_s(), ea, string_length(ins));
    run_in_pieces(p1, p2, m);
    lemma_base(ins, ea, m);
    lemma_store_string(ins.gpr_s(), ea, string_length(ins), run(p1, m), addr);
    lemma_string_stored(m.sys, ins.gpr_s(), addr, string_length(ins), k);
}

/// What `count` bytes at `at` bring to the word that is number `j`: its bytes one after the
/// other, the most significant first, and zero for those that are not among them.
pub open spec fn string_word(ram: Seq<u8>, at: int, j: int, count: int) -> int {
    let first = at + 4 * j;
    (if 4 * j < count {
        0x100_0000 * ram[first]
    } else {
        0
    }) + (if 4 * j + 1 < count {
        0x1_0000 * ram[first + 1]
    } else {
        0
    }) + (if 4 * j + 2 < count {
        0x100 * ram[first + 2]
    } else {
        0
    }) + (if 4 * j + 3 < count {
        ram[first + 3] as int
    } else {
        0
    })
}

/// The registers with `words` of them, from `first` on and round from register 31 to
/// register 0, replaced by what `count` bytes at `at` bring.
pub open spec fn string_loaded(
    gpr: Seq<u32>,
    first: u8,
    words: int,
    ram: Seq<u8>,
    at: int,
    count: int,
) -> Seq<u32> {
    Seq::new(
        gpr.len(),
        |r: int|
            if (r - first) % 32 < words {
                string_word(ram, at, (r - first) % 32, count) as u32
            } else {
                gpr[r]
            },
    )
}

/// The guest with its registers replaced.
spec fn with_registers(sys: SystemView, gpr: Seq<u32>) -> SystemView {
    SystemView { cpu: CpuView { gpr, ..sys.cpu }, ..sys }
}

proof fn lemma_clear_registers(rd: u8, words: int, m: Machine, at: int)
    requires
        ready(m),
        rd < 32,
        0 <= words <= 8,
        m.sys.cpu.gpr.len() == 32,
    ensures
        run(clear_registers_code(rd, words), m) == (Machine {
            sys: with_registers(
                m.sys,
                string_loaded(m.sys.cpu.gpr, rd, words, m.sys.ram, at, 0),
            ),
            ..m
        }),
    decreases words,
{
    broadcast use crate::ppcir::meaning::group_steps;

    let gpr = m.sys.cpu.gpr;
    let now = string_loaded(gpr, rd, words, m.sys.ram, at, 0);
    if words > 0 {
        lemma_clear_registers(rd, words - 1, m, at);
        let before = string_loaded(gpr, rd, words - 1, m.sys.ram, at, 0);
        let reg = ((rd + words - 1) % 32) as u8;
        let p1 = clear_registers_code(rd, words - 1);
        run_in_pieces(p1, seq![I32Const(0), StoreGpr(reg)], m);
        lemma_signed(0);
        run_2(I32Const(0), StoreGpr(reg), run(p1, m));
        assert(before.update(reg as int, 0) =~= now);
    } else {
        assert(now =~= gpr);
    }
}

/// One more byte, ORed into the register that it belongs to.
proof fn lemma_next_byte(gpr: Seq<u32>, rd: u8, words: int, ram: Seq<u8>, at: int, i: int)
    requires
        rd < 32,
        0 <= i < 4 * words <= 32,
        gpr.len() == 32,
    ensures
        ({
            let before = string_loaded(gpr, rd, words, ram, at, i);
            let reg = (rd + i / 4) % 32;
            let byte = ram[at + i] as u32;
            let moved = if i % 4 == 3 {
                byte
            } else {
                byte << (((8 * (3 - i % 4)) as u32) & 31)
            };
            string_loaded(gpr, rd, words, ram, at, i + 1) == before.update(
                reg,
                moved | before[reg],
            )
        }),
{
    let before = string_loaded(gpr, rd, words, ram, at, i);
    let now = string_loaded(gpr, rd, words, ram, at, i + 1);
    let reg = (rd + i / 4) % 32;
    let byte = ram[at + i] as u32;
    assert((reg - rd) % 32 == i / 4);
    assert(before[reg] == string_word(ram, at, i / 4, i));
    lemma_bulk_bits(before[reg], byte, 0, 0, 0, 0);
    assert forall|r: int| 0 <= r < 32 && r != reg implies before[r] == now[r] by {
        assert((r - rd) % 32 != i / 4);
    }
    assert(now =~= before.update(reg, now[reg]));
}

proof fn lemma_byte_code(
    pre: Seq<IrInst>,
    rd: u8,
    ea: IrLocal,
    i: int,
    start: Machine,
    addr: u32,
)
    requires
        ready(run(pre, start)),
        run(pre, start).locals[ea.index] == Value::I32(addr),
        rd < 32,
        0 <= i < 32,
        addr % 0x0200_0000 + 32 <= 0x0200_0000,
        addr % 0x0200_0000 + 32 <= run(pre, start).sys.ram.len(),
    ensures
        ({
            let m = run(pre, start);
            let reg = string_register(rd, i);
            let code = pre + ea_plus_code(ea, i) + seq![ReadU8] + shifted_code(
                string_shift(i),
                I32Shl,
            ) + seq![LoadGpr(reg), I32Or, StoreGpr(reg)];
            let byte = m.sys.ram[addr as int % 0x0200_0000 + i] as u32;
            let moved = if i % 4 == 3 {
                byte
            } else {
                byte << (((8 * (3 - i % 4)) as u32) & 31)
            };
            run(code, start) == (Machine {
                sys: m.sys.with_gpr(reg, moved | m.sys.cpu.gpr[reg as int]),
                ..m
            })
        }),
{
    broadcast use crate::ppcir::meaning::group_steps;

    let m = run(pre, start);
    let reg = string_register(rd, i);
    let amount = string_shift(i);
    let at = addr as int % 0x0200_0000 + i;
    let p2 = ea_plus_code(ea, i);
    let p3 = seq![ReadU8];
    let p4 = shifted_code(amount, I32Shl);
    let p5 = seq![LoadGpr(reg), I32Or, StoreGpr(reg)];
    low_address(wrapped(addr + i));
    assert(wrapped(addr + i) as int % 0x0200_0000 == at);
    lemma_signed(amount);
    run_in_pieces(pre, p2, start);
    lemma_ea_plus(ea, i, m, addr);
    run_in_pieces(pre + p2, p3, start);
    run_1(ReadU8, run(pre + p2, start));
    let m3 = run(pre + p2 + p3, start);
    assert(m3 == m.pushed32(m.sys.ram[at] as u32));
    run_in_pieces(pre + p2 + p3, p4, start);
    if amount > 0 {
        run_2(I32Const(amount), I32Shl, m3);
    } else {
        assert(run(p4, m3) == m3);
    }
    run_in_pieces(pre + p2 + p3 + p4, p5, start);
    run_3(LoadGpr(reg), I32Or, StoreGpr(reg), run(pre + p2 + p3 + p4, start));
}

proof fn lemma_load_string(
    rd: u8,
    ea: IrLocal,
    words: int,
    count: int,
    m: Machine,
    addr: u32,
    gpr: Seq<u32>,
)
    requires
        ready(m),
        m.locals[ea.index] == Value::I32(addr),
        rd < 32,
        0 <= count <= 4 * words <= 32,
        gpr.len() == 32,
        addr % 0x0200_0000 + 32 <= 0x0200_0000,
        addr % 0x0200_0000 + 32 <= m.sys.ram.len(),
        m.sys.cpu.gpr == string_loaded(
            gpr,
            rd,
            words,
            m.sys.ram,
            addr as int % 0x0200_0000,
            0,
        ),
    ensures
        run(load_string_code(rd, ea, count), m) == (Machine {
            sys: with_registers(
                m.sys,
                string_loaded(gpr, rd, words, m.sys.ram, addr as int % 0x0200_0000, count),
            ),
            ..m
        }),
    decreases count,
{
    if count > 0 {
        let i = count - 1;
        lemma_load_string(rd, ea, words, i, m, addr, gpr);
        lemma_byte_code(load_string_code(rd, ea, i), rd, ea, i, m, addr);
        lemma_next_byte(gpr, rd, words, m.sys.ram, addr as int % 0x0200_0000, i);
    }
}

/// A string load replaces as many registers as its bytes fill, and clears what they leave
/// of the last one.
pub proof fn strings_are_loaded(ins: Ins, pc: u32, n: nat, m: Machine)
    requires
        ready(m),
        n <= MAX_LOCALS,
        ins.op is Lswi,
        m.sys.cpu.gpr.len() == 32,
        m.sys.gpr_or_zero(ins.gpr_a()) % 0x0200_0000 + 32 <= m.sys.ram.len(),
        m.sys.gpr_or_zero(ins.gpr_a()) % 0x0200_0000 + 32 <= 0x0200_0000,
    ensures
        ({
            let after = run(translate(ins, pc, n), m);
            let at = if ins.gpr_a() == 0 {
                0
            } else {
                m.sys.cpu.gpr[ins.gpr_a() as int] as int % 0x0200_0000
            };
            let len: int = if ins.field_nb() == 0 {
                32
            } else {
                ins.field_nb() as int
            };
            let gpr = string_loaded(
                m.sys.cpu.gpr,
                ins.gpr_d(),
                (len + 3) / 4,
                m.sys.ram,
                at,
                len,
            );
            &&& ready(after)
            &&& after.sys == (SystemView { cpu: CpuView { gpr, ..m.sys.cpu }, ..m.sys })
        }),
{
    reveal(bulk_code);
    register_places(ins);
    let ea = local_at(n + 1, IrTy::I32);
    let addr = m.sys.gpr_or_zero(ins.gpr_a());
    let len = string_length(ins);
    let words = (len + 3) / 4;
    let rd = ins.gpr_d();
    let p1 = base_code(ins.gpr_a(), ea);
    let p2 = clear_registers_code(rd, words);
    let p3 = load_string_code(rd, ea, len);
    run_in_pieces(p1, p2, m);
    lemma_base(ins, ea, m);
    lemma_clear_registers(rd, words, run(p1, m), addr as int % 0x0200_0000);
    run_in_pieces(p1 + p2, p3, m);
    lemma_load_string(rd, ea, words, len, run(p1 + p2, m), addr, m.sys.cpu.gpr);
}

/// The conditional store stores the word, and says in the first condition field that it did,
/// beside the summary overflow.
pub proof fn conditional_stores_succeed(ins: Ins, pc: u32, n: nat, m: Machine)
    requires
        ready(m),
        n <= MAX_LOCALS,
        ins.op is Stwcx_,
    ensures
        ({
            let after = run(translate(ins, pc, n), m);
            let cpu = m.sys.cpu;
            let cr = cpu.cr % 0x1000_0000 + 0x2000_0000 + 0x1000_0000 * (cpu.xer / 0x8000_0000);
            let base = if ins.gpr_a() == 0 {
                0
            } else {
                cpu.gpr[ins.gpr_a() as int] as int
            };
            let ea = (base + cpu.gpr[ins.gpr_b() as int]) % 0x1_0000_0000;
            let stored = m.sys.written32(ea as u32, cpu.gpr[ins.gpr_s() as int]);
            &&& ready(after)
            &&& after.sys == (SystemView { cpu: CpuView { cr: cr as u32, ..cpu }, ..stored })
        }),
{
    broadcast use crate::ppcir::meaning::group_steps;

    reveal(store_code);
    let so = local_at(n + 1, IrTy::I32);
    let mask = !(0xFu32 << 28u32);
    lemma_bulk_bits(0, 0, m.sys.cpu.cr, m.sys.cpu.xer, 0, 0);
    lemma_constant(mask);
    lemma_signed(31);
    lemma_signed(1);
    lemma_signed(28);
    lemma_signed(1i32 << 29u32);
    let p1 = ea_x_code(ins.gpr_a(), ins.gpr_b());
    let p2 = seq![LoadGpr(ins.gpr_s()), WriteU32];
    let p3 = seq![LoadXer, I32Const(31), I32ShrU, I32Const(1), I32And, LocalSet(so)];
    let p4 = seq![LoadCr, I32Const(mask as i32), I32And, I32Const(1i32 << 29u32), I32Or];
    let p5 = seq![LocalGet(so), I32Const(28), I32Shl, I32Or, StoreCr];
    lemma_ea_x(ins, m);
    run_in_pieces(p1, p2, m);
    run_2(LoadGpr(ins.gpr_s()), WriteU32, run(p1, m));
    let m2 = run(p1 + p2, m);
    run_in_pieces(p1 + p2, p3, m);
    run_6(LoadXer, I32Const(31), I32ShrU, I32Const(1), I32And, LocalSet(so), m2);
    let m3 = run(p1 + p2 + p3, m);
    run_in_pieces(p1 + p2 + p3, p4, m);
    run_5(LoadCr, I32Const(mask as i32), I32And, I32Const(1i32 << 29u32), I32Or, m3);
    let m4 = run(p1 + p2 + p3 + p4, m);
    run_in_pieces(p1 + p2 + p3 + p4, p5, m);
    run_5(LocalGet(so), I32Const(28), I32Shl, I32Or, StoreCr, m4);
}

proof fn lemma_flag_bits(cr: u32, xer: u32, field: u8, j: u32)
    requires
        field < 8,
        j < 8,
    ensures
        xer & !(7u32 << 29u32) == xer % 0x2000_0000,
        (moved_flags(cr, xer, field) >> ((28 - 4 * j) as u32)) & 0xF == if j == field {
            2 * (xer / 0x2000_0000)
        } else {
            ((cr >> ((28 - 4 * j) as u32)) & 0xF) as int
        },
{
    lemma_bulk_bits(xer & (7u32 << 29u32), 0, cr, xer, field as u32, j);
}

/// Condition field `field` replaced by the flags of XER.
spec fn moved_flags(cr: u32, xer: u32, field: u8) -> u32 {
    let flags = xer & (7u32 << 29u32);
    (cr & !(0xFu32 << so_position(field))) | (if field == 0 {
        flags
    } else {
        flags >> (((4 * field) as u32) & 31)
    })
}

proof fn lemma_mcrxr(ins: Ins, n: nat, m: Machine)
    requires
        ready(m),
        ins.op is Mcrxr,
        n <= MAX_LOCALS,
        ins.field_crfd() < 8,
    ensures
        ({
            let after = run(system_code(ins, n), m);
            let (cr, xer) = (m.sys.cpu.cr, m.sys.cpu.xer);
            &&& ready(after)
            &&& after.sys == m.sys.with_xer(xer & !(7u32 << 29u32)).with_cr(
                moved_flags(cr, xer, ins.field_crfd()),
            )
        }),
{
    broadcast use crate::ppcir::meaning::group_steps;

    reveal(system_code);
    let loc = local_at(n + 1, IrTy::I32);
    let field = ins.field_crfd();
    let (keep, flags) = (!(7u32 << 29u32), 7u32 << 29u32);
    let clear = !(0xFu32 << so_position(field));
    lemma_constant(keep);
    lemma_constant(flags);
    lemma_constant(clear);
    lemma_signed((4 * field) as i32);
    let p1 = seq![LoadXer, LocalTee(loc), I32Const(keep as i32), I32And, StoreXer];
    let p2 = cleared_field_code(field);
    let p3 = seq![LocalGet(loc), I32Const(flags as i32), I32And];
    let p4 = shifted_code((4 * field) as i32, I32ShrU);
    let p5 = seq![I32Or, StoreCr];
    run_5(LoadXer, LocalTee(loc), I32Const(keep as i32), I32And, StoreXer, m);
    let m1 = run(p1, m);
    run_in_pieces(p1, p2, m);
    run_3(LoadCr, I32Const(clear as i32), I32And, m1);
    let m2 = run(p1 + p2, m);
    run_in_pieces(p1 + p2, p3, m);
    run_3(LocalGet(loc), I32Const(flags as i32), I32And, m2);
    let m3 = run(p1 + p2 + p3, m);
    run_in_pieces(p1 + p2 + p3, p4, m);
    if field > 0 {
        run_2(I32Const((4 * field) as i32), I32ShrU, m3);
    } else {
        assert(run(p4, m3) == m3);
    }
    let m4 = run(p1 + p2 + p3 + p4, m);
    run_in_pieces(p1 + p2 + p3 + p4, p5, m);
    run_2(I32Or, StoreCr, m4);
}

proof fn lemma_mfsr(ins: Ins, n: nat, m: Machine)
    requires
        ready(m),
        ins.op is Mfsr,
    ensures
        run(system_code(ins, n), m) == (Machine { sys: m.sys.with_gpr(ins.gpr_d(), 0), ..m }),
{
    broadcast use crate::ppcir::meaning::group_steps;

    reveal(system_code);
    lemma_signed(0);
    run_2(I32Const(0), StoreGpr(ins.gpr_d()), m);
}

/// The flags of XER are moved to a condition field, from which the lowest bit is missing, and
/// cleared. Segment registers read as zero.
pub proof fn flags_are_moved(ins: Ins, pc: u32, n: nat, m: Machine, j: u32)
    requires
        ready(m),
        n <= MAX_LOCALS,
        ins.op is Mcrxr || ins.op is Mfsr,
        j < 8,
    ensures
        ({
            let after = run(translate(ins, pc, n), m);
            let (cpu, now) = (m.sys.cpu, after.sys.cpu);
            &&& ready(after)
            &&& if ins.op is Mfsr {
                after.sys == m.sys.with_gpr(ins.gpr_d(), 0)
            } else {
                &&& after.sys == m.sys.with_xer(now.xer).with_cr(now.cr)
                &&& now.xer == cpu.xer % 0x2000_0000
                &&& (now.cr >> ((28 - 4 * j) as u32)) & 0xF == if j == ins.field_crfd() {
                    2 * (cpu.xer / 0x2000_0000)
                } else {
                    ((cpu.cr >> ((28 - 4 * j) as u32)) & 0xF) as int
                }
            }
        }),
{
    if ins.op is Mfsr {
        lemma_mfsr(ins, n, m);
    } else {
        register_places(ins);
        lemma_mcrxr(ins, n, m);
        lemma_flag_bits(m.sys.cpu.cr, m.sys.cpu.xer, ins.field_crfd(), j);
    }
}

proof fn lemma_raise(vector: i32, m: Machine)
    requires
        m.exit is None,
    ensures
        step(RaiseException(vector), m) == m,
{
    reveal(step);
}

/// A system call leaves its own address in the program counter and raises the exception at
/// 0xC00. A word that is no instruction is passed over: the guest goes on behind it.
pub proof fn blocks_are_left(ins: Ins, pc: u32, n: nat, m: Machine)
    requires
        ready(m),
        ins.op is Sc || ins.op is Illegal || ins.op is Other,
    ensures
        ({
            let code = translate(ins, pc, n);
            let after = run(code, m);
            if ins.op is Sc {
                &&& code.last() == RaiseException(0xC00)
                &&& ready(after)
                &&& after.sys == m.sys.with_pc(pc)
            } else {
                &&& after.exit == Some(((pc + 4) % 0x1_0000_0000) as u32)
                &&& after.sys == m.sys
            }
        }),
{
    broadcast use crate::ppcir::meaning::group_steps;

    reveal(leave_code);
    lemma_bits(0, 0, pc, 0, 0);
    if ins.op is Sc {
        let call = seq![I32Const(pc as i32), StorePC, RaiseException(0xC00)];
        assert(translate(ins, pc, n) == call);
        assert(call.last() == RaiseException(0xC00));
        run_3(I32Const(pc as i32), StorePC, RaiseException(0xC00), m);
        lemma_raise(0xC00, Machine { sys: m.sys.with_pc(pc), ..m });
    } else {
        run_1(ReturnStatic(next_pc(pc)), m);
    }
}

} // verus!
