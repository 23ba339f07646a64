//! Logical operations, rotates and shifts.

use vstd::prelude::*;

use super::compare::store_result;
use super::system::{
    bit, nibble, put_bit, test_bit, with_bit, with_field, CpuView, System, SystemView, XER_CA,
};
use crate::bytes::{be32, word_be};
use crate::disasm::Ins;
use crate::ppcir::translate::rotate_mask;

verus! {

/// `rs | uimm` in `ra`.
pub fn ori(ins: Ins, sys: &mut System)
    ensures
        final(sys)@ == old(sys)@.with_gpr(
            ins.gpr_a(),
            old(sys)@.gpr(ins.gpr_s()) | (ins.field_uimm() as u32),
        ),
{
    proof {
        ins.lemma_register_fields();
    }
    let s: u32 = sys.gpr(ins.gpr_s());
    sys.set_gpr(ins.gpr_a(), s | (ins.field_uimm() as u32));
}

/// `rs | rb` in `ra`.
pub fn or(ins: Ins, sys: &mut System)
    ensures
        final(sys)@ == old(sys)@.with_gpr(
            ins.gpr_a(),
            old(sys)@.gpr(ins.gpr_s()) | old(sys)@.gpr(ins.gpr_b()),
        ),
{
    proof {
        ins.lemma_register_fields();
    }
    let s: u32 = sys.gpr(ins.gpr_s());
    let b: u32 = sys.gpr(ins.gpr_b());
    sys.set_gpr(ins.gpr_a(), s | b);
}

/// Mask with ones from bit `mb` through bit `me`, counted from the most
/// significant; it wraps round where `mb` is greater.
pub fn ppc_mask(mb: u32, me: u32) -> (mask: u32)
    ensures
        mask == rotate_mask(mb & 31, me & 31),
{
    proof {
        lemma_five_bits(mb);
        lemma_five_bits(me);
    }
    crate::ppcir::decode::ppc_mask(mb & 31, me & 31)
}

/// `word` rotated left by `count` bits.
pub open spec fn rotated(word: u32, count: u8) -> u32 {
    if count == 0 {
        word
    } else {
        (word << (count as u32)) | (word >> ((32 - count) as u32))
    }
}

/// Bit `i` of a rotated word is the bit that stood `count` places lower.
pub proof fn rotate_moves_bits(word: u32, count: u8, i: u32)
    requires
        count < 32,
        i < 32,
    ensures
        bit(rotated(word, count), i) == bit(word, ((i + 32 - count) % 32) as u32),
{
    let n = count as u32;
    assert(n < 32 && i < 32 ==> ((((if n == 0 {
        word
    } else {
        (word << n) | (word >> ((32 - n) as u32))
    }) >> i) & 1 != 0) == ((word >> (((i + 32 - n) % 32) as u32)) & 1 != 0))) by (bit_vector);
}

fn rotate(word: u32, count: u8) -> (result: u32)
    requires
        count < 32,
    ensures
        result == rotated(word, count),
{
    if count == 0 {
        word
    } else {
        (word << (count as u32)) | (word >> (32 - count as u32))
    }
}

/// The mask that a rotate instruction names.
pub open spec fn mask_of(ins: Ins) -> u32 {
    rotate_mask(ins.field_mb() as u32, ins.field_me() as u32)
}

fn field_mask(ins: Ins) -> (mask: u32)
    ensures
        mask == mask_of(ins),
{
    proof {
        ins.lemma_register_fields();
        lemma_five_bits(ins.field_mb() as u32);
        lemma_five_bits(ins.field_me() as u32);
    }
    ppc_mask(ins.field_mb() as u32, ins.field_me() as u32)
}

/// `rs` rotated and masked in `ra`.
pub fn rlwinm(ins: Ins, sys: &mut System)
    ensures
        final(sys)@ == old(sys)@.stored(
            ins.gpr_a(),
            rotated(old(sys)@.gpr(ins.gpr_s()), ins.field_sh()) & mask_of(ins),
            ins.field_rc(),
        ),
{
    proof {
        ins.lemma_register_fields();
    }
    let s: u32 = sys.gpr(ins.gpr_s());
    let result: u32 = rotate(s, ins.field_sh()) & field_mask(ins);
    store_result(sys, ins.gpr_a(), result, ins.field_rc());
}

/// `rs` rotated and inserted under the mask in `ra`.
pub fn rlwimi(ins: Ins, sys: &mut System)
    ensures
        final(sys)@ == old(sys)@.stored(
            ins.gpr_a(),
            (old(sys)@.gpr(ins.gpr_a()) & !mask_of(ins)) | (rotated(
                old(sys)@.gpr(ins.gpr_s()),
                ins.field_sh(),
            ) & mask_of(ins)),
            ins.field_rc(),
        ),
{
    proof {
        ins.lemma_register_fields();
    }
    let a: u32 = sys.gpr(ins.gpr_a());
    let s: u32 = sys.gpr(ins.gpr_s());
    let mask: u32 = field_mask(ins);
    let result: u32 = (a & !mask) | (rotate(s, ins.field_sh()) & mask);
    store_result(sys, ins.gpr_a(), result, ins.field_rc());
}

/// `rs & uimm` in `ra`; the sign is recorded if bit 0 of the word is set.
pub fn andi_(ins: Ins, sys: &mut System)
    ensures
        final(sys)@ == old(sys)@.stored(
            ins.gpr_a(),
            old(sys)@.gpr(ins.gpr_s()) & (ins.field_uimm() as u32),
            ins.field_rc(),
        ),
{
    proof {
        ins.lemma_register_fields();
    }
    let s: u32 = sys.gpr(ins.gpr_s());
    store_result(sys, ins.gpr_a(), s & (ins.field_uimm() as u32), ins.field_rc());
}

/// `rs ^ (uimm << 16)` in `ra`.
pub fn xoris(ins: Ins, sys: &mut System)
    ensures
        final(sys)@ == old(sys)@.with_gpr(
            ins.gpr_a(),
            old(sys)@.gpr(ins.gpr_s()) ^ ((ins.field_uimm() as u32) << 16),
        ),
{
    proof {
        ins.lemma_register_fields();
    }
    let s: u32 = sys.gpr(ins.gpr_s());
    sys.set_gpr(ins.gpr_a(), s ^ ((ins.field_uimm() as u32) << 16));
}

/// `!(rs | rb)` in `ra`.
pub fn nor(ins: Ins, sys: &mut System)
    ensures
        final(sys)@ == old(sys)@.stored(
            ins.gpr_a(),
            !(old(sys)@.gpr(ins.gpr_s()) | old(sys)@.gpr(ins.gpr_b())),
            ins.field_rc(),
        ),
{
    proof {
        ins.lemma_register_fields();
    }
    let s: u32 = sys.gpr(ins.gpr_s());
    let b: u32 = sys.gpr(ins.gpr_b());
    store_result(sys, ins.gpr_a(), !(s | b), ins.field_rc());
}

/// `word` with its bytes in the opposite order.
pub open spec fn swapped(word: u32) -> u32 {
    be32(word as u8, (word >> 8) as u8, (word >> 16) as u8, (word >> 24) as u8)
}

fn swap_bytes(word: u32) -> (result: u32)
    ensures
        result == swapped(word),
{
    word_be(word as u8, (word >> 8) as u8, (word >> 16) as u8, (word >> 24) as u8)
}

/// The exclusive or of two condition bits in a third.
pub fn crxor(ins: Ins, sys: &mut System)
    ensures
        final(sys)@ == old(sys)@.condition_bits_combined(ins),
{
    proof {
        ins.lemma_register_fields();
    }
    let cr: u32 = swap_bytes(sys.cpu.cr);
    let a: bool = test_bit(cr, 31 - ins.field_crba() as u32);
    let b: bool = test_bit(cr, 31 - ins.field_crbb() as u32);
    sys.cpu.cr = swap_bytes(put_bit(cr, 31 - ins.field_crbd() as u32, a != b));
}

/// `rs & rb` in `ra`.
pub fn and(ins: Ins, sys: &mut System)
    ensures
        final(sys)@ == old(sys)@.stored(
            ins.gpr_a(),
            old(sys)@.gpr(ins.gpr_s()) & old(sys)@.gpr(ins.gpr_b()),
            ins.field_rc(),
        ),
{
    proof {
        ins.lemma_register_fields();
    }
    let s: u32 = sys.gpr(ins.gpr_s());
    let b: u32 = sys.gpr(ins.gpr_b());
    store_result(sys, ins.gpr_a(), s & b, ins.field_rc());
}

/// `(ra or 0) | (uimm << 16)` in `rd`.
pub fn oris(ins: Ins, sys: &mut System)
    ensures
        final(sys)@ == old(sys)@.with_gpr(
            ins.gpr_d(),
            old(sys)@.gpr_or_zero(ins.gpr_a()) | ((ins.field_uimm() as u32) << 16),
        ),
{
    proof {
        ins.lemma_register_fields();
    }
    let a: u32 = sys.gpr_or_zero(ins.gpr_a());
    sys.set_gpr(ins.gpr_d(), a | ((ins.field_uimm() as u32) << 16));
}

/// Whether bit `n` of the floating-point status can be set by `mtfsb1`.
pub open spec fn settable(n: u8) -> bool {
    2 <= n <= 10 || 17 <= n <= 28
}

impl SystemView {
    /// What the exclusive or of two condition bits leaves. The bits are numbered
    /// from the most significant of the register with its bytes in the opposite
    /// order.
    pub open spec fn condition_bits_combined(self, ins: Ins) -> SystemView {
        let cr = swapped(self.cpu.cr);
        let set = bit(cr, (31 - ins.field_crba()) as u32) != bit(
            cr,
            (31 - ins.field_crbb()) as u32,
        );
        self.with_cr(swapped(with_bit(cr, (31 - ins.field_crbd()) as u32, set)))
    }

    /// What an arithmetic shift leaves: only the low five bits of the count
    /// matter, and the carry says whether a one was shifted out.
    pub open spec fn shifted_right(self, ins: Ins) -> SystemView {
        let s = self.gpr(ins.gpr_s());
        let n = self.gpr(ins.gpr_b()) & 0x1F;
        let carry = exists|i: u32| i < n && #[trigger] bit(s, i);
        self.with_xer(with_bit(self.cpu.xer, XER_CA, carry)).stored(
            ins.gpr_a(),
            ((s as i32) >> n) as u32,
            ins.field_rc(),
        )
    }

    /// What setting bit `crbd` of the floating-point status leaves. If the
    /// instruction records, the exception summary goes to the second condition
    /// field from the right.
    pub open spec fn status_bit_set(self, ins: Ins) -> SystemView {
        let fpscr = if settable(ins.field_crbd()) {
            with_bit(self.cpu.fpscr, ins.field_crbd() as u32, true)
        } else {
            self.cpu.fpscr
        };
        let done = SystemView { cpu: CpuView { fpscr, ..self.cpu }, ..self };
        let summary = bit(fpscr, 31);
        if ins.field_rc() {
            done.with_cr(with_field(done.cpu.cr, 4, nibble(summary, false, !summary, false)))
        } else {
            done
        }
    }
}

/// Sets a bit of the floating-point status.
pub fn mtfsb1(ins: Ins, sys: &mut System)
    ensures
        final(sys)@ == old(sys)@.status_bit_set(ins),
{
    proof {
        ins.lemma_register_fields();
    }
    let n: u8 = ins.field_crbd();
    if (2 <= n && n <= 10) || (17 <= n && n <= 28) {
        sys.cpu.fpscr = put_bit(sys.cpu.fpscr, n as u32, true);
    }
    if ins.field_rc() {
        let summary: bool = test_bit(sys.cpu.fpscr, 31);
        sys.set_field(4, summary, false, !summary, false);
    }
}

/// `rs & !rb` in `ra`.
pub fn andc(ins: Ins, sys: &mut System)
    ensures
        final(sys)@ == old(sys)@.stored(
            ins.gpr_a(),
            old(sys)@.gpr(ins.gpr_s()) & !old(sys)@.gpr(ins.gpr_b()),
            ins.field_rc(),
        ),
{
    proof {
        ins.lemma_register_fields();
    }
    let s: u32 = sys.gpr(ins.gpr_s());
    let b: u32 = sys.gpr(ins.gpr_b());
    store_result(sys, ins.gpr_a(), s & !b, ins.field_rc());
}

/// The number of leading zeros of `rs` in `ra`.
pub fn cntlzw(ins: Ins, sys: &mut System)
    ensures
        final(sys)@ == old(sys)@.stored(
            ins.gpr_a(),
            old(sys)@.gpr(ins.gpr_s()).leading_zeros(),
            ins.field_rc(),
        ),
{
    proof {
        ins.lemma_register_fields();
    }
    let s: u32 = sys.gpr(ins.gpr_s());
    store_result(sys, ins.gpr_a(), s.leading_zeros(), ins.field_rc());
}

/// `rs ^ rb` in `ra`.
pub fn xor(ins: Ins, sys: &mut System)
    ensures
        final(sys)@ == old(sys)@.stored(
            ins.gpr_a(),
            old(sys)@.gpr(ins.gpr_s()) ^ old(sys)@.gpr(ins.gpr_b()),
            ins.field_rc(),
        ),
{
    proof {
        ins.lemma_register_fields();
    }
    let s: u32 = sys.gpr(ins.gpr_s());
    let b: u32 = sys.gpr(ins.gpr_b());
    store_result(sys, ins.gpr_a(), s ^ b, ins.field_rc());
}

/// `rs << rb` in `ra`; only the low five bits of `rb` count.
pub fn slw(ins: Ins, sys: &mut System)
    ensures
        final(sys)@ == old(sys)@.with_gpr(
            ins.gpr_a(),
            old(sys)@.gpr(ins.gpr_s()) << (old(sys)@.gpr(ins.gpr_b()) & 0x1F),
        ),
{
    proof {
        ins.lemma_register_fields();
    }
    let s: u32 = sys.gpr(ins.gpr_s());
    let b: u32 = sys.gpr(ins.gpr_b());
    proof {
        lemma_five_bits(b);
    }
    sys.set_gpr(ins.gpr_a(), s << (b & 0x1F));
}

/// The low five bits of a word are less than the width of a word, and all of it if it
/// is.
proof fn lemma_five_bits(b: u32)
    ensures
        b & 0x1F < 32,
        b < 32 ==> b & 0x1F == b,
{
    assert(b & 0x1F < 32 && (b < 32 ==> b & 0x1F == b)) by (bit_vector);
}

/// `rs >> rb`, arithmetic, in `ra`, with carry.
pub fn sraw(ins: Ins, sys: &mut System)
    ensures
        final(sys)@ == old(sys)@.shifted_right(ins),
{
    proof {
        ins.lemma_register_fields();
    }
    let s: u32 = sys.gpr(ins.gpr_s());
    let b: u32 = sys.gpr(ins.gpr_b());
    proof {
        lemma_five_bits(b);
    }
    let n: u32 = b & 0x1F;
    let carry: bool = low_bits_set(s, n);
    sys.cpu.xer = put_bit(sys.cpu.xer, XER_CA, carry);
    store_result(sys, ins.gpr_a(), ((s as i32) >> n) as u32, ins.field_rc());
}

/// Whether one of the low `n` bits of `word` is set.
fn low_bits_set(word: u32, n: u32) -> (set: bool)
    requires
        n < 32,
    ensures
        set == exists|i: u32| i < n && #[trigger] bit(word, i),
{
    proof {
        lemma_low_bits(word, n);
    }
    word & ((1u32 << n) - 1) != 0
}

proof fn lemma_low_bit(word: u32, n: u32, m: u32)
    by (bit_vector)
    ensures
        n < 32 ==> 1u32 << n > 0,
        word & (((1u32 << 0) - 1) as u32) == 0,
        n < 32 && n > 0 && m == n - 1 ==> ((word & (((1u32 << n) - 1) as u32) != 0) <==> ((word
            & (((1u32 << m) - 1) as u32) != 0) || (word >> m) & 1 != 0)),
{
}

/// The low bits of a word are masked to zero where none of them is set.
proof fn lemma_low_bits(word: u32, n: u32)
    requires
        n < 32,
    ensures
        1u32 << n > 0,
        word & (((1u32 << n) - 1) as u32) != 0 <==> exists|i: u32|
            i < n && #[trigger] bit(word, i),
    decreases n,
{
    lemma_low_bit(word, n, 0);
    if n > 0 {
        let m = (n - 1) as u32;
        lemma_low_bits(word, m);
        lemma_low_bit(word, n, m);
        assert((word >> m) & 1 != 0 <==> bit(word, m));
    }
}

} // verus!
