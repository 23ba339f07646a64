//! Translation of instructions to the intermediate representation.

use lazuli::disasm::{Extensions, Ins};
use lazuli::ppcir::decode::ppc_mask;
use lazuli::ppcir::{Decoder, IrBlock, IrInst};

fn ins(code: u32) -> Ins { Ins::new(code, Extensions::gekko_broadway()) }

#[test]
fn ppc_mask_full() { assert_eq!(ppc_mask(0,31), 0xFFFF_FFFF); }
#[test]
fn ppc_mask_low_byte() { assert_eq!(ppc_mask(24,31), 0xFF); }
#[test]
fn decode_empty() { assert!(Decoder::new().decode(&[]).is_err()); }
#[test]
fn decode_addi_ok() {
    let b = Decoder::new().decode(&[(0x8000_0000u32, ins(0x3860_002A))]).unwrap();
    assert_eq!(b.instruction_count, 1);
    assert!(b.unimplemented_ops.is_empty());
}
#[test]
fn decode_branch_terminal() {
    let b = Decoder::new().decode(&[(0x8000_0000u32, ins(0x4800_0010)), (0x8000_0004u32,
        ins(0x3860_0001))]).unwrap();
    assert_eq!(b.instruction_count, 1);
}
#[test]
fn decode_mtmsr_terminal() {
    let b = Decoder::new().decode(&[(0x8000_0000u32, ins(0x7C60_0124)), (0x8000_0004u32,
        ins(0x3860_0001))]).unwrap();
    assert_eq!(b.instruction_count, 1);
    assert!(b.unimplemented_ops.is_empty());
}
#[test]
fn decode_fadd_ok() {
    let b = Decoder::new().decode(&[(0x8000_0000u32, ins(0xFC22_082A))]).unwrap();
    assert!(b.unimplemented_ops.is_empty(), "{:?}", b.unimplemented_ops);
}
#[test]
fn decode_lfs_ok() {
    let b = Decoder::new().decode(&[(0x8000_0000u32, ins(0xC023_0000))]).unwrap();
    assert!(b.unimplemented_ops.is_empty(), "{:?}", b.unimplemented_ops);
}
#[test]
fn decode_fmadd_ok() {
    let b = Decoder::new().decode(&[(0x8000_0000u32, ins(0xFC22_21FA))]).unwrap();
    assert!(b.unimplemented_ops.is_empty(), "{:?}", b.unimplemented_ops);
}

fn encode_mtspr(spr: u32) -> u32 {
    let lo = spr & 0x1F;
    let hi = (spr >> 5) & 0x1F;
    0x7C00_0000 | (3 << 21) | (lo << 16) | (hi << 11) | (467 << 1)
}

fn encode_mfspr(spr: u32) -> u32 {
    let lo = spr & 0x1F;
    let hi = (spr >> 5) & 0x1F;
    0x7C00_0000 | (3 << 21) | (lo << 16) | (hi << 11) | (339 << 1)
}

fn check_spr_no_unimpl(spr: u32, mtspr: bool) {
    let code = if mtspr { encode_mtspr(spr) } else { encode_mfspr(spr) };
    let b = Decoder::new().decode(&[(0x8000_0000u32, ins(code))]).unwrap();
    assert!(
        b.unimplemented_ops.is_empty(),
        "SPR {} ({}) produced unimplemented ops: {:?}",
        spr,
        if mtspr { "mtspr" } else { "mfspr" },
        b.unimplemented_ops,
    );
}

fn check_mtspr_no_unimpl(spr: u32) { check_spr_no_unimpl(spr, true); }
fn check_mfspr_no_unimpl(spr: u32) { check_spr_no_unimpl(spr, false); }

#[test]
fn mtspr_xer_no_unimpl()   { check_mtspr_no_unimpl(1); }
#[test]
fn mtspr_lr_no_unimpl()    { check_mtspr_no_unimpl(8); }
#[test]
fn mtspr_ctr_no_unimpl()   { check_mtspr_no_unimpl(9); }
#[test]
fn mtspr_dec_no_unimpl()   { check_mtspr_no_unimpl(22); }
#[test]
fn mtspr_srr0_no_unimpl()  { check_mtspr_no_unimpl(26); }
#[test]
fn mtspr_srr1_no_unimpl()  { check_mtspr_no_unimpl(27); }
#[test]
fn mtspr_sprg0_no_unimpl() { check_mtspr_no_unimpl(272); }
#[test]
fn mtspr_sprg1_no_unimpl() { check_mtspr_no_unimpl(273); }
#[test]
fn mtspr_sprg2_no_unimpl() { check_mtspr_no_unimpl(274); }
#[test]
fn mtspr_sprg3_no_unimpl() { check_mtspr_no_unimpl(275); }

#[test]
fn mfspr_xer_no_unimpl()   { check_mfspr_no_unimpl(1); }
#[test]
fn mfspr_lr_no_unimpl()    { check_mfspr_no_unimpl(8); }
#[test]
fn mfspr_ctr_no_unimpl()   { check_mfspr_no_unimpl(9); }
#[test]
fn mfspr_dec_no_unimpl()   { check_mfspr_no_unimpl(22); }
#[test]
fn mfspr_srr0_no_unimpl()  { check_mfspr_no_unimpl(26); }
#[test]
fn mfspr_srr1_no_unimpl()  { check_mfspr_no_unimpl(27); }
#[test]
fn mfspr_sprg0_no_unimpl() { check_mfspr_no_unimpl(272); }
#[test]
fn mfspr_sprg1_no_unimpl() { check_mfspr_no_unimpl(273); }
#[test]
fn mfspr_sprg2_no_unimpl() { check_mfspr_no_unimpl(274); }
#[test]
fn mfspr_sprg3_no_unimpl() { check_mfspr_no_unimpl(275); }

fn ir_contains(block: &IrBlock, variant: fn(&IrInst) -> bool) -> bool {
    block.insts.iter().any(variant)
}

#[test]
fn mtspr_lr_emits_store_lr() {
    let b = Decoder::new().decode(&[(0x8000_0000u32, ins(0x7C68_03A6))]).unwrap();
    assert!(ir_contains(&b, |i| matches!(i, IrInst::StoreLr)),
        "mtspr LR must emit StoreLr; IR: {:?}", b.insts);
}

#[test]
fn mfspr_lr_emits_load_lr() {
    let b = Decoder::new().decode(&[(0x8000_0000u32, ins(0x7C68_02A6))]).unwrap();
    assert!(ir_contains(&b, |i| matches!(i, IrInst::LoadLr)),
        "mfspr LR must emit LoadLr; IR: {:?}", b.insts);
}

#[test]
fn mtspr_ctr_emits_store_ctr() {
    let b = Decoder::new().decode(&[(0x8000_0000u32, ins(0x7C69_03A6))]).unwrap();
    assert!(ir_contains(&b, |i| matches!(i, IrInst::StoreCtr)),
        "mtspr CTR must emit StoreCtr; IR: {:?}", b.insts);
}

#[test]
fn mfspr_ctr_emits_load_ctr() {
    let b = Decoder::new().decode(&[(0x8000_0000u32, ins(0x7C69_02A6))]).unwrap();
    assert!(ir_contains(&b, |i| matches!(i, IrInst::LoadCtr)),
        "mfspr CTR must emit LoadCtr; IR: {:?}", b.insts);
}

#[test]
fn mtspr_dec_emits_store_dec() {
    let b = Decoder::new().decode(&[(0x8000_0000u32, ins(0x7C76_03A6))]).unwrap();
    assert!(ir_contains(&b, |i| matches!(i, IrInst::StoreDec)),
        "mtspr DEC must emit StoreDec; IR: {:?}", b.insts);
}

#[test]
fn mtspr_srr0_emits_store_srr0() {
    let b = Decoder::new().decode(&[(0x8000_0000u32, ins(0x7C7A_03A6))]).unwrap();
    assert!(ir_contains(&b, |i| matches!(i, IrInst::StoreSrr0)),
        "mtspr SRR0 must emit StoreSrr0; IR: {:?}", b.insts);
}

#[test]
fn mtspr_srr1_emits_store_srr1() {
    let b = Decoder::new().decode(&[(0x8000_0000u32, ins(0x7C7B_03A6))]).unwrap();
    assert!(ir_contains(&b, |i| matches!(i, IrInst::StoreSrr1)),
        "mtspr SRR1 must emit StoreSrr1; IR: {:?}", b.insts);
}

#[test]
fn mfspr_srr1_emits_load_srr1() {
    let b = Decoder::new().decode(&[(0x8000_0000u32, ins(0x7C7B_02A6))]).unwrap();
    assert!(ir_contains(&b, |i| matches!(i, IrInst::LoadSrr1)),
        "mfspr SRR1 must emit LoadSrr1; IR: {:?}", b.insts);
}

#[test]
fn mtspr_sprg0_emits_store_sprg0() {
    let b = Decoder::new().decode(&[(0x8000_0000u32, ins(0x7C70_43A6))]).unwrap();
    assert!(ir_contains(&b, |i| matches!(i, IrInst::StoreSprg(0))),
        "mtspr SPRG0 must emit StoreSprg(0); IR: {:?}", b.insts);
}

#[test]
fn mfspr_sprg0_emits_load_sprg0() {
    let b = Decoder::new().decode(&[(0x8000_0000u32, ins(0x7C70_42A6))]).unwrap();
    assert!(ir_contains(&b, |i| matches!(i, IrInst::LoadSprg(0))),
        "mfspr SPRG0 must emit LoadSprg(0); IR: {:?}", b.insts);
}

#[test]
fn mtspr_not_lr_must_not_store_lr() {
    let b = Decoder::new().decode(&[(0x8000_0000u32, ins(0x7C69_03A6))]).unwrap();
    assert!(!ir_contains(&b, |i| matches!(i, IrInst::StoreLr)),
        "mtspr CTR must not emit StoreLr; IR: {:?}", b.insts);
}

#[test]
fn mtspr_sprg0_must_not_store_lr() {
    let b = Decoder::new().decode(&[(0x8000_0000u32, ins(0x7C70_43A6))]).unwrap();
    assert!(!ir_contains(&b, |i| matches!(i, IrInst::StoreLr)),
        "mtspr SPRG0 must not emit StoreLr; IR: {:?}", b.insts);
}

#[test]
fn mflr_mtlr_round_trip_ir() {
    let b = Decoder::new()
        .decode(&[
            (0x8000_0000u32, ins(0x7C68_02A6)),
            (0x8000_0004u32, ins(0x7C68_03A6)),
        ])
        .unwrap();
    assert_eq!(b.instruction_count, 2);
    assert!(b.unimplemented_ops.is_empty());
    assert!(ir_contains(&b, |i| matches!(i, IrInst::LoadLr)),
        "mflr must emit LoadLr; IR: {:?}", b.insts);
    assert!(ir_contains(&b, |i| matches!(i, IrInst::StoreLr)),
        "mtlr must emit StoreLr; IR: {:?}", b.insts);
}

#[test]
fn os_srr1_ee_setup_no_unimpl() {
    let seq = [
        (0x8000_0000u32, ins(0x7C7B_02A6)),
        (0x8000_0004u32, ins(0x6063_8000)),
        (0x8000_0008u32, ins(0x7C7B_03A6)),
        (0x8000_000Cu32, ins(0x4E80_0020)),
    ];
    let b = Decoder::new().decode(&seq).unwrap();
    assert!(b.unimplemented_ops.is_empty(),
        "OS SRR1 EE-setup sequence must have no unimplemented ops: {:?}",
        b.unimplemented_ops);
    assert!(ir_contains(&b, |i| matches!(i, IrInst::LoadSrr1)),
        "Must emit LoadSrr1");
    assert!(ir_contains(&b, |i| matches!(i, IrInst::StoreSrr1)),
        "Must emit StoreSrr1");
}

#[test]
fn os_dispatch_mtspr_lr_before_bclr_no_unimpl() {
    let seq = [
        (0x8000_0000u32, ins(0x7C68_03A6)),
        (0x8000_0004u32, ins(0x4E80_0020)),
    ];
    let b = Decoder::new().decode(&seq).unwrap();
    assert_eq!(b.instruction_count, 2,
        "mtlr + blr should be 2 instructions");
    assert!(b.unimplemented_ops.is_empty());
    assert!(ir_contains(&b, |i| matches!(i, IrInst::StoreLr)),
        "mtspr LR must emit StoreLr before bclr; IR: {:?}", b.insts);
}

#[test]
fn bcctr_unconditional_no_ctr_decrement() {
    let b = Decoder::new().decode(&[(0x8000_0000u32, ins(0x4E80_0420))]).unwrap();
    assert!(!ir_contains(&b, |i| matches!(i, IrInst::StoreCtr)),
        "bcctr must not decrement CTR; IR: {:?}", b.insts);
}

#[test]
fn bcctr_invalid_bo_no_ctr_decrement() {
    let b = Decoder::new().decode(&[(0x8000_0000u32, ins(0x4E00_0420))]).unwrap();
    assert!(!ir_contains(&b, |i| matches!(i, IrInst::StoreCtr)),
        "bcctr with BO[2]=0 must not decrement CTR; IR: {:?}", b.insts);
}

#[test]
fn bcctrl_unconditional_no_ctr_decrement() {
    let b = Decoder::new().decode(&[(0x8000_0000u32, ins(0x4E80_0421))]).unwrap();
    assert!(!ir_contains(&b, |i| matches!(i, IrInst::StoreCtr)),
        "bcctrl must not decrement CTR; IR: {:?}", b.insts);
}

#[test]
fn bcctrl_invalid_bo_no_ctr_decrement() {
    let b = Decoder::new().decode(&[(0x8000_0000u32, ins(0x4E00_0421))]).unwrap();
    assert!(!ir_contains(&b, |i| matches!(i, IrInst::StoreCtr)),
        "bcctrl with BO[2]=0 must not decrement CTR; IR: {:?}", b.insts);
}

#[test]
fn decode_rfi_terminal() {
    let b = Decoder::new().decode(&[(0x8000_0000u32, ins(0x4C00_0064)), (0x8000_0004u32,
        ins(0x3860_0001))]).unwrap();
    assert_eq!(b.instruction_count, 1);
    assert!(b.unimplemented_ops.is_empty());
    assert!(ir_contains(&b, |i| matches!(i, IrInst::StoreMsr)),
        "rfi must emit StoreMsr");
}

#[test]
fn fctiwz_emits_reinterpret_not_convert() {
    let b = Decoder::new().decode(&[(0x8000_0000u32, ins(0xFC20_001E))]).unwrap();
    assert!(b.unimplemented_ops.is_empty(), "fctiwz unimplemented: {:?}", b.unimplemented_ops);
    assert!(ir_contains(&b, |i| matches!(i, IrInst::F64ReinterpretI64)),
        "fctiwz must emit F64ReinterpretI64 (bitcast); IR: {:?}", b.insts);
    assert!(!ir_contains(&b, |i| matches!(i, IrInst::F64FromI32S)),
        "fctiwz must NOT emit F64FromI32S (numeric conversion is wrong); IR: {:?}", b.insts);
    assert!(ir_contains(&b, |i| matches!(i, IrInst::I32TruncSatF64S)),
        "fctiwz must emit I32TruncSatF64S (saturating); IR: {:?}", b.insts);
}

#[test]
fn fctiw_emits_nearest_then_reinterpret() {
    let b = Decoder::new().decode(&[(0x8000_0000u32, ins(0xFC20_001C))]).unwrap();
    assert!(b.unimplemented_ops.is_empty(), "fctiw unimplemented: {:?}", b.unimplemented_ops);
    assert!(ir_contains(&b, |i| matches!(i, IrInst::F64Nearest)),
        "fctiw must emit F64Nearest (rounding); IR: {:?}", b.insts);
    assert!(ir_contains(&b, |i| matches!(i, IrInst::F64ReinterpretI64)),
        "fctiw must emit F64ReinterpretI64 (bitcast); IR: {:?}", b.insts);
    assert!(!ir_contains(&b, |i| matches!(i, IrInst::F64FromI32S)),
        "fctiw must NOT emit F64FromI32S (numeric conversion is wrong); IR: {:?}", b.insts);
}

#[test]
fn blocks_have_one_exit_at_their_end() {
    // li r3, 1; mullw r4, r3, r3; blr; li r5, 1
    let code = [0x3860_0001, 0x7C83_19D6, 0x4E80_0020, 0x38A0_0001];
    let pairs: Vec<(u32, Ins)> =
        code.iter().enumerate().map(|(i, word)| (0x8000_0000 + 4 * i as u32, ins(*word))).collect();
    let exits = |b: &IrBlock| {
        b.insts
            .iter()
            .enumerate()
            .filter(|(_, inst)| {
                matches!(
                    inst,
                    IrInst::ReturnStatic(_)
                        | IrInst::ReturnDynamic
                        | IrInst::BranchIf { .. }
                        | IrInst::BranchRegIf { .. }
                        | IrInst::RaiseException(_)
                )
            })
            .map(|(i, _)| i)
            .collect::<Vec<usize>>()
    };
    let b = Decoder::new().decode(&pairs).unwrap();
    assert_eq!(b.instruction_count, 3);
    assert_eq!(b.cycles, 2 + 3 + 2);
    assert_eq!(exits(&b), [b.insts.len() - 1]);
    let b = Decoder::new().decode(&pairs[..2]).unwrap();
    assert_eq!(b.instruction_count, 2);
    assert_eq!(exits(&b), [b.insts.len() - 1]);
    assert_eq!(b.insts.last(), Some(&IrInst::ReturnStatic(0x8000_0008)));
}
