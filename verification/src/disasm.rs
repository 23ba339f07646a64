//! Instruction words of the Gekko processor and the fields packed into them.
//!
//! Recognising which of several hundred opcodes a word encodes is left to the
//! `powerpc` disassembler; everything this library reads out of a word
//! afterwards is a bit field, extracted here.

use vstd::prelude::*;

verus! {

/// Instruction-set extensions that the disassembler should recognise.
#[derive(Clone, Copy, Debug, PartialEq, Eq, Structural)]
pub struct Extensions {
    /// One bit per extension, in the disassembler's own numbering.
    pub mask: u32,
}

/// Extension bit of the paired-single instructions.
pub const PAIRED_SINGLES: u32 = 2;

impl Extensions {
    /// The base instruction set without any extension.
    #[verifier::allow_in_spec]
    pub fn none() -> Self
        returns
            (Extensions { mask: 0 }),
    {
        Extensions { mask: 0 }
    }

    /// The extensions of the Gekko and Broadway processors: paired singles.
    #[verifier::allow_in_spec]
    pub fn gekko_broadway() -> Self
        returns
            (Extensions { mask: PAIRED_SINGLES }),
    {
        Extensions { mask: PAIRED_SINGLES }
    }
}

/// The operation that an instruction word encodes.
#[derive(Clone, Copy, Debug, PartialEq, Eq, Structural)]
pub enum Opcode {
    /// No instruction of the enabled set.
    Illegal,
    /// A recognised instruction that this library has no name for, by its
    /// number in the disassembler's table.
    Other(u16),
    /// `dcbz_l`: Data Cache Block Set to Zero Locked.
    DcbzL,
    /// `psq_lx`: Paired Single Quantized Load Indexed.
    PsqLx,
    /// `psq_stx`: Paired Single Quantized Store Indexed.
    PsqStx,
    /// `ps_abs`: Paired Single Absolute Value.
    PsAbs,
    /// `ps_add`: Paired Single Add.
    PsAdd,
    /// `ps_cmpo0`: Paired Singles Compare Ordered High.
    PsCmpo0,
    /// `ps_cmpo1`: Paired Singles Compare Ordered Low.
    PsCmpo1,
    /// `ps_cmpu0`: Paired Singles Compare Unordered High.
    PsCmpu0,
    /// `ps_cmpu1`: Paired Singles Compare Unordered Low.
    PsCmpu1,
    /// `ps_div`: Paired Single Divide.
    PsDiv,
    /// `ps_madd`: Paired Single Multiply-Add.
    PsMadd,
    /// `ps_madds0`: Paired Single Multiply-Add Scalar high.
    PsMadds0,
    /// `ps_madds1`: Paired Single Multiply-Add Scalar low.
    PsMadds1,
    /// `ps_merge00`: Paired Single MERGE high.
    PsMerge00,
    /// `ps_merge01`: Paired Single MERGE direct.
    PsMerge01,
    /// `ps_merge10`: Paired Single MERGE swapped.
    PsMerge10,
    /// `ps_merge11`: Paired Single MERGE low.
    PsMerge11,
    /// `ps_mr`: Paired Single Move Register.
    PsMr,
    /// `ps_msub`: Paired Single Multiply-Subtract.
    PsMsub,
    /// `ps_mul`: Paired Single Multiply.
    PsMul,
    /// `ps_muls0`: Paired Single Multiply Scalar high.
    PsMuls0,
    /// `ps_muls1`: Paired Single Multiply Scalar low.
    PsMuls1,
    /// `ps_nabs`: Paired Single Negative Absolute Value.
    PsNabs,
    /// `ps_neg`: Paired Single Negate.
    PsNeg,
    /// `ps_nmadd`: Paired Single Negative Multiply-Add.
    PsNmadd,
    /// `ps_nmsub`: Paired Single Negative Multiply-Subtract.
    PsNmsub,
    /// `ps_res`: Paired Single Reciprocal Estimate.
    PsRes,
    /// `ps_rsqrte`: Paired Single Reciprocal Square Root Estimate.
    PsRsqrte,
    /// `ps_sel`: Paired Single Select.
    PsSel,
    /// `ps_sub`: Paired Single Subtract.
    PsSub,
    /// `ps_sum0`: Paired Single vector SUM high.
    PsSum0,
    /// `ps_sum1`: Paired Single vector SUM low.
    PsSum1,
    /// `mulli`: Multiply Low Immediate.
    Mulli,
    /// `subfic`: Subtract from Immediate Carrying.
    Subfic,
    /// `cmpli`: Compare Logical Immediate.
    Cmpli,
    /// `cmpi`: Compare Immediate.
    Cmpi,
    /// `addic`: Add Immediate Carrying.
    Addic,
    /// `addic.`: Add Immediate Carrying and Record.
    Addic_,
    /// `addi`: Add Immediate.
    Addi,
    /// `addis`: Add Immediate Shifted.
    Addis,
    /// `bc`: Branch Conditional.
    Bc,
    /// `sc`: System Call.
    Sc,
    /// `b`: Branch.
    B,
    /// `bcctr`: Branch Conditional to Count Register.
    Bcctr,
    /// `bclr`: Branch Conditional to Link Register.
    Bclr,
    /// `crand`: Condition Register AND.
    Crand,
    /// `crandc`: Condition Register AND with Complement.
    Crandc,
    /// `creqv`: Condition Register Equivalent.
    Creqv,
    /// `crnand`: Condition Register NAND.
    Crnand,
    /// `crnor`: Condition Register NOR.
    Crnor,
    /// `cror`: Condition Register OR.
    Cror,
    /// `crorc`: Condition Register OR with Complement.
    Crorc,
    /// `crxor`: Condition Register XOR.
    Crxor,
    /// `isync`: Instruction Synchronize.
    Isync,
    /// `mcrf`: Move Condition Register Field.
    Mcrf,
    /// `rfi`: Return from Interrupt.
    Rfi,
    /// `rlwimi`: Rotate Left Word Immediate then Mask Insert.
    Rlwimi,
    /// `rlwinm`: Rotate Left Word Immediate then AND with Mask.
    Rlwinm,
    /// `rlwnm`: Rotate Left Word then AND with Mask.
    Rlwnm,
    /// `ori`: OR Immediate.
    Ori,
    /// `oris`: OR Immediate Shifted.
    Oris,
    /// `xori`: XOR Immediate.
    Xori,
    /// `xoris`: XOR Immediate Shifted.
    Xoris,
    /// `andi.`: AND Immediate.
    Andi_,
    /// `andis.`: AND Immediate Shifted.
    Andis_,
    /// `add`: Add.
    Add,
    /// `addc`: Add Carrying.
    Addc,
    /// `adde`: Add Extended.
    Adde,
    /// `addme`: Add to Minus One Extended.
    Addme,
    /// `addze`: Add to Zero Extended.
    Addze,
    /// `and`: AND.
    And,
    /// `andc`: AND with Complement.
    Andc,
    /// `cmp`: Compare.
    Cmp,
    /// `cmpl`: Compare Logical.
    Cmpl,
    /// `cntlzw`: Count Leading Zeros Word.
    Cntlzw,
    /// `dcbf`: Data Cache Block Flush.
    Dcbf,
    /// `dcbi`: Data Cache Block Invalidate.
    Dcbi,
    /// `dcbst`: Data Cache Block Store.
    Dcbst,
    /// `dcbt`: Data Cache Block Touch.
    Dcbt,
    /// `dcbtst`: Data Cache Block Touch for Store.
    Dcbtst,
    /// `dcbz`: Data Cache Block Clear to Zero.
    Dcbz,
    /// `divw`: Divide Word.
    Divw,
    /// `divwu`: Divide Word Unsigned.
    Divwu,
    /// `eciwx`: External Control In Word Indexed.
    Eciwx,
    /// `ecowx`: External Control Out Word Indexed.
    Ecowx,
    /// `eieio`: Enforce In-Order Execution of I/O.
    Eieio,
    /// `eqv`: Equivalent.
    Eqv,
    /// `extsb`: Extend Sign Byte.
    Extsb,
    /// `extsh`: Extend Sign Half Word.
    Extsh,
    /// `icbi`: Instruction Cache Block Invalidate.
    Icbi,
    /// `lbzux`: Load Byte and Zero with Update Indexed.
    Lbzux,
    /// `lbzx`: Load Byte and Zero Indexed.
    Lbzx,
    /// `lfdux`: Load Floating-Point Double with Update Indexed.
    Lfdux,
    /// `lfdx`: Load Floating-Point Double Indexed.
    Lfdx,
    /// `lfsux`: Load Floating-Point Single with Update Indexed.
    Lfsux,
    /// `lfsx`: Load Floating-Point Single Indexed.
    Lfsx,
    /// `lhaux`: Load Half Word Algebraic with Update Indexed.
    Lhaux,
    /// `lhax`: Load Half Word Algebraic Indexed.
    Lhax,
    /// `lhbrx`: Load Half Word Byte-Reverse Indexed.
    Lhbrx,
    /// `lhzux`: Load Half Word and Zero with Update Indexed.
    Lhzux,
    /// `lhzx`: Load Half Word and Zero Indexed.
    Lhzx,
    /// `lswi`: Load String Word Immediate.
    Lswi,
    /// `lwarx`: Load String Word and Reverse Indexed.
    Lwarx,
    /// `lwbrx`: Load String Word and Byte-Reverse Indexed.
    Lwbrx,
    /// `lwzux`: Load Word and Zero with Update Indexed.
    Lwzux,
    /// `lwzx`: Load Word and Zero Indexed.
    Lwzx,
    /// `mcrxr`: Move to Condition Register from XER.
    Mcrxr,
    /// `mfcr`: Move from Condition Register.
    Mfcr,
    /// `mfmsr`: Move from Machine State Register.
    Mfmsr,
    /// `mfspr`: Move from Special-Purpose Register.
    Mfspr,
    /// `mfsr`: Move from Segment Register.
    Mfsr,
    /// `mftb`: Move from Time Base.
    Mftb,
    /// `mtcrf`: Move to Condition Register Fields.
    Mtcrf,
    /// `mtmsr`: Move to Machine State Register.
    Mtmsr,
    /// `mtspr`: Move to Special-Purpose Register.
    Mtspr,
    /// `mtsr`: Move to Segment Register.
    Mtsr,
    /// `mulhw`: Multiply High Word.
    Mulhw,
    /// `mulhwu`: Multiply High Word Unsigned.
    Mulhwu,
    /// `mullw`: Multiply Low Word.
    Mullw,
    /// `nand`: NAND.
    Nand,
    /// `neg`: Negate.
    Neg,
    /// `nor`: NOR.
    Nor,
    /// `or`: OR.
    Or,
    /// `orc`: OR with Complement.
    Orc,
    /// `slw`: Shift Left Word.
    Slw,
    /// `sraw`: Shift Right Algebraic Word.
    Sraw,
    /// `srawi`: Shift Right Algebraic Word Immediate.
    Srawi,
    /// `srw`: Shift Right Word.
    Srw,
    /// `stbux`: Store Byte with Update Indexed.
    Stbux,
    /// `stbx`: Store Byte Indexed.
    Stbx,
    /// `stfdux`: Store Floating-Point Double with Update Indexed.
    Stfdux,
    /// `stfdx`: Store Floating-Point Double Indexed.
    Stfdx,
    /// `stfiwx`: Store Floating-Point as Integer Word Indexed.
    Stfiwx,
    /// `stfsux`: Store Floating-Point Single with Update Indexed.
    Stfsux,
    /// `stfsx`: Store Floating-Point Single Indexed.
    Stfsx,
    /// `sthbrx`: Store Half Word Byte-Reverse Indexed.
    Sthbrx,
    /// `sthux`: Store Half Word with Update Indexed.
    Sthux,
    /// `sthx`: Store Half Word Indexed.
    Sthx,
    /// `stswi`: Store String Word Immediate.
    Stswi,
    /// `stwbrx`: Store Word Byte-Reverse Indexed.
    Stwbrx,
    /// `stwcx.`: Store Word Conditional Indexed.
    Stwcx_,
    /// `stwux`: Store Word Indexed.
    Stwux,
    /// `stwx`: Store Word Indexed.
    Stwx,
    /// `subf`: Subtract From Carrying.
    Subf,
    /// `subfc`: Subtract from Carrying.
    Subfc,
    /// `subfe`: Subtract from Extended.
    Subfe,
    /// `subfme`: Subtract from Minus One Extended.
    Subfme,
    /// `subfze`: Subtract from Zero Extended.
    Subfze,
    /// `sync`: Synchronize.
    Sync,
    /// `tlbie`: Translation Lookaside Buffer Invalidate Entry.
    Tlbie,
    /// `tlbsync`: TLB Synchronize.
    Tlbsync,
    /// `xor`: XOR.
    Xor,
    /// `lwz`: Load Word and Zero.
    Lwz,
    /// `lwzu`: Load Word and Zero with Update.
    Lwzu,
    /// `lbz`: Load Byte and Zero.
    Lbz,
    /// `lbzu`: Load Byte and Zero with Update.
    Lbzu,
    /// `stw`: Store Word.
    Stw,
    /// `stwu`: Store Word with Update.
    Stwu,
    /// `stb`: Store Byte.
    Stb,
    /// `stbu`: Store Byte with Update.
    Stbu,
    /// `lhz`: Load Half Word and Zero.
    Lhz,
    /// `lhzu`: Load Half Word and Zero with Update.
    Lhzu,
    /// `lha`: Load Half Word Algebraic.
    Lha,
    /// `lhau`: Load Half Word Algebraic with Update.
    Lhau,
    /// `sth`: Store Half Word.
    Sth,
    /// `sthu`: Store Half Word with Update.
    Sthu,
    /// `lmw`: Load Multiple Word.
    Lmw,
    /// `stmw`: Store Multiple Word.
    Stmw,
    /// `lfs`: Load Floating-Point Single.
    Lfs,
    /// `lfsu`: Load Floating-Point Single with Update.
    Lfsu,
    /// `lfd`: Load Floating-Point Double.
    Lfd,
    /// `lfdu`: Load Floating-Point Double with Update.
    Lfdu,
    /// `stfs`: Store Floating-Point Single.
    Stfs,
    /// `stfsu`: Store Floating-Point Single with Update.
    Stfsu,
    /// `stfd`: Store Floating-Point Double.
    Stfd,
    /// `stfdu`: Store Floating-Point Double with Update.
    Stfdu,
    /// `psq_l`: Paired Single Quantized Load.
    PsqL,
    /// `psq_lu`: Paired Single Quantized Load with Update.
    PsqLu,
    /// `fadds`: Floating Add (Single-Precision).
    Fadds,
    /// `fdivs`: Floating Divide (Single-Precision).
    Fdivs,
    /// `fmadds`: Floating Multiply-Add (Single-Precision).
    Fmadds,
    /// `fmsubs`: Floating Multiply-Subtract (Single-Precision).
    Fmsubs,
    /// `fmuls`: Floating Multiply (Single-Precision).
    Fmuls,
    /// `fnmadds`: Floating Negative Multiply-Add (Single-Precision).
    Fnmadds,
    /// `fnmsubs`: Floating Negative Multiply-Subtract (Single-Precision).
    Fnmsubs,
    /// `fres`: Floating Reciprocal Estimate Single.
    Fres,
    /// `fsubs`: Floating Subtract (Single-Precision).
    Fsubs,
    /// `fsqrts`: Floating Square Root (Single-Precision).
    Fsqrts,
    /// `psq_st`: Paired Single Quantized Store.
    PsqSt,
    /// `psq_stu`: Paired Single Quantized Store with Update.
    PsqStu,
    /// `fabs`: Floating Absolute Value.
    Fabs,
    /// `fadd`: Floating Add (Double-Precision).
    Fadd,
    /// `fcmpo`: Floating Compare Ordered.
    Fcmpo,
    /// `fcmpu`: Floating Compare Unordered.
    Fcmpu,
    /// `fctiw`: Floating Convert to Integer Word.
    Fctiw,
    /// `fctiwz`: Floating Convert to Integer Word with Round toward Zero.
    Fctiwz,
    /// `fdiv`: Floating Divide (Double-Precision).
    Fdiv,
    /// `fmadd`: Floating Multiply-Add (Double-Precision).
    Fmadd,
    /// `fmr`: Floating Move Register (Double-Precision).
    Fmr,
    /// `fmsub`: Floating Multiply-Subtract (Double-Precision).
    Fmsub,
    /// `fmul`: Floating Multiply (Double-Precision).
    Fmul,
    /// `fneg`: Floating Negate.
    Fneg,
    /// `fnmadd`: Floating Negative Multiply-Add (Double-Precision).
    Fnmadd,
    /// `fnmsub`: Floating Negative Multiply-Subtract (Double-Precision).
    Fnmsub,
    /// `frsp`: Floating Round to Single.
    Frsp,
    /// `frsqrte`: Floating Reciprocal Square Root Estimate.
    Frsqrte,
    /// `fsel`: Floating Select.
    Fsel,
    /// `fsub`: Floating Subtract (Double-Precision).
    Fsub,
    /// `mffs`: Move from FPSCR.
    Mffs,
    /// `mtfsb0`: Move to FPSCR Bit 0.
    Mtfsb0,
    /// `mtfsb1`: Move to FPSCR Bit 1.
    Mtfsb1,
    /// `mtfsf`: Move to FPSCR Fields.
    Mtfsf,
    /// `mtfsfi`: Move to FPSCR Field Immediate.
    Mtfsfi,
    /// `fsqrt`: Floating Square Root (Double-Precision).
    Fsqrt,
}

/// The number the disassembler uses for a word that encodes nothing.
pub const ILLEGAL_NUMBER: u16 = 0xFFFF;

/// Position, in the disassembler's table, of the operation that `code` encodes
/// when the extensions in `mask` are enabled.
pub uninterp spec fn opcode_number(code: u32, mask: u32) -> u16;

/// Wraps `powerpc::Opcode::detect`, which searches a fixed table of bit
/// patterns for the first one that `code` matches. The result depends on the
/// word and on the enabled extensions and on nothing else; which number belongs
/// to which word is the table's business and is not restated here.
#[verifier::external_body]
fn detect_opcode(code: u32, mask: u32) -> (number: u16)
    ensures
        number == opcode_number(code, mask),
{
    u16::from(powerpc::Opcode::detect(code, powerpc::Extensions::from_bitmask(mask)))
}

/// Mnemonic-like name of the operation with a given number.
pub uninterp spec fn opcode_name(number: u16) -> Seq<char>;

/// Wraps the `Debug` output of `powerpc::Opcode`, the name of the table entry
/// with the given number. The name depends on the number alone; the several
/// hundred names are not restated here.
#[verifier::external_body]
pub(crate) fn name_of_opcode(number: u16) -> (name: String)
    ensures
        name@ == opcode_name(number),
{
    format!("{:?}", powerpc::Opcode::from(number))
}

impl Opcode {
    /// The operation with the given number in the disassembler's table.
    pub open spec fn of_number(number: u16) -> Opcode {
        match number {
            ILLEGAL_NUMBER => Opcode::Illegal,
            2u16 => Opcode::DcbzL,
            4u16 => Opcode::PsqLx,
            6u16 => Opcode::PsqStx,
            7u16 => Opcode::PsAbs,
            8u16 => Opcode::PsAdd,
            9u16 => Opcode::PsCmpo0,
            10u16 => Opcode::PsCmpo1,
            11u16 => Opcode::PsCmpu0,
            12u16 => Opcode::PsCmpu1,
            13u16 => Opcode::PsDiv,
            14u16 => Opcode::PsMadd,
            15u16 => Opcode::PsMadds0,
            16u16 => Opcode::PsMadds1,
            17u16 => Opcode::PsMerge00,
            18u16 => Opcode::PsMerge01,
            19u16 => Opcode::PsMerge10,
            20u16 => Opcode::PsMerge11,
            21u16 => Opcode::PsMr,
            22u16 => Opcode::PsMsub,
            23u16 => Opcode::PsMul,
            24u16 => Opcode::PsMuls0,
            25u16 => Opcode::PsMuls1,
            26u16 => Opcode::PsNabs,
            27u16 => Opcode::PsNeg,
            28u16 => Opcode::PsNmadd,
            29u16 => Opcode::PsNmsub,
            30u16 => Opcode::PsRes,
            31u16 => Opcode::PsRsqrte,
            32u16 => Opcode::PsSel,
            33u16 => Opcode::PsSub,
            34u16 => Opcode::PsSum0,
            35u16 => Opcode::PsSum1,
            257u16 => Opcode::Mulli,
            258u16 => Opcode::Subfic,
            259u16 => Opcode::Cmpli,
            260u16 => Opcode::Cmpi,
            261u16 => Opcode::Addic,
            262u16 => Opcode::Addic_,
            263u16 => Opcode::Addi,
            264u16 => Opcode::Addis,
            265u16 => Opcode::Bc,
            266u16 => Opcode::Sc,
            267u16 => Opcode::B,
            268u16 => Opcode::Bcctr,
            269u16 => Opcode::Bclr,
            270u16 => Opcode::Crand,
            271u16 => Opcode::Crandc,
            272u16 => Opcode::Creqv,
            273u16 => Opcode::Crnand,
            274u16 => Opcode::Crnor,
            275u16 => Opcode::Cror,
            276u16 => Opcode::Crorc,
            277u16 => Opcode::Crxor,
            278u16 => Opcode::Isync,
            279u16 => Opcode::Mcrf,
            280u16 => Opcode::Rfi,
            282u16 => Opcode::Rlwimi,
            283u16 => Opcode::Rlwinm,
            284u16 => Opcode::Rlwnm,
            285u16 => Opcode::Ori,
            286u16 => Opcode::Oris,
            287u16 => Opcode::Xori,
            288u16 => Opcode::Xoris,
            289u16 => Opcode::Andi_,
            290u16 => Opcode::Andis_,
            297u16 => Opcode::Add,
            298u16 => Opcode::Addc,
            299u16 => Opcode::Adde,
            300u16 => Opcode::Addme,
            301u16 => Opcode::Addze,
            302u16 => Opcode::And,
            303u16 => Opcode::Andc,
            304u16 => Opcode::Cmp,
            305u16 => Opcode::Cmpl,
            306u16 => Opcode::Cntlzw,
            307u16 => Opcode::Dcbf,
            308u16 => Opcode::Dcbi,
            309u16 => Opcode::Dcbst,
            310u16 => Opcode::Dcbt,
            311u16 => Opcode::Dcbtst,
            312u16 => Opcode::Dcbz,
            313u16 => Opcode::Divw,
            314u16 => Opcode::Divwu,
            315u16 => Opcode::Eciwx,
            316u16 => Opcode::Ecowx,
            317u16 => Opcode::Eieio,
            318u16 => Opcode::Eqv,
            319u16 => Opcode::Extsb,
            320u16 => Opcode::Extsh,
            321u16 => Opcode::Icbi,
            322u16 => Opcode::Lbzux,
            323u16 => Opcode::Lbzx,
            324u16 => Opcode::Lfdux,
            325u16 => Opcode::Lfdx,
            326u16 => Opcode::Lfsux,
            327u16 => Opcode::Lfsx,
            328u16 => Opcode::Lhaux,
            329u16 => Opcode::Lhax,
            330u16 => Opcode::Lhbrx,
            331u16 => Opcode::Lhzux,
            332u16 => Opcode::Lhzx,
            333u16 => Opcode::Lswi,
            335u16 => Opcode::Lwarx,
            336u16 => Opcode::Lwbrx,
            337u16 => Opcode::Lwzux,
            338u16 => Opcode::Lwzx,
            339u16 => Opcode::Mcrxr,
            340u16 => Opcode::Mfcr,
            341u16 => Opcode::Mfmsr,
            342u16 => Opcode::Mfspr,
            343u16 => Opcode::Mfsr,
            345u16 => Opcode::Mftb,
            346u16 => Opcode::Mtcrf,
            347u16 => Opcode::Mtmsr,
            348u16 => Opcode::Mtspr,
            349u16 => Opcode::Mtsr,
            351u16 => Opcode::Mulhw,
            352u16 => Opcode::Mulhwu,
            353u16 => Opcode::Mullw,
            354u16 => Opcode::Nand,
            355u16 => Opcode::Neg,
            356u16 => Opcode::Nor,
            357u16 => Opcode::Or,
            358u16 => Opcode::Orc,
            359u16 => Opcode::Slw,
            360u16 => Opcode::Sraw,
            361u16 => Opcode::Srawi,
            362u16 => Opcode::Srw,
            363u16 => Opcode::Stbux,
            364u16 => Opcode::Stbx,
            365u16 => Opcode::Stfdux,
            366u16 => Opcode::Stfdx,
            367u16 => Opcode::Stfiwx,
            368u16 => Opcode::Stfsux,
            369u16 => Opcode::Stfsx,
            370u16 => Opcode::Sthbrx,
            371u16 => Opcode::Sthux,
            372u16 => Opcode::Sthx,
            373u16 => Opcode::Stswi,
            375u16 => Opcode::Stwbrx,
            376u16 => Opcode::Stwcx_,
            377u16 => Opcode::Stwux,
            378u16 => Opcode::Stwx,
            379u16 => Opcode::Subf,
            380u16 => Opcode::Subfc,
            381u16 => Opcode::Subfe,
            382u16 => Opcode::Subfme,
            383u16 => Opcode::Subfze,
            384u16 => Opcode::Sync,
            385u16 => Opcode::Tlbie,
            386u16 => Opcode::Tlbsync,
            388u16 => Opcode::Xor,
            439u16 => Opcode::Lwz,
            440u16 => Opcode::Lwzu,
            441u16 => Opcode::Lbz,
            442u16 => Opcode::Lbzu,
            443u16 => Opcode::Stw,
            444u16 => Opcode::Stwu,
            445u16 => Opcode::Stb,
            446u16 => Opcode::Stbu,
            447u16 => Opcode::Lhz,
            448u16 => Opcode::Lhzu,
            449u16 => Opcode::Lha,
            450u16 => Opcode::Lhau,
            451u16 => Opcode::Sth,
            452u16 => Opcode::Sthu,
            453u16 => Opcode::Lmw,
            454u16 => Opcode::Stmw,
            455u16 => Opcode::Lfs,
            456u16 => Opcode::Lfsu,
            457u16 => Opcode::Lfd,
            458u16 => Opcode::Lfdu,
            459u16 => Opcode::Stfs,
            460u16 => Opcode::Stfsu,
            461u16 => Opcode::Stfd,
            462u16 => Opcode::Stfdu,
            463u16 => Opcode::PsqL,
            464u16 => Opcode::PsqLu,
            468u16 => Opcode::Fadds,
            469u16 => Opcode::Fdivs,
            470u16 => Opcode::Fmadds,
            471u16 => Opcode::Fmsubs,
            472u16 => Opcode::Fmuls,
            473u16 => Opcode::Fnmadds,
            474u16 => Opcode::Fnmsubs,
            475u16 => Opcode::Fres,
            476u16 => Opcode::Fsubs,
            477u16 => Opcode::Fsqrts,
            478u16 => Opcode::PsqSt,
            479u16 => Opcode::PsqStu,
            482u16 => Opcode::Fabs,
            483u16 => Opcode::Fadd,
            484u16 => Opcode::Fcmpo,
            485u16 => Opcode::Fcmpu,
            486u16 => Opcode::Fctiw,
            487u16 => Opcode::Fctiwz,
            488u16 => Opcode::Fdiv,
            489u16 => Opcode::Fmadd,
            490u16 => Opcode::Fmr,
            491u16 => Opcode::Fmsub,
            492u16 => Opcode::Fmul,
            494u16 => Opcode::Fneg,
            495u16 => Opcode::Fnmadd,
            496u16 => Opcode::Fnmsub,
            497u16 => Opcode::Frsp,
            498u16 => Opcode::Frsqrte,
            499u16 => Opcode::Fsel,
            500u16 => Opcode::Fsub,
            502u16 => Opcode::Mffs,
            503u16 => Opcode::Mtfsb0,
            504u16 => Opcode::Mtfsb1,
            505u16 => Opcode::Mtfsf,
            506u16 => Opcode::Mtfsfi,
            510u16 => Opcode::Fsqrt,
            _ => Opcode::Other(number),
        }
    }

    /// The operation with the given number in the disassembler's table.
    pub fn from_number(number: u16) -> (op: Opcode)
        ensures
            op == Opcode::of_number(number),
    {
        match number {
            ILLEGAL_NUMBER => Opcode::Illegal,
            2u16 => Opcode::DcbzL,
            4u16 => Opcode::PsqLx,
            6u16 => Opcode::PsqStx,
            7u16 => Opcode::PsAbs,
            8u16 => Opcode::PsAdd,
            9u16 => Opcode::PsCmpo0,
            10u16 => Opcode::PsCmpo1,
            11u16 => Opcode::PsCmpu0,
            12u16 => Opcode::PsCmpu1,
            13u16 => Opcode::PsDiv,
            14u16 => Opcode::PsMadd,
            15u16 => Opcode::PsMadds0,
            16u16 => Opcode::PsMadds1,
            17u16 => Opcode::PsMerge00,
            18u16 => Opcode::PsMerge01,
            19u16 => Opcode::PsMerge10,
            20u16 => Opcode::PsMerge11,
            21u16 => Opcode::PsMr,
            22u16 => Opcode::PsMsub,
            23u16 => Opcode::PsMul,
            24u16 => Opcode::PsMuls0,
            25u16 => Opcode::PsMuls1,
            26u16 => Opcode::PsNabs,
            27u16 => Opcode::PsNeg,
            28u16 => Opcode::PsNmadd,
            29u16 => Opcode::PsNmsub,
            30u16 => Opcode::PsRes,
            31u16 => Opcode::PsRsqrte,
            32u16 => Opcode::PsSel,
            33u16 => Opcode::PsSub,
            34u16 => Opcode::PsSum0,
            35u16 => Opcode::PsSum1,
            257u16 => Opcode::Mulli,
            258u16 => Opcode::Subfic,
            259u16 => Opcode::Cmpli,
            260u16 => Opcode::Cmpi,
            261u16 => Opcode::Addic,
            262u16 => Opcode::Addic_,
            263u16 => Opcode::Addi,
            264u16 => Opcode::Addis,
            265u16 => Opcode::Bc,
            266u16 => Opcode::Sc,
            267u16 => Opcode::B,
            268u16 => Opcode::Bcctr,
            269u16 => Opcode::Bclr,
            270u16 => Opcode::Crand,
            271u16 => Opcode::Crandc,
            272u16 => Opcode::Creqv,
            273u16 => Opcode::Crnand,
            274u16 => Opcode::Crnor,
            275u16 => Opcode::Cror,
            276u16 => Opcode::Crorc,
            277u16 => Opcode::Crxor,
            278u16 => Opcode::Isync,
            279u16 => Opcode::Mcrf,
            280u16 => Opcode::Rfi,
            282u16 => Opcode::Rlwimi,
            283u16 => Opcode::Rlwinm,
            284u16 => Opcode::Rlwnm,
            285u16 => Opcode::Ori,
            286u16 => Opcode::Oris,
            287u16 => Opcode::Xori,
            288u16 => Opcode::Xoris,
            289u16 => Opcode::Andi_,
            290u16 => Opcode::Andis_,
            297u16 => Opcode::Add,
            298u16 => Opcode::Addc,
            299u16 => Opcode::Adde,
            300u16 => Opcode::Addme,
            301u16 => Opcode::Addze,
            302u16 => Opcode::And,
            303u16 => Opcode::Andc,
            304u16 => Opcode::Cmp,
            305u16 => Opcode::Cmpl,
            306u16 => Opcode::Cntlzw,
            307u16 => Opcode::Dcbf,
            308u16 => Opcode::Dcbi,
            309u16 => Opcode::Dcbst,
            310u16 => Opcode::Dcbt,
            311u16 => Opcode::Dcbtst,
            312u16 => Opcode::Dcbz,
            313u16 => Opcode::Divw,
            314u16 => Opcode::Divwu,
            315u16 => Opcode::Eciwx,
            316u16 => Opcode::Ecowx,
            317u16 => Opcode::Eieio,
            318u16 => Opcode::Eqv,
            319u16 => Opcode::Extsb,
            320u16 => Opcode::Extsh,
            321u16 => Opcode::Icbi,
            322u16 => Opcode::Lbzux,
            323u16 => Opcode::Lbzx,
            324u16 => Opcode::Lfdux,
            325u16 => Opcode::Lfdx,
            326u16 => Opcode::Lfsux,
            327u16 => Opcode::Lfsx,
            328u16 => Opcode::Lhaux,
            329u16 => Opcode::Lhax,
            330u16 => Opcode::Lhbrx,
            331u16 => Opcode::Lhzux,
            332u16 => Opcode::Lhzx,
            333u16 => Opcode::Lswi,
            335u16 => Opcode::Lwarx,
            336u16 => Opcode::Lwbrx,
            337u16 => Opcode::Lwzux,
            338u16 => Opcode::Lwzx,
            339u16 => Opcode::Mcrxr,
            340u16 => Opcode::Mfcr,
            341u16 => Opcode::Mfmsr,
            342u16 => Opcode::Mfspr,
            343u16 => Opcode::Mfsr,
            345u16 => Opcode::Mftb,
            346u16 => Opcode::Mtcrf,
            347u16 => Opcode::Mtmsr,
            348u16 => Opcode::Mtspr,
            349u16 => Opcode::Mtsr,
            351u16 => Opcode::Mulhw,
            352u16 => Opcode::Mulhwu,
            353u16 => Opcode::Mullw,
            354u16 => Opcode::Nand,
            355u16 => Opcode::Neg,
            356u16 => Opcode::Nor,
            357u16 => Opcode::Or,
            358u16 => Opcode::Orc,
            359u16 => Opcode::Slw,
            360u16 => Opcode::Sraw,
            361u16 => Opcode::Srawi,
            362u16 => Opcode::Srw,
            363u16 => Opcode::Stbux,
            364u16 => Opcode::Stbx,
            365u16 => Opcode::Stfdux,
            366u16 => Opcode::Stfdx,
            367u16 => Opcode::Stfiwx,
            368u16 => Opcode::Stfsux,
            369u16 => Opcode::Stfsx,
            370u16 => Opcode::Sthbrx,
            371u16 => Opcode::Sthux,
            372u16 => Opcode::Sthx,
            373u16 => Opcode::Stswi,
            375u16 => Opcode::Stwbrx,
            376u16 => Opcode::Stwcx_,
            377u16 => Opcode::Stwux,
            378u16 => Opcode::Stwx,
            379u16 => Opcode::Subf,
            380u16 => Opcode::Subfc,
            381u16 => Opcode::Subfe,
            382u16 => Opcode::Subfme,
            383u16 => Opcode::Subfze,
            384u16 => Opcode::Sync,
            385u16 => Opcode::Tlbie,
            386u16 => Opcode::Tlbsync,
            388u16 => Opcode::Xor,
            439u16 => Opcode::Lwz,
            440u16 => Opcode::Lwzu,
            441u16 => Opcode::Lbz,
            442u16 => Opcode::Lbzu,
            443u16 => Opcode::Stw,
            444u16 => Opcode::Stwu,
            445u16 => Opcode::Stb,
            446u16 => Opcode::Stbu,
            447u16 => Opcode::Lhz,
            448u16 => Opcode::Lhzu,
            449u16 => Opcode::Lha,
            450u16 => Opcode::Lhau,
            451u16 => Opcode::Sth,
            452u16 => Opcode::Sthu,
            453u16 => Opcode::Lmw,
            454u16 => Opcode::Stmw,
            455u16 => Opcode::Lfs,
            456u16 => Opcode::Lfsu,
            457u16 => Opcode::Lfd,
            458u16 => Opcode::Lfdu,
            459u16 => Opcode::Stfs,
            460u16 => Opcode::Stfsu,
            461u16 => Opcode::Stfd,
            462u16 => Opcode::Stfdu,
            463u16 => Opcode::PsqL,
            464u16 => Opcode::PsqLu,
            468u16 => Opcode::Fadds,
            469u16 => Opcode::Fdivs,
            470u16 => Opcode::Fmadds,
            471u16 => Opcode::Fmsubs,
            472u16 => Opcode::Fmuls,
            473u16 => Opcode::Fnmadds,
            474u16 => Opcode::Fnmsubs,
            475u16 => Opcode::Fres,
            476u16 => Opcode::Fsubs,
            477u16 => Opcode::Fsqrts,
            478u16 => Opcode::PsqSt,
            479u16 => Opcode::PsqStu,
            482u16 => Opcode::Fabs,
            483u16 => Opcode::Fadd,
            484u16 => Opcode::Fcmpo,
            485u16 => Opcode::Fcmpu,
            486u16 => Opcode::Fctiw,
            487u16 => Opcode::Fctiwz,
            488u16 => Opcode::Fdiv,
            489u16 => Opcode::Fmadd,
            490u16 => Opcode::Fmr,
            491u16 => Opcode::Fmsub,
            492u16 => Opcode::Fmul,
            494u16 => Opcode::Fneg,
            495u16 => Opcode::Fnmadd,
            496u16 => Opcode::Fnmsub,
            497u16 => Opcode::Frsp,
            498u16 => Opcode::Frsqrte,
            499u16 => Opcode::Fsel,
            500u16 => Opcode::Fsub,
            502u16 => Opcode::Mffs,
            503u16 => Opcode::Mtfsb0,
            504u16 => Opcode::Mtfsb1,
            505u16 => Opcode::Mtfsf,
            506u16 => Opcode::Mtfsfi,
            510u16 => Opcode::Fsqrt,
            _ => Opcode::Other(number),
        }
    }
}

/// An instruction word together with the operation it encodes.
#[derive(Clone, Copy, Debug, PartialEq, Eq, Structural)]
pub struct Ins {
    /// The raw word.
    pub code: u32,
    /// What the word does.
    pub op: Opcode,
}

impl Ins {
    /// The instruction that `code` is with the given extensions enabled.
    pub open spec fn decoded(code: u32, extensions: Extensions) -> Ins {
        Ins { code, op: Opcode::of_number(opcode_number(code, extensions.mask)) }
    }

    /// Decodes the operation of `code` with the given extensions enabled.
    pub fn new(code: u32, extensions: Extensions) -> (ins: Ins)
        ensures
            ins == Ins::decoded(code, extensions),
    {
        Ins { code, op: Opcode::from_number(detect_opcode(code, extensions.mask)) }
    }

    /// Signed immediate.
    #[verifier::allow_in_spec]
    pub fn field_simm(&self) -> i16
        returns
            (self.code & 0xffff) as i16,
    {
        (self.code & 0xffff) as i16
    }

    /// Unsigned immediate.
    #[verifier::allow_in_spec]
    pub fn field_uimm(&self) -> u16
        returns
            (self.code & 0xffff) as u16,
    {
        (self.code & 0xffff) as u16
    }

    /// Displacement of a load or store.
    #[verifier::allow_in_spec]
    pub fn field_offset(&self) -> i16
        returns
            (self.code & 0xffff) as i16,
    {
        (self.code & 0xffff) as i16
    }

    /// Branch options.
    #[verifier::allow_in_spec]
    pub fn field_bo(&self) -> u8
        returns
            ((self.code >> 21) & 0x1f) as u8,
    {
        ((self.code >> 21) & 0x1f) as u8
    }

    /// Condition-register bit that a branch tests.
    #[verifier::allow_in_spec]
    pub fn field_bi(&self) -> u8
        returns
            ((self.code >> 16) & 0x1f) as u8,
    {
        ((self.code >> 16) & 0x1f) as u8
    }

    /// Displacement of a conditional branch.
    #[verifier::allow_in_spec]
    pub fn field_bd(&self) -> i16
        returns
            (self.code & 0xfffc) as i16,
    {
        (self.code & 0xfffc) as i16
    }

    /// Displacement of an unconditional branch.
    #[verifier::allow_in_spec]
    pub fn field_li(&self) -> i32
        returns
            (((self.code & 0x3fffffc) << 6) as i32) >> 6,
    {
        (((self.code & 0x3fffffc) << 6) as i32) >> 6
    }

    /// Shift amount.
    #[verifier::allow_in_spec]
    pub fn field_sh(&self) -> u8
        returns
            ((self.code >> 11) & 0x1f) as u8,
    {
        ((self.code >> 11) & 0x1f) as u8
    }

    /// First bit of a rotate mask.
    #[verifier::allow_in_spec]
    pub fn field_mb(&self) -> u8
        returns
            ((self.code >> 6) & 0x1f) as u8,
    {
        ((self.code >> 6) & 0x1f) as u8
    }

    /// Last bit of a rotate mask.
    #[verifier::allow_in_spec]
    pub fn field_me(&self) -> u8
        returns
            ((self.code >> 1) & 0x1f) as u8,
    {
        ((self.code >> 1) & 0x1f) as u8
    }

    /// Source general-purpose register.
    #[verifier::allow_in_spec]
    pub fn gpr_s(&self) -> u8
        returns
            ((self.code >> 21) & 0x1f) as u8,
    {
        ((self.code >> 21) & 0x1f) as u8
    }

    /// Destination general-purpose register.
    #[verifier::allow_in_spec]
    pub fn gpr_d(&self) -> u8
        returns
            ((self.code >> 21) & 0x1f) as u8,
    {
        ((self.code >> 21) & 0x1f) as u8
    }

    /// General-purpose register A.
    #[verifier::allow_in_spec]
    pub fn gpr_a(&self) -> u8
        returns
            ((self.code >> 16) & 0x1f) as u8,
    {
        ((self.code >> 16) & 0x1f) as u8
    }

    /// General-purpose register B.
    #[verifier::allow_in_spec]
    pub fn gpr_b(&self) -> u8
        returns
            ((self.code >> 11) & 0x1f) as u8,
    {
        ((self.code >> 11) & 0x1f) as u8
    }

    /// Source floating-point register.
    #[verifier::allow_in_spec]
    pub fn fpr_s(&self) -> u8
        returns
            ((self.code >> 21) & 0x1f) as u8,
    {
        ((self.code >> 21) & 0x1f) as u8
    }

    /// Destination floating-point register.
    #[verifier::allow_in_spec]
    pub fn fpr_d(&self) -> u8
        returns
            ((self.code >> 21) & 0x1f) as u8,
    {
        ((self.code >> 21) & 0x1f) as u8
    }

    /// Floating-point register A.
    #[verifier::allow_in_spec]
    pub fn fpr_a(&self) -> u8
        returns
            ((self.code >> 16) & 0x1f) as u8,
    {
        ((self.code >> 16) & 0x1f) as u8
    }

    /// Floating-point register B.
    #[verifier::allow_in_spec]
    pub fn fpr_b(&self) -> u8
        returns
            ((self.code >> 11) & 0x1f) as u8,
    {
        ((self.code >> 11) & 0x1f) as u8
    }

    /// Floating-point register C.
    #[verifier::allow_in_spec]
    pub fn fpr_c(&self) -> u8
        returns
            ((self.code >> 6) & 0x1f) as u8,
    {
        ((self.code >> 6) & 0x1f) as u8
    }

    /// Special-purpose register number, with its two halves put in order.
    #[verifier::allow_in_spec]
    pub fn field_spr(&self) -> u16
        returns
            (((self.code >> 16) & 0x1f) | ((self.code >> 6) & 0x3e0)) as u16,
    {
        (((self.code >> 16) & 0x1f) | ((self.code >> 6) & 0x3e0)) as u16
    }

    /// Time-base register number, with its two halves put in order.
    #[verifier::allow_in_spec]
    pub fn field_tbr(&self) -> u16
        returns
            (((self.code >> 16) & 0x1f) | ((self.code >> 6) & 0x3e0)) as u16,
    {
        (((self.code >> 16) & 0x1f) | ((self.code >> 6) & 0x3e0)) as u16
    }

    /// Destination condition-register bit.
    #[verifier::allow_in_spec]
    pub fn field_crbd(&self) -> u8
        returns
            ((self.code >> 21) & 0x1f) as u8,
    {
        ((self.code >> 21) & 0x1f) as u8
    }

    /// Condition-register bit A.
    #[verifier::allow_in_spec]
    pub fn field_crba(&self) -> u8
        returns
            ((self.code >> 16) & 0x1f) as u8,
    {
        ((self.code >> 16) & 0x1f) as u8
    }

    /// Condition-register bit B.
    #[verifier::allow_in_spec]
    pub fn field_crbb(&self) -> u8
        returns
            ((self.code >> 11) & 0x1f) as u8,
    {
        ((self.code >> 11) & 0x1f) as u8
    }

    /// Destination condition-register field.
    #[verifier::allow_in_spec]
    pub fn field_crfd(&self) -> u8
        returns
            ((self.code >> 23) & 0x7) as u8,
    {
        ((self.code >> 23) & 0x7) as u8
    }

    /// Source condition-register field.
    #[verifier::allow_in_spec]
    pub fn field_crfs(&self) -> u8
        returns
            ((self.code >> 18) & 0x7) as u8,
    {
        ((self.code >> 18) & 0x7) as u8
    }

    /// Condition-register field mask.
    #[verifier::allow_in_spec]
    pub fn field_crm(&self) -> u8
        returns
            ((self.code >> 12) & 0xff) as u8,
    {
        ((self.code >> 12) & 0xff) as u8
    }

    /// Byte count of a string load or store.
    #[verifier::allow_in_spec]
    pub fn field_nb(&self) -> u8
        returns
            ((self.code >> 11) & 0x1f) as u8,
    {
        ((self.code >> 11) & 0x1f) as u8
    }

    /// Whether overflow is recorded.
    #[verifier::allow_in_spec]
    pub fn field_oe(&self) -> bool
        returns
            (self.code & 0x400) == 0x400,
    {
        (self.code & 0x400) == 0x400
    }

    /// Whether condition field 0 is updated.
    #[verifier::allow_in_spec]
    pub fn field_rc(&self) -> bool
        returns
            (self.code & 0x1) == 0x1,
    {
        (self.code & 0x1) == 0x1
    }

    /// Whether a branch sets the link register.
    #[verifier::allow_in_spec]
    pub fn field_lk(&self) -> bool
        returns
            (self.code & 0x1) == 0x1,
    {
        (self.code & 0x1) == 0x1
    }

    /// Whether a branch displacement is an absolute address.
    #[verifier::allow_in_spec]
    pub fn field_aa(&self) -> bool
        returns
            (self.code & 0x2) == 0x2,
    {
        (self.code & 0x2) == 0x2
    }

    /// Every register number that a word names is below 32.
    pub proof fn lemma_register_fields(self)
        ensures
            self.gpr_d() < 32,
            self.gpr_a() < 32,
            self.gpr_b() < 32,
            self.fpr_c() < 32,
            self.field_sh() < 32,
            self.field_mb() < 32,
            self.field_me() < 32,
            self.field_bi() < 32,
            self.field_bo() < 32,
            self.field_crfd() < 8,
            self.field_crfs() < 8,
    {
        lemma_field_bits(self.code);
    }
}

proof fn lemma_field_bits(code: u32)
    by (bit_vector)
    ensures
        ((code >> 21) & 0x1f) as u8 == code / 0x20_0000 % 32,
        ((code >> 16) & 0x1f) as u8 == code / 0x1_0000 % 32,
        ((code >> 11) & 0x1f) as u8 == code / 0x800 % 32,
        ((code >> 6) & 0x1f) as u8 == code / 0x40 % 32,
        ((code >> 1) & 0x1f) as u8 == code / 2 % 32,
        ((code >> 23) & 0x7) as u8 == code / 0x80_0000 % 8,
        ((code >> 18) & 0x7) as u8 == code / 0x4_0000 % 8,
        ((code >> 12) & 0xff) as u8 == code / 0x1000 % 256,
        (code & 0xffff) as u16 == code % 0x1_0000,
        (code & 0xffff) as i16 == if code % 0x1_0000 < 0x8000 {
            (code % 0x1_0000) as int
        } else {
            code % 0x1_0000 - 0x1_0000
        },
        (code & 0xfffc) as i16 == if code % 0x1_0000 < 0x8000 {
            (code % 0x1_0000 / 4) * 4
        } else {
            (code % 0x1_0000 / 4) * 4 - 0x1_0000
        },
        (((code & 0x3fffffc) << 6) as i32) >> 6 == if code % 0x400_0000 < 0x200_0000 {
            (code % 0x400_0000 / 4) * 4
        } else {
            (code % 0x400_0000 / 4) * 4 - 0x400_0000
        },
        (((code >> 16) & 0x1f) | ((code >> 6) & 0x3e0)) as u16 == code / 0x1_0000 % 32 + 32 * (code
            / 0x800 % 32),
        (((code & 0xffff) as i16) as i32) as u32 == if code % 0x1_0000 < 0x8000 {
            (code % 0x1_0000) as int
        } else {
            code % 0x1_0000 + 0xFFFF_0000
        },
        ((((code & 0xffff) as i16) as i32) << 16u32) as u32 == 0x1_0000 * (code % 0x1_0000),
        ((code & 0x400) == 0x400) == (code / 0x400 % 2 == 1),
        ((code & 0x1) == 0x1) == (code % 2 == 1),
        ((code & 0x2) == 0x2) == (code / 2 % 2 == 1),
{
}

/// The registers that an instruction word names, by their place in the word: each number
/// takes five bits, from the sixth of the word on, and field numbers three.
pub proof fn register_places(ins: Ins)
    ensures
        ins.gpr_d() == ins.code / 0x20_0000 % 32,
        ins.gpr_s() == ins.code / 0x20_0000 % 32,
        ins.fpr_d() == ins.code / 0x20_0000 % 32,
        ins.fpr_s() == ins.code / 0x20_0000 % 32,
        ins.field_crbd() == ins.code / 0x20_0000 % 32,
        ins.field_bo() == ins.code / 0x20_0000 % 32,
        ins.gpr_a() == ins.code / 0x1_0000 % 32,
        ins.fpr_a() == ins.code / 0x1_0000 % 32,
        ins.field_crba() == ins.code / 0x1_0000 % 32,
        ins.field_bi() == ins.code / 0x1_0000 % 32,
        ins.gpr_b() == ins.code / 0x800 % 32,
        ins.fpr_b() == ins.code / 0x800 % 32,
        ins.field_crbb() == ins.code / 0x800 % 32,
        ins.field_sh() == ins.code / 0x800 % 32,
        ins.field_nb() == ins.code / 0x800 % 32,
        ins.fpr_c() == ins.code / 0x40 % 32,
        ins.field_mb() == ins.code / 0x40 % 32,
        ins.field_me() == ins.code / 2 % 32,
        ins.field_crfd() == ins.code / 0x80_0000 % 8,
        ins.field_crfs() == ins.code / 0x4_0000 % 8,
        ins.field_crm() == ins.code / 0x1000 % 256,
{
    lemma_field_bits(ins.code);
}

/// The constants and flags that an instruction word holds: immediates and displacements
/// in the low halfword, branch displacements in multiples of four, the two halves of a
/// special-purpose register number in the opposite order, and single bits.
pub proof fn constant_places(ins: Ins)
    ensures
        ({
            let half = ins.code % 0x1_0000;
            let signed: int = if half < 0x8000 {
                half as int
            } else {
                half - 0x1_0000
            };
            let far = ins.code % 0x400_0000;
            &&& ins.field_uimm() == half
            &&& ins.field_simm() == signed
            &&& ins.field_offset() == signed
            &&& ins.field_bd() == signed - half % 4
            &&& ins.field_li() == (if far < 0x200_0000 {
                far as int
            } else {
                far - 0x400_0000
            }) - far % 4
        }),
        ins.field_spr() == ins.code / 0x1_0000 % 32 + 32 * (ins.code / 0x800 % 32),
        ins.field_tbr() == ins.code / 0x1_0000 % 32 + 32 * (ins.code / 0x800 % 32),
        ins.field_oe() <==> ins.code / 0x400 % 2 == 1,
        ins.field_rc() <==> ins.code % 2 == 1,
        ins.field_lk() <==> ins.code % 2 == 1,
        ins.field_aa() <==> ins.code / 2 % 2 == 1,
{
    lemma_field_bits(ins.code);
}

/// A signed constant as a word, and shifted to the upper half of a word.
pub proof fn constants_as_words(ins: Ins)
    ensures
        ins.field_simm() as i32 as u32 == if ins.field_simm() < 0 {
            ins.field_simm() + 0x1_0000_0000
        } else {
            ins.field_simm() as int
        },
        ((ins.field_simm() as i32) << 16u32) as u32 == if ins.field_simm() < 0 {
            0x1_0000 * ins.field_simm() + 0x1_0000_0000
        } else {
            0x1_0000 * ins.field_simm()
        },
{
    lemma_field_bits(ins.code);
}

} // verus!
