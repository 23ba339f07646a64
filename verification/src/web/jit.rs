//! Compiling guest code.

use js_sys::WebAssembly::Module;
use vstd::prelude::*;
use wasm_bindgen::JsValue;

use super::cache::{phys_addr, physical_address};
use super::emulator::{EmuView, Stats, WasmEmulator};
use crate::bytes::{be32_at, read_be32};
use crate::disasm::{Extensions, Ins, Opcode};
use crate::ppcir::inst::label_views;
use crate::ppcir::translate::{decoded, BlockView};
use crate::ppcwasm::encode::{block_imports, block_module, Import};
use crate::ppcwasm::imports;
use crate::ppcwasm::jit::{compiled, short_blocks_compile};
use crate::ppcwasm::lower::{block_code, block_runs};
use crate::ppcwasm::{RegOffsets, WasmBlock};

verus! {

/// Most instructions of a block.
pub const MAX_BLOCK: usize = 32;

/// Why a block was not compiled.
pub enum CompileError {
    /// There is no memory at the address.
    NoInstructions,
    /// The host does not accept the module.
    Rejected(JsValue),
}

/// What is known of a block in the cache.
#[derive(Clone, Copy, Debug, PartialEq, Eq, Structural)]
pub struct BlockInfo {
    /// Guest address.
    pub pc: u32,
    /// Guest instructions.
    pub instruction_count: u32,
    /// Bytes of the module.
    pub wasm_byte_length: u32,
}

/// What the host needs to know to run a block.
pub struct ImportDescriptor {
    /// Bytes of main memory.
    pub ram_size: u32,
    /// Names of the functions that blocks import, by function index.
    pub hook_names: [&'static str; 14],
}

/// Whether the names are those of the hooks that every block imports, in order.
pub open spec fn names_imported_hooks(descriptor: ImportDescriptor) -> bool {
    forall|i: int|
        0 <= i < imports::COUNT ==> {
            &&& block_imports()[2 + i] matches Import::Function { module, name, .. }
            &&& module == "hooks"@
            &&& name == (#[trigger] descriptor.hook_names@[i])@
        }
}

/// Whether a block ends with an instruction.
pub open spec fn is_terminal(op: Opcode) -> bool {
    op == Opcode::B || op == Opcode::Bc || op == Opcode::Bclr || op == Opcode::Bcctr || op
        == Opcode::Rfi
}

/// Address of instruction `i` of the block at `pc`.
pub open spec fn nth_address(pc: u32, i: nat) -> u32 {
    ((pc + 4 * i) % 0x1_0000_0000) as u32
}

/// The instructions of the block at `pc` from number `i` on: up to a branch, to the
/// end of memory, or to the greatest length.
pub open spec fn fetched_from(ram: Seq<u8>, pc: u32, i: nat) -> Seq<(u32, Ins)>
    decreases MAX_BLOCK - i,
{
    let at = nth_address(pc, i);
    if i >= MAX_BLOCK || physical_address(at) + 4 > ram.len() {
        Seq::empty()
    } else {
        let ins = Ins::decoded(
            be32_at(ram, physical_address(at)),
            Extensions::gekko_broadway(),
        );
        if is_terminal(ins.op) {
            seq![(at, ins)]
        } else {
            seq![(at, ins)] + fetched_from(ram, pc, i + 1)
        }
    }
}

/// The instructions of the block at `pc`.
pub open spec fn fetched(ram: Seq<u8>, pc: u32) -> Seq<(u32, Ins)> {
    fetched_from(ram, pc, 0)
}

/// Whether every instruction of the block at `pc` has one after it in the address
/// space.
pub open spec fn has_successors(ram: Seq<u8>, pc: u32) -> bool {
    forall|i: int|
        0 <= i < fetched(ram, pc).len() ==> (#[trigger] fetched(ram, pc)[i]).0 <= u32::MAX - 4
}

/// A block is never longer than the greatest length, its instructions follow one
/// another, and only its last one may be a branch.
pub proof fn block_is_straight(ram: Seq<u8>, pc: u32, i: nat)
    requires
        i <= MAX_BLOCK,
    ensures
        fetched_from(ram, pc, i).len() <= MAX_BLOCK - i,
        forall|k: int|
            0 <= k < fetched_from(ram, pc, i).len() ==> {
                let (at, ins) = #[trigger] fetched_from(ram, pc, i)[k];
                &&& at == nth_address(pc, (i + k) as nat)
                &&& physical_address(at) + 4 <= ram.len()
                &&& is_terminal(ins.op) ==> k == fetched_from(ram, pc, i).len() - 1
            },
    decreases MAX_BLOCK - i,
{
    if i < MAX_BLOCK {
        block_is_straight(ram, pc, i + 1);
    }
}

/// With less memory than the address space has, no instruction is at its very end.
pub proof fn small_memory_has_successors(ram: Seq<u8>, pc: u32)
    requires
        ram.len() < 0x0200_0000,
    ensures
        has_successors(ram, pc),
{
    block_is_straight(ram, pc, 0);
    assert forall|i: int| 0 <= i < fetched(ram, pc).len() implies (#[trigger] fetched(
        ram,
        pc,
    )[i]).0 <= u32::MAX - 4 by {
        let at = fetched(ram, pc)[i].0;
        assert(at > 0xFFFF_FFFBu32 ==> at & 0x01FF_FFFF >= 0x01FF_FFFC) by (bit_vector);
    }
}

/// The counters after a block was compiled.
pub open spec fn compiled_stats(stats: Stats, pc: u32, block: BlockView, len: int) -> Stats {
    Stats {
        blocks_compiled: (stats.blocks_compiled + 1) as u64,
        last_compiled_pc: pc,
        last_compiled_ins_count: block.instruction_count as u32,
        last_compiled_wasm_bytes: len as u32,
        last_compiled_cycles: block.cycles as u32,
        unimplemented_block_count: if block.labels.len() == 0 {
            stats.unimplemented_block_count
        } else {
            (stats.unimplemented_block_count + 1) as u64
        },
        ..stats
    }
}

impl EmuView {
    /// The block at `pc`.
    pub open spec fn block_at(self, pc: u32) -> BlockView {
        decoded(fetched(self.ram, pc))
    }

    /// The module that the block at `pc` is compiled to.
    pub open spec fn module_at(self, pc: u32) -> Seq<u8> {
        let block = self.block_at(pc);
        block_module(
            block_runs(block.locals),
            block_code(block.insts, block.locals.len(), self.jit.reg_offsets()),
        )
    }

    /// Whether the counters have room for one more block.
    pub open spec fn can_count(self) -> bool {
        self.stats.blocks_compiled < u64::MAX && self.stats.unimplemented_block_count < u64::MAX
    }
}

impl WasmEmulator {
    /// The instructions of the block at `guest_pc`.
    pub fn fetch_instructions(&self, guest_pc: u32) -> (instructions: Vec<(u32, Ins)>)
        ensures
            instructions@ == fetched(self@.ram, guest_pc),
    {
        let mut out: Vec<(u32, Ins)> = Vec::new();
        let mut i: u32 = 0;
        let ghost all = fetched(self@.ram, guest_pc);
        proof {
            assert(out@ + all =~= all);
        }
        while i < 32
            invariant
                i <= 32,
                all == fetched(self@.ram, guest_pc),
                out@ + fetched_from(self@.ram, guest_pc, i as nat) == all,
            decreases 32 - i,
        {
            let pc: u32 = guest_pc.wrapping_add(4 * i);
            let addr: usize = phys_addr(pc);
            assert(pc == nth_address(guest_pc, i as nat));
            if addr + 4 > self.ram.len() {
                assert(out@ + Seq::<(u32, Ins)>::empty() =~= out@);
                return out;
            }
            let word: u32 = read_be32(self.ram.as_slice(), addr);
            let ins = Ins::new(word, Extensions::gekko_broadway());
            let ghost before = out@;
            out.push((pc, ins));
            let terminal: bool = match ins.op {
                Opcode::B | Opcode::Bc | Opcode::Bclr | Opcode::Bcctr | Opcode::Rfi => true,
                _ => false,
            };
            if terminal {
                assert(out@ =~= before + seq![(pc, ins)]);
                return out;
            }
            proof {
                let rest = fetched_from(self@.ram, guest_pc, (i + 1) as nat);
                assert(before + (seq![(pc, ins)] + rest) =~= out@ + rest);
            }
            i = i + 1;
        }
        assert(out@ + Seq::<(u32, Ins)>::empty() =~= out@);
        out
    }

    fn build_block(&self, guest_pc: u32) -> (block: Option<WasmBlock>)
        requires
            has_successors(self@.ram, guest_pc),
        ensures
            match block {
                None => fetched(self@.ram, guest_pc).len() == 0,
                Some(wasm) => fetched(self@.ram, guest_pc).len() > 0 && compiled(
                    wasm,
                    self@.block_at(guest_pc),
                    self@.jit.reg_offsets(),
                ),
            },
    {
        let instructions: Vec<(u32, Ins)> = self.fetch_instructions(guest_pc);
        proof {
            block_is_straight(self@.ram, guest_pc, 0);
            short_blocks_compile(instructions@);
        }
        self.jit.build(instructions.as_slice())
    }

    /// Notes that `block` was compiled from the instructions at `guest_pc`.
    fn count_block(&mut self, guest_pc: u32, block: &WasmBlock)
        requires
            old(self)@.can_count(),
            compiled(*block, old(self)@.block_at(guest_pc), old(self)@.jit.reg_offsets()),
        ensures
            final(self)@ == (EmuView {
                stats: compiled_stats(
                    old(self)@.stats,
                    guest_pc,
                    old(self)@.block_at(guest_pc),
                    block.bytes@.len() as int,
                ),
                ..old(self)@
            }),
    {
        self.stats.blocks_compiled = self.stats.blocks_compiled + 1;
        self.stats.last_compiled_pc = guest_pc;
        self.stats.last_compiled_ins_count = block.instruction_count;
        self.stats.last_compiled_wasm_bytes = block.bytes.len() as u32;
        self.stats.last_compiled_cycles = block.cycles;
        proof {
            assert(label_views(block.unimplemented_ops@).len() == block.unimplemented_ops@.len());
        }
        if block.unimplemented_ops.len() > 0 {
            self.stats.unimplemented_block_count = self.stats.unimplemented_block_count + 1;
        }
    }

    /// Compiles the block at `guest_pc`; gives the module.
    pub fn compile_block(&mut self, guest_pc: u32) -> (module: Result<Vec<u8>, CompileError>)
        requires
            has_successors(old(self)@.ram, guest_pc),
            old(self)@.can_count(),
        ensures
            if fetched(old(self)@.ram, guest_pc).len() == 0 {
                module == Err::<Vec<u8>, CompileError>(CompileError::NoInstructions) && final(
                    self)@ == old(self)@
            } else {
                &&& module is Ok
                &&& module->Ok_0@ == old(self)@.module_at(guest_pc)
                &&& final(self)@ == (EmuView {
                    stats: compiled_stats(
                        old(self)@.stats,
                        guest_pc,
                        old(self)@.block_at(guest_pc),
                        old(self)@.module_at(guest_pc).len() as int,
                    ),
                    ..old(self)@
                })
            },
    {
        match self.build_block(guest_pc) {
            None => Err(CompileError::NoInstructions),
            Some(block) => {
                self.count_block(guest_pc, &block);
                Ok(block.bytes)
            },
        }
    }

    /// Compiles the block at `guest_pc` into the cache, unless it is there.
    pub fn compile_and_cache_block(&mut self, guest_pc: u32) -> (info: Result<
        BlockInfo,
        CompileError,
    >)
        requires
            has_successors(old(self)@.ram, guest_pc),
            old(self)@.can_count(),
        ensures
            ({
                let known = old(self)@.cache.contains_key(guest_pc);
                let len = old(self)@.module_at(guest_pc).len();
                if fetched(old(self)@.ram, guest_pc).len() == 0 {
                    info == Err::<BlockInfo, CompileError>(CompileError::NoInstructions)
                        && final(self)@ == old(self)@
                } else {
                    match info {
                        Ok(found) => {
                            &&& found == (BlockInfo {
                                pc: guest_pc,
                                instruction_count: old(self)@.block_at(
                                    guest_pc,
                                ).instruction_count as u32,
                                wasm_byte_length: len as u32,
                            })
                            &&& final(self)@ == (EmuView {
                                cache: final(self)@.cache,
                                stats: compiled_stats(
                                    old(self)@.stats,
                                    guest_pc,
                                    old(self)@.block_at(guest_pc),
                                    len as int,
                                ),
                                ..old(self)@
                            })
                            &&& known ==> final(self)@.cache == old(self)@.cache
                            &&& !known ==> exists|module: Module|
                                final(self)@.cache == #[trigger] old(self)@.cache.insert(
                                    guest_pc,
                                    module,
                                )
                        },
                        Err(error) => error is Rejected && !known && final(self)@ == old(self)@,
                    }
                }
            }),
    {
        match self.build_block(guest_pc) {
            None => Err(CompileError::NoInstructions),
            Some(block) => {
                match self.cache.compile_and_cache(guest_pc, &block) {
                    Err(error) => {
                        return Err(CompileError::Rejected(error));
                    },
                    Ok(_) => {},
                }
                self.count_block(guest_pc, &block);
                Ok(
                    BlockInfo {
                        pc: guest_pc,
                        instruction_count: block.instruction_count,
                        wasm_byte_length: block.bytes.len() as u32,
                    },
                )
            },
        }
    }

    /// What the host needs to know to run a block.
    pub fn make_import_descriptor(&self) -> (descriptor: ImportDescriptor)
        requires
            self@.wf(),
        ensures
            descriptor.ram_size == self@.ram.len(),
            descriptor.hook_names[0]@ == "read_u8"@,
            descriptor.hook_names[1]@ == "read_u16"@,
            descriptor.hook_names[2]@ == "read_u32"@,
            descriptor.hook_names[3]@ == "read_f64"@,
            descriptor.hook_names[4]@ == "write_u8"@,
            descriptor.hook_names[5]@ == "write_u16"@,
            descriptor.hook_names[6]@ == "write_u32"@,
            descriptor.hook_names[7]@ == "write_f64"@,
            descriptor.hook_names[8]@ == "raise_exception"@,
            descriptor.hook_names[9]@ == "psq_load"@,
            descriptor.hook_names[10]@ == "psq_store"@,
            descriptor.hook_names[11]@ == "psq_load_size"@,
            descriptor.hook_names[12]@ == "icbi"@,
            descriptor.hook_names[13]@ == "isync"@,
            names_imported_hooks(descriptor),
    {
        ImportDescriptor {
            ram_size: self.ram.len() as u32,
            hook_names: [
                "read_u8",
                "read_u16",
                "read_u32",
                "read_f64",
                "write_u8",
                "write_u16",
                "write_u32",
                "write_f64",
                "raise_exception",
                "psq_load",
                "psq_store",
                "psq_load_size",
                "icbi",
                "isync",
            ],
        }
    }

    /// The offsets in the register image that compiled blocks use.
    pub fn get_reg_offsets(&self) -> (offsets: &RegOffsets)
        ensures
            *offsets == self@.jit.reg_offsets(),
    {
        self.jit.offsets()
    }
}

proof fn lemma_fetched(ram: Seq<u8>, pc: u32, i: nat, k: int)
    requires
        i <= 32,
    ensures
        ({
            let block = fetched_from(ram, pc, i);
            let n = block.len();
            let at = (pc + 4 * (i + k)) % 0x1_0000_0000 % 0x0200_0000;
            &&& i + n <= 32
            &&& 0 <= k < n ==> {
                &&& block[k].0 == (pc + 4 * (i + k)) % 0x1_0000_0000
                &&& block[k].1 == Ins::decoded(be32_at(ram, at), Extensions::gekko_broadway())
                &&& at + 4 <= ram.len()
                &&& k < n - 1 ==> !is_terminal(block[k].1.op)
            }
            &&& i + n < 32 && (n == 0 || !is_terminal(block[n - 1].1.op)) ==> (pc + 4 * (i + n))
                % 0x1_0000_0000 % 0x0200_0000 + 4 > ram.len()
        }),
    decreases 32 - i,
{
    let at = nth_address(pc, i);
    crate::bytes::low_address(at);
    if i < 32 && physical_address(at) + 4 <= ram.len() {
        lemma_fetched(ram, pc, i + 1, k - 1);
        let rest = fetched_from(ram, pc, i + 1);
        let ins = Ins::decoded(
            be32_at(ram, physical_address(at)),
            Extensions::gekko_broadway(),
        );
        if !is_terminal(ins.op) {
            let block = fetched_from(ram, pc, i);
            assert(block == seq![(at, ins)] + rest);
            assert(k > 0 && k < block.len() ==> block[k] == rest[k - 1]);
            assert(rest.len() > 0 ==> block[block.len() - 1] == rest[rest.len() - 1]);
        }
    }
}

/// Instruction `k` of a block is the word that main memory holds `4 k` bytes behind its
/// beginning, the most significant byte first and the address modulo 32 MiB. A block goes on
/// for 32 instructions, unless it comes to a branch or the return from an exception first,
/// or to the end of memory.
pub proof fn blocks_hold_what_memory_holds(ram: Seq<u8>, pc: u32, k: int)
    ensures
        ({
            let block = fetched(ram, pc);
            let n = block.len();
            let at = (pc + 4 * k) % 0x1_0000_0000 % 0x0200_0000;
            let word = 0x100_0000 * ram[at] + 0x1_0000 * ram[at + 1] + 0x100 * ram[at + 2] + ram[at
                + 3];
            &&& n <= 32
            &&& 0 <= k < n ==> {
                let op = block[k].1.op;
                &&& block[k].0 == (pc + 4 * k) % 0x1_0000_0000
                &&& block[k].1.code == word
                &&& at + 4 <= ram.len()
                &&& op is B || op is Bc || op is Bclr || op is Bcctr || op is Rfi ==> k == n - 1
            }
            &&& 0 < n < 32 ==> {
                let op = block[n - 1].1.op;
                ||| op is B || op is Bc || op is Bclr || op is Bcctr || op is Rfi
                ||| (pc + 4 * n) % 0x1_0000_0000 % 0x0200_0000 + 4 > ram.len()
            }
            &&& n == 0 ==> pc as int % 0x0200_0000 + 4 > ram.len()
        }),
{
    lemma_fetched(ram, pc, 0, k);
    crate::bytes::byte_order(ram, (pc + 4 * k) % 0x1_0000_0000 % 0x0200_0000);
}

} // verus!
