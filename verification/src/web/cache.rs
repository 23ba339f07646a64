//! Compiled blocks, keyed by the guest address that they start at.

use std::collections::HashMap;

use js_sys::WebAssembly::Module;
use vstd::prelude::*;
use wasm_bindgen::JsValue;

use crate::ppcwasm::WasmBlock;

verus! {

broadcast use vstd::std_specs::hash::group_hash_axioms;

/// A compiled module, `js_sys::WebAssembly::Module`. Nothing is known of what is
/// inside.
#[verifier::external_type_specification]
#[verifier::external_body]
pub struct ExModule(js_sys::WebAssembly::Module);

/// A value of the host, `wasm_bindgen::JsValue`. Nothing is known of what is inside.
#[verifier::external_type_specification]
#[verifier::external_body]
pub struct ExJsValue(wasm_bindgen::JsValue);

/// Compiled blocks.
pub struct WasmBlockCache {
    pub modules: HashMap<u32, Module>,
}

impl View for WasmBlockCache {
    type V = Map<u32, Module>;

    open spec fn view(&self) -> Map<u32, Module> {
        self.modules@
    }
}

/// Physical address of a guest address: the segment bits are dropped.
pub open spec fn physical_address(vaddr: u32) -> int {
    (vaddr & 0x01FF_FFFF) as int
}

/// Physical address of a guest address.
pub fn phys_addr(vaddr: u32) -> (addr: usize)
    ensures
        addr == physical_address(vaddr),
        addr <= 0x01FF_FFFF,
{
    proof {
        crate::bytes::physical_bits(vaddr);
    }
    (vaddr & 0x01FF_FFFF) as usize
}

/// Whether the word at guest address `pc` reaches into physical memory from `start`
/// up to `end`.
pub open spec fn overlaps(pc: u32, start: int, end: int) -> bool {
    start / 4 * 4 <= physical_address(pc) && physical_address(pc) / 4 * 4 < end
}

/// The blocks of `cache` that do not start in the given range.
pub open spec fn kept_outside(cache: Map<u32, Module>, start: int, end: int) -> Map<u32, Module> {
    cache.restrict(Set::new(|pc: u32| !overlaps(pc, start, end)))
}

/// Compiles a module with `js_sys::WebAssembly::Module::new`. Whether the host
/// accepts the bytes, and what the module is, is up to the host: nothing is claimed.
#[verifier::external_body]
fn compile_module(bytes: &[u8]) -> (compiled: Result<Module, JsValue>) {
    Module::new(&js_sys::Uint8Array::from(bytes))
}

impl WasmBlockCache {
    /// A cache without blocks.
    pub fn new() -> (cache: Self)
        ensures
            cache@ == Map::<u32, Module>::empty(),
    {
        WasmBlockCache { modules: HashMap::new() }
    }

    /// Compiles `block` and keeps it as the block at `pc`, unless there is one; gives
    /// the block at `pc`. It is compiled only if there is none.
    pub fn compile_and_cache(&mut self, pc: u32, block: &WasmBlock) -> (result: Result<
        &Module,
        JsValue,
    >)
        ensures
            old(self)@.contains_key(pc) ==> result is Ok && final(self)@ == old(self)@,
            match result {
                Ok(module) => {
                    &&& final(self)@.contains_key(pc) && final(self)@[pc] == *module
                    &&& !old(self)@.contains_key(pc) ==> final(self)@ == old(self)@.insert(
                        pc,
                        *module,
                    )
                },
                Err(_) => final(self)@ == old(self)@,
            },
    {
        if !self.modules.contains_key(&pc) {
            let compiled: Result<Module, JsValue> = compile_module(block.bytes.as_slice());
            return self.cache_module(pc, compiled);
        }
        Ok(self.modules.get(&pc).unwrap())
    }

    /// Keeps what the host made of the block at `pc`, unless there is one; gives the
    /// block at `pc`.
    pub fn cache_module(&mut self, pc: u32, compiled: Result<Module, JsValue>) -> (result: Result<
        &Module,
        JsValue,
    >)
        ensures
            match compiled {
                Ok(module) => {
                    &&& final(self)@ == if old(self)@.contains_key(pc) {
                        old(self)@
                    } else {
                        old(self)@.insert(pc, module)
                    }
                    &&& result is Ok && *result->Ok_0 == final(self)@[pc]
                },
                Err(error) => result is Err && result->Err_0 == error && final(self)@ == old(
                    self,
                )@,
            },
    {
        match compiled {
            Ok(module) => {
                if !self.modules.contains_key(&pc) {
                    self.modules.insert(pc, module);
                }
                Ok(self.modules.get(&pc).unwrap())
            },
            Err(error) => Err(error),
        }
    }

    /// The block at `pc`, if there is one.
    pub fn get(&self, pc: u32) -> (module: Option<&Module>)
        ensures
            match module {
                Some(m) => self@.contains_key(pc) && *m == self@[pc],
                None => !self@.contains_key(pc),
            },
    {
        self.modules.get(&pc)
    }

    /// Drops the block at `pc`.
    pub fn invalidate(&mut self, pc: u32)
        ensures
            final(self)@ == old(self)@.remove(pc),
    {
        self.modules.remove(&pc);
    }

    /// Number of blocks.
    pub fn len(&self) -> (len: usize)
        ensures
            len == self@.dom().len(),
    {
        self.modules.len()
    }

    /// Drops all blocks.
    pub fn clear(&mut self)
        ensures
            final(self)@ == Map::<u32, Module>::empty(),
    {
        self.modules.clear();
    }

    /// The addresses of the blocks, each once, in no particular order.
    pub fn pcs(&self) -> (pcs: Vec<u32>)
        ensures
            pcs@.to_set() == self@.dom(),
            pcs@.no_duplicates(),
    {
        let mut pcs: Vec<u32> = Vec::new();
        let ghost keys = vstd::std_specs::iter::IteratorSpec::remaining(
            &vstd::std_specs::hash::spec_keys_iter(&self.modules),
        );
        let ghost order = keys.unref();
        for pc in iter: self.modules.keys()
            invariant
                iter.seq().unref() == order,
                pcs@ == order.take(iter.index()),
        {
            pcs.push(*pc);
        }
        assert(pcs@ =~= order);
        assert(pcs@.no_duplicates()) by {
            assert(keys.no_duplicates());
            assert forall|i: int, j: int|
                0 <= i < pcs@.len() && 0 <= j < pcs@.len() && i != j implies pcs@[i]
                != pcs@[j] by {
                assert(keys[i] != keys[j]);
            }
        }
        pcs
    }

    /// Drops every block that starts in physical memory from `start` up to `end`.
    pub fn invalidate_range(&mut self, start: usize, end: usize)
        ensures
            final(self)@ == kept_outside(old(self)@, start as int, end as int),
    {
        let pcs: Vec<u32> = self.pcs();
        let mut i: usize = 0;
        let ghost all = self@;
        proof {
            assert(self@ =~= all.restrict(
                Set::new(
                    |pc: u32|
                        !overlaps(pc, start as int, end as int) || !pcs@.take(0).contains(pc),
                ),
            ));
        }
        while i < pcs.len()
            invariant
                i <= pcs@.len(),
                pcs@.to_set() == all.dom(),
                self@ == all.restrict(
                    Set::new(
                        |pc: u32|
                            !overlaps(pc, start as int, end as int) || !pcs@.take(
                                i as int,
                            ).contains(pc),
                    ),
                ),
            decreases pcs@.len() - i,
        {
            let pc: u32 = pcs[i];
            let at: usize = phys_addr(pc);
            let ghost before = self@;
            if start / 4 * 4 <= at && at / 4 * 4 < end {
                self.modules.remove(&pc);
            }
            proof {
                assert(pcs@.take(i + 1) =~= pcs@.take(i as int).push(pc));
                let kept = Set::new(
                    |p: u32|
                        !overlaps(p, start as int, end as int) || !pcs@.take(i + 1).contains(p),
                );
                assert forall|p: u32|
                    pcs@.take(i + 1).contains(p) <==> pcs@.take(i as int).contains(p) || p
                        == pc by {
                    let longer = pcs@.take(i + 1);
                    assert(longer[i as int] == pc);
                    if pcs@.take(i as int).contains(p) {
                        let k = pcs@.take(i as int).index_of(p);
                        assert(longer[k] == p);
                    }
                }
                assert(self@ =~= all.restrict(kept));
            }
            i = i + 1;
        }
        proof {
            assert(pcs@.take(i as int) =~= pcs@);
            assert forall|pc: u32| all.contains_key(pc) implies pcs@.contains(pc) by {
                assert(pcs@.to_set().contains(pc));
            }
            assert(self@ =~= kept_outside(all, start as int, end as int));
        }
    }
}

} // verus!
