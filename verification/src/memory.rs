//! Guest memory for the interpreter.
//!
//! `MemoryHostABI` keeps every allocation as an owned byte buffer keyed by
//! its base address; it never hands out real machine addresses.  The model
//! of a memory is the sequence of `(base, bytes)` pairs in allocation
//! order, together with the bump cursor from which the next base is drawn.

use vstd::prelude::*;
use crate::ast::Type;
use crate::host::{spec_console_result, ConsoleHostABI, HostABI, HostResult, RuntimeValue};
use crate::host::{spec_storage_type, spec_value_type};

verus! {

/// One allocation: a base address and its owned bytes.
#[derive(Debug, Clone)]
pub(crate) struct MemBlock {
    pub(crate) base: u64,
    pub(crate) data: Vec<u8>,
}

/// A memory model: the `(base, bytes)` pair of each live allocation, in
/// allocation order.
pub type MemModel = Seq<(u64, Seq<u8>)>;

/// Whether a block's range covers `[addr, addr + size)`.
pub open spec fn spec_block_contains(blk: (u64, Seq<u8>), addr: u64, size: nat) -> bool {
    blk.0 <= addr && addr + size <= blk.0 + blk.1.len()
}

/// The index of the first block covering `[addr, addr + size)`.
pub open spec fn spec_find_block(m: MemModel, addr: u64, size: nat) -> Option<int>
    decreases m.len(),
{
    if m.len() == 0 {
        None
    } else if spec_block_contains(m[0], addr, size) {
        Some(0)
    } else {
        match spec_find_block(m.drop_first(), addr, size) {
            Some(i) => Some(i + 1),
            None => None,
        }
    }
}

/// The bytes at `[addr, addr + size)`, when some block covers that range.
pub open spec fn spec_read_bytes(m: MemModel, addr: u64, size: nat) -> Option<Seq<u8>> {
    match spec_find_block(m, addr, size) {
        Some(i) => {
            let off = addr - m[i].0;
            Some(m[i].1.subrange(off, off + size))
        }
        None => None,
    }
}

/// The memory after writing `data` at `addr`, when some block covers the
/// range; only that block's bytes change.
pub open spec fn spec_write_bytes(m: MemModel, addr: u64, data: Seq<u8>) -> Option<MemModel> {
    match spec_find_block(m, addr, data.len()) {
        Some(i) => {
            let off = addr - m[i].0;
            let blk = m[i];
            let spliced = blk.1.subrange(0, off)
                + data
                + blk.1.subrange(off + data.len(), blk.1.len() as int);
            Some(m.update(i, (blk.0, spliced)))
        }
        None => None,
    }
}

/// The index of the block whose base is exactly `addr`, if any.
pub open spec fn spec_find_base(m: MemModel, addr: u64) -> Option<int>
    decreases m.len(),
{
    if m.len() == 0 {
        None
    } else if m[0].0 == addr {
        Some(0)
    } else {
        match spec_find_base(m.drop_first(), addr) {
            Some(i) => Some(i + 1),
            None => None,
        }
    }
}

/// Reading a typed value: little-endian bytes of the value's storage
/// width; floats are carried as same-width integers; a stored `u64` out of
/// `usize` range cannot be read back as `Usize`.
pub open spec fn spec_read_value(m: MemModel, addr: u64, ty: Type) -> Option<RuntimeValue> {
    match ty {
        Type::I32 | Type::F32 => match spec_read_bytes(m, addr, 4) {
            Some(bs) => Some(RuntimeValue::I32(vstd::bytes::spec_u32_from_le_bytes(bs) as i32)),
            None => None,
        },
        Type::I64 | Type::F64 => match spec_read_bytes(m, addr, 8) {
            Some(bs) => Some(RuntimeValue::I64(vstd::bytes::spec_u64_from_le_bytes(bs) as i64)),
            None => None,
        },
        Type::Usize => if crate::vm::spec_usize_bytes() == 8 {
            match spec_read_bytes(m, addr, 8) {
                Some(bs) => {
                    let v = vstd::bytes::spec_u64_from_le_bytes(bs);
                    if v <= usize::MAX as u64 {
                        Some(RuntimeValue::Usize(v as usize))
                    } else {
                        None
                    }
                }
                None => None,
            }
        } else {
            match spec_read_bytes(m, addr, 4) {
                Some(bs) => Some(RuntimeValue::Usize(
                    vstd::bytes::spec_u32_from_le_bytes(bs) as usize)),
                None => None,
            }
        },
        Type::Void => None,
    }
}

/// The little-endian bytes a runtime value is stored as — a `Usize`
/// occupies exactly the platform word; `Void` has none.
pub open spec fn spec_value_bytes(v: RuntimeValue) -> Option<Seq<u8>> {
    match v {
        RuntimeValue::I32(x) => Some(vstd::bytes::spec_u32_to_le_bytes(x as u32)),
        RuntimeValue::I64(x) => Some(vstd::bytes::spec_u64_to_le_bytes(x as u64)),
        RuntimeValue::Usize(x) => if crate::vm::spec_usize_bytes() == 8 {
            Some(vstd::bytes::spec_u64_to_le_bytes(x as u64))
        } else {
            Some(vstd::bytes::spec_u32_to_le_bytes(x as u32))
        },
        RuntimeValue::Void => None,
    }
}

/// Writing a typed value at an address.
pub open spec fn spec_write_value(m: MemModel, addr: u64, v: RuntimeValue) -> Option<MemModel> {
    match spec_value_bytes(v) {
        Some(bs) => spec_write_bytes(m, addr, bs),
        None => None,
    }
}

/// What a memory host call returns and how it changes the memory model:
/// `alloc` follows the allocator's bump-and-pad discipline, `free` removes
/// the block based exactly at the given address, and every other name
/// behaves as the console does, leaving the memory unchanged.
pub open spec fn spec_memory_call_result(
    name: Seq<char>,
    args: Seq<RuntimeValue>,
    m_old: MemModel,
    nb_old: u64,
    m_new: MemModel,
    nb_new: u64,
    r: HostResult,
) -> bool {
    if name == "alloc"@ {
        if args.len() == 1 {
            match args[0] {
                RuntimeValue::Usize(sz) => (
                if sz == 0 {
                    r == Ok::<RuntimeValue, String>(RuntimeValue::Usize(0))
                        && m_new == m_old && nb_new == nb_old
                } else if nb_old + sz + 8 <= u64::MAX {
                    if nb_old <= usize::MAX as u64 {
                        r == Ok::<RuntimeValue, String>(RuntimeValue::Usize(nb_old as usize))
                            && m_new =~= m_old.push(
                                (nb_old, Seq::<u8>::new(sz as nat, |j: int| 0u8)))
                            && nb_new == nb_old + sz + 8
                    } else {
                        r is Err
                    }
                } else {
                    r == Ok::<RuntimeValue, String>(RuntimeValue::Usize(0))
                        && m_new == m_old && nb_new == nb_old
                }),
                _ => r is Err,
            }
        } else {
            r is Err
        }
    } else if name == "free"@ {
        if args.len() == 1 {
            match args[0] {
                RuntimeValue::Usize(p) => (
                if p == 0 {
                    r == Ok::<RuntimeValue, String>(RuntimeValue::Void)
                } else {
                    match spec_find_base(m_old, p as u64) {
                        Some(i) => r == Ok::<RuntimeValue, String>(RuntimeValue::Void)
                            && m_new =~= m_old.remove(i),
                        None => r is Err,
                    }
                }),
                _ => r is Err,
            }
        } else {
            r is Err
        }
    } else {
        spec_console_result(name, args, r) && m_new == m_old && nb_new == nb_old
    }
}

/// In-process guest memory plus the console functions, for the VM.
pub struct MemoryHostABI {
    pub(crate) blocks: Vec<MemBlock>,
    pub(crate) next_addr: u64,
}

impl MemoryHostABI {
    /// The live allocations, in allocation order.
    pub closed spec fn mem(&self) -> MemModel {
        self.blocks@.map_values(|b: MemBlock| (b.base, b.data@))
    }

    /// The base address the next allocation would receive.
    pub closed spec fn next_base(&self) -> u64 {
        self.next_addr
    }

    /// A fresh memory: no allocations, bases starting at 0x1000.
    pub fn new() -> (r: MemoryHostABI)
        ensures
            r.mem() =~= Seq::<(u64, Seq<u8>)>::empty(),
            r.next_base() == 0x1000,
    {
        MemoryHostABI { blocks: Vec::new(), next_addr: 0x1000 }
    }

    /// Read `size` bytes starting at `addr`: succeeds with exactly the
    /// covered bytes when a single allocation covers the range.
    pub fn read_memory(&self, addr: u64, size: usize) -> (r: Result<Vec<u8>, String>)
        ensures
            match spec_read_bytes(self.mem(), addr, size as nat) {
                Some(bs) => r matches Ok(v) && v@ == bs,
                None => r is Err,
            },
    {
        proof {
            lemma_find_block_ok(self.mem(), addr, size as nat);
        }
        let n: usize = self.blocks.len();
        let mut i: usize = 0;
        while i < n
            invariant
                n == self.blocks@.len(),
                i <= n,
                self.mem().len() == n,
                forall|j: int| 0 <= j < n ==> self.mem()[j]
                    == (self.blocks@[j].base, self.blocks@[j].data@),
                forall|j: int| 0 <= j < i
                    ==> !spec_block_contains(self.mem()[j], addr, size as nat),
            decreases n - i,
        {
            let base = self.blocks[i].base;
            let len: usize = self.blocks[i].data.len();
            if addr >= base {
                let off = addr - base;
                if off <= len as u64 && size as u64 <= len as u64 - off {
                    proof {
                        assert(spec_block_contains(self.mem()[i as int], addr, size as nat));
                        lemma_find_block_first(self.mem(), addr, size as nat, i as int);
                    }
                    let off_us: usize = off as usize;
                    let part = vstd::slice::slice_subrange(
                        self.blocks[i].data.as_slice(), off_us, off_us + size);
                    let out = vstd::slice::slice_to_vec(part);
                    return Ok(out);
                }
            }
            proof {
                assert(!spec_block_contains(self.mem()[i as int], addr, size as nat));
            }
            i = i + 1;
        }
        proof {
            lemma_find_block_first(self.mem(), addr, size as nat, n as int);
        }
        Err("Invalid memory access".to_owned())
    }

    /// Write `data` at `addr`: succeeds exactly when a single allocation
    /// covers the range, changing only those bytes.
    pub fn write_memory(&mut self, addr: u64, data: &[u8]) -> (r: Result<(), String>)
        ensures
            match spec_write_bytes(old(self).mem(), addr, data@) {
                Some(m2) => r is Ok && final(self).mem() =~= m2
                    && final(self).next_base() == old(self).next_base(),
                None => r is Err && *final(self) == *old(self),
            },
    {
        proof {
            lemma_find_block_ok(self.mem(), addr, data@.len());
        }
        let n: usize = self.blocks.len();
        let size: usize = data.len();
        let mut i: usize = 0;
        while i < n
            invariant
                self.blocks == old(self).blocks,
                self.next_addr == old(self).next_addr,
                n == self.blocks@.len(),
                i <= n,
                size == data@.len(),
                self.mem().len() == n,
                forall|j: int| 0 <= j < n ==> self.mem()[j]
                    == (self.blocks@[j].base, self.blocks@[j].data@),
                forall|j: int| 0 <= j < i
                    ==> !spec_block_contains(self.mem()[j], addr, size as nat),
            decreases n - i,
        {
            let base = self.blocks[i].base;
            let len: usize = self.blocks[i].data.len();
            if addr >= base {
                let off = addr - base;
                if off <= len as u64 && size as u64 <= len as u64 - off {
                    proof {
                        assert(spec_block_contains(self.mem()[i as int], addr, size as nat));
                        lemma_find_block_first(self.mem(), addr, size as nat, i as int);
                    }
                    let ghost m0 = self.mem();
                    let ghost orig = self.blocks@[i as int].data@;
                    let off_us: usize = off as usize;
                    let mut buf: Vec<u8> = vstd::slice::slice_to_vec(
                        self.blocks[i].data.as_slice());
                    let mut k: usize = 0;
                    while k < size
                        invariant
                            k <= size,
                            size == data@.len(),
                            off_us + size <= buf@.len(),
                            buf@.len() <= usize::MAX,
                            buf@.len() == orig.len(),
                            forall|t: int| 0 <= t < off_us ==> buf@[t] == orig[t],
                            forall|t: int| 0 <= t < k ==> buf@[off_us + t] == data@[t],
                            forall|t: int| off_us + k <= t < buf@.len() ==> buf@[t] == orig[t],
                        decreases size - k,
                    {
                        buf[off_us + k] = data[k];
                        k = k + 1;
                    }
                    let new_block = MemBlock { base, data: buf };
                    self.blocks[i] = new_block;
                    proof {
                        let off_i = addr - m0[i as int].0;
                        let spliced = m0[i as int].1.subrange(0, off_i)
                            + data@
                            + m0[i as int].1.subrange(off_i + size, m0[i as int].1.len() as int);
                        assert(m0[i as int].1 == orig);
                        assert(m0[i as int].0 == base);
                        assert(self.blocks@[i as int].data@ =~= spliced);
                        assert(self.mem() =~= m0.update(i as int, (m0[i as int].0, spliced)));
                    }
                    return Ok(());
                }
            }
            proof {
                assert(!spec_block_contains(self.mem()[i as int], addr, size as nat));
            }
            i = i + 1;
        }
        proof {
            lemma_find_block_first(self.mem(), addr, size as nat, n as int);
        }
        Err("Invalid memory write".to_owned())
    }

    /// Read one typed value, little-endian, at `addr`.
    pub fn read_value(&self, addr: u64, ty: Type) -> (r: Result<RuntimeValue, String>)
        ensures
            match spec_read_value(self.mem(), addr, ty) {
                Some(v) => r == Ok::<RuntimeValue, String>(v),
                None => r is Err,
            },
    {
        match ty {
            Type::I32 | Type::F32 => {
                proof {
                    lemma_find_block_ok(self.mem(), addr, 4);
                }
                match self.read_memory(addr, 4) {
                    Ok(bytes) => {
                        let x = vstd::bytes::u32_from_le_bytes(bytes.as_slice());
                        Ok(RuntimeValue::I32(#[verifier::truncate] (x as i32)))
                    }
                    Err(e) => Err(e),
                }
            }
            Type::I64 | Type::F64 => {
                proof {
                    lemma_find_block_ok(self.mem(), addr, 8);
                }
                match self.read_memory(addr, 8) {
                    Ok(bytes) => {
                        let x = vstd::bytes::u64_from_le_bytes(bytes.as_slice());
                        Ok(RuntimeValue::I64(#[verifier::truncate] (x as i64)))
                    }
                    Err(e) => Err(e),
                }
            }
            Type::Usize => {
                if crate::vm::usize_bytes() == 8 {
                    proof {
                        lemma_find_block_ok(self.mem(), addr, 8);
                    }
                    match self.read_memory(addr, 8) {
                        Ok(bytes) => {
                            let x = vstd::bytes::u64_from_le_bytes(bytes.as_slice());
                            if x <= usize::MAX as u64 {
                                Ok(RuntimeValue::Usize(x as usize))
                            } else {
                                Err("stored address exceeds the platform word".to_owned())
                            }
                        }
                        Err(e) => Err(e),
                    }
                } else {
                    proof {
                        lemma_find_block_ok(self.mem(), addr, 4);
                    }
                    match self.read_memory(addr, 4) {
                        Ok(bytes) => {
                            let x = vstd::bytes::u32_from_le_bytes(bytes.as_slice());
                            Ok(RuntimeValue::Usize(x as usize))
                        }
                        Err(e) => Err(e),
                    }
                }
            }
            Type::Void => Err("Cannot read void type from memory".to_owned()),
        }
    }

    /// Write one typed value, little-endian, at `addr`.
    pub fn write_value(&mut self, addr: u64, value: &RuntimeValue) -> (r: Result<(), String>)
        ensures
            match spec_write_value(old(self).mem(), addr, *value) {
                Some(m2) => r is Ok && final(self).mem() =~= m2
                    && final(self).next_base() == old(self).next_base(),
                None => r is Err && *final(self) == *old(self),
            },
    {
        match value {
            RuntimeValue::I32(v) => {
                let bytes = vstd::bytes::u32_to_le_bytes(#[verifier::truncate] (*v as u32));
                self.write_memory(addr, bytes.as_slice())
            }
            RuntimeValue::I64(v) => {
                let bytes = vstd::bytes::u64_to_le_bytes(#[verifier::truncate] (*v as u64));
                self.write_memory(addr, bytes.as_slice())
            }
            RuntimeValue::Usize(v) => {
                if crate::vm::usize_bytes() == 8 {
                    let bytes = vstd::bytes::u64_to_le_bytes(*v as u64);
                    self.write_memory(addr, bytes.as_slice())
                } else {
                    let bytes = vstd::bytes::u32_to_le_bytes(#[verifier::truncate] (*v as u32));
                    self.write_memory(addr, bytes.as_slice())
                }
            }
            RuntimeValue::Void => Err("Cannot write void type to memory".to_owned()),
        }
    }

    /// Allocate `size` bytes of zeroed guest memory.  A zero size yields
    /// the null address; so does an exhausted address space.  Otherwise
    /// the new block starts at the current cursor, which advances past it
    /// with 8 bytes of padding.
    fn allocate(&mut self, size: u64) -> (r: u64)
        ensures
            size == 0 ==> r == 0 && *final(self) == *old(self),
            size != 0 && old(self).next_base() + size + 8 <= u64::MAX ==> {
                &&& r == old(self).next_base()
                &&& final(self).mem() =~= old(self).mem().push(
                    (r, Seq::<u8>::new(size as nat, |j: int| 0u8)))
                &&& final(self).next_base() == old(self).next_base() + size + 8
            },
            size != 0 && old(self).next_base() + size + 8 > u64::MAX ==> r == 0
                && *final(self) == *old(self),
    {
        if size == 0 {
            return 0;
        }
        if size > u64::MAX - 8 || self.next_addr > u64::MAX - (size + 8) {
            return 0;
        }
        let addr = self.next_addr;
        self.next_addr = self.next_addr + size + 8;
        let mut data: Vec<u8> = Vec::new();
        let mut k: u64 = 0;
        while k < size
            invariant
                k <= size,
                data@ =~= Seq::<u8>::new(k as nat, |j: int| 0u8),
            decreases size - k,
        {
            data.push(0u8);
            proof {
                assert(data@ =~= Seq::<u8>::new(k as nat + 1, |j: int| 0u8));
            }
            k = k + 1;
        }
        let blk = MemBlock { base: addr, data };
        self.blocks.push(blk);
        proof {
            assert(self.mem() =~= old(self).mem().push(
                (addr, Seq::<u8>::new(size as nat, |j: int| 0u8))));
        }
        addr
    }

    /// Free the allocation whose base is exactly `addr`.  Freeing the null
    /// address is a no-op; any other unknown address is an error.
    fn deallocate(&mut self, addr: u64) -> (r: Result<(), String>)
        ensures
            addr == 0 ==> r is Ok && *final(self) == *old(self),
            addr != 0 ==> match spec_find_base(old(self).mem(), addr) {
                Some(i) => r is Ok && final(self).mem() =~= old(self).mem().remove(i)
                    && final(self).next_base() == old(self).next_base(),
                None => r is Err && *final(self) == *old(self),
            },
    {
        proof {
            lemma_find_base_ok(self.mem(), addr);
        }
        if addr == 0 {
            return Ok(());
        }
        let n: usize = self.blocks.len();
        let mut i: usize = 0;
        while i < n
            invariant
                addr != 0,
                self.blocks == old(self).blocks,
                self.next_addr == old(self).next_addr,
                n == self.blocks@.len(),
                i <= n,
                self.mem().len() == n,
                forall|j: int| 0 <= j < n ==> self.mem()[j]
                    == (self.blocks@[j].base, self.blocks@[j].data@),
                forall|j: int| 0 <= j < i ==> self.mem()[j].0 != addr,
            decreases n - i,
        {
            if self.blocks[i].base == addr {
                proof {
                    lemma_find_base_first(self.mem(), addr, i as int);
                }
                let ghost m0 = self.mem();
                self.blocks.remove(i);
                proof {
                    assert(self.mem() =~= m0.remove(i as int));
                }
                return Ok(());
            }
            i = i + 1;
        }
        proof {
            lemma_find_base_first(self.mem(), addr, n as int);
        }
        Err("Attempt to free invalid address".to_owned())
    }
}

/// A found block index is in bounds and covers the requested range.
pub proof fn lemma_find_block_ok(m: MemModel, addr: u64, size: nat)
    ensures
        spec_find_block(m, addr, size) matches Some(i)
            ==> 0 <= i < m.len() && spec_block_contains(m[i], addr, size),
    decreases m.len(),
{
    if m.len() > 0 && !spec_block_contains(m[0], addr, size) {
        lemma_find_block_ok(m.drop_first(), addr, size);
    }
}

/// A found base index is in bounds and names a block with that base.
pub proof fn lemma_find_base_ok(m: MemModel, addr: u64)
    ensures
        spec_find_base(m, addr) matches Some(i) ==> 0 <= i < m.len() && m[i].0 == addr,
    decreases m.len(),
{
    if m.len() > 0 && m[0].0 != addr {
        lemma_find_base_ok(m.drop_first(), addr);
    }
}

/// Finding a block looks only at each block's base and length, never at
/// its bytes.
proof fn lemma_find_block_same_shape(m1: MemModel, m2: MemModel, addr: u64, size: nat)
    requires
        m1.len() == m2.len(),
        forall|j: int| 0 <= j < m1.len()
            ==> m2[j].0 == m1[j].0 && m2[j].1.len() == m1[j].1.len(),
    ensures
        spec_find_block(m2, addr, size) == spec_find_block(m1, addr, size),
    decreases m1.len(),
{
    if m1.len() > 0 {
        assert(spec_block_contains(m2[0], addr, size)
            == spec_block_contains(m1[0], addr, size));
        let r1 = m1.drop_first();
        let r2 = m2.drop_first();
        assert(forall|j: int| 0 <= j < r1.len()
            ==> r2[j].0 == r1[j].0 && r2[j].1.len() == r1[j].1.len());
        lemma_find_block_same_shape(r1, r2, addr, size);
    }
}

/// Memory round-trip: storing a typed value and loading it back at the
/// same address under the same type yields exactly the stored value,
/// whenever the store lands inside a live allocation.
pub proof fn lemma_memory_round_trip(m: MemModel, addr: u64, v: RuntimeValue, ty: Type)
    requires
        spec_storage_type(ty) == spec_value_type(v),
        v != RuntimeValue::Void,
        spec_write_value(m, addr, v) is Some,
    ensures
        spec_read_value(spec_write_value(m, addr, v)->0, addr, ty) == Some(v),
{
    vstd::bytes::lemma_auto_spec_u32_to_from_le_bytes();
    vstd::bytes::lemma_auto_spec_u64_to_from_le_bytes();
    let bs = spec_value_bytes(v)->0;
    let size = bs.len();
    let i = spec_find_block(m, addr, size)->0;
    lemma_find_block_ok(m, addr, size);
    let off = addr - m[i].0;
    let blk = m[i];
    let spliced = blk.1.subrange(0, off) + bs
        + blk.1.subrange(off + size, blk.1.len() as int);
    let m2 = spec_write_value(m, addr, v)->0;
    assert(m2 == m.update(i, (blk.0, spliced)));
    assert(spliced.len() == blk.1.len());
    assert(forall|j: int| 0 <= j < m.len()
        ==> m2[j].0 == m[j].0 && m2[j].1.len() == m[j].1.len());
    lemma_find_block_same_shape(m, m2, addr, size);
    assert(spec_find_block(m2, addr, size) == Some(i));
    assert(m2[i].1.subrange(off, off + size) =~= bs);
    assert(spec_read_bytes(m2, addr, size) == Some(bs));
    match v {
        RuntimeValue::I32(x) => {
            assert(vstd::bytes::spec_u32_from_le_bytes(bs) == x as u32);
            assert((x as u32) as i32 == x) by (bit_vector);
        }
        RuntimeValue::I64(x) => {
            assert(vstd::bytes::spec_u64_from_le_bytes(bs) == x as u64);
            assert((x as u64) as i64 == x) by (bit_vector);
        }
        RuntimeValue::Usize(x) => {
            if crate::vm::spec_usize_bytes() == 8 {
                assert(vstd::bytes::spec_u64_from_le_bytes(bs) == x as u64);
            } else {
                assert(usize::MAX == u32::MAX as usize);
                assert(vstd::bytes::spec_u32_from_le_bytes(bs) == x as u32);
                assert((x as u32) as usize == x);
            }
        }
        RuntimeValue::Void => {}
    }
}

/// If no block before `i` covers the range, the first covering block is at
/// or after `i`.
proof fn lemma_find_block_first(m: MemModel, addr: u64, size: nat, i: int)
    requires
        0 <= i <= m.len(),
        forall|j: int| 0 <= j < i ==> !spec_block_contains(m[j], addr, size),
    ensures
        i < m.len() && spec_block_contains(m[i], addr, size)
            ==> spec_find_block(m, addr, size) == Some(i),
        i == m.len() ==> spec_find_block(m, addr, size) is None,
    decreases m.len(),
{
    if m.len() == 0 {
    } else if i == 0 {
    } else {
        assert(!spec_block_contains(m[0], addr, size));
        let rest = m.drop_first();
        assert(forall|j: int| 0 <= j < i - 1 ==> rest[j] == m[j + 1]);
        lemma_find_block_first(rest, addr, size, i - 1);
        if i < m.len() && spec_block_contains(m[i], addr, size) {
            assert(rest[i - 1] == m[i]);
        }
    }
}

/// If no block before `i` has base `addr`, the first such block is at or
/// after `i`.
proof fn lemma_find_base_first(m: MemModel, addr: u64, i: int)
    requires
        0 <= i <= m.len(),
        forall|j: int| 0 <= j < i ==> m[j].0 != addr,
    ensures
        i < m.len() && m[i].0 == addr ==> spec_find_base(m, addr) == Some(i),
        i == m.len() ==> spec_find_base(m, addr) is None,
    decreases m.len(),
{
    if m.len() == 0 {
    } else if i == 0 {
    } else {
        let rest = m.drop_first();
        assert(forall|j: int| 0 <= j < i - 1 ==> rest[j] == m[j + 1]);
        lemma_find_base_first(rest, addr, i - 1);
        if i < m.len() && m[i].0 == addr {
            assert(rest[i - 1] == m[i]);
        }
    }
}

impl HostABI for MemoryHostABI {
    /// `alloc` and `free` drive the allocator; every other name is served
    /// by the console.
    fn call_host_function(&mut self, name: &str, args: &[RuntimeValue]) -> (r: HostResult)
        ensures
            spec_memory_call_result(
                name@, args@,
                old(self).mem(), old(self).next_base(),
                final(self).mem(), final(self).next_base(), r),
    {
        proof {
            reveal_strlit("alloc");
            reveal_strlit("free");
        }
        if crate::text::str_eq(name, "alloc") {
            if args.len() != 1 {
                return Err("alloc expects 1 argument".to_owned());
            }
            match args[0].try_as_ptr() {
                Some(size) => {
                    let addr = self.allocate(size);
                    if addr <= usize::MAX as u64 {
                        Ok(RuntimeValue::Usize(addr as usize))
                    } else {
                        Err("allocated address exceeds the platform word".to_owned())
                    }
                }
                None => Err("alloc expects a usize argument".to_owned()),
            }
        } else if crate::text::str_eq(name, "free") {
            if args.len() != 1 {
                return Err("free expects 1 argument".to_owned());
            }
            match args[0].try_as_ptr() {
                Some(addr) => {
                    proof {
                        lemma_find_base_ok(self.mem(), addr);
                    }
                    match self.deallocate(addr) {
                        Ok(()) => Ok(RuntimeValue::Void),
                        Err(e) => Err(e),
                    }
                }
                None => Err("free expects a usize argument".to_owned()),
            }
        } else {
            let mut console = ConsoleHostABI::new();
            console.call_host_function(name, args)
        }
    }

    fn available_functions(&self) -> (r: Vec<String>)
        ensures
            r@.len() == 8,
    {
        let mut v: Vec<String> = Vec::new();
        v.push("alloc".to_owned());
        v.push("free".to_owned());
        v.push("print_hello".to_owned());
        v.push("print_i32".to_owned());
        v.push("print_i64".to_owned());
        v.push("print_char".to_owned());
        v.push("println".to_owned());
        v.push("read_i32".to_owned());
        v
    }

    fn has_function(&self, name: &str) -> (r: bool)
        ensures
            r == (name@ == "alloc"@ || name@ == "free"@
                || crate::host::spec_console_has(name@)),
    {
        crate::text::str_eq(name, "alloc") || crate::text::str_eq(name, "free")
            || crate::text::str_eq(name, "print_hello")
            || crate::text::str_eq(name, "print_i32")
            || crate::text::str_eq(name, "print_i64")
            || crate::text::str_eq(name, "print_char")
            || crate::text::str_eq(name, "println")
            || crate::text::str_eq(name, "read_i32")
    }

    fn read_memory_value(&self, addr: u64, ty: Type) -> (r: Result<RuntimeValue, String>)
        ensures
            match spec_read_value(self.mem(), addr, ty) {
                Some(v) => r == Ok::<RuntimeValue, String>(v),
                None => r is Err,
            },
    {
        self.read_value(addr, ty)
    }

    fn write_memory_value(&mut self, addr: u64, value: &RuntimeValue) -> (r: Result<(), String>)
        ensures
            match spec_write_value(old(self).mem(), addr, *value) {
                Some(m2) => r is Ok && final(self).mem() =~= m2,
                None => r is Err && *final(self) == *old(self),
            },
    {
        self.write_value(addr, value)
    }
}

} // verus!
