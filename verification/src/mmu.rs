//! Address translation and virtual memory access. Virtual addresses are
//! translated per Sv32 (32-bit harts) or Sv39 (64-bit harts) while paging is
//! on, and are physical addresses otherwise. Page tables are read from
//! DRAM. A page-table entry whose accessed bit is clear, or whose dirty bit
//! is clear on a store, is updated in memory; no page fault is raised for
//! it.

use vstd::prelude::*;
use crate::bus::bus_fu540::{accepts, bus_at_reset, BusFu540, BusView, DRAM_ADDRESS_START};
use crate::cpu::cpu::{PrivilegeMode, Xlen};
use crate::cpu::encoding::field;
use crate::cpu::trap::{Exception, Trap};
use crate::memory::{le_bytes, le_uint, load, store};

verus! {

pub const PAGE_SIZE: u64 = 0x1000;

/// Number of entries of the direct-mapped translation cache.
pub const TLB_SIZE: usize = 64;

// Weights of the flag bits of a page-table entry.
pub const PTE_V: u64 = 0x01;

pub const PTE_R: u64 = 0x02;

pub const PTE_W: u64 = 0x04;

pub const PTE_X: u64 = 0x08;

pub const PTE_U: u64 = 0x10;

pub const PTE_G: u64 = 0x20;

pub const PTE_A: u64 = 0x40;

pub const PTE_D: u64 = 0x80;

// Weights of the bits of `mstatus` that govern memory access.
pub const MSTATUS_MPP: u64 = 0x800;

pub const MSTATUS_MPRV: u64 = 0x2_0000;

pub const MSTATUS_SUM: u64 = 0x4_0000;

pub const MSTATUS_MXR: u64 = 0x8_0000;

/// The translation schemes.
#[derive(Clone, Copy, Debug, PartialEq, Eq, Structural)]
pub enum AddressingMode {
    Bare,
    Sv32,
    Sv39,
}

/// What an access is made for.
#[derive(Clone, Copy, Debug, PartialEq, Eq, Structural)]
pub enum AccessType {
    Fetch,
    Load,
    Store,
}

/// One cached translation of a 4 KiB page.
#[derive(Clone, Copy, Debug)]
pub struct TlbEntry {
    pub valid: bool,
    /// Virtual page number.
    pub vpn: u64,
    /// The address space that the entry was made in.
    pub asid: u64,
    /// The entry holds in every address space.
    pub global: bool,
    /// Physical page number.
    pub ppn: u64,
    /// The flag bits of the leaf page-table entry.
    pub flags: u64,
}

/// What the hart tells the MMU about itself.
#[derive(Clone, Copy, Debug)]
pub struct MmuRegs {
    pub xlen: Xlen,
    pub privilege: PrivilegeMode,
    pub satp: u64,
    pub mstatus: u64,
}

/// The flag of weight `weight` is set in `pte`.
pub open spec fn flag(pte: u64, weight: u64) -> bool {
    field(pte as int, weight as int, 2) == 1
}

/// The privilege mode that a two-bit field denotes; the reserved value 2
/// reads as machine mode.
pub open spec fn privilege_of(code: int) -> PrivilegeMode {
    if code == 0 {
        PrivilegeMode::User
    } else if code == 1 {
        PrivilegeMode::Supervisor
    } else {
        PrivilegeMode::Machine
    }
}

impl MmuRegs {
    /// The translation scheme that `satp` selects.
    pub open spec fn mode(self) -> AddressingMode {
        match self.xlen {
            Xlen::X32 => if field(self.satp as int, 0x8000_0000, 2) == 1 {
                AddressingMode::Sv32
            } else {
                AddressingMode::Bare
            },
            Xlen::X64 => if self.satp / 0x1000_0000_0000_0000 == 8 {
                AddressingMode::Sv39
            } else {
                AddressingMode::Bare
            },
        }
    }

    /// The address-space identifier in `satp`.
    pub open spec fn asid(self) -> u64 {
        match self.xlen {
            Xlen::X32 => field(self.satp as int, 0x40_0000, 0x200) as u64,
            Xlen::X64 => field(self.satp as int, 0x1000_0000_0000, 0x1_0000) as u64,
        }
    }

    /// The physical page number of the root page table in `satp`.
    pub open spec fn root(self) -> u64 {
        match self.xlen {
            Xlen::X32 => (self.satp % 0x40_0000) as u64,
            Xlen::X64 => (self.satp % 0x1000_0000_0000) as u64,
        }
    }

    /// The privilege mode that an access is made with: loads and stores
    /// take the previous mode while `mstatus.MPRV` is set.
    pub open spec fn effective_privilege(self, access: AccessType) -> PrivilegeMode {
        if access != AccessType::Fetch && flag(self.mstatus, MSTATUS_MPRV) {
            privilege_of(field(self.mstatus as int, MSTATUS_MPP as int, 4))
        } else {
            self.privilege
        }
    }

    /// Whether addresses of this access are translated: never in machine
    /// mode, and never in bare mode.
    pub open spec fn translates(self, access: AccessType) -> bool {
        self.effective_privilege(access) != PrivilegeMode::Machine && self.mode()
            != AddressingMode::Bare
    }
}

/// Bytes of a page-table entry.
pub open spec fn pte_size(mode: AddressingMode) -> int {
    if mode == AddressingMode::Sv32 {
        4
    } else {
        8
    }
}

/// Levels of the page table.
pub open spec fn levels(mode: AddressingMode) -> int {
    if mode == AddressingMode::Sv32 {
        2
    } else {
        3
    }
}

/// The number of 4 KiB pages that a leaf of level `level` maps.
pub open spec fn level_pages(mode: AddressingMode, level: int) -> int {
    if level <= 0 {
        1
    } else if mode == AddressingMode::Sv32 {
        0x400
    } else if level == 1 {
        0x200
    } else {
        0x4_0000
    }
}

/// The index into the page table of level `level` that `va` selects.
pub open spec fn vpn_index(mode: AddressingMode, va: u64, level: int) -> int {
    if mode == AddressingMode::Sv32 {
        field((va / PAGE_SIZE) as int, level_pages(mode, level), 0x400)
    } else {
        field((va / PAGE_SIZE) as int, level_pages(mode, level), 0x200)
    }
}

/// The physical page number in a page-table entry.
pub open spec fn pte_ppn(mode: AddressingMode, pte: u64) -> int {
    if mode == AddressingMode::Sv32 {
        pte as int / 0x400
    } else {
        field(pte as int, 0x400, 0x1000_0000_0000)
    }
}

/// Whether `va` is a virtual address of the scheme: under Sv39 the bits
/// 63:39 must equal bit 38.
pub open spec fn canonical(mode: AddressingMode, va: u64) -> bool {
    mode != AddressingMode::Sv39 || va / 0x40_0000_0000 == 0 || va / 0x40_0000_0000 == 0x3ff_ffff
}

/// Whether a leaf with the flags of `pte` permits the access. Fetches need
/// X; loads need R, or X while `mstatus.MXR` is set; stores need W. User
/// mode needs U; supervisor mode may not fetch from a U page, and may load
/// from and store to one only while `mstatus.SUM` is set.
pub open spec fn permitted(
    pte: u64,
    access: AccessType,
    privilege: PrivilegeMode,
    sum: bool,
    mxr: bool,
) -> bool {
    &&& match access {
        AccessType::Fetch => flag(pte, PTE_X),
        AccessType::Load => flag(pte, PTE_R) || (mxr && flag(pte, PTE_X)),
        AccessType::Store => flag(pte, PTE_W),
    }
    &&& match privilege {
        PrivilegeMode::User => flag(pte, PTE_U),
        PrivilegeMode::Supervisor => !flag(pte, PTE_U) || (sum && access != AccessType::Fetch),
        PrivilegeMode::Machine => true,
    }
}

/// `pte` with the accessed flag set, and the dirty flag if the access is a
/// store.
pub open spec fn touched(pte: u64, access: AccessType) -> u64 {
    let a = if flag(pte, PTE_A) {
        pte
    } else {
        (pte + PTE_A) as u64
    };
    if access == AccessType::Store && !flag(a, PTE_D) {
        (a + PTE_D) as u64
    } else {
        a
    }
}

/// Where a page-table walk ends.
pub enum Walk {
    /// At a leaf entry `pte`, stored at physical address `pte_addr`.
    Leaf { pte_addr: u64, pte: u64, level: u8 },
    /// At an entry that is invalid, reserved, or a pointer at level 0.
    PageFault,
    /// At an entry that does not lie in DRAM.
    AccessFault,
}

/// The walk for `va` through the table at physical address `table`, from
/// `level` down.
pub open spec fn walk(mode: AddressingMode, dram: Seq<u8>, table: int, va: u64, level: nat) -> Walk
    decreases level,
{
    let pte_addr = table + vpn_index(mode, va, level as int) * pte_size(mode);
    if !(DRAM_ADDRESS_START <= pte_addr && pte_addr - DRAM_ADDRESS_START + pte_size(mode)
        <= dram.len()) {
        Walk::AccessFault
    } else {
        let pte = le_uint(load(dram, pte_addr - DRAM_ADDRESS_START, pte_size(mode))) as u64;
        if !flag(pte, PTE_V) || (!flag(pte, PTE_R) && flag(pte, PTE_W)) {
            Walk::PageFault
        } else if flag(pte, PTE_R) || flag(pte, PTE_X) {
            Walk::Leaf { pte_addr: pte_addr as u64, pte, level: level as u8 }
        } else if level == 0 {
            Walk::PageFault
        } else {
            walk(mode, dram, pte_ppn(mode, pte) * PAGE_SIZE, va, (level - 1) as nat)
        }
    }
}

/// The exception that a failed translation or access raises.
pub open spec fn page_fault(access: AccessType) -> Exception {
    match access {
        AccessType::Fetch => Exception::InstructionPageFault,
        AccessType::Load => Exception::LoadPageFault,
        AccessType::Store => Exception::StorePageFault,
    }
}

/// The exception of an access that reaches nothing.
pub open spec fn access_fault(access: AccessType) -> Exception {
    match access {
        AccessType::Fetch => Exception::InstructionAccessFault,
        AccessType::Load => Exception::LoadAccessFault,
        AccessType::Store => Exception::StoreAccessFault,
    }
}

/// The MMU, and the bus behind it, as a mathematical value.
pub struct MmuView {
    pub regs: MmuRegs,
    pub tlb: Seq<TlbEntry>,
    pub bus: BusView,
}

/// The outcome of a translation: the physical address or the trap, the
/// DRAM contents and the cache entry for the page afterwards.
pub struct Translation {
    pub result: Result<u64, Trap>,
    pub dram: Seq<u8>,
    pub entry: TlbEntry,
}

impl MmuView {
    /// Well-formedness: the cache has its size.
    pub open spec fn wf(self) -> bool {
        self.tlb.len() == TLB_SIZE
    }

    /// The cache slot of the page of `va`.
    pub open spec fn slot(va: u64) -> int {
        (va / PAGE_SIZE) as int % TLB_SIZE as int
    }

    /// Whether the cache answers for `va`: the slot holds the page in the
    /// current address space or globally, and on a store the page is
    /// already marked dirty.
    pub open spec fn hits(self, va: u64, access: AccessType) -> bool {
        let e = self.tlb[Self::slot(va)];
        &&& e.valid
        &&& e.vpn == va / PAGE_SIZE
        &&& (e.global || e.asid == self.regs.asid())
        &&& (access != AccessType::Store || flag(e.flags, PTE_D))
    }

    /// The translation of `va` by a walk of the page tables in DRAM.
    pub open spec fn walked(self, va: u64, access: AccessType) -> Translation {
        let mode = self.regs.mode();
        let old_entry = self.tlb[Self::slot(va)];
        let fault = |e: Exception|
            Translation {
                result: Err(Trap { exception: e, value: va }),
                dram: self.bus.dram,
                entry: old_entry,
            };
        if !canonical(mode, va) {
            fault(page_fault(access))
        } else {
            match walk(
                mode,
                self.bus.dram,
                self.regs.root() * PAGE_SIZE,
                va,
                (levels(mode) - 1) as nat,
            ) {
                Walk::AccessFault => fault(access_fault(access)),
                Walk::PageFault => fault(page_fault(access)),
                Walk::Leaf { pte_addr, pte, level } => {
                    let pages = level_pages(mode, level as int);
                    if pte_ppn(mode, pte) % pages != 0 || !permitted(
                        pte,
                        access,
                        self.regs.effective_privilege(access),
                        flag(self.regs.mstatus, MSTATUS_SUM),
                        flag(self.regs.mstatus, MSTATUS_MXR),
                    ) {
                        fault(page_fault(access))
                    } else {
                        let ppn = pte_ppn(mode, pte) + (va / PAGE_SIZE) as int % pages;
                        Translation {
                            result: Ok((ppn * PAGE_SIZE + va % PAGE_SIZE) as u64),
                            dram: store(
                                self.bus.dram,
                                pte_addr - DRAM_ADDRESS_START,
                                le_bytes(touched(pte, access) as nat, pte_size(mode) as nat),
                            ),
                            entry: TlbEntry {
                                valid: true,
                                vpn: va / PAGE_SIZE,
                                asid: self.regs.asid(),
                                global: flag(pte, PTE_G),
                                ppn: ppn as u64,
                                flags: touched(pte, access) % 0x100,
                            },
                        }
                    }
                },
            }
        }
    }

    /// The physical address that `va` translates to, or the trap that the
    /// translation raises.
    pub open spec fn translate_result(self, va: u64, access: AccessType) -> Result<u64, Trap> {
        if !self.regs.translates(access) {
            Ok(va)
        } else if self.hits(va, access) {
            let e = self.tlb[Self::slot(va)];
            if permitted(
                e.flags,
                access,
                self.regs.effective_privilege(access),
                flag(self.regs.mstatus, MSTATUS_SUM),
                flag(self.regs.mstatus, MSTATUS_MXR),
            ) {
                Ok(((e.ppn % 0x10_0000_0000_0000) * PAGE_SIZE + va % PAGE_SIZE) as u64)
            } else {
                Err(Trap { exception: page_fault(access), value: va })
            }
        } else {
            self.walked(va, access).result
        }
    }

    /// The MMU after the translation of `va`: a translation that the cache
    /// does not answer walks the page tables, which may set accessed and
    /// dirty flags in DRAM, and caches its result.
    pub open spec fn after_translate(self, va: u64, access: AccessType) -> MmuView {
        if !self.regs.translates(access) || self.hits(va, access) {
            self
        } else {
            let t = self.walked(va, access);
            MmuView {
                tlb: self.tlb.update(Self::slot(va), t.entry),
                bus: BusView { dram: t.dram, ..self.bus },
                ..self
            }
        }
    }

    /// Whether a fence for (`vaddr`, `asid`) removes the entry: zero stands
    /// for every address and for every address space, and a global entry
    /// belongs to every address space.
    pub open spec fn fenced(e: TlbEntry, vaddr: u64, asid: u64) -> bool {
        (vaddr == 0 || e.vpn == vaddr / PAGE_SIZE) && (asid == 0 || e.global || e.asid == asid)
    }

    /// The MMU after `SFENCE.VMA` for (`vaddr`, `asid`).
    pub open spec fn after_fence(self, vaddr: u64, asid: u64) -> MmuView {
        MmuView {
            tlb: Seq::new(
                self.tlb.len(),
                |i: int|
                    if Self::fenced(self.tlb[i], vaddr, asid) {
                        TlbEntry { valid: false, ..self.tlb[i] }
                    } else {
                        self.tlb[i]
                    },
            ),
            ..self
        }
    }

    /// What one bus transaction of `n` bytes at virtual address `va`
    /// returns: the value read at the physical address that `va` translates
    /// to; the trap of the translation; or an access fault where the bus
    /// maps nothing there or the device does not take the width.
    pub open spec fn load_result(self, va: u64, n: nat, access: AccessType) -> Result<u64, Trap> {
        match self.translate_result(va, access) {
            Err(t) => Err(t),
            Ok(pa) => if !accepts(pa, n as int) {
                Err(Trap { exception: access_fault(access), value: va })
            } else {
                match self.after_translate(va, access).bus.read_result(pa, n) {
                    Ok(v) => Ok(v),
                    Err(_) => Err(Trap { exception: access_fault(access), value: va }),
                }
            },
        }
    }

    /// The MMU after that transaction.
    pub open spec fn after_load(self, va: u64, n: nat, access: AccessType) -> MmuView {
        let m = self.after_translate(va, access);
        match self.translate_result(va, access) {
            Err(_) => m,
            Ok(pa) => if !accepts(pa, n as int) {
                m
            } else {
                MmuView { bus: m.bus.after_read(pa, n), ..m }
            },
        }
    }

    /// Whether one bus transaction that writes `n` bytes at virtual address
    /// `va` succeeds, and the trap if it does not.
    pub open spec fn store_result(self, va: u64, n: nat) -> Result<(), Trap> {
        match self.translate_result(va, AccessType::Store) {
            Err(t) => Err(t),
            Ok(pa) => if !accepts(pa, n as int) {
                Err(Trap { exception: Exception::StoreAccessFault, value: va })
            } else {
                match self.after_translate(va, AccessType::Store).bus.write_result(pa, n) {
                    Ok(_) => Ok(()),
                    Err(_) => Err(Trap { exception: Exception::StoreAccessFault, value: va }),
                }
            },
        }
    }

    /// The MMU after that transaction.
    pub open spec fn after_store(self, va: u64, n: nat, data: u64) -> MmuView {
        let m = self.after_translate(va, AccessType::Store);
        match self.translate_result(va, AccessType::Store) {
            Err(_) => m,
            Ok(pa) => if !accepts(pa, n as int) {
                m
            } else {
                MmuView { bus: m.bus.after_write(pa, n, data), ..m }
            },
        }
    }

    /// What a read of `n` bytes from `va` on returns when it is made byte
    /// by byte in ascending order: the little-endian value of the bytes, or
    /// the trap of the first byte that fails.
    pub open spec fn load_split_result(self, va: u64, n: nat) -> Result<u64, Trap>
        decreases n,
    {
        if n == 0 {
            Ok(0)
        } else {
            match self.load_result(va, 1, AccessType::Load) {
                Err(t) => Err(t),
                Ok(b) => match self.after_load(va, 1, AccessType::Load).load_split_result(
                    next_address(va),
                    (n - 1) as nat,
                ) {
                    Err(t) => Err(t),
                    Ok(rest) => Ok((b + 0x100 * rest) as u64),
                },
            }
        }
    }

    /// The MMU after that read, which ends at the first byte that fails.
    pub open spec fn after_load_split(self, va: u64, n: nat) -> MmuView
        decreases n,
    {
        if n == 0 {
            self
        } else {
            let m = self.after_load(va, 1, AccessType::Load);
            match self.load_result(va, 1, AccessType::Load) {
                Err(_) => m,
                Ok(_) => m.after_load_split(next_address(va), (n - 1) as nat),
            }
        }
    }

    /// Whether a write of `n` bytes from `va` on succeeds when it is made
    /// byte by byte in ascending order, and the trap of the first byte that
    /// fails if it does not.
    pub open spec fn store_split_result(self, va: u64, n: nat, data: u64) -> Result<(), Trap>
        decreases n,
    {
        if n == 0 {
            Ok(())
        } else {
            match self.store_result(va, 1) {
                Err(t) => Err(t),
                Ok(_) => self.after_store(va, 1, data % 0x100).store_split_result(
                    next_address(va),
                    (n - 1) as nat,
                    data / 0x100,
                ),
            }
        }
    }

    /// The MMU after that write of the `n` low bytes of `data`, least
    /// significant first, which ends at the first byte that fails.
    pub open spec fn after_store_split(self, va: u64, n: nat, data: u64) -> MmuView
        decreases n,
    {
        if n == 0 {
            self
        } else {
            let m = self.after_store(va, 1, data % 0x100);
            match self.store_result(va, 1) {
                Err(_) => m,
                Ok(_) => m.after_store_split(next_address(va), (n - 1) as nat, data / 0x100),
            }
        }
    }

    /// What a load of `n` bytes from `va` returns: one bus transaction
    /// where `va` is a multiple of `n`, else byte by byte.
    #[verifier::opaque]
    pub open spec fn read_result(self, va: u64, n: nat) -> Result<u64, Trap> {
        if va % (n as u64) == 0 {
            self.load_result(va, n, AccessType::Load)
        } else {
            self.load_split_result(va, n)
        }
    }

    /// The MMU after that load.
    #[verifier::opaque]
    pub open spec fn after_read(self, va: u64, n: nat) -> MmuView {
        if va % (n as u64) == 0 {
            self.after_load(va, n, AccessType::Load)
        } else {
            self.after_load_split(va, n)
        }
    }

    /// Whether a store of `n` bytes to `va` succeeds: one bus transaction
    /// where `va` is a multiple of `n`, else byte by byte.
    #[verifier::opaque]
    pub open spec fn write_result(self, va: u64, n: nat, data: u64) -> Result<(), Trap> {
        if va % (n as u64) == 0 {
            self.store_result(va, n)
        } else {
            self.store_split_result(va, n, data)
        }
    }

    /// The MMU after that store.
    #[verifier::opaque]
    pub open spec fn after_write(self, va: u64, n: nat, data: u64) -> MmuView {
        if va % (n as u64) == 0 {
            self.after_store(va, n, data)
        } else {
            self.after_store_split(va, n, data)
        }
    }

    /// What an instruction fetch at `pc` returns: the 16-bit parcel at `pc`
    /// if it is a compressed instruction, else the 32-bit word made of it
    /// and the parcel that follows. The second parcel is read only where
    /// the first calls for it.
    #[verifier::opaque]
    pub open spec fn fetch_result(self, pc: u64) -> Result<u32, Trap> {
        match self.load_result(pc, 2, AccessType::Fetch) {
            Err(t) => Err(t),
            Ok(low) => if low % 4 != 3 {
                Ok(low as u32)
            } else {
                match self.after_load(pc, 2, AccessType::Fetch).load_result(
                    next_parcel(pc),
                    2,
                    AccessType::Fetch,
                ) {
                    Err(t) => Err(t),
                    Ok(high) => Ok((low + 0x1_0000 * high) as u32),
                }
            },
        }
    }

    /// The MMU after that fetch.
    #[verifier::opaque]
    pub open spec fn after_fetch(self, pc: u64) -> MmuView {
        let m = self.after_load(pc, 2, AccessType::Fetch);
        match self.load_result(pc, 2, AccessType::Fetch) {
            Err(_) => m,
            Ok(low) => if low % 4 != 3 {
                m
            } else {
                m.after_load(next_parcel(pc), 2, AccessType::Fetch)
            },
        }
    }

    /// What a read of the word at physical address `pa` returns, with no
    /// translation.
    pub open spec fn direct_result(self, pa: u64) -> Result<u32, Trap> {
        match self.bus.read_result(pa, 4) {
            Ok(v) => Ok(v as u32),
            Err(_) => Err(Trap { exception: Exception::LoadAccessFault, value: pa }),
        }
    }
}

/// A loaded value narrowed to the width it was loaded with, a trap passed
/// on.
pub open spec fn narrowed8(r: Result<u64, Trap>) -> Result<u8, Trap> {
    match r {
        Ok(v) => Ok(v as u8),
        Err(t) => Err(t),
    }
}

/// The same for a halfword.
pub open spec fn narrowed16(r: Result<u64, Trap>) -> Result<u16, Trap> {
    match r {
        Ok(v) => Ok(v as u16),
        Err(t) => Err(t),
    }
}

/// The same for a word.
pub open spec fn narrowed32(r: Result<u64, Trap>) -> Result<u32, Trap> {
    match r {
        Ok(v) => Ok(v as u32),
        Err(t) => Err(t),
    }
}

/// The address after `va`, wrapping at the end of the address space.
pub open spec fn next_address(va: u64) -> u64 {
    if va == u64::MAX {
        0
    } else {
        (va + 1) as u64
    }
}

/// The address of the parcel after the one at `pc`, wrapping at the end of
/// the address space.
pub open spec fn next_parcel(pc: u64) -> u64 {
    if pc >= u64::MAX - 1 {
        (pc - (u64::MAX - 1)) as u64
    } else {
        (pc + 2) as u64
    }
}

impl MmuView {
    /// `other` has the registers of `self` and a cache of the same size.
    pub open spec fn keeps_shape(self, other: MmuView) -> bool {
        other.regs == self.regs && other.tlb.len() == self.tlb.len()
    }
}

/// No access changes what the hart has told the MMU, nor the size of the
/// cache.
pub proof fn lemma_load_keeps_shape(m: MmuView, va: u64, n: nat, access: AccessType)
    requires
        m.wf(),
    ensures
        m.keeps_shape(m.after_translate(va, access)),
        m.keeps_shape(m.after_load(va, n, access)),
        m.keeps_shape(m.after_store(va, n, 0)),
{
}

/// A store changes neither what the hart has told the MMU nor the size of
/// the cache.
pub proof fn lemma_store_keeps_shape(m: MmuView, va: u64, n: nat, data: u64)
    requires
        m.wf(),
    ensures
        m.keeps_shape(m.after_store(va, n, data)),
{
}

/// Nor does a load that is made byte by byte.
pub proof fn lemma_load_split_keeps_shape(m: MmuView, va: u64, n: nat)
    requires
        m.wf(),
    ensures
        m.keeps_shape(m.after_load_split(va, n)),
    decreases n,
{
    if n > 0 {
        lemma_load_keeps_shape(m, va, 1, AccessType::Load);
        lemma_load_split_keeps_shape(
            m.after_load(va, 1, AccessType::Load),
            next_address(va),
            (n - 1) as nat,
        );
    }
}

/// Nor does a store that is made byte by byte.
pub proof fn lemma_store_split_keeps_shape(m: MmuView, va: u64, n: nat, data: u64)
    requires
        m.wf(),
    ensures
        m.keeps_shape(m.after_store_split(va, n, data)),
    decreases n,
{
    if n > 0 {
        lemma_store_keeps_shape(m, va, 1, data % 0x100);
        lemma_store_split_keeps_shape(
            m.after_store(va, 1, data % 0x100),
            next_address(va),
            (n - 1) as nat,
            data / 0x100,
        );
    }
}

/// A read, a write, a fetch and a fence leave the MMU well formed and what
/// the hart has told it unchanged.
pub proof fn lemma_access_keeps_shape(m: MmuView, va: u64, n: nat, data: u64)
    requires
        m.wf(),
    ensures
        m.keeps_shape(m.after_read(va, n)),
        m.keeps_shape(m.after_write(va, n, data)),
        m.keeps_shape(m.after_fetch(va)),
        m.keeps_shape(m.after_fence(va, data)),
{
    reveal(MmuView::after_read);
    reveal(MmuView::after_write);
    reveal(MmuView::after_fetch);
    lemma_load_keeps_shape(m, va, n, AccessType::Load);
    lemma_load_split_keeps_shape(m, va, n);
    lemma_store_keeps_shape(m, va, n, data);
    lemma_store_split_keeps_shape(m, va, n, data);
    lemma_load_keeps_shape(m, va, 2, AccessType::Fetch);
    lemma_load_keeps_shape(
        m.after_load(va, 2, AccessType::Fetch),
        next_parcel(va),
        2,
        AccessType::Fetch,
    );
}

/// Paging off is identity: in bare mode, and for every access made with
/// machine privilege, a virtual address is its own physical address, and
/// translating it changes nothing.
pub proof fn lemma_identity_when_paging_off(m: MmuView, va: u64, access: AccessType)
    requires
        m.regs.mode() == AddressingMode::Bare || m.regs.effective_privilege(access)
            == PrivilegeMode::Machine,
    ensures
        m.translate_result(va, access) == Ok::<u64, Trap>(va),
        m.after_translate(va, access) == m,
{
}

/// After a fence for every address and every address space the cache holds
/// no entry, so no translation is answered from it: each is the result of a
/// walk of the page tables as they are in memory then.
pub proof fn lemma_fence_all_leaves_nothing_stale(m: MmuView, va: u64, access: AccessType)
    requires
        m.wf(),
    ensures
        forall|i: int| 0 <= i < TLB_SIZE ==> !(#[trigger] m.after_fence(0, 0).tlb[i]).valid,
        !m.after_fence(0, 0).hits(va, access),
        m.after_fence(0, 0).regs.translates(access) ==> m.after_fence(0, 0).translate_result(
            va,
            access,
        ) == m.after_fence(0, 0).walked(va, access).result,
{
}

fn has_flag(pte: u64, weight: u64) -> (r: bool)
    requires
        weight > 0,
    ensures
        r == flag(pte, weight),
{
    (pte / weight) % 2 == 1
}

fn privilege_from(code: u64) -> (r: PrivilegeMode)
    ensures
        r == privilege_of(code as int),
{
    if code == 0 {
        PrivilegeMode::User
    } else if code == 1 {
        PrivilegeMode::Supervisor
    } else {
        PrivilegeMode::Machine
    }
}

fn is_permitted(
    pte: u64,
    access: AccessType,
    privilege: PrivilegeMode,
    sum: bool,
    mxr: bool,
) -> (r: bool)
    ensures
        r == permitted(pte, access, privilege, sum, mxr),
{
    let by_access = match access {
        AccessType::Fetch => has_flag(pte, PTE_X),
        AccessType::Load => has_flag(pte, PTE_R) || (mxr && has_flag(pte, PTE_X)),
        AccessType::Store => has_flag(pte, PTE_W),
    };
    let by_privilege = match privilege {
        PrivilegeMode::User => has_flag(pte, PTE_U),
        PrivilegeMode::Supervisor => !has_flag(pte, PTE_U) || (sum && !matches!(
            access,
            AccessType::Fetch
        )),
        PrivilegeMode::Machine => true,
    };
    by_access && by_privilege
}

fn touch(pte: u64, access: AccessType) -> (r: u64)
    ensures
        r == touched(pte, access),
{
    let a = if has_flag(pte, PTE_A) {
        pte
    } else {
        pte + PTE_A
    };
    if matches!(access, AccessType::Store) && !has_flag(a, PTE_D) {
        a + PTE_D
    } else {
        a
    }
}

fn page_fault_of(access: AccessType) -> (r: Exception)
    ensures
        r == page_fault(access),
{
    match access {
        AccessType::Fetch => Exception::InstructionPageFault,
        AccessType::Load => Exception::LoadPageFault,
        AccessType::Store => Exception::StorePageFault,
    }
}

fn access_fault_of(access: AccessType) -> (r: Exception)
    ensures
        r == access_fault(access),
{
    match access {
        AccessType::Fetch => Exception::InstructionAccessFault,
        AccessType::Load => Exception::LoadAccessFault,
        AccessType::Store => Exception::StoreAccessFault,
    }
}

/// A cache that holds nothing.
pub open spec fn fresh_tlb() -> Seq<TlbEntry> {
    Seq::new(
        TLB_SIZE as nat,
        |i: int| TlbEntry { valid: false, vpn: 0, asid: 0, global: false, ppn: 0, flags: 0 },
    )
}

/// The MMU of a 64-bit hart at reset, in front of a bus at reset: machine
/// mode, paging off, nothing cached.
pub open spec fn mmu_at_reset(m: MmuView) -> bool {
    &&& m.wf()
    &&& m.regs == (MmuRegs {
        xlen: Xlen::X64,
        privilege: PrivilegeMode::Machine,
        satp: 0,
        mstatus: 0,
    })
    &&& m.tlb == fresh_tlb()
    &&& bus_at_reset(m.bus)
}

/// The MMU. It owns the bus, and with it memory and devices.
pub struct Mmu {
    regs: MmuRegs,
    tlb: [TlbEntry; 64],
    bus: BusFu540,
}

impl View for Mmu {
    type V = MmuView;

    closed spec fn view(&self) -> MmuView {
        MmuView { regs: self.regs, tlb: self.tlb@, bus: self.bus@ }
    }
}

impl Mmu {
    /// An MMU in front of a fresh bus, for a 64-bit hart in machine mode
    /// with paging off and nothing cached.
    pub fn new() -> (m: Mmu)
        ensures
            mmu_at_reset(m@),
    {
        let empty = TlbEntry { valid: false, vpn: 0, asid: 0, global: false, ppn: 0, flags: 0 };
        let m = Mmu {
            regs: MmuRegs {
                xlen: Xlen::X64,
                privilege: PrivilegeMode::Machine,
                satp: 0,
                mstatus: 0,
            },
            tlb: [empty; 64],
            bus: BusFu540::new(),
        };
        assert(m.tlb@ =~= fresh_tlb());
        m
    }

    /// Takes over what the hart says about itself.
    pub fn update_regs(&mut self, regs: MmuRegs)
        ensures
            final(self)@ == (MmuView { regs, ..old(self)@ }),
    {
        self.regs = regs;
    }

    /// Takes over the register width of the hart.
    pub fn update_xlen(&mut self, xlen: Xlen)
        ensures
            final(self)@ == (MmuView { regs: MmuRegs { xlen, ..old(self)@.regs }, ..old(self)@ }),
    {
        self.regs.xlen = xlen;
    }

    /// Takes over the privilege mode of the hart.
    pub fn update_privilege(&mut self, privilege: PrivilegeMode)
        ensures
            final(self)@ == (MmuView {
                regs: MmuRegs { privilege, ..old(self)@.regs },
                ..old(self)@
            }),
    {
        self.regs.privilege = privilege;
    }

    /// Takes over `satp`.
    pub fn update_satp(&mut self, satp: u64)
        ensures
            final(self)@ == (MmuView { regs: MmuRegs { satp, ..old(self)@.regs }, ..old(self)@ }),
    {
        self.regs.satp = satp;
    }

    /// Takes over `mstatus`.
    pub fn update_mstatus(&mut self, mstatus: u64)
        ensures
            final(self)@ == (MmuView { regs: MmuRegs { mstatus, ..old(self)@.regs }, ..old(self)@ }),
    {
        self.regs.mstatus = mstatus;
    }

    /// The bus behind the MMU, to read from.
    pub fn bus(&self) -> (bus: &BusFu540)
        ensures
            bus@ == self@.bus,
    {
        &self.bus
    }

    /// The bus behind the MMU.
    pub fn get_bus(&mut self) -> (bus: &mut BusFu540)
        ensures
            bus@ == old(self)@.bus,
            final(self)@ == (MmuView { bus: final(bus)@, ..old(self)@ }),
    {
        &mut self.bus
    }

    fn mode(&self) -> (r: AddressingMode)
        ensures
            r == self@.regs.mode(),
    {
        match self.regs.xlen {
            Xlen::X32 => if (self.regs.satp / 0x8000_0000) % 2 == 1 {
                AddressingMode::Sv32
            } else {
                AddressingMode::Bare
            },
            Xlen::X64 => if self.regs.satp / 0x1000_0000_0000_0000 == 8 {
                AddressingMode::Sv39
            } else {
                AddressingMode::Bare
            },
        }
    }

    fn asid(&self) -> (r: u64)
        ensures
            r == self@.regs.asid(),
    {
        match self.regs.xlen {
            Xlen::X32 => (self.regs.satp / 0x40_0000) % 0x200,
            Xlen::X64 => (self.regs.satp / 0x1000_0000_0000) % 0x1_0000,
        }
    }

    fn root(&self) -> (r: u64)
        ensures
            r == self@.regs.root(),
            r < 0x1000_0000_0000,
    {
        match self.regs.xlen {
            Xlen::X32 => self.regs.satp % 0x40_0000,
            Xlen::X64 => self.regs.satp % 0x1000_0000_0000,
        }
    }

    fn effective_privilege(&self, access: AccessType) -> (r: PrivilegeMode)
        ensures
            r == self@.regs.effective_privilege(access),
    {
        if !matches!(access, AccessType::Fetch) && has_flag(self.regs.mstatus, MSTATUS_MPRV) {
            privilege_from((self.regs.mstatus / MSTATUS_MPP) % 4)
        } else {
            self.regs.privilege
        }
    }

    /// Walks the page tables for `va`.
    #[verifier::rlimit(50)]
    fn walk(&self, va: u64) -> (w: Walk)
        requires
            self@.regs.mode() != AddressingMode::Bare,
        ensures
            w == walk(
                self@.regs.mode(),
                self@.bus.dram,
                self@.regs.root() * PAGE_SIZE,
                va,
                (levels(self@.regs.mode()) - 1) as nat,
            ),
            w matches Walk::Leaf { pte_addr, pte, level } ==> {
                &&& level <= 2
                &&& DRAM_ADDRESS_START <= pte_addr
                &&& pte_addr - DRAM_ADDRESS_START + pte_size(self@.regs.mode())
                    <= self@.bus.dram.len()
                &&& self@.regs.mode() == AddressingMode::Sv32 ==> pte < 0x1_0000_0000
            },
    {
        let mode = self.mode();
        let sv32 = matches!(mode, AddressingMode::Sv32);
        let size: u64 = if sv32 {
            4
        } else {
            8
        };
        let span: u64 = if sv32 {
            0x400
        } else {
            0x200
        };
        let dram = self.bus.dram();
        let mut level: u8 = if sv32 {
            1
        } else {
            2
        };
        let mut table: u64 = self.root() * PAGE_SIZE;
        let ghost top = table;
        let ghost top_level = level;
        loop
            invariant
                level <= 2,
                table <= 0x1000_0000_0000 * PAGE_SIZE,
                mode == self@.regs.mode(),
                mode != AddressingMode::Bare,
                sv32 == (mode == AddressingMode::Sv32),
                size == pte_size(mode),
                span == (if sv32 {
                    0x400int
                } else {
                    0x200int
                }),
                dram@ == self@.bus.dram,
                top == self@.regs.root() * PAGE_SIZE,
                top_level == levels(mode) - 1,
                walk(mode, dram@, top as int, va, top_level as nat) == walk(
                    mode,
                    dram@,
                    table as int,
                    va,
                    level as nat,
                ),
            decreases level,
        {
            let pages: u64 = if level == 0 {
                1
            } else if sv32 {
                0x400
            } else if level == 1 {
                0x200
            } else {
                0x4_0000
            };
            let index = ((va / PAGE_SIZE) / pages) % span;
            let pte_addr = table + index * size;
            if pte_addr < DRAM_ADDRESS_START || !dram.in_range(pte_addr - DRAM_ADDRESS_START, size) {
                return Walk::AccessFault;
            }
            let pte = if sv32 {
                dram.read32(pte_addr - DRAM_ADDRESS_START) as u64
            } else {
                dram.read64(pte_addr - DRAM_ADDRESS_START)
            };
            if !has_flag(pte, PTE_V) || (!has_flag(pte, PTE_R) && has_flag(pte, PTE_W)) {
                return Walk::PageFault;
            }
            if has_flag(pte, PTE_R) || has_flag(pte, PTE_X) {
                return Walk::Leaf { pte_addr, pte, level };
            }
            if level == 0 {
                return Walk::PageFault;
            }
            let ppn = if sv32 {
                pte / 0x400
            } else {
                (pte / 0x400) % 0x1000_0000_0000
            };
            table = ppn * PAGE_SIZE;
            level -= 1;
        }
    }

    /// Ends a walk for `va` at a leaf: checks the leaf, marks it accessed
    /// and, on a store, dirty, and caches the translation.
    #[verifier::rlimit(60)]
    fn enter_leaf(&mut self, va: u64, access: AccessType, pte_addr: u64, pte: u64, level: u8) -> (r:
        Result<u64, Trap>)
        requires
            old(self)@.regs.mode() != AddressingMode::Bare,
            level <= 2,
            DRAM_ADDRESS_START <= pte_addr,
            pte_addr - DRAM_ADDRESS_START + pte_size(old(self)@.regs.mode())
                <= old(self)@.bus.dram.len(),
            old(self)@.regs.mode() == AddressingMode::Sv32 ==> pte < 0x1_0000_0000,
            canonical(old(self)@.regs.mode(), va),
            walk(
                old(self)@.regs.mode(),
                old(self)@.bus.dram,
                old(self)@.regs.root() * PAGE_SIZE,
                va,
                (levels(old(self)@.regs.mode()) - 1) as nat,
            ) == (Walk::Leaf { pte_addr, pte, level }),
        ensures
            r == old(self)@.walked(va, access).result,
            final(self)@ == (MmuView {
                tlb: old(self)@.tlb.update(
                    MmuView::slot(va),
                    old(self)@.walked(va, access).entry,
                ),
                bus: BusView { dram: old(self)@.walked(va, access).dram, ..old(self)@.bus },
                ..old(self)@
            }),
    {
        let privilege = self.effective_privilege(access);
        let sv32 = matches!(self.mode(), AddressingMode::Sv32);
        let sum = has_flag(self.regs.mstatus, MSTATUS_SUM);
        let mxr = has_flag(self.regs.mstatus, MSTATUS_MXR);
        let asid = self.asid();
        let vpn = va / PAGE_SIZE;
        let slot = (vpn % (TLB_SIZE as u64)) as usize;
        let pages: u64 = if level == 0 {
            1
        } else if sv32 {
            0x400
        } else if level == 1 {
            0x200
        } else {
            0x4_0000
        };
        let base = if sv32 {
            pte / 0x400
        } else {
            (pte / 0x400) % 0x1000_0000_0000
        };
        if base % pages != 0 || !is_permitted(pte, access, privilege, sum, mxr) {
            assert(self.tlb@ =~= old(self).tlb@.update(slot as int, old(self).tlb@[slot as int]));
            assert(self.bus@ == (BusView { dram: old(self)@.bus.dram, ..old(self)@.bus }));
            return Err(Trap { exception: page_fault_of(access), value: va });
        }
        let ppn = base + vpn % pages;
        let new_pte = touch(pte, access);
        if sv32 {
            let _ = self.bus.write32(pte_addr, new_pte as u32);
        } else {
            let _ = self.bus.write64(pte_addr, new_pte);
        }
        self.tlb[slot] = TlbEntry {
            valid: true,
            vpn,
            asid,
            global: has_flag(pte, PTE_G),
            ppn,
            flags: new_pte % 0x100,
        };
        Ok(ppn * PAGE_SIZE + va % PAGE_SIZE)
    }

    /// Translates `va` by a walk of the page tables.
    #[verifier::rlimit(50)]
    fn translate_by_walk(&mut self, va: u64, access: AccessType) -> (r: Result<u64, Trap>)
        requires
            old(self)@.regs.mode() != AddressingMode::Bare,
        ensures
            r == old(self)@.walked(va, access).result,
            final(self)@ == (MmuView {
                tlb: old(self)@.tlb.update(
                    MmuView::slot(va),
                    old(self)@.walked(va, access).entry,
                ),
                bus: BusView { dram: old(self)@.walked(va, access).dram, ..old(self)@.bus },
                ..old(self)@
            }),
    {
        let sv32 = matches!(self.mode(), AddressingMode::Sv32);
        let ghost slot = MmuView::slot(va);
        proof {
            assert(self.tlb@ =~= old(self).tlb@.update(slot, old(self).tlb@[slot]));
            assert(self.bus@ == (BusView { dram: old(self)@.bus.dram, ..old(self)@.bus }));
        }
        if !sv32 && !(va / 0x40_0000_0000 == 0 || va / 0x40_0000_0000 == 0x3ff_ffff) {
            return Err(Trap { exception: page_fault_of(access), value: va });
        }
        match self.walk(va) {
            Walk::AccessFault => Err(Trap { exception: access_fault_of(access), value: va }),
            Walk::PageFault => Err(Trap { exception: page_fault_of(access), value: va }),
            Walk::Leaf { pte_addr, pte, level } => self.enter_leaf(
                va,
                access,
                pte_addr,
                pte,
                level,
            ),
        }
    }

    /// Translates `va` for an access of the given type.
    #[verifier::rlimit(50)]
    pub fn translate(&mut self, va: u64, access: AccessType) -> (r: Result<u64, Trap>)
        ensures
            r == old(self)@.translate_result(va, access),
            final(self)@ == old(self)@.after_translate(va, access),
    {
        let privilege = self.effective_privilege(access);
        let mode = self.mode();
        if matches!(privilege, PrivilegeMode::Machine) || matches!(mode, AddressingMode::Bare) {
            return Ok(va);
        }
        let vpn = va / PAGE_SIZE;
        let e = self.tlb[(vpn % (TLB_SIZE as u64)) as usize];
        if e.valid && e.vpn == vpn && (e.global || e.asid == self.asid()) && (!matches!(
            access,
            AccessType::Store
        ) || has_flag(e.flags, PTE_D)) {
            let sum = has_flag(self.regs.mstatus, MSTATUS_SUM);
            let mxr = has_flag(self.regs.mstatus, MSTATUS_MXR);
            if is_permitted(e.flags, access, privilege, sum, mxr) {
                Ok((e.ppn % 0x10_0000_0000_0000) * PAGE_SIZE + va % PAGE_SIZE)
            } else {
                Err(Trap { exception: page_fault_of(access), value: va })
            }
        } else {
            self.translate_by_walk(va, access)
        }
    }

    /// One bus read of `n` bytes at physical address `pa`.
    fn bus_read(&mut self, pa: u64, n: u8) -> (r: Result<u64, ()>)
        requires
            n == 1 || n == 2 || n == 4 || n == 8,
            accepts(pa, n as int),
        ensures
            r == old(self)@.bus.read_result(pa, n as nat),
            final(self)@ == (MmuView { bus: old(self)@.bus.after_read(pa, n as nat), ..old(self)@ }),
            n == 1 ==> (r matches Ok(v) ==> v < 0x100),
            n == 2 ==> (r matches Ok(v) ==> v < 0x1_0000),
            n == 4 ==> (r matches Ok(v) ==> v < 0x1_0000_0000),
    {
        if n == 1 {
            match self.bus.read8(pa) {
                Ok(v) => Ok(v as u64),
                Err(_) => Err(()),
            }
        } else if n == 2 {
            match self.bus.read16(pa) {
                Ok(v) => Ok(v as u64),
                Err(_) => Err(()),
            }
        } else if n == 4 {
            match self.bus.read32(pa) {
                Ok(v) => Ok(v as u64),
                Err(_) => Err(()),
            }
        } else {
            self.bus.read64(pa)
        }
    }

    /// One bus write of the `n` low bytes of `data` at physical address
    /// `pa`.
    fn bus_write(&mut self, pa: u64, n: u8, data: u64) -> (r: Result<(), ()>)
        requires
            n == 1 || n == 2 || n == 4 || n == 8,
            accepts(pa, n as int),
            n == 1 ==> data < 0x100,
            n == 2 ==> data < 0x1_0000,
            n == 4 ==> data < 0x1_0000_0000,
        ensures
            r == old(self)@.bus.write_result(pa, n as nat),
            final(self)@ == (MmuView {
                bus: old(self)@.bus.after_write(pa, n as nat, data),
                ..old(self)@
            }),
    {
        if n == 1 {
            self.bus.write8(pa, data as u8)
        } else if n == 2 {
            self.bus.write16(pa, data as u16)
        } else if n == 4 {
            self.bus.write32(pa, data as u32)
        } else {
            self.bus.write64(pa, data)
        }
    }

    /// One bus transaction that reads `n` bytes at virtual address `va`.
    fn load(&mut self, va: u64, n: u8, access: AccessType) -> (r: Result<u64, Trap>)
        requires
            n == 1 || n == 2 || n == 4 || n == 8,
        ensures
            r == old(self)@.load_result(va, n as nat, access),
            final(self)@ == old(self)@.after_load(va, n as nat, access),
            n == 1 ==> (r matches Ok(v) ==> v < 0x100),
            n == 2 ==> (r matches Ok(v) ==> v < 0x1_0000),
            n == 4 ==> (r matches Ok(v) ==> v < 0x1_0000_0000),
    {
        let pa = match self.translate(va, access) {
            Ok(pa) => pa,
            Err(t) => { return Err(t); },
        };
        if !BusFu540::accepts_width(pa, n) {
            return Err(Trap { exception: access_fault_of(access), value: va });
        }
        match self.bus_read(pa, n) {
            Ok(v) => Ok(v),
            Err(_) => Err(Trap { exception: access_fault_of(access), value: va }),
        }
    }

    /// One bus transaction that writes the `n` low bytes of `data` at
    /// virtual address `va`.
    fn store(&mut self, va: u64, n: u8, data: u64) -> (r: Result<(), Trap>)
        requires
            n == 1 || n == 2 || n == 4 || n == 8,
            n == 1 ==> data < 0x100,
            n == 2 ==> data < 0x1_0000,
            n == 4 ==> data < 0x1_0000_0000,
        ensures
            r == old(self)@.store_result(va, n as nat),
            final(self)@ == old(self)@.after_store(va, n as nat, data),
    {
        let pa = match self.translate(va, AccessType::Store) {
            Ok(pa) => pa,
            Err(t) => { return Err(t); },
        };
        if !BusFu540::accepts_width(pa, n) {
            return Err(Trap { exception: Exception::StoreAccessFault, value: va });
        }
        match self.bus_write(pa, n, data) {
            Ok(_) => Ok(()),
            Err(_) => Err(Trap { exception: Exception::StoreAccessFault, value: va }),
        }
    }

    /// Reads `n` bytes from `va` on, byte by byte in ascending order.
    fn load_split(&mut self, va: u64, n: u8) -> (r: Result<u64, Trap>)
        requires
            n <= 8,
        ensures
            r == old(self)@.load_split_result(va, n as nat),
            final(self)@ == old(self)@.after_load_split(va, n as nat),
            r matches Ok(v) ==> v < crate::memory::pow256(n as nat),
        decreases n,
    {
        proof {
            crate::memory::lemma_pow256_values();
        }
        if n == 0 {
            return Ok(0);
        }
        let b = match self.load(va, 1, AccessType::Load) {
            Ok(b) => b,
            Err(t) => { return Err(t); },
        };
        match self.load_split(va.wrapping_add(1), n - 1) {
            Ok(rest) => {
                assert(crate::memory::pow256(n as nat) == 256 * crate::memory::pow256(
                    (n - 1) as nat,
                ));
                Ok(b + 0x100 * rest)
            },
            Err(t) => Err(t),
        }
    }

    /// Writes the `n` low bytes of `data` from `va` on, byte by byte in
    /// ascending order.
    fn store_split(&mut self, va: u64, n: u8, data: u64) -> (r: Result<(), Trap>)
        ensures
            r == old(self)@.store_split_result(va, n as nat, data),
            final(self)@ == old(self)@.after_store_split(va, n as nat, data),
        decreases n,
    {
        if n == 0 {
            return Ok(());
        }
        match self.store(va, 1, data % 0x100) {
            Ok(_) => self.store_split(va.wrapping_add(1), n - 1, data / 0x100),
            Err(t) => Err(t),
        }
    }

    /// Loads `n` bytes from virtual address `va`.
    pub fn read(&mut self, va: u64, n: u8) -> (r: Result<u64, Trap>)
        requires
            n == 1 || n == 2 || n == 4 || n == 8,
        ensures
            r == old(self)@.read_result(va, n as nat),
            final(self)@ == old(self)@.after_read(va, n as nat),
            r matches Ok(v) ==> v < crate::memory::pow256(n as nat),
    {
        reveal(MmuView::after_read);
        reveal(MmuView::read_result);
        proof {
            crate::memory::lemma_pow256_values();
        }
        if va % (n as u64) == 0 {
            self.load(va, n, AccessType::Load)
        } else {
            self.load_split(va, n)
        }
    }

    /// Stores the `n` low bytes of `data` to virtual address `va`.
    pub fn write(&mut self, va: u64, n: u8, data: u64) -> (r: Result<(), Trap>)
        requires
            n == 1 || n == 2 || n == 4 || n == 8,
            data < crate::memory::pow256(n as nat),
        ensures
            r == old(self)@.write_result(va, n as nat, data),
            final(self)@ == old(self)@.after_write(va, n as nat, data),
    {
        reveal(MmuView::after_write);
        reveal(MmuView::write_result);
        proof {
            crate::memory::lemma_pow256_values();
        }
        if va % (n as u64) == 0 {
            self.store(va, n, data)
        } else {
            self.store_split(va, n, data)
        }
    }

    /// Loads a byte from virtual address `va`.
    pub fn read8(&mut self, va: u64) -> (r: Result<u8, Trap>)
        ensures
            narrowed8(old(self)@.read_result(va, 1)) == r,
            final(self)@ == old(self)@.after_read(va, 1),
    {
        proof {
            crate::memory::lemma_pow256_values();
        }
        match self.read(va, 1) {
            Ok(v) => Ok(v as u8),
            Err(t) => Err(t),
        }
    }

    /// Loads a halfword from virtual address `va`.
    pub fn read16(&mut self, va: u64) -> (r: Result<u16, Trap>)
        ensures
            narrowed16(old(self)@.read_result(va, 2)) == r,
            final(self)@ == old(self)@.after_read(va, 2),
    {
        proof {
            crate::memory::lemma_pow256_values();
        }
        match self.read(va, 2) {
            Ok(v) => Ok(v as u16),
            Err(t) => Err(t),
        }
    }

    /// Loads a word from virtual address `va`.
    pub fn read32(&mut self, va: u64) -> (r: Result<u32, Trap>)
        ensures
            narrowed32(old(self)@.read_result(va, 4)) == r,
            final(self)@ == old(self)@.after_read(va, 4),
    {
        proof {
            crate::memory::lemma_pow256_values();
        }
        match self.read(va, 4) {
            Ok(v) => Ok(v as u32),
            Err(t) => Err(t),
        }
    }

    /// Loads a doubleword from virtual address `va`.
    pub fn read64(&mut self, va: u64) -> (r: Result<u64, Trap>)
        ensures
            r == old(self)@.read_result(va, 8),
            final(self)@ == old(self)@.after_read(va, 8),
    {
        self.read(va, 8)
    }

    /// Stores a byte to virtual address `va`.
    pub fn write8(&mut self, va: u64, data: u8) -> (r: Result<(), Trap>)
        ensures
            r == old(self)@.write_result(va, 1, data as u64),
            final(self)@ == old(self)@.after_write(va, 1, data as u64),
    {
        proof {
            crate::memory::lemma_pow256_values();
        }
        self.write(va, 1, data as u64)
    }

    /// Stores a halfword to virtual address `va`.
    pub fn write16(&mut self, va: u64, data: u16) -> (r: Result<(), Trap>)
        ensures
            r == old(self)@.write_result(va, 2, data as u64),
            final(self)@ == old(self)@.after_write(va, 2, data as u64),
    {
        proof {
            crate::memory::lemma_pow256_values();
        }
        self.write(va, 2, data as u64)
    }

    /// Stores a word to virtual address `va`.
    pub fn write32(&mut self, va: u64, data: u32) -> (r: Result<(), Trap>)
        ensures
            r == old(self)@.write_result(va, 4, data as u64),
            final(self)@ == old(self)@.after_write(va, 4, data as u64),
    {
        proof {
            crate::memory::lemma_pow256_values();
        }
        self.write(va, 4, data as u64)
    }

    /// Stores a doubleword to virtual address `va`.
    pub fn write64(&mut self, va: u64, data: u64) -> (r: Result<(), Trap>)
        ensures
            r == old(self)@.write_result(va, 8, data),
            final(self)@ == old(self)@.after_write(va, 8, data),
    {
        proof {
            crate::memory::lemma_pow256_values();
        }
        self.write(va, 8, data)
    }

    /// Fetches the instruction at `pc`: a 16-bit parcel if it is a
    /// compressed instruction, else a 32-bit word.
    pub fn fetch(&mut self, pc: u64) -> (r: Result<u32, Trap>)
        ensures
            r == old(self)@.fetch_result(pc),
            final(self)@ == old(self)@.after_fetch(pc),
    {
        reveal(MmuView::after_fetch);
        reveal(MmuView::fetch_result);
        let low = match self.load(pc, 2, AccessType::Fetch) {
            Ok(v) => v,
            Err(t) => { return Err(t); },
        };
        if low % 4 != 3 {
            return Ok(low as u32);
        }
        match self.load(pc.wrapping_add(2), 2, AccessType::Fetch) {
            Ok(high) => Ok((low + 0x1_0000 * high) as u32),
            Err(t) => Err(t),
        }
    }

    /// Reads the word at physical address `pa`, with no translation.
    pub fn read32_direct(&mut self, pa: u64) -> (r: Result<u32, Trap>)
        ensures
            r == old(self)@.direct_result(pa),
            final(self)@ == (MmuView { bus: old(self)@.bus.after_read(pa, 4), ..old(self)@ }),
    {
        match self.bus.read32(pa) {
            Ok(v) => Ok(v),
            Err(_) => Err(Trap { exception: Exception::LoadAccessFault, value: pa }),
        }
    }

    /// Invalidates the cached translations that a fence for (`vaddr`,
    /// `asid`) names: all of them where both are zero.
    pub fn sfence_vma(&mut self, vaddr: u64, asid: u64)
        ensures
            final(self)@ == old(self)@.after_fence(vaddr, asid),
    {
        let mut i: usize = 0;
        while i < TLB_SIZE
            invariant
                i <= TLB_SIZE,
                self.regs == old(self).regs,
                self.bus == old(self).bus,
                forall|j: int| 0 <= j < i ==> self.tlb@[j] == old(self)@.after_fence(vaddr, asid).tlb[j],
                forall|j: int| i <= j < TLB_SIZE ==> self.tlb@[j] == old(self).tlb@[j],
            decreases TLB_SIZE - i,
        {
            let e = self.tlb[i];
            if (vaddr == 0 || e.vpn == vaddr / PAGE_SIZE) && (asid == 0 || e.global || e.asid
                == asid) {
                self.tlb[i].valid = false;
            }
            i += 1;
        }
        assert(self.tlb@ =~= old(self)@.after_fence(vaddr, asid).tlb);
    }
}

} // verus!
