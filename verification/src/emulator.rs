//! The emulator as its driver sees it: load a program, run it, exchange
//! bytes with the terminal.

use vstd::prelude::*;
use crate::bus::bus::Device;
use crate::bus::bus_fu540::{bus_at_reset, BusView, DRAM_ADDRESS_START};
use crate::cpu::cpu::{at_reset, Cpu, CpuView, Xlen};
use crate::cpu::csr::{MISA, MISA_32, MISA_64};
use crate::cpu::trap::Trap;
use crate::elf_loader::{
    section_view,
    section_views,
    ElfImage,
    ProgbitsSection,
    SectionView,
    ELFCLASS32,
    ELFCLASS64,
    EM_RISCV,
};
use crate::memory::store;
use crate::mmu::{fresh_tlb, next_address, MmuView};
use crate::peripherals::uart::UartView;
use crate::peripherals::virtio::VirtioView;

verus! {

/// Why a program could not be loaded.
#[derive(Clone, Copy, Debug, PartialEq, Eq, Structural)]
pub enum LoadError {
    /// The file is no program for a RISC-V machine.
    NotRiscv,
    /// The file is neither a 32-bit nor a 64-bit program.
    UnexpectedClass,
    /// A byte of a section could not be stored.
    Store(Trap),
}

/// How a run ended.
#[derive(Clone, Copy, Debug, PartialEq, Eq)]
pub enum RunOutcome {
    /// The steps that were asked for are done, and the program still runs.
    Pending,
    /// The program under test has written to `.tohost`: 1 reports success,
    /// any other value failure.
    Exited(Result<u32, u32>),
    /// `.tohost` could not be read.
    Unreadable(Trap),
}

/// The emulator as a mathematical value.
pub struct EmulatorView {
    pub cpu: CpuView,
    pub testmode: bool,
    /// The physical address of `.tohost`, or 0 if the program has none.
    pub tohost: u64,
}

/// Whether a section is loaded: it lies at or above the start of DRAM and
/// has contents in the file.
pub open spec fn is_loadable(s: SectionView) -> bool {
    s.sh_addr >= DRAM_ADDRESS_START && s.sh_offset > 0
}

/// What is left of a load, and the machine as the load has left it.
pub struct Stored {
    pub result: Result<(), Trap>,
    pub mmu: MmuView,
}

/// The bytes `data` stored one by one from virtual address `addr` on. The
/// first byte that cannot be stored ends the load.
pub open spec fn store_bytes(mmu: MmuView, addr: u64, data: Seq<u8>) -> Stored
    decreases data.len(),
{
    if data.len() == 0 {
        Stored { result: Ok(()), mmu }
    } else {
        let after = mmu.after_write(addr, 1, data[0] as u64);
        match mmu.write_result(addr, 1, data[0] as u64) {
            Err(t) => Stored { result: Err(t), mmu: after },
            Ok(_) => store_bytes(after, next_address(addr), data.drop_first()),
        }
    }
}

/// The loadable ones of `sections` stored one after the other.
pub open spec fn store_sections(mmu: MmuView, sections: Seq<SectionView>) -> Stored
    decreases sections.len(),
{
    if sections.len() == 0 {
        Stored { result: Ok(()), mmu }
    } else if !is_loadable(sections[0]) {
        store_sections(mmu, sections.drop_first())
    } else {
        let first = store_bytes(mmu, sections[0].sh_addr, sections[0].data);
        match first.result {
            Err(_) => first,
            Ok(_) => store_sections(first.mmu, sections.drop_first()),
        }
    }
}

/// The register width that an ELF class stands for.
pub open spec fn xlen_of_class(ei_class: u8) -> Option<Xlen> {
    if ei_class == ELFCLASS32 {
        Some(Xlen::X32)
    } else if ei_class == ELFCLASS64 {
        Some(Xlen::X64)
    } else {
        None
    }
}

/// What a run leaves: how it ended, and the emulator after it.
pub struct Ran {
    pub outcome: RunOutcome,
    pub state: EmulatorView,
}

impl EmulatorView {
    /// Well-formedness: that of the hart.
    pub open spec fn wf(self) -> bool {
        self.cpu.wf()
    }

    /// The hart at the entry of the program, with the program's register
    /// width.
    pub open spec fn entered(self, entry: u64, xlen: Xlen) -> CpuView {
        (CpuView {
            pc: entry,
            xlen,
            csr: self.cpu.csr.update(
                MISA as int,
                match xlen {
                    Xlen::X32 => MISA_32,
                    Xlen::X64 => MISA_64,
                },
            ),
            ..self.cpu
        }).synced()
    }

    /// The result of loading the program `elf`.
    pub open spec fn load_result(
        self,
        e_machine: u16,
        ei_class: u8,
        e_entry: u64,
        sections: Seq<SectionView>,
    ) -> Result<(), LoadError> {
        if e_machine != EM_RISCV {
            Err(LoadError::NotRiscv)
        } else {
            match xlen_of_class(ei_class) {
                None => Err(LoadError::UnexpectedClass),
                Some(xlen) => match store_sections(self.entered(e_entry, xlen).mmu, sections).result {
                    Ok(_) => Ok(()),
                    Err(t) => Err(LoadError::Store(t)),
                },
            }
        }
    }

    /// The emulator after the program `elf` has been loaded: the program
    /// counter is at the entry, the register width is that of the program,
    /// the loadable sections are stored, and in test mode the address of
    /// `.tohost` is known. An image that is no RISC-V program of 32 or 64
    /// bits changes nothing.
    pub open spec fn after_load(
        self,
        e_machine: u16,
        ei_class: u8,
        e_entry: u64,
        sections: Seq<SectionView>,
        tohost: Option<u64>,
    ) -> EmulatorView {
        if e_machine != EM_RISCV {
            self
        } else {
            match xlen_of_class(ei_class) {
                None => self,
                Some(xlen) => {
                    let entered = self.entered(e_entry, xlen);
                    let stored = store_sections(entered.mmu, sections);
                    EmulatorView {
                        cpu: CpuView { mmu: stored.mmu, ..entered },
                        tohost: if stored.result is Ok && self.testmode {
                            match tohost {
                                Some(addr) => addr,
                                None => 0,
                            }
                        } else {
                            self.tohost
                        },
                        ..self
                    }
                },
            }
        }
    }

    /// The emulator one step later, and what the harness that watches
    /// `.tohost` sees after the step: nothing unless the emulator is in
    /// test mode and knows the address; else the word at the address,
    /// where 0 means that the program still runs.
    #[verifier::opaque]
    pub open spec fn watched_step(self) -> Ran {
        let cpu = self.cpu.step();
        if !(self.testmode && self.tohost != 0) {
            Ran { outcome: RunOutcome::Pending, state: EmulatorView { cpu, ..self } }
        } else {
            let read = CpuView {
                mmu: MmuView { bus: cpu.mmu.bus.after_read(self.tohost, 4), ..cpu.mmu },
                ..cpu
            };
            Ran {
                outcome: match cpu.mmu.direct_result(self.tohost) {
                    Err(t) => RunOutcome::Unreadable(t),
                    Ok(v) => if v == 0 {
                        RunOutcome::Pending
                    } else if v == 1 {
                        RunOutcome::Exited(Ok(1))
                    } else {
                        RunOutcome::Exited(Err(v))
                    },
                },
                state: EmulatorView { cpu: read, ..self },
            }
        }
    }

    /// A run of at most `steps` steps, which ends when the harness sees
    /// anything.
    pub open spec fn run(self, steps: nat) -> Ran
        decreases steps,
    {
        if steps == 0 {
            Ran { outcome: RunOutcome::Pending, state: self }
        } else {
            let one = self.watched_step();
            if one.outcome == RunOutcome::Pending {
                one.state.run((steps - 1) as nat)
            } else {
                one
            }
        }
    }
}

/// The emulator: a hart with its machine, and what the harness of a test
/// program knows.
pub struct Emulator {
    cpu: Cpu,
    testmode: bool,
    tohost: u64,
}

impl View for Emulator {
    type V = EmulatorView;

    closed spec fn view(&self) -> EmulatorView {
        EmulatorView { cpu: self.cpu@, testmode: self.testmode, tohost: self.tohost }
    }
}

impl Emulator {
    /// An emulator with a 64-bit hart at reset, 128 MiB of zeroed DRAM and
    /// an empty disk.
    pub fn new(testmode_: bool) -> (e: Emulator)
        ensures
            e@.testmode == testmode_,
            e@.tohost == 0,
            e@.cpu.xlen == Xlen::X64,
            at_reset(e@.cpu),
            e@.cpu.mmu.tlb == fresh_tlb(),
            bus_at_reset(e@.cpu.mmu.bus),
    {
        Self { cpu: Cpu::new(), testmode: testmode_, tohost: 0 }
    }

    /// The hart, to read from.
    pub fn cpu(&self) -> (cpu: &Cpu)
        ensures
            cpu@ == self@.cpu,
    {
        &self.cpu
    }

    /// The hart.
    pub fn get_cpu(&mut self) -> (cpu: &mut Cpu)
        ensures
            cpu@ == old(self)@.cpu,
            final(self)@ == (EmulatorView { cpu: final(cpu)@, ..old(self)@ }),
    {
        &mut self.cpu
    }

    /// Puts the hart into its reset state. Memory and devices are kept.
    pub fn reset(&mut self)
        requires
            old(self)@.wf(),
        ensures
            at_reset(final(self)@.cpu),
            final(self)@.cpu.xlen == old(self)@.cpu.xlen,
            final(self)@.cpu.mmu.bus == old(self)@.cpu.mmu.bus,
            final(self)@.testmode == old(self)@.testmode,
            final(self)@.tohost == old(self)@.tohost,
    {
        self.cpu.reset()
    }

    /// Sets the program counter.
    pub fn set_pc(&mut self, addr: u64)
        ensures
            final(self)@ == (EmulatorView { cpu: CpuView { pc: addr, ..old(self)@.cpu }, ..old(self)@ }),
    {
        self.cpu.set_pc(addr)
    }

    /// Replaces the disk image.
    pub fn set_disk_data(&mut self, data: Vec<u8>)
        ensures
            final(self)@ == (EmulatorView {
                cpu: CpuView {
                    mmu: MmuView {
                        bus: BusView {
                            virtio: VirtioView { disk: data@, ..old(self)@.cpu.mmu.bus.virtio },
                            ..old(self)@.cpu.mmu.bus
                        },
                        ..old(self)@.cpu.mmu
                    },
                    ..old(self)@.cpu
                },
                ..old(self)@
            }),
    {
        self.cpu.get_mmu().get_bus().set_device_data(Device::Disk, data);
    }

    /// Copies an image to the start of DRAM.
    pub fn set_dram_data(&mut self, data: Vec<u8>)
        requires
            data@.len() <= old(self)@.cpu.mmu.bus.dram.len(),
        ensures
            final(self)@ == (EmulatorView {
                cpu: CpuView {
                    mmu: MmuView {
                        bus: BusView {
                            dram: store(old(self)@.cpu.mmu.bus.dram, 0, data@),
                            ..old(self)@.cpu.mmu.bus
                        },
                        ..old(self)@.cpu.mmu
                    },
                    ..old(self)@.cpu
                },
                ..old(self)@
            }),
    {
        self.cpu.get_mmu().get_bus().set_device_data(Device::Dram, data);
    }

    /// Hands a byte from the terminal to the serial port.
    pub fn push_input(&mut self, byte: u8)
        ensures
            final(self)@ == (EmulatorView {
                cpu: CpuView {
                    mmu: MmuView {
                        bus: BusView {
                            uart: UartView {
                                input: old(self)@.cpu.mmu.bus.uart.input.push(byte),
                                ..old(self)@.cpu.mmu.bus.uart
                            },
                            ..old(self)@.cpu.mmu.bus
                        },
                        ..old(self)@.cpu.mmu
                    },
                    ..old(self)@.cpu
                },
                ..old(self)@
            }),
    {
        self.cpu.get_mmu().get_bus().push_input(byte);
    }

    /// Collects what the guest has transmitted on the serial port since the
    /// last call.
    pub fn take_output(&mut self) -> (bytes: Vec<u8>)
        ensures
            bytes@ == old(self)@.cpu.mmu.bus.uart.output,
            final(self)@ == (EmulatorView {
                cpu: CpuView {
                    mmu: MmuView {
                        bus: BusView {
                            uart: UartView {
                                output: Seq::<u8>::empty(),
                                ..old(self)@.cpu.mmu.bus.uart
                            },
                            ..old(self)@.cpu.mmu.bus
                        },
                        ..old(self)@.cpu.mmu
                    },
                    ..old(self)@.cpu
                },
                ..old(self)@
            }),
    {
        self.cpu.get_mmu().get_bus().take_output()
    }

    /// Stores the bytes of a section one by one.
    #[verifier::rlimit(50)]
    fn store_section(&mut self, addr: u64, data: &Vec<u8>) -> (r: Result<(), Trap>)
        requires
            old(self)@.wf(),
        ensures
            final(self)@.wf(),
            (Stored { result: r, mmu: final(self)@.cpu.mmu }) == store_bytes(
                old(self)@.cpu.mmu,
                addr,
                data@,
            ),
            final(self)@ == (EmulatorView {
                cpu: CpuView { mmu: final(self)@.cpu.mmu, ..old(self)@.cpu },
                ..old(self)@
            }),
    {
        let mut j: usize = 0;
        let mut at: u64 = addr;
        assert(data@.skip(0) =~= data@);
        while j < data.len()
            invariant
                j <= data@.len(),
                self@.wf(),
                store_bytes(old(self)@.cpu.mmu, addr, data@) == store_bytes(
                    self@.cpu.mmu,
                    at,
                    data@.skip(j as int),
                ),
                self@ == (EmulatorView {
                    cpu: CpuView { mmu: self@.cpu.mmu, ..old(self)@.cpu },
                    ..old(self)@
                }),
            decreases data@.len() - j,
        {
            assert(data@.skip(j as int).drop_first() =~= data@.skip(j + 1));
            assert(data@.skip(j as int)[0] == data@[j as int]);
            proof {
                crate::mmu::lemma_access_keeps_shape(self@.cpu.mmu, at, 1, data@[j as int] as u64);
            }
            match self.cpu.get_mmu().write8(at, data[j]) {
                Err(t) => { return Err(t); },
                Ok(_) => {},
            }
            at = at.wrapping_add(1);
            j += 1;
        }
        Ok(())
    }

    /// Stores the loadable sections one after the other.
    #[verifier::rlimit(50)]
    fn store_all(&mut self, sections: &Vec<ProgbitsSection>) -> (r: Result<(), Trap>)
        requires
            old(self)@.wf(),
        ensures
            final(self)@.wf(),
            (Stored { result: r, mmu: final(self)@.cpu.mmu }) == store_sections(
                old(self)@.cpu.mmu,
                section_views(sections@),
            ),
            final(self)@ == (EmulatorView {
                cpu: CpuView { mmu: final(self)@.cpu.mmu, ..old(self)@.cpu },
                ..old(self)@
            }),
    {
        let ghost views = section_views(sections@);
        let mut i: usize = 0;
        assert(views.skip(0) =~= views);
        while i < sections.len()
            invariant
                i <= sections@.len(),
                self@.wf(),
                views == section_views(sections@),
                store_sections(old(self)@.cpu.mmu, views) == store_sections(
                    self@.cpu.mmu,
                    views.skip(i as int),
                ),
                self@ == (EmulatorView {
                    cpu: CpuView { mmu: self@.cpu.mmu, ..old(self)@.cpu },
                    ..old(self)@
                }),
            decreases sections@.len() - i,
        {
            assert(views.skip(i as int).drop_first() =~= views.skip(i + 1));
            assert(views.skip(i as int)[0] == section_view(sections@[i as int]));
            let section = &sections[i];
            if section.sh_addr >= DRAM_ADDRESS_START && section.sh_offset > 0 {
                match self.store_section(section.sh_addr, &section.data) {
                    Err(t) => { return Err(t); },
                    Ok(_) => {},
                }
            }
            i += 1;
        }
        Ok(())
    }

    /// Loads a program: sets the program counter to its entry and the
    /// register width to its class, stores its loadable sections, and in
    /// test mode notes the address of `.tohost`.
    #[verifier::rlimit(50)]
    pub fn load_program(&mut self, elf: &ElfImage) -> (r: Result<(), LoadError>)
        requires
            old(self)@.wf(),
        ensures
            final(self)@.wf(),
            r == old(self)@.load_result(
                elf.e_machine,
                elf.ei_class,
                elf.e_entry,
                section_views(elf.sections@),
            ),
            final(self)@ == old(self)@.after_load(
                elf.e_machine,
                elf.ei_class,
                elf.e_entry,
                section_views(elf.sections@),
                elf.tohost,
            ),
    {
        if elf.e_machine != EM_RISCV {
            return Err(LoadError::NotRiscv);
        }
        let xlen = if elf.ei_class == ELFCLASS32 {
            Xlen::X32
        } else if elf.ei_class == ELFCLASS64 {
            Xlen::X64
        } else {
            return Err(LoadError::UnexpectedClass);
        };
        self.cpu.set_pc(elf.e_entry);
        self.cpu.set_xlen(xlen);
        match self.store_all(&elf.sections) {
            Err(t) => { return Err(LoadError::Store(t)); },
            Ok(_) => {},
        }
        if self.testmode {
            self.tohost = match elf.tohost {
                Some(addr) => addr,
                None => 0,
            };
        }
        Ok(())
    }

    /// Makes one step and looks at `.tohost`.
    fn watched_step(&mut self) -> (r: RunOutcome)
        requires
            old(self)@.wf(),
        ensures
            final(self)@.wf(),
            (Ran { outcome: r, state: final(self)@ }) == old(self)@.watched_step(),
    {
        reveal(EmulatorView::watched_step);
        self.cpu.tick();
        if !(self.testmode && self.tohost != 0) {
            return RunOutcome::Pending;
        }
        match self.cpu.get_mmu().read32_direct(self.tohost) {
            Err(t) => RunOutcome::Unreadable(t),
            Ok(v) => if v == 0 {
                RunOutcome::Pending
            } else if v == 1 {
                RunOutcome::Exited(Ok(1))
            } else {
                RunOutcome::Exited(Err(v))
            },
        }
    }

    /// Runs the program for at most `max_steps` steps. In test mode the
    /// run ends as soon as the program has written to `.tohost`.
    #[verifier::rlimit(50)]
    pub fn run(&mut self, max_steps: u64) -> (r: RunOutcome)
        requires
            old(self)@.wf(),
        ensures
            final(self)@.wf(),
            (Ran { outcome: r, state: final(self)@ }) == old(self)@.run(max_steps as nat),
    {
        let mut remaining = max_steps;
        while remaining > 0
            invariant
                self@.wf(),
                old(self)@.run(max_steps as nat) == self@.run(remaining as nat),
            decreases remaining,
        {
            match self.watched_step() {
                RunOutcome::Pending => {},
                other => { return other; },
            }
            remaining -= 1;
        }
        RunOutcome::Pending
    }
}

} // verus!
