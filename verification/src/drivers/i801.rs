//! The Intel 801 SMBus controller: its registers, its algorithm, and what its probe does.
use vstd::prelude::*;

use crate::adapter::I2cAdapter;
use crate::drivers::probe::{Probe, ProbeAction, ProbeStep};
use crate::algo::{I2cAlgorithm, I2cProvided, I2cAlgorithmTable, I2cAlgorithmVTable, I2cMsg, I2cSmbusData};
use crate::error::Error;
use crate::flags::I2cFlags;

verus! {

/// Offsets of the SMBus I/O registers.
pub struct I801IoRegs;

impl I801IoRegs {
    pub const SMBHSTSTS: usize = 0x000;
    pub const SMBHSTCNT: usize = 0x002;
    pub const SMBHSTCMD: usize = 0x003;
    pub const SMBHSTADD: usize = 0x004;
    pub const SMBHSTDAT0: usize = 0x005;
    pub const SMBHSTDAT1: usize = 0x006;
    pub const SMBBLKDAT: usize = 0x007;
    /// ICH3 and later.
    pub const SMBPEC: usize = 0x008;
    /// ICH4 and later.
    pub const SMBAUXSTS: usize = 0x00C;
    /// ICH4 and later.
    pub const SMBAUXCTL: usize = 0x00D;
    /// ICH3 and later.
    pub const SMBSLVSTS: usize = 0x010;
    /// ICH3 and later.
    pub const SMBSLVCMD: usize = 0x011;
    /// ICH3 and later.
    pub const SMBNTFDADD: usize = 0x014;
    /// Size of the I/O region.
    pub const END: usize = 0x015;
}

/// Offsets of the PCI configuration registers.
pub struct I801Regs;

impl I801Regs {
    pub const SMBHSTCFG: usize = 0x040;
    pub const TCOBASE: usize = 0x050;
    pub const TCOCTL: usize = 0x054;
    /// Size of the region.
    pub const END: usize = 0x058;
}

/// BAR of the memory-mapped SMBus registers.
pub const SMBBAR_MMIO: u32 = 0;

/// BAR of the SMBus I/O registers.
pub const SMBBAR: u32 = 4;

/// The algorithm of the Intel 801 adapter: SMBus transfers and functionality.
pub struct I801Device {}

impl I2cProvided for I801Device {
    open spec fn provided() -> I2cAlgorithmTable {
        I2cAlgorithmTable {
            xfer: false,
            xfer_atomic: false,
            smbus_xfer: true,
            smbus_xfer_atomic: false,
            functionality: true,
        }
    }

    fn table() -> (r: I2cAlgorithmTable) {
        I2cAlgorithmTable {
            xfer: false,
            xfer_atomic: false,
            smbus_xfer: true,
            smbus_xfer_atomic: false,
            functionality: true,
        }
    }
}

impl I2cAlgorithm for I801Device {
    /// No transfer is provided, so none takes place.
    open spec fn xfer_spec(
        adap: I2cAdapter,
        before: Seq<I2cMsg>,
        after: Seq<I2cMsg>,
        r: Result<(), Error>,
    ) -> bool {
        false
    }

    /// No atomic transfer is provided, so none takes place.
    open spec fn xfer_atomic_spec(
        adap: I2cAdapter,
        before: Seq<I2cMsg>,
        after: Seq<I2cMsg>,
        r: Result<(), Error>,
    ) -> bool {
        false
    }

    /// Not provided: the `requires` of the operation cannot be met.
    fn xfer(adap: &I2cAdapter, msgs: &mut [I2cMsg]) -> (r: Result<(), Error>) {
        Err(Error::einval())
    }

    /// Not provided: the `requires` of the operation cannot be met.
    fn xfer_atomic(adap: &I2cAdapter, msgs: &mut [I2cMsg]) -> (r: Result<(), Error>) {
        Err(Error::einval())
    }

    fn smbus_xfer(
        adap: &I2cAdapter,
        addr: u16,
        flags: u16,
        read_write: u8,
        command: u8,
        size: usize,
        data: &I2cSmbusData,
    ) -> (r: Result<(), Error>)
        ensures
            r is Ok,
    {
        Ok(())
    }

    fn functionality(adap: &I2cAdapter) -> (r: I2cFlags)
        ensures
            r@ == 0,
    {
        I2cFlags::empty()
    }
}

/// The PCI driver of the Intel 801 SMBus controller.
pub struct I801Driver;

impl I801Driver {
    /// The steps of a probe: enable the memory space and bus mastering, map the I/O
    /// registers and the configuration registers, then register the adapter
    /// `i2c_i801_rust` with the callbacks of [`I801Device`].
    pub open spec fn spec_probe_steps() -> Seq<ProbeStep> {
        seq![
            ProbeStep::EnableDeviceMem,
            ProbeStep::SetMaster,
            ProbeStep::MapBar { bar: SMBBAR_MMIO, size: I801IoRegs::END, name: "i801_smbus/bar0" },
            ProbeStep::MapBar { bar: SMBBAR, size: I801Regs::END, name: "i801_smbus/bar4" },
            ProbeStep::RegisterAdapter { name: "i2c_i801_rust", algo: I801Device::provided() },
        ]
    }

    /// Starts a probe of the device.
    pub fn probe() -> (r: (Probe, ProbeAction))
        ensures
            r.0.wf(),
            r.0.spec_steps() == Self::spec_probe_steps(),
            r.0.spec_completed() == 0,
            !r.0.spec_finished(),
            r.1 == ProbeAction::Run(ProbeStep::EnableDeviceMem),
    {
        let algo = I2cAlgorithmVTable::<I801Device>::build();
        let steps = vec![
            ProbeStep::EnableDeviceMem,
            ProbeStep::SetMaster,
            ProbeStep::MapBar { bar: SMBBAR_MMIO, size: I801IoRegs::END, name: "i801_smbus/bar0" },
            ProbeStep::MapBar { bar: SMBBAR, size: I801Regs::END, name: "i801_smbus/bar4" },
            ProbeStep::RegisterAdapter { name: "i2c_i801_rust", algo },
        ];
        Probe::new(steps)
    }
}

/// The Intel 801 algorithm provides SMBus transfers and functionality and nothing else,
/// and its probe enables the device, turns on bus mastering, maps BAR 0 (0x15 bytes,
/// `i801_smbus/bar0`) and BAR 4 (0x58 bytes, `i801_smbus/bar4`), and registers the
/// adapter `i2c_i801_rust` with that table last, so a probe is done only after the
/// adapter is registered.
pub proof fn lemma_i801_table_and_plan()
    ensures
        I801Device::provided() == (I2cAlgorithmTable {
            xfer: false,
            xfer_atomic: false,
            smbus_xfer: true,
            smbus_xfer_atomic: false,
            functionality: true,
        }),
        I801Driver::spec_probe_steps() == (seq![
            ProbeStep::EnableDeviceMem,
            ProbeStep::SetMaster,
            ProbeStep::MapBar { bar: 0, size: 0x15, name: "i801_smbus/bar0" },
            ProbeStep::MapBar { bar: 4, size: 0x58, name: "i801_smbus/bar4" },
            ProbeStep::RegisterAdapter {
                name: "i2c_i801_rust",
                algo: I2cAlgorithmTable {
                    xfer: false,
                    xfer_atomic: false,
                    smbus_xfer: true,
                    smbus_xfer_atomic: false,
                    functionality: true,
                },
            },
        ]),
{
}

} // verus!
