//! The SiS96x SMBus controller: its registers and its algorithm.
use vstd::prelude::*;

use crate::adapter::I2cAdapter;
use crate::algo::{I2cAlgorithm, I2cProvided, I2cAlgorithmTable, I2cAlgorithmVTable, I2cMsg};
use crate::error::Error;
use crate::drivers::probe::{Probe, ProbeAction, ProbeStep};

verus! {

/// Offsets of the SMBus registers.
pub struct Sis96xRegs;

impl Sis96xRegs {
    pub const SMB_STS: usize = 0x00;
    pub const SMB_EN: usize = 0x01;
    pub const SMB_CNT: usize = 0x02;
    pub const SMB_HOST_CNT: usize = 0x03;
    pub const SMB_ADDR: usize = 0x04;
    pub const SMB_CMD: usize = 0x05;
    pub const SMB_PCOUNT: usize = 0x06;
    pub const SMB_COUNT: usize = 0x07;
    pub const SMB_BYTE: usize = 0x08;
    pub const SMB_DEV_ADDR: usize = 0x10;
    pub const SMB_DB0: usize = 0x11;
    pub const SMB_DB1: usize = 0x12;
    pub const SMB_SAA: usize = 0x13;
    /// Size of the register region.
    pub const END: usize = 0x14;
}

/// The algorithm of the SiS96x adapter: it provides no operation yet.
pub struct Sis96xDevice {}

impl I2cProvided for Sis96xDevice {
    open spec fn provided() -> I2cAlgorithmTable {
        I2cAlgorithmTable {
            xfer: false,
            xfer_atomic: false,
            smbus_xfer: false,
            smbus_xfer_atomic: false,
            functionality: false,
        }
    }

    fn table() -> (r: I2cAlgorithmTable) {
        I2cAlgorithmTable {
            xfer: false,
            xfer_atomic: false,
            smbus_xfer: false,
            smbus_xfer_atomic: false,
            functionality: false,
        }
    }
}

impl I2cAlgorithm for Sis96xDevice {
    /// No transfer is provided, so none takes place.
    open spec fn xfer_spec(
        adap: I2cAdapter,
        before: Seq<I2cMsg>,
        after: Seq<I2cMsg>,
        r: Result<(), Error>,
    ) -> bool {
        false
    }

    /// No atomic transfer is provided, so none takes place.
    open spec fn xfer_atomic_spec(
        adap: I2cAdapter,
        before: Seq<I2cMsg>,
        after: Seq<I2cMsg>,
        r: Result<(), Error>,
    ) -> bool {
        false
    }

    /// Not provided: the `requires` of the operation cannot be met.
    fn xfer(adap: &I2cAdapter, msgs: &mut [I2cMsg]) -> (r: Result<(), Error>) {
        Err(Error::einval())
    }

    /// Not provided: the `requires` of the operation cannot be met.
    fn xfer_atomic(adap: &I2cAdapter, msgs: &mut [I2cMsg]) -> (r: Result<(), Error>) {
        Err(Error::einval())
    }
}

/// The PCI driver of the SiS96x SMBus controller.
pub struct Sis96xDriver;

impl Sis96xDriver {
    /// The steps of a probe: enable the memory space and bus mastering, map the
    /// registers of BAR 0, then register the adapter `i2c_sis96x_rust` with the
    /// callbacks of [`Sis96xDevice`].
    pub open spec fn spec_probe_steps() -> Seq<ProbeStep> {
        seq![
            ProbeStep::EnableDeviceMem,
            ProbeStep::SetMaster,
            ProbeStep::MapBar { bar: 0, size: Sis96xRegs::END, name: "rust_driver_pci" },
            ProbeStep::RegisterAdapter { name: "i2c_sis96x_rust", algo: Sis96xDevice::provided() },
        ]
    }

    /// Starts a probe of the device.
    pub fn probe() -> (r: (Probe, ProbeAction))
        ensures
            r.0.wf(),
            r.0.spec_steps() == Self::spec_probe_steps(),
            r.0.spec_completed() == 0,
            !r.0.spec_finished(),
            r.1 == ProbeAction::Run(ProbeStep::EnableDeviceMem),
    {
        let algo = I2cAlgorithmVTable::<Sis96xDevice>::build();
        let steps = vec![
            ProbeStep::EnableDeviceMem,
            ProbeStep::SetMaster,
            ProbeStep::MapBar { bar: 0, size: Sis96xRegs::END, name: "rust_driver_pci" },
            ProbeStep::RegisterAdapter { name: "i2c_sis96x_rust", algo },
        ];
        Probe::new(steps)
    }
}

/// The SiS96x algorithm provides no operation, and its probe enables the device, turns
/// on bus mastering, maps BAR 0 (0x14 bytes, `rust_driver_pci`) and registers the
/// adapter `i2c_sis96x_rust` with that empty table last, so a probe is done only after
/// the adapter is registered.
pub proof fn lemma_sis96x_table_and_plan()
    ensures
        Sis96xDevice::provided() == (I2cAlgorithmTable {
            xfer: false,
            xfer_atomic: false,
            smbus_xfer: false,
            smbus_xfer_atomic: false,
            functionality: false,
        }),
        Sis96xDriver::spec_probe_steps() == (seq![
            ProbeStep::EnableDeviceMem,
            ProbeStep::SetMaster,
            ProbeStep::MapBar { bar: 0, size: 0x14, name: "rust_driver_pci" },
            ProbeStep::RegisterAdapter {
                name: "i2c_sis96x_rust",
                algo: I2cAlgorithmTable {
                    xfer: false,
                    xfer_atomic: false,
                    smbus_xfer: false,
                    smbus_xfer_atomic: false,
                    functionality: false,
                },
            },
        ]),
{
}

} // verus!
