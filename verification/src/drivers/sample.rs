//! The sample adapter: SMBus transfers that succeed, and byte reads and writes as functionality.
use vstd::prelude::*;

use crate::adapter::I2cAdapter;
use crate::drivers::probe::{Probe, ProbeAction, ProbeStep};
use crate::algo::{I2cAlgorithm, I2cProvided, I2cAlgorithmTable, I2cAlgorithmVTable, I2cMsg, I2cSmbusData};
use crate::error::Error;
use crate::flags::{I2cFlag, I2cFlags, I2C_FUNC_SMBUS_READ_BYTE, I2C_FUNC_SMBUS_WRITE_BYTE};

verus! {

/// The algorithm of the sample adapter.
pub struct SampleDevice {}

impl I2cProvided for SampleDevice {
    open spec fn provided() -> I2cAlgorithmTable {
        I2cAlgorithmTable {
            xfer: false,
            xfer_atomic: false,
            smbus_xfer: true,
            smbus_xfer_atomic: false,
            functionality: true,
        }
    }

    fn table() -> (r: I2cAlgorithmTable) {
        I2cAlgorithmTable {
            xfer: false,
            xfer_atomic: false,
            smbus_xfer: true,
            smbus_xfer_atomic: false,
            functionality: true,
        }
    }
}

impl I2cAlgorithm for SampleDevice {
    /// No transfer is provided, so none takes place.
    open spec fn xfer_spec(
        adap: I2cAdapter,
        before: Seq<I2cMsg>,
        after: Seq<I2cMsg>,
        r: Result<(), Error>,
    ) -> bool {
        false
    }

    /// No atomic transfer is provided, so none takes place.
    open spec fn xfer_atomic_spec(
        adap: I2cAdapter,
        before: Seq<I2cMsg>,
        after: Seq<I2cMsg>,
        r: Result<(), Error>,
    ) -> bool {
        false
    }

    /// Not provided: the `requires` of the operation cannot be met.
    fn xfer(adap: &I2cAdapter, msgs: &mut [I2cMsg]) -> (r: Result<(), Error>) {
        Err(Error::einval())
    }

    /// Not provided: the `requires` of the operation cannot be met.
    fn xfer_atomic(adap: &I2cAdapter, msgs: &mut [I2cMsg]) -> (r: Result<(), Error>) {
        Err(Error::einval())
    }

    fn smbus_xfer(
        adap: &I2cAdapter,
        addr: u16,
        flags: u16,
        read_write: u8,
        command: u8,
        size: usize,
        data: &I2cSmbusData,
    ) -> (r: Result<(), Error>)
        ensures
            r is Ok,
    {
        Ok(())
    }

    fn functionality(adap: &I2cAdapter) -> (r: I2cFlags)
        ensures
            r@ == I2C_FUNC_SMBUS_READ_BYTE | I2C_FUNC_SMBUS_WRITE_BYTE,
    {
        I2cFlag::I2cFuncSmbusReadByte | I2cFlag::I2cFuncSmbusWriteByte
    }
}

/// The platform driver of the sample adapter.
pub struct SampleDriver;

impl SampleDriver {
    /// The steps of a probe: register the adapter `rust_i2c_adapter` with the callbacks
    /// of [`SampleDevice`], nothing else.
    pub open spec fn spec_probe_steps() -> Seq<ProbeStep> {
        seq![ProbeStep::RegisterAdapter { name: "rust_i2c_adapter", algo: SampleDevice::provided() }]
    }

    /// Starts a probe of the device.
    pub fn probe() -> (r: (Probe, ProbeAction))
        ensures
            r.0.wf(),
            r.0.spec_steps() == Self::spec_probe_steps(),
            r.0.spec_completed() == 0,
            !r.0.spec_finished(),
            r.1 == ProbeAction::Run(Self::spec_probe_steps()[0]),
    {
        let algo = I2cAlgorithmVTable::<SampleDevice>::build();
        Probe::new(vec![ProbeStep::RegisterAdapter { name: "rust_i2c_adapter", algo }])
    }
}

/// The sample algorithm provides SMBus transfers and functionality and nothing else,
/// reports SMBus byte reads and byte writes (`0x0006_0000`) as its functionality, and
/// its probe is the single step that registers the adapter `rust_i2c_adapter` with
/// that table.
pub proof fn lemma_sample_table_and_plan()
    ensures
        SampleDevice::provided() == (I2cAlgorithmTable {
            xfer: false,
            xfer_atomic: false,
            smbus_xfer: true,
            smbus_xfer_atomic: false,
            functionality: true,
        }),
        I2C_FUNC_SMBUS_READ_BYTE | I2C_FUNC_SMBUS_WRITE_BYTE == 0x0006_0000u32,
        SampleDriver::spec_probe_steps() == (seq![
            ProbeStep::RegisterAdapter {
                name: "rust_i2c_adapter",
                algo: I2cAlgorithmTable {
                    xfer: false,
                    xfer_atomic: false,
                    smbus_xfer: true,
                    smbus_xfer_atomic: false,
                    functionality: true,
                },
            },
        ]),
{
    assert(I2C_FUNC_SMBUS_READ_BYTE | I2C_FUNC_SMBUS_WRITE_BYTE == 0x0006_0000u32) by (bit_vector);
}

} // verus!
