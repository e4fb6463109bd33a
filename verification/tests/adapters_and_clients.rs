use lib::adapter::{I2cAdapter, I2cAdapterOptions, Registration, I2C_ADAPTER_NAME_SIZE};
use lib::algo::{
    count_from_c_int, result_to_errno, I2cAlgorithm, I2cAlgorithmTable, I2cAlgorithmVTable,
    I2cMsg, I2cProvided, I2cSmbusData,
};
use lib::client::{I2cBoardInfo, I2cClient, I2C_TYPE_SIZE};
use lib::drivers::i801::{I801Device, I801Driver, I801IoRegs, I801Regs, SMBBAR, SMBBAR_MMIO};
use lib::drivers::probe::{Probe, ProbeAction, ProbeStep};
use lib::drivers::sample::{SampleDevice, SampleDriver};
use lib::drivers::sis96x::{Sis96xDevice, Sis96xDriver, Sis96xRegs};
use lib::error::Error;
use vstd::seq::Seq;

/// An algorithm that fails every non-empty transfer with `EIO`, marking the first message.
struct FailingDevice;

const FAILING_TABLE: I2cAlgorithmTable = I2cAlgorithmTable {
    xfer: true,
    xfer_atomic: true,
    smbus_xfer: false,
    smbus_xfer_atomic: false,
    functionality: false,
};

impl I2cProvided for FailingDevice {
    fn provided() -> I2cAlgorithmTable {
        FAILING_TABLE
    }

    fn table() -> I2cAlgorithmTable {
        FAILING_TABLE
    }
}

impl I2cAlgorithm for FailingDevice {
    fn xfer_spec(_: I2cAdapter, _: Seq<I2cMsg>, _: Seq<I2cMsg>, r: Result<(), Error>) -> bool {
        r.is_err()
    }

    fn xfer_atomic_spec(_: I2cAdapter, _: Seq<I2cMsg>, _: Seq<I2cMsg>, r: Result<(), Error>) -> bool {
        r.is_err()
    }

    fn xfer(_adap: &I2cAdapter, msgs: &mut [I2cMsg]) -> Result<(), Error> {
        if msgs.is_empty() {
            Ok(())
        } else {
            msgs[0].flags = 1;
            Err(Error::from_errno(-5))
        }
    }

    fn xfer_atomic(_adap: &I2cAdapter, msgs: &mut [I2cMsg]) -> Result<(), Error> {
        Self::xfer(_adap, msgs)
    }
}

fn msg(addr: u16) -> I2cMsg {
    I2cMsg { addr, flags: 0, len: 1, buf: vec![0xAA] }
}

fn adapter() -> I2cAdapter {
    I2cAdapter::from_raw(0x1000, 3)
}

#[test]
fn counts_from_c() {
    assert_eq!(count_from_c_int(0), Some(0));
    assert_eq!(count_from_c_int(5), Some(5));
    assert_eq!(count_from_c_int(-1), None);
    assert_eq!(count_from_c_int(i32::MIN), None);
}

#[test]
fn results_as_errno() {
    assert_eq!(result_to_errno(Ok(())), 0);
    assert_eq!(result_to_errno(Err(Error::einval())), -22);
    assert_eq!(result_to_errno(Err(Error::from_errno(-110))), -110);
}

#[test]
fn xfer_rejects_negative_count() {
    let mut msgs = vec![msg(0x50)];
    let r = I2cAlgorithmVTable::<FailingDevice>::xfer(&adapter(), &mut msgs, -1);
    assert_eq!(r, -22);
    assert_eq!(msgs[0].flags, 0);
    let r = I2cAlgorithmVTable::<FailingDevice>::xfer_atomic(&adapter(), &mut msgs, -3);
    assert_eq!(r, -22);
}

#[test]
fn xfer_returns_what_the_algorithm_returned() {
    let mut msgs = vec![msg(0x50), msg(0x51)];
    let r = I2cAlgorithmVTable::<FailingDevice>::xfer(&adapter(), &mut msgs, 2);
    assert_eq!(r, -5);
    assert_eq!(msgs[0].flags, 1);
    let mut none: Vec<I2cMsg> = Vec::new();
    assert_eq!(I2cAlgorithmVTable::<FailingDevice>::xfer_atomic(&adapter(), &mut none, 0), 0);
}

#[test]
fn smbus_xfer_callbacks() {
    let data = I2cSmbusData { block: [0u8; 34] };
    assert_eq!(
        I2cAlgorithmVTable::<SampleDevice>::smbus_xfer(&adapter(), 0x50, 0, 1, 0x10, 2, &data),
        0
    );
    assert_eq!(
        I2cAlgorithmVTable::<SampleDevice>::smbus_xfer(&adapter(), 0x50, 0, 1, 0x10, -2, &data),
        -22
    );
    assert_eq!(
        I2cAlgorithmVTable::<I801Device>::smbus_xfer(&adapter(), 0x50, 0, 0, 0, 1, &data),
        0
    );
}

#[test]
fn functionality_callbacks() {
    assert_eq!(I2cAlgorithmVTable::<SampleDevice>::functionality(&adapter()), 0x0006_0000);
    assert_eq!(I2cAlgorithmVTable::<I801Device>::functionality(&adapter()), 0);
    assert_eq!(SampleDevice::functionality(&adapter()).bits(), 0x0006_0000);
}

#[test]
fn tables_hold_the_provided_callbacks() {
    let sample = I2cAlgorithmVTable::<SampleDevice>::build();
    assert_eq!(
        sample,
        I2cAlgorithmTable {
            xfer: false,
            xfer_atomic: false,
            smbus_xfer: true,
            smbus_xfer_atomic: false,
            functionality: true,
        }
    );
    let sis = I2cAlgorithmVTable::<Sis96xDevice>::build();
    assert!(!sis.xfer && !sis.xfer_atomic && !sis.smbus_xfer);
    assert!(!sis.smbus_xfer_atomic && !sis.functionality);
    let failing = I2cAlgorithmVTable::<FailingDevice>::build();
    assert!(failing.xfer && failing.xfer_atomic && !failing.functionality);
}

#[test]
fn adapter_handle() {
    let a = adapter();
    assert_eq!(a.as_raw(), 0x1000);
    assert_eq!(a.index(), 3);
}

#[test]
fn get_adapter() {
    assert_eq!(I2cAdapter::get(2, 0).unwrap_err().to_errno(), -19);
    let a = I2cAdapter::get(2, 0x2000).unwrap();
    assert_eq!(a.as_raw(), 0x2000);
    assert_eq!(a.index(), 2);
}

#[test]
fn adapter_name_is_copied_with_its_nul() {
    let opts = I2cAdapterOptions { name: b"i2c_i801_rust".to_vec() };
    let raw = opts.as_raw::<I801Device>();
    assert_eq!(&raw.name[..13], b"i2c_i801_rust");
    assert!(raw.name[13..].iter().all(|b| *b == 0));
    assert_eq!(raw.nr, 0);
    assert_eq!(raw.parent, 0);
    assert!(raw.algo.smbus_xfer && raw.algo.functionality && !raw.algo.xfer);
}

#[test]
fn longest_adapter_name_fits() {
    let name = vec![b'x'; I2C_ADAPTER_NAME_SIZE - 1];
    let raw = I2cAdapterOptions { name: name.clone() }.as_raw::<Sis96xDevice>();
    assert_eq!(&raw.name[..47], &name[..]);
    assert_eq!(raw.name[47], 0);
    let raw = I2cAdapterOptions { name: Vec::new() }.as_raw::<Sis96xDevice>();
    assert_eq!(raw.name, [0u8; 48]);
}

#[test]
fn adapter_registration() {
    let opts = I2cAdapterOptions { name: b"rust_i2c_adapter".to_vec() };
    let raw = Registration::<SampleDevice>::new(0xdead_0000, opts);
    assert_eq!(raw.parent, 0xdead_0000);
    assert_eq!(&raw.name[..16], b"rust_i2c_adapter");
    assert_eq!(raw.name[16], 0);
    let reg = Registration::<SampleDevice>::register(raw, 0).unwrap();
    assert_eq!(*reg.adapter(), raw);
    let err = Registration::<SampleDevice>::register(raw, -16).err().unwrap();
    assert_eq!(err.to_errno(), -16);
    let err = Registration::<SampleDevice>::register(raw, -9999).err().unwrap();
    assert_eq!(err.to_errno(), -22);
}

#[test]
fn board_info() {
    let info = I2cBoardInfo::new(b"ds1307".to_vec(), 0x68);
    let raw = info.as_raw();
    assert_eq!(&raw.type_[..6], b"ds1307");
    assert!(raw.type_[6..].iter().all(|b| *b == 0));
    assert_eq!(raw.addr, 0x68);
    assert_eq!(raw.flags, 0);
    assert_eq!(raw.irq, 0);
    let longest = vec![b't'; I2C_TYPE_SIZE - 1];
    let info = I2cBoardInfo::new(longest, 0x10);
    assert_eq!(info.as_raw().type_[18], b't');
    assert_eq!(info.as_raw().type_[19], 0);
}

#[test]
fn client_from_device() {
    assert_eq!(I2cClient::try_from_device(0x5040, 0, 0x40).unwrap_err().to_errno(), -22);
    let c = I2cClient::try_from_device(0x5040, 0x5000, 0x40).unwrap();
    assert_eq!(c.as_raw(), 0x5000);
}

#[test]
fn client_registration() {
    let reg = lib::client::Registration::try_new(0x7000).unwrap();
    assert_eq!(reg.as_raw(), 0x7000);
    let e = lib::client::Registration::try_new(0).err().unwrap();
    assert_eq!(e.to_errno(), -19);
    let e = lib::client::Registration::try_new(usize::MAX - 15).err().unwrap();
    assert_eq!(e.to_errno(), -16);
}

#[test]
fn i801_probe_runs_every_step() {
    let (mut probe, first) = I801Driver::probe();
    assert_eq!(first, ProbeAction::Run(ProbeStep::EnableDeviceMem));
    assert_eq!(probe.step(Ok(())), ProbeAction::Run(ProbeStep::SetMaster));
    assert_eq!(
        probe.step(Ok(())),
        ProbeAction::Run(ProbeStep::MapBar {
            bar: SMBBAR_MMIO,
            size: I801IoRegs::END,
            name: "i801_smbus/bar0",
        })
    );
    assert_eq!(
        probe.step(Ok(())),
        ProbeAction::Run(ProbeStep::MapBar {
            bar: SMBBAR,
            size: I801Regs::END,
            name: "i801_smbus/bar4",
        })
    );
    assert_eq!(
        probe.step(Ok(())),
        ProbeAction::Run(ProbeStep::RegisterAdapter {
            name: "i2c_i801_rust",
            algo: I2cAlgorithmVTable::<I801Device>::build(),
        })
    );
    assert_eq!(probe.step(Ok(())), ProbeAction::Done);
    assert_eq!(I801IoRegs::END, 0x15);
    assert_eq!(I801Regs::END, 0x58);
}

#[test]
fn probe_stops_at_first_failure() {
    let (mut probe, first) = Sis96xDriver::probe();
    assert_eq!(first, ProbeAction::Run(ProbeStep::EnableDeviceMem));
    assert_eq!(probe.step(Ok(())), ProbeAction::Run(ProbeStep::SetMaster));
    assert_eq!(
        probe.step(Ok(())),
        ProbeAction::Run(ProbeStep::MapBar {
            bar: 0,
            size: Sis96xRegs::END,
            name: "rust_driver_pci",
        })
    );
    let busy = Error::from_errno(-16);
    assert_eq!(probe.step(Err(busy)), ProbeAction::Fail(busy));
}

#[test]
fn sample_probe_registers_only() {
    let (mut probe, first) = SampleDriver::probe();
    assert_eq!(
        first,
        ProbeAction::Run(ProbeStep::RegisterAdapter {
            name: "rust_i2c_adapter",
            algo: I2cAlgorithmVTable::<SampleDevice>::build(),
        })
    );
    assert_eq!(probe.step(Ok(())), ProbeAction::Done);
    let (_, action) = Probe::new(Vec::new());
    assert_eq!(action, ProbeAction::Done);
}

#[test]
fn device_addresses_round_trip() {
    let a = adapter();
    assert_eq!(a.as_device(0x28), 0x1028);
    let c = I2cClient::try_from_device(0x5040, 0x5000, 0x40).unwrap();
    let dev = c.as_device(0x40);
    assert_eq!(dev, 0x5040);
    let back = I2cClient::try_from_device(dev, 0x5000, 0x40).unwrap();
    assert_eq!(back, c);
}

#[test]
fn failed_probe_releases_newest_first() {
    let (mut probe, _) = I801Driver::probe();
    assert!(probe.to_release().is_empty());
    for _ in 0..4 {
        let _ = probe.step(Ok(()));
    }
    let nomem = Error::from_errno(-12);
    assert_eq!(probe.step(Err(nomem)), ProbeAction::Fail(nomem));
    assert_eq!(
        probe.to_release(),
        vec![
            ProbeStep::MapBar { bar: SMBBAR, size: I801Regs::END, name: "i801_smbus/bar4" },
            ProbeStep::MapBar {
                bar: SMBBAR_MMIO,
                size: I801IoRegs::END,
                name: "i801_smbus/bar0",
            },
        ]
    );
}

#[test]
fn failed_enable_releases_nothing() {
    let (mut probe, _) = Sis96xDriver::probe();
    assert_eq!(probe.step(Err(Error::einval())), ProbeAction::Fail(Error::einval()));
    assert!(probe.to_release().is_empty());
    assert!(!ProbeStep::SetMaster.holds_resource());
    assert!(ProbeStep::MapBar { bar: 0, size: 1, name: "r" }.holds_resource());
}
