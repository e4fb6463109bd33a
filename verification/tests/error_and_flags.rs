use lib::error::{from_err_ptr, to_result, Error, EINVAL, ENODEV, MAX_ERRNO};
use lib::flags::{
    I2cFlag, I2cFlags, I2C_FUNC_ALL_BITS, I2C_FUNC_I2C, I2C_FUNC_SMBUS_HOST_NOTIFY,
    I2C_FUNC_SMBUS_READ_BYTE, I2C_FUNC_SMBUS_WRITE_BYTE,
};

#[test]
fn errno_in_range_is_kept() {
    let e = Error::from_errno(-5);
    assert_eq!(e.to_errno(), -5);
    assert_eq!(Error::from_errno(-MAX_ERRNO).to_errno(), -4095);
    assert_eq!(Error::try_from_errno(-1).map(|e| e.to_errno()), Some(-1));
}

#[test]
fn errno_out_of_range_becomes_einval() {
    assert_eq!(Error::from_errno(0).to_errno(), -EINVAL);
    assert_eq!(Error::from_errno(7).to_errno(), -22);
    assert_eq!(Error::from_errno(-4096).to_errno(), -22);
    assert!(Error::try_from_errno(0).is_none());
    assert!(Error::try_from_errno(-4096).is_none());
}

#[test]
fn named_errors() {
    assert_eq!(Error::einval().to_errno(), -22);
    assert_eq!(Error::enodev().to_errno(), -ENODEV);
    assert_eq!(Error::enodev().to_errno(), -19);
}

#[test]
fn to_result_splits_on_sign() {
    assert_eq!(to_result(0), Ok(()));
    assert_eq!(to_result(3), Ok(()));
    assert_eq!(to_result(-16).unwrap_err().to_errno(), -16);
    assert_eq!(to_result(-5000).unwrap_err().to_errno(), -22);
}

#[test]
fn error_pointers() {
    assert_eq!(from_err_ptr(0x1000), Ok(0x1000));
    assert_eq!(from_err_ptr(0), Ok(0));
    assert_eq!(from_err_ptr(usize::MAX).unwrap_err().to_errno(), -1);
    assert_eq!(from_err_ptr(usize::MAX - 18).unwrap_err().to_errno(), -19);
    assert_eq!(from_err_ptr(usize::MAX - 4094).unwrap_err().to_errno(), -4095);
    assert_eq!(from_err_ptr(usize::MAX - 4095), Ok(usize::MAX - 4095));
}

#[test]
fn flag_bits() {
    assert_eq!(I2cFlag::I2cFuncI2c.bits(), 0x1);
    assert_eq!(I2cFlag::I2cFuncSlave.bits(), 0x20);
    assert_eq!(I2cFlag::I2cFuncSmbusBlockProcCall.bits(), 0x8000);
    assert_eq!(I2cFlag::I2cFuncSmbusReadByte.bits(), I2C_FUNC_SMBUS_READ_BYTE);
    assert_eq!(I2cFlag::I2cFuncSmbusHostNotify.bits(), I2C_FUNC_SMBUS_HOST_NOTIFY);
    assert_eq!(I2cFlags::all_bits(), 0x1FFF_803F);
    assert_eq!(I2cFlags::all_bits(), I2C_FUNC_ALL_BITS);
}

#[test]
fn union_contains_both_flags() {
    let read_write: I2cFlags = I2cFlag::I2cFuncSmbusReadByte | I2cFlag::I2cFuncSmbusWriteByte;
    assert_eq!(read_write.bits(), 0x0006_0000);
    assert!(read_write.contains(I2cFlag::I2cFuncSmbusReadByte));
    assert!(read_write.contains(I2cFlag::I2cFuncSmbusWriteByte));
    assert!(!read_write.contains(I2cFlag::I2cFuncI2c));
    let with_i2c = read_write | I2cFlags::from(I2cFlag::I2cFuncI2c);
    assert!(with_i2c.contains(I2cFlag::I2cFuncI2c));
    assert!(with_i2c.contains(I2cFlag::I2cFuncSmbusReadByte));
    assert_eq!(u32::from(with_i2c), 0x0006_0001);
}

#[test]
fn contains_any_and_all() {
    let read_write: I2cFlags = I2cFlag::I2cFuncSmbusReadByte | I2cFlag::I2cFuncSmbusWriteByte;
    let read_i2c: I2cFlags = I2cFlag::I2cFuncSmbusReadByte | I2cFlag::I2cFuncI2c;
    assert!(read_write.contains_any(read_i2c));
    assert!(!read_write.contains_all(read_i2c));
    assert!(read_write.contains_all(I2cFlags::from(I2cFlag::I2cFuncSmbusWriteByte)));
    assert!(read_write.contains_all(I2cFlags::empty()));
    assert!(!read_write.contains_any(I2cFlags::empty()));
}

#[test]
fn mask_toggle_and_complement() {
    let read_write: I2cFlags = I2cFlag::I2cFuncSmbusReadByte | I2cFlag::I2cFuncSmbusWriteByte;
    let read_only = read_write & I2cFlags::from(I2cFlag::I2cFuncSmbusReadByte);
    assert!(read_only.contains(I2cFlag::I2cFuncSmbusReadByte));
    assert!(!read_only.contains(I2cFlag::I2cFuncSmbusWriteByte));
    let toggled = read_only ^ I2cFlags::from(I2cFlag::I2cFuncSmbusReadByte);
    assert!(!toggled.contains(I2cFlag::I2cFuncSmbusReadByte));
    assert_eq!(toggled, I2cFlags::empty());
    let negated = !read_only;
    assert!(negated.contains(I2cFlag::I2cFuncSmbusWriteByte));
    assert!(negated.contains(I2cFlag::I2cFuncI2c));
    assert!(!negated.contains(I2cFlag::I2cFuncSmbusReadByte));
    assert_eq!(negated.bits(), 0x1FFF_803F & !I2C_FUNC_SMBUS_READ_BYTE);
    assert_eq!(!negated, read_only);
    assert_eq!((read_only | negated).bits(), I2C_FUNC_ALL_BITS);
    assert_eq!((read_only & negated).bits(), 0);
}

#[test]
fn empty_and_default_hold_nothing() {
    assert_eq!(I2cFlags::empty().bits(), 0);
    assert_eq!(I2cFlags::default(), I2cFlags::empty());
    assert!(!I2cFlags::empty().contains(I2cFlag::I2cFuncI2c));
    assert_eq!((!I2cFlags::empty()).bits(), I2C_FUNC_ALL_BITS);
    let all = !I2cFlags::empty();
    assert!(all.contains(I2cFlag::I2cFuncSmbusHostNotify));
    assert!(all.contains(I2cFlag::I2cFunc10BitAddr));
    assert_eq!(I2cFlags::from(I2cFlag::I2cFuncI2c).bits(), I2C_FUNC_I2C);
    assert_eq!(
        (I2cFlag::I2cFuncSmbusReadByte | I2cFlag::I2cFuncSmbusReadByte).bits(),
        I2C_FUNC_SMBUS_READ_BYTE
    );
    assert_eq!(
        (I2cFlag::I2cFuncSmbusWriteByte | I2cFlag::I2cFuncSmbusReadByte).bits(),
        I2C_FUNC_SMBUS_READ_BYTE | I2C_FUNC_SMBUS_WRITE_BYTE
    );
}
