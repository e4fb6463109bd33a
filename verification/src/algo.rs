//! I2C algorithms: the operations an adapter driver provides, and the table of
//! callbacks that the I2C core calls through.
use vstd::prelude::*;

use crate::adapter::I2cAdapter;
use crate::error::{lemma_code_valid, valid_errno, Error, EINVAL};
use crate::flags::{valid_bits, I2cFlags};

verus! {

/// One message of a transfer, with the fields of C `struct i2c_msg`.
pub struct I2cMsg {
    /// Slave address.
    pub addr: u16,
    /// Message flags (`I2C_M_*`).
    pub flags: u16,
    /// Message length.
    pub len: u16,
    /// Message data.
    pub buf: Vec<u8>,
}

/// Size of the data of an SMBus transfer (`I2C_SMBUS_BLOCK_MAX + 2`).
pub const I2C_SMBUS_DATA_SIZE: usize = 34;

/// The data of an SMBus transfer, as the bytes of C `union i2c_smbus_data`.
pub struct I2cSmbusData {
    /// The bytes of the union: a byte, a word, or a length-prefixed block.
    pub block: [u8; I2C_SMBUS_DATA_SIZE],
}

/// Which operations of [`I2cAlgorithm`] an algorithm provides.
pub trait I2cProvided {
    /// The operations this algorithm provides.
    spec fn provided() -> I2cAlgorithmTable;

    /// The operations this algorithm provides.
    fn table() -> (r: I2cAlgorithmTable)
        ensures
            r == Self::provided(),
    ;
}

/// Trait implemented by the private data of an I2C adapter.
///
/// [`I2cProvided::provided`] names the operations the driver provides; the table of
/// callbacks holds exactly those, and an operation that is not provided cannot be
/// called: its `requires` asks that it be provided. The SMBus operations and
/// `functionality` have default bodies only so that a driver that does not provide
/// them need not write them; no caller can reach those bodies for such a driver.
pub trait I2cAlgorithm: I2cProvided {
    /// What a transfer through this algorithm does: with the adapter `adap`, the
    /// messages `before` become `after` and the transfer gives `r`.
    spec fn xfer_spec(
        adap: I2cAdapter,
        before: Seq<I2cMsg>,
        after: Seq<I2cMsg>,
        r: Result<(), Error>,
    ) -> bool;

    /// What an atomic transfer through this algorithm does, as [`I2cAlgorithm::xfer_spec`].
    spec fn xfer_atomic_spec(
        adap: I2cAdapter,
        before: Seq<I2cMsg>,
        after: Seq<I2cMsg>,
        r: Result<(), Error>,
    ) -> bool;

    /// Transfers the messages `msgs` through the adapter.
    fn xfer(adap: &I2cAdapter, msgs: &mut [I2cMsg]) -> (r: Result<(), Error>)
        requires
            Self::provided().xfer,
        ensures
            Self::xfer_spec(*adap, old(msgs)@, final(msgs)@, r),
    ;

    /// As `xfer`, in atomic context.
    fn xfer_atomic(adap: &I2cAdapter, msgs: &mut [I2cMsg]) -> (r: Result<(), Error>)
        requires
            Self::provided().xfer_atomic,
        ensures
            Self::xfer_atomic_spec(*adap, old(msgs)@, final(msgs)@, r),
    ;

    /// Issues an SMBus transaction through the adapter.
    fn smbus_xfer(
        adap: &I2cAdapter,
        addr: u16,
        flags: u16,
        read_write: u8,
        command: u8,
        size: usize,
        data: &I2cSmbusData,
    ) -> Result<(), Error>
        requires
            Self::provided().smbus_xfer,
    {
        Err(Error::einval())
    }

    /// As `smbus_xfer`, in atomic context.
    fn smbus_xfer_atomic(
        adap: &I2cAdapter,
        addr: u16,
        flags: u16,
        read_write: u8,
        command: u8,
        size: usize,
        data: &I2cSmbusData,
    ) -> Result<(), Error>
        requires
            Self::provided().smbus_xfer_atomic,
    {
        Err(Error::einval())
    }

    /// The flags that this algorithm/adapter pair supports.
    fn functionality(adap: &I2cAdapter) -> I2cFlags
        requires
            Self::provided().functionality,
    {
        I2cFlags::empty()
    }
}

/// The callbacks of C `struct i2c_algorithm`: each is present or `NULL`.
#[derive(Clone, Copy, Debug, PartialEq, Eq, Structural)]
pub struct I2cAlgorithmTable {
    /// `xfer` is present.
    pub xfer: bool,
    /// `xfer_atomic` is present.
    pub xfer_atomic: bool,
    /// `smbus_xfer` is present.
    pub smbus_xfer: bool,
    /// `smbus_xfer_atomic` is present.
    pub smbus_xfer_atomic: bool,
    /// `functionality` is present.
    pub functionality: bool,
}

/// What a C callback returns for the result of an operation: `0`, or the negative errno.
pub open spec fn result_errno(r: Result<(), Error>) -> int {
    match r {
        Ok(()) => 0,
        Err(e) => e.code(),
    }
}

/// Maps the result of an operation to the value a C callback returns.
pub fn result_to_errno(r: Result<(), Error>) -> (ret: i32)
    ensures
        ret == result_errno(r),
        ret == 0 || valid_errno(ret as int),
        (ret == 0) == (r is Ok),
{
    match r {
        Ok(()) => 0,
        Err(e) => {
            proof {
                lemma_code_valid(e);
            }
            e.to_errno()
        },
    }
}

/// The count of messages, or size of a transfer, that C hands over: `None` when negative.
pub fn count_from_c_int(n: i32) -> (r: Option<usize>)
    ensures
        r is Some <==> n >= 0,
        r matches Some(c) ==> c == n,
{
    match usize::try_from(n) {
        Ok(c) => Some(c),
        Err(_) => None,
    }
}

/// The callbacks for the C side of an algorithm `T`.
pub struct I2cAlgorithmVTable<T> {
    _algorithm: core::marker::PhantomData<T>,
}

impl<T: I2cAlgorithm> I2cAlgorithmVTable<T> {
    /// The `xfer` callback: checks the message count `num`, hands the `num` messages
    /// to `T::xfer` and returns what it returned as an errno.
    pub fn xfer(adap: &I2cAdapter, msgs: &mut [I2cMsg], num: i32) -> (r: i32)
        requires
            T::provided().xfer,
            num >= 0 ==> old(msgs)@.len() == num,
        ensures
            num < 0 ==> r == -EINVAL && final(msgs)@ == old(msgs)@,
            num >= 0 ==> (r == 0 || valid_errno(r as int)),
            num >= 0 ==> exists|res: Result<(), Error>|
                T::xfer_spec(*adap, old(msgs)@, final(msgs)@, res) && r == result_errno(res),
    {
        let num = match count_from_c_int(num) {
            Some(num) => num,
            None => return Error::einval().to_errno(),
        };
        assert(msgs@.len() == num);
        let res = T::xfer(adap, msgs);
        result_to_errno(res)
    }

    /// The `xfer_atomic` callback: as [`Self::xfer`], through `T::xfer_atomic`.
    pub fn xfer_atomic(adap: &I2cAdapter, msgs: &mut [I2cMsg], num: i32) -> (r: i32)
        requires
            T::provided().xfer_atomic,
            num >= 0 ==> old(msgs)@.len() == num,
        ensures
            num < 0 ==> r == -EINVAL && final(msgs)@ == old(msgs)@,
            num >= 0 ==> (r == 0 || valid_errno(r as int)),
            num >= 0 ==> exists|res: Result<(), Error>|
                T::xfer_atomic_spec(*adap, old(msgs)@, final(msgs)@, res) && r == result_errno(res),
    {
        let num = match count_from_c_int(num) {
            Some(num) => num,
            None => return Error::einval().to_errno(),
        };
        assert(msgs@.len() == num);
        let res = T::xfer_atomic(adap, msgs);
        result_to_errno(res)
    }

    /// The `smbus_xfer` callback: checks the transfer size, hands the transaction to
    /// `T::smbus_xfer` with `size` as a count, and returns what it returned as an errno.
    pub fn smbus_xfer(
        adap: &I2cAdapter,
        addr: u16,
        flags: u16,
        read_write: u8,
        command: u8,
        size: i32,
        data: &I2cSmbusData,
    ) -> (r: i32)
        requires
            T::provided().smbus_xfer,
        ensures
            size < 0 ==> r == -EINVAL,
            size >= 0 ==> (r == 0 || valid_errno(r as int)),
            size >= 0 ==> exists|res: Result<(), Error>|
                call_ensures(
                    T::smbus_xfer,
                    (adap, addr, flags, read_write, command, size as usize, data),
                    res,
                ) && r == result_errno(res),
    {
        let size = match count_from_c_int(size) {
            Some(size) => size,
            None => return Error::einval().to_errno(),
        };
        result_to_errno(T::smbus_xfer(adap, addr, flags, read_write, command, size, data))
    }

    /// The `smbus_xfer_atomic` callback: as [`Self::smbus_xfer`], through `T::smbus_xfer_atomic`.
    pub fn smbus_xfer_atomic(
        adap: &I2cAdapter,
        addr: u16,
        flags: u16,
        read_write: u8,
        command: u8,
        size: i32,
        data: &I2cSmbusData,
    ) -> (r: i32)
        requires
            T::provided().smbus_xfer_atomic,
        ensures
            size < 0 ==> r == -EINVAL,
            size >= 0 ==> (r == 0 || valid_errno(r as int)),
            size >= 0 ==> exists|res: Result<(), Error>|
                call_ensures(
                    T::smbus_xfer_atomic,
                    (adap, addr, flags, read_write, command, size as usize, data),
                    res,
                ) && r == result_errno(res),
    {
        let size = match count_from_c_int(size) {
            Some(size) => size,
            None => return Error::einval().to_errno(),
        };
        result_to_errno(
            T::smbus_xfer_atomic(adap, addr, flags, read_write, command, size, data),
        )
    }

    /// The `functionality` callback: the bits of the flags `T::functionality` returns.
    pub fn functionality(adap: &I2cAdapter) -> (r: u32)
        requires
            T::provided().functionality,
        ensures
            valid_bits(r),
            exists|flags: I2cFlags| call_ensures(T::functionality, (adap,), flags) && r == flags@,
    {
        let flags = T::functionality(adap);
        let r: u32 = flags.bits();
        r
    }

    /// The table of callbacks for `T`: a callback is present exactly when `T` provides it.
    pub fn build() -> (r: I2cAlgorithmTable)
        ensures
            r == T::provided(),
    {
        T::table()
    }
}

} // verus!
