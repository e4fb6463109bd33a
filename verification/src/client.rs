//! I2C clients: the board info a client is created from, the client handle, and its registration.
use vstd::prelude::*;

use crate::cstr::{
    c_string, lemma_padded_name_reads_back, lemma_padded_name_terminated, no_nul,
    nul_terminated, padded_name,
};
use crate::error::{from_err_ptr, is_err_ptr, ptr_errno, Error, EINVAL, ENODEV};

verus! {

/// Size of the type field of C `struct i2c_board_info` (`I2C_NAME_SIZE`).
pub const I2C_TYPE_SIZE: usize = 20;

/// The fields of C `struct i2c_board_info` that this layer writes; the others stay zero.
#[derive(Clone, Copy, Debug, PartialEq, Eq)]
pub struct RawI2cBoardInfo {
    /// Chip type, NUL-terminated.
    pub type_: [u8; I2C_TYPE_SIZE],
    /// Flags for the client.
    pub flags: u16,
    /// Address on the bus.
    pub addr: u16,
    /// Interrupt number.
    pub irq: i32,
}

/// Board info for the manual creation of an I2C client.
pub struct I2cBoardInfo(RawI2cBoardInfo);

impl I2cBoardInfo {
    /// The C value held.
    pub closed spec fn spec_raw(&self) -> RawI2cBoardInfo {
        self.0
    }

    /// Board info for a chip of type `type_` at address `addr`: a zeroed value with the
    /// type (NUL-terminated) and the address set. The type and its NUL must fit the field;
    /// a type with no NUL in it reads back, as C reads the field, as that type.
    pub fn new(type_: Vec<u8>, addr: u16) -> (r: I2cBoardInfo)
        requires
            type_@.len() < I2C_TYPE_SIZE,
        ensures
            r.spec_raw().type_@ == padded_name(type_@, I2C_TYPE_SIZE as nat),
            nul_terminated(r.spec_raw().type_@),
            no_nul(type_@) ==> c_string(r.spec_raw().type_@) == type_@,
            r.spec_raw().addr == addr,
            r.spec_raw().flags == 0,
            r.spec_raw().irq == 0,
    {
        let mut info = RawI2cBoardInfo { type_: [0u8; 20], flags: 0, addr: 0, irq: 0 };
        let mut src = type_;
        src.push(0u8);
        let mut i: usize = 0;
        while i < src.len()
            invariant
                src@ == type_@.push(0u8),
                src@.len() <= I2C_TYPE_SIZE,
                i <= src@.len(),
                info.flags == 0,
                info.addr == 0,
                info.irq == 0,
                forall|j: int| 0 <= j < i ==> info.type_@[j] == src@[j],
                forall|j: int| i <= j < I2C_TYPE_SIZE ==> info.type_@[j] == 0u8,
            decreases src@.len() - i,
        {
            info.type_[i] = src[i];
            i += 1;
        }
        info.addr = addr;
        assert(info.type_@.len() == I2C_TYPE_SIZE) by {
            broadcast use vstd::array::group_array_axioms;
        }
        assert forall|j: int| 0 <= j < I2C_TYPE_SIZE implies info.type_@[j] == padded_name(
            type_@,
            I2C_TYPE_SIZE as nat,
        )[j] by {
            if j < src@.len() {
                assert(info.type_@[j] == src@[j]);
            }
        }
        assert(info.type_@ =~= padded_name(type_@, I2C_TYPE_SIZE as nat));
        proof {
            lemma_padded_name_terminated(type_@, I2C_TYPE_SIZE as nat);
            if no_nul(type_@) {
                lemma_padded_name_reads_back(type_@, I2C_TYPE_SIZE as nat);
            }
        }
        I2cBoardInfo(info)
    }

    /// The C value held.
    pub fn as_raw(&self) -> (r: &RawI2cBoardInfo)
        ensures
            *r == self.spec_raw(),
    {
        &self.0
    }
}

/// An I2C client of the C side, known by its address.
#[derive(Clone, Copy, Debug, PartialEq, Eq, Structural)]
pub struct I2cClient {
    ptr: usize,
}

impl I2cClient {
    /// Address of the C `struct i2c_client`.
    pub closed spec fn spec_ptr(&self) -> usize {
        self.ptr
    }

    /// Address of the C `struct i2c_client`.
    pub fn as_raw(&self) -> (r: usize)
        ensures
            r == self.spec_ptr(),
    {
        self.ptr
    }

    /// Address of the device embedded in the client, `dev_offset` bytes into it.
    pub fn as_device(&self, dev_offset: usize) -> (r: usize)
        requires
            self.spec_ptr() + dev_offset <= usize::MAX,
        ensures
            r == self.spec_ptr() + dev_offset,
    {
        self.ptr + dev_offset
    }

    /// The client that embeds the device at `dev`, given what `i2c_verify_client(dev)`
    /// returned (`0` when the device is not an I2C client) and the offset of the device
    /// within a client: `EINVAL` for a device that is not a client.
    pub fn try_from_device(dev: usize, verified: usize, dev_offset: usize) -> (r: Result<
        I2cClient,
        Error,
    >)
        requires
            verified != 0 ==> dev_offset <= dev,
        ensures
            r is Err <==> verified == 0,
            r matches Err(e) ==> e.code() == -EINVAL,
            r matches Ok(c) ==> c.spec_ptr() == dev - dev_offset,
    {
        if verified == 0 {
            return Err(Error::einval());
        }
        Ok(I2cClient { ptr: dev - dev_offset })
    }
}

/// The device of a client leads back to that client: the address that
/// [`I2cClient::as_device`] gives, handed to [`I2cClient::try_from_device`] with the
/// same offset for a device that is a client, is the client's own address.
pub proof fn lemma_device_round_trip(client: I2cClient, dev_offset: usize)
    requires
        client.spec_ptr() + dev_offset <= usize::MAX,
    ensures
        dev_offset <= client.spec_ptr() + dev_offset,
        (client.spec_ptr() + dev_offset) - dev_offset == client.spec_ptr(),
{
}

/// The registration of an I2C client device: the address of the registered C
/// `struct i2c_client`, neither `NULL` nor an error pointer.
pub struct Registration(usize);

impl Registration {
    #[verifier::type_invariant]
    spec fn inv(self) -> bool {
        self.0 != 0 && !is_err_ptr(self.0)
    }

    /// Address of the registered client.
    pub closed spec fn spec_ptr(&self) -> usize {
        self.0
    }

    /// The registration of the client that `i2c_new_client_device` returned: the error
    /// an error pointer encodes, `ENODEV` for `NULL`, else the client.
    pub fn try_new(raw_dev: usize) -> (r: Result<Registration, Error>)
        ensures
            r is Ok <==> raw_dev != 0 && !is_err_ptr(raw_dev),
            r matches Ok(reg) ==> reg.spec_ptr() == raw_dev,
            r matches Err(e) ==> e.code() == (if is_err_ptr(raw_dev) {
                ptr_errno(raw_dev)
            } else {
                -ENODEV
            }),
    {
        let raw = match from_err_ptr(raw_dev) {
            Ok(p) => p,
            Err(e) => return Err(e),
        };
        if raw == 0 {
            return Err(Error::enodev());
        }
        Ok(Registration(raw))
    }

    /// Address of the registered client.
    pub fn as_raw(&self) -> (r: usize)
        ensures
            r == self.spec_ptr(),
            r != 0,
            !is_err_ptr(r),
    {
        proof {
            use_type_invariant(self);
        }
        self.0
    }
}

} // verus!
