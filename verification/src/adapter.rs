//! I2C adapters: the adapter handle, the options an adapter is created from, and its registration.
use vstd::prelude::*;

use crate::algo::{I2cAlgorithm, I2cAlgorithmTable, I2cAlgorithmVTable};
use crate::cstr::{
    c_string, lemma_padded_name_reads_back, lemma_padded_name_terminated, no_nul,
    nul_terminated, padded_name,
};
use crate::error::{spec_to_result, to_result, Error, ENODEV};

verus! {

/// An I2C adapter of the C side, known by its address, never `NULL`, and its number.
#[derive(Clone, Copy, Debug, PartialEq, Eq, Structural)]
pub struct I2cAdapter {
    ptr: usize,
    nr: i32,
}

impl I2cAdapter {
    #[verifier::type_invariant]
    spec fn inv(self) -> bool {
        self.ptr != 0
    }

    /// Address of the C `struct i2c_adapter`.
    pub closed spec fn spec_ptr(&self) -> usize {
        self.ptr
    }

    /// The adapter number (`nr`).
    pub closed spec fn spec_index(&self) -> i32 {
        self.nr
    }

    /// The adapter at `ptr`, whose number is `nr`; `ptr` is not `NULL`.
    pub fn from_raw(ptr: usize, nr: i32) -> (r: I2cAdapter)
        requires
            ptr != 0,
        ensures
            r.spec_ptr() == ptr,
            r.spec_index() == nr,
    {
        I2cAdapter { ptr, nr }
    }

    /// Address of the C `struct i2c_adapter`.
    pub fn as_raw(&self) -> (r: usize)
        ensures
            r == self.spec_ptr(),
            r != 0,
    {
        proof {
            use_type_invariant(self);
        }
        self.ptr
    }

    /// Address of the device embedded in the adapter, `dev_offset` bytes into it.
    pub fn as_device(&self, dev_offset: usize) -> (r: usize)
        requires
            self.spec_ptr() + dev_offset <= usize::MAX,
        ensures
            r == self.spec_ptr() + dev_offset,
    {
        self.ptr + dev_offset
    }

    /// The adapter number.
    pub fn index(&self) -> (r: i32)
        ensures
            r == self.spec_index(),
    {
        self.nr
    }

    /// The adapter number `index`, given the address that `i2c_get_adapter(index)`
    /// returned for it (`0` when there is no such adapter): `ENODEV` for `0`, else the
    /// adapter at that address, whose number is `index`.
    pub fn get(index: i32, found: usize) -> (r: Result<I2cAdapter, Error>)
        ensures
            r is Err <==> found == 0,
            r matches Err(e) ==> e.code() == -ENODEV,
            r matches Ok(a) ==> a.spec_ptr() == found && a.spec_index() == index,
    {
        if found == 0 {
            return Err(Error::enodev());
        }
        Ok(I2cAdapter { ptr: found, nr: index })
    }
}

/// Size of the name field of C `struct i2c_adapter`.
pub const I2C_ADAPTER_NAME_SIZE: usize = 48;

/// The fields of C `struct i2c_adapter` that this layer writes.
#[derive(Clone, Copy, Debug, PartialEq, Eq)]
pub struct RawI2cAdapter {
    /// Adapter number.
    pub nr: i32,
    /// Adapter name, NUL-terminated.
    pub name: [u8; I2C_ADAPTER_NAME_SIZE],
    /// The algorithm callbacks.
    pub algo: I2cAlgorithmTable,
    /// Address of the parent device (`dev.parent`).
    pub parent: usize,
}

/// Options for creating an I2C adapter device.
pub struct I2cAdapterOptions {
    /// The name of the I2C adapter device, without its terminating NUL.
    pub name: Vec<u8>,
}

impl I2cAdapterOptions {
    /// A zeroed adapter with the name of `self` (NUL-terminated) and the callbacks of `T`,
    /// ready for registration. The name and its NUL must fit the name field; a name
    /// with no NUL in it reads back, as C reads the field, as that name.
    pub fn as_raw<T: I2cAlgorithm>(self) -> (r: RawI2cAdapter)
        requires
            self.name@.len() < I2C_ADAPTER_NAME_SIZE,
        ensures
            r.name@ == padded_name(self.name@, I2C_ADAPTER_NAME_SIZE as nat),
            nul_terminated(r.name@),
            no_nul(self.name@) ==> c_string(r.name@) == self.name@,
            r.nr == 0,
            r.parent == 0,
            r.algo == T::provided(),
    {
        let mut adapter = RawI2cAdapter {
            nr: 0,
            name: [0u8; 48],
            algo: I2cAlgorithmTable {
                xfer: false,
                xfer_atomic: false,
                smbus_xfer: false,
                smbus_xfer_atomic: false,
                functionality: false,
            },
            parent: 0,
        };
        let mut src = self.name;
        src.push(0u8);
        let mut i: usize = 0;
        while i < src.len()
            invariant
                src@ == self.name@.push(0u8),
                src@.len() <= I2C_ADAPTER_NAME_SIZE,
                i <= src@.len(),
                adapter.nr == 0,
                adapter.parent == 0,
                forall|j: int| 0 <= j < i ==> adapter.name@[j] == src@[j],
                forall|j: int| i <= j < I2C_ADAPTER_NAME_SIZE ==> adapter.name@[j] == 0u8,
            decreases src@.len() - i,
        {
            adapter.name[i] = src[i];
            i += 1;
        }
        adapter.algo = I2cAlgorithmVTable::<T>::build();
        assert(adapter.name@.len() == I2C_ADAPTER_NAME_SIZE) by {
            broadcast use vstd::array::group_array_axioms;
        }
        assert forall|j: int| 0 <= j < I2C_ADAPTER_NAME_SIZE implies adapter.name@[j]
            == padded_name(self.name@, I2C_ADAPTER_NAME_SIZE as nat)[j] by {
            if j < src@.len() {
                assert(adapter.name@[j] == src@[j]);
            }
        }
        assert(adapter.name@ =~= padded_name(self.name@, I2C_ADAPTER_NAME_SIZE as nat));
        proof {
            lemma_padded_name_terminated(self.name@, I2C_ADAPTER_NAME_SIZE as nat);
            if no_nul(self.name@) {
                lemma_padded_name_reads_back(self.name@, I2C_ADAPTER_NAME_SIZE as nat);
            }
        }
        adapter
    }
}

/// A registration of an I2C adapter whose private data is `T`: the adapter that
/// `i2c_add_adapter` accepted. It holds the callbacks of `T` and a NUL-terminated name,
/// as [`Registration::new`] makes them.
pub struct Registration<T: I2cAlgorithm> {
    inner: RawI2cAdapter,
    t_: core::marker::PhantomData<T>,
}

impl<T: I2cAlgorithm> Registration<T> {
    /// The adapter holds the callbacks of `T` and a NUL-terminated name.
    pub open spec fn fits(adapter: RawI2cAdapter) -> bool {
        &&& adapter.algo == T::provided()
        &&& nul_terminated(adapter.name@)
    }

    #[verifier::type_invariant]
    spec fn inv(self) -> bool {
        Self::fits(self.inner)
    }

    /// The registered adapter.
    pub closed spec fn spec_adapter(&self) -> RawI2cAdapter {
        self.inner
    }

    /// The adapter to hand to `i2c_add_adapter`: [`I2cAdapterOptions::as_raw`] of
    /// `opts` for `T`, with `parent_dev` as its parent device.
    pub fn new(parent_dev: usize, opts: I2cAdapterOptions) -> (r: RawI2cAdapter)
        requires
            opts.name@.len() < I2C_ADAPTER_NAME_SIZE,
        ensures
            r.name@ == padded_name(opts.name@, I2C_ADAPTER_NAME_SIZE as nat),
            no_nul(opts.name@) ==> c_string(r.name@) == opts.name@,
            r.nr == 0,
            r.algo == T::provided(),
            r.parent == parent_dev,
            Self::fits(r),
    {
        let mut adapter = opts.as_raw::<T>();
        adapter.parent = parent_dev;
        adapter
    }

    /// Completes the registration of `adapter`, given what `i2c_add_adapter` returned
    /// for it: the registration when that is not negative, else the error it encodes.
    /// The adapter must be one that [`Registration::new`] made for `T`.
    pub fn register(adapter: RawI2cAdapter, added: i32) -> (r: Result<Registration<T>, Error>)
        requires
            Self::fits(adapter),
        ensures
            r is Ok <==> added >= 0,
            r matches Ok(reg) ==> reg.spec_adapter() == adapter,
            r matches Err(e) ==> spec_to_result(added) == Err::<(), int>(e.code()),
    {
        match to_result(added) {
            Ok(()) => Ok(Registration { inner: adapter, t_: core::marker::PhantomData }),
            Err(e) => Err(e),
        }
    }

    /// The registered adapter.
    pub fn adapter(&self) -> (r: &RawI2cAdapter)
        ensures
            *r == self.spec_adapter(),
            Self::fits(*r),
    {
        proof {
            use_type_invariant(self);
        }
        &self.inner
    }
}

} // verus!
