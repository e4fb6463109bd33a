//! Functionality flags of an I2C adapter (`I2C_FUNC_*`), one flag and a set of them.
use vstd::prelude::*;

verus! {

/// Plain I2C-level operations (raw transfers).
pub const I2C_FUNC_I2C: u32 = 0x0000_0001;
/// 10-bit addressing.
pub const I2C_FUNC_10BIT_ADDR: u32 = 0x0000_0002;
/// Protocol mangling.
pub const I2C_FUNC_PROTOCOL_MANGLING: u32 = 0x0000_0004;
/// SMBus packet error checking.
pub const I2C_FUNC_SMBUS_PEC: u32 = 0x0000_0008;
/// No START condition.
pub const I2C_FUNC_NOSTART: u32 = 0x0000_0010;
/// Slave mode.
pub const I2C_FUNC_SLAVE: u32 = 0x0000_0020;
/// SMBus block process call.
pub const I2C_FUNC_SMBUS_BLOCK_PROC_CALL: u32 = 0x0000_8000;
/// SMBus quick command.
pub const I2C_FUNC_SMBUS_QUICK: u32 = 0x0001_0000;
/// SMBus read byte.
pub const I2C_FUNC_SMBUS_READ_BYTE: u32 = 0x0002_0000;
/// SMBus write byte.
pub const I2C_FUNC_SMBUS_WRITE_BYTE: u32 = 0x0004_0000;
/// SMBus read byte data.
pub const I2C_FUNC_SMBUS_READ_BYTE_DATA: u32 = 0x0008_0000;
/// SMBus write byte data.
pub const I2C_FUNC_SMBUS_WRITE_BYTE_DATA: u32 = 0x0010_0000;
/// SMBus read word data.
pub const I2C_FUNC_SMBUS_READ_WORD_DATA: u32 = 0x0020_0000;
/// SMBus write word data.
pub const I2C_FUNC_SMBUS_WRITE_WORD_DATA: u32 = 0x0040_0000;
/// SMBus process call.
pub const I2C_FUNC_SMBUS_PROC_CALL: u32 = 0x0080_0000;
/// SMBus read block data.
pub const I2C_FUNC_SMBUS_READ_BLOCK_DATA: u32 = 0x0100_0000;
/// SMBus write block data.
pub const I2C_FUNC_SMBUS_WRITE_BLOCK_DATA: u32 = 0x0200_0000;
/// SMBus read I2C block.
pub const I2C_FUNC_SMBUS_READ_I2C_BLOCK: u32 = 0x0400_0000;
/// SMBus write I2C block.
pub const I2C_FUNC_SMBUS_WRITE_I2C_BLOCK: u32 = 0x0800_0000;
/// SMBus host notify.
pub const I2C_FUNC_SMBUS_HOST_NOTIFY: u32 = 0x1000_0000;

/// Every flag bit together.
pub const I2C_FUNC_ALL_BITS: u32 = 0x1FFF_803F;

/// Represents a single functionality flag.
#[derive(Clone, Copy, Debug, PartialEq, Eq, Structural)]
pub enum I2cFlag {
    /// Supports plain I2C-level operations (raw I2C transfers).
    I2cFuncI2c,
    /// Supports 10-bit I2C addressing.
    I2cFunc10BitAddr,
    /// Supports protocol mangling for certain adapters.
    I2cFuncProtocolMangling,
    /// Supports SMBus Packet Error Checking (PEC).
    I2cFuncSmbusPec,
    /// Adapter does not generate START conditions.
    I2cFuncNostart,
    /// Adapter supports I2C slave mode.
    I2cFuncSlave,
    /// Supports SMBus Block Process Call.
    I2cFuncSmbusBlockProcCall,
    /// Supports SMBus Quick command.
    I2cFuncSmbusQuick,
    /// Supports SMBus read byte.
    I2cFuncSmbusReadByte,
    /// Supports SMBus write byte.
    I2cFuncSmbusWriteByte,
    /// Supports SMBus read byte data (read a byte from a given register).
    I2cFuncSmbusReadByteData,
    /// Supports SMBus write byte data (write a byte to a register).
    I2cFuncSmbusWriteByteData,
    /// Supports SMBus read word data (read 16-bit from a register).
    I2cFuncSmbusReadWordData,
    /// Supports SMBus write word data (write 16-bit to a register).
    I2cFuncSmbusWriteWordData,
    /// Supports SMBus Process Call.
    I2cFuncSmbusProcCall,
    /// Supports SMBus read block data.
    I2cFuncSmbusReadBlockData,
    /// Supports SMBus write block data.
    I2cFuncSmbusWriteBlockData,
    /// Supports SMBus read I2C block.
    I2cFuncSmbusReadI2cBlock,
    /// Supports SMBus write I2C block.
    I2cFuncSmbusWriteI2cBlock,
    /// Adapter supports SMBus host notify.
    I2cFuncSmbusHostNotify,
}

impl I2cFlag {
    /// The `I2C_FUNC_*` bit of the flag.
    pub open spec fn spec_bits(self) -> u32 {
        match self {
            I2cFlag::I2cFuncI2c => I2C_FUNC_I2C,
            I2cFlag::I2cFunc10BitAddr => I2C_FUNC_10BIT_ADDR,
            I2cFlag::I2cFuncProtocolMangling => I2C_FUNC_PROTOCOL_MANGLING,
            I2cFlag::I2cFuncSmbusPec => I2C_FUNC_SMBUS_PEC,
            I2cFlag::I2cFuncNostart => I2C_FUNC_NOSTART,
            I2cFlag::I2cFuncSlave => I2C_FUNC_SLAVE,
            I2cFlag::I2cFuncSmbusBlockProcCall => I2C_FUNC_SMBUS_BLOCK_PROC_CALL,
            I2cFlag::I2cFuncSmbusQuick => I2C_FUNC_SMBUS_QUICK,
            I2cFlag::I2cFuncSmbusReadByte => I2C_FUNC_SMBUS_READ_BYTE,
            I2cFlag::I2cFuncSmbusWriteByte => I2C_FUNC_SMBUS_WRITE_BYTE,
            I2cFlag::I2cFuncSmbusReadByteData => I2C_FUNC_SMBUS_READ_BYTE_DATA,
            I2cFlag::I2cFuncSmbusWriteByteData => I2C_FUNC_SMBUS_WRITE_BYTE_DATA,
            I2cFlag::I2cFuncSmbusReadWordData => I2C_FUNC_SMBUS_READ_WORD_DATA,
            I2cFlag::I2cFuncSmbusWriteWordData => I2C_FUNC_SMBUS_WRITE_WORD_DATA,
            I2cFlag::I2cFuncSmbusProcCall => I2C_FUNC_SMBUS_PROC_CALL,
            I2cFlag::I2cFuncSmbusReadBlockData => I2C_FUNC_SMBUS_READ_BLOCK_DATA,
            I2cFlag::I2cFuncSmbusWriteBlockData => I2C_FUNC_SMBUS_WRITE_BLOCK_DATA,
            I2cFlag::I2cFuncSmbusReadI2cBlock => I2C_FUNC_SMBUS_READ_I2C_BLOCK,
            I2cFlag::I2cFuncSmbusWriteI2cBlock => I2C_FUNC_SMBUS_WRITE_I2C_BLOCK,
            I2cFlag::I2cFuncSmbusHostNotify => I2C_FUNC_SMBUS_HOST_NOTIFY,
        }
    }

    /// The bit of a flag is one of the defined flag bits.
    pub proof fn lemma_is_flag_bit(self)
        ensures
            is_flag_bit(self.spec_bits()),
    {
    }

    /// The `I2C_FUNC_*` bit of the flag.
    pub fn bits(self) -> (r: u32)
        ensures
            r == self.spec_bits(),
    {
        match self {
            I2cFlag::I2cFuncI2c => I2C_FUNC_I2C,
            I2cFlag::I2cFunc10BitAddr => I2C_FUNC_10BIT_ADDR,
            I2cFlag::I2cFuncProtocolMangling => I2C_FUNC_PROTOCOL_MANGLING,
            I2cFlag::I2cFuncSmbusPec => I2C_FUNC_SMBUS_PEC,
            I2cFlag::I2cFuncNostart => I2C_FUNC_NOSTART,
            I2cFlag::I2cFuncSlave => I2C_FUNC_SLAVE,
            I2cFlag::I2cFuncSmbusBlockProcCall => I2C_FUNC_SMBUS_BLOCK_PROC_CALL,
            I2cFlag::I2cFuncSmbusQuick => I2C_FUNC_SMBUS_QUICK,
            I2cFlag::I2cFuncSmbusReadByte => I2C_FUNC_SMBUS_READ_BYTE,
            I2cFlag::I2cFuncSmbusWriteByte => I2C_FUNC_SMBUS_WRITE_BYTE,
            I2cFlag::I2cFuncSmbusReadByteData => I2C_FUNC_SMBUS_READ_BYTE_DATA,
            I2cFlag::I2cFuncSmbusWriteByteData => I2C_FUNC_SMBUS_WRITE_BYTE_DATA,
            I2cFlag::I2cFuncSmbusReadWordData => I2C_FUNC_SMBUS_READ_WORD_DATA,
            I2cFlag::I2cFuncSmbusWriteWordData => I2C_FUNC_SMBUS_WRITE_WORD_DATA,
            I2cFlag::I2cFuncSmbusProcCall => I2C_FUNC_SMBUS_PROC_CALL,
            I2cFlag::I2cFuncSmbusReadBlockData => I2C_FUNC_SMBUS_READ_BLOCK_DATA,
            I2cFlag::I2cFuncSmbusWriteBlockData => I2C_FUNC_SMBUS_WRITE_BLOCK_DATA,
            I2cFlag::I2cFuncSmbusReadI2cBlock => I2C_FUNC_SMBUS_READ_I2C_BLOCK,
            I2cFlag::I2cFuncSmbusWriteI2cBlock => I2C_FUNC_SMBUS_WRITE_I2C_BLOCK,
            I2cFlag::I2cFuncSmbusHostNotify => I2C_FUNC_SMBUS_HOST_NOTIFY,
        }
    }
}

/// A set of functionality flags, held as their `I2C_FUNC_*` bits.
#[derive(Clone, Copy, Debug, Default, PartialEq, Eq, Structural)]
pub struct I2cFlags(u32);

impl View for I2cFlags {
    type V = u32;

    closed spec fn view(&self) -> u32 {
        self.0
    }
}

/// Whether `x` is the bit of one defined flag.
pub open spec fn is_flag_bit(x: u32) -> bool {
    ||| x == I2C_FUNC_I2C
    ||| x == I2C_FUNC_10BIT_ADDR
    ||| x == I2C_FUNC_PROTOCOL_MANGLING
    ||| x == I2C_FUNC_SMBUS_PEC
    ||| x == I2C_FUNC_NOSTART
    ||| x == I2C_FUNC_SLAVE
    ||| x == I2C_FUNC_SMBUS_BLOCK_PROC_CALL
    ||| x == I2C_FUNC_SMBUS_QUICK
    ||| x == I2C_FUNC_SMBUS_READ_BYTE
    ||| x == I2C_FUNC_SMBUS_WRITE_BYTE
    ||| x == I2C_FUNC_SMBUS_READ_BYTE_DATA
    ||| x == I2C_FUNC_SMBUS_WRITE_BYTE_DATA
    ||| x == I2C_FUNC_SMBUS_READ_WORD_DATA
    ||| x == I2C_FUNC_SMBUS_WRITE_WORD_DATA
    ||| x == I2C_FUNC_SMBUS_PROC_CALL
    ||| x == I2C_FUNC_SMBUS_READ_BLOCK_DATA
    ||| x == I2C_FUNC_SMBUS_WRITE_BLOCK_DATA
    ||| x == I2C_FUNC_SMBUS_READ_I2C_BLOCK
    ||| x == I2C_FUNC_SMBUS_WRITE_I2C_BLOCK
    ||| x == I2C_FUNC_SMBUS_HOST_NOTIFY
}

/// Each flag bit lies in the mask, is not zero, and shares no bit with another flag bit.
proof fn lemma_flag_bit_facts(x: u32, y: u32)
    by (bit_vector)
    requires
        is_flag_bit(x),
        is_flag_bit(y),
    ensures
        x & !I2C_FUNC_ALL_BITS == 0,
        x != 0,
        x != y ==> x & y == 0,
{
}

/// Bits that name only defined flags.
pub open spec fn valid_bits(bits: u32) -> bool {
    bits & !I2C_FUNC_ALL_BITS == 0
}

/// Set operations on bits that name only defined flags give such bits again.
proof fn lemma_valid_bits_closed(a: u32, b: u32)
    by (bit_vector)
    requires
        a & !I2C_FUNC_ALL_BITS == 0,
        b & !I2C_FUNC_ALL_BITS == 0,
    ensures
        (a | b) & !I2C_FUNC_ALL_BITS == 0,
        (a & b) & !I2C_FUNC_ALL_BITS == 0,
        (a ^ b) & !I2C_FUNC_ALL_BITS == 0,
        (!a & I2C_FUNC_ALL_BITS) & !I2C_FUNC_ALL_BITS == 0,
{
}

/// The empty set of bits names only defined flags.
proof fn lemma_no_bits_valid()
    by (bit_vector)
    ensures
        0u32 & !I2C_FUNC_ALL_BITS == 0,
{
}

/// Whether the bits `bits` hold the flag `flag`.
pub open spec fn bits_contain(bits: u32, flag: I2cFlag) -> bool {
    bits & flag.spec_bits() == flag.spec_bits()
}

impl I2cFlags {
    /// The set whose bits are `bits`.
    pub closed spec fn from_bits(bits: u32) -> I2cFlags {
        I2cFlags(bits)
    }

    #[verifier::type_invariant]
    spec fn inv(self) -> bool {
        valid_bits(self.0)
    }

    /// The bits of the set; they name only defined flags.
    pub fn bits(&self) -> (r: u32)
        ensures
            r == self@,
            valid_bits(r),
    {
        proof {
            use_type_invariant(self);
        }
        self.0
    }

    /// The set with no flag.
    pub fn empty() -> (r: I2cFlags)
        ensures
            r@ == 0,
    {
        proof {
            lemma_no_bits_valid();
        }
        I2cFlags(0)
    }

    /// The mask of every valid flag bit.
    pub fn all_bits() -> (r: u32)
        ensures
            r == I2C_FUNC_ALL_BITS,
    {
        let r = 0 | I2C_FUNC_I2C | I2C_FUNC_10BIT_ADDR | I2C_FUNC_PROTOCOL_MANGLING
            | I2C_FUNC_SMBUS_PEC | I2C_FUNC_NOSTART | I2C_FUNC_SLAVE
            | I2C_FUNC_SMBUS_BLOCK_PROC_CALL | I2C_FUNC_SMBUS_QUICK | I2C_FUNC_SMBUS_READ_BYTE
            | I2C_FUNC_SMBUS_WRITE_BYTE | I2C_FUNC_SMBUS_READ_BYTE_DATA
            | I2C_FUNC_SMBUS_WRITE_BYTE_DATA | I2C_FUNC_SMBUS_READ_WORD_DATA
            | I2C_FUNC_SMBUS_WRITE_WORD_DATA | I2C_FUNC_SMBUS_PROC_CALL
            | I2C_FUNC_SMBUS_READ_BLOCK_DATA | I2C_FUNC_SMBUS_WRITE_BLOCK_DATA
            | I2C_FUNC_SMBUS_READ_I2C_BLOCK | I2C_FUNC_SMBUS_WRITE_I2C_BLOCK
            | I2C_FUNC_SMBUS_HOST_NOTIFY;
        assert(r == I2C_FUNC_ALL_BITS) by (bit_vector)
            requires
                r == 0 | I2C_FUNC_I2C | I2C_FUNC_10BIT_ADDR | I2C_FUNC_PROTOCOL_MANGLING | I2C_FUNC_SMBUS_PEC | I2C_FUNC_NOSTART | I2C_FUNC_SLAVE | I2C_FUNC_SMBUS_BLOCK_PROC_CALL | I2C_FUNC_SMBUS_QUICK | I2C_FUNC_SMBUS_READ_BYTE | I2C_FUNC_SMBUS_WRITE_BYTE | I2C_FUNC_SMBUS_READ_BYTE_DATA | I2C_FUNC_SMBUS_WRITE_BYTE_DATA | I2C_FUNC_SMBUS_READ_WORD_DATA | I2C_FUNC_SMBUS_WRITE_WORD_DATA | I2C_FUNC_SMBUS_PROC_CALL | I2C_FUNC_SMBUS_READ_BLOCK_DATA | I2C_FUNC_SMBUS_WRITE_BLOCK_DATA | I2C_FUNC_SMBUS_READ_I2C_BLOCK | I2C_FUNC_SMBUS_WRITE_I2C_BLOCK | I2C_FUNC_SMBUS_HOST_NOTIFY;
        r
    }

    /// Whether the set holds `flag`.
    pub fn contains(self, flag: I2cFlag) -> (r: bool)
        ensures
            r == bits_contain(self@, flag),
    {
        let f = flag.bits();
        (self.0 & f) == f
    }

    /// Whether the set holds at least one flag of `flags`.
    pub fn contains_any(self, flags: I2cFlags) -> (r: bool)
        ensures
            r == (self@ & flags@ != 0),
    {
        (self.0 & flags.0) != 0
    }

    /// Whether the set holds every flag of `flags`.
    pub fn contains_all(self, flags: I2cFlags) -> (r: bool)
        ensures
            r == (self@ & flags@ == flags@),
    {
        (self.0 & flags.0) == flags.0
    }
}

impl core::ops::BitOr for I2cFlags {
    type Output = I2cFlags;

    fn bitor(self, rhs: I2cFlags) -> (r: I2cFlags)
        ensures
            r@ == self@ | rhs@,
    {
        proof {
            use_type_invariant(self);
            use_type_invariant(rhs);
            lemma_valid_bits_closed(self.0, rhs.0);
        }
        I2cFlags(self.0 | rhs.0)
    }
}

impl vstd::std_specs::ops::BitOrSpecImpl for I2cFlags {
    open spec fn obeys_bitor_spec() -> bool {
        true
    }

    open spec fn bitor_req(self, rhs: I2cFlags) -> bool {
        true
    }

    open spec fn bitor_spec(self, rhs: I2cFlags) -> I2cFlags {
        I2cFlags::from_bits(self@ | rhs@)
    }
}

impl core::ops::BitAnd for I2cFlags {
    type Output = I2cFlags;

    fn bitand(self, rhs: I2cFlags) -> (r: I2cFlags)
        ensures
            r@ == self@ & rhs@,
    {
        proof {
            use_type_invariant(self);
            use_type_invariant(rhs);
            lemma_valid_bits_closed(self.0, rhs.0);
        }
        I2cFlags(self.0 & rhs.0)
    }
}

impl vstd::std_specs::ops::BitAndSpecImpl for I2cFlags {
    open spec fn obeys_bitand_spec() -> bool {
        true
    }

    open spec fn bitand_req(self, rhs: I2cFlags) -> bool {
        true
    }

    open spec fn bitand_spec(self, rhs: I2cFlags) -> I2cFlags {
        I2cFlags::from_bits(self@ & rhs@)
    }
}

impl core::ops::BitXor for I2cFlags {
    type Output = I2cFlags;

    fn bitxor(self, rhs: I2cFlags) -> (r: I2cFlags)
        ensures
            r@ == self@ ^ rhs@,
    {
        proof {
            use_type_invariant(self);
            use_type_invariant(rhs);
            lemma_valid_bits_closed(self.0, rhs.0);
        }
        I2cFlags(self.0 ^ rhs.0)
    }
}

impl vstd::std_specs::ops::BitXorSpecImpl for I2cFlags {
    open spec fn obeys_bitxor_spec() -> bool {
        true
    }

    open spec fn bitxor_req(self, rhs: I2cFlags) -> bool {
        true
    }

    open spec fn bitxor_spec(self, rhs: I2cFlags) -> I2cFlags {
        I2cFlags::from_bits(self@ ^ rhs@)
    }
}

impl core::ops::Not for I2cFlags {
    type Output = I2cFlags;

    fn not(self) -> (r: I2cFlags)
        ensures
            r@ == !self@ & I2C_FUNC_ALL_BITS,
    {
        proof {
            use_type_invariant(self);
            lemma_valid_bits_closed(self.0, self.0);
        }
        let inverted: u32 = !self.0;
        I2cFlags(inverted & I2cFlags::all_bits())
    }
}

impl vstd::std_specs::ops::NotSpecImpl for I2cFlags {
    open spec fn obeys_not_spec() -> bool {
        true
    }

    open spec fn not_req(self) -> bool {
        true
    }

    open spec fn not_spec(self) -> I2cFlags {
        I2cFlags::from_bits(!self@ & I2C_FUNC_ALL_BITS)
    }
}

impl core::ops::BitOr for I2cFlag {
    type Output = I2cFlags;

    fn bitor(self, rhs: I2cFlag) -> (r: I2cFlags)
        ensures
            r@ == self.spec_bits() | rhs.spec_bits(),
    {
        proof {
            self.lemma_is_flag_bit();
            rhs.lemma_is_flag_bit();
            lemma_flag_bit_facts(self.spec_bits(), rhs.spec_bits());
            lemma_flag_bit_facts(rhs.spec_bits(), self.spec_bits());
            lemma_valid_bits_closed(self.spec_bits(), rhs.spec_bits());
        }
        I2cFlags(self.bits() | rhs.bits())
    }
}

impl vstd::std_specs::ops::BitOrSpecImpl for I2cFlag {
    open spec fn obeys_bitor_spec() -> bool {
        true
    }

    open spec fn bitor_req(self, rhs: I2cFlag) -> bool {
        true
    }

    open spec fn bitor_spec(self, rhs: I2cFlag) -> I2cFlags {
        I2cFlags::from_bits(self.spec_bits() | rhs.spec_bits())
    }
}

impl core::convert::From<I2cFlag> for I2cFlags {
    fn from(flag: I2cFlag) -> (r: I2cFlags)
        ensures
            r@ == flag.spec_bits(),
    {
        proof {
            flag.lemma_is_flag_bit();
            lemma_flag_bit_facts(flag.spec_bits(), flag.spec_bits());
        }
        I2cFlags(flag.bits())
    }
}

impl vstd::std_specs::convert::FromSpecImpl<I2cFlag> for I2cFlags {
    open spec fn obeys_from_spec() -> bool {
        true
    }

    open spec fn from_spec(flag: I2cFlag) -> I2cFlags {
        I2cFlags::from_bits(flag.spec_bits())
    }
}

impl core::convert::From<I2cFlags> for u32 {
    fn from(flags: I2cFlags) -> (r: u32)
        ensures
            r == flags@,
    {
        flags.0
    }
}

impl vstd::std_specs::convert::FromSpecImpl<I2cFlags> for u32 {
    open spec fn obeys_from_spec() -> bool {
        true
    }

    open spec fn from_spec(flags: I2cFlags) -> u32 {
        flags@
    }
}

/// Bit-level facts behind the set laws below.
proof fn lemma_set_bits(a: u32, b: u32, c: u32)
    by (bit_vector)
    ensures
        (a | b) & b == b,
        (a & b) == b ==> ((a | c) & b) == b,
        a | b == b | a,
        (a | b) | c == a | (b | c),
        a | a == a,
        a | 0 == a,
        a & b == b & a,
        (a & b) & b == a & b,
        a & (!a & I2C_FUNC_ALL_BITS) == 0,
        a & !I2C_FUNC_ALL_BITS == 0 ==> (!(!a & I2C_FUNC_ALL_BITS) & I2C_FUNC_ALL_BITS) == a,
        a & !I2C_FUNC_ALL_BITS == 0 ==> (a | (!a & I2C_FUNC_ALL_BITS)) == I2C_FUNC_ALL_BITS,
        ((a & b) == b && (b & c) == c) ==> (a & c) == c,
        ((a & b) == b && b != 0) ==> (a & b) != 0,
{
}

/// Bit-level facts about one flag bit `f` and another flag bit `g`.
proof fn lemma_flag_in_bits(x: u32, f: u32, g: u32)
    by (bit_vector)
    requires
        f != 0,
        f & ((f - 1) as u32) == 0,
        f == g || f & g == 0,
        g != 0,
        g & ((g - 1) as u32) == 0,
    ensures
        ((x | g) & f == f) ==> (x & f == f || f == g),
        ((x ^ g) & g == g) == !(x & g == g),
        f != g ==> (((x ^ g) & f == f) == (x & f == f)),
        ((x & g) & f == f) == (x & f == f && f == g),
        ((x & g) != 0) == (x & g == g),
{
}

/// A flag bit is a single bit.
proof fn lemma_flag_bit_single(x: u32)
    by (bit_vector)
    requires
        is_flag_bit(x),
    ensures
        x & ((x - 1) as u32) == 0,
{
}

/// Every flag is a single, non-zero bit inside the mask of all bits, and two
/// different flags share no bit; so a flag is known by its bit.
pub proof fn lemma_flags_distinct(a: I2cFlag, b: I2cFlag)
    ensures
        a.spec_bits() != 0,
        valid_bits(a.spec_bits()),
        a != b ==> a.spec_bits() & b.spec_bits() == 0,
        a.spec_bits() == b.spec_bits() ==> a == b,
{
    a.lemma_is_flag_bit();
    b.lemma_is_flag_bit();
    lemma_flag_bit_facts(a.spec_bits(), b.spec_bits());
}

/// Adding a flag to a set gives a set that holds that flag, every flag the set
/// held, and no other flag.
pub proof fn lemma_union_contains(x: I2cFlags, f: I2cFlag, g: I2cFlag)
    ensures
        bits_contain(x@ | f.spec_bits(), f),
        bits_contain(x@, g) ==> bits_contain(x@ | f.spec_bits(), g),
        bits_contain(x@ | f.spec_bits(), g) ==> (bits_contain(x@, g) || g == f),
{
    lemma_set_bits(x@, f.spec_bits(), 0);
    lemma_set_bits(x@, g.spec_bits(), f.spec_bits());
    lemma_flags_distinct(f, g);
    lemma_flags_distinct(g, f);
    g.lemma_is_flag_bit();
    f.lemma_is_flag_bit();
    lemma_flag_bit_single(g.spec_bits());
    lemma_flag_bit_single(f.spec_bits());
    lemma_flag_in_bits(x@, g.spec_bits(), f.spec_bits());
}

/// Union of sets is commutative, associative and idempotent, with the empty set as identity.
pub proof fn lemma_union_algebra(a: I2cFlags, b: I2cFlags, c: I2cFlags)
    ensures
        a@ | b@ == b@ | a@,
        (a@ | b@) | c@ == a@ | (b@ | c@),
        a@ | a@ == a@,
        a@ | 0 == a@,
{
    lemma_set_bits(a@, b@, c@);
}

/// The complement of a set, taken inside the mask of all bits, undoes itself, shares
/// no flag with the set, and together with the set makes up every flag.
pub proof fn lemma_complement(x: I2cFlags)
    requires
        valid_bits(x@),
    ensures
        !(!x@ & I2C_FUNC_ALL_BITS) & I2C_FUNC_ALL_BITS == x@,
        x@ & (!x@ & I2C_FUNC_ALL_BITS) == 0,
        x@ | (!x@ & I2C_FUNC_ALL_BITS) == I2C_FUNC_ALL_BITS,
{
    lemma_set_bits(x@, 0, 0);
}

/// Masking a set with one flag keeps that flag if the set held it, and no other;
/// toggling a flag flips whether the set holds it and leaves every other flag as it was.
pub proof fn lemma_mask_and_toggle(x: I2cFlags, f: I2cFlag, g: I2cFlag)
    ensures
        bits_contain(x@ & f.spec_bits(), g) == (bits_contain(x@, g) && g == f),
        bits_contain(x@ ^ f.spec_bits(), f) == !bits_contain(x@, f),
        g != f ==> bits_contain(x@ ^ f.spec_bits(), g) == bits_contain(x@, g),
        (x@ & f.spec_bits() != 0) == bits_contain(x@, f),
{
    lemma_flags_distinct(f, g);
    lemma_flags_distinct(g, f);
    f.lemma_is_flag_bit();
    g.lemma_is_flag_bit();
    lemma_flag_bit_single(g.spec_bits());
    lemma_flag_bit_single(f.spec_bits());
    lemma_flag_in_bits(x@, g.spec_bits(), f.spec_bits());
    lemma_flag_in_bits(x@, f.spec_bits(), f.spec_bits());
}

/// A set that holds all of `y` holds each flag that `y` holds, and, unless `y` is
/// empty, holds some flag of `y`.
pub proof fn lemma_contains_all(x: I2cFlags, y: I2cFlags, g: I2cFlag)
    ensures
        (x@ & y@ == y@ && bits_contain(y@, g)) ==> bits_contain(x@, g),
        (x@ & y@ == y@ && y@ != 0) ==> x@ & y@ != 0,
{
    lemma_set_bits(x@, y@, g.spec_bits());
}

/// Each flag has the bit of the `I2C_FUNC_*` value of the same name, as the I2C
/// headers define them; every defined bit together is `0x1FFF_803F`.
pub proof fn lemma_flag_bit_values()
    ensures
        I2cFlag::I2cFuncI2c.spec_bits() == 0x0000_0001,
        I2cFlag::I2cFunc10BitAddr.spec_bits() == 0x0000_0002,
        I2cFlag::I2cFuncProtocolMangling.spec_bits() == 0x0000_0004,
        I2cFlag::I2cFuncSmbusPec.spec_bits() == 0x0000_0008,
        I2cFlag::I2cFuncNostart.spec_bits() == 0x0000_0010,
        I2cFlag::I2cFuncSlave.spec_bits() == 0x0000_0020,
        I2cFlag::I2cFuncSmbusBlockProcCall.spec_bits() == 0x0000_8000,
        I2cFlag::I2cFuncSmbusQuick.spec_bits() == 0x0001_0000,
        I2cFlag::I2cFuncSmbusReadByte.spec_bits() == 0x0002_0000,
        I2cFlag::I2cFuncSmbusWriteByte.spec_bits() == 0x0004_0000,
        I2cFlag::I2cFuncSmbusReadByteData.spec_bits() == 0x0008_0000,
        I2cFlag::I2cFuncSmbusWriteByteData.spec_bits() == 0x0010_0000,
        I2cFlag::I2cFuncSmbusReadWordData.spec_bits() == 0x0020_0000,
        I2cFlag::I2cFuncSmbusWriteWordData.spec_bits() == 0x0040_0000,
        I2cFlag::I2cFuncSmbusProcCall.spec_bits() == 0x0080_0000,
        I2cFlag::I2cFuncSmbusReadBlockData.spec_bits() == 0x0100_0000,
        I2cFlag::I2cFuncSmbusWriteBlockData.spec_bits() == 0x0200_0000,
        I2cFlag::I2cFuncSmbusReadI2cBlock.spec_bits() == 0x0400_0000,
        I2cFlag::I2cFuncSmbusWriteI2cBlock.spec_bits() == 0x0800_0000,
        I2cFlag::I2cFuncSmbusHostNotify.spec_bits() == 0x1000_0000,
        I2C_FUNC_ALL_BITS == 0x1FFF_803Fu32,
{
}

} // verus!
