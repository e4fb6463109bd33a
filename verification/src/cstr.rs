//! C strings laid into fixed-size, zeroed fields of C structures.
use vstd::prelude::*;

verus! {

/// A C string `name` laid into a zeroed field of `size` bytes: its bytes, then zeros
/// (the terminating NUL among them).
pub open spec fn padded_name(name: Seq<u8>, size: nat) -> Seq<u8> {
    Seq::new(size, |i: int| if i < name.len() { name[i] } else { 0u8 })
}

/// Bytes with no NUL among them: what a C string holds before its terminator.
pub open spec fn no_nul(bytes: Seq<u8>) -> bool {
    forall|i: int| 0 <= i < bytes.len() ==> bytes[i] != 0u8
}

/// A field that holds a NUL, so that C finds the end of the string in it.
pub open spec fn nul_terminated(field: Seq<u8>) -> bool {
    exists|i: int| 0 <= i < field.len() && field[i] == 0u8
}

/// A name laid into a field with room for it and its NUL leaves the field NUL-terminated.
pub proof fn lemma_padded_name_terminated(name: Seq<u8>, size: nat)
    requires
        name.len() < size,
    ensures
        nul_terminated(padded_name(name, size)),
{
    assert(padded_name(name, size)[name.len() as int] == 0u8);
}

/// Length of the C string at the start of `field`: the bytes before its first NUL.
pub open spec fn c_string_len(field: Seq<u8>) -> nat
    decreases field.len(),
{
    if field.len() == 0 || field[0] == 0u8 {
        0
    } else {
        1 + c_string_len(field.drop_first())
    }
}

/// The C string that a NUL-terminated field holds, as C reads it.
pub open spec fn c_string(field: Seq<u8>) -> Seq<u8> {
    field.take(c_string_len(field) as int)
}

/// A name with no NUL, laid into a field with room for it and its NUL, reads back as
/// that name, and the field holds a NUL.
pub proof fn lemma_padded_name_reads_back(name: Seq<u8>, size: nat)
    requires
        no_nul(name),
        name.len() < size,
    ensures
        c_string(padded_name(name, size)) == name,
        c_string_len(padded_name(name, size)) < size,
    decreases name.len(),
{
    let field = padded_name(name, size);
    if name.len() == 0 {
        assert(field[0] == 0u8);
        assert(c_string(field) =~= name);
    } else {
        let rest = name.drop_first();
        lemma_padded_name_reads_back(rest, (size - 1) as nat);
        assert(field.drop_first() =~= padded_name(rest, (size - 1) as nat));
        assert(c_string(field) =~= name);
    }
}

} // verus!
