//! The account handles the host supplies and the record-store adapter.
//!
//! An account carries a stable address, the identity of the program that
//! owns it, a balance in smallest units, and the fixed-capacity byte buffer
//! of one record. The adapter's write primitive overwrites the front of the
//! buffer and keeps the buffer's length, so a record never grows or shrinks.

use vstd::prelude::*;

use vstd::slice::slice_to_vec;

use crate::wire::bytes_eq;

verus! {

/// One account handle: an addressed, owned, funded, fixed-capacity record.
pub struct Account {
    pub address: Vec<u8>,
    pub owner: Vec<u8>,
    pub lamports: u64,
    pub data: Vec<u8>,
}

/// The view of an [`Account`].
pub struct AccountView {
    pub address: Seq<u8>,
    pub owner: Seq<u8>,
    pub lamports: u64,
    pub data: Seq<u8>,
}

impl View for Account {
    type V = AccountView;

    open spec fn view(&self) -> AccountView {
        AccountView {
            address: self.address@,
            owner: self.owner@,
            lamports: self.lamports,
            data: self.data@,
        }
    }
}

impl Account {
    /// A copy whose view equals this account's view.
    pub fn duplicate(&self) -> (r: Account)
        ensures
            r@ == self@,
    {
        Account {
            address: slice_to_vec(self.address.as_slice()),
            owner: slice_to_vec(self.owner.as_slice()),
            lamports: self.lamports,
            data: slice_to_vec(self.data.as_slice()),
        }
    }

    /// Whether this account is owned by the engine identified by
    /// `program_id`.
    pub fn owned_by(&self, program_id: &Vec<u8>) -> (r: bool)
        ensures
            r == (self@.owner == program_id@),
    {
        bytes_eq(&self.owner, program_id)
    }
}

/// A record buffer after an encoding was written over its front: the
/// encoding, followed by the unchanged rest of the old buffer.
pub open spec fn stored_record(data: Seq<u8>, enc: Seq<u8>) -> Seq<u8> {
    enc + data.skip(enc.len() as int)
}

/// Overwrites the front of a record buffer with an encoding; the buffer
/// keeps its length, and the bytes past the encoding keep their values.
pub fn write_record(data: &Vec<u8>, enc: &Vec<u8>) -> (r: Vec<u8>)
    requires
        enc@.len() <= data@.len(),
    ensures
        r@ == stored_record(data@, enc@),
        r@.len() == data@.len(),
{
    let mut out = slice_to_vec(enc.as_slice());
    let mut i: usize = enc.len();
    while i < data.len()
        invariant
            enc@.len() <= i <= data@.len(),
            out@ == enc@ + data@.subrange(enc@.len() as int, i as int),
        decreases data@.len() - i,
    {
        let ghost before = out@;
        out.push(data[i]);
        proof {
            assert(before + seq![data@[i as int]] =~= enc@ + data@.subrange(
                enc@.len() as int,
                i + 1,
            ));
        }
        i = i + 1;
    }
    assert(out@ =~= stored_record(data@, enc@));
    out
}

} // verus!
