//! Writing bytes into the data of an account, for setting up an account as
//! another program would have left it.

use vstd::prelude::*;

verus! {

/// Accounts of a write: the data of the account that is written to.
#[derive(Clone, Debug, PartialEq, Eq)]
pub struct Write {
    pub target: Vec<u8>,
}

/// The one way in which a write fails.
#[derive(Clone, Copy, Debug, PartialEq, Eq, Structural)]
pub enum WriteError {
    /// The bytes do not fit between the offset and the end of the data.
    WriteZero,
}

/// The data `target` with `data` written over it from `offset` on.
pub open spec fn overwritten(target: Seq<u8>, offset: int, data: Seq<u8>) -> Seq<u8> {
    target.subrange(0, offset) + data + target.subrange(offset + data.len(), target.len() as int)
}

/// Writes `data` into the target at `offset`. The offset has to lie within
/// the target. Bytes that do not fit are refused, and the target is then left
/// as it was.
pub fn write(accounts: &mut Write, offset: u64, data: &Vec<u8>) -> (r: Result<(), WriteError>)
    requires
        offset <= old(accounts).target@.len(),
    ensures
        offset + data@.len() <= old(accounts).target@.len() ==> r is Ok && final(accounts).target@
            == overwritten(old(accounts).target@, offset as int, data@),
        offset + data@.len() > old(accounts).target@.len() ==> r == Err::<(), WriteError>(
            WriteError::WriteZero,
        ) && final(accounts).target@ == old(accounts).target@,
{
    let start: usize = offset as usize;
    if data.len() > accounts.target.len() - start {
        return Err(WriteError::WriteZero);
    }
    let mut i: usize = 0;
    while i < data.len()
        invariant
            i <= data.len(),
            start == offset,
            start + data.len() <= accounts.target.len(),
            accounts.target@.len() == old(accounts).target@.len(),
            forall|j: int| 0 <= j < i ==> accounts.target@[start + j] == data@[j],
            forall|j: int|
                0 <= j < accounts.target@.len() && !(start <= j < start + i)
                    ==> accounts.target@[j] == old(accounts).target@[j],
        decreases data.len() - i,
    {
        accounts.target.set(start + i, data[i]);
        i += 1;
    }
    assert(accounts.target@ =~= overwritten(old(accounts).target@, offset as int, data@));
    Ok(())
}

} // verus!
