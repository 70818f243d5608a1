//! Snapshots of ledger accounts, handed in by the host and written back by it.

use crate::pubkey::Pubkey;
use vstd::prelude::*;

verus! {

/// One account as an operation sees it: its address, the program that owns
/// it, whether its key signed the request, and its bytes.
#[derive(Clone, Debug)]
pub struct AccountInfo {
    pub key: Pubkey,
    pub owner: Pubkey,
    pub is_signer: bool,
    pub data: Vec<u8>,
}

impl AccountInfo {
    /// Whether the account holds no bytes.
    pub fn data_is_empty(&self) -> (r: bool)
        ensures
            r == (self.data@.len() == 0),
    {
        self.data.len() == 0
    }
}

/// The bytes of an account after `e` is written over its start; the rest
/// stays as it was.
pub open spec fn written_over(e: Seq<u8>, data: Seq<u8>) -> Seq<u8> {
    e + data.subrange(e.len() as int, data.len() as int)
}

/// Writes `e` over the start of `data`, which must be at least as long.
pub fn write_over(data: &mut Vec<u8>, e: &Vec<u8>)
    requires
        e@.len() <= old(data)@.len(),
    ensures
        final(data)@ == written_over(e@, old(data)@),
{
    let mut i: usize = 0;
    while i < e.len()
        invariant
            0 <= i <= e@.len(),
            e@.len() <= data@.len(),
            data@.len() == old(data)@.len(),
            forall|j: int| 0 <= j < i ==> data@[j] == e@[j],
            forall|j: int| i <= j < data@.len() ==> data@[j] == old(data)@[j],
        decreases e@.len() - i,
    {
        data.set(i, e[i]);
        i = i + 1;
    }
    assert(data@ =~= written_over(e@, old(data)@));
}

} // verus!
