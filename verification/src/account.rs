//! A record together with the address under which it is stored.

use vstd::prelude::*;
use crate::pubkey::Pubkey;

verus! {

/// A stored record and its address.
#[derive(Copy, Debug, PartialEq, Eq)]
pub struct Account<T> {
    /// Where the record is stored.
    pub key: Pubkey,
    /// The record.
    pub data: T,
}

impl<T: Copy> Clone for Account<T> {
    fn clone(&self) -> (copy: Self)
        ensures
            copy == *self,
    {
        *self
    }
}

impl<T> Account<T> {
    /// Pairs a record with its address.
    pub fn new(key: Pubkey, data: T) -> (account: Account<T>)
        ensures
            account.key == key,
            account.data == data,
    {
        Account { key, data }
    }
}

} // verus!
