use core::marker::PhantomData;

use vstd::prelude::*;

verus! {

/// A 64-bit pointer to a `T` that the game stores in encrypted form: the
/// address has to be decrypted before it can be followed. Zero is null.
#[derive(Debug, PartialEq, Eq, PartialOrd, Ord)]
pub struct EncryptedPtr64<T> where T: 'static + ?Sized {
    pub address: u64,
    pub _dummy: PhantomData<T>,
}

impl<T: ?Sized> View for EncryptedPtr64<T> {
    type V = u64;

    /// The encrypted address.
    open spec fn view(&self) -> u64 {
        self.address
    }
}

/// The encrypted address to follow, or `None` for a null pointer.
pub open spec fn spec_encrypted_target<T: ?Sized>(p: EncryptedPtr64<T>) -> Option<u64> {
    if p@ > 0 {
        Some(p@)
    } else {
        None
    }
}

/// A pointer has a target to follow exactly when it is not null, and a cast
/// keeps that target.
pub proof fn lemma_target_iff_not_null<T: ?Sized, V: ?Sized>(p: EncryptedPtr64<T>, q: EncryptedPtr64<V>)
    requires
        q@ == p@,
    ensures
        spec_encrypted_target(p) is None <==> p@ == 0,
        spec_encrypted_target(q) == spec_encrypted_target(p),
{
}

impl<T: ?Sized + 'static> Clone for EncryptedPtr64<T> {
    fn clone(&self) -> (r: Self)
        ensures
            r == *self,
    {
        EncryptedPtr64 { address: self.address, _dummy: PhantomData }
    }
}

impl<T: ?Sized + 'static> Copy for EncryptedPtr64<T> {

}

impl<T: ?Sized> EncryptedPtr64<T> {
    /// A pointer holding the encrypted `value`.
    pub fn new(value: u64) -> (r: Self)
        ensures
            r@ == value,
    {
        EncryptedPtr64 { address: value, _dummy: PhantomData }
    }

    /// Whether the pointer is null.
    pub fn is_null(&self) -> (r: bool)
        ensures
            r == (self@ == 0),
    {
        self.address == 0
    }

    /// The same encrypted address, seen as a pointer to a `V`.
    pub fn cast<V: ?Sized>(&self) -> (r: EncryptedPtr64<V>)
        ensures
            r@ == self@,
    {
        EncryptedPtr64::<V> { address: self.address, _dummy: PhantomData }
    }

    /// The encrypted address to decrypt before the pointee can be read or
    /// referenced, or `None` for a null pointer, which has no pointee.
    pub fn encrypted_target(&self) -> (r: Option<u64>)
        ensures
            r == spec_encrypted_target(*self),
    {
        if self.address > 0 {
            Some(self.address)
        } else {
            None
        }
    }
}

impl<T: ?Sized> From<u64> for EncryptedPtr64<T> {
    fn from(value: u64) -> (r: Self)
        ensures
            r@ == value,
    {
        Self::new(value)
    }
}

impl<T: ?Sized> vstd::std_specs::convert::FromSpecImpl<u64> for EncryptedPtr64<T> {
    open spec fn obeys_from_spec() -> bool {
        true
    }

    open spec fn from_spec(value: u64) -> Self {
        EncryptedPtr64 { address: value, _dummy: PhantomData }
    }
}

} // verus!
