//! Entries of the agent's key/value caches.

use vstd::prelude::*;

verus! {

/// A value whose copies are known to equal it.
pub trait CacheValue: Sized {
    fn duplicate(&self) -> (r: Self)
        ensures
            r == *self,
    ;
}

impl CacheValue for String {
    fn duplicate(&self) -> (r: String)
        ensures
            r == *self,
    {
        self.clone()
    }
}

/// A cached value with its bookkeeping. Instants are milliseconds since the epoch.
#[derive(Debug)]
pub struct CacheEntry<V> {
    pub key: String,
    pub value: V,
    /// Whether the value has changes that the backend has not seen yet.
    pub is_dirty: bool,
    pub created_at: i64,
    pub last_accessed: i64,
}

impl<V: CacheValue> CacheEntry<V> {
    pub fn duplicate(&self) -> (r: CacheEntry<V>)
        ensures
            r == *self,
    {
        CacheEntry {
            key: self.key.clone(),
            value: self.value.duplicate(),
            is_dirty: self.is_dirty,
            created_at: self.created_at,
            last_accessed: self.last_accessed,
        }
    }
}

/// Dirtiness rule that marks every write as dirty.
pub fn is_dirty_true<V>(_old: Option<&CacheEntry<V>>, _new: &V) -> (r: bool)
    ensures
        r,
{
    true
}

/// Dirtiness rule that marks no write as dirty.
pub fn is_dirty_false<V>(_old: Option<&CacheEntry<V>>, _new: &V) -> (r: bool)
    ensures
        !r,
{
    false
}

} // verus!
