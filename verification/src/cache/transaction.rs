//! Replacing a cache entry without losing it: the entry is set aside when
//! the update begins, and put back unless the update is committed.

use vstd::prelude::*;
use crate::cache::storage::{entry_of, with_entry, CacheEntry, CacheIndex, CacheKey, CacheStorage,
    EntryView};

verus! {

/// Where a transaction stands. It starts pending and is resolved once, to
/// committed or to rolled back.
#[derive(Clone, Copy, Debug, PartialEq, Eq, Structural)]
pub enum TransactionState {
    Pending,
    Committed,
    RolledBack,
}

/// A failure of a transaction step.
#[derive(Clone, Debug, PartialEq, Eq)]
pub enum TransactionError {
    /// The entry could not be set aside; it is untouched.
    Backup(String),
    /// The entry that was set aside could not be discarded. The new entry
    /// stands all the same.
    Cleanup(String),
    /// The transaction was resolved already, or begun already.
    InvalidState,
}

/// A `TransactionError` with its texts as character sequences.
pub enum TransactionErrorView {
    Backup(Seq<char>),
    Cleanup(Seq<char>),
    InvalidState,
}

impl View for TransactionError {
    type V = TransactionErrorView;

    open spec fn view(&self) -> TransactionErrorView {
        match *self {
            TransactionError::Backup(m) => TransactionErrorView::Backup(m@),
            TransactionError::Cleanup(m) => TransactionErrorView::Cleanup(m@),
            TransactionError::InvalidState => TransactionErrorView::InvalidState,
        }
    }
}

/// The outcome of a step, with its error as character sequences.
pub open spec fn outcome(r: Result<(), TransactionError>) -> Result<(), TransactionErrorView> {
    match r {
        Ok(_) => Ok(()),
        Err(e) => Err(e@),
    }
}

/// The update of one cache entry. It holds the entry that it set aside
/// until it is resolved.
pub struct CacheTransaction {
    name: String,
    version: String,
    state: TransactionState,
    begun: bool,
    backup: Option<CacheEntry>,
}

impl CacheTransaction {
    #[verifier::type_invariant]
    spec fn inv(self) -> bool {
        self.backup matches Some(e) ==> e.key() == (self.name@, self.version@)
    }

    /// The key whose entry the transaction replaces.
    pub closed spec fn key(self) -> CacheKey {
        (self.name@, self.version@)
    }

    /// Where the transaction stands.
    pub closed spec fn state(self) -> TransactionState {
        self.state
    }

    /// Whether the transaction has set the entry aside.
    pub closed spec fn begun(self) -> bool {
        self.begun
    }

    /// The entry that the transaction holds: what was cached under the key
    /// when it began.
    pub closed spec fn backup(self) -> Option<EntryView> {
        match self.backup {
            Some(e) => Some(e@),
            None => None,
        }
    }

    /// A pending transaction on the entry of a package version, not yet
    /// begun.
    pub fn new(name: &str, version: &str) -> (tx: CacheTransaction)
        ensures
            tx.key() == (name@, version@),
            tx.state() == TransactionState::Pending,
            !tx.begun(),
            tx.backup() is None,
    {
        CacheTransaction {
            name: String::from_str(name),
            version: String::from_str(version),
            state: TransactionState::Pending,
            begun: false,
            backup: None,
        }
    }

    /// Where the transaction stands.
    pub fn current_state(&self) -> (state: TransactionState)
        ensures
            state == self.state(),
    {
        self.state
    }

    /// Begins the update: captures the entry under the key, then removes it
    /// from the cache. `set_aside` says how setting the entry's files aside
    /// went on disk. If that failed the step fails, the entry stays in the
    /// cache and the transaction is as before.
    pub fn begin(&mut self, storage: &mut CacheStorage, set_aside: Result<(), String>) -> (r: Result<
        (),
        TransactionError,
    >)
        ensures
            final(self).key() == old(self).key(),
            final(self).state() == old(self).state(),
            final(storage).root() == old(storage).root(),
            outcome(r) == if old(self).state() != TransactionState::Pending || old(self).begun() {
                Err(TransactionErrorView::InvalidState)
            } else {
                match set_aside {
                    Err(e) => Err(TransactionErrorView::Backup(e@)),
                    Ok(_) => Ok(()),
                }
            },
            r is Err ==> final(storage)@ == old(storage)@ && final(self).begun() == old(
                self,
            ).begun() && final(self).backup() == old(self).backup(),
            r is Ok ==> final(self).begun() && final(self).backup() == entry_of(
                old(storage)@,
                old(self).key(),
            ) && final(storage)@ == old(storage)@.remove(old(self).key()),
    {
        proof {
            use_type_invariant(&*self);
        }
        if self.state != TransactionState::Pending || self.begun {
            return Err(TransactionError::InvalidState);
        }
        match set_aside {
            Err(e) => Err(TransactionError::Backup(e)),
            Ok(_) => {
                let taken = storage.take(self.name.as_str(), self.version.as_str());
                self.backup = taken;
                self.begun = true;
                Ok(())
            },
        }
    }

    /// Commits the update: the entry that was set aside is given up.
    /// `discarded` says how deleting its files went on disk. A failure
    /// there is reported, but the transaction is committed all the same.
    pub fn commit(&mut self, discarded: Result<(), String>) -> (r: Result<(), TransactionError>)
        ensures
            final(self).key() == old(self).key(),
            final(self).begun() == old(self).begun(),
            outcome(r) == if old(self).state() != TransactionState::Pending {
                Err(TransactionErrorView::InvalidState)
            } else {
                match discarded {
                    Err(e) => Err(TransactionErrorView::Cleanup(e@)),
                    Ok(_) => Ok(()),
                }
            },
            old(self).state() != TransactionState::Pending ==> final(self).state() == old(
                self,
            ).state() && final(self).backup() == old(self).backup(),
            old(self).state() == TransactionState::Pending ==> final(self).state()
                == TransactionState::Committed && final(self).backup() is None,
    {
        proof {
            use_type_invariant(&*self);
        }
        if self.state != TransactionState::Pending {
            return Err(TransactionError::InvalidState);
        }
        self.backup = None;
        self.state = TransactionState::Committed;
        match discarded {
            Err(e) => Err(TransactionError::Cleanup(e)),
            Ok(_) => Ok(()),
        }
    }

    /// Rolls the update back: whatever is cached under the key now is
    /// replaced by what was there when the transaction began. A
    /// transaction that never began restores nothing.
    pub fn rollback(&mut self, storage: &mut CacheStorage) -> (r: Result<(), TransactionError>)
        ensures
            final(self).key() == old(self).key(),
            final(self).begun() == old(self).begun(),
            final(storage).root() == old(storage).root(),
            outcome(r) == if old(self).state() != TransactionState::Pending {
                Err(TransactionErrorView::InvalidState)
            } else {
                Ok(())
            },
            old(self).state() != TransactionState::Pending ==> final(self).state() == old(
                self,
            ).state() && final(self).backup() == old(self).backup() && final(storage)@ == old(
                storage,
            )@,
            old(self).state() == TransactionState::Pending ==> final(self).state()
                == TransactionState::RolledBack && final(self).backup() is None && final(storage)@
                == restored(old(storage)@, old(self).key(), old(self).begun(), old(self).backup()),
    {
        proof {
            use_type_invariant(&*self);
        }
        if self.state != TransactionState::Pending {
            return Err(TransactionError::InvalidState);
        }
        let mut held: Option<CacheEntry> = None;
        core::mem::swap(&mut self.backup, &mut held);
        self.state = TransactionState::RolledBack;
        if self.begun {
            match held {
                Some(e) => {
                    storage.put(e);
                },
                None => {
                    let _ = storage.take(self.name.as_str(), self.version.as_str());
                },
            }
        }
        Ok(())
    }

    /// Gives the transaction up. Unless it was committed or rolled back
    /// before, this rolls it back: an update that is abandoned, on whatever
    /// path, leaves the entry as it was before the update began.
    pub fn release(self, storage: &mut CacheStorage)
        ensures
            final(storage).root() == old(storage).root(),
            final(storage)@ == if self.state() == TransactionState::Pending {
                restored(old(storage)@, self.key(), self.begun(), self.backup())
            } else {
                old(storage)@
            },
    {
        let mut tx = self;
        let _ = tx.rollback(storage);
    }
}

/// The cache after a rollback: the entry under `key` is what the
/// transaction held, if it had begun; every other entry is as it was.
pub open spec fn restored(
    index: CacheIndex,
    key: CacheKey,
    begun: bool,
    backup: Option<EntryView>,
) -> CacheIndex {
    if begun {
        with_entry(index, key, backup)
    } else {
        index
    }
}

/// Atomicity of an update. Let a transaction begin on `before`, and let the
/// update that it wraps fail, leaving the cache in any state `partial`.
/// After the rollback the entry under the key is identical to the entry
/// before the transaction began, and no other entry was touched by the
/// rollback.
pub proof fn lemma_rollback_restores_entry(before: CacheIndex, partial: CacheIndex, key: CacheKey)
    ensures
        entry_of(restored(partial, key, true, entry_of(before, key)), key) == entry_of(before, key),
        forall|other: CacheKey|
            other != key ==> entry_of(
                restored(partial, key, true, entry_of(before, key)),
                other,
            ) == entry_of(partial, other),
{
}

/// A rollback right after the transaction began, with nothing done in
/// between, gives back the cache as it was.
pub proof fn lemma_rollback_undoes_begin(before: CacheIndex, key: CacheKey)
    ensures
        restored(before.remove(key), key, true, entry_of(before, key)) == before,
{
    assert(restored(before.remove(key), key, true, entry_of(before, key)) =~= before);
}

} // verus!
