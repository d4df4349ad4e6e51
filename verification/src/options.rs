use libc::c_uchar;
use vstd::prelude::*;

verus! {

/// What a `TransactionOptions` value stands for.
///
/// The two flags are always decided. Each of the four numbers is `None`
/// until it is set: the engine then goes by its own default.
pub struct TransactionConfig {
    pub deadlock_detect: bool,
    pub deadlock_detect_depth: Option<int>,
    pub expiration: Option<int>,
    pub lock_timeout: Option<int>,
    pub max_write_batch_size: Option<nat>,
    pub set_snapshot: bool,
}

impl TransactionConfig {
    /// The configuration of a transaction for which nothing was set:
    /// no deadlock detection, no snapshot, no time budget, and the
    /// engine's defaults for the rest.
    pub open spec fn initial() -> TransactionConfig {
        TransactionConfig {
            deadlock_detect: false,
            deadlock_detect_depth: None,
            expiration: None,
            lock_timeout: None,
            max_write_batch_size: None,
            set_snapshot: false,
        }
    }
}

/// Configuration read once, when a database is opened.
///
/// Nothing can be set here; the engine opens the database with its defaults.
#[derive(Debug, Clone, Copy, PartialEq, Eq)]
pub struct TransactionDBOptions {}

impl TransactionDBOptions {
    /// The default configuration, which is the only one.
    pub fn new() -> (options: TransactionDBOptions)
        ensures
            options == (TransactionDBOptions {  }),
    {
        TransactionDBOptions {  }
    }
}

impl Default for TransactionDBOptions {
    fn default() -> (options: TransactionDBOptions)
        ensures
            options == (TransactionDBOptions {  }),
    {
        TransactionDBOptions::new()
    }
}

/// Configuration of one transaction, set before the transaction begins.
///
/// The value is plain data. A transaction takes a copy of it when it
/// begins, so a later change reaches no transaction that exists already,
/// and one value serves any number of transactions.
#[derive(Debug, Clone, Copy, PartialEq, Eq)]
pub struct TransactionOptions {
    deadlock_detect: bool,
    deadlock_detect_depth: Option<i64>,
    expiration: Option<i64>,
    lock_timeout: Option<i64>,
    max_write_batch_size: Option<usize>,
    set_snapshot: bool,
}

/// An `int` for each `i64` that was set.
pub open spec fn as_int(value: Option<i64>) -> Option<int> {
    match value {
        Some(v) => Some(v as int),
        None => None,
    }
}

/// A `nat` for each `usize` that was set.
pub open spec fn as_nat(value: Option<usize>) -> Option<nat> {
    match value {
        Some(v) => Some(v as nat),
        None => None,
    }
}

impl View for TransactionOptions {
    type V = TransactionConfig;

    closed spec fn view(&self) -> TransactionConfig {
        TransactionConfig {
            deadlock_detect: self.deadlock_detect,
            deadlock_detect_depth: as_int(self.deadlock_detect_depth),
            expiration: as_int(self.expiration),
            lock_timeout: as_int(self.lock_timeout),
            max_write_batch_size: as_nat(self.max_write_batch_size),
            set_snapshot: self.set_snapshot,
        }
    }
}

impl TransactionOptions {
    /// Options with nothing set.
    pub fn new() -> (options: TransactionOptions)
        ensures
            options@ == TransactionConfig::initial(),
    {
        TransactionOptions {
            deadlock_detect: false,
            deadlock_detect_depth: None,
            expiration: None,
            lock_timeout: None,
            max_write_batch_size: None,
            set_snapshot: false,
        }
    }

    /// Turns the search for cycles among waiting lock requests on or off.
    pub fn set_deadlock_detect(&mut self, deadlock_detect: bool)
        ensures
            final(self)@ == (TransactionConfig { deadlock_detect, ..old(self)@ }),
    {
        self.deadlock_detect = deadlock_detect;
    }

    /// Bounds how deep the search for a cycle goes.
    pub fn set_deadlock_detect_depth(&mut self, depth: i64)
        ensures
            final(self)@ == (TransactionConfig {
                deadlock_detect_depth: Some(depth as int),
                ..old(self)@
            }),
    {
        self.deadlock_detect_depth = Some(depth);
    }

    /// Sets the time budget after which the engine may abort the transaction.
    pub fn set_expiration(&mut self, expiration: i64)
        ensures
            final(self)@ == (TransactionConfig {
                expiration: Some(expiration as int),
                ..old(self)@
            }),
    {
        self.expiration = Some(expiration);
    }

    /// Sets how long the transaction waits for a lock before the operation fails.
    pub fn set_lock_timeout(&mut self, lock_timeout: i64)
        ensures
            final(self)@ == (TransactionConfig {
                lock_timeout: Some(lock_timeout as int),
                ..old(self)@
            }),
    {
        self.lock_timeout = Some(lock_timeout);
    }

    /// Caps the size of the writes that the transaction buffers.
    pub fn set_max_write_batch_size(&mut self, size: usize)
        ensures
            final(self)@ == (TransactionConfig {
                max_write_batch_size: Some(size as nat),
                ..old(self)@
            }),
    {
        self.max_write_batch_size = Some(size);
    }

    /// Decides whether a transaction captures a snapshot when it begins.
    pub fn set_snapshot(&mut self, set_snapshot: bool)
        ensures
            final(self)@ == (TransactionConfig { set_snapshot, ..old(self)@ }),
    {
        self.set_snapshot = set_snapshot;
    }

    /// Whether deadlock detection is on.
    pub fn deadlock_detect(&self) -> (flag: bool)
        ensures
            flag == self@.deadlock_detect,
    {
        self.deadlock_detect
    }

    /// The depth of the search for a cycle, if one was set.
    pub fn deadlock_detect_depth(&self) -> (depth: Option<i64>)
        ensures
            as_int(depth) == self@.deadlock_detect_depth,
    {
        self.deadlock_detect_depth
    }

    /// The time budget, if one was set.
    pub fn expiration(&self) -> (expiration: Option<i64>)
        ensures
            as_int(expiration) == self@.expiration,
    {
        self.expiration
    }

    /// The wait for a lock, if one was set.
    pub fn lock_timeout(&self) -> (lock_timeout: Option<i64>)
        ensures
            as_int(lock_timeout) == self@.lock_timeout,
    {
        self.lock_timeout
    }

    /// The cap on buffered writes, if one was set.
    pub fn max_write_batch_size(&self) -> (size: Option<usize>)
        ensures
            as_nat(size) == self@.max_write_batch_size,
    {
        self.max_write_batch_size
    }

    /// Whether a transaction captures a snapshot when it begins.
    pub fn snapshot(&self) -> (flag: bool)
        ensures
            flag == self@.set_snapshot,
    {
        self.set_snapshot
    }
}

impl Default for TransactionOptions {
    fn default() -> (options: TransactionOptions)
        ensures
            options@ == TransactionConfig::initial(),
    {
        TransactionOptions::new()
    }
}

/// A flag as the engine takes it: one byte, 1 for set and 0 for clear.
pub fn flag_byte(flag: bool) -> (byte: c_uchar)
    ensures
        byte == (if flag { 1u8 } else { 0u8 }),
{
    if flag {
        1
    } else {
        0
    }
}

} // verus!
