//! Drivers: the sinks that take a finished byte stream to a device.
//!
//! A driver is anything that can take bytes and deliver them: a socket, a
//! serial line, a spooler job, or plain memory. The printer knows drivers
//! only through the `Driver` trait.

use vstd::prelude::*;
use crate::bytes::append;
use crate::errors::PrinterError;

pub mod flush_laws;
pub mod job_laws;
pub mod job_name;
pub mod spooler;
pub mod windows;

verus! {

/// What a driver says of the bytes that went through it.
pub struct Account {
    /// The bytes the driver has accepted so far, oldest first.
    pub accepted: Seq<u8>,
    /// The bytes the driver has delivered so far, oldest first: what has
    /// left the driver for the device.
    pub delivered: Seq<u8>,
}

/// Between the accounts `before` and `after` the driver was offered `data`
/// and nothing else. Where it took the data `whole`, all of it stands
/// behind what was accepted before; where it did not, at most a leading
/// part of it does. A driver that keeps no account keeps none afterwards.
pub open spec fn took(
    before: Option<Account>,
    after: Option<Account>,
    data: Seq<u8>,
    whole: bool,
) -> bool {
    match (before, after) {
        (Some(b), Some(a)) => if whole {
            a.accepted == b.accepted + data
        } else {
            b.accepted.is_prefix_of(a.accepted) && a.accepted.is_prefix_of(b.accepted + data)
        },
        (None, None) => true,
        _ => false,
    }
}

/// Between the accounts `before` and `after` the driver accepted nothing.
pub open spec fn took_nothing(before: Option<Account>, after: Option<Account>) -> bool {
    match (before, after) {
        (Some(b), Some(a)) => a.accepted == b.accepted,
        (None, None) => true,
        _ => false,
    }
}

/// Everything accepted has been delivered.
pub open spec fn all_delivered(account: Option<Account>) -> bool {
    account matches Some(a) ==> a.delivered == a.accepted
}

/// Taking data whole is one way of taking at most a leading part of it.
pub proof fn whole_is_a_leading_part(before: Option<Account>, after: Option<Account>, data: Seq<u8>)
    requires
        took(before, after, data, true),
    ensures
        took(before, after, data, false),
{
    match (before, after) {
        (Some(b), Some(a)) => {
            assert(b.accepted =~= a.accepted.subrange(0, b.accepted.len() as int));
            assert(a.accepted =~= a.accepted.subrange(0, a.accepted.len() as int));
        },
        _ => {},
    }
}

/// Accepting nothing after an offer leaves the offer as it was taken.
pub proof fn nothing_more_was_taken(
    before: Option<Account>,
    between: Option<Account>,
    after: Option<Account>,
    data: Seq<u8>,
    whole: bool,
)
    requires
        took(before, between, data, whole),
        took_nothing(between, after),
    ensures
        took(before, after, data, whole),
{
}

/// What every transport offers to the printer.
pub trait Driver {
    /// The driver's account of the bytes that went through it, for a
    /// driver that keeps one. The contracts below bind a driver by its
    /// account; one that keeps none is bound to nothing.
    open spec fn account(&self) -> Option<Account> {
        None
    }

    /// The driver's name for diagnostics.
    fn name(&self) -> String;

    /// Takes `data` for delivery. When this succeeds every byte of `data`
    /// has been taken, in order, behind what was taken before. When it
    /// fails the driver may have taken a leading part of `data`, but
    /// nothing else and nothing out of order.
    fn write(&mut self, data: &[u8]) -> (result: Result<(), PrinterError>)
        ensures
            took(old(self).account(), final(self).account(), data@, result is Ok),
    ;

    /// Reads what the device sent back into `buf` and returns how many
    /// bytes were read; a transport with no channel back reads nothing.
    /// Reading takes nothing for delivery.
    fn read(&mut self, buf: &mut [u8]) -> (result: Result<usize, PrinterError>)
        ensures
            took_nothing(old(self).account(), final(self).account()),
            final(buf)@.len() == old(buf)@.len(),
            result matches Ok(n) ==> n <= old(buf)@.len(),
    ;

    /// Forces delivery of everything accepted so far: when this succeeds
    /// all that was accepted has been delivered. Flushing takes nothing
    /// new for delivery.
    fn flush(&mut self) -> (result: Result<(), PrinterError>)
        ensures
            took_nothing(old(self).account(), final(self).account()),
            result is Ok ==> all_delivered(final(self).account()),
    ;
}

/// A driver that keeps what it is given in memory, for tests and for
/// looking at a byte stream before it goes anywhere.
#[derive(Debug)]
pub struct MemoryDriver {
    written: Vec<u8>,
    delivered: usize,
    flushes: usize,
}

impl MemoryDriver {
    /// Everything written so far.
    pub closed spec fn accepted(&self) -> Seq<u8> {
        self.written@
    }

    /// What the last flush delivered: everything written before it.
    pub closed spec fn delivered(&self) -> Seq<u8> {
        if self.delivered <= self.written@.len() {
            self.written@.subrange(0, self.delivered as int)
        } else {
            self.written@
        }
    }

    /// How often the driver was flushed; the count stops at `usize::MAX`.
    pub closed spec fn spec_flushes(&self) -> nat {
        self.flushes as nat
    }

    /// A driver that has been given nothing yet.
    pub fn open() -> (driver: MemoryDriver)
        ensures
            driver.accepted() == Seq::<u8>::empty(),
            driver.delivered() == Seq::<u8>::empty(),
            driver.spec_flushes() == 0,
    {
        MemoryDriver { written: Vec::new(), delivered: 0, flushes: 0 }
    }

    /// Everything written so far.
    pub fn written(&self) -> (bytes: &Vec<u8>)
        ensures
            bytes@ == self.accepted(),
    {
        &self.written
    }

    /// How many of the bytes written so far a flush has delivered.
    pub fn delivered_len(&self) -> (count: usize)
        ensures
            count == self.delivered().len(),
            self.delivered() == self.accepted().subrange(0, count as int),
    {
        if self.delivered <= self.written.len() {
            self.delivered
        } else {
            self.written.len()
        }
    }

    /// How often the driver was flushed; the count stops at `usize::MAX`.
    pub fn flushes(&self) -> (count: usize)
        ensures
            count == self.spec_flushes(),
    {
        self.flushes
    }
}

impl Driver for MemoryDriver {
    open spec fn account(&self) -> Option<Account> {
        Some(Account { accepted: self.accepted(), delivered: self.delivered() })
    }

    fn name(&self) -> (name: String)
        ensures
            name@ == "Memory Driver"@,
    {
        "Memory Driver".to_owned()
    }

    fn write(&mut self, data: &[u8]) -> (result: Result<(), PrinterError>)
        ensures
            result is Ok,
            final(self).accepted() == old(self).accepted() + data@,
            final(self).spec_flushes() == old(self).spec_flushes(),
    {
        append(&mut self.written, data);
        Ok(())
    }

    fn read(&mut self, buf: &mut [u8]) -> (result: Result<usize, PrinterError>)
        ensures
            result == Ok::<usize, PrinterError>(0),
            final(buf)@ == old(buf)@,
            final(self).accepted() == old(self).accepted(),
            final(self).delivered() == old(self).delivered(),
            final(self).spec_flushes() == old(self).spec_flushes(),
    {
        Ok(0)
    }

    fn flush(&mut self) -> (result: Result<(), PrinterError>)
        ensures
            result is Ok,
            final(self).accepted() == old(self).accepted(),
            final(self).delivered() == final(self).accepted(),
            final(self).spec_flushes() == if old(self).spec_flushes() < usize::MAX {
                old(self).spec_flushes() + 1
            } else {
                old(self).spec_flushes()
            },
    {
        self.delivered = self.written.len();
        if self.flushes < usize::MAX {
            self.flushes = self.flushes + 1;
        }
        assert(self.written@.subrange(0, self.written@.len() as int) =~= self.written@);
        Ok(())
    }
}

} // verus!
