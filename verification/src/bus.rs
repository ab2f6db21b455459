//! The two-wire bus as the driver sees it: single-byte register reads and writes,
//! and the record of them that the driver's contracts speak of.

use vstd::prelude::*;

verus! {

/// A connection to one device on the bus, already open.
///
/// Nothing is promised of an access: it may fail for any reason of the bus's own,
/// and a read may return any byte.
pub trait Transport: Sized {
    /// What the bus reports when an access fails.
    type Error;

    /// Reads the byte held in the register at `address`.
    fn read_register(&mut self, address: u8) -> Result<u8, Self::Error>;

    /// Writes `value` to the register at `address`.
    fn write_register(&mut self, address: u8, value: u8) -> Result<(), Self::Error>;
}

/// One completed register access, with what the bus answered.
pub enum Transfer<E> {
    /// A read of `register` that returned `data`.
    Read { register: u8, data: Result<u8, E> },
    /// A write of `value` to `register` that ended in `status`.
    Write { register: u8, value: u8, status: Result<(), E> },
}

/// `after` is `before` and then one write of `value` to `register`, of which
/// `result` is the bus's answer.
pub open spec fn blind_write<E>(
    before: Seq<Transfer<E>>,
    after: Seq<Transfer<E>>,
    register: u8,
    value: u8,
    result: Result<(), E>,
) -> bool {
    after == before.push(Transfer::Write { register, value, status: result })
}

/// `after` is `before` and then one read of `register`; `result` is the byte read,
/// passed through `decode`, or the bus's error as it came.
pub open spec fn read_decoded<E, V>(
    before: Seq<Transfer<E>>,
    after: Seq<Transfer<E>>,
    register: u8,
    decode: spec_fn(u8) -> V,
    result: Result<V, E>,
) -> bool {
    &&& before.len() < after.len()
    &&& after[before.len() as int] matches Transfer::Read { register: read_from, data }
    &&& read_from == register
    &&& after == before.push(Transfer::Read { register, data })
    &&& result == match data {
        Ok(raw) => Ok(decode(raw)),
        Err(error) => Err(error),
    }
}

/// `after` is `before` and then a read-modify-write of `register`: one read, and,
/// only if the read succeeded, one write of `update` applied to the byte read.
/// Where the read failed nothing is written and `result` is the read's error;
/// otherwise `result` is the bus's answer to the write.
pub open spec fn read_modify_write<E>(
    before: Seq<Transfer<E>>,
    after: Seq<Transfer<E>>,
    register: u8,
    update: spec_fn(u8) -> u8,
    result: Result<(), E>,
) -> bool {
    &&& before.len() < after.len()
    &&& after[before.len() as int] matches Transfer::Read { register: read_from, data }
    &&& read_from == register
    &&& match data {
        Ok(current) => after == before.push(Transfer::Read { register, data }).push(
            Transfer::Write { register, value: update(current), status: result },
        ),
        Err(error) => after == before.push(Transfer::Read { register, data })
            && result == Err::<(), E>(error),
    }
}

/// A bus connection together with the record of every access made through it.
///
/// The record grows by one entry with each call of `read` or `write`, and in no
/// other way.
pub(crate) struct Recorded<T: Transport> {
    transport: T,
    transfers: Ghost<Seq<Transfer<T::Error>>>,
}

impl<T: Transport> View for Recorded<T> {
    type V = Seq<Transfer<T::Error>>;

    /// The accesses made so far, oldest first.
    closed spec fn view(&self) -> Seq<Transfer<T::Error>> {
        self.transfers@
    }
}

impl<T: Transport> Recorded<T> {
    /// The connection itself.
    pub(crate) closed spec fn transport(&self) -> T {
        self.transport
    }

    /// Takes a connection over, with an empty record.
    pub(crate) fn new(transport: T) -> (recorded: Recorded<T>)
        ensures
            recorded.transport() == transport,
            recorded@.len() == 0,
    {
        Recorded { transport, transfers: Ghost(Seq::empty()) }
    }

    /// Reads one register and records the access.
    pub(crate) fn read(&mut self, register: u8) -> (data: Result<u8, T::Error>)
        ensures
            final(self)@ == old(self)@.push((Transfer::Read { register, data })),
    {
        let data = self.transport.read_register(register);
        proof {
            self.transfers@ = self.transfers@.push(Transfer::Read { register, data });
        }
        data
    }

    /// Writes one register and records the access.
    pub(crate) fn write(&mut self, register: u8, value: u8) -> (status: Result<(), T::Error>)
        ensures
            final(self)@ == old(self)@.push((Transfer::Write { register, value, status })),
    {
        let status = self.transport.write_register(register, value);
        proof {
            self.transfers@ = self.transfers@.push(Transfer::Write { register, value, status });
        }
        status
    }
}

} // verus!
