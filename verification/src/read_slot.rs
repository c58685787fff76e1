//! The slot through which the result of a read passes from the native store,
//! which delivers it, to the waiter, which takes it.
//!
//! Two parties hold the slot: the native store until it has delivered the result and
//! marked the slot done, and the waiter until it is dropped. Whichever lets go second
//! releases the slot.
use vstd::prelude::*;
use crate::error::ReadError;
use crate::status::{ABORTED, NOT_FOUND, OK, PENDING};

verus! {

/// Flag set once the native store has delivered the result.
pub const STATE_DONE: u32 = 1;

/// Flag set once the waiter has been dropped.
pub const STATE_DROPPED: u32 = 2;

/// Whether `flags` records the delivery of the result.
pub open spec fn done_in(flags: u32) -> bool {
    flags & STATE_DONE != 0
}

/// Whether `flags` records that the waiter was dropped.
pub open spec fn dropped_in(flags: u32) -> bool {
    flags & STATE_DROPPED != 0
}

/// The status a slot holds after the native store delivered `status` with a value of
/// `length` bytes at `value`: a successful read whose value is missing is aborted.
pub open spec fn delivered_status(status: u32, length: u64, value: Option<Seq<u8>>) -> u32 {
    if status == OK as u32 && length > 0 && value is None {
        ABORTED as u32
    } else {
        status
    }
}

/// The value a slot holds after the delivery of `status`, `length` and `value`, where it
/// held `held` before: a successful read stores its value (an empty one where its length
/// is zero); any other delivery leaves the slot's value as it was.
pub open spec fn delivered_value(
    status: u32,
    length: u64,
    value: Option<Seq<u8>>,
    held: Option<Seq<u8>>,
) -> Option<Seq<u8>> {
    if status == OK as u32 {
        if length > 0 && value is None {
            held
        } else if length == 0 {
            Some(Seq::empty())
        } else {
            value
        }
    } else {
        held
    }
}

/// What the waiter receives from a slot with `status` that holds `value`.
pub open spec fn take_result(status: u32, value: Option<Seq<u8>>) -> Result<Seq<u8>, ReadError> {
    if status != OK as u32 {
        Err(ReadError::NotFound)
    } else {
        match value {
            Some(v) => Ok(v),
            None => Err(ReadError::Empty),
        }
    }
}

/// Whether a read that the native store answered with `status` is already complete:
/// any answer but success and "pending" ends the read at once.
pub open spec fn completes_at_once_spec(status: u8) -> bool {
    status != OK && status != PENDING
}

/// Whether a read that the native store answered with `status` is already complete.
pub fn completes_at_once(status: u8) -> (b: bool)
    ensures
        b == completes_at_once_spec(status),
{
    status != OK && status != PENDING
}

/// The shared state of one read.
pub struct ReadSlot {
    flags: u32,
    status: u32,
    value: Option<Vec<u8>>,
}

impl ReadSlot {
    /// The flags recording delivery and the waiter's drop.
    pub closed spec fn flags(&self) -> u32 {
        self.flags
    }

    /// The status of the read.
    pub closed spec fn status(&self) -> u32 {
        self.status
    }

    /// The value the slot holds.
    pub closed spec fn value(&self) -> Option<Seq<u8>> {
        match self.value {
            Some(v) => Some(v@),
            None => None,
        }
    }

    /// A slot for a read not yet answered: no flag set, status "not found", no value.
    pub fn new() -> (s: ReadSlot)
        ensures
            s.flags() == 0,
            s.status() == NOT_FOUND as u32,
            s.value() is None,
    {
        ReadSlot { flags: 0, status: NOT_FOUND as u32, value: None }
    }

    /// Records the result the native store delivered: `status`, and the `length` bytes at
    /// `value` (`None` where the native store handed no value over). The value is read only
    /// for a successful read.
    pub fn deliver(&mut self, status: u32, length: u64, value: Option<&[u8]>)
        requires
            status == OK as u32 ==> (value matches Some(v) ==> v@.len() == length),
        ensures
            final(self).flags() == old(self).flags(),
            final(self).status() == delivered_status(
                status,
                length,
                match value {
                    Some(v) => Some(v@),
                    None => None,
                },
            ),
            final(self).value() == delivered_value(
                status,
                length,
                match value {
                    Some(v) => Some(v@),
                    None => None,
                },
                old(self).value(),
            ),
    {
        if status == OK as u32 {
            if length > 0 && value.is_none() {
                self.status = ABORTED as u32;
            } else if length == 0 {
                self.value = Some(Vec::new());
                self.status = status;
            } else {
                let v = value.unwrap();
                let mut copy: Vec<u8> = Vec::new();
                let mut i: usize = 0;
                while i < v.len()
                    invariant
                        i <= v@.len(),
                        copy@ == v@.take(i as int),
                    decreases v.len() - i,
                {
                    copy.push(v[i]);
                    i += 1;
                    assert(copy@ =~= v@.take(i as int));
                }
                assert(copy@ =~= v@);
                self.value = Some(copy);
                self.status = status;
            }
        } else {
            self.status = status;
        }
    }

    /// Marks the result delivered; returns whether the slot is to be released now, which is
    /// when the waiter was already dropped.
    pub fn mark_done(&mut self) -> (release: bool)
        ensures
            final(self).flags() == old(self).flags() | STATE_DONE,
            done_in(final(self).flags()),
            dropped_in(final(self).flags()) == dropped_in(old(self).flags()),
            release == dropped_in(old(self).flags()),
            final(self).status() == old(self).status(),
            final(self).value() == old(self).value(),
    {
        let prev = self.flags;
        self.flags = prev | STATE_DONE;
        proof {
            lemma_set_done(prev);
        }
        prev & STATE_DROPPED != 0
    }

    /// Marks the waiter dropped; returns whether the slot is to be released now, which is
    /// when the result was already delivered.
    pub fn mark_dropped(&mut self) -> (release: bool)
        ensures
            final(self).flags() == old(self).flags() | STATE_DROPPED,
            dropped_in(final(self).flags()),
            done_in(final(self).flags()) == done_in(old(self).flags()),
            release == done_in(old(self).flags()),
            final(self).status() == old(self).status(),
            final(self).value() == old(self).value(),
    {
        let prev = self.flags;
        self.flags = prev | STATE_DROPPED;
        proof {
            lemma_set_dropped(prev);
        }
        prev & STATE_DONE != 0
    }

    /// Hands the delivered result to the waiter: the value where the read succeeded and
    /// the value is still held (the slot then holds none), an error otherwise.
    pub fn take(&mut self) -> (r: Result<Vec<u8>, ReadError>)
        ensures
            match r {
                Ok(v) => take_result(old(self).status(), old(self).value()) == Ok::<
                    Seq<u8>,
                    ReadError,
                >(v@),
                Err(e) => take_result(old(self).status(), old(self).value()) == Err::<
                    Seq<u8>,
                    ReadError,
                >(e),
            },
            final(self).value() == (if r is Ok {
                None
            } else {
                old(self).value()
            }),
            final(self).flags() == old(self).flags(),
            final(self).status() == old(self).status(),
    {
        if self.status != OK as u32 {
            return Err(ReadError::NotFound);
        }
        match self.value.take() {
            Some(v) => Ok(v),
            None => Err(ReadError::Empty),
        }
    }
}

proof fn lemma_set_done(prev: u32)
    ensures
        (prev | STATE_DONE) & STATE_DONE != 0,
        ((prev | STATE_DONE) & STATE_DROPPED != 0) == (prev & STATE_DROPPED != 0),
{
    assert((prev | 1u32) & 1u32 != 0) by (bit_vector);
    assert(((prev | 1u32) & 2u32 != 0) == (prev & 2u32 != 0)) by (bit_vector);
}

proof fn lemma_set_dropped(prev: u32)
    ensures
        (prev | STATE_DROPPED) & STATE_DROPPED != 0,
        ((prev | STATE_DROPPED) & STATE_DONE != 0) == (prev & STATE_DONE != 0),
{
    assert((prev | 2u32) & 2u32 != 0) by (bit_vector);
    assert(((prev | 2u32) & 1u32 != 0) == (prev & 1u32 != 0)) by (bit_vector);
}

/// A slot is released exactly once, by whichever of the delivery and the waiter's drop
/// comes second: from flags that record neither, marking the slot done and then dropped
/// releases it on the drop only, and marking it dropped and then done releases it on the
/// delivery only.
pub proof fn lemma_released_exactly_once(flags: u32)
    requires
        !done_in(flags),
        !dropped_in(flags),
    ensures
        !dropped_in(flags) && done_in(flags | STATE_DONE),
        !done_in(flags) && dropped_in(flags | STATE_DROPPED),
        done_in((flags | STATE_DONE) | STATE_DROPPED) && dropped_in((flags | STATE_DONE) | STATE_DROPPED),
        ((flags | STATE_DONE) | STATE_DROPPED) == ((flags | STATE_DROPPED) | STATE_DONE),
{
    lemma_set_done(flags);
    lemma_set_dropped(flags);
    lemma_set_dropped(flags | STATE_DONE);
    lemma_set_done(flags | STATE_DROPPED);
    assert(((flags | 1u32) | 2u32) == ((flags | 2u32) | 1u32)) by (bit_vector);
}

/// What a waiter receives from a slot that held no value before the delivery: the
/// delivered value where the read succeeded with its value present (an empty value where
/// its length is zero), and "not found" for every other delivery, an aborted one included.
/// The waiter's result is an error exactly when the recorded status is not success, and
/// after one delivery it is never "empty".
pub proof fn lemma_waiter_receives_delivery(status: u32, length: u64, value: Option<Seq<u8>>)
    requires
        status == OK as u32 ==> (value matches Some(v) ==> v.len() == length),
    ensures
        take_result(
            delivered_status(status, length, value),
            delivered_value(status, length, value, None),
        ) == if status == OK as u32 && !(length > 0 && value is None) {
            if length == 0 {
                Ok::<Seq<u8>, ReadError>(Seq::empty())
            } else {
                Ok::<Seq<u8>, ReadError>(value.unwrap())
            }
        } else {
            Err::<Seq<u8>, ReadError>(ReadError::NotFound)
        },
        take_result(
            delivered_status(status, length, value),
            delivered_value(status, length, value, None),
        ) is Err <==> delivered_status(status, length, value) != OK as u32,
        take_result(
            delivered_status(status, length, value),
            delivered_value(status, length, value, None),
        ) != Err::<Seq<u8>, ReadError>(ReadError::Empty),
{
}

/// A delivery with any status but success, whatever its length and value, leaves the
/// waiter "not found".
pub proof fn lemma_failed_delivery_not_found(status: u32, length: u64, value: Option<Seq<u8>>)
    requires
        status != OK as u32,
    ensures
        take_result(
            delivered_status(status, length, value),
            delivered_value(status, length, value, None),
        ) == Err::<Seq<u8>, ReadError>(ReadError::NotFound),
{
}

/// A read ends at once exactly when the native store answers neither success (code 0)
/// nor "pending" (code 1).
pub proof fn lemma_completes_at_once_exactly(status: u8)
    ensures
        completes_at_once_spec(status) <==> (status != 0 && status != 1),
{
}

/// A waiter whose read ended at once with `status` receives "not found".
pub proof fn lemma_failed_read_not_found(status: u8)
    requires
        completes_at_once_spec(status),
    ensures
        take_result(delivered_status(status as u32, 0, None), delivered_value(status as u32, 0, None, None))
            == Err::<Seq<u8>, ReadError>(ReadError::NotFound),
{
}

} // verus!
