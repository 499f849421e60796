//! The scan of one frame: the candidates that the engine found in it, taken
//! one by one, in the engine's order.

use crate::code::QrCode;
use crate::error::Error;
use crate::quirc::{quirc_data, quirc_decode_error_t};
use vstd::prelude::*;

verus! {

/// Where a scan stands: `count` candidates were found, and the first `next`
/// of them have been taken.
pub struct Scan {
    pub count: int,
    pub next: int,
}

impl Scan {
    /// The scan of a frame in which the engine found `count` candidates,
    /// before any was taken. A count that is not positive is a frame without
    /// candidates.
    pub open spec fn start(count: int) -> Scan {
        Scan { count, next: 0 }
    }

    /// The index of the candidate to take next, or `None` once all are taken.
    pub open spec fn pending(self) -> Option<int> {
        if self.next < self.count {
            Some(self.next)
        } else {
            None
        }
    }

    /// The scan after one more request: past the pending candidate if there
    /// is one, and unchanged if there is none.
    pub open spec fn step(self) -> Scan {
        if self.next < self.count {
            Scan { count: self.count, next: self.next + 1 }
        } else {
            self
        }
    }

    /// The scan after `k` requests.
    pub open spec fn steps(self, k: nat) -> Scan
        decreases k,
    {
        if k == 0 {
            self
        } else {
            self.step().steps((k - 1) as nat)
        }
    }

    /// A scan of `count` candidates answers its first `count` requests with
    /// the candidates 0, 1, 2, ... in this order, and every later request
    /// with nothing: after `k` requests the candidate `k` is pending if
    /// `k < count`, and none is otherwise. A frame without candidates is
    /// exhausted from the start.
    pub proof fn lemma_scan_yields_count(count: int, k: nat)
        ensures
            Scan::start(count).steps(k).count == count,
            k < count ==> Scan::start(count).steps(k).pending() == Some(k as int),
            k >= count ==> Scan::start(count).steps(k).pending() is None,
            count <= 0 ==> Scan::start(count).pending() is None,
    {
        Self::lemma_steps_from(Scan::start(count), k);
    }

    /// An exhausted scan stays exhausted and unchanged, whatever is asked of
    /// it and however often.
    pub proof fn lemma_exhausted_is_final(scan: Scan, k: nat)
        requires
            scan.pending() is None,
        ensures
            scan.steps(k) == scan,
        decreases k,
    {
        if k > 0 {
            Self::lemma_exhausted_is_final(scan, (k - 1) as nat);
        }
    }

    /// `k` requests move a scan past `k` candidates, or past all that were
    /// left if those are fewer.
    proof fn lemma_steps_from(scan: Scan, k: nat)
        requires
            0 <= scan.next,
        ensures
            scan.steps(k).count == scan.count,
            scan.next + k <= scan.count ==> scan.steps(k).next == scan.next + k,
            scan.next + k >= scan.count && scan.next <= scan.count ==> scan.steps(k).next
                == scan.count,
            scan.next >= scan.count ==> scan.steps(k).next == scan.next,
        decreases k,
    {
        if k > 0 {
            Self::lemma_steps_from(scan.step(), (k - 1) as nat);
        }
    }
}

/// The cursor of a scan: the count that the engine reported and the number of
/// candidates taken so far.
pub struct Cursor {
    count: i32,
    next: i32,
}

impl View for Cursor {
    type V = Scan;

    closed spec fn view(&self) -> Scan {
        Scan { count: self.count as int, next: self.next as int }
    }
}

impl Cursor {
    /// The cursor lies between the first candidate and the end of the scan.
    #[verifier::type_invariant]
    spec fn in_range(self) -> bool {
        0 <= self.next && (self.next <= self.count || self.next == 0)
    }

    /// The cursor before the first of `count` candidates.
    pub(crate) fn new(count: i32) -> (cursor: Cursor)
        ensures
            cursor@ == Scan::start(count as int),
    {
        Cursor { count, next: 0 }
    }

    /// The index of the pending candidate, if there is one.
    pub(crate) fn pending(&self) -> (index: Option<i32>)
        ensures
            self@.pending() == match index {
                Some(i) => Some(i as int),
                None => None,
            },
            index matches Some(i) ==> 0 <= i < self@.count,
    {
        proof {
            use_type_invariant(self);
        }
        if self.next < self.count {
            Some(self.next)
        } else {
            None
        }
    }

    /// Moves past the pending candidate, if there is one, and says whether
    /// there was.
    pub(crate) fn advance(&mut self) -> (moved: bool)
        ensures
            final(self)@ == old(self)@.step(),
            moved == old(self)@.pending() is Some,
    {
        proof {
            use_type_invariant(&*self);
        }
        if self.next >= self.count {
            return false;
        }
        self.next += 1;
        true
    }
}

/// The candidates of one frame, to be decoded one by one.
///
/// A scan borrows the engine's context from the coder that took the frame in,
/// so no other frame can be started while it lasts. Each step is made in two
/// parts: [`Codes::pending`] names the candidate that the engine is to extract
/// and decode, and [`Codes::next`] takes what the engine reported of it.
pub struct Codes<'a, E> {
    pub cursor: Cursor,
    pub engine: &'a mut E,
}

impl<'a, E> View for Codes<'a, E> {
    type V = Scan;

    open spec fn view(&self) -> Scan {
        self.cursor@
    }
}

impl<'a, E> Codes<'a, E> {
    /// The scan of a frame in which the engine found `count` candidates.
    pub(crate) fn new(count: i32, engine: &'a mut E) -> (codes: Codes<'a, E>)
        ensures
            codes@ == Scan::start(count as int),
            *codes.engine == *old(engine),
            *final(engine) == *final(codes.engine),
    {
        Codes { cursor: Cursor::new(count), engine }
    }

    /// The zero-based index of the candidate that the engine is to extract and
    /// decode for the next step, or `None` when the scan is exhausted. An
    /// index is always below the count that the engine reported.
    pub fn pending(&self) -> (index: Option<i32>)
        ensures
            self@.pending() == match index {
                Some(i) => Some(i as int),
                None => None,
            },
            index matches Some(i) ==> 0 <= i < self@.count,
    {
        self.cursor.pending()
    }

    /// Takes what the engine reported of the pending candidate and yields the
    /// result of this step: the symbol that `data` describes where `status` is
    /// success, the numbered failure otherwise. A failure ends nothing: the
    /// scan moves to the next candidate either way. An exhausted scan yields
    /// `None` and stays as it is.
    pub fn next(&mut self, status: quirc_decode_error_t, data: &quirc_data) -> (item: Option<
        Result<QrCode, Error>,
    >)
        requires
            old(self)@.pending() is Some && status == quirc_decode_error_t::QUIRC_SUCCESS
                ==> data.well_formed(),
        ensures
            final(self)@ == old(self)@.step(),
            final(self).engine == old(self).engine,
            match item {
                None => old(self)@.pending() is None,
                Some(Ok(code)) => {
                    &&& old(self)@.pending() is Some
                    &&& status == quirc_decode_error_t::QUIRC_SUCCESS
                    &&& code@ == QrCode::of_data(data)
                },
                Some(Err(e)) => {
                    &&& old(self)@.pending() is Some
                    &&& status != quirc_decode_error_t::QUIRC_SUCCESS
                    &&& e == Error::Decode(status.spec_code())
                },
            },
    {
        if !self.cursor.advance() {
            return None;
        }
        Some(
            match status {
                quirc_decode_error_t::QUIRC_SUCCESS => Ok(QrCode::new(data)),
                err => Err(Error::Decode(err.code())),
            },
        )
    }
}

} // verus!
