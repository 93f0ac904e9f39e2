//! Flow-control window arithmetic (RFC 7540, sections 5.2 and 6.9).
//!
//! A window is a signed credit counter. Every mutation computes its candidate
//! in a wider register, validates it, and only then commits it, so an attempt
//! that fails leaves the window exactly as it was.

use vstd::pervasive::unreached;
use vstd::prelude::*;

verus! {

/// The largest value that a flow-control window may reach: 2^31 - 1 octets.
///
/// A sender that receives a WINDOW_UPDATE which would carry a window beyond
/// this value must terminate the stream or the connection with
/// FLOW_CONTROL_ERROR.
pub const MAX_WINDOW_SIZE: u32 = 0x7fffffff;

/// The largest increment that a single WINDOW_UPDATE frame may carry. The
/// protocol ties it to the same limit as the window itself.
pub const MAX_WINDOW_SIZE_INC: u32 = MAX_WINDOW_SIZE;

/// Why a mutation of a window was refused.
#[derive(Debug, Copy, Clone, PartialEq, Eq, Structural)]
pub enum WindowSizeError {
    /// An increment of zero, or of more than [`MAX_WINDOW_SIZE_INC`].
    InvalidIncrement,
    /// The increment itself was legal but would carry the window beyond
    /// [`MAX_WINDOW_SIZE`].
    Overflow,
    /// The result of a decrease does not fit the register of the window.
    Underflow,
    /// A decrease that must not leave the window negative would do so.
    WouldGoNegative,
}

/// The size of a flow-control window: the number of octets that its holder
/// may still send or receive. It may be negative, which happens when a peer
/// shrinks its initial window while data is in flight.
#[derive(Debug, Copy, Clone, PartialEq, Eq, Structural)]
pub struct WindowSize(pub i32);

impl View for WindowSize {
    type V = int;

    open spec fn view(&self) -> int {
        self.0 as int
    }
}

/// What crediting `delta` octets to a window of `window` octets yields: the new
/// size, or the reason for which the credit is refused.
pub open spec fn increased(window: int, delta: int) -> Result<int, WindowSizeError> {
    if delta <= 0 || delta > MAX_WINDOW_SIZE_INC {
        Err(WindowSizeError::InvalidIncrement)
    } else if window + delta > MAX_WINDOW_SIZE {
        Err(WindowSizeError::Overflow)
    } else {
        Ok(window + delta)
    }
}

/// What debiting `delta` octets from a window of `window` octets yields when
/// the window is allowed to become negative. A result that the register cannot
/// hold is refused as [`WindowSizeError::Underflow`], whichever bound it
/// crosses: the upper one can only be crossed by a negative `delta`.
pub open spec fn decreased(window: int, delta: int) -> Result<int, WindowSizeError> {
    if i32::MIN <= window - delta <= i32::MAX {
        Ok(window - delta)
    } else {
        Err(WindowSizeError::Underflow)
    }
}

/// What debiting `delta` octets yields when the window must stay at or above
/// zero. A negative result is refused as [`WindowSizeError::WouldGoNegative`],
/// however far below zero it lies; a result above the register's upper bound
/// is refused as [`decreased`] refuses it.
pub open spec fn decreased_to_non_negative(window: int, delta: int) -> Result<
    int,
    WindowSizeError,
> {
    if window - delta < 0 {
        Err(WindowSizeError::WouldGoNegative)
    } else {
        decreased(window, delta)
    }
}

impl WindowSize {
    /// Creates a window with the given initial size.
    pub fn new(size: i32) -> (w: WindowSize)
        ensures
            w@ == size,
    {
        WindowSize(size)
    }

    /// Tries to increase the window by `delta` octets, as a WINDOW_UPDATE
    /// frame asks.
    ///
    /// An increment of zero is a protocol violation, not a no-op, and so is
    /// one above [`MAX_WINDOW_SIZE_INC`]: both fail with
    /// [`WindowSizeError::InvalidIncrement`]. A legal increment that would
    /// carry the window beyond [`MAX_WINDOW_SIZE`] fails with
    /// [`WindowSizeError::Overflow`]. A failed attempt leaves the window
    /// untouched.
    pub fn try_increase(&mut self, delta: u32) -> (r: Result<(), WindowSizeError>)
        ensures
            match increased(old(self)@, delta as int) {
                Ok(size) => r is Ok && final(self)@ == size,
                Err(e) => r == Err::<(), _>(e) && *final(self) == *old(self),
            },
            delta == 0 || delta > MAX_WINDOW_SIZE_INC ==> r == Err::<(), _>(
                WindowSizeError::InvalidIncrement,
            ) && *final(self) == *old(self),
    {
        if delta > MAX_WINDOW_SIZE_INC || delta == 0 {
            return Err(WindowSizeError::InvalidIncrement);
        }
        let candidate: i64 = self.0 as i64 + delta as i64;
        if candidate > MAX_WINDOW_SIZE as i64 {
            return Err(WindowSizeError::Overflow);
        }
        self.0 = candidate as i32;
        Ok(())
    }

    /// Tries to decrease the window by `delta` octets.
    ///
    /// There is no floor at zero: the window may legitimately become
    /// negative. The attempt fails, with [`WindowSizeError::Underflow`], only
    /// where the result does not fit the register, which means that the peers
    /// have lost sync. A failed attempt leaves the window untouched.
    pub fn try_decrease(&mut self, delta: i32) -> (r: Result<(), WindowSizeError>)
        ensures
            match decreased(old(self)@, delta as int) {
                Ok(size) => r is Ok && final(self)@ == size,
                Err(e) => r == Err::<(), _>(e) && *final(self) == *old(self),
            },
    {
        let candidate: i64 = self.0 as i64 - delta as i64;
        if candidate < i32::MIN as i64 || candidate > i32::MAX as i64 {
            return Err(WindowSizeError::Underflow);
        }
        self.0 = candidate as i32;
        Ok(())
    }

    /// Tries to decrease the window by `delta` octets where a negative window
    /// is never valid, as in local bookkeeping.
    ///
    /// The attempt fails with [`WindowSizeError::WouldGoNegative`] where the
    /// result would be negative, and as [`WindowSize::try_decrease`] fails
    /// where a negative `delta` would carry the result beyond the register. A
    /// failed attempt leaves the window untouched.
    pub fn try_decrease_to_positive(&mut self, delta: i32) -> (r: Result<(), WindowSizeError>)
        ensures
            match decreased_to_non_negative(old(self)@, delta as int) {
                Ok(size) => r is Ok && final(self)@ == size,
                Err(e) => r == Err::<(), _>(e) && *final(self) == *old(self),
            },
            r is Ok ==> final(self)@ >= 0,
    {
        let candidate: i64 = self.0 as i64 - delta as i64;
        if candidate < 0 {
            return Err(WindowSizeError::WouldGoNegative);
        }
        if candidate > i32::MAX as i64 {
            return Err(WindowSizeError::Underflow);
        }
        self.0 = candidate as i32;
        Ok(())
    }

    /// Returns the current size of the window, which may be negative.
    pub fn size(&self) -> (size: i32)
        ensures
            size == self@,
    {
        self.0
    }

    /// Returns the size of a window that is known not to be negative.
    ///
    /// To ask this of a negative window is a breach of a local invariant, not
    /// a fault of the peer, and the precondition rules it out. A caller that
    /// was not verified and asks it all the same is stopped rather than
    /// handed a wrapped value.
    pub fn unsigned(&self) -> (size: u32)
        requires
            self@ >= 0,
        ensures
            size == self@,
    {
        if self.0 < 0 {
            unreached()
        } else {
            self.0 as u32
        }
    }
}

/// An increment of zero, and one of 2^31 or more, is refused as invalid
/// whatever the window holds.
pub proof fn illegal_increment_is_refused(window: WindowSize, delta: u32)
    requires
        delta == 0 || delta >= 0x8000_0000u32,
    ensures
        increased(window@, delta as int) == Err::<int, _>(WindowSizeError::InvalidIncrement),
{
}

/// No mutation yields a size that the register of a window cannot hold: an
/// increase that succeeds ends above where it began and at or below
/// [`MAX_WINDOW_SIZE`], a decrease that succeeds ends within the register.
pub proof fn mutations_stay_in_range(window: WindowSize, credit: u32, debit: i32)
    ensures
        increased(window@, credit as int) matches Ok(size) ==> window@ < size <= MAX_WINDOW_SIZE,
        decreased(window@, debit as int) matches Ok(size) ==> i32::MIN <= size <= i32::MAX,
        decreased_to_non_negative(window@, debit as int) matches Ok(size) ==> 0 <= size
            <= i32::MAX,
{
}

/// A decrease that must not go negative succeeds exactly where the plain
/// decrease succeeds with a result of zero or more, and it then yields the
/// same size.
pub proof fn strict_decrease_agrees_with_decrease(window: WindowSize, delta: i32)
    ensures
        decreased_to_non_negative(window@, delta as int) is Ok <==> (decreased(
            window@,
            delta as int,
        ) matches Ok(size) && size >= 0),
        decreased_to_non_negative(window@, delta as int) is Ok ==> decreased_to_non_negative(
            window@,
            delta as int,
        ) == decreased(window@, delta as int),
{
}

} // verus!
