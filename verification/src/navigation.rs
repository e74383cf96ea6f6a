use vstd::prelude::*;

verus! {

/// Seconds after which the status on screen is fetched again.
pub const UPDATE_INTERVAL_SECS: u64 = 10;

/// The value of `idx as isize`: `idx` read as a two's-complement number.
pub open spec fn signed_index(idx: usize) -> int {
    if idx <= isize::MAX {
        idx as int
    } else {
        idx - (usize::MAX as int + 1)
    }
}

/// Whether `idx as isize + amt as isize` stays within `isize`, which
/// `add_idx` needs whenever it moves at all.
pub open spec fn shift_defined(idx: usize, amt: i8, len: nat) -> bool {
    len < 2 || isize::MIN <= signed_index(idx) + amt <= isize::MAX
}

/// The 1-based position reached from `idx` by moving `amt` places through
/// a list of `len` entries: a move below the first entry lands on the last,
/// a move past the last lands on the first; lists of fewer than two entries
/// keep `idx` as it is.
pub open spec fn stepped_index(idx: usize, amt: i8, len: nat) -> int {
    if len < 2 {
        idx as int
    } else {
        let moved = signed_index(idx) + amt;
        let n = if moved < 0 { 0 } else { moved };
        if n == 0 {
            len as int
        } else if n > len {
            1
        } else {
            n
        }
    }
}

/// Moves the 1-based position `idx` by `amt` places through `servers`,
/// wrapping around at both ends.
pub fn add_idx<T>(idx: &mut usize, amt: i8, servers: &[T])
    requires
        shift_defined(*old(idx), amt, servers@.len()),
    ensures
        *final(idx) == stepped_index(*old(idx), amt, servers@.len()),
{
    if servers.len() < 2 {
        return;
    }
    let signed: isize = if *idx <= isize::MAX as usize {
        *idx as isize
    } else {
        -((usize::MAX - *idx) as isize) - 1
    };
    let moved: isize = signed + amt as isize;
    let new_idx: usize = if moved < 0 {
        0
    } else {
        moved as usize
    };
    *idx = if new_idx == 0 {
        servers.len()
    } else if new_idx > servers.len() {
        1
    } else {
        new_idx
    };
}

/// The keys of interest pressed during one frame.
#[derive(Clone, Copy, Debug, PartialEq, Eq, Structural)]
pub struct Keys {
    /// START or Y: leave the viewer.
    pub quit: bool,
    /// D-pad right: show the next server.
    pub right: bool,
    /// D-pad left: show the previous server.
    pub left: bool,
}

/// What the viewer does after a frame's input has been read.
#[derive(Clone, Copy, Debug, PartialEq, Eq, Structural)]
pub enum Step {
    /// Leave the main loop.
    Quit,
    /// Fetch the status of the server at the (possibly moved) position.
    Fetch,
    /// Keep the status on screen.
    Stay,
}

/// The step that one frame leads to: quitting takes precedence over moving
/// right, which takes precedence over moving left; with no key, the status is
/// fetched again once `UPDATE_INTERVAL_SECS` have passed since the last fetch.
pub open spec fn spec_step(keys: Keys, secs_since_fetch: u64) -> Step {
    if keys.quit {
        Step::Quit
    } else if keys.right || keys.left || secs_since_fetch >= UPDATE_INTERVAL_SECS {
        Step::Fetch
    } else {
        Step::Stay
    }
}

/// The position after one frame: moved by one for a right or left press
/// (right first), unchanged otherwise.
pub open spec fn spec_step_index(idx: usize, keys: Keys, len: nat) -> int {
    if keys.quit {
        idx as int
    } else if keys.right {
        stepped_index(idx, 1i8, len)
    } else if keys.left {
        stepped_index(idx, -1i8, len)
    } else {
        idx as int
    }
}

/// Decides one frame of the viewer: reads the pressed keys and the whole
/// seconds since the last fetch, moves `idx` through `servers` and says
/// whether to quit, fetch or keep the screen.
pub fn step<T>(idx: &mut usize, keys: Keys, secs_since_fetch: u64, servers: &[T]) -> (s: Step)
    requires
        !keys.quit && keys.right ==> shift_defined(*old(idx), 1i8, servers@.len()),
        !keys.quit && !keys.right && keys.left ==> shift_defined(*old(idx), -1i8, servers@.len()),
    ensures
        s == spec_step(keys, secs_since_fetch),
        *final(idx) == spec_step_index(*old(idx), keys, servers@.len()),
{
    if keys.quit {
        Step::Quit
    } else if keys.right {
        add_idx(idx, 1, servers);
        Step::Fetch
    } else if keys.left {
        add_idx(idx, -1, servers);
        Step::Fetch
    } else if secs_since_fetch >= UPDATE_INTERVAL_SECS {
        Step::Fetch
    } else {
        Step::Stay
    }
}

/// A valid 1-based position stays valid under any move, and in a list of
/// at least two entries every move, from any position, lands on a valid one.
pub proof fn lemma_index_stays_valid(idx: usize, amt: i8, len: nat)
    requires
        shift_defined(idx, amt, len),
        len >= 2 || 1 <= idx <= len,
    ensures
        1 <= stepped_index(idx, amt, len) <= len,
{
}

/// Moving one place forward and then one place back (or back, then
/// forward) returns to the starting position.
pub proof fn lemma_next_then_previous(idx: usize, len: nat)
    requires
        1 <= idx <= len,
        len <= isize::MAX,
    ensures
        stepped_index(stepped_index(idx, 1i8, len) as usize, -1i8, len) == idx,
        stepped_index(stepped_index(idx, -1i8, len) as usize, 1i8, len) == idx,
{
}

/// The viewer never leaves a valid position: one frame from a valid
/// position ends on a valid position.
pub proof fn lemma_step_keeps_index_valid(idx: usize, keys: Keys, len: nat)
    requires
        1 <= idx <= len,
        !keys.quit && keys.right ==> shift_defined(idx, 1i8, len),
        !keys.quit && !keys.right && keys.left ==> shift_defined(idx, -1i8, len),
    ensures
        1 <= spec_step_index(idx, keys, len) <= len,
{
    if !keys.quit && keys.right {
        lemma_index_stays_valid(idx, 1i8, len);
    } else if !keys.quit && keys.left {
        lemma_index_stays_valid(idx, -1i8, len);
    }
}

/// Moving right from a valid position in a list of at least two entries
/// goes to the next entry, and from the last entry to the first; moving left
/// goes to the previous entry, and from the first entry to the last.
pub proof fn lemma_move_by_one(idx: usize, len: nat)
    requires
        len >= 2,
        len <= isize::MAX,
        1 <= idx <= len,
    ensures
        idx < len ==> stepped_index(idx, 1i8, len) == idx + 1,
        idx == len ==> stepped_index(idx, 1i8, len) == 1,
        idx > 1 ==> stepped_index(idx, -1i8, len) == idx - 1,
        idx == 1 ==> stepped_index(idx, -1i8, len) == len,
{
}

/// One frame from a valid position: a right press (without quit, whatever
/// the left key) moves to the next entry, wrapping from the last to the
/// first; a left press alone moves to the previous entry, wrapping from the
/// first to the last; quitting or pressing no direction keeps the position.
/// Lists of fewer than two entries never move.
pub proof fn lemma_frame_moves(idx: usize, keys: Keys, len: nat)
    requires
        len <= isize::MAX,
        1 <= idx <= len,
    ensures
        keys.quit ==> spec_step_index(idx, keys, len) == idx,
        !keys.quit && !keys.right && !keys.left ==> spec_step_index(idx, keys, len) == idx,
        len < 2 ==> spec_step_index(idx, keys, len) == idx,
        len >= 2 && !keys.quit && keys.right ==> spec_step_index(idx, keys, len) == (if idx < len {
            idx + 1
        } else {
            1
        }),
        len >= 2 && !keys.quit && !keys.right && keys.left ==> spec_step_index(idx, keys, len) == (
        if idx > 1 {
            idx - 1
        } else {
            len as int
        }),
        !keys.quit && (keys.right || keys.left) ==> spec_step(keys, 0) == Step::Fetch,
{
    if len >= 2 {
        lemma_move_by_one(idx, len);
    }
}

} // verus!
