//! Kitty ids: a counter that starts at zero, hands out its value and moves up
//! by one, and refuses once it has reached `u32::MAX`.

use crate::error::Error;
use vstd::prelude::*;

verus! {

/// The counter after a request made at `next_id`, and the answer to the
/// request. Below `u32::MAX` the answer is `next_id` itself and the counter
/// moves up by one; at `u32::MAX` the request is refused and the counter
/// stays.
pub open spec fn allocate(next_id: u32) -> (u32, Result<u32, Error>) {
    if next_id < u32::MAX {
        ((next_id + 1) as u32, Ok(next_id))
    } else {
        (next_id, Err(Error::KittiesIdOverflow))
    }
}

/// Takes the next id from a counter held by the caller.
pub fn get_next_kitty_id(next_id: &mut u32) -> (current_id: Result<u32, Error>)
    ensures
        (*final(next_id), current_id) == allocate(*old(next_id)),
{
    let current_id = *next_id;
    match current_id.checked_add(1) {
        Some(n) => {
            *next_id = n;
            Ok(current_id)
        },
        None => Err(Error::KittiesIdOverflow),
    }
}

/// An id counter of its own. It can only move up.
pub struct IdAllocator {
    next_id: u32,
}

impl View for IdAllocator {
    type V = u32;

    /// The id that the next successful request returns.
    closed spec fn view(&self) -> u32 {
        self.next_id
    }
}

impl IdAllocator {
    /// A counter at zero.
    pub fn new() -> (ids: IdAllocator)
        ensures
            ids@ == 0,
    {
        IdAllocator { next_id: 0 }
    }

    /// A counter that goes on from `next_id`, for a host that has handed out
    /// the ids below it before.
    pub fn starting_at(next_id: u32) -> (ids: IdAllocator)
        ensures
            ids@ == next_id,
    {
        IdAllocator { next_id }
    }

    /// Hands out the next id, or refuses and stays as it was.
    pub fn next(&mut self) -> (current_id: Result<u32, Error>)
        ensures
            (final(self)@, current_id) == allocate(old(self)@),
    {
        get_next_kitty_id(&mut self.next_id)
    }

    /// The id that the next successful request returns.
    pub fn next_id(&self) -> (next_id: u32)
        ensures
            next_id == self@,
    {
        self.next_id
    }
}

} // verus!
