use vstd::prelude::*;

use crate::plan::{MACOS_MULTICAST_INTERFACE, Platform};

verus! {

/// How many interface indices a search tries by default.
pub const INTERFACE_SEARCH_LIMIT: u32 = 32;

/// The interface indices to try, in order: macOS goes through its fixed
/// interface, other platforms count up from 0 to `limit - 1`.
pub open spec fn candidates_of(platform: Platform, limit: u32) -> Seq<u32> {
    match platform {
        Platform::MacOs => seq![MACOS_MULTICAST_INTERFACE],
        _ => Seq::new(limit as nat, |i: int| i as u32),
    }
}

pub fn interface_candidates(platform: Platform, limit: u32) -> (r: Vec<u32>)
    ensures
        r@ == candidates_of(platform, limit),
{
    match platform {
        Platform::MacOs => vec![MACOS_MULTICAST_INTERFACE],
        _ => {
            let mut r: Vec<u32> = Vec::new();
            let mut i: u32 = 0;
            while i < limit
                invariant
                    i <= limit,
                    r@ =~= Seq::new(i as nat, |k: int| k as u32),
                decreases limit - i,
            {
                r.push(i);
                i = i + 1;
            }
            r
        },
    }
}

/// What came of setting up a socket on one interface.
#[derive(Clone, Copy, Debug, PartialEq, Eq, Structural)]
pub enum AttemptOutcome {
    Bound,
    /// The platform reported the address as already in use: this interface
    /// is not the one, the next may be.
    AddressInUse,
    /// Any other failure.
    Failed,
}

/// Where a search stands.
#[derive(Clone, Copy, Debug, PartialEq, Eq, Structural)]
pub enum SearchStatus {
    /// The candidate at the current position is to be tried next.
    Searching,
    /// The socket was set up on this interface.
    Found(u32),
    /// Every candidate reported the address in use (or there was none).
    Exhausted,
    /// Setting up on this interface failed in a way that ends the search.
    Failed(u32),
}

/// A bounded search over candidate interfaces for one that a multicast
/// socket can be set up on, trying them in order.
pub struct InterfaceSearch {
    candidates: Vec<u32>,
    position: usize,
    status: SearchStatus,
}

impl InterfaceSearch {
    pub closed spec fn candidates(&self) -> Seq<u32> {
        self.candidates@
    }

    /// Index of the candidate under trial, or of the last one tried.
    pub closed spec fn position(&self) -> nat {
        self.position as nat
    }

    pub closed spec fn status_of(&self) -> SearchStatus {
        self.status
    }

    pub open spec fn wf(&self) -> bool {
        self.status_of() is Searching ==> self.position() < self.candidates().len()
    }

    /// A search that starts with the first candidate.
    pub fn new(candidates: Vec<u32>) -> (r: InterfaceSearch)
        ensures
            r.wf(),
            r.candidates() == candidates@,
            r.position() == 0,
            r.status_of() == (if candidates@.len() > 0 {
                SearchStatus::Searching
            } else {
                SearchStatus::Exhausted
            }),
    {
        let status = if candidates.len() > 0 {
            SearchStatus::Searching
        } else {
            SearchStatus::Exhausted
        };
        InterfaceSearch { candidates, position: 0, status }
    }

    pub fn status(&self) -> (r: SearchStatus)
        ensures
            r == self.status_of(),
    {
        self.status
    }

    /// The interface to try next, while the search goes on.
    pub fn current(&self) -> (r: Option<u32>)
        requires
            self.wf(),
        ensures
            self.status_of() is Searching ==> r == Some(self.candidates()[self.position() as int]),
            !(self.status_of() is Searching) ==> r is None,
    {
        match self.status {
            SearchStatus::Searching => Some(self.candidates[self.position]),
            _ => None,
        }
    }

    /// Records what came of trying the current candidate. A bound socket
    /// ends the search with that interface; an address in use moves on to
    /// the next candidate, and past the last one the search is exhausted;
    /// any other failure ends it.
    pub fn report(&mut self, outcome: AttemptOutcome)
        requires
            old(self).wf(),
            old(self).status_of() is Searching,
        ensures
            final(self).wf(),
            final(self).candidates() == old(self).candidates(),
            ({
                let tried = old(self).candidates()[old(self).position() as int];
                let next = old(self).position() + 1;
                match outcome {
                    AttemptOutcome::Bound => final(self).status_of() == SearchStatus::Found(tried)
                        && final(self).position() == old(self).position(),
                    AttemptOutcome::Failed => final(self).status_of() == SearchStatus::Failed(tried)
                        && final(self).position() == old(self).position(),
                    AttemptOutcome::AddressInUse => if next < old(self).candidates().len() {
                        final(self).status_of() is Searching && final(self).position() == next
                    } else {
                        final(self).status_of() == SearchStatus::Exhausted
                            && final(self).position() == old(self).position()
                    },
                }
            }),
    {
        let tried = self.candidates[self.position];
        match outcome {
            AttemptOutcome::Bound => {
                self.status = SearchStatus::Found(tried);
            },
            AttemptOutcome::Failed => {
                self.status = SearchStatus::Failed(tried);
            },
            AttemptOutcome::AddressInUse => {
                if self.position < self.candidates.len() - 1 {
                    self.position = self.position + 1;
                } else {
                    self.status = SearchStatus::Exhausted;
                }
            },
        }
    }
}

} // verus!
