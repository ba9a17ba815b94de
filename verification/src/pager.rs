//! The CLI pager's state machine.
//!
//! The terminal front end shows stored commands ten to a page and walks
//! them with the arrow keys.  Which records a page holds and how a key
//! moves the pager are decisions, verified here; the terminal itself is
//! driven by the application.

use vstd::prelude::*;

verus! {

/// How many commands one page shows.
pub const PAGE_SIZE: usize = 10;

/// How many pages a listing of `n_commands` records has: at least one,
/// even when empty.
pub open spec fn pages_for(n_commands: nat) -> nat {
    if n_commands == 0 {
        1
    } else {
        ((n_commands - 1) / (PAGE_SIZE as int) + 1) as nat
    }
}

/// The number of pages for a listing.
pub fn total_pages(n_commands: usize) -> (n: usize)
    ensures
        n as nat == pages_for(n_commands as nat),
        n >= 1,
{
    if n_commands == 0 {
        1
    } else {
        (n_commands - 1) / PAGE_SIZE + 1
    }
}

/// A key press, as the pager distinguishes them: quit (`q` or escape),
/// advance (down, right or enter), or anything else.
#[derive(Clone, Copy, Debug, PartialEq, Eq, Structural)]
pub enum PagerKey {
    Quit,
    Advance,
    Other,
}

/// The pager over one listing: the page shown, how many pages there
/// are, and whether the page must be redrawn.
#[derive(Clone, Copy, Debug, PartialEq, Eq, Structural)]
pub struct Pager {
    pub current_page: usize,
    pub total_pages: usize,
    pub display: bool,
}

impl Pager {
    /// A pager is always on an existing page.
    pub open spec fn wf(self) -> bool {
        1 <= self.total_pages && self.current_page < self.total_pages
    }

    /// Whether this pager fits a listing of `n_commands` records.
    pub open spec fn fits(self, n_commands: nat) -> bool {
        self.total_pages as nat == pages_for(n_commands)
    }

    /// A pager opened on the first page of a listing, ready to draw.
    pub fn new(n_commands: usize) -> (p: Pager)
        ensures
            p.wf(),
            p.fits(n_commands as nat),
            p.current_page == 0,
            p.display,
    {
        Pager { current_page: 0, total_pages: total_pages(n_commands), display: true }
    }

    /// The half-open range of record indices the current page shows:
    /// ten records from the page's start, clipped to the listing.
    pub fn page_bounds(&self, n_commands: usize) -> (r: (usize, usize))
        requires
            self.wf(),
            self.fits(n_commands as nat),
        ensures
            r.0 == self.current_page * PAGE_SIZE,
            r.1 as int == if r.0 + PAGE_SIZE <= n_commands {
                r.0 + PAGE_SIZE
            } else {
                n_commands as int
            },
            r.0 <= r.1 <= n_commands,
    {
        proof {
            if n_commands > 0 {
                vstd::arithmetic::div_mod::lemma_fundamental_div_mod(
                    n_commands - 1,
                    PAGE_SIZE as int,
                );
                vstd::arithmetic::div_mod::lemma_mod_division_less_than_divisor(
                    n_commands - 1,
                    PAGE_SIZE as int,
                );
            }
        }
        let start = self.current_page * PAGE_SIZE;
        if n_commands - start > PAGE_SIZE {
            (start, start + PAGE_SIZE)
        } else {
            (start, n_commands)
        }
    }

    /// Applies one key press.  Quit asks to leave; advance moves one
    /// page forward when a next page exists and otherwise only stops
    /// drawing; any other key stops drawing.  The page count never
    /// changes.
    pub fn handle_key(&mut self, key: PagerKey) -> (quit: bool)
        requires
            old(self).wf(),
        ensures
            final(self).wf(),
            final(self).total_pages == old(self).total_pages,
            key == PagerKey::Quit ==> quit && *final(self) == *old(self),
            key == PagerKey::Advance && old(self).current_page + 1 < old(self).total_pages ==> (
            !quit && final(self).current_page == old(self).current_page + 1 && final(self).display),
            key == PagerKey::Advance && old(self).current_page + 1 >= old(self).total_pages ==> (
            !quit && final(self).current_page == old(self).current_page && !final(self).display),
            key == PagerKey::Other ==> (!quit && final(self).current_page == old(
                self,
            ).current_page && !final(self).display),
    {
        match key {
            PagerKey::Quit => true,
            PagerKey::Advance => {
                if self.current_page + 1 < self.total_pages {
                    self.display = true;
                    self.current_page = self.current_page + 1;
                } else {
                    self.display = false;
                }
                false
            },
            PagerKey::Other => {
                self.display = false;
                false
            },
        }
    }
}

} // verus!
