//! The paginated event fetcher.
//!
//! A fetch walks a time window page by page: each page's query covers
//! `[cursor, window_end)`, its events are appended in the order given (pages
//! arrive internally time-ordered from the remote), and the cursor advances
//! to the page's continuation timestamp. The fetch stops when the remote
//! stops supplying a cursor or the cursor reaches the window's end. The
//! driver that actually issues each query lives outside the library; it asks
//! [`EventFetcher::next_request`] what to send and hands each page to
//! [`EventFetcher::apply_page`].

use vstd::prelude::*;

use crate::events::Event;

verus! {

/// One page of the event stream: the page's events in the remote's order and
/// the timestamp to continue from, if the remote supplies one.
#[derive(Clone, PartialEq, Eq, Debug)]
pub struct PageResult {
    pub events: Vec<Event>,
    pub next_cursor: Option<i64>,
}

/// The query for one page: events in `[start_time, end_time)` scoped to one
/// fight.
#[derive(Clone, Copy, PartialEq, Eq, Structural, Debug)]
pub struct PageRequest {
    pub start_time: i64,
    pub end_time: i64,
    pub fight_id: i64,
}

/// State of one fetch across a time window. The fields are read by the
/// driver; they are mutated only through [`EventFetcher::apply_page`].
#[derive(Debug)]
pub struct EventFetcher {
    /// Start of the next page, advanced to each page's continuation cursor.
    pub cursor: i64,
    /// Exclusive end of the fetched window.
    pub window_end: i64,
    /// The fight every page is scoped to.
    pub fight_id: i64,
    /// Whether the remote stopped supplying a continuation cursor.
    pub finished: bool,
    /// All events fetched so far, in arrival order.
    pub events: Vec<Event>,
}

impl EventFetcher {
    /// Starts a fetch of the window `[window_start, window_end)` for one
    /// fight.
    pub fn new(window_start: i64, window_end: i64, fight_id: i64) -> (f: Self)
        ensures
            f.cursor == window_start,
            f.window_end == window_end,
            f.fight_id == fight_id,
            !f.finished,
            f.events@ == Seq::<Event>::empty(),
    {
        EventFetcher {
            cursor: window_start,
            window_end,
            fight_id,
            finished: false,
            events: Vec::new(),
        }
    }

    /// The next page to request, or `None` exactly when the fetch is done:
    /// the remote stopped supplying a cursor, or the cursor reached the end
    /// of the window.
    pub fn next_request(&self) -> (r: Option<PageRequest>)
        ensures
            r is Some <==> (!self.finished && self.cursor < self.window_end),
            r is Some ==> r->0 == (PageRequest {
                start_time: self.cursor,
                end_time: self.window_end,
                fight_id: self.fight_id,
            }),
    {
        if !self.finished && self.cursor < self.window_end {
            Some(PageRequest {
                start_time: self.cursor,
                end_time: self.window_end,
                fight_id: self.fight_id,
            })
        } else {
            None
        }
    }

    /// Folds one returned page into the fetch: appends its events in order
    /// and either advances the cursor to the page's continuation timestamp or
    /// finishes the fetch.
    pub fn apply_page(&mut self, page: PageResult)
        requires
            !old(self).finished,
            old(self).cursor < old(self).window_end,
        ensures
            final(self).events@ == old(self).events@ + page.events@,
            final(self).window_end == old(self).window_end,
            final(self).fight_id == old(self).fight_id,
            match page.next_cursor {
                Some(c) => final(self).cursor == c && !final(self).finished,
                None => final(self).finished && final(self).cursor == old(self).cursor,
            },
    {
        let mut page = page;
        self.events.append(&mut page.events);
        match page.next_cursor {
            Some(c) => {
                self.cursor = c;
            },
            None => {
                self.finished = true;
            },
        }
    }

    /// Hands out the accumulated, time-ordered event sequence.
    pub fn into_events(self) -> (evs: Vec<Event>)
        ensures
            evs@ == self.events@,
    {
        self.events
    }
}

} // verus!
