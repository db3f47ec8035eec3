//! The execution context: the identity of the running component, its clock,
//! and the append-only channel on which it publishes.

use vstd::prelude::*;
use soroban_sdk::Address;
use crate::envelope::{Published, PublishedView};

verus! {

/// What an [`ExecutionContext`] stands for.
pub struct ContextView {
    /// The identity of the running component.
    pub identity: Address,
    /// The current clock value.
    pub time: u64,
    /// Everything published so far, oldest first.
    pub published: Seq<PublishedView>,
}

impl ContextView {
    /// The context after one more record was published.
    pub open spec fn publish(self, record: PublishedView) -> ContextView {
        ContextView { published: self.published.push(record), ..self }
    }

    /// The context after the clock was set to `now`. The clock never runs
    /// backwards: an earlier `now` changes nothing.
    pub open spec fn advance(self, now: u64) -> ContextView {
        if now >= self.time {
            ContextView { time: now, ..self }
        } else {
            self
        }
    }
}

/// What a sequence of records stands for, position by position.
pub open spec fn record_views(records: Seq<Published>) -> Seq<PublishedView> {
    Seq::new(records.len(), |i: int| records[i]@)
}

/// One unit of work as the library sees it: who is running, what time it
/// is, and what was published.
#[derive(Debug, PartialEq, Eq)]
pub struct ExecutionContext {
    identity: Address,
    time: u64,
    published: Vec<Published>,
}

impl View for ExecutionContext {
    type V = ContextView;

    closed spec fn view(&self) -> ContextView {
        ContextView {
            identity: self.identity,
            time: self.time,
            published: record_views(self.published@),
        }
    }
}

impl ExecutionContext {
    /// A context for the component `identity` at clock value `time`, with
    /// nothing published yet.
    pub fn new(identity: Address, time: u64) -> (ctx: ExecutionContext)
        ensures
            ctx@ == (ContextView { identity, time, published: Seq::empty() }),
    {
        let ctx = ExecutionContext { identity, time, published: Vec::new() };
        assert(record_views(ctx.published@) =~= Seq::empty());
        ctx
    }

    /// The identity of the running component.
    pub fn current_identity(&self) -> (identity: &Address)
        ensures
            *identity == self@.identity,
    {
        &self.identity
    }

    /// The current clock value.
    pub fn current_time(&self) -> (time: u64)
        ensures
            time == self@.time,
    {
        self.time
    }

    /// Sets the clock to `now` if that is not earlier than the current
    /// value, and says whether it did.
    pub fn advance_time(&mut self, now: u64) -> (advanced: bool)
        ensures
            advanced == (now >= old(self)@.time),
            final(self)@ == old(self)@.advance(now),
    {
        if now >= self.time {
            self.time = now;
            true
        } else {
            false
        }
    }

    /// Everything published so far, oldest first.
    pub fn published(&self) -> (records: &Vec<Published>)
        ensures
            record_views(records@) == self@.published,
    {
        &self.published
    }

    /// Hands one record to the channel.
    pub(crate) fn publish(&mut self, record: Published)
        ensures
            final(self)@ == old(self)@.publish(record@),
    {
        self.published.push(record);
        assert(record_views(self.published@) =~= record_views(old(self).published@).push(record@));
    }
}

} // verus!
