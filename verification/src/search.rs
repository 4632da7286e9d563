//! Walking the subvolumes beneath a path: the decisions of the enumeration,
//! one search reply at a time. The caller performs each search that the
//! enumeration asks for and hands the reply back.

use vstd::prelude::*;
use crate::error::Error;
use crate::error::OK;
use crate::error::SEARCH_FAILED;
use crate::error::STOP_ITERATION;
use crate::path::c_path;
use crate::path::is_clean;
use crate::path::TERMINATOR;

verus! {

/// The cursor of a fresh enumeration: the origin of the tree.
pub const TREE_ORIGIN: u64 = 0;

/// The number of records that one search is asked for at most.
pub const BATCH_CAPACITY: usize = 4096;

/// A subvolume found by the enumeration: its id and its path, in the
/// filesystem's own bytes.
#[derive(Debug, Clone, PartialEq, Eq)]
pub struct SubvolumePathRecord {
    pub id: u64,
    pub path: Vec<u8>,
}

/// One search of the tree, as the channel takes it.
#[derive(Debug)]
pub struct SearchRequest {
    /// The terminated path under which to search.
    pub path: Vec<u8>,
    /// The key at which to start.
    pub cursor: u64,
    /// The most records to send back.
    pub capacity: usize,
}

/// What the channel sends back for one search.
#[derive(Debug)]
pub struct SearchReply {
    /// The records found, in the order of their keys.
    pub records: Vec<SubvolumePathRecord>,
    /// The key just behind the last record.
    pub next_cursor: u64,
    pub status: Error,
}

/// Where an enumeration stands.
#[derive(Debug, Clone, Copy, PartialEq, Eq, Structural)]
pub enum Phase {
    /// No reply was taken in yet.
    Created,
    /// At least one batch was taken in.
    Active,
    /// The channel has no more to give.
    Exhausted,
    /// The channel has failed.
    Failed,
}

/// What a reply means to an enumeration whose cursor is `cursor`.
pub enum Verdict {
    /// Records to hand on, and a cursor further on.
    Batch,
    /// The end of the sequence.
    End,
    /// A failure to surface.
    Fail(Error),
}

/// A reply ends the sequence when its status is `STOP_ITERATION`, or `OK`
/// with no record. Any other status but `OK` is a failure with that status,
/// and the records beside it count for nothing. A reply with records whose
/// cursor is not beyond the one asked from would have the same keys searched
/// again: it is a failed search.
pub open spec fn classify(cursor: u64, reply: SearchReply) -> Verdict {
    if reply.status.0 == STOP_ITERATION {
        Verdict::End
    } else if reply.status.0 != OK {
        Verdict::Fail(reply.status)
    } else if reply.records@.len() == 0 {
        Verdict::End
    } else if reply.next_cursor <= cursor {
        Verdict::Fail(Error(SEARCH_FAILED))
    } else {
        Verdict::Batch
    }
}

/// What the enumeration has its caller do next.
#[derive(Debug)]
pub enum Step {
    /// Here is the next subvolume.
    Yield(SubvolumePathRecord),
    /// Perform this search and feed the reply.
    Fetch(SearchRequest),
    /// The sequence is over.
    Done,
}

/// An enumeration of the subvolumes beneath a path.
#[derive(Debug)]
pub struct SubvolumeIterator {
    path: Vec<u8>,
    phase: Phase,
    cursor: u64,
    pending: Vec<SubvolumePathRecord>,
}

impl SubvolumeIterator {
    /// The terminated path that every request carries.
    pub closed spec fn path(&self) -> Seq<u8> {
        self.path@
    }

    pub closed spec fn phase(&self) -> Phase {
        self.phase
    }

    /// The key from which the next search starts.
    pub closed spec fn cursor(&self) -> u64 {
        self.cursor
    }

    /// The records taken in and not yet handed on, oldest first.
    pub closed spec fn pending(&self) -> Seq<SubvolumePathRecord> {
        self.pending@
    }

    pub open spec fn is_terminal(&self) -> bool {
        self.phase() is Exhausted || self.phase() is Failed
    }

    /// A fresh enumeration stands at the origin with nothing pending, and an
    /// ended one has handed on all it had.
    pub open spec fn wf(&self) -> bool {
        &&& self.phase() is Created ==> self.cursor() == TREE_ORIGIN
        &&& !(self.phase() is Active) ==> self.pending().len() == 0
    }

    /// The next step is a search.
    pub open spec fn awaits_reply(&self) -> bool {
        !self.is_terminal() && self.pending().len() == 0
    }

    /// A fresh enumeration beneath `path`, unless the path holds a
    /// terminator of its own.
    pub fn new(path: &[u8]) -> (r: Option<SubvolumeIterator>)
        ensures
            r is Some <==> is_clean(path@),
            r matches Some(it) ==> it.wf() && it.phase() is Created && it.cursor() == TREE_ORIGIN
                && it.pending().len() == 0 && it.path() == path@.push(TERMINATOR),
    {
        match c_path(path) {
            Some(bytes) => Some(
                SubvolumeIterator {
                    path: bytes,
                    phase: Phase::Created,
                    cursor: TREE_ORIGIN,
                    pending: Vec::new(),
                },
            ),
            None => None,
        }
    }

    /// Where the enumeration stands.
    pub fn state(&self) -> (p: Phase)
        ensures
            p == self.phase(),
    {
        self.phase
    }

    /// The search to perform next: from the cursor, for at most
    /// `BATCH_CAPACITY` records.
    pub fn request(&self) -> (req: SearchRequest)
        ensures
            req.path@ == self.path(),
            req.cursor == self.cursor(),
            req.capacity == BATCH_CAPACITY,
    {
        let path = self.path.clone();
        assert(path@ =~= self.path@);
        SearchRequest { path, cursor: self.cursor, capacity: BATCH_CAPACITY }
    }

    /// The next step. A pending record is handed on, oldest first. With none
    /// pending, an ended enumeration is done, and any other asks for a search.
    pub fn poll(&mut self) -> (step: Step)
        requires
            old(self).wf(),
        ensures
            final(self).wf(),
            final(self).path() == old(self).path(),
            final(self).phase() == old(self).phase(),
            final(self).cursor() == old(self).cursor(),
            old(self).pending().len() > 0 ==> {
                &&& step == Step::Yield(old(self).pending()[0])
                &&& final(self).pending() == old(self).pending().drop_first()
            },
            old(self).pending().len() == 0 ==> final(self).pending() == old(self).pending(),
            old(self).awaits_reply() ==> {
                &&& step matches Step::Fetch(req)
                &&& req.path@ == old(self).path()
                &&& req.cursor == old(self).cursor()
                &&& req.capacity == BATCH_CAPACITY
            },
            old(self).is_terminal() ==> step is Done,
    {
        if self.pending.len() > 0 {
            let record = self.pending.remove(0);
            assert(self.pending@ =~= old(self).pending@.drop_first());
            Step::Yield(record)
        } else {
            match self.phase {
                Phase::Exhausted | Phase::Failed => Step::Done,
                _ => Step::Fetch(self.request()),
            }
        }
    }

    /// Takes in the reply to the search that `request` described. While the
    /// enumeration awaits no reply it changes nothing. Else a batch becomes
    /// the pending records and moves the cursor on, an end exhausts the
    /// enumeration, and a failure is returned, this once, and ends it too.
    pub fn feed(&mut self, reply: SearchReply) -> (surfaced: Option<Error>)
        requires
            old(self).wf(),
        ensures
            final(self).wf(),
            final(self).path() == old(self).path(),
            final(self).cursor() >= old(self).cursor(),
            !old(self).awaits_reply() ==> {
                &&& surfaced is None
                &&& final(self).phase() == old(self).phase()
                &&& final(self).cursor() == old(self).cursor()
                &&& final(self).pending() == old(self).pending()
            },
            old(self).awaits_reply() ==> match classify(old(self).cursor(), reply) {
                Verdict::Batch => {
                    &&& surfaced is None
                    &&& final(self).phase() is Active
                    &&& final(self).cursor() == reply.next_cursor
                    &&& final(self).cursor() > old(self).cursor()
                    &&& final(self).pending() == reply.records@
                },
                Verdict::End => {
                    &&& surfaced is None
                    &&& final(self).phase() is Exhausted
                    &&& final(self).cursor() == old(self).cursor()
                    &&& final(self).pending().len() == 0
                },
                Verdict::Fail(e) => {
                    &&& surfaced == Some(e)
                    &&& final(self).phase() is Failed
                    &&& final(self).cursor() == old(self).cursor()
                    &&& final(self).pending().len() == 0
                },
            },
    {
        if self.pending.len() > 0 {
            return None;
        }
        match self.phase {
            Phase::Exhausted | Phase::Failed => {
                return None;
            },
            _ => {},
        }
        if reply.status.0 == STOP_ITERATION {
            self.phase = Phase::Exhausted;
            None
        } else if reply.status.0 != OK {
            self.phase = Phase::Failed;
            Some(reply.status)
        } else if reply.records.len() == 0 {
            self.phase = Phase::Exhausted;
            None
        } else if reply.next_cursor <= self.cursor {
            self.phase = Phase::Failed;
            Some(Error(SEARCH_FAILED))
        } else {
            self.phase = Phase::Active;
            self.cursor = reply.next_cursor;
            self.pending = reply.records;
            None
        }
    }

    /// What is still to come from this enumeration when the replies to its
    /// searches are `replies`: what is pending, then what the replies bring.
    pub open spec fn to_come(&self, replies: Seq<SearchReply>) -> Seq<
        Result<SubvolumePathRecord, Error>,
    > {
        if self.is_terminal() {
            Seq::empty()
        } else {
            pulled_ok(self.pending()) + pulled(self.cursor(), replies)
        }
    }

    /// Pulls every element against replies that are already at hand, taking
    /// them in their order for as long as the enumeration asks for one.
    pub fn run(self, replies: Vec<SearchReply>) -> (items: Vec<Result<SubvolumePathRecord, Error>>)
        requires
            self.wf(),
        ensures
            items@ == self.to_come(replies@),
    {
        let ghost goal = self.to_come(replies@);
        let mut iter = self;
        let mut rest = replies;
        let mut items: Vec<Result<SubvolumePathRecord, Error>> = Vec::new();
        loop
            invariant
                iter.wf(),
                items@ + iter.to_come(rest@) == goal,
                goal == self.to_come(replies@),
            decreases rest.len(), iter.pending().len(),
        {
            let ghost before = iter;
            match iter.poll() {
                Step::Yield(found) => {
                    proof {
                        assert(pulled_ok(before.pending()) =~= seq![
                            Ok::<SubvolumePathRecord, Error>(found),
                        ] + pulled_ok(iter.pending()));
                        assert(items@.push(Ok(found)) + iter.to_come(rest@) =~= items@
                            + before.to_come(rest@));
                    }
                    items.push(Ok(found));
                },
                Step::Done => {
                    assert(items@ + Seq::<Result<SubvolumePathRecord, Error>>::empty() =~= items@);
                    return items;
                },
                Step::Fetch(_) => {
                    assert(pulled_ok(iter.pending()) =~= Seq::<
                        Result<SubvolumePathRecord, Error>,
                    >::empty());
                    if rest.len() == 0 {
                        assert(items@ + iter.to_come(rest@) =~= items@);
                        return items;
                    }
                    let ghost script = rest@;
                    let reply = rest.remove(0);
                    assert(rest@ =~= script.drop_first());
                    assert(script[0] == reply);
                    match iter.feed(reply) {
                        Some(e) => {
                            assert(items@.push(Err(e)) + iter.to_come(rest@) =~= items@
                                + before.to_come(script));
                            items.push(Err(e));
                        },
                        None => {
                            assert(items@ + iter.to_come(rest@) =~= items@ + before.to_come(
                                script,
                            ));
                        },
                    }
                },
            }
        }
    }

    /// Takes in the reply to the search that `poll` asked for and gives what
    /// the pull that asked comes to: the first record of a batch, with the
    /// rest of it pending; nothing at the end of the sequence; a failure,
    /// this once. After an end or a failure every further `poll` is `Done`.
    pub fn resume(&mut self, reply: SearchReply) -> (item: Option<Result<SubvolumePathRecord, Error>>)
        requires
            old(self).wf(),
            old(self).awaits_reply(),
        ensures
            final(self).wf(),
            final(self).path() == old(self).path(),
            match classify(old(self).cursor(), reply) {
                Verdict::Batch => {
                    &&& item == Some(Ok::<SubvolumePathRecord, Error>(reply.records@[0]))
                    &&& final(self).phase() is Active
                    &&& final(self).cursor() == reply.next_cursor
                    &&& final(self).cursor() > old(self).cursor()
                    &&& final(self).pending() == reply.records@.drop_first()
                },
                Verdict::End => {
                    &&& item is None
                    &&& final(self).phase() is Exhausted
                    &&& final(self).cursor() == old(self).cursor()
                    &&& final(self).pending().len() == 0
                },
                Verdict::Fail(e) => {
                    &&& item == Some(Err::<SubvolumePathRecord, Error>(e))
                    &&& final(self).phase() is Failed
                    &&& final(self).cursor() == old(self).cursor()
                    &&& final(self).pending().len() == 0
                },
            },
    {
        match self.feed(reply) {
            Some(e) => Some(Err(e)),
            None => match self.poll() {
                Step::Yield(found) => Some(Ok(found)),
                _ => None,
            },
        }
    }
}

/// What a run of searches comes to when the replies are `replies`, in this
/// order, and the first search starts at `cursor`: the records of every batch
/// up to the first end, in the order in which they came, or the first
/// failure and nothing else. Replies behind an end or a failure are never
/// asked for. A run that stops on a batch holds what came so far.
pub open spec fn drained(cursor: u64, replies: Seq<SearchReply>) -> Result<
    Seq<SubvolumePathRecord>,
    Error,
>
    decreases replies.len(),
{
    if replies.len() == 0 {
        Ok(Seq::empty())
    } else {
        match classify(cursor, replies[0]) {
            Verdict::End => Ok(Seq::empty()),
            Verdict::Fail(e) => Err(e),
            Verdict::Batch => match drained(replies[0].next_cursor, replies.drop_first()) {
                Ok(rest) => Ok(replies[0].records@ + rest),
                Err(e) => Err(e),
            },
        }
    }
}

/// `outcome` with `prefix` put before its records, if it has any.
pub open spec fn after(prefix: Seq<SubvolumePathRecord>, outcome: Result<
    Seq<SubvolumePathRecord>,
    Error,
>) -> Result<Seq<SubvolumePathRecord>, Error> {
    match outcome {
        Ok(rest) => Ok(prefix + rest),
        Err(e) => Err(e),
    }
}

/// The records `records`, each as an element that was pulled without failure.
pub open spec fn pulled_ok(records: Seq<SubvolumePathRecord>) -> Seq<
    Result<SubvolumePathRecord, Error>,
> {
    Seq::new(records.len(), |i: int| Ok(records[i]))
}

/// What pulling one element after the other comes to when the replies are
/// `replies`, in this order, and the first search starts at `cursor`: the
/// records of every batch up to the first end, each on its own, in the order
/// in which they came; behind them the first failure, if one came, once; and
/// then nothing more.
pub open spec fn pulled(cursor: u64, replies: Seq<SearchReply>) -> Seq<
    Result<SubvolumePathRecord, Error>,
>
    decreases replies.len(),
{
    if replies.len() == 0 {
        Seq::empty()
    } else {
        match classify(cursor, replies[0]) {
            Verdict::End => Seq::empty(),
            Verdict::Fail(e) => seq![Err(e)],
            Verdict::Batch => pulled_ok(replies[0].records@) + pulled(
                replies[0].next_cursor,
                replies.drop_first(),
            ),
        }
    }
}

/// The eager form of the enumeration: it gathers every record and gives
/// either all of them or the failure, never a part.
#[derive(Debug)]
pub struct Listing {
    iter: SubvolumeIterator,
    items: Vec<SubvolumePathRecord>,
}

/// Where a listing stands after a reply.
#[derive(Debug)]
pub enum Progress {
    /// Another search is needed.
    More(Listing),
    /// The listing is over, with all its records or with the failure.
    Finished(Result<Vec<SubvolumePathRecord>, Error>),
}

impl Listing {
    /// The terminated path that every request carries.
    pub closed spec fn path(&self) -> Seq<u8> {
        self.iter.path()
    }

    /// The key from which the next search starts.
    pub closed spec fn cursor(&self) -> u64 {
        self.iter.cursor()
    }

    /// The records gathered so far.
    pub closed spec fn items(&self) -> Seq<SubvolumePathRecord> {
        self.items@
    }

    /// A listing always stands before a search.
    pub closed spec fn wf(&self) -> bool {
        self.iter.wf() && self.iter.awaits_reply()
    }

    /// A fresh listing beneath `path`, unless the path holds a terminator of
    /// its own.
    pub fn new(path: &[u8]) -> (r: Option<Listing>)
        ensures
            r is Some <==> is_clean(path@),
            r matches Some(l) ==> l.wf() && l.cursor() == TREE_ORIGIN && l.items().len() == 0
                && l.path() == path@.push(TERMINATOR),
    {
        match SubvolumeIterator::new(path) {
            Some(iter) => Some(Listing { iter, items: Vec::new() }),
            None => None,
        }
    }

    /// The search to perform next.
    pub fn request(&self) -> (req: SearchRequest)
        ensures
            req.path@ == self.path(),
            req.cursor == self.cursor(),
            req.capacity == BATCH_CAPACITY,
    {
        self.iter.request()
    }

    /// Takes in the reply to the search that `request` described. A batch is
    /// put behind the records gathered, an end gives them all, and a failure
    /// gives the failure and drops them.
    pub fn advance(self, reply: SearchReply) -> (p: Progress)
        requires
            self.wf(),
        ensures
            match classify(self.cursor(), reply) {
                Verdict::Batch => {
                    &&& p matches Progress::More(next)
                    &&& next.wf()
                    &&& next.path() == self.path()
                    &&& next.cursor() == reply.next_cursor
                    &&& next.cursor() > self.cursor()
                    &&& next.items() == self.items() + reply.records@
                },
                Verdict::End => p matches Progress::Finished(Ok(all)) && all@ == self.items(),
                Verdict::Fail(e) => p == Progress::Finished(Err(e)),
            },
    {
        let mut iter = self.iter;
        let mut items = self.items;
        match iter.feed(reply) {
            Some(e) => Progress::Finished(Err(e)),
            None => {
                if iter.pending.len() == 0 {
                    Progress::Finished(Ok(items))
                } else {
                    items.append(&mut iter.pending);
                    Progress::More(Listing { iter, items })
                }
            },
        }
    }

    /// Runs the listing against replies that are already at hand, taking
    /// them in their order for as long as the listing asks for one.
    pub fn run(self, replies: Vec<SearchReply>) -> (r: Result<Vec<SubvolumePathRecord>, Error>)
        requires
            self.wf(),
        ensures
            match after(self.items(), drained(self.cursor(), replies@)) {
                Ok(all) => r matches Ok(v) && v@ == all,
                Err(e) => r == Err::<Vec<SubvolumePathRecord>, Error>(e),
            },
    {
        let ghost goal = after(self.items(), drained(self.cursor(), replies@));
        let mut listing = self;
        let mut rest = replies;
        while rest.len() > 0
            invariant
                listing.wf(),
                goal == after(self.items(), drained(self.cursor(), replies@)),
                after(listing.items(), drained(listing.cursor(), rest@)) == goal,
            decreases rest.len(),
        {
            let ghost before = rest@;
            let ghost gathered = listing.items();
            let reply = rest.remove(0);
            proof {
                assert(rest@ =~= before.drop_first());
                assert(before[0] == reply);
                assert forall|tail: Seq<SubvolumePathRecord>|
                    (gathered + reply.records@) + tail == gathered + (reply.records@ + tail) by {
                    assert((gathered + reply.records@) + tail =~= gathered + (reply.records@
                        + tail));
                }
                assert(gathered + Seq::<SubvolumePathRecord>::empty() =~= gathered);
            }
            match listing.advance(reply) {
                Progress::More(next) => {
                    listing = next;
                },
                Progress::Finished(outcome) => {
                    return outcome;
                },
            }
        }
        proof {
            assert(listing.items() + Seq::<SubvolumePathRecord>::empty() =~= listing.items());
        }
        Ok(listing.items)
    }
}

/// The keys at which the searches of a run start, first to last, when the
/// replies are `replies` and the first search starts at `cursor`.
pub open spec fn asked(cursor: u64, replies: Seq<SearchReply>) -> Seq<u64>
    decreases replies.len(),
{
    if replies.len() > 0 && classify(cursor, replies[0]) is Batch {
        seq![cursor] + asked(replies[0].next_cursor, replies.drop_first())
    } else {
        seq![cursor]
    }
}

/// Every search of a run starts beyond all the searches before it, so that
/// no key is asked for twice.
pub proof fn lemma_searches_never_repeat(cursor: u64, replies: Seq<SearchReply>)
    ensures
        asked(cursor, replies).len() >= 1,
        asked(cursor, replies)[0] == cursor,
        forall|i: int, j: int|
            0 <= i < j < asked(cursor, replies).len() ==> asked(cursor, replies)[i] < asked(
                cursor,
                replies,
            )[j],
    decreases replies.len(),
{
    if replies.len() > 0 && classify(cursor, replies[0]) is Batch {
        let next = replies[0].next_cursor;
        let rest = replies.drop_first();
        lemma_searches_never_repeat(next, rest);
        let all = asked(cursor, replies);
        let tail = asked(next, rest);
        assert(all =~= seq![cursor] + tail);
        assert forall|i: int, j: int| 0 <= i < j < all.len() implies all[i] < all[j] by {
            assert(all[j] == tail[j - 1]);
            if i > 0 {
                assert(all[i] == tail[i - 1]);
            } else if j > 1 {
                assert(tail[0] < tail[j - 1]);
            }
        }
    }
}

/// A failure as the first reply is the outcome of the whole run, whatever
/// follows it, and an end as the first reply gives the empty list.
pub proof fn lemma_first_reply_decides(cursor: u64, replies: Seq<SearchReply>)
    requires
        replies.len() > 0,
    ensures
        classify(cursor, replies[0]) matches Verdict::Fail(e) ==> drained(cursor, replies) == Err::<
            Seq<SubvolumePathRecord>,
            Error,
        >(e),
        classify(cursor, replies[0]) is End ==> drained(cursor, replies) == Ok::<
            Seq<SubvolumePathRecord>,
            Error,
        >(Seq::empty()),
        drained(cursor, replies) matches Err(e) ==> e.0 != OK && e.0 != STOP_ITERATION,
    decreases replies.len(),
{
    if classify(cursor, replies[0]) is Batch {
        let rest = replies.drop_first();
        if rest.len() > 0 {
            lemma_first_reply_decides(replies[0].next_cursor, rest);
        } else {
            assert(drained(replies[0].next_cursor, rest) is Ok);
        }
    }
}

/// The eager form and the lazy form agree. Where the eager form gives a
/// list, pulling gives exactly its records, each without failure. Where
/// the eager form gives a failure, pulling ends in that failure, and every
/// element before it is a record.
pub proof fn lemma_eager_agrees_with_lazy(cursor: u64, replies: Seq<SearchReply>)
    ensures
        match drained(cursor, replies) {
            Ok(all) => pulled(cursor, replies) == pulled_ok(all),
            Err(e) => {
                let items = pulled(cursor, replies);
                &&& items.len() > 0
                &&& items.last() == Err::<SubvolumePathRecord, Error>(e)
                &&& forall|i: int| 0 <= i < items.len() - 1 ==> (#[trigger] items[i]) is Ok
            },
        },
    decreases replies.len(),
{
    if replies.len() > 0 && classify(cursor, replies[0]) is Batch {
        let first = replies[0].records@;
        let rest = replies.drop_first();
        let next = replies[0].next_cursor;
        lemma_eager_agrees_with_lazy(next, rest);
        match drained(next, rest) {
            Ok(tail) => {
                assert(pulled_ok(first) + pulled_ok(tail) =~= pulled_ok(first + tail));
            },
            Err(e) => {
                let items = pulled(cursor, replies);
                assert(items =~= pulled_ok(first) + pulled(next, rest));
                assert forall|i: int| 0 <= i < items.len() - 1 implies (#[trigger] items[i]) is Ok by {
                    if i >= first.len() {
                        assert(items[i] == pulled(next, rest)[i - first.len()]);
                    }
                }
            },
        }
    } else if replies.len() > 0 {
        match classify(cursor, replies[0]) {
            Verdict::Fail(e) => {
                assert(pulled(cursor, replies) =~= seq![Err::<SubvolumePathRecord, Error>(e)]);
            },
            _ => {
                assert(pulled_ok(Seq::<SubvolumePathRecord>::empty()) =~= Seq::<
                    Result<SubvolumePathRecord, Error>,
                >::empty());
            },
        }
    } else {
        assert(pulled_ok(Seq::<SubvolumePathRecord>::empty()) =~= Seq::<
            Result<SubvolumePathRecord, Error>,
        >::empty());
    }
}

} // verus!
