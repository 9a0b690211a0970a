//! The two one-directional paths between the UI thread and the fetch
//! worker, modelled as owned values: a bounded single-slot command channel
//! (latest command wins) and an unbounded first-in-first-out article queue.

use vstd::prelude::*;

use crate::headlines::{cards_view, Msg, MsgView, NewsCardData, RecordView};

verus! {

/// The command channel from the UI to the fetch worker: it holds at most
/// one pending command, and a newer command replaces an older one.
pub struct CommandChannel {
    slot: Option<Msg>,
}

impl View for CommandChannel {
    type V = Option<MsgView>;

    closed spec fn view(&self) -> Option<MsgView> {
        match self.slot {
            Some(m) => Some(m@),
            None => None,
        }
    }
}

impl CommandChannel {
    /// A fresh channel with no pending command.
    pub fn new() -> (c: CommandChannel)
        ensures
            c@ is None,
    {
        CommandChannel { slot: None }
    }

    /// Sends a command; a command already pending is replaced, so the
    /// latest command wins. Never blocks.
    pub fn send(&mut self, m: Msg)
        ensures
            final(self)@ == Some(m@),
    {
        self.slot = Some(m);
    }

    /// Takes the pending command, if one is there. Never blocks.
    pub fn try_recv(&mut self) -> (r: Option<Msg>)
        ensures
            final(self)@ is None,
            old(self)@ is None ==> r is None,
            old(self)@ matches Some(m) ==> (r matches Some(x) && x@ == m),
    {
        self.slot.take()
    }
}

/// The article queue from the fetch worker to the UI: unbounded,
/// first-in-first-out.
pub struct ArticleQueue {
    items: Vec<NewsCardData>,
}

impl View for ArticleQueue {
    type V = Seq<RecordView>;

    closed spec fn view(&self) -> Seq<RecordView> {
        cards_view(self.items@)
    }
}

impl ArticleQueue {
    /// A fresh, empty queue.
    pub fn new() -> (q: ArticleQueue)
        ensures
            q@ == Seq::<RecordView>::empty(),
    {
        ArticleQueue { items: Vec::new() }
    }

    /// Appends one record at the back of the queue. Never blocks.
    pub fn send(&mut self, card: NewsCardData)
        ensures
            final(self)@ == old(self)@.push(card@),
    {
        proof {
            assert(cards_view(old(self).items@.push(card)) =~= cards_view(
                old(self).items@,
            ).push(card@));
        }
        self.items.push(card);
    }

    /// Takes every record now available, oldest first, leaving the queue
    /// empty; on an empty queue it returns at once with no record. Never
    /// blocks.
    pub fn drain(&mut self) -> (v: Vec<NewsCardData>)
        ensures
            final(self)@ == Seq::<RecordView>::empty(),
            cards_view(v@) == old(self)@,
    {
        let mut taken: Vec<NewsCardData> = Vec::new();
        core::mem::swap(&mut self.items, &mut taken);
        proof {
            assert(cards_view(Seq::<NewsCardData>::empty()) =~= Seq::<RecordView>::empty());
        }
        taken
    }

    /// Takes the oldest record, if one is there; on an empty queue it
    /// returns `None` at once and leaves the queue empty. Never blocks.
    pub fn try_recv(&mut self) -> (r: Option<NewsCardData>)
        ensures
            old(self)@.len() == 0 ==> r is None && final(self)@ == old(self)@,
            old(self)@.len() > 0 ==> (r matches Some(c) && c@ == old(self)@[0] && final(self)@
                == old(self)@.drop_first()),
    {
        if self.items.len() == 0 {
            None
        } else {
            let card = self.items.remove(0);
            proof {
                assert(cards_view(old(self).items@.subrange(1, old(self).items@.len() as int))
                    =~= cards_view(old(self).items@).drop_first());
            }
            Some(card)
        }
    }
}

} // verus!
