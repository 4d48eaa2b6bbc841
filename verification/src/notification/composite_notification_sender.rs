//! The composite sink: a notification goes to every sink it holds.

use crate::notification::{delivery_views, Delivery, DeliveryView, NotificationSender};
use vstd::prelude::*;

verus! {

/// What a list of sinks sends for one notification: what each sink
/// sends, in the order of the sinks.
pub open spec fn fan_out<S: NotificationSender>(
    senders: Seq<S>,
    title: Seq<char>,
    contents: Seq<char>,
) -> Seq<DeliveryView>
    decreases senders.len(),
{
    if senders.len() == 0 {
        Seq::empty()
    } else {
        fan_out(senders.drop_last(), title, contents) + senders.last().deliveries(title, contents)
    }
}

/// A sink that hands each notification to all the sinks it holds.
pub struct CompositeNotificationSender<S: NotificationSender> {
    pub senders: Vec<S>,
}

impl<S: NotificationSender> CompositeNotificationSender<S> {
    /// The composite of the given sinks, or of none.
    pub fn new(initial_senders: Option<Vec<S>>) -> (r: Self)
        ensures
            r.senders@ == match initial_senders {
                Some(senders) => senders@,
                None => Seq::empty(),
            },
    {
        match initial_senders {
            Some(senders) => CompositeNotificationSender { senders },
            None => CompositeNotificationSender { senders: Vec::new() },
        }
    }

    /// Adds a sink after those already held.
    pub fn add_sender(&mut self, sender: S)
        ensures
            final(self).senders@ == old(self).senders@.push(sender),
    {
        self.senders.push(sender);
    }
}

impl<S: NotificationSender> NotificationSender for CompositeNotificationSender<S> {
    open spec fn deliveries(&self, title: Seq<char>, contents: Seq<char>) -> Seq<DeliveryView> {
        fan_out(self.senders@, title, contents)
    }

    fn notify(&self, message_title: String, message_contents: String) -> (r: Vec<Delivery>) {
        let mut r: Vec<Delivery> = Vec::new();
        let mut i: usize = 0;
        assert(delivery_views(r@) =~= fan_out(self.senders@.take(0), message_title@, message_contents@));
        while i < self.senders.len()
            invariant
                i <= self.senders.len(),
                delivery_views(r@) == fan_out(self.senders@.take(i as int), message_title@, message_contents@),
            decreases self.senders.len() - i,
        {
            let mut part = self.senders[i].notify(message_title.clone(), message_contents.clone());
            let ghost before = r@;
            let ghost added = part@;
            r.append(&mut part);
            proof {
                assert(self.senders@.take(i as int + 1).drop_last() =~= self.senders@.take(i as int));
                assert(delivery_views(r@) =~= delivery_views(before) + delivery_views(added));
            }
            i = i + 1;
        }
        assert(self.senders@.take(i as int) =~= self.senders@);
        r
    }
}

} // verus!
