//! The notification bus: a publish/subscribe registry keyed by workspace
//! id.  After a background merge that changed the cache, the coordinator
//! publishes a "folder pages updated" event to every subscriber registered
//! for that workspace; delivery is best-effort and at most once per
//! distinct merge outcome.

use vstd::prelude::*;

verus! {

/// One subscriber's registration for one workspace.
#[derive(Debug)]
pub struct Subscription {
    pub workspace_id: String,
    pub subscriber_id: u64,
}

/// The registry of subscriptions.
#[derive(Debug)]
pub struct NotificationBus {
    pub subscriptions: Vec<Subscription>,
}

/// The subscriber ids registered for `ws`, in registration order.
pub open spec fn recipients_of(s: Seq<Subscription>, ws: Seq<char>) -> Seq<u64>
    decreases s.len(),
{
    if s.len() == 0 {
        Seq::<u64>::empty()
    } else {
        let rest = recipients_of(s.drop_last(), ws);
        if s.last().workspace_id@ == ws {
            rest.push(s.last().subscriber_id)
        } else {
            rest
        }
    }
}

/// The registrations left after a subscriber withdraws.
pub open spec fn without_subscriber(s: Seq<Subscription>, id: u64) -> Seq<Subscription>
    decreases s.len(),
{
    if s.len() == 0 {
        s
    } else {
        let rest = without_subscriber(s.drop_last(), id);
        if s.last().subscriber_id == id {
            rest
        } else {
            rest.push(s.last())
        }
    }
}

impl NotificationBus {
    /// A registry with no subscribers.
    pub fn new() -> (r: NotificationBus)
        ensures
            r.subscriptions@.len() == 0,
    {
        NotificationBus { subscriptions: Vec::new() }
    }

    /// Registers `subscriber_id` for events of `workspace_id`.
    pub fn subscribe(&mut self, workspace_id: &String, subscriber_id: u64)
        ensures
            final(self).subscriptions@.len() == old(self).subscriptions@.len() + 1,
            forall|k: int|
                0 <= k < old(self).subscriptions@.len()
                    ==> #[trigger] final(self).subscriptions@[k] == old(self).subscriptions@[k],
            final(self).subscriptions@.last().workspace_id@ == workspace_id@,
            final(self).subscriptions@.last().subscriber_id == subscriber_id,
    {
        self.subscriptions.push(
            Subscription { workspace_id: workspace_id.clone(), subscriber_id },
        );
    }

    /// Withdraws every registration of `subscriber_id`.
    pub fn unsubscribe(&mut self, subscriber_id: u64)
        ensures
            final(self).subscriptions@ == without_subscriber(
                old(self).subscriptions@,
                subscriber_id,
            ),
    {
        let ghost s = self.subscriptions@;
        let mut kept: Vec<Subscription> = Vec::new();
        let n = self.subscriptions.len();
        proof {
            assert(s.take(0) =~= Seq::<Subscription>::empty());
        }
        for i in 0..n
            invariant
                n == self.subscriptions@.len(),
                s == self.subscriptions@,
                kept@ == without_subscriber(s.take(i as int), subscriber_id),
            decreases n - i,
        {
            let keep = self.subscriptions[i].subscriber_id != subscriber_id;
            if keep {
                let sub = Subscription {
                    workspace_id: self.subscriptions[i].workspace_id.clone(),
                    subscriber_id: self.subscriptions[i].subscriber_id,
                };
                proof {
                    assert(sub.workspace_id == s[i as int].workspace_id);
                }
                kept.push(sub);
            }
            proof {
                assert(s.take(i + 1).drop_last() =~= s.take(i as int));
                assert(s.take(i + 1).last() == s[i as int]);
                if keep {
                    assert(kept@.last().workspace_id == s[i as int].workspace_id);
                    assert(kept@.last().subscriber_id == s[i as int].subscriber_id);
                    assert(kept@.last() == s[i as int]);
                    assert(kept@ =~= without_subscriber(s.take(i + 1), subscriber_id));
                } else {
                    assert(kept@ =~= without_subscriber(s.take(i + 1), subscriber_id));
                }
            }
        }
        proof {
            assert(s.take(n as int) =~= s);
        }
        self.subscriptions = kept;
    }

    /// The subscriber ids an event scoped to `workspace_id` is delivered
    /// to.
    pub fn recipients(&self, workspace_id: &String) -> (r: Vec<u64>)
        ensures
            r@ == recipients_of(self.subscriptions@, workspace_id@),
    {
        let ghost s = self.subscriptions@;
        let mut out: Vec<u64> = Vec::new();
        let n = self.subscriptions.len();
        proof {
            assert(s.take(0) =~= Seq::<Subscription>::empty());
        }
        for i in 0..n
            invariant
                n == self.subscriptions@.len(),
                s == self.subscriptions@,
                out@ == recipients_of(s.take(i as int), workspace_id@),
            decreases n - i,
        {
            if self.subscriptions[i].workspace_id == *workspace_id {
                out.push(self.subscriptions[i].subscriber_id);
            }
            proof {
                assert(s.take(i + 1).drop_last() =~= s.take(i as int));
                assert(s.take(i + 1).last() == s[i as int]);
                assert(out@ =~= recipients_of(s.take(i + 1), workspace_id@));
            }
        }
        proof {
            assert(s.take(n as int) =~= s);
        }
        out
    }
}

} // verus!
