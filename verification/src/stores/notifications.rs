//! Notifications and their unread count.

use vstd::prelude::*;
use crate::database::query::opt_view;
use crate::text::str_eq;

verus! {

/// A notification as the API returns it.
#[derive(Debug)]
pub struct Notification {
    pub id: i64,
    pub status: Option<String>,
    pub subject: Option<String>,
    pub message: Option<String>,
    pub timestamp: Option<String>,
    pub sender: Option<String>,
    pub collection: Option<String>,
    pub item: Option<String>,
}

/// Whether a notification is still in the inbox (unread).
pub open spec fn in_inbox(n: Notification) -> bool {
    opt_view(n.status) == Some("inbox"@)
}

/// How many notifications are in the inbox.
pub open spec fn inbox_count(ns: Seq<Notification>) -> nat
    decreases ns.len(),
{
    if ns.len() == 0 {
        0
    } else {
        inbox_count(ns.drop_last()) + if in_inbox(ns.last()) { 1nat } else { 0nat }
    }
}

proof fn lemma_inbox_count_bound(ns: Seq<Notification>)
    ensures
        inbox_count(ns) <= ns.len(),
    decreases ns.len(),
{
    if ns.len() > 0 {
        lemma_inbox_count_bound(ns.drop_last());
    }
}

/// The notifications the client has loaded and how many are unread.
pub struct NotificationsStore {
    pub notifications: Vec<Notification>,
    pub unread_count: usize,
    pub loading: bool,
}

impl NotificationsStore {
    /// An empty store, nothing unread, not loading.
    pub fn new() -> (r: NotificationsStore)
        ensures
            r.notifications@.len() == 0,
            r.unread_count == 0,
            !r.loading,
    {
        NotificationsStore { notifications: Vec::new(), unread_count: 0, loading: false }
    }

    /// Takes in freshly fetched notifications: they replace the loaded ones
    /// and the unread count becomes the number of them in the inbox.
    pub fn apply_fetch(&mut self, data: Vec<Notification>)
        ensures
            final(self).notifications@ == data@,
            final(self).unread_count == inbox_count(data@),
            final(self).loading == old(self).loading,
    {
        let mut n: usize = 0;
        let mut i: usize = 0;
        while i < data.len()
            invariant
                i <= data@.len(),
                n == inbox_count(data@.take(i as int)),
            decreases data@.len() - i,
        {
            proof {
                assert(data@.take(i as int + 1).drop_last() =~= data@.take(i as int));
                lemma_inbox_count_bound(data@.take(i as int));
            }
            let unread = match &data[i].status {
                Some(s) => str_eq(s.as_str(), "inbox"),
                None => false,
            };
            if unread {
                n = n + 1;
            }
            i = i + 1;
        }
        assert(data@.take(data@.len() as int) =~= data@);
        self.unread_count = n;
        self.notifications = data;
    }
}

} // verus!
