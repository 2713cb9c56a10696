//! Notifications with their adapter looked up.

use crate::util::search::first;
use crate::win::wlan::acm::notification::Code;
use crate::win::wlan::acm::Notification;
use crate::win::wlan::Interface;
use crate::wlan::interface::list;
use crate::wlan::interface::list::has_guid;
use vstd::prelude::*;

verus! {

/// A notification whose adapter is known: what happened, and to which adapter.
#[derive(Debug, PartialEq, Eq)]
pub struct NotificationWithInterface {
    pub code: Code,
    pub interface: Interface,
}

impl Clone for NotificationWithInterface {
    fn clone(&self) -> (copy: Self)
        ensures
            copy == *self,
    {
        NotificationWithInterface { code: self.code, interface: self.interface.clone() }
    }
}

/// The first adapter of `list` identified as the notification says, with the
/// notification's code; nothing when no adapter of `list` is identified so.
pub open spec fn resolved(notification: Notification, list: Seq<Interface>) -> Option<
    NotificationWithInterface,
> {
    match first(list, has_guid(notification.guid)) {
        Some(i) => Some(NotificationWithInterface { code: notification.code, interface: list[i] }),
        None => None,
    }
}

impl NotificationWithInterface {
    /// Looks up the adapter of a notification among those present.
    pub fn from_notification(notification: Notification, list: &list::Operator) -> (found: Option<
        NotificationWithInterface,
    >)
        ensures
            found == resolved(notification, list@),
    {
        match list.get_by_guid(&notification.guid) {
            Some(interface) => Some(NotificationWithInterface { code: notification.code, interface }),
            None => None,
        }
    }
}

} // verus!
