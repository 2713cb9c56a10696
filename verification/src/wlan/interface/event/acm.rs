//! The demultiplexer: from the notifications of the service to the events
//! that the autopilots see.

use crate::supervisor::Supervisor;
use crate::win::wlan::acm::notification::Code;
use crate::win::wlan::acm::Notification;
use crate::win::wlan::Interface;
use crate::win::NativeResult;
use crate::wlan::acm::NotificationWithInterface;
use vstd::prelude::*;

verus! {

impl Supervisor {
    /// Tells whether the adapters are to be enumerated afresh before
    /// `notification` is handed to `demux`: they are for an adapter that
    /// arrived, and for one that left and was known until now.
    pub fn demux_needs_enumeration(&self, notification: &Notification) -> (yes: bool)
        ensures
            yes == self@.needs_enumeration(*notification),
    {
        match notification.code {
            Code::InterfaceArrival => true,
            Code::InterfaceRemoval => self.interfaces.contains_guid(&notification.guid),
            _ => false,
        }
    }

    /// Takes a notification of the service, with the fresh enumeration of the
    /// adapters where one was needed, and gives the event to publish, if any.
    ///
    /// For an adapter that arrived, the fresh enumeration is taken over first
    /// and the adapter looked up in it. For one that left, the adapter is
    /// looked up first, among those known until now, and the enumeration
    /// taken over afterwards. An enumeration that failed or is missing is not
    /// taken over, and then nothing is published. A phase of a scan or of a
    /// connection is published with its adapter as known. Anything else, and
    /// anything on an adapter that is not found, is dropped.
    pub fn demux(
        &mut self,
        notification: Notification,
        enumeration: Option<NativeResult<Vec<Interface>>>,
    ) -> (event: Option<NotificationWithInterface>)
        ensures
            final(self)@ == old(self)@.demuxed(notification, enumeration),
            event == old(self)@.published(notification, enumeration),
    {
        match notification.code {
            Code::InterfaceArrival => match enumeration {
                Some(Ok(list)) => {
                    let _taken = self.interfaces.update_warned(Ok(list));
                    NotificationWithInterface::from_notification(notification, &self.interfaces)
                },
                _ => None,
            },
            Code::InterfaceRemoval => {
                let event = NotificationWithInterface::from_notification(
                    notification,
                    &self.interfaces,
                );
                match event {
                    Some(event) => match enumeration {
                        Some(Ok(list)) => {
                            let _taken = self.interfaces.update_warned(Ok(list));
                            Some(event)
                        },
                        _ => None,
                    },
                    None => None,
                }
            },
            code => {
                if code.is_network_scope() {
                    NotificationWithInterface::from_notification(notification, &self.interfaces)
                } else {
                    None
                }
            },
        }
    }
}

} // verus!
