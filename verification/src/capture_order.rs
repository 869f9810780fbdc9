//! One selection capture at a time.
//!
//! A capture posts a synthetic copy and watches the clipboard, so two captures must never
//! overlap. A request whose capture cannot start yet waits; when the running capture ends,
//! the waiting request starts only if it is still the one in progress.
use vstd::prelude::*;

use crate::coordinator::RequestId;

verus! {

/// The capture that runs and the request waiting for it to end.
#[derive(Debug)]
pub struct CaptureOrder {
    running: Option<RequestId>,
    waiting: Option<RequestId>,
}

impl View for CaptureOrder {
    type V = (Option<RequestId>, Option<RequestId>);

    /// The running capture's request, then the waiting request.
    closed spec fn view(&self) -> (Option<RequestId>, Option<RequestId>) {
        (self.running, self.waiting)
    }
}

impl CaptureOrder {
    /// No capture runs and none waits.
    pub fn new() -> (r: Self)
        ensures
            r@ == (None::<RequestId>, None::<RequestId>),
    {
        CaptureOrder { running: None, waiting: None }
    }

    /// Request `id` needs its selection. Returns whether its capture starts now: it does
    /// when no capture runs; otherwise it waits, in place of any request that waited.
    pub fn request(&mut self, id: RequestId) -> (r: bool)
        ensures
            old(self)@.0 is None ==> r && final(self)@ == (Some(id), old(self)@.1),
            old(self)@.0 is Some ==> !r && final(self)@ == (old(self)@.0, Some(id)),
    {
        if self.running.is_none() {
            self.running = Some(id);
            true
        } else {
            self.waiting = Some(id);
            false
        }
    }

    /// The capture of request `id` ended, while `current` is the request in progress.
    /// Returns the request whose capture starts now: the waiting one, if it is still
    /// current. A waiting request that is no longer current is dropped without capture.
    /// The end of a capture that is not the running one changes nothing.
    pub fn finished(&mut self, id: RequestId, current: Option<RequestId>) -> (r: Option<RequestId>)
        ensures
            old(self)@.0 != Some(id) ==> r is None && final(self)@ == old(self)@,
            old(self)@.0 == Some(id) ==> match old(self)@.1 {
                Some(w) => if current == Some(w) {
                    r == Some(w) && final(self)@ == (Some(w), None::<RequestId>)
                } else {
                    r is None && final(self)@ == (None::<RequestId>, None::<RequestId>)
                },
                None => r is None && final(self)@ == (None::<RequestId>, None::<RequestId>),
            },
    {
        match self.running {
            Some(running) => {
                if running != id {
                    return None;
                }
            },
            None => return None,
        }
        let waiting = self.waiting.take();
        match waiting {
            Some(w) => {
                let still_current = match current {
                    Some(c) => c == w,
                    None => false,
                };
                if still_current {
                    self.running = Some(w);
                    Some(w)
                } else {
                    self.running = None;
                    None
                }
            },
            None => {
                self.running = None;
                None
            },
        }
    }
}

} // verus!
