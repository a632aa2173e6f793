//! The holder of the run state.

use crate::proxy::Failure;
use crate::status::{reported_status, JupyterStatus, StatusView};
use vstd::prelude::*;

verus! {

/// The lifecycle state: the one current record of the server's run state.
/// It starts out stopped and changes only as a whole.
///
/// A change takes the holder exclusively, so no read overlaps one: a reader
/// sees the record as it was before a write or as it is after, never parts
/// of both. To share the holder between tasks, put it behind a lock.
#[derive(Debug)]
pub struct AppState {
    status: JupyterStatus,
}

impl View for AppState {
    type V = StatusView;

    closed spec fn view(&self) -> StatusView {
        self.status@
    }
}

impl AppState {
    #[verifier::type_invariant]
    spec fn holds_well_formed_status(&self) -> bool {
        self.status.well_formed()
    }

    /// A holder with the stopped record.
    pub fn new() -> (state: AppState)
        ensures
            state@ == StatusView::stopped(),
    {
        AppState { status: JupyterStatus::default() }
    }

    /// A copy of the current record.
    pub fn read(&self) -> (status: JupyterStatus)
        ensures
            status@ == self@,
            status.well_formed(),
    {
        proof {
            use_type_invariant(self);
        }
        self.status.clone()
    }

    /// Puts `status` in place of the current record; nothing of the old
    /// record stays.
    pub fn write(&mut self, status: JupyterStatus)
        requires
            status.well_formed(),
        ensures
            final(self)@ == status@,
    {
        self.status = status;
    }

    /// Takes in what a call to the service came to. The answer of a call
    /// that succeeded refreshes the record; a call that failed leaves the
    /// last known record in place.
    pub fn absorb(&mut self, outcome: &Result<serde_json::Value, Failure>) -> (refreshed: bool)
        ensures
            outcome matches Ok(doc) ==> refreshed == reported_status(*doc).is_some()
                && final(self)@ == (match reported_status(*doc) {
                Some(reported) => reported,
                None => old(self)@,
            }),
            outcome is Err ==> !refreshed && final(self)@ == old(self)@,
    {
        match outcome {
            Ok(doc) => self.refresh(doc),
            Err(_) => false,
        }
    }

    /// Takes over the run state that `doc` reports. A document that
    /// reports none leaves the last known record in place.
    pub fn refresh(&mut self, doc: &serde_json::Value) -> (refreshed: bool)
        ensures
            refreshed == reported_status(*doc).is_some(),
            final(self)@ == match reported_status(*doc) {
                Some(reported) => reported,
                None => old(self)@,
            },
    {
        match JupyterStatus::from_document(doc) {
            Some(status) => {
                self.status = status;
                true
            },
            None => false,
        }
    }
}

impl Default for AppState {
    /// A holder with the stopped record.
    fn default() -> (state: AppState)
        ensures
            state@ == StatusView::stopped(),
    {
        AppState::new()
    }
}

} // verus!
