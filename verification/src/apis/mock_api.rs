//! A notifier that sends nothing.
use vstd::prelude::*;
use crate::alarm::Alarm;
use crate::apis::{Request, RequestView};

verus! {

/// A notifier that stands in for a platform and sends nothing.
#[derive(Debug)]
pub struct MockApi {
    pub name: String,
    pub api_key: String,
}

impl MockApi {
    /// What is sent for a first alarm: nothing.
    pub fn trigger_alarm(&self, _alarm: &Alarm) -> (requests: Vec<Request>)
        ensures
            requests.deep_view() == Seq::<RequestView>::empty(),
    {
        let requests: Vec<Request> = Vec::new();
        assert(requests.deep_view() =~= Seq::<RequestView>::empty());
        requests
    }

    /// What is sent for an update: nothing.
    pub fn update_alarm(&self, _alarm: &Alarm) -> (requests: Vec<Request>)
        ensures
            requests.deep_view() == Seq::<RequestView>::empty(),
    {
        let requests: Vec<Request> = Vec::new();
        assert(requests.deep_view() =~= Seq::<RequestView>::empty());
        requests
    }
}

} // verus!
