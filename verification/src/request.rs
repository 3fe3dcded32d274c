//! What a caller asks of one run.

use vstd::prelude::*;

verus! {

/// Mathematical model of an [`InjectionRequest`].
pub struct RequestView {
    pub items: Seq<Seq<char>>,
    pub initial_delay_ms: u64,
    pub item_delay_ms: u64,
}

impl RequestView {
    /// How long the run is suspended before item `index` is emitted: the
    /// initial delay before the first item, the inter-item delay before every
    /// later one.
    pub open spec fn delay_before(self, index: nat) -> u64 {
        if index == 0 {
            self.initial_delay_ms
        } else {
            self.item_delay_ms
        }
    }
}

/// The texts to inject, in order, and the two delays in milliseconds.
///
/// The texts are not inspected: whatever they hold is handed to the device.
#[derive(Debug, PartialEq, Eq)]
pub struct InjectionRequest {
    pub items: Vec<String>,
    pub initial_delay_ms: u64,
    pub item_delay_ms: u64,
}

impl View for InjectionRequest {
    type V = RequestView;

    open spec fn view(&self) -> RequestView {
        RequestView {
            items: self.items.deep_view(),
            initial_delay_ms: self.initial_delay_ms,
            item_delay_ms: self.item_delay_ms,
        }
    }
}

impl Clone for InjectionRequest {
    fn clone(&self) -> (copy: Self)
        ensures
            copy@ == self@,
    {
        let mut items: Vec<String> = Vec::new();
        let mut done: usize = 0;
        while done < self.items.len()
            invariant
                done <= self.items.len(),
                items.len() == done,
                forall|i: int| 0 <= i < done ==> items[i]@ == self.items[i]@,
            decreases self.items.len() - done,
        {
            items.push(self.items[done].clone());
            done += 1;
        }
        assert(items.deep_view() =~= self.items.deep_view());
        InjectionRequest {
            items,
            initial_delay_ms: self.initial_delay_ms,
            item_delay_ms: self.item_delay_ms,
        }
    }
}

impl InjectionRequest {
    /// A request for `items` with the given delays.
    pub fn new(items: Vec<String>, initial_delay_ms: u64, item_delay_ms: u64) -> (request:
        InjectionRequest)
        ensures
            request.items == items,
            request.initial_delay_ms == initial_delay_ms,
            request.item_delay_ms == item_delay_ms,
    {
        InjectionRequest { items, initial_delay_ms, item_delay_ms }
    }
}

} // verus!
