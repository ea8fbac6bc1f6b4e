//! State of the page that shows one miner in detail.
//!
//! The page carries the data of the miner as it was fetched; what is drawn
//! from it is not decided here.

use crate::errors::FetchError;
use crate::network::scanner::HostAddress;
use vstd::prelude::*;
use vstd::string::*;

verus! {

/// What the detail page is told. `M` is the data fetched of a miner.
#[derive(Debug)]
pub enum DeviceDetailMessage<M> {
    Back,
    OpenInBrowser,
    Restart,
    SetPowerLimit,
    ToggleFaultLight,
    DataFetched(Result<M, FetchError>),
}

/// What the detail page shows.
#[derive(Debug)]
pub enum DeviceDetailState<M> {
    /// The data of the miner at this address is on its way.
    Loading(HostAddress),
    Loaded { miner: M },
    /// Fetching failed, for this reason.
    Error(String),
}

/// The detail page.
#[derive(Debug)]
pub struct DeviceDetailView<M> {
    pub state: DeviceDetailState<M>,
}

impl<M> DeviceDetailView<M> {
    /// A page that waits for the data of the miner at `ip`.
    pub fn new_loading(ip: HostAddress) -> (page: Self)
        ensures
            page.state == DeviceDetailState::<M>::Loading(ip),
    {
        DeviceDetailView { state: DeviceDetailState::Loading(ip) }
    }

    /// A page that shows `miner`.
    pub fn new_loaded(miner: M) -> (page: Self)
        ensures
            page.state == (DeviceDetailState::Loaded { miner }),
    {
        DeviceDetailView { state: DeviceDetailState::Loaded { miner } }
    }

    /// Takes the outcome of the fetch: the data is shown, a failure is
    /// shown with the text of its error.
    pub fn update_with_data(&mut self, result: Result<M, FetchError>)
        ensures
            match result {
                Ok(miner) => final(self).state == (DeviceDetailState::Loaded { miner }),
                Err(error) => final(self).state matches DeviceDetailState::Error(reason)
                    && reason@ == error.message_text(),
            },
    {
        self.state = match result {
            Ok(miner) => DeviceDetailState::Loaded { miner },
            Err(error) => DeviceDetailState::Error(error.message()),
        };
    }
}

} // verus!
