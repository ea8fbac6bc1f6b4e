//! State of the dashboard page.

use crate::config::AppConfig;
use crate::main_view::{format_miner_url, miner_url};
use vstd::prelude::*;
use vstd::string::*;

verus! {

/// What the dashboard is told.
#[derive(Debug, Clone, Copy, PartialEq, Eq, Structural)]
pub enum DashboardMessage {
    OpenNetworkConfig,
    StartScan,
    StopScan,
    /// Open the web page of the miner at this IPv4 address.
    OpenIpInBrowser(u32),
    NavigateToScanning,
}

/// What the caller has to do after a message was applied.
#[derive(Debug, Clone, PartialEq, Eq)]
pub enum DashboardAction {
    Nothing,
    /// Hand this message back to the application.
    Send(DashboardMessage),
    /// Open this address in the browser.
    OpenUrl(String),
}

/// State of the dashboard page.
#[derive(Debug, Clone, PartialEq, Eq)]
pub struct Dashboard {
    pub scanning: bool,
    pub app_config: AppConfig,
}

impl Dashboard {
    /// The dashboard as it opens: no scan running, the default
    /// configuration.
    pub fn new() -> (page: Self)
        ensures
            !page.scanning,
            page.app_config.wf(),
            page.app_config.scan_groups@.len() == 1,
    {
        Dashboard { scanning: false, app_config: AppConfig::default() }
    }

    pub fn set_app_config(&mut self, config: AppConfig)
        ensures
            *final(self) == (Dashboard { app_config: config, ..*old(self) }),
    {
        self.app_config = config;
    }

    /// What the caller has to do after `message` was applied to `self`:
    /// go to the scanning page for a start while no scan runs, open the
    /// miner's page for a request to do so, nothing otherwise.
    pub open spec fn action_for(self, message: DashboardMessage, action: DashboardAction) -> bool {
        match message {
            DashboardMessage::StartScan => if self.scanning {
                action is Nothing
            } else {
                action == DashboardAction::Send(DashboardMessage::NavigateToScanning)
            },
            DashboardMessage::OpenIpInBrowser(ip) => action matches DashboardAction::OpenUrl(url)
                && url@ == miner_url(ip),
            _ => action is Nothing,
        }
    }

    /// Applies a message to the page and says what is to be done outside
    /// of it. Stopping a scan is all that changes the page.
    pub fn update(&mut self, message: DashboardMessage) -> (action: DashboardAction)
        ensures
            *final(self) == if message == DashboardMessage::StopScan {
                Dashboard { scanning: false, ..*old(self) }
            } else {
                *old(self)
            },
            old(self).action_for(message, action),
    {
        match message {
            DashboardMessage::OpenNetworkConfig => DashboardAction::Nothing,
            DashboardMessage::StartScan => {
                if !self.scanning {
                    DashboardAction::Send(DashboardMessage::NavigateToScanning)
                } else {
                    DashboardAction::Nothing
                }
            },
            DashboardMessage::StopScan => {
                self.scanning = false;
                DashboardAction::Nothing
            },
            DashboardMessage::OpenIpInBrowser(ip) => DashboardAction::OpenUrl(format_miner_url(ip)),
            DashboardMessage::NavigateToScanning => DashboardAction::Nothing,
        }
    }
}

} // verus!
