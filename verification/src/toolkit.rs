//! The application as a whole: which page is shown, which scan is
//! running, and how messages travel between the pages.
//!
//! Every message is applied here; what has to happen outside of the state
//! comes back as an action.

use crate::config::{enabled_groups, AppConfig};
use crate::device_detail_view::{DeviceDetailMessage, DeviceDetailState, DeviceDetailView};
use crate::main_view::{
    format_miner_url, miner_url, MainView, MainViewAction, MainViewMessage,
};
use crate::network::scanner::{HostAddress, ScanGroup, ScannerMessage};
use crate::network_config::{NetworkConfig, NetworkConfigMessage};
use vstd::prelude::*;
use vstd::string::*;

verus! {

/// The page that is shown.
#[derive(Debug, Clone, Copy, PartialEq, Eq, Structural)]
pub enum Page {
    Main,
    NetworkConfig,
    /// The details of the miner at this IPv4 address.
    DeviceDetail(u32),
}

/// What the application is told. `M` is the data fetched of a miner.
#[derive(Debug)]
pub enum BtcToolkitMessage<M> {
    MainView(MainViewMessage),
    NetworkConfig(NetworkConfigMessage),
    DeviceDetail(DeviceDetailMessage<M>),
    Scanner(ScannerMessage),
}

/// What the caller has to do after a message was applied.
#[derive(Debug, Clone, PartialEq, Eq)]
pub enum ToolkitAction {
    Nothing,
    /// Fetch the full data of the miner at this IPv4 address and hand it
    /// back as a message for the detail page.
    FetchMinerData(u32),
    /// Open this address in the browser.
    OpenUrl(String),
    /// Write the configuration of the application to disk.
    SaveConfig,
    /// Write the configuration held by the main view to disk.
    SaveMainViewConfig,
}

/// State of the application.
#[derive(Debug)]
pub struct BtcToolkit<M> {
    pub current_page: Page,
    pub main_view: MainView,
    pub network_config: NetworkConfig,
    pub device_detail_view: Option<DeviceDetailView<M>>,
    /// The groups of the running scan; none while no scan runs.
    pub active_scan: Option<Vec<ScanGroup>>,
    pub app_config: AppConfig,
}

/// Whether `scans` are the enabled groups of `config`, one scan for each,
/// in their order, with its name, range and filters.
pub open spec fn scans_of(scans: Seq<ScanGroup>, config: AppConfig) -> bool {
    let enabled = enabled_groups(config.scan_groups@);
    &&& scans.len() == enabled.len()
    &&& forall|i: int|
        0 <= i < scans.len() ==> (#[trigger] scans[i]).name@ == enabled[i].name@
            && scans[i].network_range@ == enabled[i].network_range@ && scans[i].config@
            == enabled[i].scan_config@
}

/// The scans that the enabled groups of `config` ask for.
pub fn scans_for(config: &AppConfig) -> (scans: Vec<ScanGroup>)
    ensures
        scans_of(scans@, *config),
{
    let enabled = config.get_enabled_groups();
    let mut scans: Vec<ScanGroup> = Vec::new();
    let mut i: usize = 0;
    while i < enabled.len()
        invariant
            i <= enabled.len(),
            scans@.len() == i,
            forall|j: int|
                0 <= j < i ==> (#[trigger] scans@[j]).name@ == enabled@[j].name@
                    && scans@[j].network_range@ == enabled@[j].network_range@
                    && scans@[j].config@ == enabled@[j].scan_config@,
        decreases enabled.len() - i,
    {
        scans.push(
            ScanGroup::new(
                enabled[i].name.clone(),
                enabled[i].network_range.clone(),
                enabled[i].scan_config.clone(),
            ),
        );
        i += 1;
    }
    scans
}

/// The message for the main view that a scan event turns into.
pub open spec fn relayed(event: ScannerMessage, message: MainViewMessage) -> bool {
    match event {
        ScannerMessage::MinerDiscovered { group_name, miner } => message
            == (MainViewMessage::MinerFound { group_name, miner }),
        ScannerMessage::IpScanned { group_name, total_ips, scanned_count } => message
            == (MainViewMessage::IpScanned { group_name, total_ips, scanned_count }),
        ScannerMessage::GroupScanCompleted { group_name, result } => match result {
            Ok(_) => message == MainViewMessage::GroupCompleted(group_name),
            Err(error) => message == (MainViewMessage::GroupError { group_name, error }),
        },
        ScannerMessage::AllScansCompleted => message == MainViewMessage::AllScansCompleted,
    }
}

/// Turns a scan event into the message that tells the main view of it.
pub fn relay_scan_event(event: ScannerMessage) -> (message: MainViewMessage)
    ensures
        relayed(event, message),
{
    match event {
        ScannerMessage::MinerDiscovered { group_name, miner } => MainViewMessage::MinerFound {
            group_name,
            miner,
        },
        ScannerMessage::IpScanned { group_name, total_ips, scanned_count } => {
            MainViewMessage::IpScanned { group_name, total_ips, scanned_count }
        },
        ScannerMessage::GroupScanCompleted { group_name, result } => match result {
            Ok(_) => MainViewMessage::GroupCompleted(group_name),
            Err(error) => MainViewMessage::GroupError { group_name, error },
        },
        ScannerMessage::AllScansCompleted => MainViewMessage::AllScansCompleted,
    }
}

/// The action of the application that an action of the main view turns
/// into.
pub open spec fn lifted(inner: MainViewAction, action: ToolkitAction) -> bool {
    match inner {
        MainViewAction::Nothing => action is Nothing,
        MainViewAction::OpenUrl(url) => action == ToolkitAction::OpenUrl(url),
        MainViewAction::SaveConfig => action is SaveMainViewConfig,
    }
}

fn lift_action(inner: MainViewAction) -> (action: ToolkitAction)
    ensures
        lifted(inner, action),
{
    match inner {
        MainViewAction::Nothing => ToolkitAction::Nothing,
        MainViewAction::OpenUrl(url) => ToolkitAction::OpenUrl(url),
        MainViewAction::SaveConfig => ToolkitAction::SaveMainViewConfig,
    }
}

impl<M> BtcToolkit<M> {
    /// The configurations held are in order.
    pub open spec fn wf(self) -> bool {
        &&& self.main_view.wf()
        &&& self.network_config.app_config.wf()
        &&& self.app_config.wf()
    }

    /// The application as it starts with the stored configuration: the main
    /// page, no scan, and the configuration known to every page.
    pub fn boot(app_config: AppConfig) -> (state: Self)
        requires
            app_config.wf(),
        ensures
            state.wf(),
            state.current_page == Page::Main,
            state.device_detail_view.is_none(),
            state.active_scan.is_none(),
            state.app_config == app_config,
            state.main_view.app_config@ == app_config@,
            state.network_config.app_config@ == app_config@,
            !state.main_view.is_scanning,
            state.network_config.editing_group.is_none(),
    {
        let mut network_config = NetworkConfig::new();
        network_config.set_app_config(app_config.clone());
        let main_view = MainView::new(app_config.clone());
        BtcToolkit {
            current_page: Page::Main,
            main_view,
            network_config,
            device_detail_view: None,
            active_scan: None,
            app_config,
        }
    }

    /// What a message for the main view leaves of the application.
    pub open spec fn main_view_applied(
        self,
        after: Self,
        message: MainViewMessage,
        now_ms: u64,
        action: ToolkitAction,
    ) -> bool {
        &&& after.network_config == self.network_config
        &&& after.app_config == self.app_config
        &&& match message {
            MainViewMessage::OpenNetworkConfig | MainViewMessage::AddGroup => {
                &&& after.current_page == Page::NetworkConfig
                &&& after.main_view == self.main_view
                &&& after.device_detail_view == self.device_detail_view
                &&& after.active_scan == self.active_scan
                &&& action is Nothing
            },
            MainViewMessage::OpenDeviceDetail(ip) => {
                &&& after.current_page == Page::DeviceDetail(ip)
                &&& after.main_view == self.main_view
                &&& after.device_detail_view matches Some(page) && page.state
                    == DeviceDetailState::<M>::Loading(HostAddress::V4(ip))
                &&& after.active_scan == self.active_scan
                &&& action == ToolkitAction::FetchMinerData(ip)
            },
            MainViewMessage::StartScan => {
                &&& after.current_page == self.current_page
                &&& after.device_detail_view == self.device_detail_view
                &&& match after.active_scan {
                    Some(scans) => scans@.len() > 0 && scans_of(scans@, self.app_config),
                    None => enabled_groups(self.app_config.scan_groups@).len() == 0,
                }
                &&& self.main_view.applied(after.main_view, message, now_ms)
                &&& action is Nothing
            },
            MainViewMessage::StopScan => {
                &&& after.current_page == self.current_page
                &&& after.device_detail_view == self.device_detail_view
                &&& after.active_scan.is_none()
                &&& self.main_view.applied(after.main_view, message, now_ms)
                &&& action is Nothing
            },
            _ => {
                &&& after.current_page == self.current_page
                &&& after.device_detail_view == self.device_detail_view
                &&& after.active_scan == self.active_scan
                &&& self.main_view.applied(after.main_view, message, now_ms)
                &&& exists|inner: MainViewAction|
                    MainView::action_for(message, inner) && lifted(inner, action)
            },
        }
    }

    /// Applies a message for the main view.
    pub fn update_main_view(&mut self, message: MainViewMessage, now_ms: u64) -> (action:
        ToolkitAction)
        requires
            old(self).wf(),
        ensures
            final(self).wf(),
            old(self).main_view_applied(*final(self), message, now_ms, action),
    {
        match message {
            MainViewMessage::OpenNetworkConfig => {
                self.current_page = Page::NetworkConfig;
                ToolkitAction::Nothing
            },
            MainViewMessage::AddGroup => {
                self.current_page = Page::NetworkConfig;
                ToolkitAction::Nothing
            },
            MainViewMessage::OpenDeviceDetail(ip) => {
                self.device_detail_view = Some(DeviceDetailView::new_loading(HostAddress::V4(ip)));
                self.current_page = Page::DeviceDetail(ip);
                ToolkitAction::FetchMinerData(ip)
            },
            MainViewMessage::StartScan => {
                let scans = scans_for(&self.app_config);
                self.active_scan = if scans.len() == 0 {
                    None
                } else {
                    Some(scans)
                };
                self.main_view.update(MainViewMessage::StartScan, now_ms);
                ToolkitAction::Nothing
            },
            MainViewMessage::StopScan => {
                self.active_scan = None;
                self.main_view.update(MainViewMessage::StopScan, now_ms);
                ToolkitAction::Nothing
            },
            other => {
                let inner = self.main_view.update(other, now_ms);
                lift_action(inner)
            },
        }
    }
}

impl<M> BtcToolkit<M> {
    /// What a message for the configuration page leaves of the
    /// application: the page applies it; closing the page leads back to the
    /// main page; saving makes the page's configuration that of the
    /// application and of the main view, and leads back as well.
    pub open spec fn network_config_applied(
        self,
        after: Self,
        message: NetworkConfigMessage,
        action: ToolkitAction,
    ) -> bool {
        &&& self.network_config.applied(after.network_config, message)
        &&& after.device_detail_view == self.device_detail_view
        &&& after.active_scan == self.active_scan
        &&& match message {
            NetworkConfigMessage::Close => {
                &&& after.current_page == Page::Main
                &&& after.app_config == self.app_config
                &&& after.main_view == self.main_view
                &&& action is Nothing
            },
            NetworkConfigMessage::Save => {
                &&& after.current_page == Page::Main
                &&& after.app_config@ == self.network_config.app_config@
                &&& after.main_view.app_config@ == self.network_config.app_config@
                &&& after.main_view == (MainView {
                    app_config: after.main_view.app_config,
                    ..self.main_view
                })
                &&& action is SaveConfig
            },
            _ => {
                &&& after.current_page == self.current_page
                &&& after.app_config == self.app_config
                &&& after.main_view == self.main_view
                &&& action is Nothing
            },
        }
    }

    /// Applies a message for the configuration page.
    pub fn update_network_config(&mut self, message: NetworkConfigMessage) -> (action:
        ToolkitAction)
        requires
            old(self).wf(),
        ensures
            final(self).wf(),
            old(self).network_config_applied(*final(self), message, action),
    {
        let closes = match &message {
            NetworkConfigMessage::Close => true,
            _ => false,
        };
        let saves = match &message {
            NetworkConfigMessage::Save => true,
            _ => false,
        };
        self.network_config.update(message);
        if closes {
            self.current_page = Page::Main;
            ToolkitAction::Nothing
        } else if saves {
            self.app_config = self.network_config.get_app_config().clone();
            let ghost folded = self.main_view;
            self.main_view.set_app_config(self.app_config.clone());
            proof {
                assert forall|i: int| 0 <= i < self.main_view.group_status@.len() implies (
                #[trigger] self.main_view.group_status@[i]).value.miner_count
                    <= self.main_view.miner_total(self.main_view.group_status@[i].name@) by {
                    assert(folded.group_status@[i].value.miner_count <= folded.miner_total(
                        folded.group_status@[i].name@,
                    ));
                }
            }
            self.current_page = Page::Main;
            ToolkitAction::SaveConfig
        } else {
            ToolkitAction::Nothing
        }
    }

    /// What a message for the detail page leaves of the application:
    /// going back closes the page; fetched data reaches the page if it is
    /// still there; a request for the browser gives the address of the miner
    /// shown.
    pub open spec fn device_detail_applied(
        self,
        after: Self,
        message: DeviceDetailMessage<M>,
        action: ToolkitAction,
    ) -> bool {
        &&& after.main_view == self.main_view
        &&& after.network_config == self.network_config
        &&& after.app_config == self.app_config
        &&& after.active_scan == self.active_scan
        &&& match message {
            DeviceDetailMessage::Back => {
                &&& after.current_page == Page::Main
                &&& after.device_detail_view.is_none()
                &&& action is Nothing
            },
            DeviceDetailMessage::DataFetched(result) => {
                &&& after.current_page == self.current_page
                &&& match self.device_detail_view {
                    Some(_) => after.device_detail_view matches Some(page) && match result {
                        Ok(miner) => page.state == (DeviceDetailState::Loaded { miner }),
                        Err(error) => page.state matches DeviceDetailState::Error(reason)
                            && reason@ == error.message_text(),
                    },
                    None => after.device_detail_view.is_none(),
                }
                &&& action is Nothing
            },
            DeviceDetailMessage::OpenInBrowser => {
                &&& after.current_page == self.current_page
                &&& after.device_detail_view == self.device_detail_view
                &&& match self.current_page {
                    Page::DeviceDetail(ip) => action matches ToolkitAction::OpenUrl(url) && url@
                        == miner_url(ip),
                    _ => action is Nothing,
                }
            },
            _ => {
                &&& after.current_page == self.current_page
                &&& after.device_detail_view == self.device_detail_view
                &&& action is Nothing
            },
        }
    }

    /// Applies a message for the detail page.
    pub fn update_device_detail(&mut self, message: DeviceDetailMessage<M>) -> (action:
        ToolkitAction)
        ensures
            old(self).device_detail_applied(*final(self), message, action),
    {
        match message {
            DeviceDetailMessage::Back => {
                self.current_page = Page::Main;
                self.device_detail_view = None;
                ToolkitAction::Nothing
            },
            DeviceDetailMessage::DataFetched(result) => {
                match &mut self.device_detail_view {
                    Some(page) => {
                        page.update_with_data(result);
                    },
                    None => {},
                }
                ToolkitAction::Nothing
            },
            DeviceDetailMessage::OpenInBrowser => {
                match self.current_page {
                    Page::DeviceDetail(ip) => ToolkitAction::OpenUrl(format_miner_url(ip)),
                    _ => ToolkitAction::Nothing,
                }
            },
            DeviceDetailMessage::Restart => ToolkitAction::Nothing,
            DeviceDetailMessage::SetPowerLimit => ToolkitAction::Nothing,
            DeviceDetailMessage::ToggleFaultLight => ToolkitAction::Nothing,
        }
    }

    /// What a scan event leaves of the application: the main view is told
    /// of it; once the whole scan is done, the configuration of the main
    /// view, with the results of the scan, becomes that of the application.
    pub open spec fn scanner_applied(
        self,
        after: Self,
        event: ScannerMessage,
        now_ms: u64,
        action: ToolkitAction,
    ) -> bool {
        &&& after.current_page == self.current_page
        &&& after.network_config == self.network_config
        &&& after.device_detail_view == self.device_detail_view
        &&& after.active_scan == self.active_scan
        &&& exists|message: MainViewMessage|
            relayed(event, message) && self.main_view.applied(after.main_view, message, now_ms)
        &&& match event {
            ScannerMessage::AllScansCompleted => after.app_config@ == after.main_view.app_config@
                && action is SaveConfig,
            ScannerMessage::GroupScanCompleted { group_name, result } => after.app_config
                == self.app_config && match result {
                Ok(_) => action is SaveMainViewConfig,
                Err(_) => action is Nothing,
            },
            _ => after.app_config == self.app_config && action is Nothing,
        }
    }

    /// Applies an event of the running scan.
    pub fn update_scanner(&mut self, event: ScannerMessage, now_ms: u64) -> (action: ToolkitAction)
        requires
            old(self).wf(),
        ensures
            final(self).wf(),
            old(self).scanner_applied(*final(self), event, now_ms, action),
    {
        let ends_scan = match &event {
            ScannerMessage::AllScansCompleted => true,
            _ => false,
        };
        let message = relay_scan_event(event);
        let inner = self.main_view.update(message, now_ms);
        if ends_scan {
            self.app_config = self.main_view.get_app_config().clone();
            ToolkitAction::SaveConfig
        } else {
            match inner {
                MainViewAction::SaveConfig => ToolkitAction::SaveMainViewConfig,
                _ => ToolkitAction::Nothing,
            }
        }
    }

    /// What applying `message` at time `now_ms` leaves of the application,
    /// and what is to be done outside of it.
    pub open spec fn applied(
        self,
        after: Self,
        message: BtcToolkitMessage<M>,
        now_ms: u64,
        action: ToolkitAction,
    ) -> bool {
        match message {
            BtcToolkitMessage::MainView(inner) => self.main_view_applied(
                after,
                inner,
                now_ms,
                action,
            ),
            BtcToolkitMessage::NetworkConfig(inner) => self.network_config_applied(
                after,
                inner,
                action,
            ),
            BtcToolkitMessage::DeviceDetail(inner) => self.device_detail_applied(
                after,
                inner,
                action,
            ),
            BtcToolkitMessage::Scanner(event) => self.scanner_applied(after, event, now_ms, action),
        }
    }

    /// Applies a message to the application and says what is to be done
    /// outside of it. `now_ms` is the time on the caller's clock.
    pub fn update(&mut self, message: BtcToolkitMessage<M>, now_ms: u64) -> (action: ToolkitAction)
        requires
            old(self).wf(),
        ensures
            final(self).wf(),
            old(self).applied(*final(self), message, now_ms, action),
    {
        match message {
            BtcToolkitMessage::MainView(inner) => self.update_main_view(inner, now_ms),
            BtcToolkitMessage::NetworkConfig(inner) => self.update_network_config(inner),
            BtcToolkitMessage::DeviceDetail(inner) => self.update_device_detail(inner),
            BtcToolkitMessage::Scanner(event) => self.update_scanner(event, now_ms),
        }
    }

    /// The scan to subscribe to: the groups of the running scan, if one
    /// runs.
    pub fn subscription(&self) -> (scans: Option<&Vec<ScanGroup>>)
        ensures
            match (scans, self.active_scan) {
                (Some(wanted), Some(active)) => *wanted == active,
                (None, None) => true,
                _ => false,
            },
    {
        match &self.active_scan {
            Some(active) => Some(active),
            None => None,
        }
    }
}

} // verus!
