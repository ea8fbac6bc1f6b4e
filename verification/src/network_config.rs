//! State of the configuration page: the scan groups, the group being
//! edited, and the filters ticked for it.

use crate::config::{is_first_named, none_named, without_name, AppConfig, ScanGroup};
use crate::network::scanner::{MinerFirmware, MinerMake, ScanConfig};
use vstd::prelude::*;
use vstd::string::*;

verus! {

/// The makes ticked in the filter form.
#[derive(Debug, Clone, Copy, PartialEq, Eq, Structural)]
pub struct MakeSet {
    pub ant_miner: bool,
    pub whats_miner: bool,
    pub avalon_miner: bool,
    pub bit_axe: bool,
    pub e_pic: bool,
    pub braiins: bool,
}

/// The firmwares ticked in the filter form.
#[derive(Debug, Clone, Copy, PartialEq, Eq, Structural)]
pub struct FirmwareSet {
    pub braiins_os: bool,
    pub e_pic: bool,
    pub lux_os: bool,
    pub v_nish: bool,
    pub marathon: bool,
}

impl MakeSet {
    /// Whether `make` is ticked.
    pub open spec fn has(self, make: MinerMake) -> bool {
        match make {
            MinerMake::AntMiner => self.ant_miner,
            MinerMake::WhatsMiner => self.whats_miner,
            MinerMake::AvalonMiner => self.avalon_miner,
            MinerMake::BitAxe => self.bit_axe,
            MinerMake::EPic => self.e_pic,
            MinerMake::Braiins => self.braiins,
        }
    }

    /// The set with `make` ticked or not, and the rest as it is.
    pub open spec fn with(self, make: MinerMake, ticked: bool) -> MakeSet {
        match make {
            MinerMake::AntMiner => MakeSet { ant_miner: ticked, ..self },
            MinerMake::WhatsMiner => MakeSet { whats_miner: ticked, ..self },
            MinerMake::AvalonMiner => MakeSet { avalon_miner: ticked, ..self },
            MinerMake::BitAxe => MakeSet { bit_axe: ticked, ..self },
            MinerMake::EPic => MakeSet { e_pic: ticked, ..self },
            MinerMake::Braiins => MakeSet { braiins: ticked, ..self },
        }
    }

    /// The ticked makes, in the order of the form.
    pub open spec fn listed(self) -> Seq<MinerMake> {
        (if self.ant_miner {
            seq![MinerMake::AntMiner]
        } else {
            Seq::empty()
        }) + (if self.whats_miner {
            seq![MinerMake::WhatsMiner]
        } else {
            Seq::empty()
        }) + (if self.avalon_miner {
            seq![MinerMake::AvalonMiner]
        } else {
            Seq::empty()
        }) + (if self.bit_axe {
            seq![MinerMake::BitAxe]
        } else {
            Seq::empty()
        }) + (if self.e_pic {
            seq![MinerMake::EPic]
        } else {
            Seq::empty()
        }) + (if self.braiins {
            seq![MinerMake::Braiins]
        } else {
            Seq::empty()
        })
    }

    /// The set of the makes in `makes`.
    pub open spec fn of(makes: Seq<MinerMake>) -> MakeSet
        decreases makes.len(),
    {
        if makes.len() == 0 {
            MakeSet::nothing()
        } else {
            MakeSet::of(makes.drop_last()).with(makes.last(), true)
        }
    }

    /// Nothing ticked.
    pub open spec fn nothing() -> MakeSet {
        MakeSet {
            ant_miner: false,
            whats_miner: false,
            avalon_miner: false,
            bit_axe: false,
            e_pic: false,
            braiins: false,
        }
    }

    pub fn new() -> (set: Self)
        ensures
            set == Self::nothing(),
    {
        MakeSet {
            ant_miner: false,
            whats_miner: false,
            avalon_miner: false,
            bit_axe: false,
            e_pic: false,
            braiins: false,
        }
    }

    pub fn contains(&self, make: MinerMake) -> (ticked: bool)
        ensures
            ticked == self.has(make),
    {
        match make {
            MinerMake::AntMiner => self.ant_miner,
            MinerMake::WhatsMiner => self.whats_miner,
            MinerMake::AvalonMiner => self.avalon_miner,
            MinerMake::BitAxe => self.bit_axe,
            MinerMake::EPic => self.e_pic,
            MinerMake::Braiins => self.braiins,
        }
    }

    /// Ticks `make`, or clears it.
    pub fn set(&mut self, make: MinerMake, ticked: bool)
        ensures
            *final(self) == old(self).with(make, ticked),
    {
        match make {
            MinerMake::AntMiner => self.ant_miner = ticked,
            MinerMake::WhatsMiner => self.whats_miner = ticked,
            MinerMake::AvalonMiner => self.avalon_miner = ticked,
            MinerMake::BitAxe => self.bit_axe = ticked,
            MinerMake::EPic => self.e_pic = ticked,
            MinerMake::Braiins => self.braiins = ticked,
        }
    }

    /// The ticked makes, in the order of the form.
    pub fn to_list(&self) -> (makes: Vec<MinerMake>)
        ensures
            makes@ == self.listed(),
    {
        let mut makes: Vec<MinerMake> = Vec::new();
        if self.ant_miner {
            makes.push(MinerMake::AntMiner);
        }
        if self.whats_miner {
            makes.push(MinerMake::WhatsMiner);
        }
        if self.avalon_miner {
            makes.push(MinerMake::AvalonMiner);
        }
        if self.bit_axe {
            makes.push(MinerMake::BitAxe);
        }
        if self.e_pic {
            makes.push(MinerMake::EPic);
        }
        if self.braiins {
            makes.push(MinerMake::Braiins);
        }
        assert(makes@ =~= self.listed());
        makes
    }

    /// The set of the makes in `makes`.
    pub fn from_list(makes: &Vec<MinerMake>) -> (set: Self)
        ensures
            set == Self::of(makes@),
    {
        let mut set = MakeSet::new();
        let mut i: usize = 0;
        while i < makes.len()
            invariant
                i <= makes.len(),
                set == Self::of(makes@.take(i as int)),
            decreases makes.len() - i,
        {
            proof {
                let front = makes@.take(i + 1);
                assert(front.drop_last() =~= makes@.take(i as int));
                assert(front.last() == makes@[i as int]);
            }
            set.set(makes[i], true);
            i += 1;
        }
        assert(makes@.take(makes.len() as int) =~= makes@);
        set
    }
}

impl FirmwareSet {
    /// Whether `firmware` is ticked.
    pub open spec fn has(self, firmware: MinerFirmware) -> bool {
        match firmware {
            MinerFirmware::BraiinsOS => self.braiins_os,
            MinerFirmware::EPic => self.e_pic,
            MinerFirmware::LuxOS => self.lux_os,
            MinerFirmware::VNish => self.v_nish,
            MinerFirmware::Marathon => self.marathon,
        }
    }

    /// The set with `firmware` ticked or not, and the rest as it is.
    pub open spec fn with(self, firmware: MinerFirmware, ticked: bool) -> FirmwareSet {
        match firmware {
            MinerFirmware::BraiinsOS => FirmwareSet { braiins_os: ticked, ..self },
            MinerFirmware::EPic => FirmwareSet { e_pic: ticked, ..self },
            MinerFirmware::LuxOS => FirmwareSet { lux_os: ticked, ..self },
            MinerFirmware::VNish => FirmwareSet { v_nish: ticked, ..self },
            MinerFirmware::Marathon => FirmwareSet { marathon: ticked, ..self },
        }
    }

    /// The ticked firmwares, in the order of the form.
    pub open spec fn listed(self) -> Seq<MinerFirmware> {
        (if self.braiins_os {
            seq![MinerFirmware::BraiinsOS]
        } else {
            Seq::empty()
        }) + (if self.e_pic {
            seq![MinerFirmware::EPic]
        } else {
            Seq::empty()
        }) + (if self.lux_os {
            seq![MinerFirmware::LuxOS]
        } else {
            Seq::empty()
        }) + (if self.v_nish {
            seq![MinerFirmware::VNish]
        } else {
            Seq::empty()
        }) + (if self.marathon {
            seq![MinerFirmware::Marathon]
        } else {
            Seq::empty()
        })
    }

    /// The set of the firmwares in `firmwares`.
    pub open spec fn of(firmwares: Seq<MinerFirmware>) -> FirmwareSet
        decreases firmwares.len(),
    {
        if firmwares.len() == 0 {
            FirmwareSet::nothing()
        } else {
            FirmwareSet::of(firmwares.drop_last()).with(firmwares.last(), true)
        }
    }

    /// Nothing ticked.
    pub open spec fn nothing() -> FirmwareSet {
        FirmwareSet {
            braiins_os: false,
            e_pic: false,
            lux_os: false,
            v_nish: false,
            marathon: false,
        }
    }

    pub fn new() -> (set: Self)
        ensures
            set == Self::nothing(),
    {
        FirmwareSet {
            braiins_os: false,
            e_pic: false,
            lux_os: false,
            v_nish: false,
            marathon: false,
        }
    }

    pub fn contains(&self, firmware: MinerFirmware) -> (ticked: bool)
        ensures
            ticked == self.has(firmware),
    {
        match firmware {
            MinerFirmware::BraiinsOS => self.braiins_os,
            MinerFirmware::EPic => self.e_pic,
            MinerFirmware::LuxOS => self.lux_os,
            MinerFirmware::VNish => self.v_nish,
            MinerFirmware::Marathon => self.marathon,
        }
    }

    /// Ticks `firmware`, or clears it.
    pub fn set(&mut self, firmware: MinerFirmware, ticked: bool)
        ensures
            *final(self) == old(self).with(firmware, ticked),
    {
        match firmware {
            MinerFirmware::BraiinsOS => self.braiins_os = ticked,
            MinerFirmware::EPic => self.e_pic = ticked,
            MinerFirmware::LuxOS => self.lux_os = ticked,
            MinerFirmware::VNish => self.v_nish = ticked,
            MinerFirmware::Marathon => self.marathon = ticked,
        }
    }

    /// The ticked firmwares, in the order of the form.
    pub fn to_list(&self) -> (firmwares: Vec<MinerFirmware>)
        ensures
            firmwares@ == self.listed(),
    {
        let mut firmwares: Vec<MinerFirmware> = Vec::new();
        if self.braiins_os {
            firmwares.push(MinerFirmware::BraiinsOS);
        }
        if self.e_pic {
            firmwares.push(MinerFirmware::EPic);
        }
        if self.lux_os {
            firmwares.push(MinerFirmware::LuxOS);
        }
        if self.v_nish {
            firmwares.push(MinerFirmware::VNish);
        }
        if self.marathon {
            firmwares.push(MinerFirmware::Marathon);
        }
        assert(firmwares@ =~= self.listed());
        firmwares
    }

    /// The set of the firmwares in `firmwares`.
    pub fn from_list(firmwares: &Vec<MinerFirmware>) -> (set: Self)
        ensures
            set == Self::of(firmwares@),
    {
        let mut set = FirmwareSet::new();
        let mut i: usize = 0;
        while i < firmwares.len()
            invariant
                i <= firmwares.len(),
                set == Self::of(firmwares@.take(i as int)),
            decreases firmwares.len() - i,
        {
            proof {
                let front = firmwares@.take(i + 1);
                assert(front.drop_last() =~= firmwares@.take(i as int));
                assert(front.last() == firmwares@[i as int]);
            }
            set.set(firmwares[i], true);
            i += 1;
        }
        assert(firmwares@.take(firmwares.len() as int) =~= firmwares@);
        set
    }
}

/// The group in the editor.
#[derive(Debug, Clone, PartialEq, Eq)]
pub struct EditingGroup {
    /// The name of the group being changed; absent for a new group.
    pub original_name: Option<String>,
    pub name: String,
    pub network_range: String,
    pub enabled: bool,
}

/// State of the configuration page.
#[derive(Debug, Clone, PartialEq, Eq)]
pub struct NetworkConfig {
    pub app_config: AppConfig,
    pub editing_group: Option<EditingGroup>,
    pub search_firmwares: FirmwareSet,
    pub search_makes: MakeSet,
}

/// What the configuration page is told.
#[derive(Debug, Clone, PartialEq, Eq)]
pub enum NetworkConfigMessage {
    Close,
    Save,
    AddNewGroup,
    EditGroup(String),
    DeleteGroup(String),
    ToggleGroupEnabled(String, bool),
    SetGroupName(String),
    SetGroupNetworkRange(String),
    SetGroupEnabled(bool),
    SaveGroup,
    CancelGroupEdit,
    ToggleFirmware(MinerFirmware, bool),
    ToggleMake(MinerMake, bool),
}

/// The name a make is listed under.
pub open spec fn make_name(make: MinerMake) -> Seq<char> {
    match make {
        MinerMake::AntMiner => "AntMiner"@,
        MinerMake::WhatsMiner => "WhatsMiner"@,
        MinerMake::AvalonMiner => "AvalonMiner"@,
        MinerMake::BitAxe => "BitAxe"@,
        MinerMake::EPic => "EPic"@,
        MinerMake::Braiins => "Braiins"@,
    }
}

/// The name a firmware is listed under.
pub open spec fn firmware_name(firmware: MinerFirmware) -> Seq<char> {
    match firmware {
        MinerFirmware::BraiinsOS => "BraiinsOS"@,
        MinerFirmware::EPic => "EPic"@,
        MinerFirmware::LuxOS => "LuxOS"@,
        MinerFirmware::VNish => "VNish"@,
        MinerFirmware::Marathon => "Marathon"@,
    }
}

/// The names of `makes`, separated by commas.
pub open spec fn make_names(makes: Seq<MinerMake>) -> Seq<char>
    decreases makes.len(),
{
    if makes.len() == 0 {
        Seq::empty()
    } else if makes.len() == 1 {
        make_name(makes[0])
    } else {
        make_names(makes.drop_last()) + ", "@ + make_name(makes.last())
    }
}

/// The names of `firmwares`, separated by commas.
pub open spec fn firmware_names(firmwares: Seq<MinerFirmware>) -> Seq<char>
    decreases firmwares.len(),
{
    if firmwares.len() == 0 {
        Seq::empty()
    } else if firmwares.len() == 1 {
        firmware_name(firmwares[0])
    } else {
        firmware_names(firmwares.drop_last()) + ", "@ + firmware_name(firmwares.last())
    }
}

/// The part of the summary that lists the makes: empty where no make
/// filter is set.
pub open spec fn makes_part(config: ScanConfig) -> Seq<char> {
    match config.search_makes {
        Some(makes) => if makes@.len() > 0 {
            "Makes: "@ + make_names(makes@)
        } else {
            Seq::empty()
        },
        None => Seq::empty(),
    }
}

/// The part of the summary that lists the firmwares: empty where no
/// firmware filter is set.
pub open spec fn firmwares_part(config: ScanConfig) -> Seq<char> {
    match config.search_firmwares {
        Some(firmwares) => if firmwares@.len() > 0 {
            "Firmware: "@ + firmware_names(firmwares@)
        } else {
            Seq::empty()
        },
        None => Seq::empty(),
    }
}

/// One line on the filters of a group: the makes, the firmwares, both
/// with a bar between them, or the note that there are none.
pub open spec fn filters_summary(config: ScanConfig) -> Seq<char> {
    let makes = makes_part(config);
    let firmwares = firmwares_part(config);
    if makes.len() == 0 && firmwares.len() == 0 {
        "No filters (scan all)"@
    } else if firmwares.len() == 0 {
        makes
    } else if makes.len() == 0 {
        firmwares
    } else {
        makes + " | "@ + firmwares
    }
}

fn make_label(make: MinerMake) -> (name: &'static str)
    ensures
        name@ == make_name(make),
{
    match make {
        MinerMake::AntMiner => "AntMiner",
        MinerMake::WhatsMiner => "WhatsMiner",
        MinerMake::AvalonMiner => "AvalonMiner",
        MinerMake::BitAxe => "BitAxe",
        MinerMake::EPic => "EPic",
        MinerMake::Braiins => "Braiins",
    }
}

fn firmware_label(firmware: MinerFirmware) -> (name: &'static str)
    ensures
        name@ == firmware_name(firmware),
{
    match firmware {
        MinerFirmware::BraiinsOS => "BraiinsOS",
        MinerFirmware::EPic => "EPic",
        MinerFirmware::LuxOS => "LuxOS",
        MinerFirmware::VNish => "VNish",
        MinerFirmware::Marathon => "Marathon",
    }
}

fn push_make_names(out: &mut String, makes: &Vec<MinerMake>)
    ensures
        final(out)@ == old(out)@ + make_names(makes@),
{
    let mut i: usize = 0;
    assert(old(out)@ + make_names(makes@.take(0)) =~= old(out)@);
    while i < makes.len()
        invariant
            i <= makes.len(),
            out@ == old(out)@ + make_names(makes@.take(i as int)),
        decreases makes.len() - i,
    {
        proof {
            let front = makes@.take(i + 1);
            assert(front.drop_last() =~= makes@.take(i as int));
            assert(front.last() == makes@[i as int]);
            assert(front[0] == makes@[0]);
        }
        if i > 0 {
            out.append(", ");
        }
        out.append(make_label(makes[i]));
        assert(out@ =~= old(out)@ + make_names(makes@.take(i + 1)));
        i += 1;
    }
    assert(makes@.take(makes.len() as int) =~= makes@);
}

fn push_firmware_names(out: &mut String, firmwares: &Vec<MinerFirmware>)
    ensures
        final(out)@ == old(out)@ + firmware_names(firmwares@),
{
    let mut i: usize = 0;
    assert(old(out)@ + firmware_names(firmwares@.take(0)) =~= old(out)@);
    while i < firmwares.len()
        invariant
            i <= firmwares.len(),
            out@ == old(out)@ + firmware_names(firmwares@.take(i as int)),
        decreases firmwares.len() - i,
    {
        proof {
            let front = firmwares@.take(i + 1);
            assert(front.drop_last() =~= firmwares@.take(i as int));
            assert(front.last() == firmwares@[i as int]);
            assert(front[0] == firmwares@[0]);
        }
        if i > 0 {
            out.append(", ");
        }
        out.append(firmware_label(firmwares[i]));
        assert(out@ =~= old(out)@ + firmware_names(firmwares@.take(i + 1)));
        i += 1;
    }
    assert(firmwares@.take(firmwares.len() as int) =~= firmwares@);
}

/// Sums the filters of a group up in one line.
pub fn format_filters_summary(scan_config: &ScanConfig) -> (summary: String)
    ensures
        summary@ == filters_summary(*scan_config),
{
    let mut summary = String::new();
    let mut any = false;
    match &scan_config.search_makes {
        Some(makes) => {
            if makes.len() > 0 {
                summary.append("Makes: ");
                push_make_names(&mut summary, makes);
                any = true;
            }
        },
        None => {},
    }
    assert(summary@ =~= makes_part(*scan_config));
    proof {
        reveal_strlit("Makes: ");
        reveal_strlit("Firmware: ");
    }
    assert(any == (makes_part(*scan_config).len() > 0));
    match &scan_config.search_firmwares {
        Some(firmwares) => {
            if firmwares.len() > 0 {
                if any {
                    summary.append(" | ");
                }
                summary.append("Firmware: ");
                push_firmware_names(&mut summary, firmwares);
                any = true;
            }
        },
        None => {},
    }
    if !any {
        summary.append("No filters (scan all)");
    }
    assert(summary@ =~= filters_summary(*scan_config));
    summary
}

impl NetworkConfig {
    /// The filter the ticked makes and firmwares stand for: a list for
    /// each kind of which something is ticked, none for the other.
    pub open spec fn built_config(self, config: ScanConfig) -> bool {
        &&& match config.search_makes {
            Some(makes) => makes@ == self.search_makes.listed() && makes@.len() > 0,
            None => self.search_makes.listed().len() == 0,
        }
        &&& match config.search_firmwares {
            Some(firmwares) => firmwares@ == self.search_firmwares.listed() && firmwares@.len()
                > 0,
            None => self.search_firmwares.listed().len() == 0,
        }
    }

    /// The page as it opens: the default configuration, nothing in the
    /// editor, nothing ticked.
    pub fn new() -> (page: Self)
        ensures
            page.app_config.wf(),
            page.app_config.scan_groups@.len() == 1,
            page.editing_group.is_none(),
            page.search_makes == MakeSet::nothing(),
            page.search_firmwares == FirmwareSet::nothing(),
    {
        NetworkConfig {
            app_config: AppConfig::default(),
            editing_group: None,
            search_makes: MakeSet::new(),
            search_firmwares: FirmwareSet::new(),
        }
    }

    pub fn set_app_config(&mut self, config: AppConfig)
        ensures
            *final(self) == (NetworkConfig { app_config: config, ..*old(self) }),
    {
        self.app_config = config;
    }

    pub fn get_app_config(&self) -> (config: &AppConfig)
        ensures
            *config == self.app_config,
    {
        &self.app_config
    }

    /// Clears every tick.
    pub fn reset_filters(&mut self)
        ensures
            *final(self) == (NetworkConfig {
                search_makes: MakeSet::nothing(),
                search_firmwares: FirmwareSet::nothing(),
                ..*old(self)
            }),
    {
        self.search_firmwares = FirmwareSet::new();
        self.search_makes = MakeSet::new();
    }

    /// The ticks that show the filters `config`.
    pub open spec fn ticks_of(config: ScanConfig) -> (MakeSet, FirmwareSet) {
        (
            match config.search_makes {
                Some(makes) => MakeSet::of(makes@),
                None => MakeSet::nothing(),
            },
            match config.search_firmwares {
                Some(firmwares) => FirmwareSet::of(firmwares@),
                None => FirmwareSet::nothing(),
            },
        )
    }

    /// Ticks what the filters of a group list, and nothing else.
    pub fn load_filters_from_group(&mut self, scan_config: &ScanConfig)
        ensures
            *final(self) == (NetworkConfig {
                search_makes: Self::ticks_of(*scan_config).0,
                search_firmwares: Self::ticks_of(*scan_config).1,
                ..*old(self)
            }),
    {
        self.reset_filters();
        match &scan_config.search_makes {
            Some(makes) => {
                self.search_makes = MakeSet::from_list(makes);
            },
            None => {},
        }
        match &scan_config.search_firmwares {
            Some(firmwares) => {
                self.search_firmwares = FirmwareSet::from_list(firmwares);
            },
            None => {},
        }
    }

    /// The filters that the ticks stand for.
    pub fn build_scan_config(&self) -> (config: ScanConfig)
        ensures
            self.built_config(config),
    {
        let makes = self.search_makes.to_list();
        let firmwares = self.search_firmwares.to_list();
        ScanConfig {
            search_makes: if makes.len() > 0 {
                Some(makes)
            } else {
                None
            },
            search_firmwares: if firmwares.len() > 0 {
                Some(firmwares)
            } else {
                None
            },
        }
    }
}

impl EditingGroup {
    /// Whether the editor holds exactly these values.
    pub open spec fn holds(
        self,
        original_name: Option<Seq<char>>,
        name: Seq<char>,
        network_range: Seq<char>,
        enabled: bool,
    ) -> bool {
        &&& match self.original_name {
            Some(original) => original_name == Some(original@),
            None => original_name.is_none(),
        }
        &&& self.name@ == name
        &&& self.network_range@ == network_range
        &&& self.enabled == enabled
    }

    /// The name of the group being changed, as text.
    pub open spec fn original(self) -> Option<Seq<char>> {
        match self.original_name {
            Some(original) => Some(original@),
            None => None,
        }
    }
}

impl NetworkConfig {
    /// Whether `group` is what the editor `editing` and the ticks of
    /// `self` describe.
    pub open spec fn describes(self, editing: EditingGroup, group: ScanGroup) -> bool {
        &&& group.name@ == editing.name@
        &&& group.network_range@ == editing.network_range@
        &&& group.enabled == editing.enabled
        &&& self.built_config(group.scan_config)
    }

    /// What applying `message` leaves of the page `self`.
    pub open spec fn applied(self, after: NetworkConfig, message: NetworkConfigMessage) -> bool {
        match message {
            NetworkConfigMessage::Close | NetworkConfigMessage::Save => after == self,
            NetworkConfigMessage::AddNewGroup => {
                &&& after.app_config == self.app_config
                &&& after.editing_group matches Some(editing) && editing.holds(
                    None,
                    "New Group"@,
                    "192.168.1.0/24"@,
                    true,
                )
                &&& after.search_makes == MakeSet::nothing()
                &&& after.search_firmwares == FirmwareSet::nothing()
            },
            NetworkConfigMessage::EditGroup(name) => if none_named(
                self.app_config.scan_groups@,
                name@,
            ) {
                after == self
            } else {
                exists|index: int|
                    {
                        &&& is_first_named(self.app_config.scan_groups@, name@, index)
                        &&& after.app_config == self.app_config
                        &&& after.editing_group matches Some(editing) && editing.holds(
                            Some(name@),
                            self.app_config.scan_groups@[index].name@,
                            self.app_config.scan_groups@[index].network_range@,
                            self.app_config.scan_groups@[index].enabled,
                        )
                        &&& (after.search_makes, after.search_firmwares) == Self::ticks_of(
                            self.app_config.scan_groups@[index].scan_config,
                        )
                    }
            },
            NetworkConfigMessage::DeleteGroup(name) => {
                &&& after.app_config.scan_groups@ == without_name(
                    self.app_config.scan_groups@,
                    name@,
                )
                &&& after.app_config.version == self.app_config.version
                &&& after.app_config.last_scan_results == self.app_config.last_scan_results
                &&& after.editing_group == self.editing_group
                &&& after.search_makes == self.search_makes
                &&& after.search_firmwares == self.search_firmwares
            },
            NetworkConfigMessage::ToggleGroupEnabled(name, enabled) => {
                &&& if none_named(self.app_config.scan_groups@, name@) {
                    after.app_config.scan_groups@ == self.app_config.scan_groups@
                } else {
                    exists|index: int|
                        is_first_named(self.app_config.scan_groups@, name@, index)
                            && after.app_config.scan_groups@
                            == self.app_config.scan_groups@.update(
                            index,
                            ScanGroup { enabled, ..self.app_config.scan_groups@[index] },
                        )
                }
                &&& after.app_config.version == self.app_config.version
                &&& after.app_config.last_scan_results == self.app_config.last_scan_results
                &&& after.editing_group == self.editing_group
                &&& after.search_makes == self.search_makes
                &&& after.search_firmwares == self.search_firmwares
            },
            NetworkConfigMessage::SetGroupName(name) => after == (NetworkConfig {
                editing_group: match self.editing_group {
                    Some(editing) => Some(EditingGroup { name, ..editing }),
                    None => None,
                },
                ..self
            }),
            NetworkConfigMessage::SetGroupNetworkRange(range) => after == (NetworkConfig {
                editing_group: match self.editing_group {
                    Some(editing) => Some(EditingGroup { network_range: range, ..editing }),
                    None => None,
                },
                ..self
            }),
            NetworkConfigMessage::SetGroupEnabled(enabled) => after == (NetworkConfig {
                editing_group: match self.editing_group {
                    Some(editing) => Some(EditingGroup { enabled, ..editing }),
                    None => None,
                },
                ..self
            }),
            NetworkConfigMessage::SaveGroup => match self.editing_group {
                None => after == self,
                Some(editing) => {
                    &&& after.editing_group.is_none()
                    &&& after.search_makes == self.search_makes
                    &&& after.search_firmwares == self.search_firmwares
                    &&& after.app_config.version == self.app_config.version
                    &&& after.app_config.last_scan_results == self.app_config.last_scan_results
                    &&& match editing.original() {
                        None => after.app_config.scan_groups@.len()
                            == self.app_config.scan_groups@.len() + 1
                            && after.app_config.scan_groups@.drop_last()
                            == self.app_config.scan_groups@ && self.describes(
                            editing,
                            after.app_config.scan_groups@.last(),
                        ),
                        Some(original) => if none_named(self.app_config.scan_groups@, original) {
                            after.app_config.scan_groups@ == self.app_config.scan_groups@
                        } else {
                            exists|index: int|
                                is_first_named(self.app_config.scan_groups@, original, index)
                                    && after.app_config.scan_groups@
                                    == self.app_config.scan_groups@.update(
                                    index,
                                    after.app_config.scan_groups@[index],
                                ) && self.describes(editing, after.app_config.scan_groups@[index])
                        },
                    }
                },
            },
            NetworkConfigMessage::CancelGroupEdit => after == (NetworkConfig {
                editing_group: None,
                search_makes: MakeSet::nothing(),
                search_firmwares: FirmwareSet::nothing(),
                ..self
            }),
            NetworkConfigMessage::ToggleFirmware(firmware, enable) => after == (NetworkConfig {
                search_firmwares: self.search_firmwares.with(firmware, enable),
                ..self
            }),
            NetworkConfigMessage::ToggleMake(make, enable) => after == (NetworkConfig {
                search_makes: self.search_makes.with(make, enable),
                ..self
            }),
        }
    }

    /// Applies a message to the page.
    pub fn update(&mut self, msg: NetworkConfigMessage)
        ensures
            old(self).applied(*final(self), msg),
            final(self).app_config.version == old(self).app_config.version,
            final(self).app_config.last_scan_results == old(self).app_config.last_scan_results,
    {
        match msg {
            NetworkConfigMessage::AddNewGroup => {
                self.editing_group = Some(
                    EditingGroup {
                        original_name: None,
                        name: String::from_str("New Group"),
                        network_range: String::from_str("192.168.1.0/24"),
                        enabled: true,
                    },
                );
                self.reset_filters();
            },
            NetworkConfigMessage::EditGroup(name) => {
                let place = self.app_config.find_group(name.as_str());
                match place {
                    Some(index) => {
                        let editing = EditingGroup {
                            original_name: Some(name.clone()),
                            name: self.app_config.scan_groups[index].name.clone(),
                            network_range: self.app_config.scan_groups[index].network_range.clone(),
                            enabled: self.app_config.scan_groups[index].enabled,
                        };
                        let makes = match &self.app_config.scan_groups[index].scan_config.search_makes {
                            Some(makes) => MakeSet::from_list(makes),
                            None => MakeSet::new(),
                        };
                        let firmwares =
                            match &self.app_config.scan_groups[index].scan_config.search_firmwares {
                            Some(firmwares) => FirmwareSet::from_list(firmwares),
                            None => FirmwareSet::new(),
                        };
                        self.editing_group = Some(editing);
                        self.search_makes = makes;
                        self.search_firmwares = firmwares;
                        assert(is_first_named(
                            old(self).app_config.scan_groups@,
                            name@,
                            index as int,
                        ));
                        assert(old(self).app_config.scan_groups@[index as int].name@ == name@);
                    },
                    None => {},
                }
            },
            NetworkConfigMessage::DeleteGroup(name) => {
                self.app_config.remove_scan_group(name.as_str());
            },
            NetworkConfigMessage::ToggleGroupEnabled(name, enabled) => {
                self.app_config.set_group_enabled(name.as_str(), enabled);
            },
            NetworkConfigMessage::SetGroupName(name) => {
                match &mut self.editing_group {
                    Some(editing) => {
                        editing.name = name;
                    },
                    None => {},
                }
            },
            NetworkConfigMessage::SetGroupNetworkRange(range) => {
                match &mut self.editing_group {
                    Some(editing) => {
                        editing.network_range = range;
                    },
                    None => {},
                }
            },
            NetworkConfigMessage::SetGroupEnabled(enabled) => {
                match &mut self.editing_group {
                    Some(editing) => {
                        editing.enabled = enabled;
                    },
                    None => {},
                }
            },
            NetworkConfigMessage::SaveGroup => {
                let scan_config = self.build_scan_config();
                let taken = self.editing_group.take();
                match taken {
                    Some(editing) => {
                        let new_group = ScanGroup {
                            name: editing.name,
                            network_range: editing.network_range,
                            scan_config,
                            enabled: editing.enabled,
                        };
                        match editing.original_name {
                            Some(original_name) => {
                                let updated = self.app_config.update_scan_group(
                                    original_name.as_str(),
                                    new_group,
                                );
                                proof {
                                    if updated {
                                        let index = choose|index: int|
                                            is_first_named(
                                                old(self).app_config.scan_groups@,
                                                original_name@,
                                                index,
                                            ) && self.app_config.scan_groups@ == old(
                                                self,
                                            ).app_config.scan_groups@.update(index, new_group);
                                        assert(self.app_config.scan_groups@[index] == new_group);
                                    }
                                }
                            },
                            None => {
                                self.app_config.add_scan_group(new_group);
                                assert(self.app_config.scan_groups@.drop_last() =~= old(
                                    self,
                                ).app_config.scan_groups@);
                            },
                        }
                    },
                    None => {},
                }
            },
            NetworkConfigMessage::CancelGroupEdit => {
                self.editing_group = None;
                self.reset_filters();
            },
            NetworkConfigMessage::ToggleFirmware(firmware, enable) => {
                self.search_firmwares.set(firmware, enable);
            },
            NetworkConfigMessage::ToggleMake(make, enable) => {
                self.search_makes.set(make, enable);
            },
            NetworkConfigMessage::Close | NetworkConfigMessage::Save => {},
        }
    }
}

} // verus!
