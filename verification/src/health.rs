//! Health of a miner, judged from its vital readings.
//!
//! Readings arrive as whole numbers: the hashrate in percent of the expected
//! one, temperature and efficiency in tenths of their unit, fan speed in
//! whole revolutions per minute.

use crate::text::{decimal_text, push_decimal};
use vstd::prelude::*;
use vstd::string::*;

verus! {

/// Overall condition of a miner.
#[derive(Debug, Clone, Copy, PartialEq, Eq, Hash, Structural)]
pub enum HealthStatus {
    Healthy,
    Warning,
    Critical,
    Unknown,
}

/// The area an issue belongs to.
#[derive(Debug, Clone, Copy, PartialEq, Eq, Hash, Structural)]
pub enum IssueCategory {
    Chips,
    Hashrate,
    Temperature,
    Fans,
    Boards,
    Power,
    Network,
    Other,
}

/// One finding about a miner.
#[derive(Debug, Clone, PartialEq, Eq)]
pub struct HealthIssue {
    pub severity: HealthStatus,
    pub category: IssueCategory,
    pub description: String,
}

/// The condition of a miner with the findings behind it.
#[derive(Debug, Clone, PartialEq, Eq)]
pub struct HealthReport {
    pub status: HealthStatus,
    pub issues: Vec<HealthIssue>,
}

/// The vital readings of a miner.
#[derive(Debug, Clone, PartialEq, Eq)]
pub struct MinerVitals {
    pub is_mining: bool,
    /// Chips that work, over all boards.
    pub total_chips: Option<u16>,
    /// Chips the model should have.
    pub expected_chips: Option<u16>,
    /// Hashrate in percent of the expected hashrate, rounded down.
    pub hashrate_percent: Option<u32>,
    /// Average temperature in tenths of a degree Celsius.
    pub temperature_tenths: Option<i32>,
    /// Speed of each fan in revolutions per minute, where it is known.
    pub fan_rpm: Vec<Option<u32>>,
    /// Working chips of each hashboard, where the count is known.
    pub board_chips: Vec<Option<u16>>,
    /// Efficiency in tenths of a watt per terahash.
    pub efficiency_tenths: Option<u32>,
    /// Messages the miner reports.
    pub messages: Vec<String>,
}

/// Fewer than nine in ten chips work.
pub open spec fn chips_critical(total: u16, expected: u16) -> bool {
    total * 100 < expected * 90
}

/// Fewer than nineteen in twenty chips work.
pub open spec fn chips_low(total: u16, expected: u16) -> bool {
    total * 100 < expected * 95
}

/// The fans known to stand still.
pub open spec fn dead_fans(fans: Seq<Option<u32>>) -> nat
    decreases fans.len(),
{
    if fans.len() == 0 {
        0
    } else {
        dead_fans(fans.drop_last()) + if fans.last() == Some(0u32) {
            1nat
        } else {
            0nat
        }
    }
}

/// The boards without a working chip, or without a count of them.
pub open spec fn dead_boards(boards: Seq<Option<u16>>) -> nat
    decreases boards.len(),
{
    if boards.len() == 0 {
        0
    } else {
        dead_boards(boards.drop_last()) + if boards.last() == Some(0u16)
            || boards.last().is_none() {
            1nat
        } else {
            0nat
        }
    }
}

impl MinerVitals {
    /// Whether some reading is critical.
    pub open spec fn has_critical(self) -> bool {
        ||| (self.total_chips matches Some(total) && self.expected_chips matches Some(expected)
            && chips_critical(total, expected))
        ||| (self.hashrate_percent matches Some(percent) && percent < 50)
        ||| (self.temperature_tenths matches Some(tenths) && tenths > 850)
        ||| dead_fans(self.fan_rpm@) > 0
        ||| dead_boards(self.board_chips@) > 0
    }

    /// Whether some reading calls for attention.
    pub open spec fn has_warning(self) -> bool {
        ||| (self.total_chips matches Some(total) && self.expected_chips matches Some(expected)
            && !chips_critical(total, expected) && chips_low(total, expected))
        ||| (self.hashrate_percent matches Some(percent) && 50 <= percent < 80)
        ||| (self.temperature_tenths matches Some(tenths) && 750 < tenths <= 850)
        ||| self.messages@.len() > 0
    }

    /// The condition the readings add up to: critical for a miner that does
    /// not mine or has a critical reading, a warning for one with a reading
    /// that calls for attention, healthy otherwise.
    pub open spec fn condition(self) -> HealthStatus {
        if !self.is_mining || self.has_critical() {
            HealthStatus::Critical
        } else if self.has_warning() {
            HealthStatus::Warning
        } else {
            HealthStatus::Healthy
        }
    }
}

/// Counts the fans known to stand still.
pub fn count_dead_fans(fans: &Vec<Option<u32>>) -> (count: usize)
    ensures
        count as nat == dead_fans(fans@),
{
    let mut count: usize = 0;
    let mut i: usize = 0;
    while i < fans.len()
        invariant
            i <= fans.len(),
            count <= i,
            count as nat == dead_fans(fans@.take(i as int)),
        decreases fans.len() - i,
    {
        proof {
            let front = fans@.take(i + 1);
            assert(front.drop_last() =~= fans@.take(i as int));
            assert(front.last() == fans@[i as int]);
        }
        match fans[i] {
            Some(rpm) => {
                if rpm == 0 {
                    count += 1;
                }
            },
            None => {},
        }
        i += 1;
    }
    assert(fans@.take(fans.len() as int) =~= fans@);
    count
}

/// Counts the boards without a working chip, or without a count of them.
pub fn count_dead_boards(boards: &Vec<Option<u16>>) -> (count: usize)
    ensures
        count as nat == dead_boards(boards@),
{
    let mut count: usize = 0;
    let mut i: usize = 0;
    while i < boards.len()
        invariant
            i <= boards.len(),
            count <= i,
            count as nat == dead_boards(boards@.take(i as int)),
        decreases boards.len() - i,
    {
        proof {
            let front = boards@.take(i + 1);
            assert(front.drop_last() =~= boards@.take(i as int));
            assert(front.last() == boards@[i as int]);
        }
        match boards[i] {
            Some(chips) => {
                if chips == 0 {
                    count += 1;
                }
            },
            None => {
                count += 1;
            },
        }
        i += 1;
    }
    assert(boards@.take(boards.len() as int) =~= boards@);
    count
}

impl HealthStatus {
    /// The word for a condition.
    pub open spec fn label_text(self) -> Seq<char> {
        match self {
            HealthStatus::Healthy => "Healthy"@,
            HealthStatus::Warning => "Warning"@,
            HealthStatus::Critical => "Critical"@,
            HealthStatus::Unknown => "Unknown"@,
        }
    }

    /// The sign for a condition.
    pub open spec fn icon_text(self) -> Seq<char> {
        match self {
            HealthStatus::Healthy => "OK"@,
            HealthStatus::Warning => "!"@,
            HealthStatus::Critical => "X"@,
            HealthStatus::Unknown => "?"@,
        }
    }

    /// The rank of a condition in a list: the worse, the earlier.
    pub open spec fn priority(self) -> u8 {
        match self {
            HealthStatus::Critical => 0,
            HealthStatus::Warning => 1,
            HealthStatus::Healthy => 2,
            HealthStatus::Unknown => 3,
        }
    }

    /// Judges the condition of a miner from its readings.
    pub fn from_miner_data(miner: &MinerVitals) -> (status: Self)
        ensures
            status == miner.condition(),
    {
        if !miner.is_mining {
            return HealthStatus::Critical;
        }
        let mut critical = false;
        let mut warning = false;
        match (miner.total_chips, miner.expected_chips) {
            (Some(total), Some(expected)) => {
                let have: u32 = total as u32 * 100;
                if have < expected as u32 * 90 {
                    critical = true;
                } else if have < expected as u32 * 95 {
                    warning = true;
                }
            },
            _ => {},
        }
        match miner.hashrate_percent {
            Some(percent) => {
                if percent < 50 {
                    critical = true;
                } else if percent < 80 {
                    warning = true;
                }
            },
            None => {},
        }
        match miner.temperature_tenths {
            Some(tenths) => {
                if tenths > 850 {
                    critical = true;
                } else if tenths > 750 {
                    warning = true;
                }
            },
            None => {},
        }
        if count_dead_fans(&miner.fan_rpm) > 0 {
            critical = true;
        }
        if count_dead_boards(&miner.board_chips) > 0 {
            critical = true;
        }
        if miner.messages.len() > 0 {
            warning = true;
        }
        if critical {
            HealthStatus::Critical
        } else if warning {
            HealthStatus::Warning
        } else {
            HealthStatus::Healthy
        }
    }

    pub fn label(&self) -> (text: &'static str)
        ensures
            text@ == self.label_text(),
    {
        match self {
            HealthStatus::Healthy => "Healthy",
            HealthStatus::Warning => "Warning",
            HealthStatus::Critical => "Critical",
            HealthStatus::Unknown => "Unknown",
        }
    }

    pub fn icon(&self) -> (text: &'static str)
        ensures
            text@ == self.icon_text(),
    {
        match self {
            HealthStatus::Healthy => "OK",
            HealthStatus::Warning => "!",
            HealthStatus::Critical => "X",
            HealthStatus::Unknown => "?",
        }
    }

    pub fn sort_priority(&self) -> (rank: u8)
        ensures
            rank == self.priority(),
    {
        match self {
            HealthStatus::Critical => 0,
            HealthStatus::Warning => 1,
            HealthStatus::Healthy => 2,
            HealthStatus::Unknown => 3,
        }
    }
}

/// The issues of `issues` whose severity is `severity`, in their order.
pub open spec fn issues_of(issues: Seq<HealthIssue>, severity: HealthStatus) -> Seq<HealthIssue>
    decreases issues.len(),
{
    if issues.len() == 0 {
        Seq::empty()
    } else if issues.last().severity == severity {
        issues_of(issues.drop_last(), severity).push(issues.last())
    } else {
        issues_of(issues.drop_last(), severity)
    }
}

impl HealthReport {
    /// The findings of the given severity, in their order.
    pub fn issues_with(&self, severity: HealthStatus) -> (found: Vec<&HealthIssue>)
        ensures
            found@.len() == issues_of(self.issues@, severity).len(),
            forall|i: int|
                0 <= i < found@.len() ==> *(#[trigger] found@[i]) == issues_of(
                    self.issues@,
                    severity,
                )[i],
    {
        let mut found: Vec<&HealthIssue> = Vec::new();
        let mut i: usize = 0;
        while i < self.issues.len()
            invariant
                i <= self.issues.len(),
                found@.len() == issues_of(self.issues@.take(i as int), severity).len(),
                forall|j: int|
                    0 <= j < found@.len() ==> *(#[trigger] found@[j]) == issues_of(
                        self.issues@.take(i as int),
                        severity,
                    )[j],
            decreases self.issues.len() - i,
        {
            proof {
                let front = self.issues@.take(i + 1);
                assert(front.drop_last() =~= self.issues@.take(i as int));
                assert(front.last() == self.issues@[i as int]);
            }
            if self.issues[i].severity == severity {
                found.push(&self.issues[i]);
            }
            i += 1;
        }
        assert(self.issues@.take(self.issues.len() as int) =~= self.issues@);
        found
    }

    /// The critical findings, in their order.
    pub fn critical_issues(&self) -> (found: Vec<&HealthIssue>)
        ensures
            found@.len() == issues_of(self.issues@, HealthStatus::Critical).len(),
            forall|i: int|
                0 <= i < found@.len() ==> *(#[trigger] found@[i]) == issues_of(
                    self.issues@,
                    HealthStatus::Critical,
                )[i],
    {
        self.issues_with(HealthStatus::Critical)
    }

    /// The findings that call for attention, in their order.
    pub fn warning_issues(&self) -> (found: Vec<&HealthIssue>)
        ensures
            found@.len() == issues_of(self.issues@, HealthStatus::Warning).len(),
            forall|i: int|
                0 <= i < found@.len() ==> *(#[trigger] found@[i]) == issues_of(
                    self.issues@,
                    HealthStatus::Warning,
                )[i],
    {
        self.issues_with(HealthStatus::Warning)
    }
}

/// What a finding says, as plain text.
pub struct IssueModel {
    pub severity: HealthStatus,
    pub category: IssueCategory,
    pub description: Seq<char>,
}

impl HealthIssue {
    /// What this finding says.
    pub open spec fn model(self) -> IssueModel {
        IssueModel {
            severity: self.severity,
            category: self.category,
            description: self.description@,
        }
    }
}

/// A reading given in tenths, written with one decimal place.
pub open spec fn tenths_text(tenths: int) -> Seq<char> {
    if tenths < 0 {
        "-"@ + decimal_text((-tenths / 10) as nat) + "."@ + decimal_text((-tenths % 10) as nat)
    } else {
        decimal_text((tenths / 10) as nat) + "."@ + decimal_text((tenths % 10) as nat)
    }
}

/// The finding about a miner that does not mine.
pub open spec fn mining_issues(vitals: MinerVitals) -> Seq<IssueModel> {
    if !vitals.is_mining {
        seq![
            IssueModel {
                severity: HealthStatus::Critical,
                category: IssueCategory::Other,
                description: "Miner is not actively mining"@,
            },
        ]
    } else {
        Seq::empty()
    }
}

/// The finding about missing chips.
pub open spec fn chip_issues(vitals: MinerVitals) -> Seq<IssueModel> {
    match (vitals.total_chips, vitals.expected_chips) {
        (Some(total), Some(expected)) => if total < expected {
            seq![
                IssueModel {
                    severity: if chips_critical(total, expected) {
                        HealthStatus::Critical
                    } else {
                        HealthStatus::Warning
                    },
                    category: IssueCategory::Chips,
                    description: "Missing "@ + decimal_text((expected - total) as nat)
                        + " chips ("@ + decimal_text(total as nat) + "/"@ + decimal_text(
                        expected as nat,
                    ) + ")"@,
                },
            ]
        } else {
            Seq::empty()
        },
        _ => Seq::empty(),
    }
}

/// The finding about a low hashrate.
pub open spec fn hashrate_issues(vitals: MinerVitals) -> Seq<IssueModel> {
    match vitals.hashrate_percent {
        Some(percent) => if percent < 80 {
            seq![
                IssueModel {
                    severity: if percent < 50 {
                        HealthStatus::Critical
                    } else {
                        HealthStatus::Warning
                    },
                    category: IssueCategory::Hashrate,
                    description: "Low hashrate ("@ + decimal_text(percent as nat)
                        + "% of expected)"@,
                },
            ]
        } else {
            Seq::empty()
        },
        None => Seq::empty(),
    }
}

/// The finding about a high temperature.
pub open spec fn temperature_issues(vitals: MinerVitals) -> Seq<IssueModel> {
    match vitals.temperature_tenths {
        Some(tenths) => if tenths > 750 {
            seq![
                IssueModel {
                    severity: if tenths > 850 {
                        HealthStatus::Critical
                    } else {
                        HealthStatus::Warning
                    },
                    category: IssueCategory::Temperature,
                    description: "High temperature ("@ + tenths_text(tenths as int) + "°C)"@,
                },
            ]
        } else {
            Seq::empty()
        },
        None => Seq::empty(),
    }
}

/// The finding about fans that stand still.
pub open spec fn fan_issues(vitals: MinerVitals) -> Seq<IssueModel> {
    if dead_fans(vitals.fan_rpm@) > 0 {
        seq![
            IssueModel {
                severity: HealthStatus::Critical,
                category: IssueCategory::Fans,
                description: decimal_text(dead_fans(vitals.fan_rpm@)) + " fan(s) not spinning"@,
            },
        ]
    } else {
        Seq::empty()
    }
}

/// The finding about boards without working chips.
pub open spec fn board_issues(vitals: MinerVitals) -> Seq<IssueModel> {
    if dead_boards(vitals.board_chips@) > 0 {
        seq![
            IssueModel {
                severity: HealthStatus::Critical,
                category: IssueCategory::Boards,
                description: decimal_text(dead_boards(vitals.board_chips@))
                    + " board(s) with no working chips"@,
            },
        ]
    } else {
        Seq::empty()
    }
}

/// The finding about poor efficiency: more than fifty watts per terahash.
pub open spec fn efficiency_issues(vitals: MinerVitals) -> Seq<IssueModel> {
    match vitals.efficiency_tenths {
        Some(tenths) => if tenths > 500 {
            seq![
                IssueModel {
                    severity: HealthStatus::Warning,
                    category: IssueCategory::Power,
                    description: "Poor efficiency ("@ + tenths_text(tenths as int) + " W/TH)"@,
                },
            ]
        } else {
            Seq::empty()
        },
        None => Seq::empty(),
    }
}

/// One finding for each message that says something.
pub open spec fn message_issues(messages: Seq<String>) -> Seq<IssueModel>
    decreases messages.len(),
{
    if messages.len() == 0 {
        Seq::empty()
    } else if messages.last()@.len() == 0 {
        message_issues(messages.drop_last())
    } else {
        message_issues(messages.drop_last()).push(
            IssueModel {
                severity: HealthStatus::Warning,
                category: IssueCategory::Other,
                description: messages.last()@,
            },
        )
    }
}

/// Every finding the readings give rise to, in the order of the report.
pub open spec fn expected_issues(vitals: MinerVitals) -> Seq<IssueModel> {
    mining_issues(vitals) + chip_issues(vitals) + hashrate_issues(vitals) + temperature_issues(
        vitals,
    ) + fan_issues(vitals) + board_issues(vitals) + efficiency_issues(vitals) + message_issues(
        vitals.messages@,
    )
}

/// Whether the findings `issues` say what `models` says, one for one.
pub open spec fn issues_say(issues: Seq<HealthIssue>, models: Seq<IssueModel>) -> bool {
    &&& issues.len() == models.len()
    &&& forall|k: int| 0 <= k < issues.len() ==> (#[trigger] issues[k]).model() == models[k]
}

/// Appends a reading given in tenths, with one decimal place.
pub fn push_tenths(out: &mut String, tenths: i64)
    requires
        -0x8000_0000 <= tenths <= 0xFFFF_FFFF,
    ensures
        final(out)@ == old(out)@ + tenths_text(tenths as int),
{
    if tenths < 0 {
        let size: u64 = (-tenths) as u64;
        out.append("-");
        push_decimal(out, size / 10);
        out.append(".");
        push_decimal(out, size % 10);
        assert(final(out)@ =~= old(out)@ + tenths_text(tenths as int));
    } else {
        let size: u64 = tenths as u64;
        push_decimal(out, size / 10);
        out.append(".");
        push_decimal(out, size % 10);
        assert(final(out)@ =~= old(out)@ + tenths_text(tenths as int));
    }
}

/// What a finding that may be absent says: nothing where it is absent.
pub open spec fn finding_says(finding: Option<HealthIssue>) -> Seq<IssueModel> {
    match finding {
        Some(issue) => seq![issue.model()],
        None => Seq::empty(),
    }
}

/// The finding about a miner that does not mine.
fn mining_finding(miner: &MinerVitals) -> (finding: Option<HealthIssue>)
    ensures
        finding_says(finding) == mining_issues(*miner),
{
    if !miner.is_mining {
        Some(
            HealthIssue {
                severity: HealthStatus::Critical,
                category: IssueCategory::Other,
                description: String::from_str("Miner is not actively mining"),
            },
        )
    } else {
        None
    }
}

/// The finding about missing chips.
fn chip_finding(miner: &MinerVitals) -> (finding: Option<HealthIssue>)
    ensures
        finding_says(finding) == chip_issues(*miner),
{
    match (miner.total_chips, miner.expected_chips) {
        (Some(total), Some(expected)) => {
            if total < expected {
                let severity = if (total as u32) * 100 < (expected as u32) * 90 {
                    HealthStatus::Critical
                } else {
                    HealthStatus::Warning
                };
                let mut description = String::from_str("Missing ");
                push_decimal(&mut description, (expected - total) as u64);
                description.append(" chips (");
                push_decimal(&mut description, total as u64);
                description.append("/");
                push_decimal(&mut description, expected as u64);
                description.append(")");
                let issue = HealthIssue { severity, category: IssueCategory::Chips, description };
                assert(seq![issue.model()] =~= chip_issues(*miner));
                Some(issue)
            } else {
                None
            }
        },
        _ => None,
    }
}

/// The finding about a low hashrate.
fn hashrate_finding(miner: &MinerVitals) -> (finding: Option<HealthIssue>)
    ensures
        finding_says(finding) == hashrate_issues(*miner),
{
    match miner.hashrate_percent {
        Some(percent) => {
            if percent < 80 {
                let severity = if percent < 50 {
                    HealthStatus::Critical
                } else {
                    HealthStatus::Warning
                };
                let mut description = String::from_str("Low hashrate (");
                push_decimal(&mut description, percent as u64);
                description.append("% of expected)");
                let issue = HealthIssue {
                    severity,
                    category: IssueCategory::Hashrate,
                    description,
                };
                assert(seq![issue.model()] =~= hashrate_issues(*miner));
                Some(issue)
            } else {
                None
            }
        },
        None => None,
    }
}

/// The finding about a high temperature.
fn temperature_finding(miner: &MinerVitals) -> (finding: Option<HealthIssue>)
    ensures
        finding_says(finding) == temperature_issues(*miner),
{
    match miner.temperature_tenths {
        Some(tenths) => {
            if tenths > 750 {
                let severity = if tenths > 850 {
                    HealthStatus::Critical
                } else {
                    HealthStatus::Warning
                };
                let mut description = String::from_str("High temperature (");
                push_tenths(&mut description, tenths as i64);
                description.append("°C)");
                let issue = HealthIssue {
                    severity,
                    category: IssueCategory::Temperature,
                    description,
                };
                assert(seq![issue.model()] =~= temperature_issues(*miner));
                Some(issue)
            } else {
                None
            }
        },
        None => None,
    }
}

/// The finding about fans that stand still.
fn fan_finding(miner: &MinerVitals) -> (finding: Option<HealthIssue>)
    ensures
        finding_says(finding) == fan_issues(*miner),
{
    let stopped = count_dead_fans(&miner.fan_rpm);
    if stopped > 0 {
        let mut description = String::new();
        push_decimal(&mut description, stopped as u64);
        description.append(" fan(s) not spinning");
        let issue = HealthIssue {
            severity: HealthStatus::Critical,
            category: IssueCategory::Fans,
            description,
        };
        assert(seq![issue.model()] =~= fan_issues(*miner));
        Some(issue)
    } else {
        None
    }
}

/// The finding about boards without working chips.
fn board_finding(miner: &MinerVitals) -> (finding: Option<HealthIssue>)
    ensures
        finding_says(finding) == board_issues(*miner),
{
    let stopped = count_dead_boards(&miner.board_chips);
    if stopped > 0 {
        let mut description = String::new();
        push_decimal(&mut description, stopped as u64);
        description.append(" board(s) with no working chips");
        let issue = HealthIssue {
            severity: HealthStatus::Critical,
            category: IssueCategory::Boards,
            description,
        };
        assert(seq![issue.model()] =~= board_issues(*miner));
        Some(issue)
    } else {
        None
    }
}

/// The finding about poor efficiency.
fn efficiency_finding(miner: &MinerVitals) -> (finding: Option<HealthIssue>)
    ensures
        finding_says(finding) == efficiency_issues(*miner),
{
    match miner.efficiency_tenths {
        Some(tenths) => {
            if tenths > 500 {
                let mut description = String::from_str("Poor efficiency (");
                push_tenths(&mut description, tenths as i64);
                description.append(" W/TH)");
                let issue = HealthIssue {
                    severity: HealthStatus::Warning,
                    category: IssueCategory::Power,
                    description,
                };
                assert(seq![issue.model()] =~= efficiency_issues(*miner));
                Some(issue)
            } else {
                None
            }
        },
        None => None,
    }
}

/// Adds a finding, if there is one, to the findings listed so far.
fn add_finding(
    issues: &mut Vec<HealthIssue>,
    finding: Option<HealthIssue>,
    Ghost(models): Ghost<Seq<IssueModel>>,
)
    requires
        issues_say(old(issues)@, models),
    ensures
        issues_say(final(issues)@, models + finding_says(finding)),
{
    match finding {
        Some(issue) => {
            issues.push(issue);
            assert forall|k: int| 0 <= k < issues@.len() implies (#[trigger] issues@[k]).model() == (
            models + finding_says(finding))[k] by {
                if k < models.len() {
                    assert(issues@[k] == old(issues)@[k]);
                }
            }
        },
        None => {
            assert(models + finding_says(finding) =~= models);
        },
    }
}

/// Adds one finding for each message that says something.
fn add_message_findings(
    issues: &mut Vec<HealthIssue>,
    messages: &Vec<String>,
    Ghost(models): Ghost<Seq<IssueModel>>,
)
    requires
        issues_say(old(issues)@, models),
    ensures
        issues_say(final(issues)@, models + message_issues(messages@)),
{
    let mut i: usize = 0;
    assert(models + message_issues(messages@.take(0)) =~= models);
    while i < messages.len()
        invariant
            i <= messages.len(),
            issues_say(issues@, models + message_issues(messages@.take(i as int))),
        decreases messages.len() - i,
    {
        let ghost so_far = models + message_issues(messages@.take(i as int));
        proof {
            let front = messages@.take(i + 1);
            assert(front.drop_last() =~= messages@.take(i as int));
            assert(front.last() == messages@[i as int]);
        }
        if !messages[i].as_str().is_empty() {
            let ghost listed = issues@;
            issues.push(
                HealthIssue {
                    severity: HealthStatus::Warning,
                    category: IssueCategory::Other,
                    description: messages[i].clone(),
                },
            );
            proof {
                let next = models + message_issues(messages@.take(i + 1));
                assert(next =~= so_far.push(
                    IssueModel {
                        severity: HealthStatus::Warning,
                        category: IssueCategory::Other,
                        description: messages@[i as int]@,
                    },
                ));
                assert forall|k: int| 0 <= k < issues@.len() implies (#[trigger] issues@[k]).model()
                    == next[k] by {
                    if k < so_far.len() {
                        assert(issues@[k] == listed[k]);
                        assert(next[k] == so_far[k]);
                    }
                }
            }
        }
        i += 1;
    }
    assert(messages@.take(messages.len() as int) =~= messages@);
}

impl HealthReport {
    /// Lists what is wrong with a miner, finding by finding, and judges its
    /// condition.
    pub fn from_miner_data(miner: &MinerVitals) -> (report: Self)
        ensures
            report.status == miner.condition(),
            issues_say(report.issues@, expected_issues(*miner)),
    {
        let mut issues: Vec<HealthIssue> = Vec::new();
        let ghost m0 = Seq::<IssueModel>::empty();
        add_finding(&mut issues, mining_finding(miner), Ghost(m0));
        let ghost m1 = m0 + mining_issues(*miner);
        add_finding(&mut issues, chip_finding(miner), Ghost(m1));
        let ghost m2 = m1 + chip_issues(*miner);
        add_finding(&mut issues, hashrate_finding(miner), Ghost(m2));
        let ghost m3 = m2 + hashrate_issues(*miner);
        add_finding(&mut issues, temperature_finding(miner), Ghost(m3));
        let ghost m4 = m3 + temperature_issues(*miner);
        add_finding(&mut issues, fan_finding(miner), Ghost(m4));
        let ghost m5 = m4 + fan_issues(*miner);
        add_finding(&mut issues, board_finding(miner), Ghost(m5));
        let ghost m6 = m5 + board_issues(*miner);
        add_finding(&mut issues, efficiency_finding(miner), Ghost(m6));
        let ghost m7 = m6 + efficiency_issues(*miner);
        add_message_findings(&mut issues, &miner.messages, Ghost(m7));
        assert(m7 + message_issues(miner.messages@) =~= expected_issues(*miner));
        let status = HealthStatus::from_miner_data(miner);
        HealthReport { status, issues }
    }
}

} // verus!
