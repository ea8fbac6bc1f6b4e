//! Validation of network range expressions and the host counts behind them.
//!
//! A range is written either as a CIDR block (`192.168.1.0/24`) or as dotted
//! octets with dashed spans (`192.168.1.1-100`). Which of the two a string
//! claims to be is decided here; reading the addresses out of it is left to
//! the discovery crate, and everything built on its answer is verified.

pub mod full_fetch;
pub mod nmap_range;
pub mod scanner;
pub mod trace;

use crate::errors::ScannerError;
use crate::network::nmap_range::{numeral_value, split_on};
use crate::network::scanner::{copy_firmwares, copy_makes, MinerFirmware, MinerMake, ScanConfig};
use vstd::prelude::*;
use crate::text::same_text;
use vstd::string::*;

verus! {

/// The characters that carry the Unicode property `White_Space`.
pub open spec fn is_white_space(c: char) -> bool {
    let n = c as u32;
    ||| 0x09 <= n <= 0x0D
    ||| n == 0x20
    ||| n == 0x85
    ||| n == 0xA0
    ||| n == 0x1680
    ||| 0x2000 <= n <= 0x200A
    ||| n == 0x2028
    ||| n == 0x2029
    ||| n == 0x202F
    ||| n == 0x205F
    ||| n == 0x3000
}

/// A text without a single visible character.
pub open spec fn is_blank(s: Seq<char>) -> bool {
    forall|i: int| 0 <= i < s.len() ==> is_white_space(#[trigger] s[i])
}

/// What a range expression claims to be, judged by its punctuation alone.
#[derive(Debug, Clone, Copy, PartialEq, Eq, Hash, Structural)]
pub enum RangeForm {
    /// Empty, or white space only.
    Blank,
    /// A CIDR block: it holds a `/`.
    Cidr,
    /// Dotted octets with dashed spans: no `/`, but a `-`.
    Span,
    /// Neither of the supported forms.
    Unsupported,
}

/// The form of `s`. A `/` makes a CIDR block, unless a `:` shows that the
/// block is not of the dotted `a.b.c.d/n` kind; failing that, a `-` makes a
/// span.
pub open spec fn range_form(s: Seq<char>) -> RangeForm {
    if is_blank(s) {
        RangeForm::Blank
    } else if s.contains('/') {
        if s.contains(':') {
            RangeForm::Unsupported
        } else {
            RangeForm::Cidr
        }
    } else if s.contains('-') {
        RangeForm::Span
    } else {
        RangeForm::Unsupported
    }
}

/// A validated range: its form and the number of addresses it spans.
#[derive(Debug, Clone, Copy, PartialEq, Eq, Hash, Structural)]
pub struct HostRange {
    pub form: RangeForm,
    pub host_count: usize,
}

/// A validated range together with the filters its scan applies.
#[derive(Debug, Clone, PartialEq, Eq, Hash)]
pub struct ScanPlan {
    pub hosts: HostRange,
    pub search_makes: Option<Vec<MinerMake>>,
    pub search_firmwares: Option<Vec<MinerFirmware>>,
}

/// What the discovery crate makes of `subnet` read as a CIDR block: the
/// number of addresses it queues, or the text of its refusal.
pub uninterp spec fn subnet_hosts(subnet: Seq<char>) -> Result<nat, Seq<char>>;

/// The number of values that one octet of a dashed range stands for: one
/// for a number, the length of the span for two numbers with a dash between
/// them of which the first is not the greater, and none for anything else.
pub open spec fn span_octet_count(octet: Seq<char>) -> Option<nat> {
    if octet.contains('-') {
        let ends = split_on(octet, '-');
        if ends.len() == 2 {
            match (numeral_value(ends[0]), numeral_value(ends[1])) {
                (Some(start), Some(end)) => if start <= end {
                    Some((end - start + 1) as nat)
                } else {
                    None
                },
                _ => None,
            }
        } else {
            None
        }
    } else {
        match numeral_value(octet) {
            Some(_) => Some(1),
            None => None,
        }
    }
}

/// The number of addresses that a dashed range stands for: the product of
/// what its four octets stand for, and none unless there are four and each
/// can be read.
pub open spec fn span_host_count(range: Seq<char>) -> Option<nat> {
    let octets = split_on(range, '.');
    if octets.len() == 4 {
        match (
            span_octet_count(octets[0]),
            span_octet_count(octets[1]),
            span_octet_count(octets[2]),
            span_octet_count(octets[3]),
        ) {
            (Some(a), Some(b), Some(c), Some(d)) => Some(a * b * c * d),
            _ => None,
        }
    } else {
        None
    }
}

/// The text with which the discovery crate refuses `range` read as dotted
/// octets with dashed spans.
pub uninterp spec fn span_refusal(range: Seq<char>) -> Seq<char>;

/// What the discovery crate makes of `range` read as dotted octets with
/// dashed spans: the number of addresses it queues, or the text of its
/// refusal.
pub open spec fn span_hosts(range: Seq<char>) -> Result<nat, Seq<char>> {
    match span_host_count(range) {
        Some(count) => Ok(count),
        None => Err(span_refusal(range)),
    }
}

/// Whether the answer `counted` of the discovery crate is the one on record
/// under `named`.
pub open spec fn agrees(counted: Result<usize, String>, named: Result<nat, Seq<char>>) -> bool {
    match counted {
        Ok(n) => named == Ok::<nat, Seq<char>>(n as nat),
        Err(text) => named == Err::<nat, Seq<char>>(text@),
    }
}

/// Calls `asic_rs::MinerFactory::with_subnet` on a fresh factory and reports
/// how many addresses it queued, or the text of the error it returned.
///
/// Trusted: the answer depends on `subnet` alone, so it is the one recorded as
/// [`subnet_hosts`]. The call lists every address of the block in memory;
/// blocks in colon notation, whose size the list cannot hold, are kept away
/// from it.
#[verifier::external_body]
fn count_subnet_hosts(subnet: &str) -> (counted: Result<usize, String>)
    requires
        !subnet@.contains(':'),
    ensures
        agrees(counted, subnet_hosts(subnet@)),
{
    asic_rs::MinerFactory::new().with_subnet(subnet).map(|factory| factory.len()).map_err(
        |error| error.to_string(),
    )
}

/// Calls `asic_rs::MinerFactory::with_range` on a fresh factory and reports
/// how many addresses it queued, or the text of the error it returned.
///
/// Trusted: the crate cuts the range at its dots and wants four octets,
/// each a number up to 255 or two of them with a dash between, the first
/// not the greater; it queues one address for every combination. The text
/// of a refusal depends on `range` alone and is the one recorded as
/// [`span_refusal`].
#[verifier::external_body]
fn count_span_hosts(range: &str) -> (counted: Result<usize, String>)
    ensures
        counted.is_ok() == span_host_count(range@).is_some(),
        counted matches Ok(count) ==> span_host_count(range@) == Some(count as nat),
        counted matches Err(text) ==> text@ == span_refusal(range@),
{
    asic_rs::MinerFactory::new().with_range(range).map(|factory| factory.len()).map_err(
        |error| error.to_string(),
    )
}

/// Whether `c` carries the property `White_Space`.
pub fn is_whitespace_char(c: char) -> (white: bool)
    ensures
        white == is_white_space(c),
{
    let n: u32 = c as u32;
    (0x09 <= n && n <= 0x0D) || n == 0x20 || n == 0x85 || n == 0xA0 || n == 0x1680 || (0x2000
        <= n && n <= 0x200A) || n == 0x2028 || n == 0x2029 || n == 0x202F || n == 0x205F || n
        == 0x3000
}

/// Whether `c` occurs in `s`.
pub fn contains_char(s: &str, c: char) -> (found: bool)
    ensures
        found == s@.contains(c),
{
    let n: usize = s.unicode_len();
    let mut i: usize = 0;
    while i < n
        invariant
            i <= n,
            n == s@.len(),
            forall|j: int| 0 <= j < i ==> s@[j] != c,
        decreases n - i,
    {
        if s.get_char(i) == c {
            return true;
        }
        i += 1;
    }
    false
}

/// Whether `s` is empty or white space throughout.
pub fn is_blank_text(s: &str) -> (blank: bool)
    ensures
        blank == is_blank(s@),
{
    let n: usize = s.unicode_len();
    let mut i: usize = 0;
    while i < n
        invariant
            i <= n,
            n == s@.len(),
            forall|j: int| 0 <= j < i ==> is_white_space(#[trigger] s@[j]),
        decreases n - i,
    {
        if !is_whitespace_char(s.get_char(i)) {
            return false;
        }
        i += 1;
    }
    true
}

/// Decides which form a range expression claims to have.
pub fn detect_range_form(network_range: &str) -> (form: RangeForm)
    ensures
        form == range_form(network_range@),
{
    if is_blank_text(network_range) {
        RangeForm::Blank
    } else if contains_char(network_range, '/') {
        if contains_char(network_range, ':') {
            RangeForm::Unsupported
        } else {
            RangeForm::Cidr
        }
    } else if contains_char(network_range, '-') {
        RangeForm::Span
    } else {
        RangeForm::Unsupported
    }
}

/// The reason given when a range expression of form `form` is turned down;
/// `detail` is the discovery crate's own wording, where it was asked.
pub open spec fn refusal_text(form: RangeForm, s: Seq<char>, detail: Seq<char>) -> Seq<char> {
    match form {
        RangeForm::Blank => "Network range cannot be empty"@,
        RangeForm::Cidr => "Invalid CIDR '"@ + s + "': "@ + detail,
        RangeForm::Span => "Invalid range '"@ + s + "': "@ + detail,
        RangeForm::Unsupported => "Invalid format '"@ + s
            + "'. Use CIDR (192.168.1.0/24) or range (192.168.1.1-100)"@,
    }
}

/// The verdict on a range expression of form `form`, given the discovery
/// crate's answer `named` for it: the form and the host count, or the reason
/// for the refusal. Blank and unsupported expressions are refused whatever
/// `named` says.
pub open spec fn range_verdict(s: Seq<char>, form: RangeForm, named: Result<nat, Seq<char>>)
    -> Result<(RangeForm, nat), Seq<char>> {
    match form {
        RangeForm::Blank | RangeForm::Unsupported => Err(refusal_text(form, s, Seq::empty())),
        RangeForm::Cidr | RangeForm::Span => match named {
            Ok(n) => Ok((form, n)),
            Err(detail) => Err(refusal_text(form, s, detail)),
        },
    }
}

/// The discovery crate's answer for `s`, asked the way the form of `s` calls
/// for.
pub open spec fn named_hosts(s: Seq<char>) -> Result<nat, Seq<char>> {
    match range_form(s) {
        RangeForm::Cidr => subnet_hosts(s),
        RangeForm::Span => span_hosts(s),
        _ => Err(Seq::empty()),
    }
}

/// The verdict on the range expression `s`.
pub open spec fn resolve_range(s: Seq<char>) -> Result<(RangeForm, nat), Seq<char>> {
    range_verdict(s, range_form(s), named_hosts(s))
}

/// Whether `outcome` reports exactly `verdict`: the same form and count, or
/// an invalid-range error with the same reason.
pub open spec fn reports(
    outcome: Result<HostRange, ScannerError>,
    verdict: Result<(RangeForm, nat), Seq<char>>,
) -> bool {
    match outcome {
        Ok(hosts) => verdict == Ok::<(RangeForm, nat), Seq<char>>(
            (hosts.form, hosts.host_count as nat),
        ),
        Err(ScannerError::NetworkRangeInvalid(reason)) => verdict == Err::<
            (RangeForm, nat),
            Seq<char>,
        >(reason@),
        Err(_) => false,
    }
}

/// `head`, then `middle`, then `tail`.
fn join3(head: &str, middle: &str, tail: &str) -> (text: String)
    ensures
        text@ == head@ + middle@ + tail@,
{
    let mut text = String::from_str(head);
    text.append(middle);
    text.append(tail);
    text
}

/// Turns the discovery crate's answer for a range expression into the
/// library's verdict on it.
///
/// `form` is the form detected for `network_range`, `counted` the answer
/// obtained for that form; `counted` is not looked at for blank and
/// unsupported expressions.
pub fn range_outcome(network_range: &str, form: RangeForm, counted: Result<usize, String>) -> (outcome:
    Result<HostRange, ScannerError>)
    ensures
        forall|named: Result<nat, Seq<char>>|
            agrees(counted, named) ==> reports(
                outcome,
                #[trigger] range_verdict(network_range@, form, named),
            ),
        outcome.is_ok() <==> (form == RangeForm::Cidr || form == RangeForm::Span)
            && counted.is_ok(),
{
    match form {
        RangeForm::Blank => Err(
            ScannerError::NetworkRangeInvalid(String::from_str("Network range cannot be empty")),
        ),
        RangeForm::Unsupported => Err(
            ScannerError::NetworkRangeInvalid(
                join3(
                    "Invalid format '",
                    network_range,
                    "'. Use CIDR (192.168.1.0/24) or range (192.168.1.1-100)",
                ),
            ),
        ),
        RangeForm::Cidr => match counted {
            Ok(host_count) => Ok(HostRange { form, host_count }),
            Err(detail) => {
                let mut reason = join3("Invalid CIDR '", network_range, "': ");
                reason.append(detail.as_str());
                Err(ScannerError::NetworkRangeInvalid(reason))
            },
        },
        RangeForm::Span => match counted {
            Ok(host_count) => Ok(HostRange { form, host_count }),
            Err(detail) => {
                let mut reason = join3("Invalid range '", network_range, "': ");
                reason.append(detail.as_str());
                Err(ScannerError::NetworkRangeInvalid(reason))
            },
        },
    }
}

/// Validates a range expression and counts the hosts it spans.
///
/// Blank expressions and those in neither supported form are refused here;
/// the others are read by the discovery crate, whose refusal is passed on
/// with its wording.
pub fn create_miner_factory(network_range: &str) -> (outcome: Result<HostRange, ScannerError>)
    ensures
        reports(outcome, resolve_range(network_range@)),
{
    let form = detect_range_form(network_range);
    match form {
        RangeForm::Cidr => {
            let counted = count_subnet_hosts(network_range);
            range_outcome(network_range, form, counted)
        },
        RangeForm::Span => {
            let counted = count_span_hosts(network_range);
            range_outcome(network_range, form, counted)
        },
        _ => {
            let unasked: Result<usize, String> = Err(String::new());
            assert(agrees(unasked, Err::<nat, Seq<char>>(Seq::empty())));
            range_outcome(network_range, form, unasked)
        },
    }
}

/// The filters of `config`, attached to the validated range.
pub open spec fn plan_matches(plan: ScanPlan, hosts: HostRange, config: ScanConfig) -> bool {
    &&& plan.hosts == hosts
    &&& plan.search_makes.is_some() == config.search_makes.is_some()
    &&& plan.search_firmwares.is_some() == config.search_firmwares.is_some()
    &&& (config.search_makes matches Some(makes) ==> plan.search_makes.unwrap()@ == makes@)
    &&& (config.search_firmwares matches Some(firmwares) ==> plan.search_firmwares.unwrap()@
        == firmwares@)
}

/// Attaches the filters of `config` to an already validated range.
pub fn configure_plan(hosts: HostRange, config: &ScanConfig) -> (plan: ScanPlan)
    ensures
        plan_matches(plan, hosts, *config),
{
    let search_makes = match &config.search_makes {
        Some(makes) => Some(copy_makes(makes)),
        None => None,
    };
    let search_firmwares = match &config.search_firmwares {
        Some(firmwares) => Some(copy_firmwares(firmwares)),
        None => None,
    };
    ScanPlan { hosts, search_makes, search_firmwares }
}

/// Validates a range expression and attaches the filters its scan applies.
pub fn create_configured_miner_factory(network_range: &str, config: &ScanConfig) -> (outcome:
    Result<ScanPlan, ScannerError>)
    ensures
        match outcome {
            Ok(plan) => resolve_range(network_range@) == Ok::<(RangeForm, nat), Seq<char>>(
                (plan.hosts.form, plan.hosts.host_count as nat),
            ) && plan_matches(plan, plan.hosts, *config),
            Err(error) => reports(Err(error), resolve_range(network_range@)),
        },
{
    match create_miner_factory(network_range) {
        Ok(hosts) => Ok(configure_plan(hosts, config)),
        Err(error) => Err(error),
    }
}

/// The number of hosts a range expression spans; zero for one that is
/// refused.
pub open spec fn estimated_hosts(s: Seq<char>) -> nat {
    match resolve_range(s) {
        Ok((_, n)) => n,
        Err(_) => 0,
    }
}

/// The number of hosts a range expression spans, as a sizing hint: an
/// expression that is refused counts as empty.
pub fn estimate_ip_count(network_range: &str) -> (count: usize)
    ensures
        count as nat == estimated_hosts(network_range@),
{
    match create_miner_factory(network_range) {
        Ok(hosts) => hosts.host_count,
        Err(_) => 0,
    }
}

/// The name under which discovery keeps the stock firmware of a make.
pub open spec fn make_entry_name(make: MinerMake) -> Seq<char> {
    match make {
        MinerMake::AntMiner => "AntMiner Stock"@,
        MinerMake::WhatsMiner => "WhatsMiner Stock"@,
        MinerMake::AvalonMiner => "AvalonMiner Stock"@,
        MinerMake::BitAxe => "Bitaxe Stock"@,
        MinerMake::EPic => "UMC OS"@,
        MinerMake::Braiins => "Braiins"@,
    }
}

/// The name under which discovery keeps a firmware family.
pub open spec fn firmware_entry_name(firmware: MinerFirmware) -> Seq<char> {
    match firmware {
        MinerFirmware::BraiinsOS => "Braiins"@,
        MinerFirmware::EPic => "UMC OS"@,
        MinerFirmware::LuxOS => "LuxOS"@,
        MinerFirmware::VNish => "VNish"@,
        MinerFirmware::Marathon => "Marathon"@,
    }
}

/// Whether `name` is the name of one of the firmware families that can be
/// filtered by.
pub open spec fn is_firmware_family(name: Seq<char>) -> bool {
    ||| name == firmware_entry_name(MinerFirmware::BraiinsOS)
    ||| name == firmware_entry_name(MinerFirmware::EPic)
    ||| name == firmware_entry_name(MinerFirmware::LuxOS)
    ||| name == firmware_entry_name(MinerFirmware::VNish)
    ||| name == firmware_entry_name(MinerFirmware::Marathon)
}

/// Whether one of `makes` has its stock firmware kept under `name`.
pub open spec fn names_make(makes: Seq<MinerMake>, name: Seq<char>) -> bool {
    exists|i: int| 0 <= i < makes.len() && make_entry_name(#[trigger] makes[i]) == name
}

/// Whether one of `firmwares` is kept under `name`.
pub open spec fn names_firmware(firmwares: Seq<MinerFirmware>, name: Seq<char>) -> bool {
    exists|i: int| 0 <= i < firmwares.len() && firmware_entry_name(#[trigger] firmwares[i]) == name
}

impl ScanPlan {
    /// Whether the discovery entry kept under `name` takes part in the
    /// scan: a firmware family if it is listed or no firmware filter is set,
    /// any other entry if it is the stock firmware of a listed make or no
    /// make filter is set.
    pub open spec fn admits_entry(self, name: Seq<char>) -> bool {
        if is_firmware_family(name) {
            match self.search_firmwares {
                Some(firmwares) => names_firmware(firmwares@, name),
                None => true,
            }
        } else {
            match self.search_makes {
                Some(makes) => names_make(makes@, name),
                None => true,
            }
        }
    }

    /// Decides whether the discovery entry kept under `entry_name` takes
    /// part in the scan.
    pub fn admits(&self, entry_name: &str) -> (admitted: bool)
        ensures
            admitted == self.admits_entry(entry_name@),
    {
        let family = same_text(entry_name, firmware_label(MinerFirmware::BraiinsOS)) || same_text(
            entry_name,
            firmware_label(MinerFirmware::EPic),
        ) || same_text(entry_name, firmware_label(MinerFirmware::LuxOS)) || same_text(
            entry_name,
            firmware_label(MinerFirmware::VNish),
        ) || same_text(entry_name, firmware_label(MinerFirmware::Marathon));
        if family {
            match &self.search_firmwares {
                Some(firmwares) => {
                    let mut i: usize = 0;
                    while i < firmwares.len()
                        invariant
                            i <= firmwares.len(),
                            self.search_firmwares == Some(*firmwares),
                            is_firmware_family(entry_name@),
                            forall|j: int|
                                0 <= j < i ==> firmware_entry_name(#[trigger] firmwares@[j])
                                    != entry_name@,
                        decreases firmwares.len() - i,
                    {
                        if same_text(entry_name, firmware_label(firmwares[i])) {
                            assert(firmware_entry_name(firmwares@[i as int]) == entry_name@);
                            return true;
                        }
                        i += 1;
                    }
                    false
                },
                None => true,
            }
        } else {
            match &self.search_makes {
                Some(makes) => {
                    let mut i: usize = 0;
                    while i < makes.len()
                        invariant
                            i <= makes.len(),
                            self.search_makes == Some(*makes),
                            !is_firmware_family(entry_name@),
                            forall|j: int|
                                0 <= j < i ==> make_entry_name(#[trigger] makes@[j]) != entry_name@,
                        decreases makes.len() - i,
                    {
                        if same_text(entry_name, make_label(makes[i])) {
                            assert(make_entry_name(makes@[i as int]) == entry_name@);
                            return true;
                        }
                        i += 1;
                    }
                    false
                },
                None => true,
            }
        }
    }
}

fn make_label(make: MinerMake) -> (name: &'static str)
    ensures
        name@ == make_entry_name(make),
{
    match make {
        MinerMake::AntMiner => "AntMiner Stock",
        MinerMake::WhatsMiner => "WhatsMiner Stock",
        MinerMake::AvalonMiner => "AvalonMiner Stock",
        MinerMake::BitAxe => "Bitaxe Stock",
        MinerMake::EPic => "UMC OS",
        MinerMake::Braiins => "Braiins",
    }
}

fn firmware_label(firmware: MinerFirmware) -> (name: &'static str)
    ensures
        name@ == firmware_entry_name(firmware),
{
    match firmware {
        MinerFirmware::BraiinsOS => "Braiins",
        MinerFirmware::EPic => "UMC OS",
        MinerFirmware::LuxOS => "LuxOS",
        MinerFirmware::VNish => "VNish",
        MinerFirmware::Marathon => "Marathon",
    }
}

} // verus!
