//! Ordering of discovered miners for display.

use crate::network::scanner::{HostAddress, MinerRecord};
use std::cmp::Ordering;
use vstd::std_specs::cmp::OrdSpec;
use vstd::prelude::*;
use vstd::string::*;

verus! {

/// Which way a column is sorted.
#[derive(Debug, Clone, Copy, PartialEq, Eq, Structural)]
pub enum SortDirection {
    Ascending,
    Descending,
}

impl SortDirection {
    /// The opposite direction.
    pub open spec fn toggled(self) -> SortDirection {
        match self {
            SortDirection::Ascending => SortDirection::Descending,
            SortDirection::Descending => SortDirection::Ascending,
        }
    }

    /// Returns the opposite direction.
    #[must_use]
    pub fn toggle(self) -> (other: Self)
        ensures
            other == self.toggled(),
    {
        match self {
            SortDirection::Ascending => SortDirection::Descending,
            SortDirection::Descending => SortDirection::Ascending,
        }
    }
}

/// Toggling twice gives the direction back.
pub proof fn lemma_toggle_involution(direction: SortDirection)
    ensures
        direction.toggled().toggled() == direction,
        direction.toggled() != direction,
{
}

/// The column miners are sorted by.
#[derive(Debug, Clone, Copy, PartialEq, Eq, Structural)]
pub enum SortColumn {
    IpAddress,
    Model,
    Make,
    Firmware,
    FirmwareVersion,
}

/// Compares `a` with `b` in the given direction: as they stand for
/// ascending, with the sides exchanged for descending.
pub fn compare_with_direction<T: Ord>(a: T, b: T, direction: SortDirection) -> (order: Ordering)
    ensures
        T::obeys_cmp_spec() ==> order == match direction {
            SortDirection::Ascending => a.cmp_spec(&b),
            SortDirection::Descending => b.cmp_spec(&a),
        },
{
    match direction {
        SortDirection::Ascending => a.cmp(&b),
        SortDirection::Descending => b.cmp(&a),
    }
}

/// How one value stands to another in a sort order.
#[derive(Debug, Clone, Copy, PartialEq, Eq, Structural)]
pub enum Rank {
    Before,
    Same,
    After,
}

impl Rank {
    /// The rank seen from the other side.
    pub open spec fn reversed(self) -> Rank {
        match self {
            Rank::Before => Rank::After,
            Rank::Same => Rank::Same,
            Rank::After => Rank::Before,
        }
    }
}

/// The rank of the integer `a` against `b`.
pub open spec fn int_rank(a: int, b: int) -> Rank {
    if a < b {
        Rank::Before
    } else if a == b {
        Rank::Same
    } else {
        Rank::After
    }
}

/// The rank of the bytes `a` against `b`, read as in a dictionary: the
/// first byte that differs decides, and a text ranks before every text it
/// begins.
pub open spec fn bytes_rank(a: Seq<u8>, b: Seq<u8>) -> Rank
    decreases a.len(),
{
    if a.len() == 0 {
        if b.len() == 0 {
            Rank::Same
        } else {
            Rank::Before
        }
    } else if b.len() == 0 {
        Rank::After
    } else if a[0] != b[0] {
        int_rank(a[0] as int, b[0] as int)
    } else {
        bytes_rank(a.drop_first(), b.drop_first())
    }
}

/// The rank of the address `a` against `b`: addresses of the older kind
/// first, and by their number within a kind.
pub open spec fn address_rank(a: HostAddress, b: HostAddress) -> Rank {
    match (a, b) {
        (HostAddress::V4(x), HostAddress::V4(y)) => int_rank(x as int, y as int),
        (HostAddress::V4(_), HostAddress::V6(_)) => Rank::Before,
        (HostAddress::V6(_), HostAddress::V4(_)) => Rank::After,
        (HostAddress::V6(x), HostAddress::V6(y)) => int_rank(x as int, y as int),
    }
}

/// The bytes that encode a text.
pub open spec fn text_bytes(text: Seq<char>) -> Seq<u8> {
    vstd::utf8::encode_utf8(text)
}

/// The bytes a miner is sorted by in a column of text. A miner without a
/// firmware version sorts as one with an empty version.
pub open spec fn text_key(miner: MinerRecord, column: SortColumn) -> Seq<u8> {
    match column {
        SortColumn::IpAddress => Seq::empty(),
        SortColumn::Model => text_bytes(miner.model@),
        SortColumn::Make => text_bytes(miner.make@),
        SortColumn::Firmware => text_bytes(miner.firmware@),
        SortColumn::FirmwareVersion => bytes_or_none(miner.firmware_version),
    }
}

/// The rank of the miner `a` against `b` when sorted by `column`,
/// ascending.
pub open spec fn column_rank(a: MinerRecord, b: MinerRecord, column: SortColumn) -> Rank {
    match column {
        SortColumn::IpAddress => address_rank(a.ip, b.ip),
        _ => bytes_rank(text_key(a, column), text_key(b, column)),
    }
}

/// The rank of the miner `a` against `b` when sorted by `column` in the
/// given direction.
pub open spec fn miner_rank(
    a: MinerRecord,
    b: MinerRecord,
    column: SortColumn,
    direction: SortDirection,
) -> Rank {
    match direction {
        SortDirection::Ascending => column_rank(a, b, column),
        SortDirection::Descending => column_rank(b, a, column),
    }
}

/// Ranks the text `a` against `b` byte by byte.
pub fn rank_text(a: &str, b: &str) -> (rank: Rank)
    ensures
        rank == bytes_rank(text_bytes(a@), text_bytes(b@)),
{
    let left = a.as_bytes();
    let right = b.as_bytes();
    let mut i: usize = 0;
    assert(left@.skip(0) =~= left@);
    assert(right@.skip(0) =~= right@);
    while i < left.len() && i < right.len()
        invariant
            i <= left@.len(),
            i <= right@.len(),
            left@ == a.spec_bytes(),
            right@ == b.spec_bytes(),
            bytes_rank(left@, right@) == bytes_rank(left@.skip(i as int), right@.skip(i as int)),
        decreases left@.len() - i,
    {
        proof {
            let l = left@.skip(i as int);
            let r = right@.skip(i as int);
            assert(l[0] == left@[i as int]);
            assert(r[0] == right@[i as int]);
            assert(l.drop_first() =~= left@.skip(i + 1));
            assert(r.drop_first() =~= right@.skip(i + 1));
        }
        if left[i] < right[i] {
            return Rank::Before;
        }
        if left[i] > right[i] {
            return Rank::After;
        }
        i += 1;
    }
    proof {
        assert(left@.skip(i as int).len() == left@.len() - i);
        assert(right@.skip(i as int).len() == right@.len() - i);
    }
    if i < right.len() {
        Rank::Before
    } else if i < left.len() {
        Rank::After
    } else {
        Rank::Same
    }
}

/// Ranks the address `a` against `b`.
pub fn rank_address(a: HostAddress, b: HostAddress) -> (rank: Rank)
    ensures
        rank == address_rank(a, b),
{
    match (a, b) {
        (HostAddress::V4(x), HostAddress::V4(y)) => if x < y {
            Rank::Before
        } else if x == y {
            Rank::Same
        } else {
            Rank::After
        },
        (HostAddress::V4(_), HostAddress::V6(_)) => Rank::Before,
        (HostAddress::V6(_), HostAddress::V4(_)) => Rank::After,
        (HostAddress::V6(x), HostAddress::V6(y)) => if x < y {
            Rank::Before
        } else if x == y {
            Rank::Same
        } else {
            Rank::After
        },
    }
}

/// The bytes of a text that may be absent: none for an absent one.
pub open spec fn bytes_or_none(text: Option<String>) -> Seq<u8> {
    match text {
        Some(present) => text_bytes(present@),
        None => Seq::empty(),
    }
}

/// Ranks two texts that may be absent, an absent one counting as empty.
pub fn rank_optional_text(a: &Option<String>, b: &Option<String>) -> (rank: Rank)
    ensures
        rank == bytes_rank(bytes_or_none(*a), bytes_or_none(*b)),
{
    match (a, b) {
        (Some(x), Some(y)) => rank_text(x.as_str(), y.as_str()),
        (Some(x), None) => if x.as_str().as_bytes().len() == 0 {
            Rank::Same
        } else {
            Rank::After
        },
        (None, Some(y)) => if y.as_str().as_bytes().len() == 0 {
            Rank::Same
        } else {
            Rank::Before
        },
        (None, None) => Rank::Same,
    }
}

/// Ranks the miner `a` against `b` for a sort by `column` in the given
/// direction.
pub fn rank_miners(a: &MinerRecord, b: &MinerRecord, column: SortColumn, direction: SortDirection) -> (rank:
    Rank)
    ensures
        rank == miner_rank(*a, *b, column, direction),
{
    let (first, second) = match direction {
        SortDirection::Ascending => (a, b),
        SortDirection::Descending => (b, a),
    };
    match column {
        SortColumn::IpAddress => rank_address(first.ip, second.ip),
        SortColumn::Model => rank_text(first.model.as_str(), second.model.as_str()),
        SortColumn::Make => rank_text(first.make.as_str(), second.make.as_str()),
        SortColumn::Firmware => rank_text(first.firmware.as_str(), second.firmware.as_str()),
        SortColumn::FirmwareVersion => rank_optional_text(
            &first.firmware_version,
            &second.firmware_version,
        ),
    }
}

/// Ranking the other way round gives the reversed rank.
pub proof fn lemma_bytes_rank_reversed(a: Seq<u8>, b: Seq<u8>)
    ensures
        bytes_rank(b, a) == bytes_rank(a, b).reversed(),
    decreases a.len(),
{
    if a.len() > 0 && b.len() > 0 && a[0] == b[0] {
        lemma_bytes_rank_reversed(a.drop_first(), b.drop_first());
    }
}

/// Equal texts rank the same, and only they do.
pub proof fn lemma_bytes_rank_same(a: Seq<u8>, b: Seq<u8>)
    ensures
        bytes_rank(a, b) == Rank::Same <==> a == b,
    decreases a.len(),
{
    if a.len() > 0 && b.len() > 0 && a[0] == b[0] {
        lemma_bytes_rank_same(a.drop_first(), b.drop_first());
        if a.drop_first() == b.drop_first() {
            assert(a =~= seq![a[0]] + a.drop_first());
            assert(b =~= seq![b[0]] + b.drop_first());
        }
    }
    if a.len() == 0 && b.len() == 0 {
        assert(a =~= b);
    }
}

/// What does not rank after a text that does not rank after a third does
/// not rank after the third.
pub proof fn lemma_bytes_rank_transitive(a: Seq<u8>, b: Seq<u8>, c: Seq<u8>)
    requires
        bytes_rank(a, b) != Rank::After,
        bytes_rank(b, c) != Rank::After,
    ensures
        bytes_rank(a, c) != Rank::After,
        bytes_rank(a, c) == Rank::Same ==> bytes_rank(a, b) == Rank::Same && bytes_rank(b, c)
            == Rank::Same,
    decreases a.len(),
{
    if a.len() > 0 && b.len() > 0 && c.len() > 0 && a[0] == b[0] && b[0] == c[0] {
        lemma_bytes_rank_transitive(a.drop_first(), b.drop_first(), c.drop_first());
    }
}

/// The rank of miners is that of a total order: a miner ranks the same as
/// itself, ranking the other way round reverses the rank, and ranking
/// carries over a miner in between.
pub proof fn lemma_miner_rank_total(
    a: MinerRecord,
    b: MinerRecord,
    c: MinerRecord,
    column: SortColumn,
    direction: SortDirection,
)
    ensures
        miner_rank(a, a, column, direction) == Rank::Same,
        miner_rank(b, a, column, direction) == miner_rank(a, b, column, direction).reversed(),
        miner_rank(a, b, column, direction) != Rank::After && miner_rank(b, c, column, direction)
            != Rank::After ==> miner_rank(a, c, column, direction) != Rank::After,
{
    match column {
        SortColumn::IpAddress => {},
        _ => {
            let x = text_key(a, column);
            let y = text_key(b, column);
            let z = text_key(c, column);
            lemma_bytes_rank_same(x, x);
            lemma_bytes_rank_reversed(x, y);
            lemma_bytes_rank_reversed(y, x);
            lemma_bytes_rank_reversed(y, z);
            lemma_bytes_rank_reversed(z, y);
            lemma_bytes_rank_reversed(x, z);
            lemma_bytes_rank_reversed(z, x);
            if bytes_rank(x, y) != Rank::After && bytes_rank(y, z) != Rank::After {
                lemma_bytes_rank_transitive(x, y, z);
            }
            if bytes_rank(z, y) != Rank::After && bytes_rank(y, x) != Rank::After {
                lemma_bytes_rank_transitive(z, y, x);
            }
        },
    }
}

/// The rank of the miner `a` against `b`, in the terms the library sort
/// takes.
pub fn order_miners(a: &MinerRecord, b: &MinerRecord, column: SortColumn, direction: SortDirection) -> (order:
    Ordering)
    ensures
        order == match miner_rank(*a, *b, column, direction) {
            Rank::Before => Ordering::Less,
            Rank::Same => Ordering::Equal,
            Rank::After => Ordering::Greater,
        },
{
    match rank_miners(a, b, column, direction) {
        Rank::Before => Ordering::Less,
        Rank::Same => Ordering::Equal,
        Rank::After => Ordering::Greater,
    }
}

/// Whether `after` holds the miners of `before`, each once, the miner at
/// place `i` being the one that stood at place `from[i]`.
pub open spec fn rearranged(before: Seq<MinerRecord>, after: Seq<MinerRecord>, from: Seq<int>) -> bool {
    &&& after.len() == before.len()
    &&& from.len() == before.len()
    &&& forall|i: int|
        0 <= i < after.len() ==> 0 <= #[trigger] from[i] < before.len() && after[i]
            == before[from[i]]
    &&& forall|i: int, j: int| 0 <= i < j < from.len() ==> #[trigger] from[i] != #[trigger] from[j]
}

/// Whether `after` is `before` sorted by `column` in the given direction:
/// the same miners, none ranking after a later one, and those that rank
/// the same in the order in which they stood.
pub open spec fn stably_sorted(
    before: Seq<MinerRecord>,
    after: Seq<MinerRecord>,
    column: SortColumn,
    direction: SortDirection,
) -> bool {
    exists|from: Seq<int>|
        {
            &&& #[trigger] rearranged(before, after, from)
            &&& forall|i: int, j: int|
                0 <= i < j < after.len() ==> miner_rank(
                    #[trigger] after[i],
                    #[trigger] after[j],
                    column,
                    direction,
                ) != Rank::After
            &&& forall|i: int, j: int|
                0 <= i < j < after.len() && miner_rank(after[i], after[j], column, direction)
                    == Rank::Same ==> #[trigger] from[i] < #[trigger] from[j]
        }
}

/// Calls `slice::sort_by` with [`order_miners`] as the comparison.
///
/// Trusted: the standard sort rearranges the slice so that no element
/// compares greater than a later one, and keeps elements that compare equal
/// in their order. It asks of the comparison that it be a total order, which
/// [`lemma_miner_rank_total`] shows of this one.
#[verifier::external_body]
fn sort_records(miners: &mut Vec<MinerRecord>, column: SortColumn, direction: SortDirection)
    ensures
        stably_sorted(old(miners)@, final(miners)@, column, direction),
{
    miners.sort_by(|a, b| order_miners(a, b, column, direction));
}

/// Sorts miners in place by the given column and direction. Miners that
/// rank the same keep their order.
pub fn sort_miners_by_column(
    miners: &mut Vec<MinerRecord>,
    column: SortColumn,
    direction: SortDirection,
)
    ensures
        stably_sorted(old(miners)@, final(miners)@, column, direction),
{
    sort_records(miners, column, direction);
}

} // verus!
