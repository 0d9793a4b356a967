//! Fleet-wide aggregation: highest observed block, lag detection, and the
//! end-of-sweep summary groups.
//!
//! Aggregates carry no memory between sweeps: the highest height is
//! recomputed from scratch from the records as they stand after the checks.
//! Summary reporting here uses the grouped policy: online records with zero
//! peers, online records with one peer, and offline records, each listed
//! with its record indices.

use vstd::prelude::*;

verus! {

use crate::LAG_THRESHOLD;
use crate::BASE_PORT;
use crate::record::ClientRecord;

/// The running maximum of `block_height` over the online records of `rs`,
/// 0 when none is online.
pub open spec fn highest_of(rs: Seq<ClientRecord>) -> u64
    decreases rs.len(),
{
    if rs.len() == 0 {
        0u64
    } else if rs.last().online && rs.last().block_height > highest_of(rs.drop_last()) {
        rs.last().block_height
    } else {
        highest_of(rs.drop_last())
    }
}

/// Builds the fleet: `count` records with indices 0 up to `count`, each
/// initially online with zeroed height and peer count.
pub fn new_fleet(count: usize) -> (v: Vec<ClientRecord>)
    requires
        count + BASE_PORT as usize <= u16::MAX as usize + 1,
    ensures
        v@.len() == count,
        forall|i: int|
            0 <= i < count ==> {
                &&& (#[trigger] v@[i]).inv()
                &&& v@[i].index == i
                &&& v@[i].port as int == BASE_PORT as int + i
                &&& v@[i].online
                &&& v@[i].block_height == 0
                &&& v@[i].peer_count == 0
                &&& v@[i].offline_since is None
            },
{
    let mut v: Vec<ClientRecord> = Vec::new();
    let mut i: usize = 0;
    while i < count
        invariant
            count + BASE_PORT as usize <= u16::MAX as usize + 1,
            i <= count,
            v@.len() == i,
            forall|k: int|
                0 <= k < i ==> {
                    &&& (#[trigger] v@[k]).inv()
                    &&& v@[k].index == k
                    &&& v@[k].port as int == BASE_PORT as int + k
                    &&& v@[k].online
                    &&& v@[k].block_height == 0
                    &&& v@[k].peer_count == 0
                    &&& v@[k].offline_since is None
                },
        decreases count - i,
    {
        v.push(ClientRecord::new(i));
        i = i + 1;
    }
    v
}

/// Computes the fleet's highest observed block height after a sweep: the
/// maximum `block_height` among online records, 0 when none is online.
pub fn highest_block(records: &Vec<ClientRecord>) -> (h: u64)
    ensures
        h == highest_of(records@),
{
    let mut h: u64 = 0;
    let mut i: usize = 0;
    while i < records.len()
        invariant
            i <= records@.len(),
            h == highest_of(records@.take(i as int)),
        decreases records@.len() - i,
    {
        proof {
            assert(records@.take(i as int + 1).drop_last() =~= records@.take(i as int));
            assert(records@.take(i as int + 1).last() == records@[i as int]);
        }
        if records[i].online && records[i].block_height > h {
            h = records[i].block_height;
        }
        i = i + 1;
    }
    proof {
        assert(records@.take(records@.len() as int) =~= records@);
    }
    h
}

/// The highest observed height is the maximum over online records: no online
/// record exceeds it, and unless it is 0 (as when no record is online) some
/// online record attains it.
pub proof fn lemma_highest_is_max(rs: Seq<ClientRecord>)
    ensures
        forall|i: int|
            0 <= i < rs.len() && (#[trigger] rs[i]).online ==> rs[i].block_height <= highest_of(rs),
        highest_of(rs) == 0 || exists|i: int|
            0 <= i < rs.len() && (#[trigger] rs[i]).online && rs[i].block_height == highest_of(rs),
    decreases rs.len(),
{
    if rs.len() > 0 {
        let pre = rs.drop_last();
        lemma_highest_is_max(pre);
        assert forall|i: int|
            0 <= i < rs.len() && (#[trigger] rs[i]).online implies rs[i].block_height <= highest_of(
            rs,
        ) by {
            if i < rs.len() - 1 {
                assert(pre[i] == rs[i]);
            }
        }
        let h = highest_of(rs);
        if h != 0 {
            if rs.last().online && rs.last().block_height > highest_of(pre) {
                assert((rs[rs.len() - 1]).online && rs[rs.len() - 1].block_height == h);
            } else {
                let j = choose|i: int|
                    0 <= i < pre.len() && (#[trigger] pre[i]).online && pre[i].block_height
                        == highest_of(pre);
                assert((rs[j]).online && rs[j].block_height == h);
            }
        }
    }
}

/// The running highest height never falls within a sweep: over any prefix of
/// the records it is at most the highest over all of them.
pub proof fn lemma_highest_monotone(rs: Seq<ClientRecord>, k: int)
    requires
        0 <= k <= rs.len(),
    ensures
        highest_of(rs.take(k)) <= highest_of(rs),
    decreases rs.len(),
{
    if k < rs.len() {
        assert(rs.drop_last().take(k) =~= rs.take(k));
        lemma_highest_monotone(rs.drop_last(), k);
    } else {
        assert(rs.take(k) =~= rs);
    }
}

/// True of a record that counts as lagging: online and more than
/// `LAG_THRESHOLD` blocks below `highest`.
pub open spec fn is_lagging(r: ClientRecord, highest: u64) -> bool {
    r.online && highest - r.block_height > LAG_THRESHOLD
}

/// One lag warning owed to the log: the record's index, the exact gap to the
/// fleet's highest height, and the record's own height.
#[derive(Clone, Copy, PartialEq, Eq, Debug)]
pub struct LagWarning {
    pub index: usize,
    pub gap: u64,
    pub height: u64,
}

/// The warning owed for record `r`.
pub open spec fn warning_of(r: ClientRecord, highest: u64) -> LagWarning {
    LagWarning { index: r.index, gap: (highest - r.block_height) as u64, height: r.block_height }
}

/// The lag warnings of a sweep: one per lagging record, in sweep order.
pub open spec fn lag_warnings(rs: Seq<ClientRecord>, highest: u64) -> Seq<LagWarning>
    decreases rs.len(),
{
    if rs.len() == 0 {
        Seq::<LagWarning>::empty()
    } else if is_lagging(rs.last(), highest) {
        lag_warnings(rs.drop_last(), highest).push(warning_of(rs.last(), highest))
    } else {
        lag_warnings(rs.drop_last(), highest)
    }
}

/// Decides whether one record is flagged as lagging.
pub fn record_lags(r: &ClientRecord, highest: u64) -> (b: bool)
    ensures
        b == is_lagging(*r, highest),
{
    r.online && highest > r.block_height && highest - r.block_height > LAG_THRESHOLD
}

/// Collects the lag warnings of a sweep, in sweep order.
pub fn lagging_report(records: &Vec<ClientRecord>, highest: u64) -> (w: Vec<LagWarning>)
    ensures
        w@ == lag_warnings(records@, highest),
{
    let mut w: Vec<LagWarning> = Vec::new();
    let mut i: usize = 0;
    while i < records.len()
        invariant
            i <= records@.len(),
            w@ == lag_warnings(records@.take(i as int), highest),
        decreases records@.len() - i,
    {
        proof {
            assert(records@.take(i as int + 1).drop_last() =~= records@.take(i as int));
            assert(records@.take(i as int + 1).last() == records@[i as int]);
        }
        if record_lags(&records[i], highest) {
            let r = &records[i];
            w.push(LagWarning { index: r.index, gap: highest - r.block_height, height: r.block_height });
        }
        i = i + 1;
    }
    proof {
        assert(records@.take(records@.len() as int) =~= records@);
    }
    w
}

/// True when warning `w` is the one owed for some lagging record of `rs`.
pub open spec fn warning_comes_from(rs: Seq<ClientRecord>, highest: u64, w: LagWarning) -> bool {
    exists|i: int|
        0 <= i < rs.len() && is_lagging(#[trigger] rs[i], highest) && w == warning_of(
            rs[i],
            highest,
        )
}

/// A record is flagged as lagging exactly when it is online and more than
/// `LAG_THRESHOLD` blocks below `highest`: the sweep's warnings hold an
/// entry for every such record, and every entry comes from such a record.
pub proof fn lemma_lag_warnings_iff(rs: Seq<ClientRecord>, highest: u64)
    ensures
        forall|i: int|
            0 <= i < rs.len() && is_lagging(#[trigger] rs[i], highest) ==> lag_warnings(
                rs,
                highest,
            ).contains(warning_of(rs[i], highest)),
        forall|j: int|
            0 <= j < lag_warnings(rs, highest).len() ==> warning_comes_from(
                rs,
                highest,
                #[trigger] lag_warnings(rs, highest)[j],
            ),
    decreases rs.len(),
{
    if rs.len() > 0 {
        let pre = rs.drop_last();
        let lw = lag_warnings(rs, highest);
        let pw = lag_warnings(pre, highest);
        lemma_lag_warnings_iff(pre, highest);
        assert forall|i: int|
            0 <= i < rs.len() && is_lagging(#[trigger] rs[i], highest) implies lw.contains(
            warning_of(rs[i], highest),
        ) by {
            if i < rs.len() - 1 {
                assert(pre[i] == rs[i]);
                assert(pw.contains(warning_of(pre[i], highest)));
                let k = choose|k: int| 0 <= k < pw.len() && pw[k] == warning_of(pre[i], highest);
                assert(lw[k] == warning_of(rs[i], highest));
            } else {
                assert(lw.last() == warning_of(rs[i], highest));
            }
        }
        assert forall|j: int| 0 <= j < lw.len() implies warning_comes_from(
            rs,
            highest,
            #[trigger] lw[j],
        ) by {
            if j < pw.len() {
                assert(lw[j] == pw[j]);
                assert(warning_comes_from(pre, highest, pw[j]));
                let i = choose|i: int|
                    0 <= i < pre.len() && is_lagging(#[trigger] pre[i], highest) && pw[j]
                        == warning_of(pre[i], highest);
                assert(pre[i] == rs[i]);
                assert(is_lagging(rs[i], highest) && lw[j] == warning_of(rs[i], highest));
            } else {
                let i = rs.len() - 1;
                assert(rs[i] == rs.last());
                assert(is_lagging(rs[i], highest) && lw[j] == warning_of(rs[i], highest));
            }
        }
    } else {
        assert(lag_warnings(rs, highest) =~= Seq::<LagWarning>::empty());
    }
}

/// The indices of the online records with exactly `p` peers, in sweep order.
pub open spec fn peer_group(rs: Seq<ClientRecord>, p: u64) -> Seq<usize>
    decreases rs.len(),
{
    if rs.len() == 0 {
        Seq::<usize>::empty()
    } else if rs.last().online && rs.last().peer_count == p {
        peer_group(rs.drop_last(), p).push(rs.last().index)
    } else {
        peer_group(rs.drop_last(), p)
    }
}

/// The indices of the offline records, in sweep order.
pub open spec fn offline_group(rs: Seq<ClientRecord>) -> Seq<usize>
    decreases rs.len(),
{
    if rs.len() == 0 {
        Seq::<usize>::empty()
    } else if !rs.last().online {
        offline_group(rs.drop_last()).push(rs.last().index)
    } else {
        offline_group(rs.drop_last())
    }
}

/// The three end-of-sweep summary groups, each a list of record indices in
/// sweep order.
pub struct FleetGroups {
    /// Online records with no peer at all.
    pub zero_peers: Vec<usize>,
    /// Online records with exactly one peer.
    pub one_peer: Vec<usize>,
    /// Offline records.
    pub offline: Vec<usize>,
}

/// Partitions the fleet for the end-of-sweep summary.
pub fn partition_records(records: &Vec<ClientRecord>) -> (g: FleetGroups)
    ensures
        g.zero_peers@ == peer_group(records@, 0),
        g.one_peer@ == peer_group(records@, 1),
        g.offline@ == offline_group(records@),
{
    let mut zero_peers: Vec<usize> = Vec::new();
    let mut one_peer: Vec<usize> = Vec::new();
    let mut offline: Vec<usize> = Vec::new();
    let mut i: usize = 0;
    while i < records.len()
        invariant
            i <= records@.len(),
            zero_peers@ == peer_group(records@.take(i as int), 0),
            one_peer@ == peer_group(records@.take(i as int), 1),
            offline@ == offline_group(records@.take(i as int)),
        decreases records@.len() - i,
    {
        proof {
            assert(records@.take(i as int + 1).drop_last() =~= records@.take(i as int));
            assert(records@.take(i as int + 1).last() == records@[i as int]);
        }
        let r = &records[i];
        if r.online {
            if r.peer_count == 0 {
                zero_peers.push(r.index);
            } else if r.peer_count == 1 {
                one_peer.push(r.index);
            }
        } else {
            offline.push(r.index);
        }
        i = i + 1;
    }
    proof {
        assert(records@.take(records@.len() as int) =~= records@);
    }
    FleetGroups { zero_peers, one_peer, offline }
}

} // verus!
