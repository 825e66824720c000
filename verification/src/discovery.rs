//! The discovery collector: turns a stream of resolution events into a
//! deduplicated set of device records, keyed by the advertised hostname.
//!
//! The caller owns the subscription to the discovery subsystem and feeds
//! each resolved announcement in through [`DiscoveryCollector::on_resolved`];
//! the collector keeps at most one record per hostname, last announcement
//! winning.

use vstd::prelude::*;

verus! {

/// One discovered controller: the advertised hostname (suffix-qualified,
/// the deduplication key), its advertised addresses in textual form, and
/// its HTTP port.
pub struct DeviceRecord {
    pub hostname: String,
    pub addresses: Vec<String>,
    pub port: u16,
}

/// True when some record in `rs` carries the hostname `h`.
pub open spec fn has_host(rs: Seq<DeviceRecord>, h: Seq<char>) -> bool {
    exists|i: int| 0 <= i < rs.len() && rs[i].hostname@ == h
}

/// True when `i` indexes a record of `rs` with hostname `h`.
pub open spec fn host_index(rs: Seq<DeviceRecord>, h: Seq<char>, i: int) -> bool {
    0 <= i < rs.len() && rs[i].hostname@ == h
}

/// True when no two records of `rs` share a hostname.
pub open spec fn hostnames_unique(rs: Seq<DeviceRecord>) -> bool {
    forall|i: int, j: int|
        0 <= i < rs.len() && 0 <= j < rs.len() && i != j ==> rs[i].hostname@ != rs[j].hostname@
}

/// Accumulates resolution events into a set of device records with
/// pairwise distinct hostnames.
pub struct DiscoveryCollector {
    pub records: Vec<DeviceRecord>,
}

impl DiscoveryCollector {
    /// An empty collector.
    pub fn new() -> (r: DiscoveryCollector)
        ensures
            r.records@ =~= Seq::<DeviceRecord>::empty(),
            hostnames_unique(r.records@),
    {
        DiscoveryCollector { records: Vec::new() }
    }

    /// Takes one resolved announcement. A record with a new hostname is
    /// appended; an announcement for a hostname already present replaces
    /// that record (last announcement wins). Returns whether the hostname
    /// was new, which is the caller's cue to log the discovery.
    pub fn on_resolved(&mut self, rec: DeviceRecord) -> (newly_added: bool)
        requires
            hostnames_unique(old(self).records@),
        ensures
            hostnames_unique(final (self).records@),
            newly_added == !has_host(old(self).records@, rec.hostname@),
            newly_added ==> final (self).records@ =~= old(self).records@.push(rec),
            !newly_added ==> exists|i: int|
                host_index(old(self).records@, rec.hostname@, i) && final (self).records@
                    =~= old(self).records@.update(i, rec),
    {
        let n = self.records.len();
        let mut i: usize = 0;
        while i < n
            invariant
                0 <= i <= n,
                n == self.records@.len(),
                *self == *old(self),
                hostnames_unique(self.records@),
                forall|j: int| 0 <= j < i ==> self.records@[j].hostname@ != rec.hostname@,
            decreases n - i,
        {
            if crate::text::str_eq(self.records[i].hostname.as_str(), rec.hostname.as_str()) {
                assert(host_index(self.records@, rec.hostname@, i as int));
                let ghost prev = self.records@;
                self.records.set(i, rec);
                proof {
                    assert forall|p: int, q: int|
                        0 <= p < self.records@.len() && 0 <= q < self.records@.len() && p
                            != q implies self.records@[p].hostname@ != self.records@[q].hostname@ by {
                        assert(prev[p].hostname@ != prev[q].hostname@);
                        if p != i as int {
                            assert(self.records@[p] == prev[p]);
                        }
                        if q != i as int {
                            assert(self.records@[q] == prev[q]);
                        }
                    }
                }
                return false;
            }
            i = i + 1;
        }
        assert(!has_host(self.records@, rec.hostname@));
        self.records.push(rec);
        true
    }

    /// Hands the collected records out; their order carries no meaning.
    pub fn into_records(self) -> (r: Vec<DeviceRecord>)
        ensures
            r@ == self.records@,
    {
        self.records
    }
}

/// Replaying two announcements that share a hostname leaves exactly one
/// record for that hostname, and it is the later announcement's record:
/// starting from any well-formed state, after the two calls the state
/// holds `b` at some index and no other record with that hostname.
pub proof fn lemma_dedup_last_wins(
    before: Seq<DeviceRecord>,
    mid: Seq<DeviceRecord>,
    after: Seq<DeviceRecord>,
    a: DeviceRecord,
    b: DeviceRecord,
)
    requires
        a.hostname@ == b.hostname@,
        hostnames_unique(mid),
        hostnames_unique(after),
        // the first announcement, as on_resolved ensures it:
        (!has_host(before, a.hostname@) && mid =~= before.push(a)) || (exists|i: int|
            host_index(before, a.hostname@, i) && mid =~= before.update(i, a)),
        // the second announcement, as on_resolved ensures it:
        (!has_host(mid, b.hostname@) && after =~= mid.push(b)) || (exists|i: int|
            host_index(mid, b.hostname@, i) && after =~= mid.update(i, b)),
    ensures
        exists|i: int| host_index(after, b.hostname@, i) && after[i] == b,
        forall|i: int, j: int|
            host_index(after, b.hostname@, i) && host_index(after, b.hostname@, j) ==> i == j,
        after.len() == mid.len(),
{
    assert(has_host(mid, a.hostname@)) by {
        if !has_host(before, a.hostname@) {
            assert(mid[before.len() as int].hostname@ == a.hostname@);
        } else {
            let i = choose|i: int|
                host_index(before, a.hostname@, i) && mid =~= before.update(i, a);
            assert(mid[i].hostname@ == a.hostname@);
        }
    }
    let i = choose|i: int| host_index(mid, b.hostname@, i) && after =~= mid.update(i, b);
    assert(host_index(after, b.hostname@, i) && after[i] == b);
}

} // verus!
