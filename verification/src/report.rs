//! The report pipeline: the per-host status record, the configuration, the
//! host-name resolver, the report builder with its synthetic record for an
//! unreachable cluster, and the aggregation of records into the process
//! exit signal.

use crate::hostname::{decode_host_name, spec_decode_host_name};
use crate::status::{
    spec_status_str, spec_verdict, to_status_str, to_verdict, ERROR, FAILED, NORMAL, PASSED,
};
use crate::strutil::{append_i32, spec_int_str};
use vstd::prelude::*;

verus! {

/// Reserved storage-usage extension point; never populated by the current
/// pipeline.
#[derive(Clone, Debug)]
pub struct StorageInfo {
    used: u64,
    total: u64,
}

impl View for StorageInfo {
    type V = (u64, u64);

    closed spec fn view(&self) -> (u64, u64) {
        (self.used, self.total)
    }
}

impl StorageInfo {
    pub fn new(used: u64, total: u64) -> (r: Self)
        ensures
            r@ == (used, total),
    {
        StorageInfo { used, total }
    }

    pub fn used(&self) -> (r: u64)
        ensures
            r == self@.0,
    {
        self.used
    }

    pub fn total(&self) -> (r: u64)
        ensures
            r == self@.1,
    {
        self.total
    }
}

/// One normalized status record: the externally reported host name, the
/// pass/fail verdict as an integer code, and the optional fields.
#[derive(Clone, Debug)]
pub struct StatusStorageInfo {
    pub name: String,
    pub status: i32,
    pub storage: Option<StorageInfo>,
    pub critical_group_name: Option<String>,
    pub remarks: Option<String>,
}

/// The mathematical content of a status record.
#[verifier::ext_equal]
pub struct RecordModel {
    pub name: Seq<char>,
    pub status: i32,
    pub storage: Option<(u64, u64)>,
    pub critical_group_name: Option<Seq<char>>,
    pub remarks: Option<Seq<char>>,
}

impl View for StatusStorageInfo {
    type V = RecordModel;

    open spec fn view(&self) -> RecordModel {
        RecordModel {
            name: self.name@,
            status: self.status,
            storage: match self.storage {
                Some(st) => Some(st@),
                None => None,
            },
            critical_group_name: match self.critical_group_name {
                Some(s) => Some(s@),
                None => None,
            },
            remarks: match self.remarks {
                Some(s) => Some(s@),
                None => None,
            },
        }
    }
}

impl StatusStorageInfo {
    pub fn new(
        name: String,
        status: i32,
        storage: Option<StorageInfo>,
        critical_group_name: Option<String>,
        remarks: Option<String>,
    ) -> (r: Self)
        ensures
            r == (StatusStorageInfo { name, status, storage, critical_group_name, remarks }),
    {
        StatusStorageInfo { name, status, storage, critical_group_name, remarks }
    }
}

/// The run's configuration: a prefix prepended to every reported name, a
/// raw-name to display-name mapping (keys unique), and the critical-group
/// label attached to every record.
#[derive(Clone, Debug)]
pub struct Config {
    pub prefix: String,
    pub name_mapping: Vec<(String, String)>,
    pub critical_group_name: String,
}

/// The mathematical content of a configuration.
#[verifier::ext_equal]
pub struct ConfigModel {
    pub prefix: Seq<char>,
    pub name_mapping: Seq<(Seq<char>, Seq<char>)>,
    pub critical_group_name: Seq<char>,
}

impl View for Config {
    type V = ConfigModel;

    open spec fn view(&self) -> ConfigModel {
        ConfigModel {
            prefix: self.prefix@,
            name_mapping: self.name_mapping@.map_values(|p: (String, String)| (p.0@, p.1@)),
            critical_group_name: self.critical_group_name@,
        }
    }
}

/// One raw per-host entry of the data source: the fixed-size name buffer
/// (not guaranteed valid text) and the status bitmask.
#[derive(Clone, Debug)]
pub struct RawHostStatus {
    pub host_name: Vec<u8>,
    pub status: i32,
}

/// The mathematical content of a raw host entry.
#[verifier::ext_equal]
pub struct HostModel {
    pub host_name: Seq<u8>,
    pub status: i32,
}

impl View for RawHostStatus {
    type V = HostModel;

    open spec fn view(&self) -> HostModel {
        HostModel { host_name: self.host_name@, status: self.status }
    }
}

/// The value mapped to `k` by the first pair whose key is `k`, if any.
pub open spec fn spec_lookup(m: Seq<(Seq<char>, Seq<char>)>, k: Seq<char>) -> Option<Seq<char>>
    decreases m.len(),
{
    if m.len() == 0 {
        None
    } else if m[0].0 == k {
        Some(m[0].1)
    } else {
        spec_lookup(m.drop_first(), k)
    }
}

/// The display name before the prefix: the mapping's value for `raw` when
/// present, else `raw` unchanged.
pub open spec fn spec_resolved_name(m: Seq<(Seq<char>, Seq<char>)>, raw: Seq<char>) -> Seq<char> {
    match spec_lookup(m, raw) {
        Some(v) => v,
        None => raw,
    }
}

fn lookup_mapping<'a>(m: &'a Vec<(String, String)>, k: &String) -> (r: Option<&'a String>)
    ensures
        r is Some <==> spec_lookup(
            m@.map_values(|p: (String, String)| (p.0@, p.1@)),
            k@,
        ) is Some,
        r matches Some(v) ==> Some(v@) == spec_lookup(
            m@.map_values(|p: (String, String)| (p.0@, p.1@)),
            k@,
        ),
{
    let ghost model = m@.map_values(|p: (String, String)| (p.0@, p.1@));
    let mut i: usize = 0;
    proof {
        assert(model.skip(0) =~= model);
    }
    while i < m.len()
        invariant
            i <= m@.len(),
            model == m@.map_values(|p: (String, String)| (p.0@, p.1@)),
            spec_lookup(model, k@) == spec_lookup(model.skip(i as int), k@),
        decreases m@.len() - i,
    {
        let pair = &m[i];
        if pair.0.eq(k) {
            proof {
                assert(model.skip(i as int)[0] == model[i as int]);
            }
            return Some(&pair.1);
        }
        proof {
            assert(model.skip(i as int)[0] == model[i as int]);
            assert(model.skip(i as int).drop_first() =~= model.skip(i + 1));
        }
        i = i + 1;
    }
    proof {
        assert(model.skip(i as int) =~= Seq::<(Seq<char>, Seq<char>)>::empty());
    }
    None
}

/// Resolve the externally reported host name: `prefix + resolved`, where
/// `resolved` is the mapping's value for `raw` when present, else `raw`.
pub fn resolve_host_name(prefix: &String, name_mapping: &Vec<(String, String)>, raw: &String) -> (r:
    String)
    ensures
        r@ == prefix@ + spec_resolved_name(
            name_mapping@.map_values(|p: (String, String)| (p.0@, p.1@)),
            raw@,
        ),
{
    let mut out = prefix.clone();
    match lookup_mapping(name_mapping, raw) {
        Some(v) => out.append(v.as_str()),
        None => out.append(raw.as_str()),
    }
    out
}

/// The remarks attached to every per-host record: the raw numeric code and
/// its symbolic name.
pub open spec fn spec_remarks(status: i32) -> Seq<char> {
    "Status code: "@ + spec_int_str(status as int) + " ("@ + spec_status_str(status) + ")"@
}

/// Build the remarks line `Status code: {numeric} ({symbolic})`.
pub fn build_remarks(status: i32) -> (r: String)
    ensures
        r@ == spec_remarks(status),
{
    let mut out = "Status code: ".to_owned();
    append_i32(&mut out, status);
    out.append(" (");
    out.append(to_status_str(status));
    out.append(")");
    proof {
        assert(out@ =~= spec_remarks(status));
    }
    out
}

/// The externally reported name of a raw host buffer: the prefix, then the
/// mapped decoded name, or the escaped byte rendering when the bytes are not
/// valid text (the mapping is skipped on that fallback path).
pub open spec fn spec_display_name(cfg: ConfigModel, buf: Seq<u8>) -> Seq<char> {
    match spec_decode_host_name(buf) {
        Ok(n) => cfg.prefix + spec_resolved_name(cfg.name_mapping, n),
        Err(d) => cfg.prefix + d,
    }
}

/// The normalized record for one raw host entry.
pub open spec fn spec_build_record(cfg: ConfigModel, h: HostModel) -> RecordModel {
    RecordModel {
        name: spec_display_name(cfg, h.host_name),
        status: spec_verdict(h.status),
        storage: None,
        critical_group_name: Some(cfg.critical_group_name),
        remarks: Some(spec_remarks(h.status)),
    }
}

/// The single synthetic record emitted when the cluster manager returned no
/// host data at all.
pub open spec fn spec_unreachable_record(cfg: ConfigModel) -> RecordModel {
    RecordModel {
        name: cfg.prefix + "*"@,
        status: FAILED,
        storage: None,
        critical_group_name: Some(cfg.critical_group_name),
        remarks: Some("Unable to connect any of the LSF nodes"@),
    }
}

/// The models of a sequence of records.
pub open spec fn records_view(rs: Seq<StatusStorageInfo>) -> Seq<RecordModel> {
    rs.map_values(|r: StatusStorageInfo| r@)
}

/// The models of a sequence of raw host entries.
pub open spec fn hosts_view(hs: Seq<RawHostStatus>) -> Seq<HostModel> {
    hs.map_values(|h: RawHostStatus| h@)
}

/// The whole report: one record per host, in input order, when the host
/// count is positive; exactly the synthetic unreachable record otherwise.
pub open spec fn spec_build_report(cfg: ConfigModel, hosts: Seq<HostModel>, numhosts: int) -> Seq<
    RecordModel,
> {
    if numhosts <= 0 {
        seq![spec_unreachable_record(cfg)]
    } else {
        hosts.map_values(|h: HostModel| spec_build_record(cfg, h))
    }
}

/// Build the normalized record for one raw host entry.
pub fn build_record(config: &Config, host: &RawHostStatus) -> (r: StatusStorageInfo)
    ensures
        r@ == spec_build_record(config@, host@),
{
    let status = host.status;
    let conv_status = to_verdict(status);
    let critical_group_name = config.critical_group_name.clone();
    let remarks = build_remarks(status);
    let name = match decode_host_name(&host.host_name) {
        Ok(host_name) => resolve_host_name(&config.prefix, &config.name_mapping, &host_name),
        Err(repr) => {
            let mut n = config.prefix.clone();
            n.append(repr.as_str());
            n
        },
    };
    let r = StatusStorageInfo::new(name, conv_status, None, Some(critical_group_name), Some(remarks));
    proof {
        assert(r@ =~= spec_build_record(config@, host@));
    }
    r
}

/// Build the full report from one poll of the data source. A non-positive
/// `numhosts` means the cluster manager was unreachable or returned no
/// data; the report then degrades to the single synthetic failing record.
pub fn build_report(config: &Config, hosts: &Vec<RawHostStatus>, numhosts: i32) -> (r: Vec<
    StatusStorageInfo,
>)
    requires
        numhosts > 0 ==> hosts@.len() == numhosts,
    ensures
        records_view(r@) == spec_build_report(config@, hosts_view(hosts@), numhosts as int),
        r@.len() >= 1,
{
    let ghost goal = spec_build_report(config@, hosts_view(hosts@), numhosts as int);
    if numhosts > 0 {
        let mut out: Vec<StatusStorageInfo> = Vec::new();
        let mut i: usize = 0;
        proof {
            assert(records_view(out@) =~= goal.take(0));
        }
        while i < hosts.len()
            invariant
                i <= hosts@.len(),
                hosts@.len() == numhosts,
                numhosts > 0,
                goal == spec_build_report(config@, hosts_view(hosts@), numhosts as int),
                out@.len() == i,
                records_view(out@) == goal.take(i as int),
            decreases hosts@.len() - i,
        {
            let rec = build_record(config, &hosts[i]);
            out.push(rec);
            i = i + 1;
            proof {
                assert(hosts_view(hosts@)[i - 1] == hosts@[i - 1]@);
                assert(goal[i - 1] == spec_build_record(config@, hosts_view(hosts@)[i - 1]));
                assert(records_view(out@) =~= goal.take(i as int));
            }
        }
        proof {
            assert(goal.take(i as int) =~= goal);
        }
        out
    } else {
        let mut name = config.prefix.clone();
        name.append("*");
        let rec = StatusStorageInfo::new(
            name,
            FAILED,
            None,
            Some(config.critical_group_name.clone()),
            Some("Unable to connect any of the LSF nodes".to_owned()),
        );
        let mut out: Vec<StatusStorageInfo> = Vec::new();
        out.push(rec);
        proof {
            assert(rec@ =~= spec_unreachable_record(config@));
            assert(records_view(out@) =~= goal);
        }
        out
    }
}

/// All records carry the `PASSED` verdict. An empty sequence aggregates to
/// true, though the builder never produces one.
pub open spec fn spec_all_passed(rs: Seq<RecordModel>) -> bool {
    forall|i: int| 0 <= i < rs.len() ==> rs[i].status == PASSED
}

/// Aggregate the record set: true iff every record's verdict is `PASSED`.
pub fn all_passed(records: &Vec<StatusStorageInfo>) -> (b: bool)
    ensures
        b == spec_all_passed(records_view(records@)),
{
    let ghost model = records_view(records@);
    let mut i: usize = 0;
    while i < records.len()
        invariant
            i <= records@.len(),
            model == records_view(records@),
            forall|j: int| 0 <= j < i ==> model[j].status == PASSED,
        decreases records@.len() - i,
    {
        if records[i].status != PASSED {
            proof {
                assert(model[i as int].status != PASSED);
            }
            return false;
        }
        proof {
            assert(model[i as int].status == PASSED);
        }
        i = i + 1;
    }
    true
}

/// The process exit signal of a record set: `NORMAL` (0) iff every record
/// is `PASSED`, `ERROR` (127) otherwise.
pub open spec fn spec_exit_code(rs: Seq<RecordModel>) -> i32 {
    if spec_all_passed(rs) {
        NORMAL
    } else {
        ERROR
    }
}

/// Reduce the record set to the process exit code.
pub fn exit_code(records: &Vec<StatusStorageInfo>) -> (c: i32)
    ensures
        c == spec_exit_code(records_view(records@)),
        c == NORMAL <==> spec_all_passed(records_view(records@)),
{
    if all_passed(records) {
        NORMAL
    } else {
        ERROR
    }
}

/// The verdicts of a record set, in order.
pub open spec fn verdicts_of(rs: Seq<RecordModel>) -> Seq<i32> {
    rs.map_values(|r: RecordModel| r.status)
}

/// Law: the builder is deterministic — two runs over the identical raw
/// input set and the identical configuration produce identical records.
pub proof fn lemma_build_report_idempotent(
    cfg: ConfigModel,
    hosts: Seq<HostModel>,
    numhosts: int,
    r1: Seq<RecordModel>,
    r2: Seq<RecordModel>,
)
    requires
        r1 == spec_build_report(cfg, hosts, numhosts),
        r2 == spec_build_report(cfg, hosts, numhosts),
    ensures
        r1 == r2,
{
}

/// Law: the exit code is a pure function of the record set's verdicts —
/// two record sets with the same verdicts, record by record, reduce to the
/// same exit code, independent of which hosts failed or how many.
pub proof fn lemma_exit_code_verdicts_only(r1: Seq<RecordModel>, r2: Seq<RecordModel>)
    requires
        verdicts_of(r1) == verdicts_of(r2),
    ensures
        spec_exit_code(r1) == spec_exit_code(r2),
{
    assert(r1.len() == r2.len()) by {
        assert(verdicts_of(r1).len() == r1.len());
        assert(verdicts_of(r2).len() == r2.len());
    }
    assert forall|i: int| 0 <= i < r1.len() implies r1[i].status == r2[i].status by {
        assert(verdicts_of(r1)[i] == r1[i].status);
        assert(verdicts_of(r2)[i] == r2[i].status);
    }
}

} // verus!
