use vstd::prelude::*;
use crate::cache::{CacheView, DnsCache, expired, fresh_snapshot, str_eq};
use crate::clock::MILLIS_PER_HOUR;
use crate::provider::{DnsRecord, UpdateDnsRecord};

verus! {

/// What one run tracks and how: the record's name and type, the TTL written
/// with an update, and how many hours a snapshot may stand in for the provider.
pub struct SyncConfig {
    pub record_name: String,
    pub record_type: String,
    pub ttl: u32,
    pub cache_expiry_hours: i64,
}

/// What the run does after the snapshot has been consulted.
#[derive(Clone, Copy, Debug, PartialEq, Eq, Structural)]
pub enum Decision {
    /// The snapshot is current and holds the IP: nothing to do.
    CacheHit,
    /// The provider has to be asked for the record.
    QueryProvider,
}

/// Why a run stops after listing the records.
#[derive(Clone, Copy, Debug, PartialEq, Eq, Structural)]
pub enum SyncError {
    /// The provider has no record of the tracked name.
    NoRecordFound,
    /// It has records of that name, none of the tracked type.
    NoMatchingType,
}

/// The step that follows a successful listing.
pub enum Plan {
    /// The record already holds the IP: persist `cache` and stop.
    UpToDate { cache: DnsCache },
    /// Send `request` for record `record_id`; once it succeeds, persist
    /// what [`after_update`] makes of `cache`.
    Update { record_id: String, request: UpdateDnsRecord, cache: DnsCache },
}

pub open spec fn view_of(cache: Option<DnsCache>) -> Option<CacheView> {
    match cache {
        Some(c) => Some(c@),
        None => None,
    }
}

/// The snapshot matches the target, is not expired at `now`, and holds `ip`.
pub open spec fn cache_hit(
    name: Seq<char>,
    ty: Seq<char>,
    hours: int,
    ip: Seq<char>,
    cache: Option<CacheView>,
    now: int,
) -> bool {
    match cache {
        Some(c) => c.matches(name, ty) && !expired(c.last_checked, now, hours) && c.ip_address == ip,
        None => false,
    }
}

/// Consults the snapshot: the provider is left alone exactly when the snapshot
/// matches the target, has not expired and holds the current IP.
pub fn decide(config: &SyncConfig, current_ip: &str, cache: &Option<DnsCache>, now: i64) -> (d: Decision)
    ensures
        (d == Decision::CacheHit) == cache_hit(
            config.record_name@,
            config.record_type@,
            config.cache_expiry_hours as int,
            current_ip@,
            view_of(*cache),
            now as int,
        ),
{
    match cache {
        Some(c) => {
            if c.matches_config(config.record_name.as_str(), config.record_type.as_str())
                && !c.is_expired_at(now, config.cache_expiry_hours)
                && str_eq(c.ip_address.as_str(), current_ip)
            {
                Decision::CacheHit
            } else {
                Decision::QueryProvider
            }
        },
        None => Decision::QueryProvider,
    }
}

/// Some record has type `ty`.
pub open spec fn has_type(records: Seq<DnsRecord>, ty: Seq<char>) -> bool {
    exists|j: int| 0 <= j < records.len() && #[trigger] records[j].record_type@ == ty
}

/// `i` is the first record of type `ty`.
pub open spec fn first_of_type(records: Seq<DnsRecord>, ty: Seq<char>, i: int) -> bool {
    &&& 0 <= i < records.len()
    &&& records[i].record_type@ == ty
    &&& forall|j: int| 0 <= j < i ==> #[trigger] records[j].record_type@ != ty
}

/// The error that listing `records` ends in, if no record of type `ty` is there.
pub open spec fn listing_error(records: Seq<DnsRecord>) -> SyncError {
    if records.len() == 0 {
        SyncError::NoRecordFound
    } else {
        SyncError::NoMatchingType
    }
}

/// Picks the tracked record out of a listing: the first of type `record_type`.
pub fn find_target_record(records: &Vec<DnsRecord>, record_type: &str) -> (r: Result<usize, SyncError>)
    ensures
        r is Ok <==> has_type(records@, record_type@),
        r matches Ok(i) ==> first_of_type(records@, record_type@, i as int),
        r matches Err(e) ==> e == listing_error(records@),
{
    if records.len() == 0 {
        return Err(SyncError::NoRecordFound);
    }
    let mut i: usize = 0;
    while i < records.len()
        invariant
            i <= records@.len(),
            records@.len() > 0,
            forall|j: int| 0 <= j < i ==> #[trigger] records@[j].record_type@ != record_type@,
        decreases records@.len() - i,
    {
        if str_eq(records[i].record_type.as_str(), record_type) {
            return Ok(i);
        }
        i = i + 1;
    }
    Err(SyncError::NoMatchingType)
}

/// The snapshot once the remote record has been read at `now`: a matching one
/// is marked checked; otherwise a new one is seeded with the remote content.
pub open spec fn reconciled(
    name: Seq<char>,
    ty: Seq<char>,
    cache: Option<CacheView>,
    remote: Seq<char>,
    now: int,
) -> CacheView {
    match cache {
        Some(c) => if c.matches(name, ty) {
            c.checked_at(now)
        } else {
            fresh_snapshot(name, ty, remote, now)
        },
        None => fresh_snapshot(name, ty, remote, now),
    }
}

/// The snapshot that a run persists when the remote record already holds `ip`.
pub open spec fn confirmed(
    name: Seq<char>,
    ty: Seq<char>,
    ip: Seq<char>,
    cache: Option<CacheView>,
    remote: Seq<char>,
    now: int,
) -> CacheView {
    let c = reconciled(name, ty, cache, remote, now);
    if c.ip_address == ip {
        c
    } else {
        c.ip_updated_at(ip, now)
    }
}

/// The snapshot that a run which went on past the snapshot persists at its end:
/// confirmed when the remote content is `ip`, otherwise written after the update.
pub open spec fn persisted(
    name: Seq<char>,
    ty: Seq<char>,
    ip: Seq<char>,
    cache: Option<CacheView>,
    remote: Seq<char>,
    now: int,
) -> CacheView {
    if remote == ip {
        confirmed(name, ty, ip, cache, remote, now)
    } else {
        reconciled(name, ty, cache, remote, now).ip_updated_at(ip, now)
    }
}

/// The snapshot a plan carries.
pub open spec fn plan_cache(plan: Plan) -> CacheView {
    match plan {
        Plan::UpToDate { cache } => cache@,
        Plan::Update { cache, .. } => cache@,
    }
}

/// No snapshot, or one last updated no later than `now`.
pub open spec fn sound_before(cache: Option<CacheView>, now: int) -> bool {
    match cache {
        Some(c) => c.last_updated <= now,
        None => true,
    }
}

/// What a successful listing leads to, once record `rec` has been picked.
pub open spec fn plan_for(
    plan: Plan,
    config: SyncConfig,
    ip: Seq<char>,
    cache: Option<CacheView>,
    rec: DnsRecord,
    now: int,
) -> bool {
    let name = config.record_name@;
    let ty = config.record_type@;
    if rec.content@ == ip {
        plan matches Plan::UpToDate { cache: c } && c@ == confirmed(name, ty, ip, cache, rec.content@, now)
    } else {
        match plan {
            Plan::Update { record_id, request, cache: c } => {
                &&& record_id@ == rec.id@
                &&& request.record_type@ == ty
                &&& request.name@ == name
                &&& request.content@ == ip
                &&& request.ttl == config.ttl
                &&& c@ == reconciled(name, ty, cache, rec.content@, now)
            },
            _ => false,
        }
    }
}

/// Decides, from the provider's listing, whether the record must be written.
/// The tracked record is the first of the target's type; the run fails when
/// there is none. The record needs an update exactly when its content differs
/// from the current IP, and the update carries the target's type and name, the
/// IP and the configured TTL.
pub fn plan_after_listing(
    config: &SyncConfig,
    current_ip: &str,
    cache: Option<DnsCache>,
    records: &Vec<DnsRecord>,
    now: i64,
) -> (r: Result<Plan, SyncError>)
    ensures
        r is Ok <==> has_type(records@, config.record_type@),
        r matches Err(e) ==> e == listing_error(records@),
        r matches Ok(p) ==> exists|i: int|
            first_of_type(records@, config.record_type@, i)
                && plan_for(p, *config, current_ip@, view_of(cache), #[trigger] records@[i], now as int),
        r matches Ok(p) ==> (sound_before(view_of(cache), now as int) ==> plan_cache(p).wf()),
{
    let ghost cache_view = view_of(cache);
    let i = match find_target_record(records, config.record_type.as_str()) {
        Ok(i) => i,
        Err(e) => return Err(e),
    };
    let target = &records[i];
    let mut snapshot = match cache {
        Some(c) => {
            if c.matches_config(config.record_name.as_str(), config.record_type.as_str()) {
                let mut c = c;
                c.update_checked_at(now);
                c
            } else {
                DnsCache::new_at(config.record_name.clone(), config.record_type.clone(), target.content.clone(), now)
            }
        },
        None => DnsCache::new_at(config.record_name.clone(), config.record_type.clone(), target.content.clone(), now),
    };
    assert(snapshot@ == reconciled(config.record_name@, config.record_type@, cache_view, target.content@, now as int));
    if str_eq(target.content.as_str(), current_ip) {
        if !str_eq(snapshot.ip_address.as_str(), current_ip) {
            snapshot.update_ip_at(String::from_str(current_ip), now);
        }
        Ok(Plan::UpToDate { cache: snapshot })
    } else {
        let request = UpdateDnsRecord {
            record_type: config.record_type.clone(),
            name: config.record_name.clone(),
            content: String::from_str(current_ip),
            ttl: config.ttl,
        };
        Ok(Plan::Update { record_id: target.id.clone(), request, cache: snapshot })
    }
}

/// The snapshot to persist once the provider has accepted the update to `current_ip`.
pub fn after_update(cache: DnsCache, current_ip: String, now: i64) -> (r: DnsCache)
    ensures
        r@ == cache@.ip_updated_at(current_ip@, now as int),
        r@.wf(),
{
    let mut c = cache;
    c.update_ip_at(current_ip, now);
    c
}

/// A second run with the same IP, against the record the first run left,
/// writes nothing. The snapshot that the first run persists matches the target
/// and holds the IP. Within a positive expiry window it is a cache hit. Past it, the
/// provider's record already holds the IP, so the listing plans no update and
/// the run only marks the snapshot checked.
pub proof fn lemma_second_run_writes_nothing(
    config: SyncConfig,
    ip: Seq<char>,
    cache: Option<CacheView>,
    remote: Seq<char>,
    first: int,
    second: int,
)
    ensures
        ({
            let name = config.record_name@;
            let ty = config.record_type@;
            let c1 = persisted(name, ty, ip, cache, remote, first);
            &&& c1.matches(name, ty)
            &&& c1.ip_address == ip
            &&& config.cache_expiry_hours > 0
                && first <= second <= first + config.cache_expiry_hours * MILLIS_PER_HOUR
                ==> cache_hit(name, ty, config.cache_expiry_hours as int, ip, Some(c1), second)
            &&& forall|plan: Plan, rec: DnsRecord|
                rec.content@ == ip && #[trigger] plan_for(plan, config, ip, Some(c1), rec, second)
                    ==> plan is UpToDate
            &&& persisted(name, ty, ip, Some(c1), ip, second) == c1.checked_at(second)
        }),
{
}

} // verus!
