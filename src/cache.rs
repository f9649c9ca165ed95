use vstd::prelude::*;
use crate::clock::{MILLIS_PER_HOUR, utc_now_millis};

verus! {

/// The last known state of the tracked record, as persisted between runs.
/// Timestamps are milliseconds since the Unix epoch.
pub struct DnsCache {
    pub record_name: String,
    pub record_type: String,
    pub ip_address: String,
    pub last_checked: i64,
    pub last_updated: i64,
}

/// The mathematical content of a [`DnsCache`].
pub ghost struct CacheView {
    pub record_name: Seq<char>,
    pub record_type: Seq<char>,
    pub ip_address: Seq<char>,
    pub last_checked: int,
    pub last_updated: int,
}

impl View for DnsCache {
    type V = CacheView;

    open spec fn view(&self) -> CacheView {
        CacheView {
            record_name: self.record_name@,
            record_type: self.record_type@,
            ip_address: self.ip_address@,
            last_checked: self.last_checked as int,
            last_updated: self.last_updated as int,
        }
    }
}

/// A fresh snapshot: checked and updated at `now`.
pub open spec fn fresh_snapshot(name: Seq<char>, ty: Seq<char>, ip: Seq<char>, now: int) -> CacheView {
    CacheView { record_name: name, record_type: ty, ip_address: ip, last_checked: now, last_updated: now }
}

/// The snapshot no longer stands in for the provider: the expiry is zero or
/// negative, or more than `hours` hours have passed from `last_checked` to `now`.
pub open spec fn expired(last_checked: int, now: int, hours: int) -> bool {
    hours <= 0 || now - last_checked > hours * MILLIS_PER_HOUR
}

impl CacheView {
    /// An update also counts as a check.
    pub open spec fn wf(self) -> bool {
        self.last_updated <= self.last_checked
    }

    pub open spec fn matches(self, name: Seq<char>, ty: Seq<char>) -> bool {
        self.record_name == name && self.record_type == ty
    }

    /// The snapshot after a check at `now` that changed nothing.
    pub open spec fn checked_at(self, now: int) -> CacheView {
        CacheView { last_checked: now, ..self }
    }

    /// The snapshot after `ip` was confirmed or written at `now`.
    pub open spec fn ip_updated_at(self, ip: Seq<char>, now: int) -> CacheView {
        CacheView { ip_address: ip, last_checked: now, last_updated: now, ..self }
    }
}

impl DnsCache {
    /// A snapshot of the given record, checked and updated at `now`.
    pub fn new_at(record_name: String, record_type: String, ip_address: String, now: i64) -> (r: Self)
        ensures
            r@ == fresh_snapshot(record_name@, record_type@, ip_address@, now as int),
            r@.wf(),
    {
        DnsCache { record_name, record_type, ip_address, last_checked: now, last_updated: now }
    }

    /// A snapshot of the given record, stamped with the current time.
    pub fn new(record_name: String, record_type: String, ip_address: String) -> (r: Self)
        ensures
            exists|now: i64| r@ == fresh_snapshot(record_name@, record_type@, ip_address@, now as int),
            r@.wf(),
    {
        let now = utc_now_millis();
        Self::new_at(record_name, record_type, ip_address, now)
    }

    /// Whether more than `expiry_hours` hours separate the last check from `now`.
    /// With `expiry_hours <= 0` every snapshot is expired.
    pub fn is_expired_at(&self, now: i64, expiry_hours: i64) -> (r: bool)
        ensures
            r == expired(self.last_checked as int, now as int, expiry_hours as int),
    {
        let elapsed: i128 = now as i128 - self.last_checked as i128;
        let limit: i128 = expiry_hours as i128 * MILLIS_PER_HOUR as i128;
        expiry_hours <= 0 || elapsed > limit
    }

    /// Whether the snapshot is expired at the current time.
    pub fn is_expired(&self, expiry_hours: i64) -> (r: bool)
        ensures
            exists|now: i64| r == expired(self.last_checked as int, now as int, expiry_hours as int),
            expiry_hours <= 0 ==> r,
    {
        let now = utc_now_millis();
        self.is_expired_at(now, expiry_hours)
    }

    /// Exact, case-sensitive equality of the tracked name and type.
    pub fn matches_config(&self, record_name: &str, record_type: &str) -> (r: bool)
        ensures
            r == self@.matches(record_name@, record_type@),
    {
        str_eq(self.record_name.as_str(), record_name) && str_eq(self.record_type.as_str(), record_type)
    }

    /// Records `new_ip` as confirmed or written at `now`.
    pub fn update_ip_at(&mut self, new_ip: String, now: i64)
        ensures
            final(self)@ == old(self)@.ip_updated_at(new_ip@, now as int),
            final(self)@.wf(),
    {
        self.ip_address = new_ip;
        self.last_updated = now;
        self.last_checked = now;
    }

    /// Records `new_ip` as confirmed or written at the current time.
    pub fn update_ip(&mut self, new_ip: String)
        ensures
            exists|now: i64| final(self)@ == old(self)@.ip_updated_at(new_ip@, now as int),
            final(self)@.wf(),
    {
        let now = utc_now_millis();
        self.update_ip_at(new_ip, now);
    }

    /// Records a check at `now` that found nothing to change.
    pub fn update_checked_at(&mut self, now: i64)
        ensures
            final(self)@ == old(self)@.checked_at(now as int),
            old(self).last_updated <= now ==> final(self)@.wf(),
    {
        self.last_checked = now;
    }

    /// Records a check at the current time that found nothing to change.
    pub fn update_checked(&mut self)
        ensures
            exists|now: i64| final(self)@ == old(self)@.checked_at(now as int),
    {
        let now = utc_now_millis();
        self.update_checked_at(now);
    }
}

/// Character-wise equality of two strings.
pub(crate) fn str_eq(a: &str, b: &str) -> (r: bool)
    ensures
        r == (a@ == b@),
{
    let n = a.unicode_len();
    if n != b.unicode_len() {
        return false;
    }
    let mut i: usize = 0;
    while i < n
        invariant
            n == a@.len(),
            n == b@.len(),
            i <= n,
            forall|j: int| 0 <= j < i ==> a@[j] == b@[j],
        decreases n - i,
    {
        if a.get_char(i) != b.get_char(i) {
            return false;
        }
        i = i + 1;
    }
    assert(a@ =~= b@);
    true
}

} // verus!
