use vstd::prelude::*;
use vstd::string::*;
use crate::keys::{str_eq, strings_view};
use crate::table::Table;

verus! {

/// A referer passes when the tenant restricts nothing, or when it is one of the allowed ones.
pub open spec fn referer_allowed(allowed: Seq<Seq<char>>, referer: Option<Seq<char>>) -> bool {
    allowed.len() == 0 || (referer is Some && allowed.contains(referer->0))
}

/// The view of an optional borrowed string.
pub open spec fn opt_view(s: Option<&str>) -> Option<Seq<char>> {
    match s {
        Some(v) => Some(v@),
        None => None,
    }
}

/// Settings of one tenant (audience).
#[derive(Debug)]
pub struct AudienceSettings {
    allowed_referers: Vec<String>,
}

impl AudienceSettings {
    /// The referers that may issue set and sign requests; empty means no restriction.
    pub closed spec fn allowed(&self) -> Seq<Seq<char>> {
        strings_view(self.allowed_referers@)
    }

    pub fn new(allowed_referers: Vec<String>) -> (r: Self)
        ensures
            r.allowed() == strings_view(allowed_referers@),
    {
        AudienceSettings { allowed_referers }
    }

    /// Whether a request with this referer (absent when `None`) is let through.
    pub fn valid_referer(&self, referer: Option<&str>) -> (r: bool)
        ensures
            r == referer_allowed(self.allowed(), opt_view(referer)),
    {
        let n = self.allowed_referers.len();
        if n == 0 {
            return true;
        }
        let given = match referer {
            Some(v) => v,
            None => return false,
        };
        assert(opt_view(referer) == Some(given@));
        let mut i: usize = 0;
        while i < n
            invariant
                i <= n,
                n == self.allowed_referers@.len(),
                forall|j: int| 0 <= j < i ==> self.allowed_referers@[j]@ != given@,
                opt_view(referer) == Some(given@),
            decreases n - i,
        {
            if str_eq(self.allowed_referers[i].as_str(), given) {
                assert(self.allowed()[i as int] == given@);
                assert(self.allowed().contains(given@));
                return true;
            }
            i = i + 1;
        }
        assert(!self.allowed().contains(given@)) by {
            if self.allowed().contains(given@) {
                let j = choose|j: int| 0 <= j < self.allowed().len() && self.allowed()[j] == given@;
                assert(self.allowed_referers@[j]@ == given@);
            }
        }
        false
    }
}

/// `i` is the position of the first `.` in `s`.
pub open spec fn is_first_dot(s: Seq<char>, i: int) -> bool {
    0 <= i < s.len() && s[i] == '.' && forall|j: int| 0 <= j < i ==> s[j] != '.'
}

/// The domain part of a bucket name: what follows its first `.`.
pub open spec fn bucket_domain(bucket: Seq<char>) -> Option<Seq<char>> {
    if exists|i: int| is_first_dot(bucket, i) {
        let i = choose|i: int| is_first_dot(bucket, i);
        Some(bucket.subrange(i + 1, bucket.len() as int))
    } else {
        None
    }
}

/// Derives a tenant (audience) from a bucket name. A rule for the exact bucket
/// name wins; otherwise the bucket's domain, the part after its first `.`, is
/// looked up among the configured domains.
#[derive(Debug)]
pub struct AudienceEstimator {
    buckets: Table<String>,
    rules: Table<String>,
}

impl AudienceEstimator {
    /// The audience configured for `domain`, if any.
    pub closed spec fn audience_of_domain(&self, domain: Seq<char>) -> Option<Seq<char>> {
        match self.rules.spec_get(domain) {
            Some(a) => Some(a@),
            None => None,
        }
    }

    /// The audience configured for the bucket named exactly `bucket`, if any.
    pub closed spec fn audience_of_bucket(&self, bucket: Seq<char>) -> Option<Seq<char>> {
        match self.buckets.spec_get(bucket) {
            Some(a) => Some(a@),
            None => None,
        }
    }

    pub closed spec fn wf(&self) -> bool {
        self.rules.wf() && self.buckets.wf()
    }

    /// The audience of `bucket`, if a rule matches it.
    pub open spec fn spec_estimate(&self, bucket: Seq<char>) -> Option<Seq<char>> {
        match self.audience_of_bucket(bucket) {
            Some(a) => Some(a),
            None => match bucket_domain(bucket) {
                Some(d) => self.audience_of_domain(d),
                None => None,
            },
        }
    }

    /// An estimator with no rules.
    pub fn new() -> (r: Self)
        ensures
            r.wf(),
            forall|d: Seq<char>| r.audience_of_domain(d) is None,
            forall|b: Seq<char>| r.audience_of_bucket(b) is None,
    {
        AudienceEstimator { buckets: Table::new(), rules: Table::new() }
    }

    /// The bucket named `bucket` belongs to `audience` from now on.
    pub fn add_bucket(&mut self, bucket: String, audience: String)
        requires
            old(self).wf(),
        ensures
            final(self).wf(),
            final(self).audience_of_bucket(bucket@) == Some(audience@),
            forall|b: Seq<char>|
                b != bucket@ ==> final(self).audience_of_bucket(b) == old(self).audience_of_bucket(
                    b,
                ),
            forall|d: Seq<char>| final(self).audience_of_domain(d) == old(self).audience_of_domain(d),
    {
        self.buckets.insert(bucket, audience);
    }

    /// Buckets of domain `domain` belong to `audience` from now on.
    pub fn add_rule(&mut self, domain: String, audience: String)
        requires
            old(self).wf(),
        ensures
            final(self).wf(),
            final(self).audience_of_domain(domain@) == Some(audience@),
            forall|d: Seq<char>|
                d != domain@ ==> final(self).audience_of_domain(d) == old(self).audience_of_domain(
                    d,
                ),
            forall|b: Seq<char>| final(self).audience_of_bucket(b) == old(self).audience_of_bucket(b),
    {
        self.rules.insert(domain, audience);
    }

    /// The audience of `bucket`; `None` when no rule matches.
    pub fn estimate(&self, bucket: &str) -> (r: Option<String>)
        ensures
            match r {
                Some(a) => self.spec_estimate(bucket@) == Some(a@),
                None => self.spec_estimate(bucket@) is None,
            },
    {
        if let Some(a) = self.buckets.get(bucket) {
            return Some(a.clone());
        }
        let n = bucket.unicode_len();
        let mut i: usize = 0;
        while i < n
            invariant
                i <= n,
                n == bucket@.len(),
                forall|j: int| 0 <= j < i ==> bucket@[j] != '.',
                self.audience_of_bucket(bucket@) is None,
            decreases n - i,
        {
            if bucket.get_char(i) == '.' {
                assert(is_first_dot(bucket@, i as int));
                assert forall|k: int| is_first_dot(bucket@, k) implies k == i by {
                    if k < i {
                    } else if k > i {
                        assert(bucket@[i as int] == '.');
                    }
                }
                let domain = bucket.substring_char(i + 1, n);
                return match self.rules.get(domain) {
                    Some(a) => Some(a.clone()),
                    None => None,
                };
            }
            i = i + 1;
        }
        assert(!exists|k: int| is_first_dot(bucket@, k));
        None
    }
}

} // verus!
