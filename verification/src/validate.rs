//! The validation gate between raw input and generation.
//!
//! Every site is checked independently and every violation is collected;
//! validation fails with the full list rather than stopping at the first.
//! A `Config` can only be obtained by passing this gate, so no caller can
//! generate output from an unvalidated site list.

use vstd::prelude::*;

use crate::domain::{domain_is_valid, is_valid_domain};
use crate::model::{Header, Site, UnverifiedConfig};

verus! {

/// One rule violation found by the validator.
#[derive(Debug)]
pub enum Violation {
    /// The site's domain does not match the hostname grammar.
    BadDomain { domain: String },
    /// A header block spells a `Cache-Control` header by hand instead of
    /// using the dedicated cache-control field.
    CacheControlHeader { for_field: String },
}

/// The aggregated outcome of a failed validation: every violation found,
/// in input order.
#[derive(Debug)]
pub struct ValidationError {
    pub violations: Vec<Violation>,
}

/// Whether a header block names `Cache-Control` among its header names.
pub open spec fn spec_has_cache_control(h: Header) -> bool {
    exists|i: int| 0 <= i < h.values@.len() && #[trigger] h.values@[i].name@ == "Cache-Control"@
}

/// The violations of one list of header blocks, in order.
pub open spec fn spec_header_violations(hs: Seq<Header>) -> Seq<Violation>
    decreases hs.len(),
{
    if hs.len() == 0 {
        Seq::empty()
    } else {
        spec_header_violations(hs.drop_last()) + (if spec_has_cache_control(hs.last()) {
            seq![Violation::CacheControlHeader { for_field: hs.last().for_field }]
        } else {
            Seq::empty()
        })
    }
}

/// The violations of one site: a bad domain first, then the offending
/// header blocks in order.
pub open spec fn spec_site_violations(s: Site) -> Seq<Violation> {
    (if is_valid_domain(s.domain@) {
        Seq::empty()
    } else {
        seq![Violation::BadDomain { domain: s.domain }]
    }) + (match s.headers {
        Some(hs) => spec_header_violations(hs@),
        None => Seq::empty(),
    })
}

/// The violations of a whole site list, site by site in input order.
pub open spec fn spec_violations(sites: Seq<Site>) -> Seq<Violation>
    decreases sites.len(),
{
    if sites.len() == 0 {
        Seq::empty()
    } else {
        spec_violations(sites.drop_last()) + spec_site_violations(sites.last())
    }
}

/// A site list that has passed validation: the only input generation
/// accepts. Constructible solely through `UnverifiedConfig::validate`.
pub struct Config {
    sites: Vec<Site>,
}

impl Config {
    /// The verified site list.
    pub closed spec fn spec_sites(&self) -> Seq<Site> {
        self.sites@
    }

    /// Read access to the verified site list.
    pub fn sites(&self) -> (r: &Vec<Site>)
        ensures
            r@ == self.spec_sites(),
    {
        &self.sites
    }
}

/// Whether this header block hand-writes a `Cache-Control` header.
pub fn header_has_cache_control(h: &Header) -> (r: bool)
    ensures
        r == spec_has_cache_control(*h),
{
    let key = String::from_str("Cache-Control");
    let mut i: usize = 0;
    while i < h.values.len()
        invariant
            key@ == "Cache-Control"@,
            0 <= i <= h.values@.len(),
            forall|k: int| 0 <= k < i ==> #[trigger] h.values@[k].name@ != "Cache-Control"@,
        decreases h.values@.len() - i,
    {
        if h.values[i].name == key {
            return true;
        }
        i = i + 1;
    }
    false
}

impl UnverifiedConfig {
    /// Checks every site against the two rules — the domain grammar and
    /// the ban on hand-written `Cache-Control` headers — and returns the
    /// verified configuration, or the full list of violations when there
    /// is at least one. The site list itself is never transformed.
    pub fn validate(self) -> (r: Result<Config, ValidationError>)
        ensures
            match r {
                Ok(config) => {
                    &&& spec_violations(self.sites@) == Seq::<Violation>::empty()
                    &&& config.spec_sites() == self.sites@
                },
                Err(e) => {
                    &&& e.violations@ == spec_violations(self.sites@)
                    &&& e.violations@.len() > 0
                },
            },
    {
        let mut violations: Vec<Violation> = Vec::new();
        let mut i: usize = 0;
        while i < self.sites.len()
            invariant
                0 <= i <= self.sites@.len(),
                violations@ == spec_violations(self.sites@.subrange(0, i as int)),
            decreases self.sites@.len() - i,
        {
            let site = &self.sites[i];
            let ghost pre = violations@;
            if !domain_is_valid(site.domain.as_str()) {
                violations.push(Violation::BadDomain { domain: site.domain.clone() });
            }
            proof {
                assert(violations@ =~= pre + (if is_valid_domain(site.domain@) {
                    Seq::<Violation>::empty()
                } else {
                    seq![Violation::BadDomain { domain: site.domain }]
                }));
            }
            match &site.headers {
                Some(hs) => {
                    let ghost mid = violations@;
                    let mut j: usize = 0;
                    while j < hs.len()
                        invariant
                            0 <= j <= hs@.len(),
                            violations@ == mid + spec_header_violations(hs@.subrange(0, j as int)),
                        decreases hs@.len() - j,
                    {
                        if header_has_cache_control(&hs[j]) {
                            violations.push(
                                Violation::CacheControlHeader {
                                    for_field: hs[j].for_field.clone(),
                                },
                            );
                        }
                        proof {
                            assert(hs@.subrange(0, j + 1).drop_last() =~= hs@.subrange(0, j as int));
                            assert(hs@.subrange(0, j + 1).last() == hs@[j as int]);
                            assert(violations@ =~= mid + spec_header_violations(
                                hs@.subrange(0, j + 1),
                            ));
                        }
                        j = j + 1;
                    }
                    proof {
                        assert(hs@.subrange(0, hs@.len() as int) =~= hs@);
                    }
                },
                None => {},
            }
            proof {
                assert(self.sites@.subrange(0, i + 1).drop_last() =~= self.sites@.subrange(
                    0,
                    i as int,
                ));
                assert(self.sites@.subrange(0, i + 1).last() == self.sites@[i as int]);
                assert(violations@ =~= pre + spec_site_violations(self.sites@[i as int]));
                assert(violations@ =~= spec_violations(self.sites@.subrange(0, i + 1)));
            }
            i = i + 1;
        }
        proof {
            assert(self.sites@.subrange(0, self.sites@.len() as int) =~= self.sites@);
        }
        if violations.len() > 0 {
            Err(ValidationError { violations })
        } else {
            proof {
                assert(spec_violations(self.sites@) =~= Seq::<Violation>::empty());
            }
            Ok(Config { sites: self.sites })
        }
    }
}

} // verus!
