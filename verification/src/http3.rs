//! Per-host HTTP/3 capability cache.
//!
//! Each host is in one of three states: unknown (absent from the cache),
//! unsupported (`Some(false)`) or supported (`Some(true)`).  A DNS-probe
//! result is recorded at most once per host (first write wins); an Alt-Svc
//! observation whose token set contains `h3` promotes any state to
//! supported, and a negative observation only turns an unknown host into an
//! unsupported one — a supported host is never demoted.  Entries never
//! expire: they live for the engine's lifetime.

use vstd::prelude::*;
use crate::http_headers::strings_view;
use crate::text::contains_h3_token;
use crate::text::has_h3_token;

verus! {

/// What recording a DNS-probe result does to a host's cached state: the
/// first write wins, later writes change nothing.
pub open spec fn probe_recorded(status: Option<bool>, supports_h3: bool) -> Option<bool> {
    match status {
        Some(b) => Some(b),
        None => Some(supports_h3),
    }
}

/// What an Alt-Svc observation does to a host's cached state: an `h3` token
/// promotes any state to supported; otherwise an unknown host is cached as
/// unsupported and a decided host keeps its state.
pub open spec fn alt_svc_observed(status: Option<bool>, value: Seq<char>) -> Option<bool> {
    if has_h3_token(value) {
        Some(true)
    } else {
        match status {
            Some(b) => Some(b),
            None => Some(false),
        }
    }
}

/// A host's state after a whole sequence of Alt-Svc observations, applied
/// in order.
pub open spec fn alt_svc_fold(status: Option<bool>, values: Seq<Seq<char>>) -> Option<bool>
    decreases values.len(),
{
    if values.len() == 0 {
        status
    } else {
        alt_svc_fold(alt_svc_observed(status, values[0]), values.drop_first())
    }
}

/// A supported host stays supported under any sequence of Alt-Svc
/// observations, with or without `h3` tokens.
pub proof fn lemma_supported_never_downgraded(values: Seq<Seq<char>>)
    ensures
        alt_svc_fold(Some(true), values) == Some(true),
    decreases values.len(),
{
    if values.len() > 0 {
        assert(alt_svc_observed(Some(true), values[0]) == Some(true));
        lemma_supported_never_downgraded(values.drop_first());
    }
}

/// A decided host (supported or unsupported) is unchanged by any further
/// probe result: the first write won.
pub proof fn lemma_probe_preserves_decided(status: Option<bool>, supports_h3: bool)
    ensures
        status is Some ==> probe_recorded(status, supports_h3) == status,
{
}

/// A recorded probe decides the host: afterwards its state is never
/// unknown, so negotiation answers from the cache and asks for no second
/// probe.
pub proof fn lemma_probe_decides(status: Option<bool>, supports_h3: bool)
    ensures
        probe_recorded(status, supports_h3) is Some,
{
}

/// An Alt-Svc observation whose token set contains `h3` promotes every
/// state to supported.
pub proof fn lemma_alt_svc_promotes(status: Option<bool>, value: Seq<char>)
    requires
        has_h3_token(value),
    ensures
        alt_svc_observed(status, value) == Some(true),
{
}

/// What a host's HTTPS DNS answers show: some advertised ALPN protocol
/// is exactly `h3`.
pub open spec fn spec_alpns_advertise_h3(alpns: Seq<Seq<char>>) -> bool {
    exists|i: int| 0 <= i < alpns.len() && #[trigger] alpns[i] == "h3"@
}

/// Decides a DNS probe's outcome from the ALPN protocols the host's
/// HTTPS records advertise: HTTP/3 is supported exactly when one of them
/// is `h3`.
pub fn alpns_advertise_h3(alpns: &Vec<String>) -> (r: bool)
    ensures
        r == spec_alpns_advertise_h3(strings_view(alpns@)),
{
    let h3 = String::from_str("h3");
    let ghost av = strings_view(alpns@);
    let mut i: usize = 0;
    while i < alpns.len()
        invariant
            i <= alpns.len(),
            h3@ == "h3"@,
            av == strings_view(alpns@),
            av.len() == alpns@.len(),
            forall|j: int| 0 <= j < i ==> #[trigger] av[j] != "h3"@,
        decreases alpns.len() - i,
    {
        if alpns[i] == h3 {
            proof {
                assert(av[i as int] == "h3"@);
            }
            return true;
        }
        i = i + 1;
    }
    false
}

/// The per-host HTTP/3 capability cache.
///
/// The engine that owns the long-lived DNS connection drives this cache:
/// it asks for the cached state, performs a probe only when the state is
/// unknown, and records what the probe or a response's Alt-Svc header
/// showed.
pub struct H3Engine {
    h3_alt_svc: Vec<(String, bool)>,
}

impl H3Engine {
    /// The cache holds at most one entry per host.
    pub closed spec fn wf(&self) -> bool {
        forall|i: int, j: int|
            0 <= i < j < self.h3_alt_svc@.len() ==> (#[trigger] self.h3_alt_svc@[i]).0@ != (
            #[trigger] self.h3_alt_svc@[j]).0@
    }

    /// The cached capability of a host: `None` while unknown.
    pub closed spec fn status_of(&self, host: Seq<char>) -> Option<bool> {
        if exists|i: int|
            0 <= i < self.h3_alt_svc@.len() && (#[trigger] self.h3_alt_svc@[i]).0@ == host {
            let i = choose|i: int|
                0 <= i < self.h3_alt_svc@.len() && (#[trigger] self.h3_alt_svc@[i]).0@ == host;
            Some(self.h3_alt_svc@[i].1)
        } else {
            None
        }
    }

    proof fn lemma_status_at(&self, host: Seq<char>, i: int)
        requires
            self.wf(),
            0 <= i < self.h3_alt_svc@.len(),
            self.h3_alt_svc@[i].0@ == host,
        ensures
            self.status_of(host) == Some(self.h3_alt_svc@[i].1),
    {
        let j = choose|j: int|
            0 <= j < self.h3_alt_svc@.len() && (#[trigger] self.h3_alt_svc@[j]).0@ == host;
        assert(i == j);
    }

    /// A fresh engine: every host's capability is unknown.
    pub fn init() -> (r: Self)
        ensures
            r.wf(),
            forall|h: Seq<char>| r.status_of(h) is None,
    {
        H3Engine { h3_alt_svc: Vec::new() }
    }

    /// Finds the cache entry of a host.
    fn find_host(&self, host: &String) -> (r: Option<usize>)
        ensures
            match r {
                Some(i) => i < self.h3_alt_svc@.len() && self.h3_alt_svc@[i as int].0@ == host@,
                None => forall|i: int|
                    0 <= i < self.h3_alt_svc@.len() ==> (#[trigger] self.h3_alt_svc@[i]).0@
                        != host@,
            },
    {
        let mut i: usize = 0;
        while i < self.h3_alt_svc.len()
            invariant
                i <= self.h3_alt_svc@.len(),
                forall|j: int| 0 <= j < i ==> (#[trigger] self.h3_alt_svc@[j]).0@ != host@,
            decreases self.h3_alt_svc@.len() - i,
        {
            if self.h3_alt_svc[i].0 == *host {
                return Some(i);
            }
            i = i + 1;
        }
        None
    }

    /// The cached capability of a host, without any probing.
    pub fn cached_support(&self, host: &String) -> (r: Option<bool>)
        requires
            self.wf(),
        ensures
            r == self.status_of(host@),
    {
        match self.find_host(host) {
            Some(i) => {
                proof {
                    self.lemma_status_at(host@, i as int);
                }
                Some(self.h3_alt_svc[i].1)
            },
            None => None,
        }
    }

    /// Records a probe result for a host; the first write wins, so a later
    /// result never overwrites an earlier one.
    pub fn set_h3_support(&mut self, host: &String, supports_h3: bool)
        requires
            old(self).wf(),
        ensures
            final(self).wf(),
            final(self).status_of(host@) == probe_recorded(
                old(self).status_of(host@),
                supports_h3,
            ),
            forall|h: Seq<char>|
                h != host@ ==> final(self).status_of(h) == old(self).status_of(h),
    {
        match self.find_host(host) {
            Some(i) => {
                proof {
                    self.lemma_status_at(host@, i as int);
                    assert(forall|h: Seq<char>|
                        h != host@ ==> self.status_of(h) == old(self).status_of(h));
                }
            },
            None => {
                let ghost before = *self;
                self.h3_alt_svc.push((host.clone(), supports_h3));
                proof {
                    let n = self.h3_alt_svc@.len() - 1;
                    assert(self.h3_alt_svc@[n].0@ == host@);
                    assert(forall|j: int|
                        0 <= j < n ==> self.h3_alt_svc@[j] == before.h3_alt_svc@[j]);
                    assert(self.wf());
                    self.lemma_status_at(host@, n);
                    assert(before.status_of(host@) is None);
                    assert forall|h: Seq<char>| h != host@ implies self.status_of(h)
                        == before.status_of(h) by {
                        if exists|i: int|
                            0 <= i < before.h3_alt_svc@.len() && (
                            #[trigger] before.h3_alt_svc@[i]).0@ == h {
                            let i = choose|i: int|
                                0 <= i < before.h3_alt_svc@.len() && (
                                #[trigger] before.h3_alt_svc@[i]).0@ == h;
                            before.lemma_status_at(h, i);
                            self.lemma_status_at(h, i);
                        } else {
                            assert(forall|i: int|
                                0 <= i < self.h3_alt_svc@.len() ==> (
                                #[trigger] self.h3_alt_svc@[i]).0@ != h);
                        }
                    }
                }
            },
        }
    }

    /// Feeds a response's Alt-Svc header value into the cache: an `h3`
    /// token promotes the host to supported regardless of its state; any
    /// other value caches an unknown host as unsupported and changes
    /// nothing else.
    pub fn observe_alt_svc(&mut self, host: &String, value: &str)
        requires
            old(self).wf(),
        ensures
            final(self).wf(),
            final(self).status_of(host@) == alt_svc_observed(
                old(self).status_of(host@),
                value@,
            ),
            forall|h: Seq<char>|
                h != host@ ==> final(self).status_of(h) == old(self).status_of(h),
    {
        if contains_h3_token(value) {
            match self.find_host(host) {
                Some(i) => {
                    let ghost before = *self;
                    self.h3_alt_svc.set(i, (host.clone(), true));
                    proof {
                        assert(self.h3_alt_svc@[i as int].0@ == host@);
                        assert(forall|j: int|
                            0 <= j < self.h3_alt_svc@.len() && j != i
                                ==> self.h3_alt_svc@[j] == before.h3_alt_svc@[j]);
                        assert forall|i2: int, j2: int|
                            0 <= i2 < j2 < self.h3_alt_svc@.len() implies (
                        #[trigger] self.h3_alt_svc@[i2]).0@ != (
                        #[trigger] self.h3_alt_svc@[j2]).0@ by {
                            assert(before.h3_alt_svc@[i2].0@ != before.h3_alt_svc@[j2].0@);
                            assert(self.h3_alt_svc@[i2].0@ == before.h3_alt_svc@[i2].0@);
                            assert(self.h3_alt_svc@[j2].0@ == before.h3_alt_svc@[j2].0@);
                        }
                        self.lemma_status_at(host@, i as int);
                        assert forall|h: Seq<char>| h != host@ implies self.status_of(h)
                            == before.status_of(h) by {
                            if exists|k: int|
                                0 <= k < before.h3_alt_svc@.len() && (
                                #[trigger] before.h3_alt_svc@[k]).0@ == h {
                                let k = choose|k: int|
                                    0 <= k < before.h3_alt_svc@.len() && (
                                    #[trigger] before.h3_alt_svc@[k]).0@ == h;
                                assert(k != i);
                                before.lemma_status_at(h, k);
                                self.lemma_status_at(h, k);
                            } else {
                                assert(forall|k: int|
                                    0 <= k < self.h3_alt_svc@.len() ==> (
                                    #[trigger] self.h3_alt_svc@[k]).0@ != h);
                            }
                        }
                    }
                },
                None => {
                    let ghost before = *self;
                    self.h3_alt_svc.push((host.clone(), true));
                    proof {
                        let n = self.h3_alt_svc@.len() - 1;
                        assert(self.h3_alt_svc@[n].0@ == host@);
                        assert(forall|j: int|
                            0 <= j < n ==> self.h3_alt_svc@[j] == before.h3_alt_svc@[j]);
                        assert(self.wf());
                        self.lemma_status_at(host@, n);
                        assert(before.status_of(host@) is None);
                        assert forall|h: Seq<char>| h != host@ implies self.status_of(h)
                            == before.status_of(h) by {
                            if exists|k: int|
                                0 <= k < before.h3_alt_svc@.len() && (
                                #[trigger] before.h3_alt_svc@[k]).0@ == h {
                                let k = choose|k: int|
                                    0 <= k < before.h3_alt_svc@.len() && (
                                    #[trigger] before.h3_alt_svc@[k]).0@ == h;
                                before.lemma_status_at(h, k);
                                self.lemma_status_at(h, k);
                            } else {
                                assert(forall|k: int|
                                    0 <= k < self.h3_alt_svc@.len() ==> (
                                    #[trigger] self.h3_alt_svc@[k]).0@ != h);
                            }
                        }
                    }
                },
            }
        } else {
            self.set_h3_support(host, false);
        }
    }
}

} // verus!
