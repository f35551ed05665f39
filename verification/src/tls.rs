//! TLS configuration planning.
//!
//! A browser profile fixes the TLS side of the fingerprint: which
//! key-exchange groups are offered and in which order, which ALPN
//! protocols are advertised for the chosen transport, that an ECH grease
//! extension is always attached, and whether certificate validation is
//! skipped.  This module decides all of that as a plain descriptor; the
//! handshake itself is performed outside against this plan.

use vstd::prelude::*;
use crate::emulation::Browser;
use crate::ffdhe::be_nat;
use crate::ffdhe::lemma_be_nat_lower;
use crate::ffdhe::lemma_pow256_pos;
use crate::http_headers::strings_view;

verus! {

/// A key-exchange group a profile may offer, by its TLS name.
#[derive(PartialEq, Eq, Structural, Debug, Clone, Copy)]
pub enum KxGroup {
    X25519,
    Secp256r1,
    Secp384r1,
    Ffdhe2048,
    Ffdhe3072,
}

/// The key-exchange preference list of a profile.  Firefox pins its own
/// list, including the two finite-field groups that default providers
/// omit; every other choice keeps the provider's default list, written
/// here as the empty sequence.
pub open spec fn profile_kx_groups_spec(browser: Option<Browser>) -> Seq<KxGroup> {
    match browser {
        Some(Browser::Firefox) => seq![
            KxGroup::X25519,
            KxGroup::Secp256r1,
            KxGroup::Secp384r1,
            KxGroup::Ffdhe2048,
            KxGroup::Ffdhe3072,
        ],
        _ => Seq::empty(),
    }
}

/// The ALPN protocols advertised for a transport choice: exactly `h3`
/// when HTTP/3 is the target, else `h2` and `http/1.1`.
pub open spec fn alpn_spec(http3: bool) -> Seq<Seq<char>> {
    if http3 {
        seq!["h3"@]
    } else {
        seq!["h2"@, "http/1.1"@]
    }
}

/// The browser version reported by the impersonated fingerprints.
pub open spec fn emulated_browser_version() -> u32 {
    125
}

/// A fully decided TLS client configuration.
pub struct TlsConfig {
    /// The impersonated browser, if any.
    pub browser: Option<Browser>,
    /// The browser version the fingerprint reports.
    pub browser_version: u32,
    /// ALPN protocols, in advertisement order.
    pub alpn_protocols: Vec<String>,
    /// Key-exchange groups, in preference order; empty keeps the
    /// provider's default list.
    pub kx_groups: Vec<KxGroup>,
    /// A placeholder ECH configuration with a fresh key pair is always
    /// advertised.
    pub ech_grease: bool,
    /// Accept any certificate and hostname.  Skipping validation must not
    /// blank out the rest of the fingerprint, so the browser identity
    /// above still stands.
    pub ignore_tls_errors: bool,
}

impl TlsConfig {
    /// Starts collecting the choices of a TLS configuration.
    pub fn builder() -> (r: TlsConfigBuilder)
        ensures
            r.spec_browser() is None,
            !r.spec_http3(),
            !r.spec_ignore_tls_errors(),
    {
        TlsConfigBuilder { browser: None, http3: false, ignore_tls_errors: false }
    }
}

/// Collects the choices a TLS configuration is built from.
pub struct TlsConfigBuilder {
    browser: Option<Browser>,
    http3: bool,
    ignore_tls_errors: bool,
}

impl TlsConfigBuilder {
    /// The impersonated browser.
    pub closed spec fn spec_browser(&self) -> Option<Browser> {
        self.browser
    }

    /// Whether HTTP/3 is the target transport.
    pub closed spec fn spec_http3(&self) -> bool {
        self.http3
    }

    /// Whether certificate validation is skipped.
    pub closed spec fn spec_ignore_tls_errors(&self) -> bool {
        self.ignore_tls_errors
    }

    /// Sets the impersonated browser.
    pub fn with_browser(self, browser: Option<Browser>) -> (r: Self)
        ensures
            r.spec_browser() == browser,
            r.spec_http3() == self.spec_http3(),
            r.spec_ignore_tls_errors() == self.spec_ignore_tls_errors(),
    {
        TlsConfigBuilder { browser, ..self }
    }

    /// Targets HTTP/3.
    pub fn with_http3(self) -> (r: Self)
        ensures
            r.spec_browser() == self.spec_browser(),
            r.spec_http3(),
            r.spec_ignore_tls_errors() == self.spec_ignore_tls_errors(),
    {
        TlsConfigBuilder { http3: true, ..self }
    }

    /// Skips certificate validation.
    pub fn with_ignore_tls_errors(self, ignore_tls_errors: bool) -> (r: Self)
        ensures
            r.spec_browser() == self.spec_browser(),
            r.spec_http3() == self.spec_http3(),
            r.spec_ignore_tls_errors() == ignore_tls_errors,
    {
        TlsConfigBuilder { ignore_tls_errors, ..self }
    }

    /// Decides the TLS configuration: the profile's key-exchange groups
    /// verbatim, the ALPN list for the chosen transport, an ECH grease
    /// extension, and the permissive verifier only when asked for.
    pub fn build(self) -> (r: TlsConfig)
        ensures
            r.browser == self.spec_browser(),
            r.browser_version == emulated_browser_version(),
            strings_view(r.alpn_protocols@) == alpn_spec(self.spec_http3()),
            r.kx_groups@ == profile_kx_groups_spec(self.spec_browser()),
            r.ech_grease,
            r.ignore_tls_errors == self.spec_ignore_tls_errors(),
    {
        let mut alpn_protocols: Vec<String> = Vec::new();
        if self.http3 {
            alpn_protocols.push(String::from_str("h3"));
            proof {
                assert(strings_view(alpn_protocols@) =~= alpn_spec(true));
            }
        } else {
            alpn_protocols.push(String::from_str("h2"));
            alpn_protocols.push(String::from_str("http/1.1"));
            proof {
                assert(strings_view(alpn_protocols@) =~= alpn_spec(false));
            }
        }
        let mut kx_groups: Vec<KxGroup> = Vec::new();
        match self.browser {
            Some(Browser::Firefox) => {
                kx_groups.push(KxGroup::X25519);
                kx_groups.push(KxGroup::Secp256r1);
                kx_groups.push(KxGroup::Secp384r1);
                kx_groups.push(KxGroup::Ffdhe2048);
                kx_groups.push(KxGroup::Ffdhe3072);
                proof {
                    assert(kx_groups@ =~= profile_kx_groups_spec(self.spec_browser()));
                }
            },
            _ => {
                proof {
                    assert(kx_groups@ =~= profile_kx_groups_spec(self.spec_browser()));
                }
            },
        }
        TlsConfig {
            browser: self.browser,
            browser_version: 125,
            alpn_protocols,
            kx_groups,
            ech_grease: true,
            ignore_tls_errors: self.ignore_tls_errors,
        }
    }
}

impl Default for TlsConfigBuilder {
    /// No browser, TCP transport, certificates validated.
    fn default() -> (r: Self)
        ensures
            r.spec_browser() is None,
            !r.spec_http3(),
            !r.spec_ignore_tls_errors(),
    {
        TlsConfig::builder()
    }
}

/// Relies on `rustls::ffdhe_groups::FFDHE2048` (the RFC 7919 group): its
/// prime is 256 big-endian bytes starting `0xff`, its generator is the
/// single byte 2.
#[verifier::external_body]
fn ffdhe2048_raw() -> (r: (Vec<u8>, Vec<u8>))
    ensures
        r.0@.len() == 256,
        r.0@[0] == 0xff,
        r.1@ == seq![2u8],
{
    let group = rustls::ffdhe_groups::FFDHE2048;
    (group.p.to_vec(), group.g.to_vec())
}

/// Relies on `rustls::ffdhe_groups::FFDHE3072` (the RFC 7919 group): its
/// prime is 384 big-endian bytes starting `0xff`, its generator is the
/// single byte 2.
#[verifier::external_body]
fn ffdhe3072_raw() -> (r: (Vec<u8>, Vec<u8>))
    ensures
        r.0@.len() == 384,
        r.0@[0] == 0xff,
        r.1@ == seq![2u8],
{
    let group = rustls::ffdhe_groups::FFDHE3072;
    (group.p.to_vec(), group.g.to_vec())
}

/// The prime and generator of a finite-field group, big-endian; `None`
/// for the elliptic-curve groups, whose arithmetic the provider supplies.
pub fn ffdhe_group_params(group: KxGroup) -> (r: Option<(Vec<u8>, Vec<u8>)>)
    ensures
        match r {
            Some(pg) => {
                &&& (group == KxGroup::Ffdhe2048 || group == KxGroup::Ffdhe3072)
                &&& pg.0@.len() == (if group == KxGroup::Ffdhe2048 {
                    256int
                } else {
                    384int
                })
                &&& be_nat(pg.0@) > 0
                &&& pg.1@ == seq![2u8]
            },
            None => group != KxGroup::Ffdhe2048 && group != KxGroup::Ffdhe3072,
        },
{
    match group {
        KxGroup::Ffdhe2048 => {
            let pg = ffdhe2048_raw();
            proof {
                lemma_be_nat_lower(pg.0@);
                lemma_pow256_pos((pg.0@.len() - 1) as nat);
            }
            Some(pg)
        },
        KxGroup::Ffdhe3072 => {
            let pg = ffdhe3072_raw();
            proof {
                lemma_be_nat_lower(pg.0@);
                lemma_pow256_pos((pg.0@.len() - 1) as nat);
            }
            Some(pg)
        },
        _ => None,
    }
}

} // verus!
