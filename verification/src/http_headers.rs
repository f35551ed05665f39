//! Composition of impersonated request headers.
//!
//! A browser profile contributes an ordered list of default headers; the
//! caller may override any of them (matched by name, ignoring ASCII case)
//! and add new ones.  Overridden defaults keep their position; overrides
//! never lose to defaults; unconsumed custom headers are appended in their
//! own order.  The HTTP/2 pseudo-header emission order is returned alongside
//! the composed list as an explicit per-request value, never as ambient
//! process state.

use vstd::prelude::*;
use crate::emulation::Browser;
use crate::text::eq_ignore_case;
use crate::text::str_eq_ci;

verus! {

/// The view of a list of name/value pairs.
pub open spec fn pairs_view(v: Seq<(String, String)>) -> Seq<(Seq<char>, Seq<char>)> {
    v.map_values(|p: (String, String)| (p.0@, p.1@))
}

/// The view of a list of strings.
pub open spec fn strings_view(v: Seq<String>) -> Seq<Seq<char>> {
    v.map_values(|s: String| s@)
}

/// The default headers Chrome sends on a navigation, in emission order.
pub open spec fn chrome_headers_spec() -> Seq<(Seq<char>, Seq<char>)> {
    seq![
        ("sec-ch-ua"@, "\"Google Chrome\";v=\"125\", \"Chromium\";v=\"125\", \"Not.A/Brand\";v=\"24\""@),
        ("sec-ch-ua-mobile"@, "?0"@),
        ("sec-ch-ua-platform"@, "Linux"@),
        ("upgrade-insecure-requests"@, "1"@),
        ("user-agent"@, "Mozilla/5.0 (X11; Linux x86_64) AppleWebKit/537.36 (KHTML, like Gecko) Chrome/125.0.0.0 Safari/537.36"@),
        ("accept"@, "text/html,application/xhtml+xml,application/xml;q=0.9,image/avif,image/webp,image/apng,*/*;q=0.8,application/signed-exchange;v=b3;q=0.7"@),
        ("sec-fetch-site"@, "none"@),
        ("sec-fetch-mode"@, "navigate"@),
        ("sec-fetch-user"@, "?1"@),
        ("sec-fetch-dest"@, "document"@),
        ("accept-encoding"@, "gzip, deflate, br, zstd"@),
        ("accept-language"@, "en-US,en;q=0.9"@),
    ]
}

/// The default headers Firefox sends on a navigation, in emission order.
pub open spec fn firefox_headers_spec() -> Seq<(Seq<char>, Seq<char>)> {
    seq![
        ("User-Agent"@, "Mozilla/5.0 (X11; Linux x86_64; rv:128.0) Gecko/20100101 Firefox/128.0"@),
        ("Accept"@, "text/html,application/xhtml+xml,application/xml;q=0.9,image/avif,image/webp,image/png,image/svg+xml,*/*;q=0.8"@),
        ("Accept-Language"@, "en,cs;q=0.7,en-US;q=0.3"@),
        ("Accept-Encoding"@, "gzip, deflate, br, zstd"@),
        ("sec-fetch-dest"@, "document"@),
        ("sec-fetch-mode"@, "navigate"@),
        ("sec-fetch-site"@, "none"@),
        ("sec-fetch-user"@, "?1"@),
        ("Connection"@, "keep-alive"@),
        ("Upgrade-Insecure-Requests"@, "1"@),
        ("Priority"@, "u=0, i"@),
    ]
}

/// The HTTP/2 pseudo-header emission order used by Chrome.
pub open spec fn chrome_pseudo_order_spec() -> Seq<Seq<char>> {
    seq![":method"@, ":authority"@, ":scheme"@, ":path"@, ":protocol"@, ":status"@]
}

/// The HTTP/2 pseudo-header emission order used by Firefox.
pub open spec fn firefox_pseudo_order_spec() -> Seq<Seq<char>> {
    seq![":method"@, ":path"@, ":authority"@, ":scheme"@, ":protocol"@, ":status"@]
}

/// The default headers of the selected profile; none when no browser is
/// impersonated.
pub open spec fn profile_headers_spec(browser: Option<Browser>) -> Seq<(Seq<char>, Seq<char>)> {
    match browser {
        Some(Browser::Chrome) => chrome_headers_spec(),
        Some(Browser::Firefox) => firefox_headers_spec(),
        None => Seq::empty(),
    }
}

/// The pseudo-header order of the selected profile; empty when no browser
/// is impersonated.
pub open spec fn profile_pseudo_order_spec(browser: Option<Browser>) -> Seq<Seq<char>> {
    match browser {
        Some(Browser::Chrome) => chrome_pseudo_order_spec(),
        Some(Browser::Firefox) => firefox_pseudo_order_spec(),
        None => Seq::empty(),
    }
}

/// Some default's name matches `n`, ignoring ASCII case.
pub open spec fn some_name_matches(defaults: Seq<(Seq<char>, Seq<char>)>, n: Seq<char>) -> bool {
    exists|i: int| #![trigger defaults[i]] 0 <= i < defaults.len() && str_eq_ci(defaults[i].0, n)
}

/// The value of the first custom entry whose name matches `name`, ignoring
/// ASCII case.
pub open spec fn lookup_ci(custom: Seq<(Seq<char>, Seq<char>)>, name: Seq<char>) -> Option<
    Seq<char>,
>
    decreases custom.len(),
{
    if custom.len() == 0 {
        None
    } else if str_eq_ci(custom[0].0, name) {
        Some(custom[0].1)
    } else {
        lookup_ci(custom.drop_first(), name)
    }
}

/// What the composed list holds at a default's position: the default's own
/// name paired with the matching override's value, or with the default
/// value when nothing overrides it.
pub open spec fn default_slot(
    defaults: Seq<(Seq<char>, Seq<char>)>,
    custom: Seq<(Seq<char>, Seq<char>)>,
    i: int,
) -> (Seq<char>, Seq<char>) {
    match lookup_ci(custom, defaults[i].0) {
        Some(v) => (defaults[i].0, v),
        None => defaults[i],
    }
}

/// The custom entries that override no default, in their own order.
pub open spec fn leftover_customs(
    custom: Seq<(Seq<char>, Seq<char>)>,
    defaults: Seq<(Seq<char>, Seq<char>)>,
) -> Seq<(Seq<char>, Seq<char>)>
    decreases custom.len(),
{
    if custom.len() == 0 {
        Seq::empty()
    } else {
        let rest = leftover_customs(custom.drop_first(), defaults);
        if some_name_matches(defaults, custom[0].0) {
            rest
        } else {
            seq![custom[0]] + rest
        }
    }
}

/// The composed header list: every default in its declared order, each
/// overridden by a case-insensitively matching custom value if one exists,
/// followed by every custom entry that overrode nothing, in its own order.
pub open spec fn composed_headers(
    defaults: Seq<(Seq<char>, Seq<char>)>,
    custom: Seq<(Seq<char>, Seq<char>)>,
) -> Seq<(Seq<char>, Seq<char>)> {
    Seq::new(defaults.len(), |i: int| default_slot(defaults, custom, i)) + leftover_customs(
        custom,
        defaults,
    )
}

/// The number of entries whose name matches `name`, ignoring ASCII case.
pub open spec fn count_ci_matches(s: Seq<(Seq<char>, Seq<char>)>, name: Seq<char>) -> nat
    decreases s.len(),
{
    if s.len() == 0 {
        0
    } else {
        ((if str_eq_ci(s[0].0, name) {
            1nat
        } else {
            0nat
        }) + count_ci_matches(s.drop_first(), name)) as nat
    }
}

proof fn lemma_count_zero(s: Seq<(Seq<char>, Seq<char>)>, name: Seq<char>)
    requires
        forall|k: int| 0 <= k < s.len() ==> !str_eq_ci((#[trigger] s[k]).0, name),
    ensures
        count_ci_matches(s, name) == 0,
    decreases s.len(),
{
    if s.len() > 0 {
        assert(forall|k: int|
            0 <= k < s.drop_first().len() ==> (#[trigger] s.drop_first()[k]) == s[k + 1]);
        lemma_count_zero(s.drop_first(), name);
    }
}

proof fn lemma_count_concat(
    a: Seq<(Seq<char>, Seq<char>)>,
    b: Seq<(Seq<char>, Seq<char>)>,
    name: Seq<char>,
)
    ensures
        count_ci_matches(a + b, name) == count_ci_matches(a, name) + count_ci_matches(b, name),
    decreases a.len(),
{
    if a.len() == 0 {
        assert(a + b =~= b);
    } else {
        assert((a + b).drop_first() =~= a.drop_first() + b);
        assert((a + b)[0] == a[0]);
        lemma_count_concat(a.drop_first(), b, name);
    }
}

proof fn lemma_count_single(s: Seq<(Seq<char>, Seq<char>)>, name: Seq<char>, d: int)
    requires
        0 <= d < s.len(),
        str_eq_ci(s[d].0, name),
        forall|k: int| 0 <= k < s.len() && k != d ==> !str_eq_ci((#[trigger] s[k]).0, name),
    ensures
        count_ci_matches(s, name) == 1,
    decreases s.len(),
{
    assert(forall|k: int|
        0 <= k < s.drop_first().len() ==> (#[trigger] s.drop_first()[k]) == s[k + 1]);
    if d == 0 {
        lemma_count_zero(s.drop_first(), name);
    } else {
        lemma_count_single(s.drop_first(), name, d - 1);
    }
}

proof fn lemma_leftover_excluded(
    custom: Seq<(Seq<char>, Seq<char>)>,
    defaults: Seq<(Seq<char>, Seq<char>)>,
    name: Seq<char>,
    d: int,
)
    requires
        0 <= d < defaults.len(),
        str_eq_ci(defaults[d].0, name),
    ensures
        forall|k: int|
            0 <= k < leftover_customs(custom, defaults).len() ==> !str_eq_ci(
                (#[trigger] leftover_customs(custom, defaults)[k]).0,
                name,
            ),
    decreases custom.len(),
{
    if custom.len() > 0 {
        lemma_leftover_excluded(custom.drop_first(), defaults, name, d);
        if !some_name_matches(defaults, custom[0].0) {
            if str_eq_ci(custom[0].0, name) {
                crate::text::lemma_str_eq_ci_sym(custom[0].0, name);
                crate::text::lemma_str_eq_ci_trans(defaults[d].0, name, custom[0].0);
                assert(str_eq_ci(defaults[d].0, custom[0].0));
                assert(some_name_matches(defaults, custom[0].0));
                assert(false);
            }
            assert(leftover_customs(custom, defaults) =~= seq![custom[0]] + leftover_customs(
                custom.drop_first(),
                defaults,
            ));
        }
    }
}

/// Header precedence: when exactly one default's name matches `name` up
/// to ASCII case and some override matches that default, the composed
/// output holds exactly one header matching `name` — at the default's
/// position, under the default's spelling, carrying the first matching
/// override's value.
pub proof fn lemma_header_precedence(
    defaults: Seq<(Seq<char>, Seq<char>)>,
    custom: Seq<(Seq<char>, Seq<char>)>,
    name: Seq<char>,
    d: int,
)
    requires
        0 <= d < defaults.len(),
        str_eq_ci(defaults[d].0, name),
        forall|i: int|
            0 <= i < defaults.len() && i != d ==> !str_eq_ci((#[trigger] defaults[i]).0, name),
        lookup_ci(custom, defaults[d].0) is Some,
    ensures
        count_ci_matches(composed_headers(defaults, custom), name) == 1,
        ({
            let slot = composed_headers(defaults, custom)[d];
            slot.0 == defaults[d].0 && Some(slot.1) == lookup_ci(custom, defaults[d].0)
        }),
{
    let slots = Seq::new(defaults.len(), |i: int| default_slot(defaults, custom, i));
    let rest = leftover_customs(custom, defaults);
    assert(composed_headers(defaults, custom) =~~= slots + rest);
    lemma_count_concat(slots, rest, name);
    assert forall|k: int| 0 <= k < slots.len() && k != d implies !str_eq_ci(
        (#[trigger] slots[k]).0,
        name,
    ) by {
        assert(slots[k].0 == defaults[k].0);
        assert(!str_eq_ci(defaults[k].0, name));
    }
    assert(slots[d].0 == defaults[d].0);
    lemma_count_single(slots, name, d);
    lemma_leftover_excluded(custom, defaults, name, d);
    lemma_count_zero(rest, name);
    assert((slots + rest)[d] == slots[d]);
}

/// For the Chrome profile, whose defaults name `user-agent` exactly once:
/// overriding `user-agent` in any ASCII case yields exactly one
/// user-agent header, at the default's position, carrying the override's
/// value.
pub proof fn lemma_chrome_user_agent_precedence(custom: Seq<(Seq<char>, Seq<char>)>)
    requires
        lookup_ci(custom, "user-agent"@) is Some,
    ensures
        count_ci_matches(composed_headers(chrome_headers_spec(), custom), "user-agent"@) == 1,
        ({
            let slot = composed_headers(chrome_headers_spec(), custom)[4];
            slot.0 == "user-agent"@ && Some(slot.1) == lookup_ci(custom, "user-agent"@)
        }),
{
    reveal_strlit("sec-ch-ua");
    reveal_strlit("sec-ch-ua-mobile");
    reveal_strlit("sec-ch-ua-platform");
    reveal_strlit("upgrade-insecure-requests");
    reveal_strlit("user-agent");
    reveal_strlit("accept");
    reveal_strlit("sec-fetch-site");
    reveal_strlit("sec-fetch-mode");
    reveal_strlit("sec-fetch-user");
    reveal_strlit("sec-fetch-dest");
    reveal_strlit("accept-encoding");
    reveal_strlit("accept-language");
    let defaults = chrome_headers_spec();
    assert(str_eq_ci(defaults[4].0, "user-agent"@));
    assert forall|i: int| 0 <= i < defaults.len() && i != 4 implies !str_eq_ci(
        (#[trigger] defaults[i]).0,
        "user-agent"@,
    ) by {
        assert("user-agent"@.len() == 10);
        assert(defaults[0].0.len() == 9);
        assert(defaults[1].0.len() == 16);
        assert(defaults[2].0.len() == 18);
        assert(defaults[3].0.len() == 25);
        assert(defaults[5].0.len() == 6);
        assert(defaults[6].0.len() == 14);
        assert(defaults[7].0.len() == 14);
        assert(defaults[8].0.len() == 14);
        assert(defaults[9].0.len() == 14);
        assert(defaults[10].0.len() == 15);
        assert(defaults[11].0.len() == 15);
    }
    lemma_header_precedence(defaults, custom, "user-agent"@, 4);
}

/// Composition is deterministic: the same profile and the same overrides
/// give byte-identical ordered output, however often they are composed.
pub proof fn lemma_compose_deterministic(
    browser: Option<Browser>,
    custom: Seq<(Seq<char>, Seq<char>)>,
    r1: Seq<(Seq<char>, Seq<char>)>,
    r2: Seq<(Seq<char>, Seq<char>)>,
)
    requires
        r1 == composed_headers(profile_headers_spec(browser), custom),
        r2 == composed_headers(profile_headers_spec(browser), custom),
    ensures
        r1 == r2,
{
}

/// Builds the Chrome default header table.
pub fn chrome_headers() -> (r: Vec<(String, String)>)
    ensures
        pairs_view(r@) == chrome_headers_spec(),
{
    let mut v: Vec<(String, String)> = Vec::new();
    v.push((String::from_str("sec-ch-ua"), String::from_str("\"Google Chrome\";v=\"125\", \"Chromium\";v=\"125\", \"Not.A/Brand\";v=\"24\"")));
    v.push((String::from_str("sec-ch-ua-mobile"), String::from_str("?0")));
    v.push((String::from_str("sec-ch-ua-platform"), String::from_str("Linux")));
    v.push((String::from_str("upgrade-insecure-requests"), String::from_str("1")));
    v.push((String::from_str("user-agent"), String::from_str("Mozilla/5.0 (X11; Linux x86_64) AppleWebKit/537.36 (KHTML, like Gecko) Chrome/125.0.0.0 Safari/537.36")));
    v.push((String::from_str("accept"), String::from_str("text/html,application/xhtml+xml,application/xml;q=0.9,image/avif,image/webp,image/apng,*/*;q=0.8,application/signed-exchange;v=b3;q=0.7")));
    v.push((String::from_str("sec-fetch-site"), String::from_str("none")));
    v.push((String::from_str("sec-fetch-mode"), String::from_str("navigate")));
    v.push((String::from_str("sec-fetch-user"), String::from_str("?1")));
    v.push((String::from_str("sec-fetch-dest"), String::from_str("document")));
    v.push((String::from_str("accept-encoding"), String::from_str("gzip, deflate, br, zstd")));
    v.push((String::from_str("accept-language"), String::from_str("en-US,en;q=0.9")));
    proof {
        assert(pairs_view(v@) =~= chrome_headers_spec());
    }
    v
}

/// Builds the Firefox default header table.
pub fn firefox_headers() -> (r: Vec<(String, String)>)
    ensures
        pairs_view(r@) == firefox_headers_spec(),
{
    let mut v: Vec<(String, String)> = Vec::new();
    v.push((String::from_str("User-Agent"), String::from_str("Mozilla/5.0 (X11; Linux x86_64; rv:128.0) Gecko/20100101 Firefox/128.0")));
    v.push((String::from_str("Accept"), String::from_str("text/html,application/xhtml+xml,application/xml;q=0.9,image/avif,image/webp,image/png,image/svg+xml,*/*;q=0.8")));
    v.push((String::from_str("Accept-Language"), String::from_str("en,cs;q=0.7,en-US;q=0.3")));
    v.push((String::from_str("Accept-Encoding"), String::from_str("gzip, deflate, br, zstd")));
    v.push((String::from_str("sec-fetch-dest"), String::from_str("document")));
    v.push((String::from_str("sec-fetch-mode"), String::from_str("navigate")));
    v.push((String::from_str("sec-fetch-site"), String::from_str("none")));
    v.push((String::from_str("sec-fetch-user"), String::from_str("?1")));
    v.push((String::from_str("Connection"), String::from_str("keep-alive")));
    v.push((String::from_str("Upgrade-Insecure-Requests"), String::from_str("1")));
    v.push((String::from_str("Priority"), String::from_str("u=0, i")));
    proof {
        assert(pairs_view(v@) =~= firefox_headers_spec());
    }
    v
}

/// Builds the pseudo-header order table of the selected profile.
pub fn profile_pseudo_order(browser: &Option<Browser>) -> (r: Vec<String>)
    ensures
        strings_view(r@) == profile_pseudo_order_spec(*browser),
{
    let mut v: Vec<String> = Vec::new();
    match browser {
        Some(Browser::Chrome) => {
            v.push(String::from_str(":method"));
            v.push(String::from_str(":authority"));
            v.push(String::from_str(":scheme"));
            v.push(String::from_str(":path"));
            v.push(String::from_str(":protocol"));
            v.push(String::from_str(":status"));
            proof {
                assert(strings_view(v@) =~= chrome_pseudo_order_spec());
            }
        },
        Some(Browser::Firefox) => {
            v.push(String::from_str(":method"));
            v.push(String::from_str(":path"));
            v.push(String::from_str(":authority"));
            v.push(String::from_str(":scheme"));
            v.push(String::from_str(":protocol"));
            v.push(String::from_str(":status"));
            proof {
                assert(strings_view(v@) =~= firefox_pseudo_order_spec());
            }
        },
        None => {
            proof {
                assert(strings_view(v@) =~= Seq::<Seq<char>>::empty());
            }
        },
    }
    v
}

/// Builds the default header table of the selected profile.
pub fn profile_headers(browser: &Option<Browser>) -> (r: Vec<(String, String)>)
    ensures
        pairs_view(r@) == profile_headers_spec(*browser),
{
    match browser {
        Some(Browser::Chrome) => chrome_headers(),
        Some(Browser::Firefox) => firefox_headers(),
        None => {
            let v: Vec<(String, String)> = Vec::new();
            proof {
                assert(pairs_view(v@) =~= Seq::<(Seq<char>, Seq<char>)>::empty());
            }
            v
        },
    }
}

/// Finds the first custom entry whose name matches `name` ignoring ASCII
/// case, and hands back a copy of its value.
fn lookup_custom(custom: &Vec<(String, String)>, name: &str) -> (r: Option<String>)
    ensures
        match r {
            Some(v) => lookup_ci(pairs_view(custom@), name@) == Some(v@),
            None => lookup_ci(pairs_view(custom@), name@) is None,
        },
{
    let ghost cv = pairs_view(custom@);
    proof {
        assert(cv.subrange(0, cv.len() as int) =~= cv);
    }
    let mut i: usize = 0;
    while i < custom.len()
        invariant
            i <= custom.len(),
            cv == pairs_view(custom@),
            cv.len() == custom@.len(),
            lookup_ci(cv, name@) == lookup_ci(cv.subrange(i as int, cv.len() as int), name@),
        decreases custom.len() - i,
    {
        let ghost suffix = cv.subrange(i as int, cv.len() as int);
        if eq_ignore_case(custom[i].0.as_str(), name) {
            proof {
                assert(suffix[0] == cv[i as int]);
                assert(str_eq_ci(suffix[0].0, name@));
            }
            return Some(custom[i].1.clone());
        }
        proof {
            assert(suffix[0] == cv[i as int]);
            assert(!str_eq_ci(suffix[0].0, name@));
            assert(suffix.drop_first() =~= cv.subrange(i + 1, cv.len() as int));
        }
        i = i + 1;
    }
    proof {
        assert(cv.subrange(i as int, cv.len() as int).len() == 0);
    }
    None
}

/// Decides whether any default's name matches `name` ignoring ASCII case.
fn matches_some_default(defaults: &Vec<(String, String)>, name: &str) -> (r: bool)
    ensures
        r == some_name_matches(pairs_view(defaults@), name@),
{
    let ghost dv = pairs_view(defaults@);
    let mut i: usize = 0;
    while i < defaults.len()
        invariant
            i <= defaults.len(),
            dv == pairs_view(defaults@),
            dv.len() == defaults@.len(),
            forall|j: int| 0 <= j < i ==> !str_eq_ci(#[trigger] dv[j].0, name@),
        decreases defaults.len() - i,
    {
        if eq_ignore_case(defaults[i].0.as_str(), name) {
            proof {
                assert(str_eq_ci(dv[i as int].0, name@));
            }
            return true;
        }
        i = i + 1;
    }
    false
}

/// Copies a list of name/value pairs.
fn clone_pairs(v: &Vec<(String, String)>) -> (r: Vec<(String, String)>)
    ensures
        r@ == v@,
{
    let mut out: Vec<(String, String)> = Vec::new();
    let mut i: usize = 0;
    while i < v.len()
        invariant
            i <= v.len(),
            out@ =~= v@.subrange(0, i as int),
        decreases v.len() - i,
    {
        out.push((v[i].0.clone(), v[i].1.clone()));
        i = i + 1;
    }
    proof {
        assert(out@ =~= v@);
    }
    out
}

/// The composed headers of one request, together with the pseudo-header
/// order the transport must use for it.
pub struct ComposedHeaders {
    /// Ordered header names and values.
    pub headers: Vec<(String, String)>,
    /// The HTTP/2 pseudo-header emission order for this request.
    pub pseudo_header_order: Vec<String>,
}

/// Collects the inputs of one header composition.
pub struct HttpHeadersBuilder {
    host: String,
    browser: Option<Browser>,
    https: bool,
    custom_headers: Vec<(String, String)>,
}

impl HttpHeadersBuilder {
    /// The target host the composition was given.
    pub closed spec fn spec_host(&self) -> Seq<char> {
        self.host@
    }

    /// The impersonated browser the composition was given.
    pub closed spec fn spec_browser(&self) -> Option<Browser> {
        self.browser
    }

    /// Whether the request travels over HTTPS.
    pub closed spec fn spec_https(&self) -> bool {
        self.https
    }

    /// The caller's custom headers.
    pub closed spec fn spec_custom_headers(&self) -> Seq<(Seq<char>, Seq<char>)> {
        pairs_view(self.custom_headers@)
    }

    /// An empty composition context: no host, no browser, no overrides.
    pub fn new() -> (r: Self)
        ensures
            r.spec_host() == Seq::<char>::empty(),
            r.spec_browser() is None,
            !r.spec_https(),
            r.spec_custom_headers() == Seq::<(Seq<char>, Seq<char>)>::empty(),
    {
        let r = HttpHeadersBuilder {
            host: String::new(),
            browser: None,
            https: false,
            custom_headers: Vec::new(),
        };
        proof {
            assert(pairs_view(r.custom_headers@) =~= Seq::<(Seq<char>, Seq<char>)>::empty());
        }
        r
    }

    /// Sets the target host.
    pub fn with_host(self, host: &String) -> (r: Self)
        ensures
            r.spec_host() == host@,
            r.spec_browser() == self.spec_browser(),
            r.spec_https() == self.spec_https(),
            r.spec_custom_headers() == self.spec_custom_headers(),
    {
        HttpHeadersBuilder { host: host.clone(), ..self }
    }

    /// Sets the impersonated browser.
    pub fn with_browser(self, browser: &Option<Browser>) -> (r: Self)
        ensures
            r.spec_host() == self.spec_host(),
            r.spec_browser() == *browser,
            r.spec_https() == self.spec_https(),
            r.spec_custom_headers() == self.spec_custom_headers(),
    {
        HttpHeadersBuilder { browser: *browser, ..self }
    }

    /// Records whether the request travels over HTTPS.
    pub fn with_https(self, https: bool) -> (r: Self)
        ensures
            r.spec_host() == self.spec_host(),
            r.spec_browser() == self.spec_browser(),
            r.spec_https() == https,
            r.spec_custom_headers() == self.spec_custom_headers(),
    {
        HttpHeadersBuilder { https, ..self }
    }

    /// Sets the caller's custom headers.
    pub fn with_custom_headers(self, custom_headers: &Vec<(String, String)>) -> (r: Self)
        ensures
            r.spec_host() == self.spec_host(),
            r.spec_browser() == self.spec_browser(),
            r.spec_https() == self.spec_https(),
            r.spec_custom_headers() == pairs_view(custom_headers@),
    {
        HttpHeadersBuilder { custom_headers: clone_pairs(custom_headers), ..self }
    }

    /// Finishes the context.
    pub fn build(self) -> (r: HttpHeaders)
        ensures
            r.spec_host() == self.spec_host(),
            r.spec_browser() == self.spec_browser(),
            r.spec_https() == self.spec_https(),
            r.spec_custom_headers() == self.spec_custom_headers(),
    {
        HttpHeaders::new(self)
    }
}

impl Default for HttpHeadersBuilder {
    /// An empty composition context.
    fn default() -> (r: Self)
        ensures
            r.spec_host() == Seq::<char>::empty(),
            r.spec_browser() is None,
            !r.spec_https(),
            r.spec_custom_headers() == Seq::<(Seq<char>, Seq<char>)>::empty(),
    {
        HttpHeadersBuilder::new()
    }
}

/// A fully collected header composition context.
pub struct HttpHeaders {
    context: HttpHeadersBuilder,
}

impl HttpHeaders {
    /// The target host.
    pub closed spec fn spec_host(&self) -> Seq<char> {
        self.context.spec_host()
    }

    /// The impersonated browser.
    pub closed spec fn spec_browser(&self) -> Option<Browser> {
        self.context.spec_browser()
    }

    /// Whether the request travels over HTTPS.
    pub closed spec fn spec_https(&self) -> bool {
        self.context.spec_https()
    }

    /// The caller's custom headers.
    pub closed spec fn spec_custom_headers(&self) -> Seq<(Seq<char>, Seq<char>)> {
        self.context.spec_custom_headers()
    }

    /// Wraps a finished composition context.
    pub fn new(options: HttpHeadersBuilder) -> (r: HttpHeaders)
        ensures
            r.spec_host() == options.spec_host(),
            r.spec_browser() == options.spec_browser(),
            r.spec_https() == options.spec_https(),
            r.spec_custom_headers() == options.spec_custom_headers(),
    {
        HttpHeaders { context: options }
    }

    /// Starts an empty composition context.
    pub fn get_builder() -> (r: HttpHeadersBuilder)
        ensures
            r.spec_host() == Seq::<char>::empty(),
            r.spec_browser() is None,
            !r.spec_https(),
            r.spec_custom_headers() == Seq::<(Seq<char>, Seq<char>)>::empty(),
    {
        HttpHeadersBuilder::new()
    }

    /// Composes the ordered header list and the pseudo-header order for one
    /// request.
    pub fn compose(&self) -> (r: ComposedHeaders)
        ensures
            pairs_view(r.headers@) == composed_headers(
                profile_headers_spec(self.spec_browser()),
                self.spec_custom_headers(),
            ),
            strings_view(r.pseudo_header_order@) == profile_pseudo_order_spec(self.spec_browser()),
    {
        let ghost defaults_v = profile_headers_spec(self.spec_browser());
        let ghost custom_v = self.spec_custom_headers();

        let defaults = profile_headers(&self.context.browser);
        let pseudo_header_order = profile_pseudo_order(&self.context.browser);

        let mut headers: Vec<(String, String)> = Vec::new();

        let mut i: usize = 0;
        while i < defaults.len()
            invariant
                i <= defaults.len(),
                defaults_v == pairs_view(defaults@),
                custom_v == self.spec_custom_headers(),
                defaults_v.len() == defaults@.len(),
                headers@.len() == i,
                forall|j: int|
                    0 <= j < i ==> pairs_view(headers@)[j] == default_slot(
                        defaults_v,
                        custom_v,
                        j,
                    ),
            decreases defaults.len() - i,
        {
            let name = &defaults[i].0;
            proof {
                assert(defaults_v[i as int].0 == name@);
            }
            match lookup_custom(&self.context.custom_headers, name.as_str()) {
                Some(v) => {
                    headers.push((name.clone(), v));
                },
                None => {
                    headers.push((name.clone(), defaults[i].1.clone()));
                },
            }
            proof {
                assert(pairs_view(headers@)[i as int] == default_slot(
                    defaults_v,
                    custom_v,
                    i as int,
                ));
                assert(forall|j: int|
                    0 <= j < i ==> pairs_view(headers@)[j] == default_slot(
                        defaults_v,
                        custom_v,
                        j,
                    ));
            }
            i = i + 1;
        }

        proof {
            assert(pairs_view(headers@) =~~= Seq::new(
                defaults_v.len(),
                |j: int| default_slot(defaults_v, custom_v, j),
            ));
            assert(custom_v.subrange(0, custom_v.len() as int) =~= custom_v);
        }
        let ghost defaults_part = pairs_view(headers@);

        let mut k: usize = 0;
        while k < self.context.custom_headers.len()
            invariant
                k <= self.context.custom_headers.len(),
                defaults_v == pairs_view(defaults@),
                custom_v == self.spec_custom_headers(),
                custom_v.len() == self.context.custom_headers@.len(),
                defaults_v.len() == defaults@.len(),
                composed_headers(defaults_v, custom_v) =~~= pairs_view(headers@)
                    + leftover_customs(custom_v.subrange(k as int, custom_v.len() as int), defaults_v),
            decreases self.context.custom_headers.len() - k,
        {
            let ghost suffix = custom_v.subrange(k as int, custom_v.len() as int);
            let entry = &self.context.custom_headers[k];
            let ghost entry_v = custom_v[k as int];
            proof {
                assert(suffix[0] == entry_v);
                assert(entry_v == (entry.0@, entry.1@));
                assert(suffix.drop_first() =~= custom_v.subrange(
                    k + 1,
                    custom_v.len() as int,
                ));
            }
            if !matches_some_default(&defaults, entry.0.as_str()) {
                proof {
                    assert(!some_name_matches(defaults_v, entry_v.0));
                    assert(leftover_customs(suffix, defaults_v) =~~= seq![entry_v]
                        + leftover_customs(suffix.drop_first(), defaults_v));
                }
                let ghost before = pairs_view(headers@);
                headers.push((entry.0.clone(), entry.1.clone()));
                proof {
                    assert(pairs_view(headers@) =~~= before.push(entry_v));
                    assert(before + (seq![entry_v] + leftover_customs(
                        suffix.drop_first(),
                        defaults_v,
                    )) =~~= before.push(entry_v) + leftover_customs(
                        suffix.drop_first(),
                        defaults_v,
                    ));
                }
            } else {
                proof {
                    assert(some_name_matches(defaults_v, entry_v.0));
                    assert(leftover_customs(suffix, defaults_v) == leftover_customs(
                        suffix.drop_first(),
                        defaults_v,
                    ));
                }
            }
            k = k + 1;
        }

        proof {
            assert(custom_v.subrange(custom_v.len() as int, custom_v.len() as int).len() == 0);
            assert(composed_headers(defaults_v, custom_v) =~~= pairs_view(headers@));
        }
        ComposedHeaders { headers, pseudo_header_order }
    }
}

} // verus!
