//! The site records that the pipeline validates and renders.
//!
//! Records are plain data: one `Site` per virtual host, holding optional
//! header blocks, cache-control pairings, redirect rules, and a free-form
//! trailer. An `UnverifiedConfig` is the raw input shape; the verified
//! `Config` counterpart lives beside the validator.

use vstd::prelude::*;

verus! {

/// One header line inside a header block: a header name and its value.
pub struct HeaderValue {
    pub name: String,
    pub value: String,
}

/// A block of response headers applied to the paths matching `for_field`.
pub struct Header {
    pub for_field: String,
    pub values: Vec<HeaderValue>,
}

/// Header names inside one block are pairwise distinct, as in a mapping.
pub open spec fn header_wf(h: Header) -> bool {
    forall|i: int, j: int|
        0 <= i < j < h.values@.len() ==> #[trigger] h.values@[i].name@ != #[trigger] h.values@[
            j
        ].name@
}

/// A MIME-type-to-cache-directive pairing.
pub struct CacheControl {
    pub mime: String,
    pub value: String,
}

/// A redirect rule: requests for `from_field` answer with `status_code`
/// and the target `to`.
pub struct Redirect {
    pub from_field: String,
    pub to: String,
    pub status_code: u16,
}

/// The status code a redirect rule carries when the input names none.
pub fn default_redirect_status_code() -> (r: u16)
    ensures
        r == 302,
{
    302
}

/// One virtual host's full configuration description.
pub struct Site {
    pub domain: String,
    pub cache_control: Option<Vec<CacheControl>>,
    pub headers: Option<Vec<Header>>,
    pub redirects: Option<Vec<Redirect>>,
    pub extra: Option<String>,
}

/// Every header block of the site keeps its names distinct.
pub open spec fn site_wf(s: Site) -> bool {
    s.headers matches Some(hs) ==> forall|i: int|
        0 <= i < hs@.len() ==> header_wf(#[trigger] hs@[i])
}

impl Site {
    /// The name of the output file this site is rendered into.
    pub fn filename(&self) -> (r: String)
        ensures
            r@ == self.domain@ + ".conf"@,
    {
        let mut r = self.domain.clone();
        r.append(".conf");
        r
    }
}

/// A raw, untrusted site list: the input shape before validation.
pub struct UnverifiedConfig {
    pub sites: Vec<Site>,
}

impl UnverifiedConfig {
    /// A canonical sample description: one site with a block of three
    /// common headers and one permanent redirect, meant to be serialized
    /// back into the input format for documentation.
    pub fn example() -> (r: UnverifiedConfig)
        ensures
            r.sites@.len() == 1,
            r.sites@[0].domain@ == "example.com"@,
            r.sites@[0].cache_control is None,
            r.sites@[0].extra is None,
            r.sites@[0].headers matches Some(hs) && hs@.len() == 1 && {
                &&& hs@[0].for_field@ == "/*"@
                &&& hs@[0].values@.len() == 3
                &&& hs@[0].values@[0].name@ == "Cache-Control"@
                &&& hs@[0].values@[0].value@ == "public"@
                &&& hs@[0].values@[1].name@ == "Referrer-Policy"@
                &&& hs@[0].values@[1].value@ == "strict-origin-when-cross-origin"@
                &&& hs@[0].values@[2].name@ == "Strict-Transport-Security"@
                &&& hs@[0].values@[2].value@ == "max-age=31536000; includeSubDomains; preload"@
            },
            r.sites@[0].redirects matches Some(rs) && rs@.len() == 1 && {
                &&& rs@[0].from_field@ == "/example"@
                &&& rs@[0].to@ == "http://example.com"@
                &&& rs@[0].status_code == 301
            },
            site_wf(r.sites@[0]),
    {
        let mut values: Vec<HeaderValue> = Vec::new();
        values.push(
            HeaderValue {
                name: String::from_str("Cache-Control"),
                value: String::from_str("public"),
            },
        );
        values.push(
            HeaderValue {
                name: String::from_str("Referrer-Policy"),
                value: String::from_str("strict-origin-when-cross-origin"),
            },
        );
        values.push(
            HeaderValue {
                name: String::from_str("Strict-Transport-Security"),
                value: String::from_str("max-age=31536000; includeSubDomains; preload"),
            },
        );

        let header = Header { for_field: String::from_str("/*"), values };

        let redirect = Redirect {
            from_field: String::from_str("/example"),
            to: String::from_str("http://example.com"),
            status_code: 301,
        };

        let mut headers: Vec<Header> = Vec::new();
        headers.push(header);
        let mut redirects: Vec<Redirect> = Vec::new();
        redirects.push(redirect);

        let site = Site {
            domain: String::from_str("example.com"),
            cache_control: None,
            headers: Some(headers),
            redirects: Some(redirects),
            extra: None,
        };

        let mut sites: Vec<Site> = Vec::new();
        sites.push(site);
        proof {
            reveal_strlit("Cache-Control");
            reveal_strlit("Referrer-Policy");
            reveal_strlit("Strict-Transport-Security");
            let vs = sites@[0].headers->Some_0@[0].values@;
            assert(vs[0].name@.len() != vs[1].name@.len());
            assert(vs[0].name@.len() != vs[2].name@.len());
            assert(vs[1].name@.len() != vs[2].name@.len());
            assert(header_wf(sites@[0].headers->Some_0@[0]));
        }
        UnverifiedConfig { sites }
    }
}

} // verus!
