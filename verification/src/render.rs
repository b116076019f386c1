//! The rendering engine: one fixed template, applied to one site at a time.
//!
//! Rendering substitutes a site's fields into the fixed server-configuration
//! template. Header names are aligned with `pad_right`, and the companion
//! `www` server block derives its name with `redirect_domain`. Rendering is
//! total: every verified site renders to exactly the text these spec
//! functions describe.

use vstd::prelude::*;

use crate::filters::{
    pad_right_default, redirect_domain, spec_pad_right, spec_redirect_domain, DEFAULT_PAD_WIDTH,
};
use crate::model::{CacheControl, Header, HeaderValue, Redirect, Site};
use crate::numeral::{spec_decimal, u16_to_decimal};
use crate::validate::Config;

verus! {

/// One rendered output file: its name and its full text.
pub struct OutputFile {
    pub name: String,
    pub content: String,
}

/// One `add_header` line of a header block.
pub open spec fn spec_render_header_value(hv: HeaderValue) -> Seq<char> {
    "        add_header "@ + spec_pad_right(hv.name@, DEFAULT_PAD_WIDTH as int) + " \""@
        + hv.value@ + "\";\n"@
}

/// The `add_header` lines of a header block, in order.
pub open spec fn spec_render_header_values(vs: Seq<HeaderValue>) -> Seq<char>
    decreases vs.len(),
{
    if vs.len() == 0 {
        Seq::empty()
    } else {
        spec_render_header_values(vs.drop_last()) + spec_render_header_value(vs.last())
    }
}

/// One header block: a location with its `add_header` lines.
pub open spec fn spec_render_header(h: Header) -> Seq<char> {
    "    location "@ + h.for_field@ + " {\n"@ + spec_render_header_values(h.values@)
        + "    }\n"@
}

/// All header blocks of a site, in order.
pub open spec fn spec_render_headers(hs: Seq<Header>) -> Seq<char>
    decreases hs.len(),
{
    if hs.len() == 0 {
        Seq::empty()
    } else {
        spec_render_headers(hs.drop_last()) + spec_render_header(hs.last())
    }
}

/// One cache-control pairing: a location matching the MIME suffix that
/// adds the cache directive.
pub open spec fn spec_render_cache(c: CacheControl) -> Seq<char> {
    "    location ~* \\."@ + c.mime@ + "$ {\n        add_header Cache-Control \""@ + c.value@
        + "\";\n    }\n"@
}

/// All cache-control pairings of a site, in order.
pub open spec fn spec_render_caches(cs: Seq<CacheControl>) -> Seq<char>
    decreases cs.len(),
{
    if cs.len() == 0 {
        Seq::empty()
    } else {
        spec_render_caches(cs.drop_last()) + spec_render_cache(cs.last())
    }
}

/// One redirect rule: a location answering with the rule's status code.
pub open spec fn spec_render_redirect(r: Redirect) -> Seq<char> {
    "    location "@ + r.from_field@ + " {\n        return "@ + spec_decimal(
        r.status_code as nat,
    ) + " "@ + r.to@ + ";\n    }\n"@
}

/// All redirect rules of a site, in order.
pub open spec fn spec_render_redirects(rs: Seq<Redirect>) -> Seq<char>
    decreases rs.len(),
{
    if rs.len() == 0 {
        Seq::empty()
    } else {
        spec_render_redirects(rs.drop_last()) + spec_render_redirect(rs.last())
    }
}

/// The opening of the site's own server block.
pub open spec fn spec_render_prelude(domain: Seq<char>) -> Seq<char> {
    "server {\n    listen 80;\n    listen [::]:80;\n    server_name "@ + domain + ";\n\n"@
}

/// The close of the site's block and the companion server block that
/// redirects the `www` variant of the domain to the domain itself.
pub open spec fn spec_render_tail(domain: Seq<char>) -> Seq<char> {
    "}\n\nserver {\n    listen 80;\n    listen [::]:80;\n    server_name "@
        + spec_redirect_domain(domain) + ";\n    return 301 $scheme://"@ + domain
        + "$request_uri;\n}\n"@
}

/// The full text rendered for one site: its server block with header,
/// cache and redirect sections and the verbatim extra trailer, followed by
/// the companion redirect block.
pub open spec fn spec_render_site(s: Site) -> Seq<char> {
    spec_render_prelude(s.domain@) + (match s.headers {
        Some(hs) => spec_render_headers(hs@),
        None => Seq::empty(),
    }) + (match s.cache_control {
        Some(cs) => spec_render_caches(cs@),
        None => Seq::empty(),
    }) + (match s.redirects {
        Some(rs) => spec_render_redirects(rs@),
        None => Seq::empty(),
    }) + (match s.extra {
        Some(e) => e@ + "\n"@,
        None => Seq::empty(),
    }) + spec_render_tail(s.domain@)
}

/// Renders the `add_header` lines of one header block.
fn render_header_values(vs: &Vec<HeaderValue>) -> (r: String)
    ensures
        r@ == spec_render_header_values(vs@),
{
    let mut r = String::new();
    let mut i: usize = 0;
    while i < vs.len()
        invariant
            0 <= i <= vs@.len(),
            r@ == spec_render_header_values(vs@.subrange(0, i as int)),
        decreases vs@.len() - i,
    {
        r.append("        add_header ");
        let padded = pad_right_default(vs[i].name.as_str());
        r.append(padded.as_str());
        r.append(" \"");
        r.append(vs[i].value.as_str());
        r.append("\";\n");
        proof {
            assert(vs@.subrange(0, i + 1).drop_last() =~= vs@.subrange(0, i as int));
            assert(vs@.subrange(0, i + 1).last() == vs@[i as int]);
            assert(r@ =~= spec_render_header_values(vs@.subrange(0, i + 1)));
        }
        i = i + 1;
    }
    proof {
        assert(vs@.subrange(0, vs@.len() as int) =~= vs@);
    }
    r
}

/// Renders the header blocks of a site.
fn render_headers(hs: &Vec<Header>) -> (r: String)
    ensures
        r@ == spec_render_headers(hs@),
{
    let mut r = String::new();
    let mut i: usize = 0;
    while i < hs.len()
        invariant
            0 <= i <= hs@.len(),
            r@ == spec_render_headers(hs@.subrange(0, i as int)),
        decreases hs@.len() - i,
    {
        r.append("    location ");
        r.append(hs[i].for_field.as_str());
        r.append(" {\n");
        let values = render_header_values(&hs[i].values);
        r.append(values.as_str());
        r.append("    }\n");
        proof {
            assert(hs@.subrange(0, i + 1).drop_last() =~= hs@.subrange(0, i as int));
            assert(hs@.subrange(0, i + 1).last() == hs@[i as int]);
            assert(r@ =~= spec_render_headers(hs@.subrange(0, i + 1)));
        }
        i = i + 1;
    }
    proof {
        assert(hs@.subrange(0, hs@.len() as int) =~= hs@);
    }
    r
}

/// Renders the cache-control pairings of a site.
fn render_caches(cs: &Vec<CacheControl>) -> (r: String)
    ensures
        r@ == spec_render_caches(cs@),
{
    let mut r = String::new();
    let mut i: usize = 0;
    while i < cs.len()
        invariant
            0 <= i <= cs@.len(),
            r@ == spec_render_caches(cs@.subrange(0, i as int)),
        decreases cs@.len() - i,
    {
        r.append("    location ~* \\.");
        r.append(cs[i].mime.as_str());
        r.append("$ {\n        add_header Cache-Control \"");
        r.append(cs[i].value.as_str());
        r.append("\";\n    }\n");
        proof {
            assert(cs@.subrange(0, i + 1).drop_last() =~= cs@.subrange(0, i as int));
            assert(cs@.subrange(0, i + 1).last() == cs@[i as int]);
            assert(r@ =~= spec_render_caches(cs@.subrange(0, i + 1)));
        }
        i = i + 1;
    }
    proof {
        assert(cs@.subrange(0, cs@.len() as int) =~= cs@);
    }
    r
}

/// Renders the redirect rules of a site.
fn render_redirects(rs: &Vec<Redirect>) -> (r: String)
    ensures
        r@ == spec_render_redirects(rs@),
{
    let mut r = String::new();
    let mut i: usize = 0;
    while i < rs.len()
        invariant
            0 <= i <= rs@.len(),
            r@ == spec_render_redirects(rs@.subrange(0, i as int)),
        decreases rs@.len() - i,
    {
        r.append("    location ");
        r.append(rs[i].from_field.as_str());
        r.append(" {\n        return ");
        let code = u16_to_decimal(rs[i].status_code);
        r.append(code.as_str());
        r.append(" ");
        r.append(rs[i].to.as_str());
        r.append(";\n    }\n");
        proof {
            assert(rs@.subrange(0, i + 1).drop_last() =~= rs@.subrange(0, i as int));
            assert(rs@.subrange(0, i + 1).last() == rs@[i as int]);
            assert(r@ =~= spec_render_redirects(rs@.subrange(0, i + 1)));
        }
        i = i + 1;
    }
    proof {
        assert(rs@.subrange(0, rs@.len() as int) =~= rs@);
    }
    r
}

/// Renders one site through the fixed template.
#[verifier::rlimit(50)]
pub fn render_site(site: &Site) -> (r: String)
    ensures
        r@ == spec_render_site(*site),
{
    let mut r = String::from_str("server {\n    listen 80;\n    listen [::]:80;\n    server_name ");
    r.append(site.domain.as_str());
    r.append(";\n\n");
    proof {
        assert(r@ =~= spec_render_prelude(site.domain@));
    }
    let ghost mut sections = spec_render_prelude(site.domain@);

    match &site.headers {
        Some(hs) => {
            let part = render_headers(hs);
            r.append(part.as_str());
        },
        None => {},
    }
    proof {
        sections = sections + (match &site.headers {
            Some(hs) => spec_render_headers(hs@),
            None => Seq::empty(),
        });
        assert(r@ == sections);
    }
    match &site.cache_control {
        Some(cs) => {
            let part = render_caches(cs);
            r.append(part.as_str());
        },
        None => {},
    }
    proof {
        sections = sections + (match &site.cache_control {
            Some(cs) => spec_render_caches(cs@),
            None => Seq::empty(),
        });
        assert(r@ == sections);
    }
    match &site.redirects {
        Some(rs) => {
            let part = render_redirects(rs);
            r.append(part.as_str());
        },
        None => {},
    }
    proof {
        sections = sections + (match &site.redirects {
            Some(rs) => spec_render_redirects(rs@),
            None => Seq::empty(),
        });
        assert(r@ == sections);
    }
    match &site.extra {
        Some(e) => {
            r.append(e.as_str());
            r.append("\n");
        },
        None => {},
    }
    proof {
        sections = sections + (match &site.extra {
            Some(e) => e@ + "\n"@,
            None => Seq::empty(),
        });
        assert(r@ == sections);
    }

    r.append("}\n\nserver {\n    listen 80;\n    listen [::]:80;\n    server_name ");
    let companion = redirect_domain(site.domain.as_str());
    r.append(companion.as_str());
    r.append(";\n    return 301 $scheme://");
    r.append(site.domain.as_str());
    r.append("$request_uri;\n}\n");

    proof {
        assert(r@ =~= sections + spec_render_tail(site.domain@));
        assert(sections + spec_render_tail(site.domain@) =~= spec_render_site(*site));
    }
    r
}

impl Config {
    /// Renders every verified site: one output file per site, in input
    /// order, named `<domain>.conf` and holding exactly the rendering of
    /// that site's own data. An empty site list yields no files and never
    /// fails.
    pub fn generate(&self) -> (out: Vec<OutputFile>)
        ensures
            out@.len() == self.spec_sites().len(),
            forall|i: int|
                0 <= i < out@.len() ==> {
                    &&& (#[trigger] out@[i]).name@ == self.spec_sites()[i].domain@ + ".conf"@
                    &&& out@[i].content@ == spec_render_site(self.spec_sites()[i])
                },
    {
        let sites = self.sites();
        let mut out: Vec<OutputFile> = Vec::new();
        let mut i: usize = 0;
        while i < sites.len()
            invariant
                sites@ == self.spec_sites(),
                0 <= i <= sites@.len(),
                out@.len() == i,
                forall|k: int|
                    0 <= k < i ==> {
                        &&& (#[trigger] out@[k]).name@ == sites@[k].domain@ + ".conf"@
                        &&& out@[k].content@ == spec_render_site(sites@[k])
                    },
            decreases sites@.len() - i,
        {
            let site = &sites[i];
            out.push(OutputFile { name: site.filename(), content: render_site(site) });
            i = i + 1;
        }
        out
    }
}

} // verus!
