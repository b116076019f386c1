//! The two value filters that the rendering engine applies.
//!
//! `redirect_domain` toggles a single leading `www.` prefix and is used to
//! derive the companion domain of a redirect pairing; `pad_right` pads a
//! string with spaces to a minimum width for aligned output.

use vstd::prelude::*;

verus! {

/// The four characters of the `www.` prefix.
pub open spec fn www_prefix() -> Seq<char> {
    seq!['w', 'w', 'w', '.']
}

/// Whether `s` begins with the literal prefix `www.`.
pub open spec fn starts_with_www(s: Seq<char>) -> bool {
    s.len() >= 4 && s.subrange(0, 4) == www_prefix()
}

/// The companion domain: a single leading `www.` is stripped when present,
/// otherwise `www.` is prepended. Only a literal leading prefix is
/// special-cased, never an inner occurrence.
pub open spec fn spec_redirect_domain(s: Seq<char>) -> Seq<char> {
    if starts_with_www(s) {
        s.subrange(4, s.len() as int)
    } else {
        www_prefix() + s
    }
}

/// `s` padded on the right with spaces to at least `width` characters;
/// a string already that wide is returned unchanged, never truncated.
pub open spec fn spec_pad_right(s: Seq<char>, width: int) -> Seq<char> {
    if s.len() >= width {
        s
    } else {
        s + Seq::new((width - s.len()) as nat, |i: int| ' ')
    }
}

/// The width `pad_right` pads to when the template names none.
pub const DEFAULT_PAD_WIDTH: usize = 35;

/// Toggles the `www.` prefix of a domain.
pub fn redirect_domain(s: &str) -> (r: String)
    ensures
        r@ == spec_redirect_domain(s@),
{
    let n = s.unicode_len();
    if n >= 4 && s.get_char(0) == 'w' && s.get_char(1) == 'w' && s.get_char(2) == 'w'
        && s.get_char(3) == '.' {
        proof {
            assert(s@.subrange(0, 4) =~= www_prefix());
        }
        let stripped = s.substring_char(4, n);
        stripped.to_owned()
    } else {
        proof {
            if starts_with_www(s@) {
                assert(s@[0] == www_prefix()[0]);
                assert(s@[1] == www_prefix()[1]);
                assert(s@[2] == www_prefix()[2]);
                assert(s@[3] == www_prefix()[3]);
            }
        }
        let mut r = String::from_str("www.");
        proof {
            reveal_strlit("www.");
            assert(r@ =~= www_prefix());
        }
        r.append(s);
        r
    }
}

/// Pads `s` on the right with spaces to at least `width` characters.
pub fn pad_right(s: &str, width: usize) -> (r: String)
    ensures
        r@ == spec_pad_right(s@, width as int),
{
    let n = s.unicode_len();
    let mut r = s.to_owned();
    if n >= width {
        return r;
    }
    let mut i: usize = n;
    while i < width
        invariant
            n == s@.len(),
            n <= i <= width,
            r@ =~= s@ + Seq::new((i - n) as nat, |j: int| ' '),
        decreases width - i,
    {
        r.append(" ");
        proof {
            reveal_strlit(" ");
            assert(" "@ =~= seq![' ']);
            assert((s@ + Seq::new((i - n) as nat, |j: int| ' ')) + seq![' '] =~= s@ + Seq::new(
                (i + 1 - n) as nat,
                |j: int| ' ',
            ));
        }
        i = i + 1;
    }
    proof {
        assert(r@ =~= spec_pad_right(s@, width as int));
    }
    r
}

/// Pads with the engine's default width.
pub fn pad_right_default(s: &str) -> (r: String)
    ensures
        r@ == spec_pad_right(s@, DEFAULT_PAD_WIDTH as int),
{
    pad_right(s, DEFAULT_PAD_WIDTH)
}

/// Applying `redirect_domain` twice returns to the starting point: for any
/// string that does not already begin with `www.`, the prefix is first
/// added and then stripped again.
pub proof fn lemma_redirect_domain_involutive(s: Seq<char>)
    requires
        !starts_with_www(s),
    ensures
        spec_redirect_domain(spec_redirect_domain(s)) == s,
{
    let t = www_prefix() + s;
    assert(t.subrange(0, 4) =~= www_prefix());
    assert(starts_with_www(t));
    assert(t.subrange(4, t.len() as int) =~= s);
}

} // verus!
