//! Resolving hex colour text to RGB colours.

use vstd::prelude::*;
use vstd::string::StringSliceAdditionalSpecFns;
use vstd::utf8::{encode_utf8, is_char_boundary};

use crate::config::ColorConfig;

verus! {

/// A 24-bit colour.
#[derive(Debug, Clone, Copy, PartialEq, Eq, Structural)]
pub struct Rgb {
    pub r: u8,
    pub g: u8,
    pub b: u8,
}

/// `s` without all its leading `#` characters, as
/// `str::trim_start_matches('#')` returns it.
pub open spec fn strip_hashes(s: Seq<char>) -> Seq<char>
    decreases s.len(),
{
    if s.len() > 0 && s[0] == '#' {
        strip_hashes(s.subrange(1, s.len() as int))
    } else {
        s
    }
}

/// The value of a hexadecimal digit byte (`0-9`, `a-f`, `A-F`), or -1.
pub open spec fn hex_digit(b: u8) -> int {
    if 48 <= b <= 57 {
        b - 48
    } else if 97 <= b <= 102 {
        b - 87
    } else if 65 <= b <= 70 {
        b - 55
    } else {
        -1
    }
}

/// True if every byte of `d` is a hexadecimal digit.
pub open spec fn all_hex(d: Seq<u8>) -> bool {
    forall|i: int| 0 <= i < d.len() ==> hex_digit(#[trigger] d[i]) >= 0
}

/// The number that the hexadecimal digits `d` denote.
pub open spec fn hex_value(d: Seq<u8>) -> int
    decreases d.len(),
{
    if d.len() == 0 {
        0
    } else {
        hex_value(d.drop_last()) * 16 + hex_digit(d.last())
    }
}

/// What `u8::from_str_radix(s, 16)` returns for the bytes `s`: an optional
/// `+` followed by at least one hexadecimal digit, whose value fits a `u8`.
pub open spec fn radix16(s: Seq<u8>) -> Option<u8> {
    let d = if s.len() > 0 && s[0] == 43 { s.subrange(1, s.len() as int) } else { s };
    if d.len() > 0 && all_hex(d) && hex_value(d) <= 255 {
        Some(hex_value(d) as u8)
    } else {
        None
    }
}

/// Three optional channels as a colour, when all three are there.
pub open spec fn rgb_of(r: Option<u8>, g: Option<u8>, b: Option<u8>) -> Option<Rgb> {
    match (r, g, b) {
        (Some(r), Some(g), Some(b)) => Some(Rgb { r, g, b }),
        _ => None,
    }
}

/// The colour that hex text denotes: after the leading `#`s, three bytes
/// are read as one doubled digit per channel, six bytes as two digits per
/// channel; any other length, or a channel that is not a hex number, gives
/// none.
pub open spec fn color_of_text(hex: Seq<char>) -> Option<Rgb> {
    let b = encode_utf8(strip_hashes(hex));
    if b.len() == 3 {
        rgb_of(radix16(seq![b[0], b[0]]), radix16(seq![b[1], b[1]]), radix16(seq![b[2], b[2]]))
    } else if b.len() == 6 {
        rgb_of(radix16(seq![b[0], b[1]]), radix16(seq![b[2], b[3]]), radix16(seq![b[4], b[5]]))
    } else {
        None
    }
}

/// Hex text whose channels fall on character boundaries, so that they can
/// be sliced out (slicing elsewhere panics).
pub open spec fn sliceable(hex: Seq<char>) -> bool {
    let b = encode_utf8(strip_hashes(hex));
    &&& b.len() == 3 ==> is_char_boundary(b, 1) && is_char_boundary(b, 2)
    &&& b.len() == 6 ==> is_char_boundary(b, 2) && is_char_boundary(b, 4)
}

/// Hex text that resolving accepts without panicking: empty, or sliceable.
pub open spec fn usable(hex: Seq<char>) -> bool {
    hex.len() == 0 || sliceable(hex)
}

/// What resolving hex text gives: none for empty text, else its colour.
pub open spec fn resolved(hex: Seq<char>) -> Option<Rgb> {
    if hex.len() == 0 {
        None
    } else {
        color_of_text(hex)
    }
}

/// `str::trim_start_matches('#')`.
fn trim_hashes(s: &str) -> (r: &str)
    ensures
        r@ == strip_hashes(s@),
{
    let n = s.unicode_len();
    let mut k: usize = 0;
    assert(s@.subrange(0, n as int) =~= s@);
    while k < n && s.get_char(k) == '#'
        invariant
            n == s@.len(),
            k <= n,
            strip_hashes(s@) == strip_hashes(s@.subrange(k as int, n as int)),
        decreases n - k,
    {
        let ghost t = s@.subrange(k as int, n as int);
        assert(t.subrange(1, t.len() as int) =~= s@.subrange(k + 1, n as int));
        k = k + 1;
    }
    assert(s@.subrange(0, n as int) =~= s@);
    s.substring_char(k, n)
}

fn digit_value(b: u8) -> (r: Option<u8>)
    ensures
        match r {
            Some(v) => hex_digit(b) == v as int && v < 16,
            None => hex_digit(b) == -1,
        },
{
    if 48 <= b && b <= 57 {
        Some(b - 48)
    } else if 97 <= b && b <= 102 {
        Some(b - 87)
    } else if 65 <= b && b <= 70 {
        Some(b - 55)
    } else {
        None
    }
}

proof fn lemma_hex_value_nonneg(d: Seq<u8>)
    requires
        all_hex(d),
    ensures
        hex_value(d) >= 0,
    decreases d.len(),
{
    if d.len() > 0 {
        lemma_hex_value_nonneg(d.drop_last());
    }
}

/// `u8::from_str_radix(s, 16)`, with the error dropped.
pub fn parse_hex_u8(s: &[u8]) -> (r: Option<u8>)
    ensures
        r == radix16(s@),
{
    let n = s.len();
    let start: usize = if n > 0 && s[0] == 43 { 1 } else { 0 };
    let ghost d = if s@.len() > 0 && s@[0] == 43 { s@.subrange(1, s@.len() as int) } else { s@ };
    if start == n {
        return None;
    }
    assert(start == 0 ==> s@.subrange(0, n as int) =~= s@);
    assert(d == s@.subrange(start as int, n as int));
    let mut value: u32 = 0;
    let mut i: usize = start;
    while i < n
        invariant
            n == s@.len(),
            start <= i <= n,
            d == s@.subrange(start as int, n as int),
            all_hex(s@.subrange(start as int, i as int)),
            value as int == hex_value(s@.subrange(start as int, i as int)),
            value <= 255,
            start <= 1,
            start < n,
            (start == 1) == (s@.len() > 0 && s@[0] == 43),
            d == (if s@.len() > 0 && s@[0] == 43 { s@.subrange(1, s@.len() as int) } else { s@ }),
        decreases n - i,
    {
        let ghost pre = s@.subrange(start as int, i as int);
        let ghost post = s@.subrange(start as int, i + 1);
        assert(post.drop_last() =~= pre);
        assert(post.last() == s@[i as int]);
        match digit_value(s[i]) {
            Some(v) => {
                value = value * 16 + v as u32;
                assert(value as int == hex_value(post));
                assert(all_hex(post)) by {
                    assert forall|j: int| 0 <= j < post.len() implies hex_digit(#[trigger] post[j]) >= 0 by {
                        if j < pre.len() {
                            assert(post[j] == pre[j]);
                        }
                    }
                }
                if value > 255 {
                    proof {
                        if all_hex(d) {
                            lemma_hex_value_prefix(d, (i + 1 - start) as int);
                            assert(d.subrange(0, (i + 1 - start) as int) =~= post);
                            assert(hex_value(d) > 255);
                        }
                    }
                    return None;
                }
            },
            None => {
                proof {
                    assert(d[(i - start) as int] == s@[i as int]);
                    assert(hex_digit(d[(i - start) as int]) < 0);
                    assert(!all_hex(d));
                }
                return None;
            },
        }
        i = i + 1;
    }
    assert(s@.subrange(start as int, n as int) == d);
    Some(value as u8)
}

/// Once a prefix of hex digits exceeds 255, so does the whole number.
proof fn lemma_hex_value_prefix(d: Seq<u8>, k: int)
    requires
        0 <= k <= d.len(),
        all_hex(d),
    ensures
        hex_value(d) >= hex_value(d.subrange(0, k)),
    decreases d.len() - k,
{
    if k < d.len() {
        let e = d.subrange(0, k + 1);
        assert(e.drop_last() =~= d.subrange(0, k));
        assert(all_hex(e)) by {
            assert forall|j: int| 0 <= j < e.len() implies hex_digit(#[trigger] e[j]) >= 0 by {
                assert(e[j] == d[j]);
            }
        }
        assert(all_hex(d.subrange(0, k))) by {
            assert forall|j: int| 0 <= j < k implies hex_digit(#[trigger] d.subrange(0, k)[j]) >= 0 by {
                assert(d.subrange(0, k)[j] == d[j]);
            }
        }
        lemma_hex_value_nonneg(d.subrange(0, k));
        assert(hex_digit(e.last()) >= 0);
        lemma_hex_value_prefix(d, k + 1);
    } else {
        assert(d.subrange(0, k) =~= d);
    }
}

/// Convert hex colour text to a colour.
pub fn hex_to_color(hex: &str) -> (r: Option<Rgb>)
    requires
        sliceable(hex@),
    ensures
        r == color_of_text(hex@),
{
    let h = trim_hashes(hex);
    let b = h.as_bytes();
    let n = b.len();
    if n == 3 {
        let r = parse_hex_u8(&[b[0], b[0]]);
        let g = parse_hex_u8(&[b[1], b[1]]);
        let bl = parse_hex_u8(&[b[2], b[2]]);
        assert([b[0], b[0]]@ =~= seq![b@[0], b@[0]]);
        match (r, g, bl) {
            (Some(r), Some(g), Some(bl)) => Some(Rgb { r, g, b: bl }),
            _ => None,
        }
    } else if n == 6 {
        let r = parse_hex_u8(&[b[0], b[1]]);
        let g = parse_hex_u8(&[b[2], b[3]]);
        let bl = parse_hex_u8(&[b[4], b[5]]);
        match (r, g, bl) {
            (Some(r), Some(g), Some(bl)) => Some(Rgb { r, g, b: bl }),
            _ => None,
        }
    } else {
        None
    }
}

/// True if resolving `hex` does not slice inside a character.
pub fn can_resolve(hex: &str) -> (r: bool)
    ensures
        r == usable(hex@),
{
    if hex.is_empty() {
        return true;
    }
    let h = trim_hashes(hex);
    let n = h.as_bytes().len();
    let ghost bytes = encode_utf8(strip_hashes(hex@));
    assert(h.spec_bytes() == bytes);
    assert(n as int == bytes.len());
    if n == 3 {
        let r = h.is_char_boundary(1) && h.is_char_boundary(2);
        assert(r == (is_char_boundary(bytes, 1) && is_char_boundary(bytes, 2)));
        r
    } else if n == 6 {
        let r = h.is_char_boundary(2) && h.is_char_boundary(4);
        assert(r == (is_char_boundary(bytes, 2) && is_char_boundary(bytes, 4)));
        r
    } else {
        true
    }
}

/// Resolves the configured colours.
pub struct ColorResolver {
    config: ColorConfig,
}

impl ColorResolver {
    /// The colours being resolved.
    pub closed spec fn colors(&self) -> ColorConfig {
        self.config
    }

    pub fn new(config: ColorConfig) -> (r: Self)
        ensures
            r.colors() == config,
    {
        Self { config }
    }

    /// The colour that `hex` denotes: none when it is empty or not a colour.
    pub fn resolve(&self, hex: &str) -> (r: Option<Rgb>)
        requires
            usable(hex@),
        ensures
            r == resolved(hex@),
    {
        if hex.is_empty() {
            return None;
        }
        hex_to_color(hex)
    }

    /// The `modified` colour, if it is set and valid.
    pub fn modified(&self) -> (r: Option<Rgb>)
        requires
            usable(self.colors().modified@),
        ensures
            r == resolved(self.colors().modified@),
    {
        self.resolve(self.config.modified.as_str())
    }

    /// The `deleted` colour, if it is set and valid.
    pub fn deleted(&self) -> (r: Option<Rgb>)
        requires
            usable(self.colors().deleted@),
        ensures
            r == resolved(self.colors().deleted@),
    {
        self.resolve(self.config.deleted.as_str())
    }

    /// The `new_file` colour, if it is set and valid.
    pub fn new_file(&self) -> (r: Option<Rgb>)
        requires
            usable(self.colors().new_file@),
        ensures
            r == resolved(self.colors().new_file@),
    {
        self.resolve(self.config.new_file.as_str())
    }

    /// The `renamed` colour, if it is set and valid.
    pub fn renamed(&self) -> (r: Option<Rgb>)
        requires
            usable(self.colors().renamed@),
        ensures
            r == resolved(self.colors().renamed@),
    {
        self.resolve(self.config.renamed.as_str())
    }

    /// The `added` colour, if it is set and valid.
    pub fn added(&self) -> (r: Option<Rgb>)
        requires
            usable(self.colors().added@),
        ensures
            r == resolved(self.colors().added@),
    {
        self.resolve(self.config.added.as_str())
    }

    /// The `untracked` colour, if it is set and valid.
    pub fn untracked(&self) -> (r: Option<Rgb>)
        requires
            usable(self.colors().untracked@),
        ensures
            r == resolved(self.colors().untracked@),
    {
        self.resolve(self.config.untracked.as_str())
    }

    /// The `staged` colour, if it is set and valid.
    pub fn staged(&self) -> (r: Option<Rgb>)
        requires
            usable(self.colors().staged@),
        ensures
            r == resolved(self.colors().staged@),
    {
        self.resolve(self.config.staged.as_str())
    }

    /// The `not_staged` colour, if it is set and valid.
    pub fn not_staged(&self) -> (r: Option<Rgb>)
        requires
            usable(self.colors().not_staged@),
        ensures
            r == resolved(self.colors().not_staged@),
    {
        self.resolve(self.config.not_staged.as_str())
    }

    /// The `header` colour, if it is set and valid.
    pub fn header(&self) -> (r: Option<Rgb>)
        requires
            usable(self.colors().header@),
        ensures
            r == resolved(self.colors().header@),
    {
        self.resolve(self.config.header.as_str())
    }

    /// The `branch` colour, if it is set and valid.
    pub fn branch(&self) -> (r: Option<Rgb>)
        requires
            usable(self.colors().branch@),
        ensures
            r == resolved(self.colors().branch@),
    {
        self.resolve(self.config.branch.as_str())
    }

    /// The `cwd_path` colour, if it is set and valid.
    pub fn cwd_path(&self) -> (r: Option<Rgb>)
        requires
            usable(self.colors().cwd_path@),
        ensures
            r == resolved(self.colors().cwd_path@),
    {
        self.resolve(self.config.cwd_path.as_str())
    }

    /// The `tree_dir` colour, if it is set and valid.
    pub fn tree_dir(&self) -> (r: Option<Rgb>)
        requires
            usable(self.colors().tree_dir@),
        ensures
            r == resolved(self.colors().tree_dir@),
    {
        self.resolve(self.config.tree_dir.as_str())
    }

    /// The `tree_file` colour, if it is set and valid.
    pub fn tree_file(&self) -> (r: Option<Rgb>)
        requires
            usable(self.colors().tree_file@),
        ensures
            r == resolved(self.colors().tree_file@),
    {
        self.resolve(self.config.tree_file.as_str())
    }
}

} // verus!
