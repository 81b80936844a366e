//! A single dimension token for the transform DSL: an absolute pixel count,
//! or a percentage of the image's width or height.

use vstd::prelude::*;

use crate::strutil::{digit_str, spec_decimal, spec_digit_char, spec_trim, str_eq, trimmed_range, u64_to_string};

verus! {

/// Scale used to store percentages: hundredths of a percent.
pub const PCT_SCALE: u32 = 100;

/// Denominator for resolving a stored percentage against a dimension.
pub const PCT_DENOM: u32 = 10000;

/// A dimension: absolute pixels, or a percentage of the image's width or
/// height. Percentages are stored in hundredths of a percent, so `50vw`
/// is `WidthPercent(5000)`; fractional digits beyond the second are ignored
/// when parsing.
#[derive(Debug, Clone, Copy, PartialEq, Eq, Structural)]
pub enum PixelDim {
    /// An absolute number of pixels
    Pixels(u32),
    /// A percentage of the image's width, in hundredths of a percent
    WidthPercent(u32),
    /// A percentage of the image's height, in hundredths of a percent
    HeightPercent(u32),
}

/// The length of the leading run of numeric characters (digits and dots).
pub open spec fn spec_scan_dim(s: Seq<char>) -> int
    decreases s.len(),
{
    if s.len() == 0 {
        0
    } else if !spec_is_dim_char(s[0]) {
        0
    } else {
        1 + spec_scan_dim(s.drop_first())
    }
}

/// What [`spec_scan_dim`] returns: the first index holding no numeric
/// character, or the length.
pub proof fn lemma_scan_dim(s: Seq<char>)
    ensures
        0 <= spec_scan_dim(s) <= s.len(),
        forall|j: int| 0 <= j < spec_scan_dim(s) ==> spec_is_dim_char(#[trigger] s[j]),
        spec_scan_dim(s) < s.len() ==> !spec_is_dim_char(s[spec_scan_dim(s)]),
    decreases s.len(),
{
    if s.len() > 0 && spec_is_dim_char(s[0]) {
        lemma_scan_dim(s.drop_first());
        assert forall|j: int| 0 <= j < spec_scan_dim(s) implies spec_is_dim_char(
            #[trigger] s[j],
        ) by {
            if j > 0 {
                assert(s.drop_first()[j - 1] == s[j]);
            }
        }
        if spec_scan_dim(s) < s.len() {
            assert(s.drop_first()[spec_scan_dim(s.drop_first())] == s[spec_scan_dim(s)]);
        }
    }
}

/// The index of the first decimal point, or the length.
pub open spec fn spec_scan_dot(s: Seq<char>) -> int
    decreases s.len(),
{
    if s.len() == 0 {
        0
    } else if s[0] == '.' {
        0
    } else {
        1 + spec_scan_dot(s.drop_first())
    }
}

/// What [`spec_scan_dot`] returns: the index of the first dot, or the length.
pub proof fn lemma_scan_dot(s: Seq<char>)
    ensures
        0 <= spec_scan_dot(s) <= s.len(),
        forall|j: int| 0 <= j < spec_scan_dot(s) ==> #[trigger] s[j] != '.',
        spec_scan_dot(s) < s.len() ==> s[spec_scan_dot(s)] == '.',
    decreases s.len(),
{
    if s.len() > 0 && s[0] != '.' {
        lemma_scan_dot(s.drop_first());
        assert forall|j: int| 0 <= j < spec_scan_dot(s) implies #[trigger] s[j] != '.' by {
            if j > 0 {
                assert(s.drop_first()[j - 1] == s[j]);
            }
        }
        if spec_scan_dot(s) < s.len() {
            assert(s.drop_first()[spec_scan_dot(s.drop_first())] == s[spec_scan_dot(s)]);
        }
    }
}

/// Whether `c` is an ASCII digit.
pub open spec fn spec_is_digit(c: char) -> bool {
    '0' <= c && c <= '9'
}

/// Whether `c` may appear in the numeric part of a dimension token.
pub open spec fn spec_is_dim_char(c: char) -> bool {
    spec_is_digit(c) || c == '.'
}

/// The numeric value of an ASCII digit.
pub open spec fn spec_digit_val(c: char) -> int {
    c as int - '0' as int
}

/// Every character of `s` is an ASCII digit.
pub open spec fn spec_all_digits(s: Seq<char>) -> bool {
    forall|j: int| 0 <= j < s.len() ==> spec_is_digit(#[trigger] s[j])
}

/// The number denoted by a digit string, most significant digit first.
pub open spec fn spec_digits_val(s: Seq<char>) -> int
    decreases s.len(),
{
    if s.len() == 0 {
        0
    } else {
        spec_digits_val(s.drop_last()) * 10 + spec_digit_val(s.last())
    }
}

proof fn lemma_digits_val_nonneg(s: Seq<char>)
    requires
        spec_all_digits(s),
    ensures
        spec_digits_val(s) >= 0,
    decreases s.len(),
{
    if s.len() > 0 {
        assert(forall|j: int| 0 <= j < s.len() - 1 ==> s.drop_last()[j] == s[j]);
        lemma_digits_val_nonneg(s.drop_last());
    }
}

/// A digit string is worth at least as much as any of its prefixes.
proof fn lemma_digits_val_prefix(s: Seq<char>, k: int)
    requires
        spec_all_digits(s),
        0 <= k <= s.len(),
    ensures
        spec_digits_val(s) >= spec_digits_val(s.take(k)),
    decreases s.len() - k,
{
    if k < s.len() {
        lemma_digits_val_prefix(s, k + 1);
        assert(s.take(k + 1).drop_last() =~= s.take(k));
        assert(forall|j: int| 0 <= j < k + 1 ==> s.take(k + 1)[j] == s[j]);
        lemma_digits_val_nonneg(s.take(k + 1).drop_last());
        assert(spec_digits_val(s.take(k + 1)) >= spec_digits_val(s.take(k)));
    } else {
        assert(s.take(k) =~= s);
    }
}

/// The first two fractional digits as hundredths; further digits are ignored.
pub open spec fn spec_frac_hundredths(s: Seq<char>) -> int {
    if s.len() == 0 {
        0
    } else if s.len() == 1 {
        spec_digit_val(s[0]) * 10
    } else {
        spec_digit_val(s[0]) * 10 + spec_digit_val(s[1])
    }
}

/// The value of an unsigned integer token: at least one digit, nothing but
/// digits, within `u32` range.
pub open spec fn spec_parse_u32(q: Seq<char>) -> Option<u32> {
    if q.len() > 0 && spec_all_digits(q) && spec_digits_val(q) <= u32::MAX {
        Some(spec_digits_val(q) as u32)
    } else {
        None
    }
}

/// The value of a percentage token in hundredths of a percent. The token is
/// digits with at most one decimal point and at least one digit.
pub open spec fn spec_parse_pct(q: Seq<char>) -> Option<u32> {
    let dot = spec_scan_dot(q);
    if dot == q.len() {
        if q.len() > 0 && spec_all_digits(q) && spec_digits_val(q) * PCT_SCALE <= u32::MAX {
            Some((spec_digits_val(q) * PCT_SCALE) as u32)
        } else {
            None
        }
    } else {
        let ip = q.take(dot);
        let fp = q.skip(dot + 1);
        if ip.len() + fp.len() > 0 && spec_all_digits(ip) && spec_all_digits(fp)
            && spec_digits_val(ip) * PCT_SCALE + spec_frac_hundredths(fp) <= u32::MAX {
            Some((spec_digits_val(ip) * PCT_SCALE + spec_frac_hundredths(fp)) as u32)
        } else {
            None
        }
    }
}

/// The index of the first comma, or the length.
pub open spec fn spec_scan_comma(s: Seq<char>) -> int
    decreases s.len(),
{
    if s.len() == 0 {
        0
    } else if s[0] == ',' {
        0
    } else {
        1 + spec_scan_comma(s.drop_first())
    }
}

/// What [`spec_scan_comma`] returns: the index of the first comma, or the
/// length.
pub proof fn lemma_scan_comma(s: Seq<char>)
    ensures
        0 <= spec_scan_comma(s) <= s.len(),
        forall|j: int| 0 <= j < spec_scan_comma(s) ==> #[trigger] s[j] != ',',
        spec_scan_comma(s) < s.len() ==> s[spec_scan_comma(s)] == ',',
    decreases s.len(),
{
    if s.len() > 0 && s[0] != ',' {
        lemma_scan_comma(s.drop_first());
        assert forall|j: int| 0 <= j < spec_scan_comma(s) implies #[trigger] s[j] != ',' by {
            if j > 0 {
                assert(s.drop_first()[j - 1] == s[j]);
            }
        }
        if spec_scan_comma(s) < s.len() {
            assert(s.drop_first()[spec_scan_comma(s.drop_first())] == s[spec_scan_comma(s)]);
        }
    }
}

/// The index of the first semicolon, or the length.
pub open spec fn spec_scan_semi(s: Seq<char>) -> int
    decreases s.len(),
{
    if s.len() == 0 {
        0
    } else if s[0] == ';' {
        0
    } else {
        1 + spec_scan_semi(s.drop_first())
    }
}

/// What [`spec_scan_semi`] returns: the index of the first semicolon, or the
/// length.
pub proof fn lemma_scan_semi(s: Seq<char>)
    ensures
        0 <= spec_scan_semi(s) <= s.len(),
        forall|j: int| 0 <= j < spec_scan_semi(s) ==> #[trigger] s[j] != ';',
        spec_scan_semi(s) < s.len() ==> s[spec_scan_semi(s)] == ';',
    decreases s.len(),
{
    if s.len() > 0 && s[0] != ';' {
        lemma_scan_semi(s.drop_first());
        assert forall|j: int| 0 <= j < spec_scan_semi(s) implies #[trigger] s[j] != ';' by {
            if j > 0 {
                assert(s.drop_first()[j - 1] == s[j]);
            }
        }
        if spec_scan_semi(s) < s.len() {
            assert(s.drop_first()[spec_scan_semi(s.drop_first())] == s[spec_scan_semi(s)]);
        }
    }
}

/// The index of the first opening parenthesis, or the length.
pub open spec fn spec_scan_open(s: Seq<char>) -> int
    decreases s.len(),
{
    if s.len() == 0 {
        0
    } else if s[0] == '(' {
        0
    } else {
        1 + spec_scan_open(s.drop_first())
    }
}

/// What [`spec_scan_open`] returns: the index of the first `(`, or the
/// length.
pub proof fn lemma_scan_open(s: Seq<char>)
    ensures
        0 <= spec_scan_open(s) <= s.len(),
        forall|j: int| 0 <= j < spec_scan_open(s) ==> #[trigger] s[j] != '(',
        spec_scan_open(s) < s.len() ==> s[spec_scan_open(s)] == '(',
    decreases s.len(),
{
    if s.len() > 0 && s[0] != '(' {
        lemma_scan_open(s.drop_first());
        assert forall|j: int| 0 <= j < spec_scan_open(s) implies #[trigger] s[j] != '(' by {
            if j > 0 {
                assert(s.drop_first()[j - 1] == s[j]);
            }
        }
        if spec_scan_open(s) < s.len() {
            assert(s.drop_first()[spec_scan_open(s.drop_first())] == s[spec_scan_open(s)]);
        }
    }
}

/// Find the first comma at or after `from`, or the length if there is none.
pub(crate) fn find_comma(s: &str, from: usize, n: usize) -> (r: usize)
    requires
        from <= n == s@.len(),
    ensures
        from <= r <= n,
        spec_scan_comma(s@.skip(from as int)) == r - from,
    decreases n - from,
{
    let ghost q = s@.skip(from as int);
    let mut i = from;
    while i < n && s.get_char(i) != ','
        invariant
            from <= i <= n == s@.len(),
            forall|j: int| from <= j < i ==> s@[j] != ',',
        decreases n - i,
    {
        i += 1;
    }
    proof {
        lemma_scan_comma(q);
        assert(forall|j: int| 0 <= j < q.len() ==> #[trigger] q[j] == s@[from + j]);
        assert(spec_scan_comma(q) == i - from) by {
            let sd = spec_scan_comma(q);
            if sd < i - from {
                assert(q[sd] == s@[from + sd]);
                assert(s@[from + sd] != ',');
            } else if sd > i - from {
                assert(i < n);
                assert(q[i - from] == s@[i as int]);
            }
        }
    }
    i
}

/// Find the first opening parenthesis in `[from, to)`, or `to`.
pub(crate) fn find_open(s: &str, from: usize, to: usize) -> (r: usize)
    requires
        from <= to <= s@.len(),
    ensures
        from <= r <= to,
        spec_scan_open(s@.subrange(from as int, to as int)) == r - from,
    decreases to - from,
{
    let ghost q = s@.subrange(from as int, to as int);
    let n = to;
    let mut i = from;
    while i < n && s.get_char(i) != '('
        invariant
            from <= i <= n <= s@.len(),
            forall|j: int| from <= j < i ==> s@[j] != '(',
        decreases n - i,
    {
        i += 1;
    }
    proof {
        lemma_scan_open(q);
        assert(forall|j: int| 0 <= j < q.len() ==> #[trigger] q[j] == s@[from + j]);
        assert(spec_scan_open(q) == i - from) by {
            let sd = spec_scan_open(q);
            if sd < i - from {
                assert(q[sd] == s@[from + sd]);
                assert(s@[from + sd] != '(');
            } else if sd > i - from {
                assert(i < n);
                assert(q[i - from] == s@[i as int]);
            }
        }
    }
    i
}

/// Find the first semicolon at or after `from`, or the length.
pub(crate) fn find_semi(s: &str, from: usize, n: usize) -> (r: usize)
    requires
        from <= n == s@.len(),
    ensures
        from <= r <= n,
        spec_scan_semi(s@.skip(from as int)) == r - from,
    decreases n - from,
{
    let ghost q = s@.skip(from as int);
    let mut i = from;
    while i < n && s.get_char(i) != ';'
        invariant
            from <= i <= n == s@.len(),
            forall|j: int| from <= j < i ==> s@[j] != ';',
        decreases n - i,
    {
        i += 1;
    }
    proof {
        lemma_scan_semi(q);
        assert(forall|j: int| 0 <= j < q.len() ==> #[trigger] q[j] == s@[from + j]);
        assert(spec_scan_semi(q) == i - from) by {
            let sd = spec_scan_semi(q);
            if sd < i - from {
                assert(q[sd] == s@[from + sd]);
                assert(s@[from + sd] != ';');
            } else if sd > i - from {
                assert(i < n);
                assert(q[i - from] == s@[i as int]);
            }
        }
    }
    i
}

/// Whether the character at index `i` may appear in a numeric part.
fn at_dim_char(s: &str, i: usize) -> (r: bool)
    requires
        i < s@.len(),
    ensures
        r == spec_is_dim_char(s@[i as int]),
{
    let c = s.get_char(i);
    c == '.' || ('0' <= c && c <= '9')
}

/// Whether `c` is an ASCII digit.
fn is_digit(c: char) -> (r: bool)
    ensures
        r == spec_is_digit(c),
{
    '0' <= c && c <= '9'
}

/// The digits of `s` between `lo` and `hi` read as a number, refusing
/// non-digit characters and values beyond `u32` range.
fn parse_digits_range(s: &str, lo: usize, hi: usize) -> (r: Option<u64>)
    requires
        lo <= hi <= s@.len(),
    ensures
        ({
            let q = s@.subrange(lo as int, hi as int);
            match r {
                Some(v) => spec_all_digits(q) && v == spec_digits_val(q) && v <= u32::MAX,
                None => !(spec_all_digits(q) && spec_digits_val(q) <= u32::MAX),
            }
        }),
{
    let ghost q = s@.subrange(lo as int, hi as int);
    let mut val: u64 = 0;
    let mut i: usize = lo;
    while i < hi
        invariant
            lo <= i <= hi <= s@.len(),
            q == s@.subrange(lo as int, hi as int),
            spec_all_digits(q.take(i - lo)),
            val == spec_digits_val(q.take(i - lo)),
            val <= u32::MAX,
        decreases hi - i,
    {
        let c = s.get_char(i);
        proof {
            assert(q[i - lo] == c);
        }
        if !is_digit(c) {
            proof {
                assert(!spec_all_digits(q));
            }
            return None;
        }
        let d: u64 = (c as u32 as u64) - 48;
        let next = val * 10 + d;
        proof {
            assert(q.take(i + 1 - lo).drop_last() =~= q.take(i - lo));
            assert(q.take(i + 1 - lo).last() == c);
        }
        if next > u32::MAX as u64 {
            proof {
                if spec_all_digits(q) {
                    lemma_digits_val_prefix(q, i + 1 - lo);
                }
            }
            return None;
        }
        val = next;
        i += 1;
    }
    proof {
        assert(q.take(hi - lo) =~= q);
    }
    Some(val)
}

/// Parse a percentage token between `lo` and `hi` into hundredths of a
/// percent.
#[verifier::loop_isolation(false)]
fn parse_pct_range(s: &str, lo: usize, hi: usize) -> (r: Option<u32>)
    requires
        lo <= hi <= s@.len(),
    ensures
        r == spec_parse_pct(s@.subrange(lo as int, hi as int)),
{
    let ghost q = s@.subrange(lo as int, hi as int);
    // find the first dot
    let mut di: usize = lo;
    while di < hi && s.get_char(di) != '.'
        invariant
            lo <= di <= hi <= s@.len(),
            forall|j: int| lo <= j < di ==> s@[j] != '.',
        decreases hi - di,
    {
        di += 1;
    }
    proof {
        lemma_scan_dot(q);
        assert(forall|j: int| 0 <= j < q.len() ==> #[trigger] q[j] == s@[lo + j]);
        assert(spec_scan_dot(q) == di - lo) by {
            let sd = spec_scan_dot(q);
            if sd < di - lo {
                assert(q[sd] == s@[lo + sd]);
                assert(s@[lo + sd] != '.');
            } else if sd > di - lo {
                assert(di < hi);
                assert(q[di - lo] == s@[di as int]);
            }
        }
    }
    if di == hi {
        // no decimal point: integer percent
        if lo == hi {
            return None;
        }
        match parse_digits_range(s, lo, hi) {
            Some(v) => {
                let total = v * (PCT_SCALE as u64);
                if total > u32::MAX as u64 {
                    None
                } else {
                    Some(total as u32)
                }
            },
            None => {
                proof {
                    if spec_all_digits(q) {
                        lemma_digits_val_nonneg(q);
                    }
                }
                None
            },
        }
    } else {
        let ghost ip = q.take(di - lo);
        let ghost fp = q.skip(di - lo + 1);
        proof {
            assert(ip =~= s@.subrange(lo as int, di as int));
            assert(fp =~= s@.subrange(di + 1, hi as int));
        }
        if lo == di && di + 1 == hi {
            // a lone dot has no digits at all
            return None;
        }
        // fractional part must be all digits; its first two digits matter
        let mut j: usize = di + 1;
        while j < hi
            invariant
                di + 1 <= j <= hi <= s@.len(),
                lo <= di,
                fp == s@.subrange(di + 1, hi as int),
                forall|k: int| di + 1 <= k < j ==> spec_is_digit(#[trigger] s@[k]),
            decreases hi - j,
        {
            if !is_digit(s.get_char(j)) {
                proof {
                    assert(fp[j - di - 1] == s@[j as int]);
                    assert(!spec_all_digits(fp));
                }
                return None;
            }
            j += 1;
        }
        proof {
            assert(forall|k: int| 0 <= k < fp.len() ==> fp[k] == s@[di + 1 + k]);
            assert(spec_all_digits(fp));
        }
        let frac: u64;
        if di + 1 == hi {
            frac = 0;
        } else if di + 2 == hi {
            frac = ((s.get_char(di + 1) as u32 as u64) - 48) * 10;
        } else {
            frac = ((s.get_char(di + 1) as u32 as u64) - 48) * 10 + ((s.get_char(di + 2) as u32
                as u64) - 48);
        }
        proof {
            assert(frac == spec_frac_hundredths(fp));
        }
        match parse_digits_range(s, lo, di) {
            Some(v) => {
                let total = v * (PCT_SCALE as u64) + frac;
                if total > u32::MAX as u64 {
                    None
                } else {
                    Some(total as u32)
                }
            },
            None => {
                proof {
                    if spec_all_digits(ip) {
                        lemma_digits_val_nonneg(ip);
                    }
                }
                None
            },
        }
    }
}

impl PixelDim {
    /// What a dimension token parses to, if anything. The token is a numeric
    /// part (digits and dots) followed by a unit: `vw` and `vh` take a
    /// percentage, bare numbers and the explicit `px` unit take an integer
    /// pixel count.
    pub open spec fn spec_parse(s: Seq<char>) -> Option<PixelDim> {
        let ne = spec_scan_dim(s);
        let q = s.take(ne);
        let unit = if ne == s.len() {
            "px"@
        } else {
            spec_trim(s.skip(ne))
        };
        if unit == "vw"@ {
            match spec_parse_pct(q) {
                Some(v) => Some(PixelDim::WidthPercent(v)),
                None => None,
            }
        } else if unit == "vh"@ {
            match spec_parse_pct(q) {
                Some(v) => Some(PixelDim::HeightPercent(v)),
                None => None,
            }
        } else if unit == "px"@ {
            match spec_parse_u32(q) {
                Some(v) => Some(PixelDim::Pixels(v)),
                None => None,
            }
        } else {
            None
        }
    }

    /// Parse a dimension token, such as `100`, `40px`, `50vw` or `12.5vh`.
    pub fn from_str(s: &str) -> (r: Result<PixelDim, String>)
        ensures
            r matches Ok(p) ==> Self::spec_parse(s@) == Some(p),
            r is Err ==> Self::spec_parse(s@) is None,
    {
        let n = s.unicode_len();
        let mut ne: usize = 0;
        while ne < n && at_dim_char(s, ne)
            invariant
                n == s@.len(),
                0 <= ne <= n,
                forall|j: int| 0 <= j < ne ==> spec_is_dim_char(#[trigger] s@[j]),
            decreases n - ne,
        {
            ne += 1;
        }
        proof {
            lemma_scan_dim(s@);
            assert(spec_scan_dim(s@) == ne);
        }
        if ne == n {
            // no unit: an integer pixel count
            proof {
                reveal_strlit("px");
                reveal_strlit("vw");
                reveal_strlit("vh");
                assert("px"@[0] == 'p' && "vw"@[0] == 'v' && "vh"@[0] == 'v');
                assert("px"@ != "vw"@);
                assert("px"@ != "vh"@);
            }
            proof {
                assert(s@.take(ne as int) =~= s@.subrange(0, ne as int));
            }
            return match parse_u32_range(s, 0, ne) {
                Some(v) => Ok(PixelDim::Pixels(v)),
                None => Err(String::from_str("invalid quantity")),
            };
        }
        let (a, b) = trimmed_range(s, ne, n);
        proof {
            assert(s@.subrange(ne as int, n as int) =~= s@.skip(ne as int));
            assert(s@.take(ne as int) =~= s@.subrange(0, ne as int));
        }
        let unit = s.substring_char(a, b);
        if str_eq(unit, "vw") {
            match parse_pct_range(s, 0, ne) {
                Some(v) => Ok(PixelDim::WidthPercent(v)),
                None => Err(String::from_str("invalid quantity")),
            }
        } else if str_eq(unit, "vh") {
            match parse_pct_range(s, 0, ne) {
                Some(v) => Ok(PixelDim::HeightPercent(v)),
                None => Err(String::from_str("invalid quantity")),
            }
        } else if str_eq(unit, "px") {
            match parse_u32_range(s, 0, ne) {
                Some(v) => Ok(PixelDim::Pixels(v)),
                None => Err(String::from_str("invalid quantity")),
            }
        } else {
            let mut msg = String::from_str("invalid unit ");
            msg.append(unit);
            Err(msg)
        }
    }
}

/// `pct` hundredths of a percent of `dim`, truncated, saturating at
/// `u32::MAX`.
pub open spec fn spec_pct_of(dim: u32, pct: u32) -> u32 {
    let v = (dim * pct) / (PCT_DENOM as int);
    if v > u32::MAX {
        u32::MAX
    } else {
        v as u32
    }
}

/// Executable twin of [`spec_pct_of`].
pub fn pct_of(dim: u32, pct: u32) -> (r: u32)
    ensures
        r == spec_pct_of(dim, pct),
{
    proof {
        assert((dim as u64) * (pct as u64) <= u64::MAX) by (nonlinear_arith)
            requires
                dim <= u32::MAX,
                pct <= u32::MAX,
        ;
    }
    let v = (dim as u64) * (pct as u64) / (PCT_DENOM as u64);
    if v > u32::MAX as u64 {
        u32::MAX
    } else {
        v as u32
    }
}

impl PixelDim {
    /// The dimension in pixels against an image of the given size, with
    /// percentages resolved against the named axis.
    pub open spec fn spec_resolve(&self, img_w: u32, img_h: u32) -> u32 {
        match *self {
            PixelDim::Pixels(p) => p,
            PixelDim::WidthPercent(pct) => spec_pct_of(img_w, pct),
            PixelDim::HeightPercent(pct) => spec_pct_of(img_h, pct),
        }
    }

    /// Resolve this dimension against an image of the given size.
    pub fn resolve(&self, img_w: u32, img_h: u32) -> (r: u32)
        ensures
            r == self.spec_resolve(img_w, img_h),
    {
        match *self {
            PixelDim::Pixels(p) => p,
            PixelDim::WidthPercent(pct) => pct_of(img_w, pct),
            PixelDim::HeightPercent(pct) => pct_of(img_h, pct),
        }
    }

    /// The width limit this dimension imposes when used as a width bound:
    /// a height percentage imposes none.
    pub open spec fn spec_width_bound(&self, img_w: u32) -> Option<u32> {
        match *self {
            PixelDim::Pixels(p) => Some(p),
            PixelDim::WidthPercent(pct) => Some(spec_pct_of(img_w, pct)),
            PixelDim::HeightPercent(_) => None,
        }
    }

    /// Executable twin of [`PixelDim::spec_width_bound`].
    pub fn width_bound(&self, img_w: u32) -> (r: Option<u32>)
        ensures
            r == self.spec_width_bound(img_w),
    {
        match *self {
            PixelDim::Pixels(p) => Some(p),
            PixelDim::WidthPercent(pct) => Some(pct_of(img_w, pct)),
            PixelDim::HeightPercent(_) => None,
        }
    }

    /// The height limit this dimension imposes when used as a height bound:
    /// a width percentage imposes none.
    pub open spec fn spec_height_bound(&self, img_h: u32) -> Option<u32> {
        match *self {
            PixelDim::Pixels(p) => Some(p),
            PixelDim::HeightPercent(pct) => Some(spec_pct_of(img_h, pct)),
            PixelDim::WidthPercent(_) => None,
        }
    }

    /// Executable twin of [`PixelDim::spec_height_bound`].
    pub fn height_bound(&self, img_h: u32) -> (r: Option<u32>)
        ensures
            r == self.spec_height_bound(img_h),
    {
        match *self {
            PixelDim::Pixels(p) => Some(p),
            PixelDim::HeightPercent(pct) => Some(pct_of(img_h, pct)),
            PixelDim::WidthPercent(_) => None,
        }
    }
}

/// The canonical text of a percentage in hundredths: the integer percent,
/// a dot, and exactly two fractional digits.
pub open spec fn spec_pct_string(pct: u32) -> Seq<char> {
    spec_decimal(pct as int / 100) + "."@ + seq![
        spec_digit_char((pct as int % 100) / 10),
        spec_digit_char(pct as int % 10),
    ]
}

/// Render a percentage stored in hundredths, such as `50.00` or `12.50`.
fn pct_string(pct: u32) -> (r: String)
    ensures
        r@ == spec_pct_string(pct),
{
    let mut s = u64_to_string((pct / 100) as u64);
    s.append(".");
    s.append(digit_str(((pct % 100) / 10) as u64));
    s.append(digit_str((pct % 10) as u64));
    proof {
        assert(spec_decimal(pct as int / 100) + "."@ + seq![
            spec_digit_char((pct as int % 100) / 10),
        ] + seq![spec_digit_char(pct as int % 10)] =~= spec_pct_string(pct));
    }
    s
}

impl PixelDim {
    /// The canonical text of this dimension: a bare pixel count, or a
    /// two-decimal percentage with its `vw`/`vh` unit.
    pub open spec fn spec_to_string(&self) -> Seq<char> {
        match *self {
            PixelDim::Pixels(p) => spec_decimal(p as int),
            PixelDim::WidthPercent(pct) => spec_pct_string(pct) + "vw"@,
            PixelDim::HeightPercent(pct) => spec_pct_string(pct) + "vh"@,
        }
    }

    /// Render this dimension, such as `100`, `50.00vw` or `12.50vh`.
    pub fn to_string(&self) -> (r: String)
        ensures
            r@ == self.spec_to_string(),
    {
        match *self {
            PixelDim::Pixels(p) => u64_to_string(p as u64),
            PixelDim::WidthPercent(pct) => {
                let mut s = pct_string(pct);
                s.append("vw");
                s
            },
            PixelDim::HeightPercent(pct) => {
                let mut s = pct_string(pct);
                s.append("vh");
                s
            },
        }
    }
}

/// Parse an integer pixel token between `lo` and `hi`.
fn parse_u32_range(s: &str, lo: usize, hi: usize) -> (r: Option<u32>)
    requires
        lo <= hi <= s@.len(),
    ensures
        r == spec_parse_u32(s@.subrange(lo as int, hi as int)),
{
    if lo == hi {
        return None;
    }
    match parse_digits_range(s, lo, hi) {
        Some(v) => Some(v as u32),
        None => None,
    }
}

} // verus!
