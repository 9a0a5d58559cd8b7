//! The `Range` request header of a download: one byte range of the file.
use vstd::prelude::*;

use crate::server::AppError;

verus! {

/// A byte that a header value may hold when read as text: visible ASCII or a tab.
pub open spec fn visible_ascii(b: u8) -> bool {
    (32 <= b && b < 127) || b == 9
}

/// Every byte of the header value is visible ASCII or a tab.
pub open spec fn all_visible(h: Seq<u8>) -> bool {
    forall|i: int| 0 <= i < h.len() ==> visible_ascii(#[trigger] h[i])
}

/// Space or tab: the only white space a visible-ASCII header value can hold.
pub open spec fn is_blank(b: u8) -> bool {
    b == 32 || b == 9
}

pub open spec fn trim_start_blank(s: Seq<u8>) -> Seq<u8>
    decreases s.len(),
{
    if s.len() > 0 && is_blank(s[0]) {
        trim_start_blank(s.drop_first())
    } else {
        s
    }
}

pub open spec fn trim_end_blank(s: Seq<u8>) -> Seq<u8>
    decreases s.len(),
{
    if s.len() > 0 && is_blank(s.last()) {
        trim_end_blank(s.drop_last())
    } else {
        s
    }
}

/// The value without leading and trailing white space.
pub open spec fn trim_blank(s: Seq<u8>) -> Seq<u8> {
    trim_end_blank(trim_start_blank(s))
}

/// The unit prefix `bytes=`.
pub open spec fn range_unit() -> Seq<u8> {
    seq![98u8, 121u8, 116u8, 101u8, 115u8, 61u8]
}

pub open spec fn has_byte(s: Seq<u8>, c: u8) -> bool {
    exists|i: int| 0 <= i < s.len() && s[i] == c
}

/// Index of the first `c` in `s`, or `s.len()` when there is none.
pub open spec fn first_index(s: Seq<u8>, c: u8) -> nat
    decreases s.len(),
{
    if s.len() == 0 {
        0
    } else if s[0] == c {
        0
    } else {
        1 + first_index(s.drop_first(), c)
    }
}

pub open spec fn is_digit(b: u8) -> bool {
    48 <= b && b <= 57
}

/// The number that a sequence of decimal digits denotes.
pub open spec fn digits_value(d: Seq<u8>) -> nat
    decreases d.len(),
{
    if d.len() == 0 {
        0
    } else {
        digits_value(d.drop_last()) * 10 + (d.last() - 48) as nat
    }
}

/// The digits of an unsigned number: the text without one leading `+`.
pub open spec fn unsigned_digits(s: Seq<u8>) -> Seq<u8> {
    if s.len() > 0 && s[0] == 43 {
        s.drop_first()
    } else {
        s
    }
}

/// The `u64` that a text denotes, as `str::parse::<u64>` reads it: an optional `+`, then
/// at least one decimal digit and nothing else, with a value that fits.
pub open spec fn parse_u64(s: Seq<u8>) -> Option<u64> {
    let d = unsigned_digits(s);
    if d.len() > 0 && (forall|i: int| 0 <= i < d.len() ==> is_digit(#[trigger] d[i]))
        && digits_value(d) <= u64::MAX {
        Some(digits_value(d) as u64)
    } else {
        None
    }
}

/// The last byte of the file, or the end given, whichever is smaller.
pub open spec fn clamp_end(x: u64, size: u64) -> u64 {
    if x < size - 1 {
        x
    } else {
        (size - 1) as u64
    }
}

/// The range `start-end` with a non-empty start: `None` when it cannot be served.
pub open spec fn bounded_range(a: Seq<u8>, b: Seq<u8>, size: u64) -> Option<(u64, u64)> {
    match parse_u64(a) {
        None => None,
        Some(start) => if start >= size {
            None
        } else {
            let end: Option<u64> = if b.len() == 0 {
                Some((size - 1) as u64)
            } else {
                match parse_u64(b) {
                    Some(x) => Some(clamp_end(x, size)),
                    None => None,
                }
            };
            match end {
                None => None,
                Some(e) => if e < start {
                    None
                } else {
                    Some((start, e))
                },
            }
        },
    }
}

/// The suffix range `-n`: the last `n` bytes (all of them when the file is shorter).
pub open spec fn suffix_range(b: Seq<u8>, size: u64) -> Option<(u64, u64)> {
    match parse_u64(b) {
        None => None,
        Some(n) => if n == 0 {
            None
        } else {
            Some(
                (
                    if n >= size {
                        0u64
                    } else {
                        (size - n) as u64
                    },
                    (size - 1) as u64,
                ),
            )
        },
    }
}

/// The inclusive byte range that a present `Range` header asks of a file of `size` bytes,
/// or `None` when the request cannot be satisfied: an empty file, a value that is not
/// visible ASCII, a unit other than `bytes`, several ranges, a missing `-`, an unreadable or
/// zero suffix length, a start beyond the file, or an end before the start.
pub open spec fn requested_range(h: Seq<u8>, size: u64) -> Option<(u64, u64)> {
    if size == 0 || !all_visible(h) {
        None
    } else {
        let v = trim_blank(h);
        if !(range_unit().len() <= v.len() && v.subrange(0, 6) == range_unit()) {
            None
        } else {
            range_spec_body(v.skip(6), size)
        }
    }
}

/// The range that the text after `bytes=` asks for: exactly one `start-end` or `-suffix`.
pub open spec fn range_spec_body(r: Seq<u8>, size: u64) -> Option<(u64, u64)> {
    if has_byte(r, 44) {
        None
    } else {
        let k = first_index(r, 45);
        if k >= r.len() {
            None
        } else {
            let a = r.take(k as int);
            let b = r.skip((k + 1) as int);
            if a.len() == 0 {
                suffix_range(b, size)
            } else {
                bounded_range(a, b, size)
            }
        }
    }
}

proof fn lemma_first_index(s: Seq<u8>, c: u8, k: int)
    requires
        0 <= k <= s.len(),
        forall|t: int| 0 <= t < k ==> s[t] != c,
        k == s.len() || s[k] == c,
    ensures
        first_index(s, c) == k,
    decreases k,
{
    if k > 0 {
        lemma_first_index(s.drop_first(), c, k - 1);
    }
}

proof fn lemma_trim_start(s: Seq<u8>, a: int)
    requires
        0 <= a <= s.len(),
        forall|t: int| 0 <= t < a ==> is_blank(#[trigger] s[t]),
        a == s.len() || !is_blank(s[a]),
    ensures
        trim_start_blank(s) == s.skip(a),
    decreases a,
{
    if a == 0 {
        assert(s.skip(0) =~= s);
    } else {
        assert(forall|t: int| 0 <= t < a - 1 ==> s.drop_first()[t] == s[t + 1]);
        lemma_trim_start(s.drop_first(), a - 1);
        assert(s.drop_first().skip(a - 1) =~= s.skip(a));
    }
}

proof fn lemma_trim_end(s: Seq<u8>, e: int)
    requires
        0 <= e <= s.len(),
        forall|t: int| e <= t < s.len() ==> is_blank(#[trigger] s[t]),
        e == 0 || !is_blank(s[e - 1]),
    ensures
        trim_end_blank(s) == s.take(e),
    decreases s.len() - e,
{
    if e == s.len() {
        assert(s.take(e) =~= s);
    } else {
        lemma_trim_end(s.drop_last(), e);
        assert(s.drop_last().take(e) =~= s.take(e));
    }
}

/// The `u64` written in `h[lo..hi]`, as `str::parse::<u64>` reads it.
fn parse_u64_at(h: &[u8], lo: usize, hi: usize) -> (res: Option<u64>)
    requires
        lo <= hi <= h@.len(),
    ensures
        res == parse_u64(h@.subrange(lo as int, hi as int)),
{
    let ghost s = h@.subrange(lo as int, hi as int);
    let start = if lo < hi && h[lo] == 43 {
        lo + 1
    } else {
        lo
    };
    let ghost d = h@.subrange(start as int, hi as int);
    assert(unsigned_digits(s) =~= d);
    if start == hi {
        return None;
    }
    let mut acc: u64 = 0;
    let mut over = false;
    let mut i: usize = start;
    assert(h@.subrange(start as int, start as int) =~= Seq::<u8>::empty());
    while i < hi
        invariant
            lo <= start <= i <= hi <= h@.len(),
            d == h@.subrange(start as int, hi as int),
            s == h@.subrange(lo as int, hi as int),
            unsigned_digits(s) == d,
            forall|t: int| start <= t < i ==> is_digit(#[trigger] h@[t]),
            !over ==> acc == digits_value(h@.subrange(start as int, i as int)),
            over ==> digits_value(h@.subrange(start as int, i as int)) > u64::MAX,
        decreases hi - i,
    {
        let b = h[i];
        if b < 48 || b > 57 {
            assert(d[i - start] == b);
            assert(!is_digit(d[i - start]));
            return None;
        }
        let ghost prev = h@.subrange(start as int, i as int);
        assert(h@.subrange(start as int, i + 1).drop_last() =~= prev);
        assert(h@.subrange(start as int, i + 1).last() == b);
        let digit: u64 = (b - 48) as u64;
        if !over {
            if acc > (u64::MAX - digit) / 10 {
                over = true;
            } else {
                acc = acc * 10 + digit;
            }
        }
        i = i + 1;
    }
    assert(h@.subrange(start as int, hi as int) == d);
    assert forall|t: int| 0 <= t < d.len() implies is_digit(#[trigger] d[t]) by {
        assert(d[t] == h@[start + t]);
    }
    if over {
        None
    } else {
        Some(acc)
    }
}

/// Whether every byte is visible ASCII or a tab.
fn all_visible_exec(h: &[u8]) -> (res: bool)
    ensures
        res == all_visible(h@),
{
    let mut i: usize = 0;
    while i < h.len()
        invariant
            i <= h@.len(),
            forall|t: int| 0 <= t < i ==> visible_ascii(#[trigger] h@[t]),
        decreases h.len() - i,
    {
        let b = h[i];
        if !((32 <= b && b < 127) || b == 9) {
            assert(!visible_ascii(h@[i as int]));
            return false;
        }
        i = i + 1;
    }
    true
}

/// The bounds of the value without leading and trailing spaces and tabs.
fn trim_bounds(h: &[u8]) -> (res: (usize, usize))
    ensures
        res.0 <= res.1 <= h@.len(),
        trim_blank(h@) == h@.subrange(res.0 as int, res.1 as int),
{
    let mut lo: usize = 0;
    while lo < h.len() && (h[lo] == 32 || h[lo] == 9)
        invariant
            lo <= h@.len(),
            forall|t: int| 0 <= t < lo ==> is_blank(#[trigger] h@[t]),
        decreases h.len() - lo,
    {
        lo = lo + 1;
    }
    let mut hi: usize = h.len();
    while hi > lo && (h[hi - 1] == 32 || h[hi - 1] == 9)
        invariant
            lo <= hi <= h@.len(),
            forall|t: int| hi <= t < h@.len() ==> is_blank(#[trigger] h@[t]),
        decreases hi - lo,
    {
        hi = hi - 1;
    }
    proof {
        lemma_trim_start(h@, lo as int);
        let st = h@.skip(lo as int);
        assert forall|t: int| hi - lo <= t < st.len() implies is_blank(#[trigger] st[t]) by {
            assert(st[t] == h@[lo + t]);
        }
        if hi > lo {
            assert(st[hi - lo - 1] == h@[hi - 1]);
        }
        lemma_trim_end(st, hi - lo);
        assert(st.take(hi - lo) =~= h@.subrange(lo as int, hi as int));
    }
    (lo, hi)
}

/// Whether `h[from..to]` holds the byte `c`.
fn has_byte_in(h: &[u8], from: usize, to: usize, c: u8) -> (res: bool)
    requires
        from <= to <= h@.len(),
    ensures
        res == has_byte(h@.subrange(from as int, to as int), c),
{
    let ghost r = h@.subrange(from as int, to as int);
    let mut j: usize = from;
    while j < to
        invariant
            from <= j <= to <= h@.len(),
            r == h@.subrange(from as int, to as int),
            forall|t: int| from <= t < j ==> h@[t] != c,
        decreases to - j,
    {
        if h[j] == c {
            assert(r[j - from] == c);
            return true;
        }
        j = j + 1;
    }
    assert forall|t: int| 0 <= t < r.len() implies r[t] != c by {
        assert(r[t] == h@[from + t]);
    }
    false
}

/// Index of the first `c` in `h[from..to]`, counted from the start of `h`; `to` when none.
fn first_index_in(h: &[u8], from: usize, to: usize, c: u8) -> (res: usize)
    requires
        from <= to <= h@.len(),
    ensures
        from <= res <= to,
        res - from == first_index(h@.subrange(from as int, to as int), c),
{
    let ghost r = h@.subrange(from as int, to as int);
    let mut k: usize = from;
    while k < to && h[k] != c
        invariant
            from <= k <= to <= h@.len(),
            forall|t: int| from <= t < k ==> h@[t] != c,
        decreases to - k,
    {
        k = k + 1;
    }
    proof {
        assert forall|t: int| 0 <= t < k - from implies r[t] != c by {
            assert(r[t] == h@[from + t]);
        }
        if k < to {
            assert(r[k - from] == h@[k as int]);
        }
        lemma_first_index(r, c, k - from);
    }
    k
}

/// The range that `h[rs..hi]`, the text after `bytes=`, asks of a non-empty file.
fn range_body(h: &[u8], rs: usize, hi: usize, file_size: u64) -> (res: Option<(u64, u64)>)
    requires
        rs <= hi <= h@.len(),
        file_size > 0,
    ensures
        res == range_spec_body(h@.subrange(rs as int, hi as int), file_size),
{
    let ghost r = h@.subrange(rs as int, hi as int);
    if has_byte_in(h, rs, hi, 44) {
        return None;
    }
    let k = first_index_in(h, rs, hi, 45);
    if k == hi {
        return None;
    }
    assert(r.take(k - rs) =~= h@.subrange(rs as int, k as int));
    assert(r.skip(k - rs + 1) =~= h@.subrange(k + 1, hi as int));
    if k == rs {
        let suffix_length = match parse_u64_at(h, k + 1, hi) {
            Some(n) => n,
            None => {
                return None;
            },
        };
        if suffix_length == 0 {
            return None;
        }
        let start = if suffix_length >= file_size {
            0
        } else {
            file_size - suffix_length
        };
        return Some((start, file_size - 1));
    }
    let start = match parse_u64_at(h, rs, k) {
        Some(s) => s,
        None => {
            return None;
        },
    };
    if start >= file_size {
        return None;
    }
    let end = if k + 1 == hi {
        assert(h@.subrange(k + 1, hi as int).len() == 0);
        file_size - 1
    } else {
        match parse_u64_at(h, k + 1, hi) {
            Some(x) => if x < file_size - 1 {
                x
            } else {
                file_size - 1
            },
            None => {
                return None;
            },
        }
    };
    if end < start {
        return None;
    }
    Some((start, end))
}

/// The range that a present header value asks of a file of `file_size` bytes.
fn requested_range_exec(h: &[u8], file_size: u64) -> (res: Option<(u64, u64)>)
    ensures
        res == requested_range(h@, file_size),
{
    if file_size == 0 || !all_visible_exec(h) {
        return None;
    }
    let (lo, hi) = trim_bounds(h);
    let ghost v = h@.subrange(lo as int, hi as int);
    if hi - lo < 6 || h[lo] != 98 || h[lo + 1] != 121 || h[lo + 2] != 116 || h[lo + 3] != 101
        || h[lo + 4] != 115 || h[lo + 5] != 61 {
        proof {
            if range_unit().len() <= v.len() && v.subrange(0, 6) == range_unit() {
                assert(v.subrange(0, 6)[0] == h@[lo as int]);
                assert(v.subrange(0, 6)[1] == h@[lo + 1]);
                assert(v.subrange(0, 6)[2] == h@[lo + 2]);
                assert(v.subrange(0, 6)[3] == h@[lo + 3]);
                assert(v.subrange(0, 6)[4] == h@[lo + 4]);
                assert(v.subrange(0, 6)[5] == h@[lo + 5]);
            }
        }
        return None;
    }
    assert(v.subrange(0, 6) =~= range_unit());
    assert(v.skip(6) =~= h@.subrange(lo + 6, hi as int));
    range_body(h, lo + 6, hi, file_size)
}

/// Reads the `Range` header of a download of a file of `file_size` bytes. No header means
/// the whole file (`Ok(None)`); a satisfiable header gives the inclusive byte range;
/// anything else is the "range not satisfiable" error for that size.
pub fn parse_range_header(zh: bool, header: Option<&[u8]>, file_size: u64) -> (res: Result<
    Option<(u64, u64)>,
    AppError,
>)
    ensures
        header is None ==> res == Ok::<Option<(u64, u64)>, AppError>(None),
        header matches Some(h) ==> (res is Ok <==> requested_range(h@, file_size) is Some),
        header matches Some(h) ==> (res matches Ok(r) ==> r == requested_range(h@, file_size)),
        res matches Err(e) ==> e.is_range_error(zh, file_size),
{
    match header {
        None => Ok(None),
        Some(h) => match requested_range_exec(h, file_size) {
            Some(r) => Ok(Some(r)),
            None => Err(AppError::range_not_satisfiable(zh, file_size)),
        },
    }
}

/// A range that is served lies inside the file and is not empty.
pub proof fn range_lies_inside_file(h: Seq<u8>, size: u64)
    requires
        requested_range(h, size) is Some,
    ensures
        ({
            let (start, end) = requested_range(h, size)->0;
            start <= end && end < size
        }),
{
}

/// The decimal notation of a number as ASCII bytes, as a client writes it in a header.
pub open spec fn decimal_bytes(n: nat) -> Seq<u8>
    decreases n,
{
    if n < 10 {
        seq![(48 + n) as u8]
    } else {
        decimal_bytes(n / 10).push((48 + n % 10) as u8)
    }
}

/// The header value `bytes=first-last`.
pub open spec fn range_header(first: Seq<u8>, last: Seq<u8>) -> Seq<u8> {
    range_unit() + first + seq![45u8] + last
}

proof fn lemma_decimal_bytes(n: nat)
    ensures
        decimal_bytes(n).len() > 0,
        forall|i: int| 0 <= i < decimal_bytes(n).len() ==> is_digit(#[trigger] decimal_bytes(n)[i]),
        digits_value(decimal_bytes(n)) == n,
    decreases n,
{
    if n >= 10 {
        lemma_decimal_bytes(n / 10);
        let d = decimal_bytes(n);
        assert(d.drop_last() =~= decimal_bytes(n / 10));
        assert(n % 10 < 10);
        assert(d.last() == 48 + n % 10);
        assert(digits_value(d) == digits_value(decimal_bytes(n / 10)) * 10 + n % 10);
        assert((n / 10) * 10 + n % 10 == n) by (nonlinear_arith);
    } else {
        let d = decimal_bytes(n);
        assert(d.drop_last() =~= Seq::<u8>::empty());
        assert(digits_value(Seq::<u8>::empty()) == 0);
        assert(d.last() == 48 + n);
        assert(digits_value(d) == digits_value(d.drop_last()) * 10 + n);
    }
}

proof fn lemma_parse_decimal(n: u64)
    ensures
        parse_u64(decimal_bytes(n as nat)) == Some(n),
{
    let d = decimal_bytes(n as nat);
    lemma_decimal_bytes(n as nat);
    assert(is_digit(d[0]));
    assert(unsigned_digits(d) == d);
}

proof fn lemma_header_parts(first: Seq<u8>, last: Seq<u8>, size: u64)
    requires
        size > 0,
        forall|i: int| 0 <= i < first.len() ==> is_digit(#[trigger] first[i]),
        forall|i: int| 0 <= i < last.len() ==> is_digit(#[trigger] last[i]),
    ensures
        ({
            let r = first + seq![45u8] + last;
            &&& requested_range(range_header(first, last), size) == range_spec_body(r, size)
            &&& !has_byte(r, 44)
            &&& first_index(r, 45) == first.len()
            &&& r.take(first.len() as int) == first
            &&& r.skip((first.len() + 1) as int) == last
        }),
{
    let h = range_header(first, last);
    let r = first + seq![45u8] + last;
    assert forall|i: int| 0 <= i < h.len() implies visible_ascii(#[trigger] h[i]) by {
        if i >= 6 + first.len() + 1 {
            assert(h[i] == last[i - 7 - first.len()]);
        } else if i >= 6 && i < 6 + first.len() {
            assert(h[i] == first[i - 6]);
        }
    }
    lemma_trim_start(h, 0);
    assert(h.skip(0) =~= h);
    let t = trim_start_blank(h);
    assert(!is_blank(h[h.len() - 1])) by {
        if last.len() > 0 {
            assert(h[h.len() - 1] == last[last.len() - 1]);
        }
    }
    lemma_trim_end(h, h.len() as int);
    assert(h.take(h.len() as int) =~= h);
    assert(trim_blank(h) == h);
    assert(h.subrange(0, 6) =~= range_unit());
    assert(h.skip(6) =~= r);
    assert(!has_byte(r, 44)) by {
        if has_byte(r, 44) {
            let i = choose|i: int| 0 <= i < r.len() && r[i] == 44;
            if i < first.len() {
                assert(r[i] == first[i]);
            } else if i > first.len() {
                assert(r[i] == last[i - first.len() - 1]);
            }
        }
    }
    assert forall|t: int| 0 <= t < first.len() implies r[t] != 45 by {
        assert(r[t] == first[t]);
    }
    lemma_first_index(r, 45, first.len() as int);
    assert(r.take(first.len() as int) =~= first);
    assert(r.skip((first.len() + 1) as int) =~= last);
}

/// The ranges clients write are served as asked, clipped to the file: `bytes=s-e` gives
/// `s` to `e` (the last byte when `e` lies beyond it) for a start inside the file and an end
/// not before the start; `bytes=s-` gives everything from `s`; `bytes=-n` gives the last `n`
/// bytes (the whole file when it is shorter) for `n > 0`. Every other such header is refused.
pub proof fn written_ranges_are_served_as_asked(start: u64, end: u64, n: u64, size: u64)
    requires
        size > 0,
    ensures
        requested_range(range_header(decimal_bytes(start as nat), decimal_bytes(end as nat)), size)
            == (if start < size && start <= end {
            Some((start, clamp_end(end, size)))
        } else {
            None
        }),
        requested_range(range_header(decimal_bytes(start as nat), Seq::empty()), size) == (if start
            < size {
            Some((start, (size - 1) as u64))
        } else {
            None
        }),
        requested_range(range_header(Seq::empty(), decimal_bytes(n as nat)), size) == (if n > 0 {
            Some(
                (
                    if n >= size {
                        0u64
                    } else {
                        (size - n) as u64
                    },
                    (size - 1) as u64,
                ),
            )
        } else {
            None
        }),
{
    let s = decimal_bytes(start as nat);
    let e = decimal_bytes(end as nat);
    let m = decimal_bytes(n as nat);
    lemma_decimal_bytes(start as nat);
    lemma_decimal_bytes(end as nat);
    lemma_decimal_bytes(n as nat);
    lemma_parse_decimal(start);
    lemma_parse_decimal(end);
    lemma_parse_decimal(n);
    lemma_header_parts(s, e, size);
    lemma_header_parts(s, Seq::empty(), size);
    lemma_header_parts(Seq::empty(), m, size);
}

} // verus!
