//! Character-level text helpers: Unicode white space, trimming, single
//! character replacement and decimal rendering of integers.

use vstd::prelude::*;
use vstd::string::*;
use vstd::utf8::*;

verus! {

/// True when `c` carries the Unicode `White_Space` property: the code points
/// U+0009..U+000D, U+0020, U+0085, U+00A0, U+1680, U+2000..U+200A, U+2028,
/// U+2029, U+202F, U+205F and U+3000.
pub open spec fn is_white_space(c: char) -> bool {
    let v = c as u32;
    ||| 0x9 <= v <= 0xd
    ||| v == 0x20
    ||| v == 0x85
    ||| v == 0xa0
    ||| v == 0x1680
    ||| 0x2000 <= v <= 0x200a
    ||| v == 0x2028
    ||| v == 0x2029
    ||| v == 0x202f
    ||| v == 0x205f
    ||| v == 0x3000
}

/// `s` without its leading white space.
pub open spec fn trim_start(s: Seq<char>) -> Seq<char>
    decreases s.len(),
{
    if s.len() > 0 && is_white_space(s[0]) {
        trim_start(s.drop_first())
    } else {
        s
    }
}

/// `s` without its trailing white space.
pub open spec fn trim_end(s: Seq<char>) -> Seq<char>
    decreases s.len(),
{
    if s.len() > 0 && is_white_space(s.last()) {
        trim_end(s.drop_last())
    } else {
        s
    }
}

/// `s` without its leading and trailing white space.
pub open spec fn trimmed(s: Seq<char>) -> Seq<char> {
    trim_end(trim_start(s))
}

proof fn lemma_trim_start_head(s: Seq<char>)
    ensures
        trim_start(s).len() == 0 || !is_white_space(trim_start(s)[0]),
    decreases s.len(),
{
    if s.len() > 0 && is_white_space(s[0]) {
        lemma_trim_start_head(s.drop_first());
    }
}

proof fn lemma_trim_end_prefix(s: Seq<char>)
    ensures
        trim_end(s).len() <= s.len(),
        trim_end(s) == s.subrange(0, trim_end(s).len() as int),
        trim_end(s).len() == 0 || !is_white_space(trim_end(s).last()),
    decreases s.len(),
{
    if s.len() > 0 && is_white_space(s.last()) {
        lemma_trim_end_prefix(s.drop_last());
        let t = trim_end(s.drop_last());
        assert(t =~= s.subrange(0, t.len() as int));
    } else {
        assert(s =~= s.subrange(0, s.len() as int));
    }
}

/// Trimming twice is trimming once.
pub proof fn lemma_trimmed_idempotent(s: Seq<char>)
    ensures
        trimmed(trimmed(s)) == trimmed(s),
{
    let a = trim_start(s);
    let t = trim_end(a);
    lemma_trim_start_head(s);
    lemma_trim_end_prefix(a);
    if t.len() > 0 {
        assert(t[0] == a[0]);
        assert(trim_start(t) == t);
    } else {
        assert(trim_start(t) == t);
    }
    assert(trim_end(t) == t);
}

/// What trimming does, in terms of `s` alone: it keeps a contiguous stretch
/// of `s`, everything removed before and after it is white space, and the
/// stretch kept neither starts nor ends with white space.
pub proof fn lemma_trimmed_is_the_inner_stretch(s: Seq<char>)
    ensures
        exists|i: int, j: int|
            0 <= i <= j <= s.len() && trimmed(s) == s.subrange(i, j) && (forall|k: int|
                0 <= k < i ==> is_white_space(#[trigger] s[k])) && (forall|k: int|
                j <= k < s.len() ==> is_white_space(#[trigger] s[k])),
        trimmed(s).len() > 0 ==> !is_white_space(trimmed(s)[0]) && !is_white_space(
            trimmed(s).last(),
        ),
{
    lemma_trim_start_suffix(s);
    let a = trim_start(s);
    let i = s.len() - a.len();
    lemma_trim_end_prefix(a);
    lemma_trim_end_removed(a);
    lemma_trim_start_head(s);
    let t = trim_end(a);
    let j = i + t.len();
    assert(t =~= s.subrange(i, j));
    assert forall|k: int| j <= k < s.len() implies is_white_space(#[trigger] s[k]) by {
        assert(s[k] == a[k - i]);
    }
    if t.len() > 0 {
        assert(t[0] == a[0]);
    }
}

proof fn lemma_trim_start_suffix(s: Seq<char>)
    ensures
        trim_start(s).len() <= s.len(),
        trim_start(s) == s.subrange(s.len() - trim_start(s).len(), s.len() as int),
        forall|k: int| 0 <= k < s.len() - trim_start(s).len() ==> is_white_space(#[trigger] s[k]),
    decreases s.len(),
{
    if s.len() > 0 && is_white_space(s[0]) {
        lemma_trim_start_suffix(s.drop_first());
        let t = trim_start(s.drop_first());
        assert(t =~= s.subrange(s.len() - t.len(), s.len() as int));
        assert forall|k: int| 0 <= k < s.len() - t.len() implies is_white_space(#[trigger] s[k]) by {
            if k > 0 {
                assert(s[k] == s.drop_first()[k - 1]);
            }
        }
    } else {
        assert(s =~= s.subrange(0, s.len() as int));
    }
}

proof fn lemma_trim_end_removed(s: Seq<char>)
    ensures
        forall|k: int| trim_end(s).len() <= k < s.len() ==> is_white_space(#[trigger] s[k]),
    decreases s.len(),
{
    if s.len() > 0 && is_white_space(s.last()) {
        lemma_trim_end_removed(s.drop_last());
        lemma_trim_end_prefix(s.drop_last());
        assert forall|k: int| trim_end(s).len() <= k < s.len() implies is_white_space(#[trigger] s[k]) by {
            if k < s.len() - 1 {
                assert(s[k] == s.drop_last()[k]);
            }
        }
    }
}

/// Decides whether `c` is Unicode white space.
pub fn is_white_space_char(c: char) -> (b: bool)
    ensures
        b == is_white_space(c),
{
    let v = c as u32;
    (0x9 <= v && v <= 0xd) || v == 0x20 || v == 0x85 || v == 0xa0 || v == 0x1680 || (0x2000
        <= v && v <= 0x200a) || v == 0x2028 || v == 0x2029 || v == 0x202f || v == 0x205f || v
        == 0x3000
}

proof fn lemma_trim_start_step(s: Seq<char>, i: int)
    requires
        0 <= i < s.len(),
        is_white_space(s[i]),
    ensures
        trim_start(s.subrange(i, s.len() as int)) == trim_start(s.subrange(i + 1, s.len() as int)),
{
    assert(s.subrange(i, s.len() as int).drop_first() =~= s.subrange(i + 1, s.len() as int));
}

proof fn lemma_trim_end_step(s: Seq<char>, j: int)
    requires
        0 < j <= s.len(),
        is_white_space(s[j - 1]),
    ensures
        trim_end(s.subrange(0, j)) == trim_end(s.subrange(0, j - 1)),
{
    assert(s.subrange(0, j).drop_last() =~= s.subrange(0, j - 1));
}

/// Decides whether two texts are equal, character for character.
pub fn same_text(a: &str, b: &str) -> (r: bool)
    ensures
        r == (a@ == b@),
{
    String::from_str(a) == String::from_str(b)
}

/// Removes leading and trailing white space, as `str::trim` does.
pub fn trim_white_space(s: &str) -> (t: &str)
    ensures
        t@ == trimmed(s@),
{
    let n = s.unicode_len();
    let mut i: usize = 0;
    assert(s@.subrange(0, n as int) =~= s@);
    while i < n && is_white_space_char(s.get_char(i))
        invariant
            n == s@.len(),
            i <= n,
            trim_start(s@) == trim_start(s@.subrange(i as int, n as int)),
        decreases n - i,
    {
        proof {
            lemma_trim_start_step(s@, i as int);
        }
        i = i + 1;
    }
    let ghost rest = s@.subrange(i as int, n as int);
    assert(trim_start(s@) == rest) by {
        if i < n {
            assert(!is_white_space(rest[0]));
        }
    }
    let mut j: usize = n;
    assert(rest.subrange(0, (n - i) as int) =~= rest);
    while j > i && is_white_space_char(s.get_char(j - 1))
        invariant
            n == s@.len(),
            i <= j <= n,
            rest == s@.subrange(i as int, n as int),
            trim_end(rest) == trim_end(rest.subrange(0, j - i)),
        decreases j - i,
    {
        proof {
            assert(rest[j - i - 1] == s@[j - 1]);
            lemma_trim_end_step(rest, (j - i) as int);
        }
        j = j - 1;
    }
    proof {
        let kept = rest.subrange(0, j - i);
        if j > i {
            assert(kept.last() == s@[j - 1]);
        }
        assert(trim_end(kept) == kept);
        assert(kept =~= s@.subrange(i as int, j as int));
    }
    s.substring_char(i, j)
}

/// Appends `c` to `out`.
///
/// Trusted: calls `String::push`, which std documents as appending the given
/// `char` to the end of the `String`; the contract claims exactly that.
#[verifier::external_body]
pub(crate) fn push_char(out: &mut String, c: char)
    ensures
        final(out)@ == old(out)@.push(c),
{
    out.push(c);
}

/// `s` with every occurrence of `from` replaced by `with`.
pub open spec fn replace_char(s: Seq<char>, from: char, with: Seq<char>) -> Seq<char>
    decreases s.len(),
{
    if s.len() == 0 {
        Seq::empty()
    } else if s.last() == from {
        replace_char(s.drop_last(), from, with) + with
    } else {
        replace_char(s.drop_last(), from, with).push(s.last())
    }
}

/// Replacing a character by a text without it leaves none of it, and a
/// character that is neither the one replaced nor in its replacement does
/// not occur in the result unless it occurs in the original.
pub proof fn lemma_replace_char_removes(s: Seq<char>, from: char, with: Seq<char>, other: char)
    requires
        !with.contains(from),
    ensures
        !replace_char(s, from, with).contains(from),
        other != from && !with.contains(other) && !s.contains(other) ==> !replace_char(
            s,
            from,
            with,
        ).contains(other),
    decreases s.len(),
{
    if s.len() > 0 {
        let p = s.drop_last();
        lemma_replace_char_removes(p, from, with, other);
        let r = replace_char(p, from, with);
        if s.last() == from {
            assert forall|c: char| !r.contains(c) && !with.contains(c) implies !(r + with).contains(
                c,
            ) by {
                if (r + with).contains(c) {
                    let k = choose|k: int| 0 <= k < (r + with).len() && (r + with)[k] == c;
                    if k < r.len() {
                        assert(r[k] == c);
                    } else {
                        assert(with[k - r.len()] == c);
                    }
                }
            }
        } else {
            assert forall|c: char| !r.contains(c) && c != s.last() implies !r.push(s.last()).contains(
                c,
            ) by {
                if r.push(s.last()).contains(c) {
                    let k = choose|k: int| 0 <= k < r.push(s.last()).len() && r.push(s.last())[k] == c;
                    if k < r.len() {
                        assert(r[k] == c);
                    }
                }
            }
            if !s.contains(other) {
                assert(!p.contains(other)) by {
                    if p.contains(other) {
                        let k = choose|k: int| 0 <= k < p.len() && p[k] == other;
                        assert(s[k] == other);
                    }
                }
                assert(s[s.len() - 1] == s.last());
            }
        }
        if !s.contains(other) {
            assert(!p.contains(other)) by {
                if p.contains(other) {
                    let k = choose|k: int| 0 <= k < p.len() && p[k] == other;
                    assert(s[k] == other);
                }
            }
        }
    }
}

/// Appends to `out` the text `s` with every `from` replaced by `with`, as
/// `str::replace` with a `char` pattern does.
pub fn push_replacing(out: &mut String, s: &str, from: char, with: &str)
    ensures
        final(out)@ == old(out)@ + replace_char(s@, from, with@),
{
    let n = s.unicode_len();
    let ghost start = out@;
    assert(s@.subrange(0, 0) =~= Seq::<char>::empty());
    for i in 0..n
        invariant
            n == s@.len(),
            out@ == start + replace_char(s@.subrange(0, i as int), from, with@),
    {
        let c = s.get_char(i);
        let ghost before = out@;
        if c == from {
            out.append(with);
        } else {
            push_char(out, c);
        }
        proof {
            let pre = s@.subrange(0, i as int);
            let next = s@.subrange(0, i + 1);
            assert(next.drop_last() =~= pre);
            assert(next.last() == c);
            assert(out@ =~= start + replace_char(next, from, with@));
        }
    }
    assert(s@.subrange(0, n as int) =~= s@);
}

/// The text `s` with every occurrence of `from` replaced by `with`.
pub fn replace_all(s: &str, from: char, with: &str) -> (r: String)
    ensures
        r@ == replace_char(s@, from, with@),
{
    let mut r = String::new();
    push_replacing(&mut r, s, from, with);
    assert(r@ =~= replace_char(s@, from, with@));
    r
}

/// The decimal digit for `d`, which is below ten.
pub open spec fn digit_char(d: nat) -> char {
    seq!['0', '1', '2', '3', '4', '5', '6', '7', '8', '9'][d as int]
}

/// The decimal representation of `n`: no sign, no leading zero (except for
/// zero itself), as `Display` prints an unsigned integer.
pub open spec fn decimal(n: nat) -> Seq<char>
    decreases n,
{
    if n < 10 {
        seq![digit_char(n)]
    } else {
        decimal(n / 10).push(digit_char(n % 10))
    }
}

/// The number that a sequence of decimal digits denotes.
pub open spec fn digits_value(s: Seq<char>) -> nat
    decreases s.len(),
{
    if s.len() == 0 {
        0
    } else {
        digits_value(s.drop_last()) * 10 + ((s.last() as nat) - 48) as nat
    }
}

proof fn lemma_digit_char(d: nat)
    requires
        d < 10,
    ensures
        digit_char(d) as nat == 48 + d,
{
    if d == 0 {
    } else if d == 1 {
    } else if d == 2 {
    } else if d == 3 {
    } else if d == 4 {
    } else if d == 5 {
    } else if d == 6 {
    } else if d == 7 {
    } else if d == 8 {
    } else {
    }
}

/// The decimal representation reads back as the number: it is made of the
/// digits `0` to `9` only, denotes `n`, and starts with `0` only for zero.
pub proof fn lemma_decimal_denotes(n: nat)
    ensures
        digits_value(decimal(n)) == n,
        forall|i: int| 0 <= i < decimal(n).len() ==> '0' <= #[trigger] decimal(n)[i] <= '9',
        decimal(n).len() > 0,
        decimal(n)[0] == '0' ==> n == 0,
    decreases n,
{
    lemma_digit_char(n % 10);
    if n >= 10 {
        lemma_decimal_denotes(n / 10);
        let p = decimal(n / 10);
        assert(decimal(n).drop_last() =~= p);
        assert(decimal(n).last() == digit_char(n % 10));
        assert((n / 10) * 10 + n % 10 == n) by (nonlinear_arith);
        assert(digits_value(decimal(n)) == digits_value(p) * 10 + ((decimal(n).last() as nat) - 48) as nat);
        assert(digits_value(p) == n / 10);
        assert((decimal(n).last() as nat) == 48 + n % 10);
        assert(decimal(n)[0] == p[0]);
        assert forall|i: int| 0 <= i < decimal(n).len() implies '0' <= #[trigger] decimal(n)[i]
            <= '9' by {
            if i < p.len() {
                assert(decimal(n)[i] == p[i]);
            }
        }
    } else {
        assert(decimal(n).drop_last() =~= Seq::<char>::empty());
        assert(decimal(n).last() == digit_char(n));
        assert(digits_value(decimal(n)) == digits_value(Seq::<char>::empty()) * 10 + ((decimal(n).last() as nat) - 48) as nat);
    }
}

fn digit(d: u64) -> (c: char)
    requires
        d < 10,
    ensures
        c == digit_char(d as nat),
{
    if d == 0 {
        '0'
    } else if d == 1 {
        '1'
    } else if d == 2 {
        '2'
    } else if d == 3 {
        '3'
    } else if d == 4 {
        '4'
    } else if d == 5 {
        '5'
    } else if d == 6 {
        '6'
    } else if d == 7 {
        '7'
    } else if d == 8 {
        '8'
    } else {
        '9'
    }
}

/// Appends the decimal representation of `n` to `out`.
pub fn push_decimal(out: &mut String, n: u64)
    ensures
        final(out)@ == old(out)@ + decimal(n as nat),
    decreases n,
{
    if n >= 10 {
        push_decimal(out, n / 10);
    }
    push_char(out, digit(n % 10));
    assert(out@ =~= old(out)@ + decimal(n as nat)) by {
        if n >= 10 {
            assert(decimal(n as nat) == decimal((n / 10) as nat).push(digit_char((n % 10) as nat)));
        }
    }
}

/// The fractional digits `Debug` prints for a duration: the digits of
/// `frac` read against `divisor` (the place value of the first digit), stopping
/// as soon as the rest is zero, so without trailing zeros.
pub open spec fn fraction_digits(frac: nat, divisor: nat) -> Seq<char>
    decreases divisor,
{
    if frac == 0 || divisor == 0 {
        Seq::empty()
    } else {
        seq![digit_char(frac / divisor)] + fraction_digits(frac % divisor, divisor / 10)
    }
}

/// An integer part, its fraction (a dot and the fractional digits, when
/// there are any) and a unit, as `Duration`'s `Debug` prints them.
pub open spec fn decimal_with_unit(whole: nat, frac: nat, divisor: nat, unit: Seq<char>) -> Seq<char> {
    let digits = fraction_digits(frac, divisor);
    decimal(whole) + (if digits.len() > 0 {
        seq!['.'] + digits
    } else {
        Seq::empty()
    }) + unit
}

/// `Duration`'s `Debug` rendering of `secs` seconds and `nanos` nanoseconds:
/// in seconds when there is a whole second, otherwise in milliseconds,
/// microseconds (`µs`) or nanoseconds, whichever is the largest unit that
/// the duration reaches, with as many fractional digits as needed.
pub open spec fn duration_debug(secs: u64, nanos: u32) -> Seq<char> {
    if secs > 0 {
        decimal_with_unit(secs as nat, nanos as nat, 100_000_000, "s"@)
    } else if nanos >= 1_000_000 {
        decimal_with_unit((nanos / 1_000_000) as nat, (nanos % 1_000_000) as nat, 100_000, "ms"@)
    } else if nanos >= 1_000 {
        decimal_with_unit((nanos / 1_000) as nat, (nanos % 1_000) as nat, 100, "\u{b5}s"@)
    } else {
        decimal_with_unit(nanos as nat, 0, 1, "ns"@)
    }
}

/// True when `d` is one of 1, 10, 100, ...
pub open spec fn power_of_ten(d: nat) -> bool
    decreases d,
{
    if d == 1 {
        true
    } else if d >= 10 && d % 10 == 0 {
        power_of_ten(d / 10)
    } else {
        false
    }
}

/// Whole units print without a fraction: a duration of whole seconds as its
/// seconds and `s`, one under a microsecond as its nanoseconds and `ns`, one
/// of whole milliseconds under a second as its milliseconds and `ms`; the
/// zero duration is `0ns`.
pub proof fn lemma_duration_whole_units(secs: u64, nanos: u32)
    ensures
        secs > 0 && nanos == 0 ==> duration_debug(secs, nanos) == decimal(secs as nat) + "s"@,
        secs == 0 && nanos < 1000 ==> duration_debug(secs, nanos) == decimal(nanos as nat) + "ns"@,
        secs == 0 && nanos > 0 && nanos < 1_000_000_000 && nanos % 1_000_000 == 0
            ==> duration_debug(secs, nanos) == decimal((nanos / 1_000_000) as nat) + "ms"@,
{
    assert(fraction_digits(0, 100_000_000) =~= Seq::<char>::empty());
    assert(fraction_digits(0, 100_000) =~= Seq::<char>::empty());
    assert(fraction_digits(0, 1) =~= Seq::<char>::empty());
    assert(decimal(secs as nat) + Seq::<char>::empty() + "s"@ =~= decimal(secs as nat) + "s"@);
    assert(decimal(nanos as nat) + Seq::<char>::empty() + "ns"@ =~= decimal(nanos as nat) + "ns"@);
    assert(decimal((nanos / 1_000_000) as nat) + Seq::<char>::empty() + "ms"@ =~= decimal(
        (nanos / 1_000_000) as nat,
    ) + "ms"@);
}

fn push_fraction(out: &mut String, frac: u32, divisor: u32)
    requires
        power_of_ten(divisor as nat),
        frac < 10 * divisor,
    ensures
        final(out)@ == old(out)@ + fraction_digits(frac as nat, divisor as nat),
    decreases divisor,
{
    if frac == 0 {
        return;
    }
    let d = frac / divisor;
    let rest = frac % divisor;
    assert(d < 10) by (nonlinear_arith)
        requires
            frac < 10 * divisor,
            divisor > 0,
            d == frac / divisor,
    ;
    push_char(out, digit(d as u64));
    if divisor == 1 {
        assert(rest == 0);
        assert(fraction_digits(rest as nat, 0) =~= Seq::<char>::empty());
    } else {
        assert(rest < 10 * (divisor / 10)) by (nonlinear_arith)
            requires
                divisor % 10 == 0,
                divisor >= 10,
                rest == frac % divisor,
        ;
        push_fraction(out, rest, divisor / 10);
    }
    assert(out@ =~= old(out)@ + fraction_digits(frac as nat, divisor as nat));
}

fn push_decimal_with_unit(out: &mut String, whole: u64, frac: u32, divisor: u32, unit: &str)
    requires
        power_of_ten(divisor as nat),
        frac < 10 * divisor,
    ensures
        final(out)@ == old(out)@ + decimal_with_unit(whole as nat, frac as nat, divisor as nat, unit@),
{
    push_decimal(out, whole);
    let mut digits = String::new();
    push_fraction(&mut digits, frac, divisor);
    if digits.unicode_len() > 0 {
        push_char(out, '.');
        out.append(digits.as_str());
    }
    out.append(unit);
    assert(out@ =~= old(out)@ + decimal_with_unit(whole as nat, frac as nat, divisor as nat, unit@));
}

/// Appends the `Debug` rendering of a duration of `secs` seconds and `nanos`
/// nanoseconds (below one second) to `out`.
pub fn push_duration_debug(out: &mut String, secs: u64, nanos: u32)
    requires
        nanos < 1_000_000_000,
    ensures
        final(out)@ == old(out)@ + duration_debug(secs, nanos),
{
    assert(power_of_ten(100_000_000)) by {
        reveal_with_fuel(power_of_ten, 9);
    }
    assert(power_of_ten(100_000)) by {
        reveal_with_fuel(power_of_ten, 6);
    }
    assert(power_of_ten(100)) by {
        reveal_with_fuel(power_of_ten, 3);
    }
    assert(power_of_ten(1));
    if secs > 0 {
        push_decimal_with_unit(out, secs, nanos, 100_000_000, "s");
    } else if nanos >= 1_000_000 {
        push_decimal_with_unit(out, (nanos / 1_000_000) as u64, nanos % 1_000_000, 100_000, "ms");
    } else if nanos >= 1_000 {
        push_decimal_with_unit(out, (nanos / 1_000) as u64, nanos % 1_000, 100, "\u{b5}s");
    } else {
        push_decimal_with_unit(out, nanos as u64, 0, 1, "ns");
    }
}

proof fn lemma_encode_utf8_push(a: Seq<char>, c: char)
    ensures
        encode_utf8(a.push(c)) == encode_utf8(a) + encode_scalar(c as u32),
    decreases a.len(),
{
    if a.len() == 0 {
        assert(a.push(c).drop_first() =~= Seq::<char>::empty());
        assert(a.push(c)[0] == c);
        assert(encode_utf8(Seq::<char>::empty()) =~= Seq::<u8>::empty());
        assert(encode_utf8(a) =~= Seq::<u8>::empty());
        assert(encode_utf8(a.push(c)) == encode_scalar(c as u32) + encode_utf8(Seq::<char>::empty()));
        assert(encode_utf8(a.push(c)) =~= encode_utf8(a) + encode_scalar(c as u32));
    } else {
        lemma_encode_utf8_push(a.drop_first(), c);
        assert(a.push(c).drop_first() =~= a.drop_first().push(c));
        assert(a.push(c)[0] == a[0]);
        let h = encode_scalar(a[0] as u32);
        assert(encode_utf8(a.push(c)) == h + encode_utf8(a.drop_first().push(c)));
        assert(encode_utf8(a) == h + encode_utf8(a.drop_first()));
        assert(encode_utf8(a.push(c)) =~= encode_utf8(a) + encode_scalar(c as u32));
    }
}

fn utf8_width(c: char) -> (w: usize)
    ensures
        w == encode_scalar(c as u32).len(),
{
    let v = c as u32;
    if v <= 0x7f {
        1
    } else if v <= 0x7ff {
        2
    } else if v <= 0xffff && !(0xd800 <= v && v <= 0xdfff) {
        3
    } else {
        4
    }
}

/// Decides whether the UTF-8 encoding of `s` (what `str::len` counts) is at
/// least `k` bytes long.
pub fn utf8_len_at_least(s: &str, k: usize) -> (b: bool)
    ensures
        b == (encode_utf8(s@).len() >= k),
{
    if k == 0 {
        return true;
    }
    let n = s.unicode_len();
    let mut remaining: usize = k;
    let mut i: usize = 0;
    assert(s@.subrange(0, 0) =~= Seq::<char>::empty());
    while i < n
        invariant
            n == s@.len(),
            i <= n,
            0 < remaining <= k,
            encode_utf8(s@.subrange(0, i as int)).len() + remaining == k,
        decreases n - i,
    {
        let c = s.get_char(i);
        proof {
            assert(s@.subrange(0, i + 1) =~= s@.subrange(0, i as int).push(c));
            lemma_encode_utf8_push(s@.subrange(0, i as int), c);
        }
        let w = utf8_width(c);
        i = i + 1;
        if w >= remaining {
            proof {
                lemma_encode_utf8_prefix(s@, i as int);
            }
            return true;
        }
        remaining = remaining - w;
    }
    assert(s@.subrange(0, n as int) =~= s@);
    false
}

proof fn lemma_encode_utf8_prefix(s: Seq<char>, i: int)
    requires
        0 <= i <= s.len(),
    ensures
        encode_utf8(s.subrange(0, i)).len() <= encode_utf8(s).len(),
    decreases s.len() - i,
{
    if i < s.len() {
        lemma_encode_utf8_prefix(s, i + 1);
        assert(s.subrange(0, i + 1) =~= s.subrange(0, i).push(s[i]));
        lemma_encode_utf8_push(s.subrange(0, i), s[i]);
    } else {
        assert(s.subrange(0, i) =~= s);
    }
}

} // verus!
