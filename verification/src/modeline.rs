//! Mode lines of X displays.
//!
//! The pixel clock of a mode line is a product of the sizes, the rate and a factor of 1.2, taken
//! step by step in double precision and printed with two decimals. It is computed here in
//! integers: every step is rounded to 53 significant bits, halves to even, as a double would be.
use crate::text::{decimal, decimal_u128, decimal_u32, digit, digit_char};
use vstd::prelude::*;
use vstd::string::*;

verus! {

/// Two to the power of `e`.
pub open spec fn two_to(e: nat) -> nat
    decreases e,
{
    if e == 0 {
        1
    } else {
        2 * two_to((e - 1) as nat)
    }
}

/// `n / d` as a whole number: the nearest one, and of two that are equally near the even one.
pub open spec fn nearest(n: nat, d: nat) -> nat {
    let q = n / d;
    let twice = 2 * (n % d);
    if twice < d || (twice == d && q % 2 == 0) {
        q
    } else {
        q + 1
    }
}

/// Whether `n / d` has its leading bit, counted from 0, at place `52 + s`.
pub open spec fn leads(n: nat, d: nat, s: nat) -> bool {
    d * two_to(52 + s) <= n < d * two_to(53 + s)
}

/// The double nearest to `n / d`: 53 significant bits are kept.
pub open spec fn to_double(n: nat, d: nat) -> nat {
    if n == 0 {
        0
    } else {
        let s = choose|s: nat| leads(n, d, s);
        nearest(n, d * two_to(s)) * two_to(s)
    }
}

/// What 1 is in the unit in which doubles are counted: small enough for all bits of the doubles
/// that a pixel clock goes through.
pub open spec fn unit() -> nat {
    two_to(200)
}

/// The double nearest to 1.2 is this over two to the power of 52.
pub const ONE_POINT_TWO: u64 = 5_404_319_552_844_595;

/// The pixel clock in MHz, a double counted in units: the product of the sizes and the rate,
/// divided by a million and multiplied by 1.2, each step rounded to a double.
pub open spec fn pixel_clock(width: u32, height: u32, refresh: u32) -> nat {
    let area = to_double(width as nat * height as nat * unit(), 1);
    let pixels = to_double(area * refresh as nat, 1);
    let millions = to_double(pixels, 1_000_000);
    to_double(millions * (ONE_POINT_TWO as nat), two_to(52))
}

/// A number of hundredths with two decimals.
pub open spec fn two_decimals(hundredths: nat) -> Seq<char> {
    decimal(hundredths / 100) + "."@ + seq![
        digit_char((hundredths / 10 % 10) as int),
        digit_char((hundredths % 10) as int),
    ]
}

/// The pixel clock in MHz with two decimals.
pub open spec fn clock_text(width: u32, height: u32, refresh: u32) -> Seq<char> {
    two_decimals(nearest(pixel_clock(width, height, refresh) * 100, unit()))
}

/// The numbers of a mode line: the clock; where the picture, the sync pulse and the line end
/// across; and the same down.
pub open spec fn modeline_of(width: u32, height: u32, refresh: u32) -> Seq<char> {
    clock_text(width, height, refresh) + " "@ + decimal(width as nat) + " "@ + decimal(
        (width + 48) as nat,
    ) + " "@ + decimal((width + 80) as nat) + " "@ + decimal((width + 160) as nat) + " "@ + decimal(
        height as nat,
    ) + " "@ + decimal((height + 3) as nat) + " "@ + decimal((height + 8) as nat) + " "@ + decimal(
        (height + 33) as nat,
    ) + " +hsync +vsync"@
}

// ---------------------------------------------------------------------------
// Powers of two and rounding
// ---------------------------------------------------------------------------

proof fn lemma_two_positive(e: nat)
    ensures
        two_to(e) >= 1,
    decreases e,
{
    if e > 0 {
        lemma_two_positive((e - 1) as nat);
    }
}

proof fn lemma_two_adds(a: nat, b: nat)
    ensures
        two_to(a + b) == two_to(a) * two_to(b),
    decreases a,
{
    if a == 0 {
        assert(two_to(0) * two_to(b) == two_to(b)) by (nonlinear_arith)
            requires
                two_to(0) == 1,
        ;
    } else {
        lemma_two_adds((a - 1) as nat, b);
        let x = two_to((a - 1) as nat);
        let y = two_to(b);
        assert(2 * (x * y) == (2 * x) * y) by (nonlinear_arith);
    }
}

proof fn lemma_two_grows(a: nat, b: nat)
    requires
        a <= b,
    ensures
        two_to(a) <= two_to(b),
    decreases b - a,
{
    if a < b {
        lemma_two_grows(a, (b - 1) as nat);
    }
}

/// A quotient leads at one place only.
proof fn lemma_leads_once(n: nat, d: nat, s: nat, t: nat)
    requires
        leads(n, d, s),
        leads(n, d, t),
    ensures
        s == t,
{
    if s < t {
        lemma_two_grows(53 + s, 52 + t);
        assert(d * two_to(53 + s) <= d * two_to(52 + t)) by (nonlinear_arith)
            requires
                two_to(53 + s) <= two_to(52 + t),
        ;
    } else if t < s {
        lemma_two_grows(53 + t, 52 + s);
        assert(d * two_to(53 + t) <= d * two_to(52 + s)) by (nonlinear_arith)
            requires
                two_to(53 + t) <= two_to(52 + s),
        ;
    }
}

/// What rounding does, once the leading place is known.
proof fn lemma_to_double(n: nat, d: nat, s: nat)
    requires
        n > 0,
        leads(n, d, s),
    ensures
        to_double(n, d) == nearest(n, d * two_to(s)) * two_to(s),
{
    let t = choose|t: nat| leads(n, d, t);
    lemma_leads_once(n, d, s, t);
}

/// A common factor does not change the nearest whole number.
proof fn lemma_nearest_scales(n: nat, d: nat, c: nat)
    requires
        d > 0,
        c > 0,
    ensures
        d * c > 0,
        nearest(n * c, d * c) == nearest(n, d),
{
    let q = n / d;
    let r = n % d;
    vstd::arithmetic::div_mod::lemma_fundamental_div_mod(n as int, d as int);
    assert(d * c > 0) by (nonlinear_arith)
        requires
            d > 0,
            c > 0,
    ;
    assert(n * c == q * (d * c) + r * c) by (nonlinear_arith)
        requires
            n == d * q + r,
    ;
    assert(0 <= r * c < d * c) by (nonlinear_arith)
        requires
            0 <= r < d,
            c > 0,
    ;
    vstd::arithmetic::div_mod::lemma_fundamental_div_mod_converse(
        (n * c) as int,
        (d * c) as int,
        q as int,
        (r * c) as int,
    );
    assert((2 * r < d) == (2 * (r * c) < d * c)) by (nonlinear_arith)
        requires
            c > 0,
    ;
    assert((2 * r == d) == (2 * (r * c) == d * c)) by (nonlinear_arith)
        requires
            c > 0,
    ;
}

// ---------------------------------------------------------------------------
// Doubles in machine integers
// ---------------------------------------------------------------------------

/// A double counted in units: `bits` times two to the power of `shift`.
struct Double {
    bits: u128,
    shift: u32,
}

spec fn value_of(x: Double) -> nat {
    x.bits as nat * two_to(x.shift as nat)
}

fn nearest_u128(n: u128, d: u128) -> (r: u128)
    requires
        0 < d <= 0x1000_0000_0000_0000_0000_0000_0000_0000,
        n <= 0x1000_0000_0000_0000_0000_0000_0000_0000,
    ensures
        r == nearest(n as nat, d as nat),
        r <= n + 1,
{
    let q: u128 = n / d;
    let twice: u128 = 2 * (n % d);
    assert(n / d <= n) by (nonlinear_arith)
        requires
            d > 0,
            n >= 0,
    ;
    if twice < d || (twice == d && q % 2 == 0) {
        q
    } else {
        q + 1
    }
}

proof fn lemma_constants()
    ensures
        two_to(0) == 1,
        two_to(50) == 0x4000000000000,
        two_to(52) == 0x10000000000000,
        two_to(53) == 0x20000000000000,
        two_to(64) == 0x10000000000000000,
        two_to(72) == 0x1000000000000000000,
        two_to(86) == 0x4000000000000000000000,
        two_to(107) == 0x800000000000000000000000000,
        two_to(123) == 0x8000000000000000000000000000000,
        two_to(124) == 0x10000000000000000000000000000000,
        two_to(20) == 0x100000,
{
    reveal_with_fuel(two_to, 23);
    assert(two_to(20) == 0x100000);
    assert(two_to(40) == 0x10000000000);
    assert(two_to(50) == 0x4000000000000);
    assert(two_to(52) == 0x10000000000000);
    assert(two_to(53) == 0x20000000000000);
    assert(two_to(64) == 0x10000000000000000);
    assert(two_to(72) == 0x1000000000000000000);
    assert(two_to(86) == 0x4000000000000000000000);
    assert(two_to(107) == 0x800000000000000000000000000);
    assert(two_to(123) == 0x8000000000000000000000000000000);
    assert(two_to(124) == 0x10000000000000000000000000000000);
}

/// The double nearest to `n` times two to the power of `shift` over `d`.
fn rounded(n: u128, shift: u32, d: u128) -> (r: Double)
    requires
        0 < n < 0x800_0000_0000_0000_0000_0000_0000,
        1 <= d <= 1_000_000,
        72 <= shift <= 1000,
    ensures
        value_of(r) == to_double(n as nat * two_to(shift as nat), d as nat),
        0x10_0000_0000_0000 <= r.bits <= 0x20_0000_0000_0000,
        shift - 72 <= r.shift <= shift + 56,
        n >= d * 0x10_0000_0000_0000 ==> r.shift >= shift,
        r.shift > shift ==> d * two_to((r.shift - shift) as nat) * 0x10_0000_0000_0000 <= n,
        r.shift < shift ==> n * two_to((shift - r.shift - 1) as nat) < d * 0x10_0000_0000_0000,
{
    let ghost whole = n as nat * two_to(shift as nat);
    let mut n: u128 = n;
    let mut s: u32 = shift;
    let mut k: u32 = 0;
    let ghost n0 = n;
    // Too few bits: n grows and the shift shrinks.
    assert(two_to(0) == 1);
    while n < d * 0x10_0000_0000_0000
        invariant
            1 <= d <= 1_000_000,
            k <= 72,
            s + k == shift,
            72 <= shift <= 1000,
            n0 >= 1,
            n >= 1,
            n == n0 * two_to(k as nat),
            n < 0x800_0000_0000_0000_0000_0000_0000,
            n as nat * two_to(s as nat) == whole,
            n0 >= d * 0x10_0000_0000_0000 ==> k == 0,
            k > 0 ==> n < d * 0x20_0000_0000_0000,
            k == 0 ==> n == n0,
            k > 0 ==> n0 * two_to((k - 1) as nat) < d * 0x10_0000_0000_0000,
        decreases 72 - k,
    {
        proof {
            lemma_enough_bits(n0 as nat, k as nat);
            let t = two_to((s - 1) as nat);
            assert(two_to(s as nat) == 2 * t);
            assert(n as nat * (2 * t) == (2 * n as nat) * t) by (nonlinear_arith);
            assert(n0 * two_to((k + 1) as nat) == 2 * (n0 * two_to(k as nat))) by (nonlinear_arith)
                requires
                    two_to((k + 1) as nat) == 2 * two_to(k as nat),
            ;
        }
        n = 2 * n;
        s = s - 1;
        k = k + 1;
    }
    // Too many bits: the divisor grows with the shift.
    let ghost base = s;
    let mut wide: u128 = d;
    let mut up: u32 = 0;
    proof {
        assert(d as nat * two_to(0) == d) by (nonlinear_arith)
            requires
                two_to(0) == 1,
        ;
    }
    while n >= wide * 0x20_0000_0000_0000
        invariant
            1 <= d <= 1_000_000,
            up <= 55,
            0 < n < 0x800_0000_0000_0000_0000_0000_0000,
            wide == d as nat * two_to(up as nat),
            wide >= d,
            wide * 0x10_0000_0000_0000 <= n,
            n < d * 0x20_0000_0000_0000 ==> up == 0,
        decreases n - wide,
    {
        proof {
            lemma_small_divisor(d as nat, up as nat, n as nat);
            assert(d as nat * two_to((up + 1) as nat) == 2 * (d as nat * two_to(up as nat)))
                by (nonlinear_arith)
                requires
                    two_to((up + 1) as nat) == 2 * two_to(up as nat),
            ;
        }
        wide = 2 * wide;
        up = up + 1;
    }
    let bits: u128 = nearest_u128(n, wide);
    let r = Double { bits, shift: s + up };
    proof {
        lemma_constants();
        let b = two_to(base as nat);
        lemma_two_positive(base as nat);
        let place = (base + up) as nat;
        lemma_two_adds(base as nat, up as nat);
        lemma_two_adds(52, place);
        lemma_two_adds(53, place);
        assert(wide as nat * b == d as nat * two_to(place)) by (nonlinear_arith)
            requires
                wide == d as nat * two_to(up as nat),
                two_to(place) == b * two_to(up as nat),
        ;
        assert(d as nat * two_to(52 + place) == (wide as nat * 0x10_0000_0000_0000) * b)
            by (nonlinear_arith)
            requires
                two_to(52 + place) == 0x10_0000_0000_0000 * two_to(place),
                wide as nat * b == d as nat * two_to(place),
        ;
        assert(d as nat * two_to(53 + place) == (wide as nat * 0x20_0000_0000_0000) * b)
            by (nonlinear_arith)
            requires
                two_to(53 + place) == 0x20_0000_0000_0000 * two_to(place),
                wide as nat * b == d as nat * two_to(place),
        ;
        assert((wide as nat * 0x10_0000_0000_0000) * b <= n as nat * b < (wide as nat
            * 0x20_0000_0000_0000) * b) by (nonlinear_arith)
            requires
                wide as nat * 0x10_0000_0000_0000 <= n < wide as nat * 0x20_0000_0000_0000,
                b >= 1,
        ;
        assert(whole > 0) by (nonlinear_arith)
            requires
                whole == n as nat * b,
                n > 0,
                b >= 1,
        ;
        assert(leads(whole, d as nat, place));
        lemma_to_double(whole, d as nat, place);
        lemma_nearest_scales(n as nat, wide as nat, b);
        lemma_nearest_bounds(n as nat, wide as nat);
    }
    r
}

proof fn lemma_growth_bound(k: nat, n: nat, j: nat)
    requires
        n >= 1,
        n * two_to(k) < two_to(j),
    ensures
        k < j,
{
    assert(n * two_to(k) >= two_to(k)) by (nonlinear_arith)
        requires
            n >= 1,
    ;
    if k >= j {
        lemma_two_grows(j, k);
    }
}

proof fn lemma_shift_bound(up: nat, n: nat, j: nat)
    requires
        two_to(up) * 0x10_0000_0000_0000 <= n < two_to(j),
    ensures
        up + 52 < j,
{
    lemma_constants();
    lemma_two_adds(up, 52);
    if up + 52 >= j {
        lemma_two_grows(j, up + 52);
    }
}

proof fn lemma_enough_bits(n: nat, k: nat)
    requires
        n >= 1,
        k <= 72,
        n * two_to(k) < 1_000_000 * 0x10_0000_0000_0000,
    ensures
        k < 72,
{
    if k == 72 {
        lemma_constants();
        assert(n * two_to(72) >= two_to(72)) by (nonlinear_arith)
            requires
                n >= 1,
        ;
    }
}

proof fn lemma_small_divisor(d: nat, up: nat, n: nat)
    requires
        d >= 1,
        up <= 55,
        n >= (d * two_to(up)) * 0x20_0000_0000_0000,
        n < 0x800_0000_0000_0000_0000_0000_0000,
    ensures
        up < 55,
        d * two_to(up) < 0x40_0000_0000_0000,
{
    if up == 55 {
        reveal_with_fuel(two_to, 56);
        assert(d * two_to(55) >= two_to(55)) by (nonlinear_arith)
            requires
                d >= 1,
        ;
    }
}

proof fn lemma_nearest_bounds(n: nat, d: nat)
    requires
        d > 0,
        d * 0x10_0000_0000_0000 <= n < d * 0x20_0000_0000_0000,
    ensures
        0x10_0000_0000_0000 <= nearest(n, d) <= 0x20_0000_0000_0000,
{
    let q = n / d;
    vstd::arithmetic::div_mod::lemma_fundamental_div_mod(n as int, d as int);
    assert(0x10_0000_0000_0000 <= q < 0x20_0000_0000_0000) by (nonlinear_arith)
        requires
            n == d * q + n % d,
            0 <= n % d < d,
            d * 0x10_0000_0000_0000 <= n < d * 0x20_0000_0000_0000,
    ;
}

/// A common factor of a double's fraction does not matter.
proof fn lemma_to_double_scales(n: nat, d: nat, c: nat, s: nat)
    requires
        n > 0,
        d > 0,
        c > 0,
        leads(n, d, s),
    ensures
        to_double(n * c, d * c) == to_double(n, d),
{
    let a = two_to(52 + s);
    let b = two_to(53 + s);
    assert((d * c) * a <= n * c < (d * c) * b) by (nonlinear_arith)
        requires
            d * a <= n < d * b,
            c > 0,
    ;
    assert(n * c > 0) by (nonlinear_arith)
        requires
            n > 0,
            c > 0,
    ;
    lemma_to_double(n, d, s);
    lemma_to_double(n * c, d * c, s);
    lemma_two_positive(s);
    let t = two_to(s);
    assert(d * t > 0) by (nonlinear_arith)
        requires
            d > 0,
            t >= 1,
    ;
    lemma_nearest_scales(n, d * t, c);
    assert((d * t) * c == (d * c) * t) by (nonlinear_arith);
}

/// Where a product of a machine integer and a power of two leads.
proof fn lemma_leads_somewhere(n: nat, shift: nat, k: nat)
    requires
        two_to(k) <= n < two_to(k + 1),
        k + shift >= 52,
    ensures
        leads(n * two_to(shift), 1, (k + shift - 52) as nat),
{
    let s = (k + shift - 52) as nat;
    let t = two_to(shift);
    lemma_two_positive(shift);
    lemma_two_adds(k, shift);
    lemma_two_adds(k + 1, shift);
    assert(two_to(k) * t <= n * t < two_to(k + 1) * t) by (nonlinear_arith)
        requires
            two_to(k) <= n < two_to(k + 1),
            t >= 1,
    ;
}

proof fn lemma_leading_place(n: nat, k: nat) -> (place: nat)
    requires
        1 <= n < two_to(k),
    ensures
        two_to(place) <= n < two_to(place + 1),
        place < k,
    decreases k,
{
    if k == 0 {
        0
    } else if n >= two_to((k - 1) as nat) {
        (k - 1) as nat
    } else {
        lemma_leading_place(n, (k - 1) as nat)
    }
}

/// The pixel clock of a mode, where none of the numbers is 0.
fn clock_double(width: u32, height: u32, refresh: u32) -> (r: Double)
    requires
        width > 0,
        height > 0,
        refresh > 0,
    ensures
        value_of(r) == pixel_clock(width, height, refresh),
        r.bits <= 0x20_0000_0000_0000,
        76 <= r.shift <= 250,
{
    let w: u128 = width as u128;
    let h: u128 = height as u128;
    let f: u128 = refresh as u128;
    proof {
        assert(1 <= width as int * height as int <= 0xffff_fffe_0000_0001) by (nonlinear_arith)
            requires
                1 <= width <= 0xffff_ffff,
                1 <= height <= 0xffff_ffff,
        ;
    }
    let area = rounded(w * h, 200, 1);
    proof {
        let (a, t) = (area.bits as nat, two_to(area.shift as nat));
        assert(0x10_0000_0000_0000 <= a * f <= 0x20_0000_0000_0000 * 0xffff_ffff) by (nonlinear_arith)
            requires
                0x10_0000_0000_0000 <= a <= 0x20_0000_0000_0000,
                1 <= f <= 0xffff_ffff,
        ;
        assert((a * t) * f == (a * f as nat) * t) by (nonlinear_arith);
    }
    proof {
        lemma_constants();
        if area.shift > 200 {
            lemma_shift_bound((area.shift - 200) as nat, (w * h) as nat, 64);
        }
        if area.shift < 200 {
            lemma_growth_bound((200 - area.shift - 1) as nat, (w * h) as nat, 52);
        }
    }
    let pixels = rounded(area.bits * f, area.shift, 1);
    proof {
        if pixels.shift > area.shift {
            lemma_shift_bound((pixels.shift - area.shift) as nat, (area.bits * f) as nat, 86);
        }
    }
    let millions = rounded(pixels.bits, pixels.shift, 1_000_000);
    proof {
        if millions.shift > pixels.shift {
            lemma_two_positive((millions.shift - pixels.shift) as nat);
        }
        if millions.shift < pixels.shift {
            let k = (pixels.shift - millions.shift - 1) as nat;
            let x = two_to(k);
            assert(0x10_0000_0000_0000 * x < 1_000_000 * 0x10_0000_0000_0000) by (nonlinear_arith)
                requires
                    pixels.bits * x < 1_000_000 * 0x10_0000_0000_0000,
                    pixels.bits >= 0x10_0000_0000_0000,
            ;
            if k >= 20 {
                lemma_two_grows(20, k);
            }
        }
    }
    let factor: u128 = ONE_POINT_TWO as u128;
    proof {
        let m = millions.bits as nat;
        let c = factor as nat;
        assert(0x10_0000_0000_0000 * 5_404_319_552_844_595 <= m * c <= 0x20_0000_0000_0000
            * 5_404_319_552_844_595) by (nonlinear_arith)
            requires
                0x10_0000_0000_0000 <= m <= 0x20_0000_0000_0000,
                c == 5_404_319_552_844_595,
        ;
        // The power of two that divides the factor moves into the shift.
        let t = two_to(millions.shift as nat);
        let u = two_to((millions.shift - 52) as nat);
        lemma_two_adds((millions.shift - 52) as nat, 52);
        assert((m * t) * c == ((m * c) * u) * two_to(52)) by (nonlinear_arith)
            requires
                t == u * two_to(52),
        ;
        lemma_two_positive(52);
        lemma_two_positive((millions.shift - 52) as nat);
        let place = lemma_leading_place(m * c, 107);
        lemma_leads_somewhere(m * c, (millions.shift - 52) as nat, place);
        assert((m * c) * u > 0) by (nonlinear_arith)
            requires
                m * c > 0,
                u >= 1,
        ;
        lemma_to_double_scales(
            (m * c) * u,
            1,
            two_to(52),
            (place + millions.shift - 52 - 52) as nat,
        );
        assert(1 * two_to(52) == two_to(52));
    }
    let r = rounded(millions.bits * factor, millions.shift - 52, 1);
    proof {
        if r.shift > millions.shift - 52 {
            lemma_shift_bound(
                (r.shift - (millions.shift - 52)) as nat,
                (millions.bits * factor) as nat,
                107,
            );
        }
    }
    r
}

/// The pixel clock in hundredths of a MHz.
fn clock_hundredths(width: u32, height: u32, refresh: u32) -> (r: u128)
    ensures
        r == nearest(pixel_clock(width, height, refresh) * 100, unit()),
{
    if width == 0 || height == 0 || refresh == 0 {
        proof {
            lemma_two_positive(200);
            let area = width as nat * height as nat;
            if width == 0 || height == 0 {
                assert(area == 0) by (nonlinear_arith)
                    requires
                        width == 0 || height == 0,
                        area == width as nat * height as nat,
                ;
                assert(area * unit() == 0) by (nonlinear_arith)
                    requires
                        area == 0,
                ;
            }
            let a = to_double(area * unit(), 1);
            assert(a * refresh as nat == 0) by (nonlinear_arith)
                requires
                    a == 0 || refresh == 0,
            ;
            assert(pixel_clock(width, height, refresh) == 0);
            assert(0int / (unit() as int) == 0 && 0int % (unit() as int) == 0) by (nonlinear_arith)
                requires
                    unit() >= 1,
            ;
        }
        return 0;
    }
    let clock = clock_double(width, height, refresh);
    let cents: u128 = clock.bits * 100;
    proof {
        let t = two_to(clock.shift as nat);
        let b = clock.bits as nat;
        lemma_two_positive(clock.shift as nat);
        assert((b * t) * 100 == (b * 100) * t) by (nonlinear_arith);
    }
    if clock.shift >= 200 {
        let up: u32 = clock.shift - 200;
        proof {
            lemma_two_positive(200);
            lemma_two_adds(up as nat, 200);
            let c = cents as nat;
            let x = two_to(up as nat);
            assert(c * (x * unit()) == (c * x) * unit()) by (nonlinear_arith);
            lemma_nearest_scales(c * x, 1, unit());
            assert(1 * unit() == unit());
            assert(nearest(c * x, 1) == c * x);
        }
        let x: u128 = power(up);
        proof {
            lemma_two_grows(up as nat, 50);
            lemma_constants();
            assert(cents * x <= 0x20_0000_0000_0000 * 100 * 0x4_0000_0000_0000) by (nonlinear_arith)
                requires
                    cents <= 0x20_0000_0000_0000 * 100,
                    x <= 0x4_0000_0000_0000,
            ;
        }
        return cents * x;
    }
    let down: u32 = 200 - clock.shift;
    let d: u128 = power(down);
    proof {
        lemma_two_adds(down as nat, clock.shift as nat);
        lemma_nearest_scales(cents as nat, d as nat, two_to(clock.shift as nat));
    }
    nearest_u128(cents, d)
}

/// Two to the power of `e`.
fn power(e: u32) -> (r: u128)
    requires
        e <= 124,
    ensures
        r == two_to(e as nat),
        1 <= r <= 0x1000_0000_0000_0000_0000_0000_0000_0000,
{
    let mut r: u128 = 1;
    let mut i: u32 = 0;
    while i < e
        invariant
            i <= e <= 124,
            r == two_to(i as nat),
        decreases e - i,
    {
        proof {
            lemma_two_grows(i as nat, 123);
            lemma_constants();
        }
        r = 2 * r;
        i = i + 1;
    }
    proof {
        lemma_two_grows(e as nat, 124);
        lemma_two_positive(e as nat);
        lemma_constants();
    }
    r
}

fn hundredths_text(hundredths: u128) -> (r: String)
    ensures
        r@ == two_decimals(hundredths as nat),
{
    let mut r = decimal_u128(hundredths / 100).concat(".");
    let ghost head = r@;
    r.push(digit((hundredths / 10 % 10) as u8));
    r.push(digit((hundredths % 10) as u8));
    assert(r@ =~= head + seq![
        digit_char((hundredths as nat / 10 % 10) as int),
        digit_char((hundredths as nat % 10) as int),
    ]);
    r
}

/// The numbers of the mode line for a size and a rate.
pub fn generate_modeline(width: u32, height: u32, refresh: u32) -> (r: String)
    requires
        width <= u32::MAX - 160,
        height <= u32::MAX - 33,
    ensures
        r@ == modeline_of(width, height, refresh),
{
    hundredths_text(clock_hundredths(width, height, refresh)).concat(" ").concat(
        decimal_u32(width).as_str(),
    ).concat(" ").concat(decimal_u32(width + 48).as_str()).concat(" ").concat(
        decimal_u32(width + 80).as_str(),
    ).concat(" ").concat(decimal_u32(width + 160).as_str()).concat(" ").concat(
        decimal_u32(height).as_str(),
    ).concat(" ").concat(decimal_u32(height + 3).as_str()).concat(" ").concat(
        decimal_u32(height + 8).as_str(),
    ).concat(" ").concat(decimal_u32(height + 33).as_str()).concat(" +hsync +vsync")
}

// ---------------------------------------------------------------------------
// What a clock is worth
// ---------------------------------------------------------------------------

/// Whether `x` has at most 53 significant bits.
pub open spec fn is_double(x: nat) -> bool {
    exists|m: nat, s: nat| m < 0x20_0000_0000_0000 && x == #[trigger] (m * two_to(s))
}

/// How far apart two numbers are.
pub open spec fn distance(a: int, b: int) -> int {
    if a < b {
        b - a
    } else {
        a - b
    }
}

proof fn lemma_leads(n: nat, d: nat, s: nat) -> (r: nat)
    requires
        d >= 1,
        d * two_to(52 + s) <= n,
    ensures
        leads(n, d, r),
    decreases n - d * two_to(52 + s),
{
    if n < d * two_to(53 + s) {
        s
    } else {
        lemma_two_positive(52 + s);
        assert(two_to(53 + s) == 2 * two_to(52 + s));
        assert(d * (2 * two_to(52 + s)) > d * two_to(52 + s)) by (nonlinear_arith)
            requires
                d >= 1,
                two_to(52 + s) >= 1,
        ;
        lemma_leads(n, d, s + 1)
    }
}

/// The nearest whole number is no more than half away, and the even one where it is half away.
pub proof fn whole_numbers_are_the_nearest(n: nat, d: nat)
    requires
        d > 0,
    ensures
        2 * distance((nearest(n, d) * d) as int, n as int) <= d,
        2 * distance((nearest(n, d) * d) as int, n as int) == d ==> nearest(n, d) % 2 == 0,
{
    let q = n / d;
    vstd::arithmetic::div_mod::lemma_fundamental_div_mod(n as int, d as int);
    assert((q + 1) * d == q * d + d) by (nonlinear_arith);
    assert(q * d == d * q) by (nonlinear_arith);
    assert(0 <= n % d < d);
}

/// No multiple of `t` is nearer than the one that a double is rounded to.
proof fn lemma_no_multiple_is_nearer(n: nat, d: nat, t: nat, k: nat)
    requires
        d > 0,
        t > 0,
    ensures
        ({
            let x = nearest(n, d * t) * t;
            let y = k * t;
            &&& distance((x * d) as int, n as int) <= distance((y * d) as int, n as int)
            &&& x != y && distance((x * d) as int, n as int) == distance((y * d) as int, n as int)
                ==> distance(x as int, y as int) == t && nearest(n, d * t) % 2 == 0
        }),
{
    let q = nearest(n, d * t);
    let g = d * t;
    assert(g > 0) by (nonlinear_arith)
        requires
            d > 0,
            t > 0,
            g == d * t,
    ;
    whole_numbers_are_the_nearest(n, g);
    let x = q * t;
    let y = k * t;
    assert(x * d == q * g) by (nonlinear_arith)
        requires
            x == q * t,
            g == d * t,
    ;
    assert(y * d == k * g) by (nonlinear_arith)
        requires
            y == k * t,
            g == d * t,
    ;
    if k > q + 1 {
        assert(k * g >= q * g + 2 * g) by (nonlinear_arith)
            requires
                k >= q + 2,
                g > 0,
        ;
    } else if k == q + 1 {
        assert(k * g == q * g + g) by (nonlinear_arith)
            requires
                k == q + 1,
        ;
        assert(k * t == q * t + t) by (nonlinear_arith)
            requires
                k == q + 1,
        ;
    } else if k + 1 == q {
        assert(q * g == k * g + g) by (nonlinear_arith)
            requires
                k + 1 == q,
        ;
        assert(q * t == k * t + t) by (nonlinear_arith)
            requires
                k + 1 == q,
        ;
    } else if k < q {
        assert(q * g >= k * g + 2 * g) by (nonlinear_arith)
            requires
                k + 2 <= q,
                g > 0,
        ;
    }
}

/// What a quotient is rounded to is a double, no other double is nearer to it, and where another is
/// as near the even one is taken.
pub proof fn doubles_are_the_nearest(n: nat, d: nat, y: nat)
    requires
        d >= 1,
        n >= d * two_to(52),
        is_double(y),
    ensures
        ({
            let x = to_double(n, d);
            &&& is_double(x)
            &&& distance((x * d) as int, n as int) <= distance((y * d) as int, n as int)
            &&& x != y && distance((x * d) as int, n as int) == distance((y * d) as int, n as int)
                ==> exists|z: nat| x == 2 * #[trigger] (z * distance(x as int, y as int))
        }),
{
    let s = lemma_leads(n, d, 0);
    let t = two_to(s);
    lemma_two_positive(s);
    lemma_two_positive(52 + s);
    assert(d * two_to(52 + s) >= 1) by (nonlinear_arith)
        requires
            d >= 1,
            two_to(52 + s) >= 1,
    ;
    lemma_to_double(n, d, s);
    let g = d * t;
    assert(g > 0) by (nonlinear_arith)
        requires
            d >= 1,
            t >= 1,
            g == d * t,
    ;
    let q = nearest(n, g);
    let x = q * t;
    lemma_constants();
    lemma_two_adds(52, s);
    lemma_two_adds(53, s);
    assert(g * 0x10_0000_0000_0000 <= n < g * 0x20_0000_0000_0000) by (nonlinear_arith)
        requires
            d * two_to(52 + s) <= n < d * two_to(53 + s),
            two_to(52 + s) == 0x10_0000_0000_0000 * t,
            two_to(53 + s) == 0x20_0000_0000_0000 * t,
            g == d * t,
    ;
    lemma_nearest_bounds(n, g);
    if q < 0x20_0000_0000_0000 {
        assert(x == q * two_to(s));
    } else {
        assert(two_to(s + 1) == 2 * two_to(s));
        assert(0x10_0000_0000_0000nat * two_to(s + 1) == x) by (nonlinear_arith)
            requires
                two_to(s + 1) == 2 * t,
                x == q * t,
                q == 0x20_0000_0000_0000,
        ;
    }
    let (m, e) = choose|m: nat, e: nat| m < 0x20_0000_0000_0000 && y == #[trigger] (m * two_to(e));
    if e >= s {
        let k = m * two_to((e - s) as nat);
        lemma_two_adds((e - s) as nat, s);
        assert(y == k * t) by (nonlinear_arith)
            requires
                y == m * two_to(e),
                two_to(e) == two_to((e - s) as nat) * t,
                k == m * two_to((e - s) as nat),
        ;
        lemma_no_multiple_is_nearer(n, d, t, k);
        if x != y && distance((x * d) as int, n as int) == distance((y * d) as int, n as int) {
            let z = q / 2;
            assert(q == 2 * z);
            assert(x == 2 * (z * t)) by (nonlinear_arith)
                requires
                    x == q * t,
                    q == 2 * z,
            ;
            assert(x == 2 * (z * distance(x as int, y as int)));
        }
    } else {
        let low = 0x10_0000_0000_0000nat;
        lemma_no_multiple_is_nearer(n, d, t, low);
        lemma_two_grows(e + 1, s);
        assert(two_to(e + 1) == 2 * two_to(e));
        assert(y < low * t) by (nonlinear_arith)
            requires
                y == m * two_to(e),
                m < 2 * low,
                2 * two_to(e) <= t,
                t >= 1,
                low == 0x10_0000_0000_0000,
        ;
        assert(y * d < (low * t) * d) by (nonlinear_arith)
            requires
                y < low * t,
                d >= 1,
        ;
        assert((low * t) * d == g * low) by (nonlinear_arith)
            requires
                g == d * t,
        ;
    }
}

/// Rounding to a double moves a quotient by no more than its share of two to the power of 53.
proof fn lemma_double_is_close(n: nat, d: nat)
    requires
        d >= 1,
        n >= d * two_to(52),
    ensures
        distance((to_double(n, d) * d) as int, n as int) * 0x20_0000_0000_0000 <= n,
        2 * (to_double(n, d) * d) >= n,
{
    let s = lemma_leads(n, d, 0);
    let t = two_to(s);
    lemma_two_positive(s);
    lemma_two_positive(52 + s);
    assert(d * two_to(52 + s) >= 1) by (nonlinear_arith)
        requires
            d >= 1,
            two_to(52 + s) >= 1,
    ;
    lemma_to_double(n, d, s);
    let g = d * t;
    assert(g > 0) by (nonlinear_arith)
        requires
            d >= 1,
            t >= 1,
            g == d * t,
    ;
    lemma_constants();
    lemma_two_adds(52, s);
    assert(g * 0x10_0000_0000_0000 <= n) by (nonlinear_arith)
        requires
            d * two_to(52 + s) <= n,
            two_to(52 + s) == 0x10_0000_0000_0000 * t,
            g == d * t,
    ;
    whole_numbers_are_the_nearest(n, g);
    let q = nearest(n, g);
    assert((q * t) * d == q * g) by (nonlinear_arith)
        requires
            g == d * t,
    ;
}

/// Whether a number of hundredths of a MHz is the clock of a mode: 1.2 pixels for each pixel that is
/// drawn, to the nearest hundredth but for what doubles lose.
pub open spec fn is_clock_of(cents: nat, width: u32, height: u32, refresh: u32) -> bool {
    let drawn = width as int * height as int * refresh as int;
    2 * distance(25_000 * cents as int, 3 * drawn) * 0x4_0000_0000_0000 <= 25_000 * 0x4_0000_0000_0000 + 6
        * drawn
}

/// Whether a text is a number of hundredths with a point before the last two digits.
pub open spec fn spells(s: Seq<char>, cents: nat) -> bool {
    &&& s.len() >= 4
    &&& s.take(s.len() - 3) == decimal(cents / 100)
    &&& s[s.len() - 3] == '.'
    &&& s[s.len() - 2] as u32 == 48 + cents / 10 % 10
    &&& s.last() as u32 == 48 + cents % 10
}

proof fn lemma_at_most_both(p: int, a: int, q: int, b: int, c: int, r: int, d: int)
    requires
        p * a <= q * b,
        q * c <= r * d,
        b >= 0,
        c >= 0,
    ensures
        p * (a * c) <= r * (d * b),
{
    assert((p * a) * c <= (q * b) * c) by (nonlinear_arith)
        requires
            p * a <= q * b,
            c >= 0,
    ;
    assert((q * c) * b <= (r * d) * b) by (nonlinear_arith)
        requires
            q * c <= r * d,
            b >= 0,
    ;
    assert((p * a) * c == p * (a * c)) by (nonlinear_arith);
    assert((q * b) * c == (q * c) * b) by (nonlinear_arith);
    assert((r * d) * b == r * (d * b)) by (nonlinear_arith);
}

/// A step that moves a number by no more than its share of `b`.
proof fn lemma_share(x: int, n: int, b: int)
    requires
        distance(x, n) * b <= n,
        n >= 0,
        b >= 1,
    ensures
        x * b <= n * (b + 1),
        n * (b - 1) <= x * b,
{
    assert(n * (b + 1) == n * b + n) by (nonlinear_arith);
    assert(n * (b - 1) == n * b - n) by (nonlinear_arith);
    if x < n {
        assert((n - x) * b == n * b - x * b) by (nonlinear_arith);
        assert((n - x) * b >= 0) by (nonlinear_arith)
            requires
                n > x,
                b >= 1,
        ;
    } else {
        assert((x - n) * b == x * b - n * b) by (nonlinear_arith);
        assert((x - n) * b >= 0) by (nonlinear_arith)
            requires
                n <= x,
                b >= 1,
        ;
    }
}
/// The bounds of a clock from those of each of its steps: the area, the pixels of a second, the
/// millions of them, and 1.2 times those.
proof fn lemma_clock_bounds(x: int, f: int, area: int, pixels: int, millions: int, clock: int)
    requires
        x >= 0,
        f >= 0,
        area >= 0,
        pixels >= 0,
        millions >= 0,
        clock >= 0,
        distance(area, x) * 0x20_0000_0000_0000 <= x,
        distance(pixels, area * f) * 0x20_0000_0000_0000 <= area * f,
        distance(millions * 1_000_000, pixels) * 0x20_0000_0000_0000 <= pixels,
        distance(clock * 0x10_0000_0000_0000, millions * 5_404_319_552_844_595) * 0x20_0000_0000_0000
            <= millions * 5_404_319_552_844_595,
    ensures
        clock * (5_000_000 * 0x4_0000_0000_0000) <= (x * f) * (6 * 0x4_0000_0000_0001),
        (x * f) * (6 * 0x3_ffff_ffff_ffff) <= clock * (5_000_000 * 0x4_0000_0000_0000),
{
    let b: int = 0x20_0000_0000_0000;
    let u: int = b + 1;
    let l: int = b - 1;
    let k: int = 5_404_319_552_844_595;
    let half: int = 0x10_0000_0000_0000;
    let y = x * f;
    assert(area * f >= 0) by (nonlinear_arith)
        requires
            area >= 0,
            f >= 0,
    ;
    assert(y >= 0) by (nonlinear_arith)
        requires
            x >= 0,
            f >= 0,
            y == x * f,
    ;
    lemma_share(area, x, b);
    lemma_share(pixels, area * f, b);
    lemma_share(millions * 1_000_000, pixels, b);
    lemma_share(clock * half, millions * k, b);
    // Pixels by the area.
    assert((area * f) * b <= y * u && y * l <= (area * f) * b) by (nonlinear_arith)
        requires
            area * b <= x * u,
            x * l <= area * b,
            f >= 0,
            y == x * f,
    ;
    lemma_at_most_both(pixels, b, area * f, u, b, y, u);
    assert(y * (l * l) <= pixels * (b * b)) by {
        lemma_at_most_both(y, l, area * f, b, l, pixels, b);
    }
    // Millions by the pixels.
    assert((millions * 1_000_000) * b == millions * (1_000_000 * b)) by (nonlinear_arith);
    lemma_at_most_both(millions, 1_000_000 * b, pixels, u, b * b, y, u * u);
    lemma_at_most_both(y, l * l, pixels, b * b, l, millions, 1_000_000 * b);
    // The clock by the millions.
    assert((clock * half) * b == clock * (half * b)) by (nonlinear_arith);
    assert((millions * k) * u == millions * (k * u)) by (nonlinear_arith);
    assert((millions * k) * l == millions * (k * l)) by (nonlinear_arith);
    let scale = 1_000_000 * b * (b * b);
    lemma_at_most_both(clock, half * b, millions, k * u, scale, y, u * u * u);
    lemma_at_most_both(y, l * l * l, millions, scale, k * l, clock, half * b);
    assert(clock * ((half * b) * scale) <= y * ((u * u * u) * (k * u)));
    assert(y * ((l * l * l) * (k * l)) <= clock * ((half * b) * scale));
    // Both are multiples of numbers that are near to each other.
    let common = (half * b) * scale;
    let high = (u * u * u) * (k * u);
    let low = (l * l * l) * (k * l);
    assert(common > 0);
    assert(high * (5_000_000 * 0x4_0000_0000_0000) <= common * (6 * 0x4_0000_0000_0001));
    assert(low * (5_000_000 * 0x4_0000_0000_0000) >= common * (6 * 0x3_ffff_ffff_ffff));
    let fine: int = 5_000_000int * 0x4_0000_0000_0000;
    let above: int = 6int * 0x4_0000_0000_0001;
    let below: int = 6int * 0x3_ffff_ffff_ffff;
    lemma_cancel(clock, common, y, high, fine, above);
    lemma_cancel_below(clock, common, y, low, fine, below);
}

proof fn lemma_cancel(c: int, common: int, y: int, high: int, p: int, q: int)
    requires
        common > 0,
        p > 0,
        y >= 0,
        c * common <= y * high,
        high * p <= common * q,
    ensures
        c * p <= y * q,
{
    assert((c * common) * p <= (y * high) * p) by (nonlinear_arith)
        requires
            c * common <= y * high,
            p > 0,
    ;
    assert(y * (high * p) <= y * (common * q)) by (nonlinear_arith)
        requires
            high * p <= common * q,
            y >= 0,
    ;
    assert((c * common) * p == (c * p) * common) by (nonlinear_arith);
    assert((y * high) * p == y * (high * p)) by (nonlinear_arith);
    assert(y * (common * q) == (y * q) * common) by (nonlinear_arith);
    assert(c * p <= y * q) by (nonlinear_arith)
        requires
            (c * p) * common <= (y * q) * common,
            common > 0,
    ;
}

proof fn lemma_cancel_below(c: int, common: int, y: int, low: int, p: int, q: int)
    requires
        common > 0,
        p > 0,
        y >= 0,
        y * low <= c * common,
        common * q <= low * p,
    ensures
        y * q <= c * p,
{
    assert((y * low) * p <= (c * common) * p) by (nonlinear_arith)
        requires
            y * low <= c * common,
            p > 0,
    ;
    assert(y * (common * q) <= y * (low * p)) by (nonlinear_arith)
        requires
            common * q <= low * p,
            y >= 0,
    ;
    assert((c * common) * p == (c * p) * common) by (nonlinear_arith);
    assert((y * low) * p == y * (low * p)) by (nonlinear_arith);
    assert(y * (common * q) == (y * q) * common) by (nonlinear_arith);
    assert(y * q <= c * p) by (nonlinear_arith)
        requires
            (y * q) * common <= (c * p) * common,
            common > 0,
    ;
}

proof fn lemma_clock_is_near(width: u32, height: u32, refresh: u32)
    ensures
        is_clock_of(
            nearest(pixel_clock(width, height, refresh) * 100, unit()),
            width,
            height,
            refresh,
        ),
{
    let n = width as nat * height as nat;
    let f = refresh as nat;
    let x = n * unit();
    let area = to_double(x, 1);
    let pixels = to_double(area * f, 1);
    let millions = to_double(pixels, 1_000_000);
    let k = ONE_POINT_TWO as nat;
    let clock = to_double(millions * k, two_to(52));
    let cents = nearest(clock * 100, unit());
    let drawn = width as int * height as int * refresh as int;
    lemma_two_positive(200);
    lemma_constants();
    whole_numbers_are_the_nearest(clock * 100, unit());
    if width == 0 || height == 0 || refresh == 0 {
        assert(n == 0 || f == 0) by (nonlinear_arith)
            requires
                width == 0 || height == 0 || f == 0,
                n == width as nat * height as nat,
        ;
        assert(n == 0 ==> x == 0) by (nonlinear_arith)
            requires
                x == n * unit(),
        ;
        assert(area * f == 0) by (nonlinear_arith)
            requires
                area == 0 || f == 0,
        ;
        assert(clock == 0);
        assert(0int / (unit() as int) == 0 && 0int % (unit() as int) == 0) by (nonlinear_arith)
            requires
                unit() >= 1,
        ;
        assert(cents == 0);
        assert(drawn == 0) by (nonlinear_arith)
            requires
                width == 0 || height == 0 || refresh == 0,
                drawn == width as int * height as int * refresh as int,
        ;
    } else {
        assert(n >= 1) by (nonlinear_arith)
            requires
                width >= 1,
                height >= 1,
                n == width as nat * height as nat,
        ;
        assert(x >= unit()) by (nonlinear_arith)
            requires
                n >= 1,
                x == n * unit(),
        ;
        lemma_two_grows(52, 200);
        lemma_two_grows(53, 200);
        lemma_two_adds(86, 114);
        lemma_two_grows(53, 86);
        lemma_two_grows(53, 114);
        assert(two_to(200) >= 0x4000000000000000000000 * 0x20000000000000) by (nonlinear_arith)
            requires
                two_to(200) == 0x4000000000000000000000 * two_to(114),
                two_to(114) >= 0x20000000000000,
        ;
        lemma_double_is_close(x, 1);
        assert(area * f >= area) by (nonlinear_arith)
            requires
                f >= 1,
        ;
        lemma_double_is_close(area * f, 1);
        lemma_double_is_close(pixels, 1_000_000);
        assert(millions * k >= two_to(52) * two_to(52)) by (nonlinear_arith)
            requires
                millions >= 0x10_0000_0000_0000,
                k == 5_404_319_552_844_595,
                two_to(52) == 0x10_0000_0000_0000,
        ;
        lemma_double_is_close(millions * k, two_to(52));
        lemma_clock_bounds(
            x as int,
            f as int,
            area as int,
            pixels as int,
            millions as int,
            clock as int,
        );
        let u = unit() as int;
        let fine: int = 0x4_0000_0000_0000;
        assert(x * f == drawn * u) by (nonlinear_arith)
            requires
                x == (width as int * height as int) * u,
                f == refresh as int,
                drawn == width as int * height as int * refresh as int,
        ;
        assert((50_000 * fine * cents) * u <= (6 * drawn * (fine + 1) + 25_000 * fine) * u) by {
            assert((6 * drawn * (fine + 1) + 25_000 * fine) * u == (drawn * u) * (6 * (fine + 1))
                + 25_000 * fine * u) by (nonlinear_arith);
            assert((50_000 * fine * cents) * u == 25_000 * fine * (2 * (cents * u))) by (nonlinear_arith);
            assert(clock * (5_000_000 * fine) == 25_000 * fine * (200 * clock)) by (nonlinear_arith);
            assert(25_000 * fine * (2 * (cents * u)) <= 25_000 * fine * (200 * clock + u)) by (nonlinear_arith)
                requires
                    2 * (cents * u) <= 200 * clock + u,
                    fine > 0,
            ;
            assert(25_000 * fine * (200 * clock + u) == 25_000 * fine * (200 * clock) + 25_000 * fine
                * u) by (nonlinear_arith);
        }
        assert((6 * drawn * (fine - 1) - 25_000 * fine) * u <= (50_000 * fine * cents) * u) by {
            assert((6 * drawn * (fine - 1) - 25_000 * fine) * u == (drawn * u) * (6 * (fine - 1))
                - 25_000 * fine * u) by (nonlinear_arith);
            assert((50_000 * fine * cents) * u == 25_000 * fine * (2 * (cents * u))) by (nonlinear_arith);
            assert(clock * (5_000_000 * fine) == 25_000 * fine * (200 * clock)) by (nonlinear_arith);
            assert(25_000 * fine * (200 * clock - u) <= 25_000 * fine * (2 * (cents * u))) by (nonlinear_arith)
                requires
                    200 * clock - u <= 2 * (cents * u),
                    fine > 0,
            ;
            assert(25_000 * fine * (200 * clock - u) == 25_000 * fine * (200 * clock) - 25_000 * fine
                * u) by (nonlinear_arith);
        }
        lemma_divide(50_000 * fine * cents, 6 * drawn * (fine + 1) + 25_000 * fine, u);
        lemma_divide(6 * drawn * (fine - 1) - 25_000 * fine, 50_000 * fine * cents, u);
        let d = distance(25_000 * cents as int, 3 * drawn);
        assert(2 * d * fine <= 25_000 * fine + 6 * drawn) by (nonlinear_arith)
            requires
                d == 25_000 * cents - 3 * drawn || d == 3 * drawn - 25_000 * cents,
                50_000 * fine * cents <= 6 * drawn * (fine + 1) + 25_000 * fine,
                6 * drawn * (fine - 1) - 25_000 * fine <= 50_000 * fine * cents,
        ;
    }
}

proof fn lemma_divide(a: int, b: int, u: int)
    requires
        a * u <= b * u,
        u > 0,
    ensures
        a <= b,
{
    assert(a <= b) by (nonlinear_arith)
        requires
            a * u <= b * u,
            u > 0,
    ;
}

/// A mode line begins with the clock in MHz, which gives the mode its rate with a fifth of the
/// pixels to spare, to the nearest hundredth: the area, the rate, the million and the factor of 1.2
/// come in one by one, and each step is rounded to a double. Across, the picture ends at the width,
/// and the sync pulse and the line 48, 80 and 160 pixels behind it; down, 3, 8 and 33 lines behind
/// the height.
pub proof fn modes_have_their_rate(width: u32, height: u32, refresh: u32, r: String)
    requires
        width <= u32::MAX - 160,
        height <= u32::MAX - 33,
        call_ensures(generate_modeline, (width, height, refresh), r),
    ensures
        exists|clock: Seq<char>, cents: nat|
            {
                &&& #[trigger] spells(clock, cents)
                &&& is_clock_of(cents, width, height, refresh)
                &&& cents == nearest(
                    to_double(
                        to_double(
                            to_double(
                                to_double(width as nat * height as nat * two_to(200), 1)
                                    * refresh as nat,
                                1,
                            ),
                            1_000_000,
                        ) * 5_404_319_552_844_595,
                        two_to(52),
                    ) * 100,
                    two_to(200),
                )
                &&& r@ == clock + " "@ + decimal(width as nat) + " "@ + decimal((width + 48) as nat)
                    + " "@ + decimal((width + 80) as nat) + " "@ + decimal((width + 160) as nat) + " "@
                    + decimal(height as nat) + " "@ + decimal((height + 3) as nat) + " "@ + decimal(
                    (height + 8) as nat,
                ) + " "@ + decimal((height + 33) as nat) + " +hsync +vsync"@
            },
{
    lemma_clock_is_near(width, height, refresh);
    let cents = nearest(pixel_clock(width, height, refresh) * 100, unit());
    let clock = two_decimals(cents);
    reveal_strlit(".");
    assert(clock.take(clock.len() - 3) =~= decimal(cents / 100));
    assert(spells(clock, cents));
}

} // verus!
