//! Fixed-width text for durations and decimal numbers.
use vstd::prelude::*;

verus! {

/// Seconds in an hour.
pub const SECS_PER_HOUR: u64 = 3600;

/// Seconds in a minute.
pub const SECS_PER_MIN: u64 = 60;

/// Milliseconds in a second.
pub const MILLIS_PER_SEC: u64 = 1000;

/// The character of the decimal digit `d`.
pub open spec fn digit(d: int) -> char {
    (48 + d) as char
}

/// Ten to the power `e`.
pub open spec fn pow10(e: nat) -> nat
    decreases e,
{
    if e == 0 {
        1
    } else {
        10 * pow10((e - 1) as nat)
    }
}

/// The last two decimal digits of `n`.
pub open spec fn spec_padded_2(n: int) -> Seq<char> {
    seq![digit((n / 10) % 10), digit(n % 10)]
}

/// The last three decimal digits of `n`, with `fill` in place of a hundreds
/// digit of zero.
pub open spec fn spec_padded_3(fill: char, n: int) -> Seq<char> {
    let hundreds = (n / 100) % 10;
    seq![if hundreds != 0 {
        digit(hundreds)
    } else {
        fill
    }] + spec_padded_2(n % 100)
}

/// The text of a duration of `millis` milliseconds. Over an hour it reads
/// hours, minutes and seconds, `HHH:MM:SS`; up to an hour it reads minutes,
/// seconds and milliseconds, `MM:SS.mmm`.
pub open spec fn spec_show_duration(millis: int) -> Seq<char> {
    let secs = millis / MILLIS_PER_SEC as int;
    let mins = spec_padded_2((secs % SECS_PER_HOUR as int) / SECS_PER_MIN as int);
    let rest = spec_padded_2(secs % SECS_PER_MIN as int);
    if secs > SECS_PER_HOUR {
        spec_padded_3('0', secs / SECS_PER_HOUR as int) + seq![':'] + mins + seq![':'] + rest
    } else {
        mins + seq![':'] + rest + seq!['.'] + spec_padded_3('0', millis % MILLIS_PER_SEC as int)
    }
}

/// The character at place `place` of a number written at the right edge of a
/// field: the digit of `value` that stands for ten to the `place`, or `fill`
/// to the left of the number's first digit. The place of the ones always
/// holds a digit.
pub open spec fn field_char(fill: char, value: int, place: nat) -> char {
    if place == 0 || value / (pow10(place) as int) > 0 {
        digit((value / (pow10(place) as int)) % 10)
    } else {
        fill
    }
}

/// `value` written at the right edge of a field of `width` characters. Digits
/// for which the field has no room are left out.
pub open spec fn spec_field(fill: char, value: int, width: nat) -> Seq<char> {
    Seq::new(width, |i: int| field_char(fill, value, (width - 1 - i) as nat))
}

/// A decimal number in fixed width: the whole part in `before` characters, a
/// point, and the part behind the point in `after` characters.
pub open spec fn spec_format_decimal(
    fill: char,
    before: nat,
    after: nat,
    int_part: int,
    frac_part: int,
) -> Seq<char> {
    spec_field(fill, int_part, before) + seq!['.'] + spec_field(fill, frac_part, after)
}

/// The character of the decimal digit `d`.
pub fn digit_char(d: u64) -> (c: char)
    requires
        d < 10,
    ensures
        c == digit(d as int),
{
    (48u8 + d as u8) as char
}

/// The last two digits of `n`.
pub fn padded_2(n: u64) -> (r: [char; 2])
    ensures
        r@ == spec_padded_2(n as int),
{
    let r: [char; 2] = [digit_char((n / 10) % 10), digit_char(n % 10)];
    assert(r@ =~= spec_padded_2(n as int));
    r
}

/// The last three digits of `n`, with `fill` in place of a hundreds digit of
/// zero.
pub fn padded_3(fill: char, n: u64) -> (r: [char; 3])
    ensures
        r@ == spec_padded_3(fill, n as int),
{
    let hundreds: u64 = (n / 100) % 10;
    let most_significant_char: char = if hundreds != 0 {
        digit_char(hundreds)
    } else {
        fill
    };
    let tens_ones: [char; 2] = padded_2(n % 100);
    let r: [char; 3] = [most_significant_char, tens_ones[0], tens_ones[1]];
    assert(r@ =~= spec_padded_3(fill, n as int));
    r
}

/// The text of a duration of `millis` milliseconds.
pub fn show_duration(millis: u64) -> (r: [char; 9])
    ensures
        r@ == spec_show_duration(millis as int),
{
    let secs: u64 = millis / MILLIS_PER_SEC;
    let mins: [char; 2] = padded_2((secs % SECS_PER_HOUR) / SECS_PER_MIN);
    let rest: [char; 2] = padded_2(secs % SECS_PER_MIN);
    if secs > SECS_PER_HOUR {
        let hours: [char; 3] = padded_3('0', secs / SECS_PER_HOUR);
        let r: [char; 9] = [
            hours[0],
            hours[1],
            hours[2],
            ':',
            mins[0],
            mins[1],
            ':',
            rest[0],
            rest[1],
        ];
        assert(r@ =~= spec_show_duration(millis as int));
        return r;
    }
    let fraction: [char; 3] = padded_3('0', millis % MILLIS_PER_SEC);
    let r: [char; 9] = [
        mins[0],
        mins[1],
        ':',
        rest[0],
        rest[1],
        '.',
        fraction[0],
        fraction[1],
        fraction[2],
    ];
    assert(r@ =~= spec_show_duration(millis as int));
    r
}

/// Dividing by ten to the `place` and then by ten is dividing by ten to the
/// next place.
proof fn lemma_pow10_step(value: int, place: nat)
    requires
        value >= 0,
    ensures
        pow10(place) > 0,
        (value / (pow10(place) as int)) / 10 == value / (pow10(place + 1) as int),
    decreases place,
{
    if place > 0 {
        lemma_pow10_step(value, (place - 1) as nat);
    }
    let p = pow10(place) as int;
    assert(pow10(place + 1) == 10 * pow10(place));
    vstd::arithmetic::div_mod::lemma_div_denominator(value, p, 10);
}

/// Writes `value` at the right edge of a field of `width` characters, which
/// it appends to `out`.
fn push_field(out: &mut Vec<char>, fill: char, value: u64, width: usize)
    ensures
        final(out)@ == old(out)@ + spec_field(fill, value as int, width as nat),
{
    let ghost before = out@;
    let mut i: usize = 0;
    while i < width
        invariant
            i <= width,
            out@ == before + spec_field(fill, value as int, width as nat).subrange(0, i as int),
        decreases width - i,
    {
        let place: usize = width - 1 - i;
        let mut shifted: u64 = value;
        let mut k: usize = 0;
        while k < place && shifted > 0
            invariant
                k <= place,
                shifted == value as int / (pow10(k as nat) as int),
                pow10(k as nat) > 0,
            decreases place - k,
        {
            proof {
                lemma_pow10_step(value as int, k as nat);
            }
            shifted = shifted / 10;
            k = k + 1;
        }
        proof {
            lemma_shift_done(value as int, k as nat, place as nat);
        }
        let c: char = if place == 0 || shifted > 0 {
            digit_char(shifted % 10)
        } else {
            fill
        };
        out.push(c);
        assert(out@ =~= before + spec_field(fill, value as int, width as nat).subrange(
            0,
            i + 1,
        ));
        i = i + 1;
    }
    assert(spec_field(fill, value as int, width as nat).subrange(0, width as int) =~= spec_field(
        fill,
        value as int,
        width as nat,
    ));
}

/// Once a number has been divided down to zero, dividing further leaves
/// zero.
proof fn lemma_shift_done(value: int, k: nat, place: nat)
    requires
        value >= 0,
        k <= place,
        k < place ==> value / (pow10(k) as int) == 0,
    ensures
        pow10(place) > 0,
        k < place ==> value / (pow10(place) as int) == 0,
    decreases place - k,
{
    lemma_pow10_step(value, place);
    if k < place {
        lemma_pow10_step(value, k);
        lemma_shift_done(value, k + 1, place);
    }
}

/// A decimal number in fixed width: `int_part` at the right edge of `before`
/// characters, a point, and `frac_part` at the right edge of `after`
/// characters, with `fill` to the left of each number.
pub fn format_decimal(fill: char, before: usize, after: usize, int_part: u64, frac_part: u64) -> (r:
    Vec<char>)
    ensures
        r@ == spec_format_decimal(
            fill,
            before as nat,
            after as nat,
            int_part as int,
            frac_part as int,
        ),
{
    let mut out: Vec<char> = Vec::new();
    push_field(&mut out, fill, int_part, before);
    out.push('.');
    push_field(&mut out, fill, frac_part, after);
    assert(out@ =~= spec_format_decimal(
        fill,
        before as nat,
        after as nat,
        int_part as int,
        frac_part as int,
    ));
    out
}

} // verus!
