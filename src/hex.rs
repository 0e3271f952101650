use vstd::prelude::*;

verus! {

/// The digits of lower-case hexadecimal, by value.
pub const HEX_DIGITS: &'static str = "0123456789abcdef";

/// The lower-case hexadecimal digit for `n` (below 16).
pub open spec fn hex_char(n: nat) -> char {
    HEX_DIGITS@[n as int]
}

/// `n` in lower-case hexadecimal, padded with zeros on the left to at
/// least `width` digits (at least one digit in any case).
pub open spec fn hex_digits(n: nat, width: nat) -> Seq<char>
    decreases n + width,
{
    if n < 16 && width <= 1 {
        seq![hex_char(n)]
    } else {
        hex_digits(n / 16, if width > 0 { (width - 1) as nat } else { 0 }) + seq![hex_char(n % 16)]
    }
}

/// The one-character string for digit `d`.
fn hex_digit_str(d: usize) -> (r: &'static str)
    requires
        d < 16,
    ensures
        r@ == seq![hex_char(d as nat)],
{
    proof {
        reveal_strlit("0123456789abcdef");
    }
    let r = HEX_DIGITS.substring_char(d, d + 1);
    assert(r@ =~= seq![hex_char(d as nat)]);
    r
}

/// Appends `value` in hexadecimal, with at least `width` digits.
pub fn push_hex(out: &mut String, value: usize, width: usize)
    ensures
        final(out)@ == old(out)@ + hex_digits(value as nat, width as nat),
{
    let mut n: usize = value;
    let mut w: usize = width;
    let mut digits: Vec<usize> = Vec::new();
    while !(n < 16 && w <= 1)
        invariant
            hex_digits(value as nat, width as nat) == hex_digits(n as nat, w as nat)
                + digits@.map_values(|d: usize| hex_char(d as nat)),
            forall|j: int| 0 <= j < digits.len() ==> #[trigger] digits[j] < 16,
        decreases n + w,
    {
        let ghost old_digits = digits@;
        let ghost w2: nat = if w > 0 { (w - 1) as nat } else { 0 };
        assert(hex_digits(n as nat, w as nat) == hex_digits((n / 16) as nat, w2) + seq![
            hex_char((n % 16) as nat),
        ]);
        digits.insert(0, n % 16);
        assert(digits@.map_values(|d: usize| hex_char(d as nat)) =~= seq![hex_char((n % 16) as nat)]
            + old_digits.map_values(|d: usize| hex_char(d as nat)));
        assert(hex_digits(value as nat, width as nat) == hex_digits((n / 16) as nat, w2)
            + digits@.map_values(|d: usize| hex_char(d as nat)));
        n = n / 16;
        if w > 0 {
            w = w - 1;
        }
    }
    digits.insert(0, n);
    let ghost all = hex_digits(value as nat, width as nat);
    assert(all =~= digits@.map_values(|d: usize| hex_char(d as nat)));
    let ghost start = out@;
    let mut j: usize = 0;
    while j < digits.len()
        invariant
            j <= digits.len(),
            all == digits@.map_values(|d: usize| hex_char(d as nat)),
            forall|i: int| 0 <= i < digits.len() ==> #[trigger] digits[i] < 16,
            out@ == start + all.take(j as int),
        decreases digits.len() - j,
    {
        out.append(hex_digit_str(digits[j]));
        assert(all.take(j as int + 1) =~= all.take(j as int) + seq![all[j as int]]);
        j = j + 1;
    }
    assert(all.take(digits.len() as int) =~= all);
}

} // verus!
