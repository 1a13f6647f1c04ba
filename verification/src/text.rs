//! Decimal rendering of numbers, and the text of a video mode.
use crate::monitor::{VideoModeHandle, VideoModeInfo};
use vstd::prelude::*;
use vstd::string::*;

verus! {

/// The character of a decimal digit.
pub open spec fn digit_char(d: nat) -> char {
    if d == 0 {
        '0'
    } else if d == 1 {
        '1'
    } else if d == 2 {
        '2'
    } else if d == 3 {
        '3'
    } else if d == 4 {
        '4'
    } else if d == 5 {
        '5'
    } else if d == 6 {
        '6'
    } else if d == 7 {
        '7'
    } else if d == 8 {
        '8'
    } else {
        '9'
    }
}

/// The decimal notation of a natural number, without leading zeros.
pub open spec fn decimal(n: nat) -> Seq<char>
    decreases n,
{
    if n < 10 {
        seq![digit_char(n)]
    } else {
        decimal(n / 10).push(digit_char(n % 10))
    }
}

/// A character is a decimal digit: `'0'` to `'9'`.
pub open spec fn is_digit(c: char) -> bool {
    48 <= (c as int) && (c as int) <= 57
}

/// The value of a decimal digit character.
pub open spec fn digit_value(c: char) -> int {
    (c as int) - 48
}

/// The value of a string of decimal digits, most significant digit first.
pub open spec fn digits_value(s: Seq<char>) -> int
    decreases s.len(),
{
    if s.len() == 0 {
        0
    } else {
        digits_value(s.drop_last()) * 10 + digit_value(s.last())
    }
}

/// Ten to the power `k`.
pub open spec fn power_of_ten(k: nat) -> nat
    decreases k,
{
    if k == 0 {
        1
    } else {
        10 * power_of_ten((k - 1) as nat)
    }
}

proof fn lemma_digit_char_value(d: nat)
    requires
        d < 10,
    ensures
        is_digit(digit_char(d)),
        digit_value(digit_char(d)) == d,
{
}

/// `decimal(n)` is the base-ten notation of `n`: a non-empty string of
/// decimal digits whose value is `n`, with no leading zero (`"0"` for zero),
/// and with exactly as many digits as `n` has: `10^(len-1) <= n < 10^len`
/// for positive `n`.
pub proof fn lemma_decimal_is_base_ten(n: nat)
    ensures
        decimal(n).len() >= 1,
        forall|i: int| 0 <= i < decimal(n).len() ==> is_digit(#[trigger] decimal(n)[i]),
        digits_value(decimal(n)) == n,
        n == 0 ==> decimal(n) == seq!['0'],
        n > 0 ==> decimal(n)[0] != '0',
        n > 0 ==> power_of_ten((decimal(n).len() - 1) as nat) <= n,
        n < power_of_ten(decimal(n).len()),
    decreases n,
{
    if n < 10 {
        lemma_digit_char_value(n);
        assert(decimal(n) == seq![digit_char(n)]);
        assert(seq![digit_char(n)].drop_last() =~= Seq::<char>::empty());
        assert(digits_value(Seq::<char>::empty()) == 0);
        assert(digits_value(decimal(n)) == digits_value(decimal(n).drop_last()) * 10
            + digit_value(decimal(n).last()));
        assert(power_of_ten(1) == 10) by {
            assert(power_of_ten(0) == 1);
        }
        assert(power_of_ten(0) == 1);
    } else {
        let q = n / 10;
        let d = n % 10;
        lemma_decimal_is_base_ten(q);
        lemma_digit_char_value(d);
        let prefix = decimal(q);
        assert(decimal(n) == prefix.push(digit_char(d)));
        assert(prefix.push(digit_char(d)).drop_last() =~= prefix);
        assert(digits_value(decimal(n)) == digits_value(decimal(n).drop_last()) * 10
            + digit_value(decimal(n).last()));
        assert(digits_value(decimal(n)) == digits_value(prefix) * 10 + d);
        assert(q * 10 + d == n);
        assert forall|i: int| 0 <= i < decimal(n).len() implies is_digit(#[trigger] decimal(n)[i]) by {
            if i < prefix.len() {
                assert(decimal(n)[i] == prefix[i]);
            }
        }
        assert(decimal(n)[0] == prefix[0]);
        let k = prefix.len();
        assert(power_of_ten(k + 1) == 10 * power_of_ten(k));
        assert(power_of_ten(k) == 10 * power_of_ten((k - 1) as nat));
    }
}

/// The text of a video mode: `{width}x{height} @ {refresh} mHz ({depth} bpp)`.
pub open spec fn video_mode_text(info: VideoModeInfo) -> Seq<char> {
    decimal(info.size.width as nat) + seq!['x'] + decimal(info.size.height as nat) + seq![
        ' ',
        '@',
        ' ',
    ] + decimal(info.refresh_rate_millihertz as nat) + seq![' ', 'm', 'H', 'z', ' ', '(']
        + decimal(info.bit_depth as nat) + seq![' ', 'b', 'p', 'p', ')']
}

/// The text of a video mode is the base-ten width, `x`, the base-ten height,
/// ` @ `, the base-ten refresh rate, ` mHz (`, the base-ten bit depth and
/// ` bpp)`; each number reads back as the value it renders.
pub proof fn lemma_video_mode_text_reads_back(info: VideoModeInfo)
    ensures
        video_mode_text(info) =~= decimal(info.size.width as nat) + seq!['x'] + decimal(
            info.size.height as nat,
        ) + seq![' ', '@', ' '] + decimal(info.refresh_rate_millihertz as nat) + seq![
            ' ',
            'm',
            'H',
            'z',
            ' ',
            '(',
        ] + decimal(info.bit_depth as nat) + seq![' ', 'b', 'p', 'p', ')'],
        digits_value(decimal(info.size.width as nat)) == info.size.width,
        digits_value(decimal(info.size.height as nat)) == info.size.height,
        digits_value(decimal(info.refresh_rate_millihertz as nat)) == info.refresh_rate_millihertz,
        digits_value(decimal(info.bit_depth as nat)) == info.bit_depth,
{
    lemma_decimal_is_base_ten(info.size.width as nat);
    lemma_decimal_is_base_ten(info.size.height as nat);
    lemma_decimal_is_base_ten(info.refresh_rate_millihertz as nat);
    lemma_decimal_is_base_ten(info.bit_depth as nat);
}

fn append_digit(out: &mut String, d: u64)
    requires
        d < 10,
    ensures
        final(out)@ == old(out)@.push(digit_char(d as nat)),
{
    if d == 0 {
        proof {
            reveal_strlit("0");
        }
        out.append("0");
    } else if d == 1 {
        proof {
            reveal_strlit("1");
        }
        out.append("1");
    } else if d == 2 {
        proof {
            reveal_strlit("2");
        }
        out.append("2");
    } else if d == 3 {
        proof {
            reveal_strlit("3");
        }
        out.append("3");
    } else if d == 4 {
        proof {
            reveal_strlit("4");
        }
        out.append("4");
    } else if d == 5 {
        proof {
            reveal_strlit("5");
        }
        out.append("5");
    } else if d == 6 {
        proof {
            reveal_strlit("6");
        }
        out.append("6");
    } else if d == 7 {
        proof {
            reveal_strlit("7");
        }
        out.append("7");
    } else if d == 8 {
        proof {
            reveal_strlit("8");
        }
        out.append("8");
    } else {
        proof {
            reveal_strlit("9");
        }
        out.append("9");
    }
}

/// Appends the decimal notation of `n` to `out`.
pub fn append_decimal(out: &mut String, n: u64)
    ensures
        final(out)@ == old(out)@ + decimal(n as nat),
    decreases n,
{
    if n < 10 {
        append_digit(out, n);
        assert(decimal(n as nat) == seq![digit_char(n as nat)]);
    } else {
        append_decimal(out, n / 10);
        append_digit(out, n % 10);
        assert(decimal(n as nat) == decimal((n / 10) as nat).push(digit_char((n % 10) as nat)));
    }
}

impl VideoModeHandle {
    /// The text of this video mode, as in `1920x1080 @ 60000 mHz (32 bpp)`.
    pub fn to_string(&self) -> (text: String)
        ensures
            text@ == video_mode_text(self@.info),
    {
        let size = self.size();
        let mut text = String::new();
        append_decimal(&mut text, size.width as u64);
        proof {
            reveal_strlit("x");
        }
        text.append("x");
        append_decimal(&mut text, size.height as u64);
        proof {
            reveal_strlit(" @ ");
        }
        text.append(" @ ");
        append_decimal(&mut text, self.refresh_rate_millihertz() as u64);
        proof {
            reveal_strlit(" mHz (");
        }
        text.append(" mHz (");
        append_decimal(&mut text, self.bit_depth() as u64);
        proof {
            reveal_strlit(" bpp)");
        }
        text.append(" bpp)");
        assert(text@ =~= video_mode_text(self@.info));
        text
    }
}

} // verus!
