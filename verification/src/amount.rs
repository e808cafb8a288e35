//! Token amounts: decimal text with up to nine places, read as nano tokens.

use crate::text::{
    all_digits, bounded_value, decimal_text, digits_value, is_digit, parse_unsigned,
    trim, trimmed, trimmed_end, trimmed_start, unsigned_digits, unsigned_value, white_space,
};
use crate::text::law_decimal_reads_back;
use vstd::prelude::*;
use vstd::utf8::{encode_utf8, is_ascii_chars, is_ascii_chars_encode_utf8};

verus! {

/// Nano tokens in one token.
pub const ONE_TOKEN: u128 = 1_000_000_000;

/// Decimal places of a token amount.
pub const TOKEN_PLACES: usize = 9;

/// Why a text is no token amount.
#[derive(Clone, Copy, Debug, PartialEq, Eq, Structural)]
pub enum AmountError {
    /// Nothing but white space.
    Empty,
    /// The part before the point is no number, or does not fit.
    InvalidWhole,
    /// More than nine places after the point.
    TooManyPlaces,
    /// The part after the point is no number.
    InvalidFraction,
    /// The amount in nano tokens does not fit.
    TooLarge,
}

/// The text before the first point, or all of it.
pub open spec fn whole_part(s: Seq<char>) -> Seq<char> {
    match s.index_of_first('.') {
        Some(i) => s.take(i),
        None => s,
    }
}

/// The text behind the first point, or nothing.
pub open spec fn fraction_part(s: Seq<char>) -> Seq<char> {
    match s.index_of_first('.') {
        Some(i) => s.skip(i + 1),
        None => Seq::empty(),
    }
}

/// `n` zeros.
pub open spec fn zeros(n: int) -> Seq<char> {
    Seq::new(n as nat, |i: int| '0')
}

/// The bytes that `s` takes in UTF-8.
pub open spec fn byte_len(s: Seq<char>) -> int {
    encode_utf8(s).len() as int
}

/// The fraction, filled up with zeros to nine places.
pub open spec fn filled_fraction(s: Seq<char>) -> Seq<char> {
    s + zeros(TOKEN_PLACES - byte_len(s))
}

/// The nano tokens that `value` names.
///
/// White space around it is ignored. Each part may carry one leading plus sign.
pub open spec fn nano_amount(value: Seq<char>) -> Result<u128, AmountError> {
    let text = trimmed(value);
    let fraction = fraction_part(text);
    if text.len() == 0 {
        Err(AmountError::Empty)
    } else {
        match bounded_value(whole_part(text), u128::MAX as int) {
            None => Err(AmountError::InvalidWhole),
            Some(whole) => if byte_len(fraction) > TOKEN_PLACES {
                Err(AmountError::TooManyPlaces)
            } else {
                match bounded_value(filled_fraction(fraction), u128::MAX as int) {
                    None => Err(AmountError::InvalidFraction),
                    Some(part) => if whole * ONE_TOKEN + part > u128::MAX {
                        Err(AmountError::TooLarge)
                    } else {
                        Ok((whole * ONE_TOKEN + part) as u128)
                    },
                }
            },
        }
    }
}

/// Splits `s` at its first point.
fn split_at_point(s: &str) -> (r: (&str, &str))
    ensures
        r.0@ == whole_part(s@),
        r.1@ == fraction_part(s@),
{
    let n: usize = s.unicode_len();
    let mut i: usize = 0;
    proof {
        s@.index_of_first_ensures('.');
    }
    while i < n
        invariant
            i <= n,
            n == s@.len(),
            forall|j: int| 0 <= j < i ==> s@[j] != '.',
        decreases n - i,
    {
        if s.get_char(i) == '.' {
            proof {
                s@.index_of_first_ensures('.');
                assert(s@.contains('.'));
                assert(s@.index_of_first('.') == Some(i as int));
                assert(s@.subrange(0, i as int) =~= s@.take(i as int));
                assert(s@.subrange(i + 1, n as int) =~= s@.skip(i + 1));
            }
            return (s.substring_char(0, i), s.substring_char(i + 1, n));
        }
        i = i + 1;
    }
    assert(s@.index_of_first('.') is None);
    assert(s@.subrange(n as int, n as int) =~= Seq::<char>::empty());
    (s, s.substring_char(n, n))
}

/// Fills a fraction of at most nine bytes up to nine places.
fn fill_fraction(fraction: &str, len: usize) -> (r: String)
    requires
        len == byte_len(fraction@),
        len <= TOKEN_PLACES,
    ensures
        r@ == filled_fraction(fraction@),
{
    let mut filled: String = fraction.to_owned();
    let missing: usize = TOKEN_PLACES - len;
    let mut i: usize = 0;
    proof {
        reveal_strlit("0");
    }
    assert(filled@ =~= fraction@ + zeros(0));
    while i < missing
        invariant
            i <= missing,
            filled@ == fraction@ + zeros(i as int),
            "0"@ =~= seq!['0'],
        decreases missing - i,
    {
        filled.append("0");
        assert(filled@ =~= fraction@ + zeros(i + 1));
        i = i + 1;
    }
    filled
}

/// Reads a token amount such as `12.5` as nano tokens.
pub fn parse_tokens_to_nano(value: &str) -> (r: Result<u128, AmountError>)
    ensures
        r == nano_amount(value@),
{
    let text: &str = trim(value);
    if text.unicode_len() == 0 {
        return Err(AmountError::Empty);
    }
    let (whole_text, fraction) = split_at_point(text);
    let whole: u128 = match parse_unsigned(whole_text, u128::MAX) {
        Some(v) => v,
        None => {
            return Err(AmountError::InvalidWhole);
        },
    };
    let len: usize = fraction.as_bytes().len();
    if len > TOKEN_PLACES {
        return Err(AmountError::TooManyPlaces);
    }
    let filled: String = fill_fraction(fraction, len);
    let part: u128 = match parse_unsigned(filled.as_str(), u128::MAX) {
        Some(v) => v,
        None => {
            return Err(AmountError::InvalidFraction);
        },
    };
    let nano: Option<u128> = match whole.checked_mul(ONE_TOKEN) {
        Some(v) => v.checked_add(part),
        None => None,
    };
    match nano {
        Some(v) => Ok(v),
        None => {
            proof {
                assert(part >= 0);
                if whole * ONE_TOKEN + part <= u128::MAX {
                    assert(whole * ONE_TOKEN <= u128::MAX);
                }
            }
            Err(AmountError::TooLarge)
        },
    }
}

/// `k` digits of `m`, with leading zeros.
pub open spec fn fixed_digits(m: int, k: int) -> Seq<char>
    decreases k,
{
    if k <= 0 {
        Seq::empty()
    } else {
        fixed_digits(m / 10, k - 1).push(crate::text::digit_char(m % 10))
    }
}

/// `n` nano tokens written out in tokens, with all nine places.
pub open spec fn amount_text(n: int) -> Seq<char> {
    decimal_text(n / ONE_TOKEN as int) + seq!['.'] + fixed_digits(
        n % ONE_TOKEN as int,
        TOKEN_PLACES as int,
    )
}

/// Ten to the power `k`.
pub open spec fn power_of_ten(k: int) -> int
    decreases k,
{
    if k <= 0 {
        1
    } else {
        10 * power_of_ten(k - 1)
    }
}

proof fn lemma_fixed_digits(m: int, k: int)
    requires
        0 <= k,
        0 <= m < power_of_ten(k),
    ensures
        fixed_digits(m, k).len() == k,
        all_digits(fixed_digits(m, k)),
        digits_value(fixed_digits(m, k)) == m,
    decreases k,
{
    if k > 0 {
        let s = fixed_digits(m, k);
        let head = fixed_digits(m / 10, k - 1);
        lemma_fixed_digits(m / 10, k - 1);
        assert(s.drop_last() =~= head);
        assert forall|i: int| 0 <= i < s.len() implies is_digit(#[trigger] s[i]) by {
            if i < head.len() {
                assert(head[i] == s[i]);
            }
        }
    }
}

/// Every amount of nano tokens can be written out, and reads back as itself.
pub proof fn law_written_amount_reads_back(n: u128)
    ensures
        nano_amount(amount_text(n as int)) == Ok::<u128, AmountError>(n),
{
    let whole = n as int / ONE_TOKEN as int;
    let part = n as int % ONE_TOKEN as int;
    let head = decimal_text(whole);
    let tail = fixed_digits(part, 9);
    let text = amount_text(n as int);
    reveal_with_fuel(power_of_ten, 11);
    lemma_fixed_digits(part, 9);
    law_decimal_reads_back(whole);
    assert(unsigned_digits(head) == head) by {
        assert(unsigned_value(head) == Some(whole));
        if head[0] == '+' {
            crate::text::lemma_decimal_digits(whole);
            assert(is_digit(head[0]));
        }
    }
    crate::text::lemma_decimal_digits(whole);
    assert(is_digit(head[0]));
    assert(text[0] == head[0]);
    assert(trimmed_start(text) == text);
    assert(is_digit(tail[8]));
    assert(text.last() == tail[8]);
    assert(trimmed(text) == text);
    text.index_of_first_ensures('.');
    assert(text[head.len() as int] == '.');
    assert forall|j: int| 0 <= j < text.len() && text[j] == '.' implies j == head.len() by {
        if j < head.len() {
            assert(is_digit(head[j]));
        } else if j > head.len() {
            assert(text[j] == tail[j - head.len() - 1]);
            assert(is_digit(tail[j - head.len() - 1]));
        }
    }
    assert(text.index_of_first('.') == Some(head.len() as int));
    assert(text.take(head.len() as int) =~= head);
    assert(text.skip(head.len() as int + 1) =~= tail);
    assert(is_ascii_chars(tail)) by {
        assert forall|i: int| 0 <= i < tail.len() implies '\0' <= #[trigger] tail[i]
            <= '\u{7f}' by {
            assert(is_digit(tail[i]));
        }
    }
    is_ascii_chars_encode_utf8(tail);
    assert(filled_fraction(tail) =~= tail);
    assert(is_digit(tail[0]));
    assert(unsigned_value(tail) == Some(part));
    assert(whole * ONE_TOKEN + part == n);
}

pub open spec fn all_white_space(s: Seq<char>) -> bool {
    forall|i: int| 0 <= i < s.len() ==> white_space(#[trigger] s[i])
}

proof fn lemma_trimmed_start_skips(space: Seq<char>, s: Seq<char>)
    requires
        all_white_space(space),
    ensures
        trimmed_start(space + s) == trimmed_start(s),
    decreases space.len(),
{
    if space.len() == 0 {
        assert(space + s =~= s);
    } else {
        let both = space + s;
        assert(white_space(space[0]));
        assert(both.drop_first() =~= space.drop_first() + s);
        lemma_trimmed_start_skips(space.drop_first(), s);
    }
}

proof fn lemma_trimmed_end_skips(s: Seq<char>, space: Seq<char>)
    requires
        all_white_space(space),
    ensures
        trimmed_end(s + space) == trimmed_end(s),
    decreases space.len(),
{
    if space.len() == 0 {
        assert(s + space =~= s);
    } else {
        let both = s + space;
        assert(both.last() == space.last());
        assert(white_space(space.last()));
        assert(both.drop_last() =~= s + space.drop_last());
        lemma_trimmed_end_skips(s, space.drop_last());
    }
}

proof fn lemma_trimmed_start_keeps_end(s: Seq<char>, space: Seq<char>)
    requires
        all_white_space(space),
    ensures
        trimmed_end(trimmed_start(s + space)) == trimmed_end(trimmed_start(s)),
    decreases s.len(),
{
    let both = s + space;
    if s.len() == 0 {
        assert(both =~= space + Seq::<char>::empty());
        lemma_trimmed_start_skips(space, Seq::empty());
        assert(s =~= Seq::<char>::empty());
    } else if white_space(s[0]) {
        assert(both.drop_first() =~= s.drop_first() + space);
        lemma_trimmed_start_keeps_end(s.drop_first(), space);
    } else {
        lemma_trimmed_end_skips(s, space);
    }
}

/// White space around an amount changes nothing.
pub proof fn law_white_space_around_is_ignored(before: Seq<char>, s: Seq<char>, after: Seq<char>)
    requires
        all_white_space(before),
        all_white_space(after),
    ensures
        nano_amount(before + s + after) == nano_amount(s),
{
    assert(before + s + after =~= before + (s + after));
    lemma_trimmed_start_skips(before, s + after);
    lemma_trimmed_start_keeps_end(s, after);
}

proof fn lemma_digits_value_bound(s: Seq<char>, k: int)
    requires
        all_digits(s),
        s.len() <= k,
    ensures
        0 <= digits_value(s) < power_of_ten(k),
    decreases k,
{
    if s.len() == 0 {
        if k > 0 {
            lemma_digits_value_bound(s, k - 1);
        }
    } else {
        assert(is_digit(s.last()));
        lemma_digits_value_bound(s.drop_last(), k - 1);
    }
}

/// The fraction of an amount stays below one token: the whole tokens of the amount are the
/// number in front of the point.
pub proof fn law_fraction_is_below_one_token(value: Seq<char>)
    requires
        nano_amount(value) is Ok,
    ensures
        bounded_value(whole_part(trimmed(value)), u128::MAX as int) == Some(
            nano_amount(value)->Ok_0 as int / ONE_TOKEN as int,
        ),
{
    let fraction = fraction_part(trimmed(value));
    let filled = filled_fraction(fraction);
    let digits = unsigned_digits(filled);
    assert(is_ascii_chars(fraction)) by {
        assert forall|i: int| 0 <= i < fraction.len() implies '\0' <= #[trigger] fraction[i]
            <= '\u{7f}' by {
            assert(fraction[i] == filled[i]);
            if filled[0] == '+' {
                if i > 0 {
                    assert(is_digit(digits[i - 1]));
                }
            } else {
                assert(is_digit(digits[i]));
            }
        }
    }
    is_ascii_chars_encode_utf8(fraction);
    assert(filled.len() == 9);
    reveal_with_fuel(power_of_ten, 11);
    lemma_digits_value_bound(digits, 9);
    let whole = bounded_value(whole_part(trimmed(value)), u128::MAX as int)->Some_0;
    let part = digits_value(digits);
    let whole_digits = unsigned_digits(whole_part(trimmed(value)));
    lemma_digits_value_bound(whole_digits, whole_digits.len() as int);
    assert(whole >= 0);
    assert((whole * 1_000_000_000 + part) / 1_000_000_000 == whole);
}

impl AmountError {
    /// What the user is told of `value`, which was refused for this reason.
    pub open spec fn text(self, value: Seq<char>) -> Seq<char> {
        match self {
            AmountError::Empty => "amount is empty"@,
            AmountError::InvalidWhole => "invalid whole token amount `"@ + whole_part(
                trimmed(value),
            ) + "`"@,
            AmountError::TooManyPlaces => "token amount has more than 9 decimal places"@,
            AmountError::InvalidFraction => "invalid fractional token amount `"@ + fraction_part(
                trimmed(value),
            ) + "`"@,
            AmountError::TooLarge => "token amount is too large"@,
        }
    }

    /// Tells the user why `value` was refused.
    pub fn message(self, value: &str) -> (r: String)
        ensures
            r@ == self.text(value@),
    {
        let (whole, fraction) = split_at_point(trim(value));
        match self {
            AmountError::Empty => "amount is empty".to_owned(),
            AmountError::InvalidWhole => "invalid whole token amount `".to_owned().concat(
                whole,
            ).concat("`"),
            AmountError::TooManyPlaces => "token amount has more than 9 decimal places".to_owned(),
            AmountError::InvalidFraction => "invalid fractional token amount `".to_owned().concat(
                fraction,
            ).concat("`"),
            AmountError::TooLarge => "token amount is too large".to_owned(),
        }
    }
}

proof fn lemma_zeros_scale(s: Seq<char>, k: int)
    requires
        0 <= k,
        all_digits(s),
    ensures
        all_digits(s + zeros(k)),
        digits_value(s + zeros(k)) == digits_value(s) * power_of_ten(k),
    decreases k,
{
    let more = s + zeros(k);
    if k == 0 {
        assert(more =~= s);
    } else {
        lemma_zeros_scale(s, k - 1);
        let less = s + zeros(k - 1);
        assert(more.drop_last() =~= less);
        assert(more.last() == '0');
        assert forall|i: int| 0 <= i < more.len() implies is_digit(#[trigger] more[i]) by {
            if i < less.len() {
                assert(less[i] == more[i]);
            }
        }
        assert(10 * (digits_value(s) * power_of_ten(k - 1)) == digits_value(s) * (10
            * power_of_ten(k - 1))) by (nonlinear_arith);
    }
}

/// An amount in digits with a point is what its digits say: the number in front of the point in
/// tokens, and the one behind it in the parts of a token that its places name. It is refused where
/// that is more than the largest amount.
pub proof fn law_amount_is_what_its_digits_say(whole: Seq<char>, fraction: Seq<char>)
    requires
        whole.len() > 0,
        all_digits(whole),
        all_digits(fraction),
        fraction.len() <= 9,
    ensures
        ({
            let nano = digits_value(whole) * 1_000_000_000 + digits_value(fraction) * power_of_ten(
                9 - fraction.len(),
            );
            let read = nano_amount(whole + seq!['.'] + fraction);
            if nano <= u128::MAX {
                read matches Ok(v) && v == nano
            } else {
                read is Err
            }
        }),
{
    let text = whole + seq!['.'] + fraction;
    assert(is_digit(whole[0]));
    assert(text[0] == whole[0]);
    assert(trimmed_start(text) == text);
    if fraction.len() > 0 {
        assert(is_digit(fraction.last()));
        assert(text.last() == fraction.last());
    } else {
        assert(text.last() == '.');
    }
    assert(trimmed(text) == text);
    text.index_of_first_ensures('.');
    assert(text[whole.len() as int] == '.');
    assert forall|j: int| 0 <= j < text.len() && text[j] == '.' implies j == whole.len() by {
        if j < whole.len() {
            assert(is_digit(whole[j]));
        } else if j > whole.len() {
            assert(text[j] == fraction[j - whole.len() - 1]);
            assert(is_digit(fraction[j - whole.len() - 1]));
        }
    }
    assert(text.index_of_first('.') == Some(whole.len() as int));
    assert(text.take(whole.len() as int) =~= whole);
    assert(text.skip(whole.len() as int + 1) =~= fraction);
    lemma_digit_fraction(fraction);
    lemma_digits_value_bound(whole, whole.len() as int);
    lemma_digits_value_bound(fraction, fraction.len() as int);
    lemma_zeros_scale(fraction, 9 - fraction.len());
    lemma_digits_value_bound(filled_fraction(fraction), 9);
    reveal_with_fuel(power_of_ten, 11);
    assert(unsigned_digits(whole) == whole);
}

proof fn lemma_digit_fraction(fraction: Seq<char>)
    requires
        all_digits(fraction),
        fraction.len() <= 9,
    ensures
        byte_len(fraction) == fraction.len(),
        filled_fraction(fraction) == fraction + zeros(9 - fraction.len()),
        filled_fraction(fraction).len() == 9,
        all_digits(filled_fraction(fraction)),
        unsigned_digits(filled_fraction(fraction)) == filled_fraction(fraction),
{
    assert(is_ascii_chars(fraction)) by {
        assert forall|i: int| 0 <= i < fraction.len() implies '\0' <= #[trigger] fraction[i]
            <= '\u{7f}' by {
            assert(is_digit(fraction[i]));
        }
    }
    is_ascii_chars_encode_utf8(fraction);
    lemma_zeros_scale(fraction, 9 - fraction.len());
    assert(is_digit(filled_fraction(fraction)[0]));
}

/// An amount in digits without a point is that many whole tokens.
pub proof fn law_whole_amount_is_in_tokens(whole: Seq<char>)
    requires
        whole.len() > 0,
        all_digits(whole),
    ensures
        if digits_value(whole) * 1_000_000_000 <= u128::MAX {
            nano_amount(whole) matches Ok(v) && v == digits_value(whole) * 1_000_000_000
        } else {
            nano_amount(whole) is Err
        },
{
    assert(is_digit(whole[0]));
    assert(is_digit(whole.last()));
    assert(trimmed(whole) == whole);
    whole.index_of_first_ensures('.');
    assert(!whole.contains('.')) by {
        if whole.contains('.') {
            let i = whole.index_of('.');
            assert(is_digit(whole[i]));
        }
    }
    let none = Seq::<char>::empty();
    assert(fraction_part(whole) =~= none);
    lemma_digit_fraction(none);
    lemma_zeros_scale(none, 9);
    lemma_digits_value_bound(whole, whole.len() as int);
    assert(unsigned_digits(whole) == whole);
}

/// Nothing but white space is no amount, and is refused as empty. Nothing else is.
pub proof fn law_only_nothing_is_empty(value: Seq<char>)
    ensures
        nano_amount(value) == Err::<u128, AmountError>(AmountError::Empty) <==> all_white_space(
            value,
        ),
{
    crate::text::law_trimming_takes_white_space_only(value);
    if all_white_space(value) {
        lemma_trimmed_start_skips(value, Seq::empty());
        assert(value + Seq::<char>::empty() =~= value);
        assert(trimmed(value).len() == 0);
    } else if trimmed(value).len() == 0 {
        let (a, b) = choose|a: int, b: int|
            0 <= a <= b <= value.len() && trimmed(value) == #[trigger] value.subrange(a, b)
                && forall|i: int| 0 <= i < a || b <= i < value.len() ==> white_space(
                #[trigger] value[i],
            );
        assert(a == b);
        assert(all_white_space(value));
    }
}

/// White space around a text is taken off, and nothing is left of white space alone.
pub proof fn law_white_space_is_trimmed(before: Seq<char>, inner: Seq<char>, behind: Seq<char>)
    requires
        all_white_space(before),
        all_white_space(behind),
        inner.len() > 0,
        !white_space(inner[0]),
        !white_space(inner.last()),
    ensures
        trimmed(before + inner + behind) == inner,
        trimmed(before).len() == 0,
{
    assert(before + inner + behind =~= before + (inner + behind));
    lemma_trimmed_start_skips(before, inner + behind);
    lemma_trimmed_start_keeps_end(inner, behind);
    lemma_trimmed_start_skips(before, Seq::empty());
    assert(before + Seq::<char>::empty() =~= before);
}

/// An amount that is refused is refused for the first thing that is wrong with it: the part in front
/// of the point, the number of places behind it, what stands there, and the size of the whole.
pub proof fn law_amount_is_refused_for_a_reason(whole: Seq<char>, fraction: Seq<char>)
    requires
        whole.len() > 0,
        !whole.contains('.'),
        trimmed(whole + seq!['.'] + fraction) == whole + seq!['.'] + fraction,
    ensures
        ({
            let read = nano_amount(whole + seq!['.'] + fraction);
            let readable = unsigned_value(whole) matches Some(v) && v <= u128::MAX;
            &&& !readable ==> read == Err::<u128, AmountError>(AmountError::InvalidWhole)
            &&& readable && encode_utf8(fraction).len() > 9 ==> read == Err::<u128, AmountError>(
                AmountError::TooManyPlaces,
            )
            &&& readable && encode_utf8(fraction).len() <= 9 && (exists|i: int|
                0 <= i < fraction.len() && !is_digit(#[trigger] fraction[i]) && !(i == 0
                    && fraction[0] == '+')) ==> read == Err::<u128, AmountError>(
                AmountError::InvalidFraction,
            )
            &&& readable && all_digits(fraction) && fraction.len() <= 9 ==> match read {
                Ok(v) => v >= unsigned_value(whole)->Some_0 * 1_000_000_000,
                Err(e) => e == AmountError::TooLarge,
            }
        }),
{
    let text = whole + seq!['.'] + fraction;
    text.index_of_first_ensures('.');
    assert(text[whole.len() as int] == '.');
    assert forall|j: int| 0 <= j < whole.len() implies text[j] != '.' by {
        assert(text[j] == whole[j]);
        if whole[j] == '.' {
            assert(whole.contains('.'));
        }
    }
    assert(text.index_of_first('.') == Some(whole.len() as int));
    assert(text.take(whole.len() as int) =~= whole);
    assert(text.skip(whole.len() as int + 1) =~= fraction);
    if exists|i: int|
        0 <= i < fraction.len() && !is_digit(#[trigger] fraction[i]) && !(i == 0 && fraction[0]
            == '+') {
        let i = choose|i: int|
            0 <= i < fraction.len() && !is_digit(#[trigger] fraction[i]) && !(i == 0 && fraction[0]
                == '+');
        let filled = filled_fraction(fraction);
        assert(filled[i] == fraction[i]);
        if filled[0] == '+' {
            assert(fraction[0] == filled[0]);
            assert(unsigned_digits(filled)[i - 1] == fraction[i]);
        } else {
            assert(unsigned_digits(filled)[i] == fraction[i]);
        }
    }
    if all_digits(fraction) && fraction.len() <= 9 {
        lemma_digit_fraction(fraction);
        lemma_digits_value_bound(filled_fraction(fraction), 9);
        reveal_with_fuel(power_of_ten, 11);
    }
}

} // verus!
