//! What is made of texts and numbers, whatever they are.

use vstd::prelude::*;

use crate::fields;
use crate::fields::is_trim_of;
use crate::text;

verus! {

/// The number that the digits spell in base ten.
pub open spec fn spelled(digits: Seq<char>) -> int
    decreases digits.len(),
{
    if digits.len() == 0 {
        0
    } else {
        spelled(digits.drop_last()) * 10 + (digits.last() as int - '0' as int)
    }
}

/// Whether the text spells this number in base ten, without leading zeros.
pub open spec fn spells(digits: Seq<char>, n: int) -> bool {
    &&& digits.len() > 0
    &&& forall|i: int| 0 <= i < digits.len() ==> '0' <= #[trigger] digits[i] <= '9'
    &&& digits.len() > 1 ==> digits[0] != '0'
    &&& spelled(digits) == n
}

pub proof fn lemma_decimal_spells(n: nat)
    ensures
        spells(text::decimal(n), n as int),
        n > 0 ==> text::decimal(n)[0] != '0',
    decreases n,
{
    if n < 10 {
        reveal_with_fuel(spelled, 2);
        let digits = text::decimal(n);
        assert(digits.drop_last() =~= Seq::empty());
        assert(digits.last() == text::digit(n as int));
    } else {
        lemma_decimal_spells(n / 10);
        let front = text::decimal(n / 10);
        let digits = text::decimal(n);
        assert(digits.drop_last() =~= front);
        assert(digits[0] == front[0]);
        assert(n == (n / 10) * 10 + n % 10);
        assert forall|i: int| 0 <= i < digits.len() implies '0' <= #[trigger] digits[i] <= '9' by {
            if i < front.len() {
                assert(digits[i] == front[i]);
            } else {
                assert(digits[i] == text::digit((n % 10) as int));
            }
        }
    }
}

/// A number is written so that its digits spell it in base ten.
pub proof fn law_number_is_spelled(n: u64, r: String)
    requires
        call_ensures(text::decimal_text, (n,), r),
    ensures
        spells(r@, n as int),
{
    lemma_decimal_spells(n as nat);
}

/// The value of a lower-case hexadecimal digit.
pub open spec fn hex_value(c: char) -> int {
    if '0' <= c <= '9' {
        c as int - '0' as int
    } else {
        c as int - 'a' as int + 10
    }
}

pub proof fn lemma_hex_values(bytes: Seq<u8>)
    ensures
        text::hex(bytes).len() == 2 * bytes.len(),
        forall|i: int|
            0 <= i < bytes.len() ==> #[trigger] bytes[i] as int == hex_value(
                text::hex(bytes)[2 * i],
            ) * 16 + hex_value(text::hex(bytes)[2 * i + 1]),
    decreases bytes.len(),
{
    if bytes.len() > 0 {
        let before = bytes.drop_last();
        lemma_hex_values(before);
        let all = text::hex(bytes);
        let front = text::hex(before);
        let last = bytes.last() as int;
        assert(0 <= last / 16 < 16 && 0 <= last % 16 < 16);
        assert(hex_value(text::digit(last / 16)) == last / 16);
        assert(hex_value(text::digit(last % 16)) == last % 16);
        assert forall|i: int| 0 <= i < bytes.len() implies #[trigger] bytes[i] as int == hex_value(
            all[2 * i],
        ) * 16 + hex_value(all[2 * i + 1]) by {
            if i < before.len() {
                assert(before[i] == bytes[i]);
                assert(all[2 * i] == front[2 * i] && all[2 * i + 1] == front[2 * i + 1]);
            } else {
                assert(all[2 * i] == text::digit(last / 16));
                assert(all[2 * i + 1] == text::digit(last % 16));
            }
        }
    }
}

/// Each byte is written as two digits that spell it in base sixteen, in order.
pub proof fn law_bytes_are_spelled_in_base_sixteen(bytes: &[u8], r: String)
    requires
        call_ensures(text::hex_text, (bytes,), r),
    ensures
        r@.len() == 2 * bytes@.len(),
        forall|i: int|
            0 <= i < bytes@.len() ==> #[trigger] bytes@[i] as int == hex_value(r@[2 * i]) * 16
                + hex_value(r@[2 * i + 1]),
{
    lemma_hex_values(bytes@);
}

/// A trimmed text is what is left between the white space at the two ends of a text.
pub proof fn law_trimming_takes_the_ends(s: &str, r: String)
    requires
        call_ensures(text::trim, (s,), r),
    ensures
        is_trim_of(r@, s@),
{
    fields::lemma_trim(s@);
}

/// A file in a directory is named behind the directory and one slash.
pub proof fn law_file_is_named_behind_its_directory(directory: &str, file: &str, r: String)
    requires
        call_ensures(text::path_in, (directory, file), r),
        directory@.len() > 0,
    ensures
        ({
            let n = directory@.len() as int;
            &&& r@.take(n) == directory@
            &&& directory@.last() == '/' ==> r@.skip(n) == file@
            &&& directory@.last() != '/' ==> r@[n] == '/' && r@.skip(n + 1) == file@
        }),
{
    reveal_strlit("/");
    let n = directory@.len() as int;
    assert(r@.take(n) =~= directory@);
    if directory@.last() == '/' {
        assert(r@.skip(n) =~= file@);
    } else {
        assert(r@.skip(n + 1) =~= file@);
    }
}

} // verus!
