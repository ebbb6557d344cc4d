//! How numbers are written, and how texts are ordered.

use crate::text::{
    digit_text, int_text, lemma_text_less_order, nat_text, push_i64, push_u64, str_less, text_less,
};
use vstd::prelude::*;

verus! {

/// Whether a text holds decimal digits alone.
pub open spec fn digits_only(text: Seq<char>) -> bool {
    forall|i: int| 0 <= i < text.len() ==> '0' <= #[trigger] text[i] <= '9'
}

/// Whether a text does not hold a character.
pub open spec fn lacks(text: Seq<char>, c: char) -> bool {
    forall|i: int| 0 <= i < text.len() ==> #[trigger] text[i] != c
}

/// The text of a digit is one character, and no two digits share it.
proof fn lemma_digit_text(a: nat, b: nat)
    requires
        a < 10,
        b < 10,
    ensures
        digit_text(a).len() == 1,
        digits_only(digit_text(a)),
        digit_text(a)[0] == digit_text(b)[0] ==> a == b,
{
    reveal_strlit("0");
    reveal_strlit("1");
    reveal_strlit("2");
    reveal_strlit("3");
    reveal_strlit("4");
    reveal_strlit("5");
    reveal_strlit("6");
    reveal_strlit("7");
    reveal_strlit("8");
    reveal_strlit("9");
}

/// A decimal number is written in digits, at least one.
pub(crate) proof fn lemma_nat_text_is_digits(n: nat)
    ensures
        nat_text(n).len() > 0,
        digits_only(nat_text(n)),
    decreases n,
{
    if n < 10 {
        lemma_digit_text(n, n);
    } else {
        lemma_nat_text_is_digits(n / 10);
        lemma_digit_text(n % 10, n % 10);
    }
}

/// Different numbers are written differently.
pub(crate) proof fn lemma_nat_text_injective(a: nat, b: nat)
    requires
        nat_text(a) == nat_text(b),
    ensures
        a == b,
    decreases a,
{
    lemma_digit_text(a % 10, b % 10);
    lemma_digit_text(b % 10, a % 10);
    lemma_nat_text_is_digits(a / 10);
    lemma_nat_text_is_digits(b / 10);
    assert(nat_text(a).last() == digit_text(a % 10)[0]);
    assert(nat_text(b).last() == digit_text(b % 10)[0]);
    if a >= 10 && b >= 10 {
        assert(nat_text(a).drop_last() =~= nat_text(a / 10));
        assert(nat_text(b).drop_last() =~= nat_text(b / 10));
        lemma_nat_text_injective(a / 10, b / 10);
    }
}

/// The number that a text of decimal digits stands for.
pub open spec fn value_of(text: Seq<char>) -> int
    decreases text.len(),
{
    if text.len() == 0 {
        0
    } else {
        10 * value_of(text.drop_last()) + (text.last() as int - '0' as int)
    }
}

/// A number that is written in decimal digits reads back, and has no leading zero.
pub proof fn law_numbers_read_back(n: nat)
    ensures
        nat_text(n).len() > 0,
        digits_only(nat_text(n)),
        value_of(nat_text(n)) == n,
        nat_text(n)[0] == '0' ==> n == 0,
    decreases n,
{
    lemma_nat_text_is_digits(n);
    reveal_strlit("0");
    reveal_strlit("1");
    reveal_strlit("2");
    reveal_strlit("3");
    reveal_strlit("4");
    reveal_strlit("5");
    reveal_strlit("6");
    reveal_strlit("7");
    reveal_strlit("8");
    reveal_strlit("9");
    reveal_with_fuel(value_of, 2);
    if n >= 10 {
        law_numbers_read_back(n / 10);
        assert(nat_text(n).drop_last() =~= nat_text(n / 10));
        assert(nat_text(n).last() == digit_text(n % 10)[0]);
        assert(nat_text(n)[0] == nat_text(n / 10)[0]);
    } else {
        assert(nat_text(n).drop_last() =~= Seq::<char>::empty());
    }
}

/// An integer reads back: one from zero on as its digits, a negative one as a minus sign before
/// the digits of its opposite.
pub proof fn law_integers_read_back(i: int)
    ensures
        i >= 0 ==> digits_only(int_text(i)) && value_of(int_text(i)) == i,
        i < 0 ==> int_text(i)[0] == '-' && digits_only(int_text(i).skip(1)) && value_of(
            int_text(i).skip(1),
        ) == -i,
        int_text(i).len() > 0,
        int_text(i)[0] == '0' ==> i == 0,
{
    reveal_strlit("-");
    if i < 0 {
        law_numbers_read_back((-i) as nat);
        assert(int_text(i).skip(1) =~= nat_text((-i) as nat));
    } else {
        law_numbers_read_back(i as nat);
    }
}

/// Appending a number keeps what stood there and adds the digits of the number.
pub proof fn law_appended_numbers_read_back(buffer: &mut String, n: u64)
    requires
        call_ensures(push_u64, (buffer, n), ()),
    ensures
        old(buffer)@.is_prefix_of(final(buffer)@),
        digits_only(final(buffer)@.skip(old(buffer)@.len() as int)),
        value_of(final(buffer)@.skip(old(buffer)@.len() as int)) == n,
        final(buffer)@.len() > old(buffer)@.len(),
        final(buffer)@[old(buffer)@.len() as int] == '0' ==> n == 0,
{
    law_numbers_read_back(n as nat);
    assert(final(buffer)@.skip(old(buffer)@.len() as int) =~= nat_text(n as nat));
}

/// Appending an integer keeps what stood there and adds its sign, where it is negative, and its
/// digits.
pub proof fn law_appended_integers_read_back(buffer: &mut String, i: i64)
    requires
        call_ensures(push_i64, (buffer, i), ()),
    ensures
        old(buffer)@.is_prefix_of(final(buffer)@),
        ({
            let added = final(buffer)@.skip(old(buffer)@.len() as int);
            &&& i >= 0 ==> digits_only(added) && value_of(added) == i
            &&& i < 0 ==> added[0] == '-' && digits_only(added.skip(1)) && value_of(added.skip(1))
                == -i
            &&& added.len() > 0
            &&& added[0] == '0' ==> i == 0
        }),
{
    law_integers_read_back(i as int);
    assert(final(buffer)@.skip(old(buffer)@.len() as int) =~= int_text(i as int));
}

/// Texts that begin alike are ordered as what follows.
proof fn lemma_common_beginning(a: Seq<char>, b: Seq<char>, k: int)
    requires
        0 <= k <= a.len(),
        k <= b.len(),
        a.take(k) == b.take(k),
    ensures
        text_less(a, b) == text_less(a.skip(k), b.skip(k)),
    decreases k,
{
    if k == 0 {
        assert(a.skip(0) =~= a);
        assert(b.skip(0) =~= b);
    } else {
        assert(a[0] == a.take(k)[0]);
        assert(b[0] == b.take(k)[0]);
        assert(a.drop_first().take(k - 1) =~= a.take(k).drop_first());
        assert(b.drop_first().take(k - 1) =~= b.take(k).drop_first());
        lemma_common_beginning(a.drop_first(), b.drop_first(), k - 1);
        assert(a.drop_first().skip(k - 1) =~= a.skip(k));
        assert(b.drop_first().skip(k - 1) =~= b.skip(k));
    }
}

/// Of two texts the one with the lesser character, at the first place where they differ, comes
/// first, and never the other; a text comes before each longer one that it begins.
pub proof fn law_texts_are_ordered_by_their_first_difference(
    a: &str,
    b: &str,
    k: int,
    less: bool,
    greater: bool,
)
    requires
        call_ensures(str_less, (a, b), less),
        call_ensures(str_less, (b, a), greater),
        0 <= k <= a@.len(),
        k <= b@.len(),
        a@.take(k) == b@.take(k),
    ensures
        k < a@.len() && k < b@.len() && (a@[k] as int) < (b@[k] as int) ==> less && !greater,
        k == a@.len() && k < b@.len() ==> less && !greater,
        k == a@.len() && k == b@.len() ==> !less && !greater,
{
    lemma_common_beginning(a@, b@, k);
    lemma_common_beginning(b@, a@, k);
}

} // verus!
