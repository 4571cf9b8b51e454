//! Identifiers of the service's objects: 128-bit globally-unique values.
use vstd::prelude::*;
use vstd::string::StrSliceExecFns;

verus! {

/// Whether `c` is one of the digits `0`-`9`, `a`-`f`, `A`-`F`.
pub open spec fn is_hex_digit(c: char) -> bool {
    ||| '0' as u32 <= c as u32 <= '9' as u32
    ||| 'a' as u32 <= c as u32 <= 'f' as u32
    ||| 'A' as u32 <= c as u32 <= 'F' as u32
}

/// The number that a hexadecimal digit stands for.
pub open spec fn hex_digit_value(c: char) -> nat {
    if '0' as u32 <= c as u32 <= '9' as u32 {
        (c as u32 - '0' as u32) as nat
    } else if 'a' as u32 <= c as u32 <= 'f' as u32 {
        (c as u32 - 'a' as u32 + 10) as nat
    } else {
        (c as u32 - 'A' as u32 + 10) as nat
    }
}

/// The number that a sequence of hexadecimal digits stands for, the first digit
/// weighing most.
pub open spec fn hex_number(digits: Seq<char>) -> nat
    decreases digits.len(),
{
    if digits.len() == 0 {
        0
    } else {
        hex_number(digits.drop_last()) * 16 + hex_digit_value(digits.last())
    }
}

/// Whether a hyphen stands at place `i` of an identifier's text.
pub open spec fn is_hyphen_place(i: int) -> bool {
    i == 8 || i == 13 || i == 18 || i == 23
}

/// Whether `text` has the form `xxxxxxxx-xxxx-xxxx-xxxx-xxxxxxxxxxxx`, each `x`
/// a hexadecimal digit.
pub open spec fn is_guid_text(text: Seq<char>) -> bool {
    &&& text.len() == 36
    &&& forall|i: int|
        0 <= i < 36 ==> if is_hyphen_place(i) {
            #[trigger] text[i] == '-'
        } else {
            is_hex_digit(text[i])
        }
}

/// The 32 digits of an identifier's text, hyphens left out.
pub open spec fn guid_digits(text: Seq<char>) -> Seq<char> {
    text.subrange(0, 8) + text.subrange(9, 13) + text.subrange(14, 18) + text.subrange(19, 23)
        + text.subrange(24, 36)
}

/// The 128-bit value that an identifier's text stands for.
pub open spec fn guid_number(text: Seq<char>) -> nat {
    hex_number(guid_digits(text))
}

/// Sixteen to the power of `n`.
pub open spec fn sixteen_to(n: nat) -> nat
    decreases n,
{
    if n == 0 {
        1
    } else {
        16 * sixteen_to((n - 1) as nat)
    }
}

/// A hexadecimal digit stands for a number below sixteen.
pub proof fn lemma_hex_digit_value_bound(c: char)
    requires
        is_hex_digit(c),
    ensures
        hex_digit_value(c) < 16,
{
}

/// A number of `n` hexadecimal digits is below sixteen to the power of `n`.
pub proof fn lemma_hex_number_bound(digits: Seq<char>)
    requires
        forall|i: int| 0 <= i < digits.len() ==> is_hex_digit(digits[i]),
    ensures
        hex_number(digits) < sixteen_to(digits.len()),
    decreases digits.len(),
{
    if digits.len() > 0 {
        let front = digits.drop_last();
        assert forall|i: int| 0 <= i < front.len() implies is_hex_digit(front[i]) by {
            assert(front[i] == digits[i]);
        }
        lemma_hex_number_bound(front);
        lemma_hex_digit_value_bound(digits.last());
    }
}

/// The value that an identifier's text stands for fits in 128 bits.
pub proof fn lemma_guid_number_fits(text: Seq<char>)
    requires
        is_guid_text(text),
    ensures
        guid_digits(text).len() == 32,
        guid_number(text) <= u128::MAX,
        Guid::of_text(text).value == guid_number(text),
{
    let digits = guid_digits(text);
    assert forall|i: int| 0 <= i < digits.len() implies is_hex_digit(digits[i]) by {
        let place = if i < 8 {
            i
        } else if i < 12 {
            i + 1
        } else if i < 16 {
            i + 2
        } else if i < 20 {
            i + 3
        } else {
            i + 4
        };
        assert(digits[i] == text[place]);
        assert(!is_hyphen_place(place));
    }
    lemma_hex_number_bound(digits);
    assert(sixteen_to(32) == 0x1_0000_0000_0000_0000_0000_0000_0000_0000) by {
        reveal_with_fuel(sixteen_to, 33);
    }
}

/// Digits that are all `0` stand for zero.
pub proof fn lemma_hex_number_of_zeros(digits: Seq<char>)
    requires
        forall|i: int| 0 <= i < digits.len() ==> digits[i] == '0',
    ensures
        hex_number(digits) == 0,
    decreases digits.len(),
{
    if digits.len() > 0 {
        let front = digits.drop_last();
        assert forall|i: int| 0 <= i < front.len() implies front[i] == '0' by {
            assert(front[i] == digits[i]);
        }
        lemma_hex_number_of_zeros(front);
    }
}

/// The text `00000000-0000-0000-0000-000000000000` spells the all-zero
/// identifier.
pub proof fn lemma_zero_text_is_zeroed()
    ensures
        is_guid_text("00000000-0000-0000-0000-000000000000"@),
        Guid::of_text("00000000-0000-0000-0000-000000000000"@).value == 0,
{
    let text = "00000000-0000-0000-0000-000000000000"@;
    reveal_strlit("00000000-0000-0000-0000-000000000000");
    assert(is_guid_text(text));
    let digits = guid_digits(text);
    assert forall|i: int| 0 <= i < digits.len() implies digits[i] == '0' by {
        let place = if i < 8 {
            i
        } else if i < 12 {
            i + 1
        } else if i < 16 {
            i + 2
        } else if i < 20 {
            i + 3
        } else {
            i + 4
        };
        assert(digits[i] == text[place]);
    }
    lemma_hex_number_of_zeros(digits);
}

/// Calls `GUID::from(&str)` of the windows crate and then `GUID::to_u128` on
/// what it returns. The first reads 32 hexadecimal digits in groups of 8, 4, 4,
/// 4 and 12 with a hyphen between two groups, and panics on any other text; the
/// second lays the groups out in that order, the first digit in the highest
/// bits. The contract leaves out the texts that panic and claims that the value
/// is the number the 32 digits spell.
#[verifier::external_body]
fn guid_from_text(text: &str) -> (value: u128)
    requires
        is_guid_text(text@),
    ensures
        value == guid_number(text@),
{
    windows::core::GUID::from(text).to_u128()
}

/// An identifier of an object of the service.
#[derive(Clone, Copy, Debug, PartialEq, Eq, Structural, Hash)]
pub struct Guid {
    pub value: u128,
}

impl Guid {
    /// The identifier that `text` spells.
    pub open spec fn of_text(text: Seq<char>) -> Guid {
        Guid { value: guid_number(text) as u128 }
    }

    /// The all-zero identifier, which asks the service to choose one itself.
    pub fn zeroed() -> (id: Guid)
        ensures
            id.value == 0,
    {
        Guid { value: 0 }
    }

    /// The identifier with the given value.
    pub fn from_u128(value: u128) -> (id: Guid)
        ensures
            id.value == value,
    {
        Guid { value }
    }

    /// The identifier's value.
    pub fn to_u128(&self) -> (value: u128)
        ensures
            value == self.value,
    {
        self.value
    }

    /// Whether the identifier is the all-zero one.
    pub fn is_zeroed(&self) -> (zero: bool)
        ensures
            zero == (self.value == 0),
    {
        self.value == 0
    }

    /// Whether `text` spells an identifier.
    pub fn is_text(text: &str) -> (ok: bool)
        ensures
            ok == is_guid_text(text@),
    {
        if text.unicode_len() != 36 {
            return false;
        }
        let mut i: usize = 0;
        while i < 36
            invariant
                i <= 36,
                text@.len() == 36,
                forall|j: int|
                    0 <= j < i ==> if is_hyphen_place(j) {
                        #[trigger] text@[j] == '-'
                    } else {
                        is_hex_digit(text@[j])
                    },
            decreases 36 - i,
        {
            let c = text.get_char(i);
            let fits = if i == 8 || i == 13 || i == 18 || i == 23 {
                c == '-'
            } else {
                ('0' <= c && c <= '9') || ('a' <= c && c <= 'f') || ('A' <= c && c <= 'F')
            };
            if !fits {
                assert(!is_guid_text(text@)) by {
                    assert(text@[i as int] == c);
                }
                return false;
            }
            i += 1;
        }
        true
    }

    /// The identifier that `text` spells.
    pub fn from_text(text: &str) -> (id: Guid)
        requires
            is_guid_text(text@),
        ensures
            id == Guid::of_text(text@),
            id.value == guid_number(text@),
    {
        Guid { value: guid_from_text(text) }
    }

    /// The identifier that `text` spells, or `None` where it spells none.
    pub fn parse(text: &str) -> (id: Option<Guid>)
        ensures
            id is Some <==> is_guid_text(text@),
            id matches Some(g) ==> g == Guid::of_text(text@) && g.value == guid_number(text@),
    {
        if Guid::is_text(text) {
            Some(Guid::from_text(text))
        } else {
            None
        }
    }
}

} // verus!
