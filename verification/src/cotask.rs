//! A receive slot for wide-character text that the host compute service allocates.
//!
//! The service hands text back through an out-parameter: a pointer that is null
//! until the service has stored the address of a NUL-terminated string of 16-bit
//! units in it. `CoTaskMemWString` stands for that slot. It holds the units that
//! the pointer refers to, or nothing while the pointer is null, and decodes them.
use vstd::prelude::*;
use vstd::slice::slice_subrange;

verus! {

/// What `String::from_utf16` makes of a sequence of 16-bit units: the text that
/// they encode, or `None` where they are not well-formed UTF-16.
pub uninterp spec fn utf16_decoding(units: Seq<u16>) -> Option<Seq<char>>;

/// The number of units of `memory` that come before its first NUL, or all of
/// them where it holds none.
pub open spec fn wide_len(memory: Seq<u16>) -> nat
    decreases memory.len(),
{
    if memory.len() == 0 || memory[0] == 0 {
        0
    } else {
        1 + wide_len(memory.skip(1))
    }
}

/// The NUL-terminated string that starts `memory`, without its terminator.
pub open spec fn wide_text(memory: Seq<u16>) -> Seq<u16> {
    memory.take(wide_len(memory) as int)
}

/// The text that a receive slot yields: empty for a null pointer and for units
/// that do not decode, the decoded string otherwise.
pub open spec fn decoded_text(wide: Option<Seq<u16>>) -> Seq<char> {
    match wide {
        Some(memory) => match utf16_decoding(wide_text(memory)) {
            Some(text) => text,
            None => Seq::empty(),
        },
        None => Seq::empty(),
    }
}

/// `wide_len` is the place of the first NUL: no unit before it is NUL, and it
/// either ends the memory or points at a NUL.
pub proof fn lemma_wide_len_is_first_nul(memory: Seq<u16>)
    ensures
        wide_len(memory) <= memory.len(),
        forall|i: int| 0 <= i < wide_len(memory) ==> memory[i] != 0,
        wide_len(memory) < memory.len() ==> memory[wide_len(memory) as int] == 0,
    decreases memory.len(),
{
    if memory.len() != 0 && memory[0] != 0 {
        let rest = memory.skip(1);
        lemma_wide_len_is_first_nul(rest);
        assert forall|i: int| 0 <= i < wide_len(memory) implies memory[i] != 0 by {
            if i > 0 {
                assert(memory[i] == rest[i - 1]);
            }
        }
        if wide_len(memory) < memory.len() {
            assert(memory[wide_len(memory) as int] == rest[wide_len(rest) as int]);
        }
    }
}

/// Any place that satisfies the description of the first NUL is `wide_len`.
pub proof fn lemma_first_nul_is_wide_len(memory: Seq<u16>, n: int)
    requires
        0 <= n <= memory.len(),
        forall|i: int| 0 <= i < n ==> memory[i] != 0,
        n < memory.len() ==> memory[n] == 0,
    ensures
        wide_len(memory) == n,
    decreases memory.len(),
{
    if n > 0 {
        let rest = memory.skip(1);
        assert(memory[0] != 0);
        assert forall|i: int| 0 <= i < n - 1 implies rest[i] != 0 by {
            assert(rest[i] == memory[i + 1]);
        }
        if n - 1 < rest.len() {
            assert(rest[n - 1] == memory[n]);
        }
        lemma_first_nul_is_wide_len(rest, n - 1);
    }
}

/// Text that holds no NUL is a NUL-terminated string as it stands, with or
/// without a terminator behind it.
pub proof fn lemma_wide_text_of_terminated(text: Seq<u16>)
    requires
        forall|i: int| 0 <= i < text.len() ==> text[i] != 0,
    ensures
        wide_text(text) == text,
        wide_text(text.push(0)) == text,
{
    lemma_first_nul_is_wide_len(text, text.len() as int);
    let closed = text.push(0);
    assert forall|i: int| 0 <= i < text.len() implies closed[i] != 0 by {
        assert(closed[i] == text[i]);
    }
    lemma_first_nul_is_wide_len(closed, text.len() as int);
    assert(text.take(text.len() as int) =~= text);
    assert(closed.take(text.len() as int) =~= text);
}

/// Calls `String::from_utf16` of std, which decodes native-endian UTF-16 and
/// fails on invalid data. The contract gives the outcome its name,
/// `utf16_decoding`, and claims nothing else of it.
#[verifier::external_body]
fn decode_utf16(units: &[u16]) -> (text: Option<String>)
    ensures
        match text {
            Some(s) => utf16_decoding(units@) == Some(s@),
            None => utf16_decoding(units@) is None,
        },
{
    String::from_utf16(units).ok()
}

/// The decoded text, or empty text where decoding failed.
pub fn text_or_empty(decoding: Option<String>) -> (text: String)
    ensures
        text@ == match decoding {
            Some(s) => s@,
            None => Seq::<char>::empty(),
        },
{
    match decoding {
        Some(s) => s,
        None => String::new(),
    }
}

/// Finds the terminator of the NUL-terminated string that starts `memory`.
pub fn wide_length(memory: &[u16]) -> (n: usize)
    ensures
        n == wide_len(memory@),
        n <= memory@.len(),
{
    let mut n: usize = 0;
    while n < memory.len() && memory[n] != 0
        invariant
            n <= memory@.len(),
            forall|i: int| 0 <= i < n ==> memory@[i] != 0,
        decreases memory@.len() - n,
    {
        n += 1;
    }
    proof {
        lemma_first_nul_is_wide_len(memory@, n as int);
    }
    n
}

/// A shape in which a receive slot is handed to the service as an optional
/// argument.
pub trait AsOption<U> {
    fn as_option(&self) -> Option<U>;
}

/// A receive slot for text that the service allocates.
#[derive(Debug)]
pub struct CoTaskMemWString {
    wide: Option<Vec<u16>>,
}

impl CoTaskMemWString {
    /// The units that the slot's pointer refers to, `None` for a null pointer.
    pub closed spec fn wide(&self) -> Option<Seq<u16>> {
        match self.wide {
            Some(memory) => Some(memory@),
            None => None,
        }
    }

    /// Whether the slot's pointer is null.
    pub open spec fn is_null(&self) -> bool {
        self.wide() is None
    }

    /// The text that `to_string` yields.
    pub open spec fn decoded(&self) -> Seq<char> {
        decoded_text(self.wide())
    }

    /// Creates an empty slot: its pointer is null.
    pub fn new() -> (slot: CoTaskMemWString)
        ensures
            slot.is_null(),
    {
        CoTaskMemWString { wide: None }
    }

    /// Lends the slot out for the service to store its text in.
    pub fn as_ptr(&mut self) -> (out: &mut Option<Vec<u16>>)
        ensures
            option_units(*out) == old(self).wide(),
            final(self).wide() == option_units(*final(out)),
    {
        &mut self.wide
    }

    /// Decodes the slot: empty text for a null pointer, else the NUL-terminated
    /// string at the pointer, and empty text again where that is not UTF-16.
    pub fn to_string(&mut self) -> (text: String)
        ensures
            *final(self) == *old(self),
            text@ == old(self).decoded(),
            old(self).is_null() ==> text@.len() == 0,
    {
        match &self.wide {
            Some(memory) => {
                let n = wide_length(memory.as_slice());
                text_or_empty(decode_utf16(slice_subrange(memory.as_slice(), 0, n)))
            },
            None => String::new(),
        }
    }
}

/// A slot whose pointer is null decodes to empty text.
pub proof fn lemma_null_decodes_to_empty(slot: CoTaskMemWString)
    requires
        slot.is_null(),
    ensures
        slot.decoded() == Seq::<char>::empty(),
{
}

/// The units of an optional vector.
pub open spec fn option_units(wide: Option<Vec<u16>>) -> Option<Seq<u16>> {
    match wide {
        Some(memory) => Some(memory@),
        None => None,
    }
}

} // verus!
