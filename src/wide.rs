//! Decoding of the fixed-capacity, NUL-padded UTF-16 buffers that the window
//! system fills in answer to a text query.
use vstd::prelude::*;

verus! {

/// What `String::from_utf16` yields for a sequence of code units: the
/// characters of the text, or nothing when the units are not valid UTF-16.
pub uninterp spec fn utf16_text(units: Seq<u16>) -> Option<Seq<char>>;

/// Relies on `String::from_utf16`: it decodes the units, or fails on an
/// unpaired surrogate; no units decode to the empty text.
#[verifier::external_body]
fn from_utf16(units: &[u16]) -> (r: Option<String>)
    ensures
        r is Some <==> utf16_text(units@) is Some,
        r is Some ==> utf16_text(units@) == Some(r.unwrap()@),
        units@.len() == 0 ==> r is Some && r.unwrap()@.len() == 0,
{
    String::from_utf16(units).ok()
}

/// A buffer's text holds malformed UTF-16 (an unpaired surrogate).
#[derive(Debug, Clone, Copy, PartialEq, Eq, Structural)]
pub struct DecodeError;

/// Index of the first NUL unit of `s`, or its length when it holds none.
pub open spec fn first_nul(s: Seq<u16>) -> nat
    decreases s.len(),
{
    if s.len() == 0 || s[0] == 0 {
        0
    } else {
        1 + first_nul(s.drop_first())
    }
}

/// The units of `s` before its first NUL: the text a buffer carries.
pub open spec fn text_units(s: Seq<u16>) -> Seq<u16> {
    s.take(first_nul(s) as int)
}

/// The text a buffer shows once malformed data is replaced by the empty text.
pub open spec fn shown_text(s: Seq<u16>) -> Seq<char> {
    match utf16_text(text_units(s)) {
        Some(t) => t,
        None => Seq::empty(),
    }
}

/// `n` NUL units.
pub open spec fn zeros(n: nat) -> Seq<u16> {
    Seq::new(n, |i: int| 0u16)
}

/// A buffer of `capacity` units after the window system copied `src` into it:
/// at most `capacity - 1` units of the text, then NUL padding.
pub open spec fn filled(src: Seq<u16>, capacity: nat) -> Seq<u16> {
    let k = if src.len() < capacity { src.len() } else { (capacity - 1) as nat };
    src.take(k as int) + zeros((capacity - k) as nat)
}

/// The first NUL is the first index at which a NUL stands.
pub proof fn lemma_first_nul(s: Seq<u16>, k: int)
    requires
        0 <= k <= s.len(),
        forall|j: int| 0 <= j < k ==> s[j] != 0,
        k == s.len() || s[k] == 0,
    ensures
        first_nul(s) == k,
    decreases k,
{
    if k > 0 {
        lemma_first_nul(s.drop_first(), k - 1);
    }
}

/// Decodes the text of a buffer: the units before the first NUL, or the whole
/// buffer when it holds none. An all-NUL buffer gives the empty text; a buffer
/// whose text is malformed UTF-16 gives `DecodeError`.
pub fn decode_wide(units: &[u16]) -> (r: Result<String, DecodeError>)
    ensures
        r is Ok <==> utf16_text(text_units(units@)) is Some,
        r is Ok ==> utf16_text(text_units(units@)) == Some(r.unwrap()@),
        first_nul(units@) == 0 ==> r is Ok && r.unwrap()@.len() == 0,
{
    let mut prefix: Vec<u16> = Vec::new();
    let mut i: usize = 0;
    while i < units.len() && units[i] != 0
        invariant
            i <= units@.len(),
            prefix@ == units@.take(i as int),
            forall|j: int| 0 <= j < i ==> units@[j] != 0,
        decreases units@.len() - i,
    {
        prefix.push(units[i]);
        i = i + 1;
        assert(prefix@ == units@.take(i as int));
    }
    proof {
        lemma_first_nul(units@, i as int);
    }
    match from_utf16(prefix.as_slice()) {
        Some(text) => Ok(text),
        None => Err(DecodeError),
    }
}

/// The text of a buffer, with malformed data shown as the empty text.
pub fn wide_text(units: &[u16]) -> (r: String)
    ensures
        r@ == shown_text(units@),
{
    match decode_wide(units) {
        Ok(text) => text,
        Err(_) => String::new(),
    }
}

/// What the window system leaves in a buffer of `capacity` units when asked
/// for the text `src`: the text, cut to `capacity - 1` units when longer, and
/// NUL padding up to the capacity.
pub fn fill_wide(src: &[u16], capacity: usize) -> (r: Vec<u16>)
    requires
        capacity >= 1,
    ensures
        r@ == filled(src@, capacity as nat),
{
    let k: usize = if src.len() < capacity { src.len() } else { capacity - 1 };
    let mut out: Vec<u16> = Vec::new();
    let mut i: usize = 0;
    while i < capacity
        invariant
            k <= src@.len(),
            k < capacity,
            i <= capacity,
            out@.len() == i,
            forall|j: int| 0 <= j < i ==> out@[j] == (if j < k { src@[j] } else { 0u16 }),
        decreases capacity - i,
    {
        if i < k {
            out.push(src[i]);
        } else {
            out.push(0u16);
        }
        i = i + 1;
    }
    assert(out@ =~= filled(src@, capacity as nat));
    out
}

/// Decoding depends on the buffer's contents alone: two buffers that carry the
/// same text decode to the same result, so decoding a buffer again repeats the
/// first answer.
pub proof fn lemma_decode_repeatable(a: Seq<u16>, b: Seq<u16>)
    requires
        text_units(a) == text_units(b),
    ensures
        utf16_text(text_units(a)) == utf16_text(text_units(b)),
        shown_text(a) == shown_text(b),
{
}

/// An all-NUL buffer carries no text.
pub proof fn lemma_all_nul_carries_nothing(n: nat)
    ensures
        text_units(zeros(n)) == Seq::<u16>::empty(),
{
    lemma_first_nul(zeros(n), 0);
    assert(text_units(zeros(n)) =~= Seq::<u16>::empty());
}

/// A text without NUL units that fits the buffer with room for the terminator
/// comes back whole; a longer one comes back as its prefix of `capacity - 1`
/// units, which is decoded like any other text.
pub proof fn lemma_truncation_boundary(src: Seq<u16>, capacity: nat)
    requires
        capacity >= 1,
        forall|j: int| 0 <= j < src.len() ==> src[j] != 0,
    ensures
        src.len() <= capacity - 1 ==> text_units(filled(src, capacity)) == src,
        src.len() <= capacity - 1 ==> utf16_text(text_units(filled(src, capacity)))
            == utf16_text(src),
        src.len() > capacity - 1 ==> text_units(filled(src, capacity)) == src.take(
            capacity - 1,
        ),
        src.len() > capacity - 1 ==> utf16_text(text_units(filled(src, capacity)))
            == utf16_text(src.take(capacity - 1)),
{
    let f = filled(src, capacity);
    let k = if src.len() < capacity { src.len() } else { (capacity - 1) as nat };
    assert forall|j: int| 0 <= j < k implies f[j] != 0 by {
        assert(f[j] == src[j]);
    }
    if k < f.len() {
        assert(f[k as int] == 0);
    }
    lemma_first_nul(f, k as int);
    assert(text_units(f) =~= src.take(k as int));
    if src.len() <= capacity - 1 {
        assert(src.take(k as int) =~= src);
    }
}

} // verus!
