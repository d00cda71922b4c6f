//! Resolution of names against a string table: a scan from a byte offset
//! to the next null terminator, and a UTF-8 decode of the bytes between.

use vstd::prelude::*;

use vstd::utf8::{decode_utf8, valid_utf8};

use crate::ElfHeaderParseError;

verus! {

/// The position of the first null byte of `s` at or after `pos`, or `None`
/// when no null byte follows before the buffer ends.
pub open spec fn nul_scan(s: Seq<u8>, pos: int) -> Option<int>
    decreases s.len() - pos,
{
    if pos < 0 || pos >= s.len() {
        None
    } else if s[pos] == 0 {
        Some(pos)
    } else {
        nul_scan(s, pos + 1)
    }
}

/// The name stored at byte offset `start` of the buffer: the bytes up to
/// (but excluding) the next null terminator, decoded as UTF-8 text.
/// `TruncatedInput` when the buffer ends before a terminator is found,
/// `InvalidEncoding` when the bytes are not valid UTF-8.
pub open spec fn spec_resolve_name(s: Seq<u8>, start: int) -> Result<
    Seq<char>,
    ElfHeaderParseError,
> {
    match nul_scan(s, start) {
        Option::Some(end) => {
            if valid_utf8(s.subrange(start, end)) {
                Ok(decode_utf8(s.subrange(start, end)))
            } else {
                Err(ElfHeaderParseError::InvalidEncoding)
            }
        },
        Option::None => Err(ElfHeaderParseError::TruncatedInput),
    }
}

proof fn lemma_nul_scan_finds(s: Seq<u8>, start: int, end: int)
    requires
        0 <= start <= end < s.len(),
        s[end] == 0,
        forall|i: int| start <= i < end ==> s[i] != 0,
    ensures
        nul_scan(s, start) == Some(end),
    decreases end - start,
{
    if start < end {
        lemma_nul_scan_finds(s, start + 1, end);
    }
}

/// Round trip through a string table: a name written into the buffer as
/// bytes followed by a null terminator resolves to exactly those bytes —
/// up to but excluding the terminator — decoded as text.
pub proof fn lemma_resolve_name_exact(s: Seq<u8>, start: int, end: int)
    requires
        0 <= start <= end < s.len(),
        s[end] == 0,
        forall|i: int| start <= i < end ==> s[i] != 0,
        valid_utf8(s.subrange(start, end)),
    ensures
        spec_resolve_name(s, start) == Ok::<Seq<char>, ElfHeaderParseError>(
            decode_utf8(s.subrange(start, end)),
        ),
{
    lemma_nul_scan_finds(s, start, end);
}

/// Relies on `core::str::from_utf8`: it returns the byte slice
/// reinterpreted as text exactly when the bytes are valid UTF-8, and the
/// text is copied here into an owned `String`.
#[verifier::external_body]
fn utf8_to_string(bytes: &[u8]) -> (r: Option<String>)
    ensures
        r matches Some(s) ==> valid_utf8(bytes@) && s@ == decode_utf8(bytes@),
        r is None ==> !valid_utf8(bytes@),
{
    match core::str::from_utf8(bytes) {
        Ok(s) => Some(s.to_owned()),
        Err(_) => None,
    }
}

/// Scans the buffer from byte offset `start` for a null terminator and
/// decodes the bytes before it as UTF-8 text, exactly as
/// [`spec_resolve_name`] states.
pub fn resolve_name_at(data: &[u8], start: u64) -> (r: Result<String, ElfHeaderParseError>)
    ensures
        r matches Ok(n) ==> spec_resolve_name(data@, start as int) == Ok::<
            Seq<char>,
            ElfHeaderParseError,
        >(n@),
        r matches Err(e) ==> spec_resolve_name(data@, start as int) == Err::<
            Seq<char>,
            ElfHeaderParseError,
        >(e),
{
    let len = data.len();
    if start >= len as u64 {
        return Err(ElfHeaderParseError::TruncatedInput);
    }
    let begin: usize = start as usize;
    let mut cur: usize = begin;
    while cur < len && data[cur] != 0
        invariant
            begin <= cur <= len,
            len == data@.len(),
            begin == start,
            start < len,
            nul_scan(data@, start as int) == nul_scan(data@, cur as int),
        decreases len - cur,
    {
        cur = cur + 1;
    }
    if cur == len {
        return Err(ElfHeaderParseError::TruncatedInput);
    }
    let name_bytes = &data[begin..cur];
    match utf8_to_string(name_bytes) {
        Some(name) => Ok(name),
        None => Err(ElfHeaderParseError::InvalidEncoding),
    }
}

} // verus!
