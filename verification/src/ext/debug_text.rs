//! Reading the kind and the suffix of a literal out of its debug text, for
//! token types that show them nowhere else. Such a text reads
//! `Literal { kind: Integer, symbol: "1", suffix: Some("u8"), span: .. }`.

use vstd::prelude::*;
use vstd::string::StringSliceAdditionalSpecFns;
use vstd::utf8::{encode_utf8, is_char_boundary};

use crate::ext::literal::{checked_literal_raw_depth, raw_kind, LiteralKind};
use crate::pm::boxed_str;

verus! {

/// Whether `word` stands in `bytes` at the index `at`.
pub open spec fn word_at(bytes: Seq<u8>, word: Seq<u8>, at: int) -> bool {
    0 <= at && at + word.len() <= bytes.len() && bytes.subrange(at, at + word.len()) == word
}

/// The first index from `from` on at which `word` stands in `bytes`.
pub open spec fn first_word_at(bytes: Seq<u8>, word: Seq<u8>, from: int) -> Option<int>
    decreases bytes.len() + 1 - from,
{
    if from < 0 || from + word.len() > bytes.len() {
        None
    } else if word_at(bytes, word, from) {
        Some(from)
    } else {
        first_word_at(bytes, word, from + 1)
    }
}

/// The first index from `from` on at which `bytes` holds `one` or `other`.
pub open spec fn first_byte_at(bytes: Seq<u8>, one: u8, other: u8, from: int) -> Option<int>
    decreases bytes.len() - from,
{
    if from < 0 || from >= bytes.len() {
        None
    } else if bytes[from] == one || bytes[from] == other {
        Some(from)
    } else {
        first_byte_at(bytes, one, other, from + 1)
    }
}

/// Whether an index found by an executable search is the one that the
/// search is defined to find.
pub open spec fn is_found(found: Option<usize>, defined: Option<int>) -> bool {
    match found {
        Some(at) => defined == Some(at as int),
        None => defined.is_none(),
    }
}

/// Whether `word` stands in `text` at the index `at`.
pub fn is_at(text: &[u8], word: &[u8], at: usize) -> (found: bool)
    ensures
        found == word_at(text@, word@, at as int),
{
    if word.len() > text.len() || at > text.len() - word.len() {
        return false;
    }
    let mut k: usize = 0;
    while k < word.len()
        invariant
            k <= word.len(),
            at + word.len() <= text.len(),
            forall|j: int| 0 <= j < k ==> text@[at + j] == word@[j],
        decreases word.len() - k,
    {
        if text[at + k] != word[k] {
            assert(text@.subrange(at as int, at + word.len())[k as int] == text@[at + k]);
            return false;
        }
        k = k + 1;
    }
    assert(text@.subrange(at as int, at + word.len()) =~= word@);
    true
}

/// The first index from `from` on at which `word` stands in `text`.
pub fn find_word(text: &[u8], word: &[u8], from: usize) -> (found: Option<usize>)
    ensures
        is_found(found, first_word_at(text@, word@, from as int)),
        found matches Some(at) ==> from <= at && word_at(text@, word@, at as int),
{
    if word.len() > text.len() {
        return None;
    }
    let last: usize = text.len() - word.len();
    let mut i: usize = from;
    while i <= last
        invariant
            from <= i,
            last + word.len() == text.len(),
            first_word_at(text@, word@, from as int) == first_word_at(text@, word@, i as int),
        decreases last - i,
    {
        if is_at(text, word, i) {
            return Some(i);
        }
        if i == last {
            assert(first_word_at(text@, word@, i + 1).is_none());
            return None;
        }
        i = i + 1;
    }
    None
}

/// The first index from `from` on at which `text` holds `one` or `other`.
pub fn find_byte(text: &[u8], one: u8, other: u8, from: usize) -> (found: Option<usize>)
    ensures
        is_found(found, first_byte_at(text@, one, other, from as int)),
{
    let mut i: usize = from;
    while i < text.len()
        invariant
            from <= i,
            first_byte_at(text@, one, other, from as int) == first_byte_at(
                text@,
                one,
                other,
                i as int,
            ),
        decreases text.len() - i,
    {
        if text[i] == one || text[i] == other {
            return Some(i);
        }
        i = i + 1;
    }
    None
}

/// Whether the bytes of `text` from `start` up to `end` are those of `word`.
fn is_word(text: &[u8], start: usize, end: usize, word: &[u8]) -> (same: bool)
    requires
        start <= end <= text.len(),
    ensures
        same == (text@.subrange(start as int, end as int) == word@),
{
    if end - start != word.len() {
        assert(text@.subrange(start as int, end as int).len() != word@.len());
        return false;
    }
    is_at(text, word, start)
}

/// The kind that goes by the name `name`; `bytes` is the whole text, from
/// which the raw kinds take their depth.
pub open spec fn named_kind(name: Seq<u8>, bytes: Seq<u8>) -> LiteralKind {
    if name == "Char".spec_bytes() {
        LiteralKind::Char
    } else if name == "Integer".spec_bytes() {
        LiteralKind::Integer
    } else if name == "Float".spec_bytes() {
        LiteralKind::Float
    } else if name == "StrRaw".spec_bytes() {
        raw_kind(|depth: u8| LiteralKind::StrRaw(depth), bytes)
    } else if name == "Str".spec_bytes() {
        LiteralKind::Str
    } else if name == "ByteStrRaw".spec_bytes() {
        raw_kind(|depth: u8| LiteralKind::ByteStrRaw(depth), bytes)
    } else if name == "ByteStr".spec_bytes() {
        LiteralKind::ByteStr
    } else if name == "Byte".spec_bytes() {
        LiteralKind::Byte
    } else if name == "CStrRaw".spec_bytes() {
        raw_kind(|depth: u8| LiteralKind::CStrRaw(depth), bytes)
    } else if name == "CStr".spec_bytes() {
        LiteralKind::CStr
    } else {
        LiteralKind::Error
    }
}

/// The kind that a debug text states: the name between the first `kind: `
/// and the `,` or `(` that follows it. A text without them states none.
pub open spec fn debug_kind(bytes: Seq<u8>) -> LiteralKind {
    match first_word_at(bytes, "kind: ".spec_bytes(), 0) {
        None => LiteralKind::Error,
        Some(at) => {
            let start = at + "kind: ".spec_bytes().len();
            match first_byte_at(bytes, 0x2cu8, 0x28u8, start) {
                None => LiteralKind::Error,
                Some(end) => named_kind(bytes.subrange(start, end), bytes),
            }
        },
    }
}

/// Where `first_byte_at` finds a byte, it stands at or behind `from`, inside
/// `bytes`.
pub proof fn lemma_first_byte_in_range(bytes: Seq<u8>, one: u8, other: u8, from: int)
    ensures
        first_byte_at(bytes, one, other, from) matches Some(at) ==> from <= at < bytes.len(),
    decreases bytes.len() - from,
{
    if 0 <= from < bytes.len() && !(bytes[from] == one || bytes[from] == other) {
        lemma_first_byte_in_range(bytes, one, other, from + 1);
    }
}

fn raw_depth_kind(text: &str, which: u8) -> (kind: LiteralKind)
    requires
        which < 3,
    ensures
        which == 0 ==> kind == raw_kind(|depth: u8| LiteralKind::StrRaw(depth), text.spec_bytes()),
        which == 1 ==> kind == raw_kind(
            |depth: u8| LiteralKind::ByteStrRaw(depth),
            text.spec_bytes(),
        ),
        which == 2 ==> kind == raw_kind(
            |depth: u8| LiteralKind::CStrRaw(depth),
            text.spec_bytes(),
        ),
{
    match checked_literal_raw_depth(text) {
        Some(depth) => {
            if which == 0 {
                LiteralKind::StrRaw(depth)
            } else if which == 1 {
                LiteralKind::ByteStrRaw(depth)
            } else {
                LiteralKind::CStrRaw(depth)
            }
        },
        None => LiteralKind::Error,
    }
}

/// The kind of a literal, read from its debug text.
pub fn kind_from_debug(text: &str) -> (kind: LiteralKind)
    ensures
        kind == debug_kind(text.spec_bytes()),
{
    let bytes = text.as_bytes();
    let label = "kind: ".as_bytes();
    let start: usize = match find_word(bytes, label, 0) {
        Some(at) => {
            proof {
                vstd::slice::axiom_spec_len(bytes);
            }
            at + label.len()
        },
        None => {
            return LiteralKind::Error;
        },
    };
    let end: usize = match find_byte(bytes, 0x2cu8, 0x28u8, start) {
        Some(end) => end,
        None => {
            return LiteralKind::Error;
        },
    };
    proof {
        lemma_first_byte_in_range(bytes@, 0x2cu8, 0x28u8, start as int);
    }
    if is_word(bytes, start, end, "Char".as_bytes()) {
        LiteralKind::Char
    } else if is_word(bytes, start, end, "Integer".as_bytes()) {
        LiteralKind::Integer
    } else if is_word(bytes, start, end, "Float".as_bytes()) {
        LiteralKind::Float
    } else if is_word(bytes, start, end, "StrRaw".as_bytes()) {
        raw_depth_kind(text, 0)
    } else if is_word(bytes, start, end, "Str".as_bytes()) {
        LiteralKind::Str
    } else if is_word(bytes, start, end, "ByteStrRaw".as_bytes()) {
        raw_depth_kind(text, 1)
    } else if is_word(bytes, start, end, "ByteStr".as_bytes()) {
        LiteralKind::ByteStr
    } else if is_word(bytes, start, end, "Byte".as_bytes()) {
        LiteralKind::Byte
    } else if is_word(bytes, start, end, "CStrRaw".as_bytes()) {
        raw_depth_kind(text, 2)
    } else if is_word(bytes, start, end, "CStr".as_bytes()) {
        LiteralKind::CStr
    } else {
        LiteralKind::Error
    }
}

/// The suffix that a debug text states, as bytes. The text shows it behind
/// the first `suffix: `, as `None` or as `Some("..")`: the suffix starts six
/// bytes behind the label and ends before the next `"`. A text that lacks
/// the label or the closing `"`, or in which those two indices do not fall
/// between characters, states none.
pub open spec fn debug_suffix(bytes: Seq<u8>) -> Option<Seq<u8>> {
    match first_word_at(bytes, "suffix: ".spec_bytes(), 0) {
        None => None,
        Some(at) => {
            let shown = at + "suffix: ".spec_bytes().len();
            let start = shown + 6;
            if word_at(bytes, "None".spec_bytes(), shown) {
                None
            } else {
                match first_byte_at(bytes, 0x22u8, 0x22u8, start) {
                    None => None,
                    Some(end) => if is_char_boundary(bytes, end) && is_char_boundary(
                        bytes.subrange(0, end),
                        start,
                    ) {
                        Some(bytes.subrange(start, end))
                    } else {
                        None
                    },
                }
            }
        },
    }
}

/// The suffix of a literal, read from its debug text.
pub fn suffix_from_debug(text: &str) -> (suffix: Option<Box<str>>)
    ensures
        match suffix {
            Some(found) => debug_suffix(text.spec_bytes()) == Some(encode_utf8(found@)),
            None => debug_suffix(text.spec_bytes()).is_none(),
        },
{
    let bytes = text.as_bytes();
    let label = "suffix: ".as_bytes();
    proof {
        vstd::slice::axiom_spec_len(bytes);
    }
    let shown: usize = match find_word(bytes, label, 0) {
        Some(at) => at + label.len(),
        None => {
            return None;
        },
    };
    if is_at(bytes, "None".as_bytes(), shown) {
        return None;
    }
    if bytes.len() - shown < 6 {
        assert(first_byte_at(bytes@, 0x22u8, 0x22u8, shown + 6).is_none());
        return None;
    }
    let start: usize = shown + 6;
    let end: usize = match find_byte(bytes, 0x22u8, 0x22u8, start) {
        Some(end) => end,
        None => {
            return None;
        },
    };
    proof {
        lemma_first_byte_in_range(bytes@, 0x22u8, 0x22u8, start as int);
    }
    if !text.is_char_boundary(end) {
        return None;
    }
    let (head, _) = text.split_at(end);
    if !head.is_char_boundary(start) {
        return None;
    }
    let (_, found) = head.split_at(start);
    assert(found.spec_bytes() =~= bytes@.subrange(start as int, end as int));
    Some(boxed_str(found))
}

} // verus!
