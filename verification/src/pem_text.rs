//! PEM text: the entries of a buffer, and the text of one entry.
//!
//! Framing and base64 are the work of the `pem` crate. This module gives its
//! two functions a name each, so that the contracts of the library can speak
//! of what they return, and holds the entries as plain values.

use vstd::prelude::*;
use vstd::utf8::encode_utf8;

verus! {

/// One entry of a PEM buffer: the tag of its BEGIN line and the bytes that its
/// base64 text stands for.
#[derive(Clone, Debug, PartialEq, Eq)]
pub struct PemEntry {
    pub tag: String,
    pub contents: Vec<u8>,
}

/// A PEM entry as a mathematical value.
pub struct PemBlock {
    pub tag: Seq<char>,
    pub contents: Seq<u8>,
}

impl View for PemEntry {
    type V = PemBlock;

    open spec fn view(&self) -> PemBlock {
        PemBlock { tag: self.tag@, contents: self.contents@ }
    }
}

/// The blocks that a sequence of entries stands for, in the same order.
pub open spec fn blocks_of(entries: Seq<PemEntry>) -> Seq<PemBlock> {
    entries.map_values(|e: PemEntry| e@)
}

/// A tag made of upper-case letters and spaces, and not empty. Every tag that
/// this library writes is one.
pub open spec fn is_plain_label(tag: Seq<char>) -> bool {
    &&& tag.len() > 0
    &&& forall|i: int| 0 <= i < tag.len() ==> ('A' <= #[trigger] tag[i] <= 'Z' || tag[i] == ' ')
}

/// The entries that `pem::parse_many` finds in a buffer, in the order of the
/// buffer.
pub uninterp spec fn pem_blocks(input: Seq<u8>) -> Seq<PemBlock>;

/// The text that `pem::encode` writes for a tag and its bytes.
pub uninterp spec fn pem_encoding(tag: Seq<char>, contents: Seq<u8>) -> Seq<char>;

/// The line that opens the text of an entry.
pub open spec fn begin_line(tag: Seq<char>) -> Seq<char> {
    "-----BEGIN "@ + tag + "-----\r\n"@
}

/// The line that closes the text of an entry.
pub open spec fn end_line(tag: Seq<char>) -> Seq<char> {
    "-----END "@ + tag + "-----\r\n"@
}

/// A text that opens with the BEGIN line of the tag, closes with its END
/// line, and holds whatever it holds between the two.
pub open spec fn is_framed(text: Seq<char>, tag: Seq<char>) -> bool {
    &&& begin_line(tag).len() + end_line(tag).len() <= text.len()
    &&& begin_line(tag).is_prefix_of(text)
    &&& end_line(tag).is_suffix_of(text)
}

/// Calls `pem::parse_many`, which matches every framed section of the buffer,
/// leaves out those whose tags differ or whose base64 text does not decode,
/// and never fails. The contract only names the result: the same buffer gives
/// the same entries.
#[verifier::external_body]
pub(crate) fn parse_pem(input: &[u8]) -> (entries: Vec<PemEntry>)
    ensures
        blocks_of(entries@) == pem_blocks(input@),
{
    pem::parse_many(input).into_iter().map(
        |p| PemEntry { tag: p.tag, contents: p.contents },
    ).collect()
}

/// Calls `pem::encode`, which writes the BEGIN line, the base64 text in lines
/// of 64 characters and the END line, each line ended by a carriage return
/// and a line feed. The contract names the text and says how it is framed.
/// It also claims of the text what the crate's own tests show for such a
/// tag: `pem::parse_many` finds in it the one entry that was written, tag and
/// bytes unchanged.
#[verifier::external_body]
pub(crate) fn encode_pem(tag: &str, contents: &[u8]) -> (text: String)
    ensures
        text@ == pem_encoding(tag@, contents@),
        is_framed(text@, tag@),
        is_plain_label(tag@) ==> pem_blocks(encode_utf8(text@)) == seq![
            PemBlock { tag: tag@, contents: contents@ },
        ],
{
    pem::encode(&pem::Pem { tag: tag.to_owned(), contents: contents.to_vec() })
}

} // verus!
