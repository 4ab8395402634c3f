//! Datagram framing: every payload travels between a fixed protocol header
//! and one trailing newline.

use vstd::prelude::*;

verus! {

/// Number of bytes in the protocol header.
pub const DAEMON_HEADER_LEN: usize = 33;

/// The protocol header that opens every datagram:
/// `{"format": "json", "version": 1}` followed by a newline.
pub const DAEMON_HEADER: [u8; 33] = [
    0x7b, 0x22, 0x66, 0x6f, 0x72, 0x6d, 0x61, 0x74, 0x22, 0x3a, 0x20,
    0x22, 0x6a, 0x73, 0x6f, 0x6e, 0x22, 0x2c, 0x20,
    0x22, 0x76, 0x65, 0x72, 0x73, 0x69, 0x6f, 0x6e, 0x22, 0x3a, 0x20,
    0x31, 0x7d, 0x0a,
];

/// The byte that closes every datagram.
pub const NEWLINE: u8 = 0x0a;

/// The header as a sequence of bytes.
pub open spec fn header() -> Seq<u8> {
    seq![
        0x7bu8, 0x22u8, 0x66u8, 0x6fu8, 0x72u8, 0x6du8, 0x61u8, 0x74u8, 0x22u8, 0x3au8, 0x20u8,
        0x22u8, 0x6au8, 0x73u8, 0x6fu8, 0x6eu8, 0x22u8, 0x2cu8, 0x20u8,
        0x22u8, 0x76u8, 0x65u8, 0x72u8, 0x73u8, 0x69u8, 0x6fu8, 0x6eu8, 0x22u8, 0x3au8, 0x20u8,
        0x31u8, 0x7du8, 0x0au8,
    ]
}

/// The header as text.
pub open spec fn header_text() -> Seq<char> {
    "{\"format\": \"json\", \"version\": 1}\n"@
}

/// The header constant holds the bytes of the header, and these are the
/// header's text in ASCII.
pub proof fn lemma_header_is_text()
    ensures
        DAEMON_HEADER@ == header(),
        header().len() == DAEMON_HEADER_LEN,
        header() == header_text().map_values(|c: char| c as u8),
{
    reveal_strlit("{\"format\": \"json\", \"version\": 1}\n");
    assert(DAEMON_HEADER@ =~= header());
    assert(header() =~= header_text().map_values(|c: char| c as u8));
}

/// The datagram that carries `payload`: header, payload, newline.
pub open spec fn framed(payload: Seq<u8>) -> Seq<u8> {
    header() + payload + seq![0x0au8]
}

/// Builds the datagram for `payload`.
pub fn frame(payload: &[u8]) -> (datagram: Vec<u8>)
    ensures
        datagram@ == framed(payload@),
        datagram@.len() == DAEMON_HEADER_LEN + payload@.len() + 1,
{
    let mut datagram: Vec<u8> = Vec::new();
    datagram.extend_from_slice(&DAEMON_HEADER);
    datagram.extend_from_slice(payload);
    datagram.push(NEWLINE);
    datagram
}

/// A datagram opens with the header, carries the payload untouched right
/// behind it, and closes with one newline: nothing is added and nothing is
/// cut off.
pub proof fn lemma_frame_layout(payload: Seq<u8>)
    ensures
        framed(payload).len() == header().len() + payload.len() + 1,
        header().len() == DAEMON_HEADER_LEN,
        framed(payload).subrange(0, header().len() as int) == header(),
        framed(payload).subrange(
            header().len() as int,
            (header().len() + payload.len()) as int,
        ) == payload,
        framed(payload).last() == NEWLINE,
{
    let datagram = framed(payload);
    assert(datagram.subrange(0, header().len() as int) =~= header());
    assert(datagram.subrange(header().len() as int, (header().len() + payload.len()) as int)
        =~= payload);
}

/// Two payloads with the same datagram are the same payload: a datagram
/// stands for exactly one call.
pub proof fn lemma_frame_injective(first: Seq<u8>, second: Seq<u8>)
    requires
        framed(first) == framed(second),
    ensures
        first == second,
{
    lemma_frame_layout(first);
    lemma_frame_layout(second);
}

} // verus!
