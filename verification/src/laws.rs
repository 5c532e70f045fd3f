//! What holds of addresses in general, proved from the contracts of the
//! functions involved.

use vstd::prelude::*;
use crate::relay::relay_endpoint;
use crate::text::{ends_with_slash, ends_with_two_slashes, lemma_strip_once};
use crate::uri::{is_uri, uri_parts};
use crate::url::Url;

verus! {

/// An address made from text that does not end in `//` survives the codec:
/// decoding what `encode` emits for it gives an address with the same text,
/// and so an equal address. (Text ending in `//` keeps one slash when the
/// address is made, and decoding takes that one too.)
pub proof fn lemma_codec_round_trip(raw: Seq<char>)
    requires
        !ends_with_two_slashes(raw),
    ensures
        Url::spec_decode(Url::spec_encode(Url::spec_new(raw))) == Url::spec_new(raw),
{
    lemma_strip_once(raw);
}

/// Whatever the address was made from, the codec gives it back whenever its
/// text does not end in `/`.
pub proof fn lemma_decode_inverts_encode(text: Seq<char>)
    requires
        !ends_with_slash(text),
    ensures
        Url::spec_decode(Url::spec_encode(text)) == text,
{
}

/// Making an address from the text of an address changes nothing, provided
/// the first was made from text that does not end in `//`.
pub proof fn lemma_new_idempotent(raw: Seq<char>)
    requires
        !ends_with_two_slashes(raw),
    ensures
        Url::spec_new(Url::spec_new(raw)) == Url::spec_new(raw),
{
    lemma_strip_once(raw);
}

/// The text of a new address ends in `/` only where the raw text ended in
/// `//`.
pub proof fn lemma_new_text_ending(raw: Seq<char>)
    ensures
        ends_with_slash(Url::spec_new(raw)) <==> ends_with_two_slashes(raw),
{
    lemma_strip_once(raw);
}

/// An address that can name a relay is a URI: where `is_valid` answers
/// `false`, so does `is_valid_relay_url`.
pub proof fn lemma_relay_implies_uri(text: Seq<char>)
    ensures
        relay_endpoint(uri_parts(text)) ==> is_uri(text),
{
}

} // verus!
