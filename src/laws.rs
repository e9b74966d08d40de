//! Properties that relate the operations of the boundary to each other.
use crate::boundary::{count_of, decode_of, encode_of, has_unknown_id, input_of, TokenizerHandle};
use crate::engine::decoding_of;
use vstd::prelude::*;
use vstd::utf8::valid_utf8;

verus! {

/// On valid input, the count is the length of the encoding.
pub proof fn law_count_is_encoding_length(handle: Option<&TokenizerHandle>, text: Option<&[u8]>)
    requires
        input_of(handle, text) is Some,
    ensures
        encode_of(handle, text) matches Some(t) && count_of(handle, text) == t.len(),
{
}

/// Decoding a token sequence with an id outside the vocabulary gives `None`.
pub proof fn law_unknown_id_rejected(
    handle: &TokenizerHandle,
    tokens: &[u32],
    token_count: usize,
)
    requires
        has_unknown_id(handle@, tokens@),
    ensures
        decode_of(Some(handle), Some(tokens), token_count) is None,
{
}

/// Decoding a sequence whose ids all lie in the vocabulary, as every
/// sequence that `bpe_encode` returns does, gives what the engine
/// reconstructs from it.
pub proof fn law_known_ids_reach_the_engine(
    handle: &TokenizerHandle,
    tokens: &[u32],
    token_count: usize,
)
    requires
        !has_unknown_id(handle@, tokens@),
    ensures
        decode_of(Some(handle), Some(tokens), token_count) == decoding_of(handle@, tokens@),
{
}

/// Text that is not valid UTF-8 counts as `0` and has no encoding.
pub proof fn law_malformed_text_rejected(handle: Option<&TokenizerHandle>, text: &[u8])
    requires
        !valid_utf8(text@),
    ensures
        count_of(handle, Some(text)) == 0,
        encode_of(handle, Some(text)) is None,
{
}

} // verus!
