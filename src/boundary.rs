//! The caller-facing operations: selecting an engine through a handle,
//! counting, bounded counting, encoding, decoding and releasing. Each failure
//! collapses into the sentinel of its operation: `0`, [`COUNT_SENTINEL`] or
//! `None`.
use bpe_openai::Tokenizer;
use crate::engine::{
    bounded_count_of, cl100k_engine, decoding_of, encoding_of, engine_count, engine_count_till_limit, engine_decode,
    engine_encode, engine_of, engine_vocabulary_size, o200k_engine, vocabulary_size, Vocabulary,
};
use crate::text::utf8_str;
use vstd::prelude::*;
use vstd::utf8::{decode_utf8, valid_utf8};

verus! {

/// What `bpe_count_till_limit` returns when the count is over the limit or
/// the input is rejected.
pub const COUNT_SENTINEL: usize = usize::MAX;

/// A caller-owned reference to the shared engine of one vocabulary.
/// Releasing it never touches the engine.
pub struct TokenizerHandle {
    tokenizer: &'static Tokenizer,
    vocabulary: Vocabulary,
}

impl View for TokenizerHandle {
    type V = Vocabulary;

    closed spec fn view(&self) -> Vocabulary {
        self.vocabulary
    }
}

impl TokenizerHandle {
    /// The handle refers to the engine of its own vocabulary.
    #[verifier::type_invariant]
    spec fn refers_to_its_engine(&self) -> bool {
        *self.tokenizer == engine_of(self.vocabulary)
    }

    /// A fresh handle on `tokenizer`, the engine of `vocabulary`.
    fn new(tokenizer: &'static Tokenizer, vocabulary: Vocabulary) -> (r: Box<TokenizerHandle>)
        requires
            *tokenizer == engine_of(vocabulary),
        ensures
            r@ == vocabulary,
    {
        Box::new(TokenizerHandle { tokenizer, vocabulary })
    }

    /// The vocabulary of this handle's engine.
    pub fn vocabulary(&self) -> (r: Vocabulary)
        ensures
            r == self@,
    {
        self.vocabulary
    }

    /// The engine and vocabulary behind `handle`, or `None` for a missing
    /// handle.
    pub fn get_tokenizer(handle: Option<&TokenizerHandle>) -> (r: Option<
        (&'static Tokenizer, Vocabulary),
    >)
        ensures
            r is Some <==> handle is Some,
            handle matches Some(h) ==> (r matches Some((t, v)) && v == h@ && *t == engine_of(v)),
    {
        match handle {
            Some(h) => {
                proof {
                    use_type_invariant(h);
                }
                Some((h.tokenizer, h.vocabulary))
            },
            None => None,
        }
    }
}

/// The vocabulary and text that an operation works on, or `None` when the
/// handle or the text is missing, or the text is not valid UTF-8.
pub open spec fn input_of(handle: Option<&TokenizerHandle>, text: Option<&[u8]>) -> Option<
    (Vocabulary, Seq<char>),
> {
    match (handle, text) {
        (Some(h), Some(t)) => if valid_utf8(t@) {
            Some((h@, decode_utf8(t@)))
        } else {
            None
        },
        _ => None,
    }
}

/// The token ids of a valid input.
pub open spec fn encode_of(handle: Option<&TokenizerHandle>, text: Option<&[u8]>) -> Option<
    Seq<u32>,
> {
    match input_of(handle, text) {
        Some((v, s)) => Some(encoding_of(v, s)),
        None => None,
    }
}

/// The token count of a valid input, and `0` for a rejected one.
pub open spec fn count_of(handle: Option<&TokenizerHandle>, text: Option<&[u8]>) -> nat {
    match encode_of(handle, text) {
        Some(t) => t.len(),
        None => 0,
    }
}

/// The answer of a bounded count: what the engine counts up to `limit` for
/// a valid input, with "not within the limit" as the sentinel; the sentinel
/// for a rejected input.
pub open spec fn bounded_count_answer(
    handle: Option<&TokenizerHandle>,
    text: Option<&[u8]>,
    limit: usize,
) -> usize {
    match input_of(handle, text) {
        Some((v, s)) => match bounded_count_of(v, s, limit) {
            Some(c) => c,
            None => COUNT_SENTINEL,
        },
        None => COUNT_SENTINEL,
    }
}

/// Whether some id of `tokens` lies outside the vocabulary.
pub open spec fn has_unknown_id(vocabulary: Vocabulary, tokens: Seq<u32>) -> bool {
    exists|i: int| 0 <= i < tokens.len() && (tokens[i] as nat) >= vocabulary_size(vocabulary)
}

/// The text that decoding gives: `None` for a missing handle, for a missing
/// token buffer with a nonzero count, and for ids outside the vocabulary;
/// otherwise what the engine reconstructs. A missing buffer with count `0` is
/// the empty sequence.
pub open spec fn decode_of(
    handle: Option<&TokenizerHandle>,
    tokens: Option<&[u32]>,
    token_count: usize,
) -> Option<Seq<char>> {
    match handle {
        None => None,
        Some(h) => match tokens {
            None => if token_count == 0 {
                Some(Seq::empty())
            } else {
                None
            },
            Some(t) => if has_unknown_id(h@, t@) {
                None
            } else {
                decoding_of(h@, t@)
            },
        },
    }
}

/// A handle on the shared `cl100k_base` engine.
pub fn bpe_cl100k_base() -> (r: Box<TokenizerHandle>)
    ensures
        r@ == Vocabulary::Cl100kBase,
{
    TokenizerHandle::new(cl100k_engine(), Vocabulary::Cl100kBase)
}

/// A handle on the shared `o200k_base` engine.
pub fn bpe_o200k_base() -> (r: Box<TokenizerHandle>)
    ensures
        r@ == Vocabulary::O200kBase,
{
    TokenizerHandle::new(o200k_engine(), Vocabulary::O200kBase)
}

/// The vocabulary and validated text of an operation's input.
fn validate<'a>(handle: Option<&TokenizerHandle>, text: Option<&'a [u8]>) -> (r: Option<
    (&'static Tokenizer, Vocabulary, &'a str),
>)
    ensures
        r is Some <==> input_of(handle, text) is Some,
        r matches Some((t, v, s)) ==> input_of(handle, text) == Some((v, s@)) && *t == engine_of(v),
        r matches Some((t, v, s)) ==> (handle matches Some(h) && h@ == v),
{
    let (tokenizer, vocabulary) = match TokenizerHandle::get_tokenizer(handle) {
        Some(found) => found,
        None => return None,
    };
    let bytes = match text {
        Some(t) => t,
        None => return None,
    };
    match utf8_str(bytes) {
        Some(s) => Some((tokenizer, vocabulary, s)),
        None => None,
    }
}

/// The number of tokens in `text`, or `0` when the handle or the text is
/// missing or the text is not valid UTF-8.
pub fn bpe_count(handle: Option<&TokenizerHandle>, text: Option<&[u8]>) -> (r: usize)
    ensures
        r == count_of(handle, text),
        input_of(handle, text) matches Some((_, s)) && s.len() == 0 ==> r == 0,
{
    match validate(handle, text) {
        Some((tokenizer, vocabulary, s)) => engine_count(tokenizer, vocabulary, s),
        None => 0,
    }
}

/// The answer of a bounded count: the count the engine confirmed within the
/// limit, or the sentinel.
pub fn count_or_sentinel(confirmed: Option<usize>) -> (r: usize)
    ensures
        confirmed matches Some(c) ==> r == c,
        confirmed is None ==> r == COUNT_SENTINEL,
{
    match confirmed {
        Some(c) => c,
        None => COUNT_SENTINEL,
    }
}

/// The number of tokens in `text` when it is at most `limit`, found without
/// tokenizing much beyond the limit; the sentinel when the count is over the
/// limit or the input is rejected.
pub fn bpe_count_till_limit(
    handle: Option<&TokenizerHandle>,
    text: Option<&[u8]>,
    limit: usize,
) -> (r: usize)
    ensures
        r == bounded_count_answer(handle, text, limit),
        input_of(handle, text) is None ==> r == COUNT_SENTINEL,
        r != COUNT_SENTINEL ==> r == count_of(handle, text) && r <= limit,
        count_of(handle, text) > limit ==> r == COUNT_SENTINEL,
        input_of(handle, text) matches Some((_, s)) && s.len() == 0 ==> r == 0,
        r != COUNT_SENTINEL ==> forall|l: usize|
            limit <= l ==> #[trigger] bounded_count_answer(handle, text, l) == r,
{
    match validate(handle, text) {
        Some((tokenizer, vocabulary, s)) => {
            let confirmed = engine_count_till_limit(tokenizer, vocabulary, s, limit);
            let r = count_or_sentinel(confirmed);
            proof {
                if r != COUNT_SENTINEL {
                    assert forall|l: usize| limit <= l implies #[trigger] bounded_count_answer(
                        handle,
                        text,
                        l,
                    ) == r by {
                        assert(bounded_count_of(vocabulary, s@, l) == Some(r));
                    }
                }
            }
            r
        },
        None => COUNT_SENTINEL,
    }
}

/// The token ids of `text`, with their number written to `token_count`; on a
/// missing handle or text, or text that is not valid UTF-8, `None` with `0`
/// written. An empty text gives an empty sequence, which is no failure.
pub fn bpe_encode(
    handle: Option<&TokenizerHandle>,
    text: Option<&[u8]>,
    token_count: &mut usize,
) -> (r: Option<Vec<u32>>)
    ensures
        r is Some <==> encode_of(handle, text) is Some,
        r matches Some(t) ==> encode_of(handle, text) == Some(t@),
        r matches Some(t) ==> *final(token_count) == t.len(),
        r is None ==> *final(token_count) == 0,
        r matches Some(t) ==> (handle matches Some(h) && !has_unknown_id(h@, t@)),
        input_of(handle, text) matches Some((_, s)) && s.len() == 0 ==> (r matches Some(t)
            && t@.len() == 0),
{
    match validate(handle, text) {
        Some((tokenizer, vocabulary, s)) => {
            let tokens = engine_encode(tokenizer, vocabulary, s);
            assert(!has_unknown_id(vocabulary, tokens@));
            *token_count = tokens.len();
            Some(tokens)
        },
        None => {
            *token_count = 0;
            None
        },
    }
}

/// Whether every id of `tokens` is below `size`.
fn all_below(tokens: &[u32], size: usize) -> (r: bool)
    ensures
        r == forall|i: int| 0 <= i < tokens@.len() ==> (tokens@[i] as nat) < size,
{
    let mut i: usize = 0;
    while i < tokens.len()
        invariant
            i <= tokens@.len(),
            forall|j: int| 0 <= j < i ==> (tokens@[j] as nat) < size,
        decreases tokens@.len() - i,
    {
        if tokens[i] as usize >= size {
            return false;
        }
        i = i + 1;
    }
    true
}

/// The text that `tokens` stand for; `None` for a missing handle, a missing
/// buffer with a nonzero `token_count`, an id outside the vocabulary, or
/// bytes that do not form valid UTF-8. `token_count` is read only when the
/// buffer is missing.
pub fn bpe_decode(
    handle: Option<&TokenizerHandle>,
    tokens: Option<&[u32]>,
    token_count: usize,
) -> (r: Option<String>)
    ensures
        r is Some <==> decode_of(handle, tokens, token_count) is Some,
        r matches Some(s) ==> decode_of(handle, tokens, token_count) == Some(s@),
{
    let (tokenizer, vocabulary) = match TokenizerHandle::get_tokenizer(handle) {
        Some(found) => found,
        None => return None,
    };
    let ids = match tokens {
        Some(t) => t,
        None => {
            if token_count == 0 {
                let empty = String::new();
                return Some(empty);
            }
            return None;
        },
    };
    if !all_below(ids, engine_vocabulary_size(tokenizer, vocabulary)) {
        return None;
    }
    engine_decode(tokenizer, vocabulary, ids)
}

/// Releases a handle; a missing one is a no-op. The shared engine stays.
pub fn bpe_free(handle: Option<Box<TokenizerHandle>>) {
    match handle {
        Some(_released) => {},
        None => {},
    }
}

/// Releases a token sequence that `bpe_encode` returned; a missing one is a
/// no-op.
pub fn bpe_free_tokens(tokens: Option<Vec<u32>>) {
    match tokens {
        Some(_released) => {},
        None => {},
    }
}

/// Releases a text that `bpe_decode` returned; a missing one is a no-op.
pub fn bpe_free_text(text: Option<String>) {
    match text {
        Some(_released) => {},
        None => {},
    }
}

} // verus!
