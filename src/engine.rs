//! The shared tokenizer engines and what this library assumes of them.
use bpe_openai::Tokenizer;
use vstd::prelude::*;

verus! {

/// The vocabularies whose engines can be selected.
#[derive(Clone, Copy, Debug, PartialEq, Eq, Structural)]
pub enum Vocabulary {
    Cl100kBase,
    O200kBase,
}

#[verifier::external_type_specification]
#[verifier::external_body]
pub struct ExTokenizer(Tokenizer);

/// The token ids that the engine of `vocabulary` produces for `text`.
pub uninterp spec fn encoding_of(vocabulary: Vocabulary, text: Seq<char>) -> Seq<u32>;

/// What the engine of `vocabulary` answers when asked to count the tokens
/// of `text` up to `limit`.
pub uninterp spec fn bounded_count_of(vocabulary: Vocabulary, text: Seq<char>, limit: usize) -> Option<
    usize,
>;

/// The number of token ids in the vocabulary; valid ids are below it.
pub uninterp spec fn vocabulary_size(vocabulary: Vocabulary) -> nat;

/// The text that the engine of `vocabulary` reconstructs from `tokens`, if
/// the bytes of those tokens form valid UTF-8.
pub uninterp spec fn decoding_of(vocabulary: Vocabulary, tokens: Seq<u32>) -> Option<Seq<char>>;

/// The process-wide engine of `vocabulary`.
pub uninterp spec fn engine_of(vocabulary: Vocabulary) -> Tokenizer;

/// Relies on bpe_openai::cl100k_base: it returns the one static engine of
/// that vocabulary, built on first use.
#[verifier::external_body]
pub(crate) fn cl100k_engine() -> (r: &'static Tokenizer)
    ensures
        *r == engine_of(Vocabulary::Cl100kBase),
{
    bpe_openai::cl100k_base()
}

/// Relies on bpe_openai::o200k_base: it returns the one static engine of
/// that vocabulary, built on first use.
#[verifier::external_body]
pub(crate) fn o200k_engine() -> (r: &'static Tokenizer)
    ensures
        *r == engine_of(Vocabulary::O200kBase),
{
    bpe_openai::o200k_base()
}

/// Relies on Tokenizer::encode: the token ids of the pre-tokenized pieces of
/// the text, in order. Every id is an index into the token table, and empty
/// text has no pieces, since no split pattern matches an empty string.
#[verifier::external_body]
pub(crate) fn engine_encode(engine: &Tokenizer, vocabulary: Vocabulary, text: &str) -> (r: Vec<
    u32,
>)
    requires
        *engine == engine_of(vocabulary),
    ensures
        r@ == encoding_of(vocabulary, text@),
        forall|i: int| 0 <= i < r@.len() ==> (r@[i] as nat) < vocabulary_size(vocabulary),
        text@.len() == 0 ==> r@.len() == 0,
{
    engine.encode(text)
}

/// Relies on Tokenizer::count: it runs the encoder of `encode` over the same
/// pieces and sums their lengths, so it is the length of the encoding; empty
/// text has no pieces.
#[verifier::external_body]
pub(crate) fn engine_count(engine: &Tokenizer, vocabulary: Vocabulary, text: &str) -> (r: usize)
    requires
        *engine == engine_of(vocabulary),
    ensures
        r == encoding_of(vocabulary, text@).len(),
        text@.len() == 0 ==> r == 0,
{
    engine.count(text)
}

/// Relies on Tokenizer::count_till_limit (after Tokenizer::normalize, which
/// borrows the text unchanged for these vocabularies). The answer depends on
/// the text and the limit alone. A `Some` holds the full count, which is then
/// within the limit; empty text has no pieces and counts as `Some(0)`. The
/// encoder gives up once its running count passes the limit plus a margin, a
/// threshold that only grows with the limit, so an answer found under one
/// limit stays under every larger one. Whether the margin always suffices is
/// left open by the source, so `None` only says that the count was not
/// confirmed to fit.
#[verifier::external_body]
pub(crate) fn engine_count_till_limit(
    engine: &Tokenizer,
    vocabulary: Vocabulary,
    text: &str,
    limit: usize,
) -> (r: Option<usize>)
    requires
        *engine == engine_of(vocabulary),
    ensures
        r == bounded_count_of(vocabulary, text@, limit),
        r matches Some(c) ==> c == encoding_of(vocabulary, text@).len() && c <= limit,
        r matches Some(c) ==> forall|l: usize|
            limit <= l ==> #[trigger] bounded_count_of(vocabulary, text@, l) == Some(c),
        text@.len() == 0 ==> r == Some(0usize),
{
    engine.count_till_limit(&engine.normalize(text), limit)
}

/// Relies on BytePairEncoding::num_tokens: the size of the token table.
#[verifier::external_body]
pub(crate) fn engine_vocabulary_size(engine: &Tokenizer, vocabulary: Vocabulary) -> (r: usize)
    requires
        *engine == engine_of(vocabulary),
    ensures
        r == vocabulary_size(vocabulary),
{
    engine.bpe.num_tokens()
}

/// Relies on Tokenizer::decode: the bytes of the tokens, concatenated, as a
/// `String` when they are valid UTF-8. It indexes the token table, so every id
/// must be below the vocabulary size.
#[verifier::external_body]
pub(crate) fn engine_decode(engine: &Tokenizer, vocabulary: Vocabulary, tokens: &[u32]) -> (r:
    Option<String>)
    requires
        *engine == engine_of(vocabulary),
        forall|i: int| 0 <= i < tokens@.len() ==> (tokens@[i] as nat) < vocabulary_size(vocabulary),
    ensures
        r matches Some(s) ==> decoding_of(vocabulary, tokens@) == Some(s@),
        r is None ==> decoding_of(vocabulary, tokens@) is None,
{
    engine.decode(tokens)
}

} // verus!
