//! What the tokenizer says about one text: ids, attention mask and segment
//! ids, widened to the integer width the model reads.

use vstd::prelude::*;
use crate::error::EmbedError;

verus! {

/// `tokenizers::Tokenizer`, a loaded tokenizer; nothing inside it is
/// visible here.
#[verifier::external_type_specification]
#[verifier::external_body]
pub struct ExTokenizer(tokenizers::Tokenizer);

/// `tokenizers::Encoding`, what a tokenizer returns for one text.
#[verifier::external_type_specification]
#[verifier::external_body]
pub struct ExEncoding(tokenizers::Encoding);

/// The token ids an encoding holds.
pub uninterp spec fn encoding_ids(e: tokenizers::Encoding) -> Seq<u32>;

/// The attention mask an encoding holds.
pub uninterp spec fn encoding_attention_mask(e: tokenizers::Encoding) -> Seq<u32>;

/// The segment ids an encoding holds.
pub uninterp spec fn encoding_type_ids(e: tokenizers::Encoding) -> Seq<u32>;

/// `Encoding::get_ids` borrows the stored token ids.
pub assume_specification[ tokenizers::Encoding::get_ids ](e: &tokenizers::Encoding) -> (r: &[u32])
    ensures
        r@ == encoding_ids(*e),
;

/// `Encoding::get_attention_mask` borrows the stored attention mask.
pub assume_specification[ tokenizers::Encoding::get_attention_mask ](
    e: &tokenizers::Encoding,
) -> (r: &[u32])
    ensures
        r@ == encoding_attention_mask(*e),
;

/// `Encoding::get_type_ids` borrows the stored segment ids.
pub assume_specification[ tokenizers::Encoding::get_type_ids ](
    e: &tokenizers::Encoding,
) -> (r: &[u32])
    ensures
        r@ == encoding_type_ids(*e),
;

/// The truncation a tokenizer is set to apply: maximum length and stride,
/// or `None` when it truncates nothing.
pub uninterp spec fn tokenizer_truncation(t: tokenizers::Tokenizer) -> Option<(usize, usize)>;

/// `Tokenizer::get_truncation`, reduced to the maximum length and the
/// stride of the settings it returns.
#[verifier::external_body]
pub(crate) fn truncation_of(tokenizer: &tokenizers::Tokenizer) -> (r: Option<(usize, usize)>)
    ensures
        r == tokenizer_truncation(*tokenizer),
{
    tokenizer.get_truncation().map(|params| (params.max_length, params.stride))
}

/// True when truncating a single text under these settings cannot fail an
/// assertion of the tokenizer: there is no truncation, or the maximum
/// length is 0, or the stride is below the maximum length.
pub open spec fn truncation_is_sound(settings: Option<(usize, usize)>) -> bool {
    settings matches Some(pair) ==> pair.0 == 0 || pair.1 < pair.0
}

/// `Tokenizer::encode` on a single text; the flag says whether the
/// post-processor adds its special tokens. The error, a boxed trait object,
/// is dropped. What comes back depends on the tokenizer's model, so nothing
/// is claimed of it. By the source, an encoding longer than a maximum
/// length above 0 is cut by `Encoding::truncate`, which asserts that the
/// stride is below that length; and with special tokens their number is
/// subtracted from the maximum length unchecked. The `requires` leaves both
/// out.
#[verifier::external_body]
pub(crate) fn encode_text(
    tokenizer: &tokenizers::Tokenizer,
    text: &str,
    add_special_tokens: bool,
) -> (r: Option<tokenizers::Encoding>)
    requires
        !add_special_tokens,
        truncation_is_sound(tokenizer_truncation(*tokenizer)),
{
    tokenizer.encode(text, add_special_tokens).ok()
}

/// Each element of `s` as a 64-bit signed integer of the same value.
pub open spec fn widened(s: Seq<u32>) -> Seq<i64> {
    Seq::new(s.len(), |i: int| s[i] as i64)
}

/// Copies a slice of 32-bit unsigned values into 64-bit signed ones.
pub fn widen(values: &[u32]) -> (r: Vec<i64>)
    ensures
        r@ == widened(values@),
{
    let mut out: Vec<i64> = Vec::with_capacity(values.len());
    let mut i: usize = 0;
    while i < values.len()
        invariant
            i <= values.len(),
            out@.len() == i,
            forall|j: int| 0 <= j < i ==> out@[j] == values@[j] as i64,
        decreases values.len() - i,
    {
        out.push(values[i] as i64);
        i += 1;
    }
    assert(out@ =~= widened(values@));
    out
}

/// Three sequences of equal length describing one tokenized text.
pub struct TokenEncoding {
    ids: Vec<i64>,
    attention_mask: Vec<i64>,
    token_type_ids: Vec<i64>,
}

impl TokenEncoding {
    #[verifier::type_invariant]
    spec fn equal_lengths(self) -> bool {
        self.ids@.len() == self.attention_mask@.len() && self.ids@.len()
            == self.token_type_ids@.len()
    }

    /// The token ids.
    pub closed spec fn ids_spec(self) -> Seq<i64> {
        self.ids@
    }

    /// The attention mask.
    pub closed spec fn attention_mask_spec(self) -> Seq<i64> {
        self.attention_mask@
    }

    /// The segment ids.
    pub closed spec fn token_type_ids_spec(self) -> Seq<i64> {
        self.token_type_ids@
    }

    /// Number of token positions.
    pub open spec fn seq_len(self) -> nat {
        self.ids_spec().len()
    }

    /// Groups three sequences into an encoding.
    ///
    /// Fails with `Shape` exactly when they are not of one length.
    pub fn new(
        ids: Vec<i64>,
        attention_mask: Vec<i64>,
        token_type_ids: Vec<i64>,
    ) -> (r: Result<TokenEncoding, EmbedError>)
        ensures
            r is Ok <==> ids@.len() == attention_mask@.len() && ids@.len()
                == token_type_ids@.len(),
            r matches Ok(e) ==> e.ids_spec() == ids@ && e.attention_mask_spec()
                == attention_mask@ && e.token_type_ids_spec() == token_type_ids@,
            r matches Err(e) ==> e == EmbedError::Shape,
    {
        if ids.len() != attention_mask.len() || ids.len() != token_type_ids.len() {
            return Err(EmbedError::Shape);
        }
        Ok(TokenEncoding { ids, attention_mask, token_type_ids })
    }

    /// Reads ids, attention mask and segment ids out of a tokenizer's
    /// encoding, widening each value.
    ///
    /// Fails with `Shape` exactly when the three are not of one length.
    pub fn from_encoding(e: &tokenizers::Encoding) -> (r: Result<TokenEncoding, EmbedError>)
        ensures
            r is Ok <==> encoding_ids(*e).len() == encoding_attention_mask(*e).len()
                && encoding_ids(*e).len() == encoding_type_ids(*e).len(),
            r matches Ok(t) ==> t.ids_spec() == widened(encoding_ids(*e))
                && t.attention_mask_spec() == widened(encoding_attention_mask(*e))
                && t.token_type_ids_spec() == widened(encoding_type_ids(*e)),
            r matches Err(err) ==> err == EmbedError::Shape,
    {
        let ids = widen(e.get_ids());
        let attention_mask = widen(e.get_attention_mask());
        let token_type_ids = widen(e.get_type_ids());
        TokenEncoding::new(ids, attention_mask, token_type_ids)
    }

    /// Number of token positions, which is the length of each of the three
    /// sequences.
    pub fn len(&self) -> (n: usize)
        ensures
            n == self.seq_len(),
            n == self.attention_mask_spec().len(),
            n == self.token_type_ids_spec().len(),
    {
        proof {
            use_type_invariant(self);
        }
        self.ids.len()
    }

    /// The token ids.
    pub fn ids(&self) -> (r: &Vec<i64>)
        ensures
            r@ == self.ids_spec(),
    {
        &self.ids
    }

    /// The attention mask.
    pub fn attention_mask(&self) -> (r: &Vec<i64>)
        ensures
            r@ == self.attention_mask_spec(),
    {
        &self.attention_mask
    }

    /// The segment ids.
    pub fn token_type_ids(&self) -> (r: &Vec<i64>)
        ensures
            r@ == self.token_type_ids_spec(),
    {
        &self.token_type_ids
    }

    /// Gives up the three sequences: ids, attention mask, segment ids.
    pub fn into_parts(self) -> (r: (Vec<i64>, Vec<i64>, Vec<i64>))
        ensures
            r.0@ == self.ids_spec(),
            r.1@ == self.attention_mask_spec(),
            r.2@ == self.token_type_ids_spec(),
            r.1@.len() == r.0@.len(),
            r.2@.len() == r.0@.len(),
    {
        proof {
            use_type_invariant(&self);
        }
        (self.ids, self.attention_mask, self.token_type_ids)
    }
}

/// What the tokenizer is asked for one text: the text as it came, and no
/// special tokens.
pub fn tokenizer_request<'a>(text: &'a str) -> (r: (&'a str, bool))
    ensures
        r.0@ == text@,
        !r.1,
{
    (text, false)
}

/// Reads what the tokenizer answered.
///
/// No answer is a `Tokenization` failure. An encoding is read as
/// [`TokenEncoding::from_encoding`] reads it: its three sequences widened
/// value by value, or a `Shape` failure when they differ in length.
pub fn read_outcome(outcome: Option<tokenizers::Encoding>) -> (r: Result<TokenEncoding, EmbedError>)
    ensures
        outcome is None ==> (r matches Err(e) && e == EmbedError::Tokenization),
        outcome matches Some(e) ==> is_reading_of(r, e),
{
    match outcome {
        Some(encoding) => TokenEncoding::from_encoding(&encoding),
        None => Err(EmbedError::Tokenization),
    }
}

/// Tokenizes one text without special tokens and reads the encoding.
///
/// A tokenizer whose truncation settings are unsound, with a stride that
/// is not below a maximum length above 0, is not asked at all: that is a
/// `Tokenization` failure. Otherwise the tokenizer is asked what
/// [`tokenizer_request`] says and its answer is read by [`read_outcome`]:
/// a refused text is a `Tokenization` failure, an encoding gives its three
/// sequences widened value by value, or a `Shape` failure when they differ
/// in length. Which encoding a text gets is the tokenizer's to decide.
pub fn tokenize(tokenizer: &tokenizers::Tokenizer, text: &str) -> (r: Result<
    TokenEncoding,
    EmbedError,
>)
    ensures
        !truncation_is_sound(tokenizer_truncation(*tokenizer)) ==> (r matches Err(e) && e
            == EmbedError::Tokenization),
        r matches Err(e) ==> e == EmbedError::Tokenization || e == EmbedError::Shape,
        (r matches Err(e) && e == EmbedError::Tokenization) || exists|e: tokenizers::Encoding|
            is_reading_of(r, e),
        r matches Ok(t) ==> t.attention_mask_spec().len() == t.seq_len()
            && t.token_type_ids_spec().len() == t.seq_len(),
        r matches Ok(t) ==> holds_unsigned(t.ids_spec()) && holds_unsigned(
            t.attention_mask_spec(),
        ) && holds_unsigned(t.token_type_ids_spec()),
{
    match truncation_of(tokenizer) {
        Some((max_length, stride)) => {
            if max_length != 0 && stride >= max_length {
                return Err(EmbedError::Tokenization);
            }
        },
        None => {},
    }
    let (text, add_special_tokens) = tokenizer_request(text);
    let outcome = encode_text(tokenizer, text, add_special_tokens);
    let ghost answer = outcome;
    let r = read_outcome(outcome);
    proof {
        if answer is Some {
            let encoding = answer->0;
            assert(is_reading_of(r, encoding));
            lemma_widened_unsigned(encoding_ids(encoding));
            lemma_widened_unsigned(encoding_attention_mask(encoding));
            lemma_widened_unsigned(encoding_type_ids(encoding));
        }
    }
    r
}

/// True when `r` is what reading the encoding `e` yields: the three
/// sequences of `e`, widened, when they are of one length, and a `Shape`
/// failure when they are not.
pub open spec fn is_reading_of(
    r: Result<TokenEncoding, EmbedError>,
    e: tokenizers::Encoding,
) -> bool {
    let aligned = encoding_ids(e).len() == encoding_attention_mask(e).len() && encoding_ids(
        e,
    ).len() == encoding_type_ids(e).len();
    match r {
        Ok(t) => {
            &&& aligned
            &&& t.ids_spec() == widened(encoding_ids(e))
            &&& t.attention_mask_spec() == widened(encoding_attention_mask(e))
            &&& t.token_type_ids_spec() == widened(encoding_type_ids(e))
        },
        Err(err) => !aligned && err == EmbedError::Shape,
    }
}

/// True when every value is one a 32-bit unsigned integer can hold; in
/// particular none is negative.
pub open spec fn holds_unsigned(values: Seq<i64>) -> bool {
    forall|i: int| 0 <= i < values.len() ==> 0 <= #[trigger] values[i] <= u32::MAX
}

/// Widening keeps the length and each value, so a widened sequence holds
/// unsigned values only.
pub proof fn lemma_widened_unsigned(s: Seq<u32>)
    ensures
        widened(s).len() == s.len(),
        forall|i: int| 0 <= i < s.len() ==> #[trigger] widened(s)[i] == s[i],
        holds_unsigned(widened(s)),
{
}

} // verus!
