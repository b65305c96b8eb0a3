//! The embedding pipeline up to pooling: text is tokenized, the encoding
//! is laid out as model inputs, the model runs, and its hidden states come
//! back together with the attention mask that weighs them.

use vstd::prelude::*;
use crate::encoding::{
    encoding_attention_mask, holds_unsigned, is_reading_of, tokenize, tokenizer_truncation,
    truncation_is_sound, widened, TokenEncoding,
};
use crate::error::EmbedError;
use crate::inference::{is_input_row, HiddenStates, InferenceAdapter, ModelInputs};
use crate::pooling::{
    as_positions, attended, attended_positions, attends, attention_weight, lemma_attended_exact,
    weight,
};
use crate::shape::{pair, HiddenShape};

verus! {

/// Copies a sequence of mask values.
pub fn copy_mask(mask: &Vec<i64>) -> (r: Vec<i64>)
    ensures
        r@ == mask@,
{
    let mut out: Vec<i64> = Vec::with_capacity(mask.len());
    let mut i: usize = 0;
    while i < mask.len()
        invariant
            i <= mask.len(),
            out@ =~= mask@.take(i as int),
        decreases mask.len() - i,
    {
        out.push(mask[i]);
        i += 1;
    }
    assert(mask@.take(mask@.len() as int) =~= mask@);
    out
}

/// What pooling needs of one text: the hidden states of its positions and
/// the attention mask the tokenizer gave them, one value per position.
pub struct Encoded {
    states: HiddenStates,
    attention_mask: Vec<i64>,
}

impl Encoded {
    #[verifier::type_invariant]
    spec fn aligned(self) -> bool {
        self.attention_mask@.len() == self.states.shape_spec().seq_len_spec()
    }

    /// The hidden states.
    pub closed spec fn states_spec(self) -> HiddenStates {
        self.states
    }

    /// The attention mask.
    pub closed spec fn attention_mask_spec(self) -> Seq<i64> {
        self.attention_mask@
    }

    /// Pairs hidden states with an attention mask.
    ///
    /// Fails with `Shape` exactly when the mask does not have one value per
    /// position of the hidden states.
    pub fn new(states: HiddenStates, attention_mask: Vec<i64>) -> (r: Result<Encoded, EmbedError>)
        ensures
            r is Ok <==> attention_mask@.len() == states.shape_spec().seq_len_spec(),
            r matches Ok(e) ==> e.states_spec() == states && e.attention_mask_spec()
                == attention_mask@,
            r matches Err(e) ==> e == EmbedError::Shape,
    {
        if attention_mask.len() != states.shape().seq_len() {
            return Err(EmbedError::Shape);
        }
        Ok(Encoded { states, attention_mask })
    }

    /// The hidden states.
    pub fn states(&self) -> (r: &HiddenStates)
        ensures
            *r == self.states_spec(),
    {
        &self.states
    }

    /// The layout of the hidden states.
    pub fn shape(&self) -> (r: HiddenShape)
        ensures
            r == self.states_spec().shape_spec(),
    {
        self.states.shape()
    }

    /// The attention mask, one value per position of the hidden states.
    pub fn attention_mask(&self) -> (r: &Vec<i64>)
        ensures
            r@ == self.attention_mask_spec(),
            r@.len() == self.states_spec().shape_spec().seq_len_spec(),
    {
        proof {
            use_type_invariant(self);
        }
        &self.attention_mask
    }

    /// The divisor of the average: the sum of the positive mask values.
    pub fn attention_weight(&self) -> (w: i128)
        ensures
            w == weight(self.attention_mask_spec()),
            w >= 0,
    {
        attention_weight(&self.attention_mask)
    }

    /// Checks that a buffer of `len` values can hold these hidden states.
    ///
    /// Fails with `Inference` exactly when `len` is not the number of
    /// values the layout addresses.
    pub fn check_buffer(&self, len: usize) -> (r: Result<(), EmbedError>)
        ensures
            r is Ok <==> len == self.states_spec().shape_spec().len_spec(),
            r matches Err(e) ==> e == EmbedError::Inference,
    {
        if len == self.states.shape().len() {
            Ok(())
        } else {
            Err(EmbedError::Inference)
        }
    }

    /// The positions whose hidden states take part in pooling, in
    /// increasing order; each is a position of the hidden states.
    pub fn attended_positions(&self) -> (r: Vec<usize>)
        ensures
            as_positions(r@) == attended(self.attention_mask_spec()),
            forall|k: int|
                0 <= k < r@.len() ==> (#[trigger] r@[k])
                    < self.states_spec().shape_spec().seq_len_spec(),
    {
        let r = attended_positions(&self.attention_mask);
        proof {
            use_type_invariant(self);
            lemma_attended_exact(self.attention_mask@);
            assert forall|k: int| 0 <= k < r@.len() implies (#[trigger] r@[k])
                < self.states.shape_spec().seq_len_spec() by {
                assert(as_positions(r@)[k] == r@[k] as int);
                assert(attends(self.attention_mask@, attended(self.attention_mask@)[k]));
            }
        }
        r
    }
}

/// One loaded model and one loaded tokenizer.
pub struct Embedder {
    adapter: InferenceAdapter,
    tokenizer: tokenizers::Tokenizer,
}

impl Embedder {
    /// The tokenizer of the pipeline.
    pub closed spec fn tokenizer_spec(self) -> tokenizers::Tokenizer {
        self.tokenizer
    }

    /// The inference adapter of the pipeline.
    pub closed spec fn adapter_spec(self) -> InferenceAdapter {
        self.adapter
    }

    /// Joins a loaded session and a loaded tokenizer into a pipeline.
    pub fn new(session: ort::session::Session, tokenizer: tokenizers::Tokenizer) -> (r: Embedder)
        ensures
            r.tokenizer_spec() == tokenizer,
            r.adapter_spec().session_spec() == session,
    {
        Embedder { adapter: InferenceAdapter::new(session), tokenizer }
    }

    /// Tokenizes one text without special tokens.
    ///
    /// A tokenizer with unsound truncation settings, and a text the
    /// tokenizer rejects, are `Tokenization` failures. Otherwise the
    /// outcome is that of reading the encoding the tokenizer produced: its
    /// three sequences widened value by value, or a `Shape` failure when
    /// they differ in length.
    pub fn tokenize(&self, text: &str) -> (r: Result<TokenEncoding, EmbedError>)
        ensures
            !truncation_is_sound(tokenizer_truncation(self.tokenizer_spec()))
                ==> (r matches Err(e) && e == EmbedError::Tokenization),
            r matches Err(e) ==> e == EmbedError::Tokenization || e == EmbedError::Shape,
            (r matches Err(e) && e == EmbedError::Tokenization) || exists|e: tokenizers::Encoding|
                is_reading_of(r, e),
            r matches Ok(t) ==> t.attention_mask_spec().len() == t.seq_len()
                && t.token_type_ids_spec().len() == t.seq_len(),
            r matches Ok(t) ==> holds_unsigned(t.ids_spec()) && holds_unsigned(
                t.attention_mask_spec(),
            ) && holds_unsigned(t.token_type_ids_spec()),
    {
        tokenize(&self.tokenizer, text)
    }

    /// Runs the model on an encoding and pairs its hidden states with the
    /// encoding's own attention mask.
    ///
    /// Fails with `Shape` exactly when the encoding is empty or longer than
    /// an array axis may be. Otherwise the outcome is the model's: any
    /// failure is `Inference`, and a success has one hidden state per
    /// token position.
    pub fn encode_tokens(&mut self, tokens: TokenEncoding) -> (r: Result<Encoded, EmbedError>)
        ensures
            (tokens.seq_len() < 1 || tokens.seq_len() > isize::MAX) <==> r == Err::<
                Encoded,
                EmbedError,
            >(EmbedError::Shape),
            r matches Err(e) ==> e == EmbedError::Shape || e == EmbedError::Inference,
            r matches Ok(e) ==> e.attention_mask_spec() == tokens.attention_mask_spec()
                && e.states_spec().shape_spec().seq_len_spec() == tokens.seq_len(),
            r matches Ok(e) ==> e.attention_mask_spec().len() == tokens.seq_len(),
            (r matches Err(e) && e == EmbedError::Shape) ==> *final(self) == *old(self),
            final(self).tokenizer_spec() == old(self).tokenizer_spec(),
    {
        let seq_len = tokens.len();
        let mask = copy_mask(tokens.attention_mask());
        let inputs = match ModelInputs::from_encoding(tokens) {
            Ok(inputs) => inputs,
            Err(e) => {
                return Err(e);
            },
        };
        proof {
            if seq_len >= 1 {
                assert(is_input_row(inputs.ids, seq_len));
                assert(is_input_row(inputs.attention_mask, seq_len));
                assert(is_input_row(inputs.token_type_ids, seq_len));
                assert(inputs.agree());
            } else {
                assert forall|l: usize| !is_input_row(inputs.ids, l) by {
                    if is_input_row(inputs.ids, l) {
                        assert(pair(1, l)[1] == l);
                        assert(pair(1, seq_len)[1] == seq_len);
                    }
                }
            }
        }
        let ghost ids = inputs.ids;
        let states = match self.adapter.forward(inputs) {
            Ok(states) => states,
            Err(e) => {
                return Err(e);
            },
        };
        proof {
            let l = states.shape_spec().seq_len_spec();
            assert(is_input_row(ids, l));
            assert(pair(1, l)[1] == l);
            assert(pair(1, seq_len)[1] == seq_len);
        }
        Encoded::new(states, mask)
    }

    /// Embeds one text up to pooling: tokenizes it, runs the model, and
    /// returns the hidden states with the attention mask.
    ///
    /// Every failure is one of the pipeline: `Tokenization`, `Shape` or
    /// `Inference`. A tokenizer with unsound truncation settings is a
    /// `Tokenization` failure. After a `Tokenization` or `Shape` failure
    /// the pipeline is as it was: the model is not run. On success the mask
    /// is the one the tokenizer gave the
    /// text, widened value by value, so no value of it is negative, and
    /// there is one hidden state per value of it, at least one.
    pub fn encode(&mut self, text: &str) -> (r: Result<Encoded, EmbedError>)
        ensures
            !truncation_is_sound(tokenizer_truncation(old(self).tokenizer_spec()))
                ==> (r matches Err(e) && e == EmbedError::Tokenization),
            r matches Err(e) ==> e.is_pipeline_failure(),
            (r matches Err(e) && e != EmbedError::Inference) ==> *final(self) == *old(self),
            r matches Ok(e) ==> holds_unsigned(e.attention_mask_spec()),
            r matches Ok(e) ==> exists|enc: tokenizers::Encoding|
                e.attention_mask_spec() == widened(#[trigger] encoding_attention_mask(enc))
                    && encoding_attention_mask(enc).len() >= 1,
            r matches Ok(e) ==> e.attention_mask_spec().len()
                == e.states_spec().shape_spec().seq_len_spec(),
            final(self).tokenizer_spec() == old(self).tokenizer_spec(),
    {
        let tokens = match self.tokenize(text) {
            Ok(tokens) => tokens,
            Err(e) => {
                return Err(e);
            },
        };
        let ghost read = Ok::<TokenEncoding, EmbedError>(tokens);
        let r = self.encode_tokens(tokens);
        proof {
            if r is Ok {
                let enc = choose|enc: tokenizers::Encoding| is_reading_of(read, enc);
                assert(r->Ok_0.attention_mask_spec() == widened(encoding_attention_mask(enc)));
                assert(widened(encoding_attention_mask(enc)).len() == encoding_attention_mask(
                    enc,
                ).len());
            }
        }
        r
    }
}

} // verus!
