//! The inference adapter: three integer matrices go in as named tensors,
//! and the first output comes back as validated hidden states.

use vstd::prelude::*;
use crate::encoding::TokenEncoding;
use crate::error::EmbedError;
use crate::matrix::{matrix_dims, matrix_raw, shape_of, IndexMatrix};
use crate::shape::{all_positive, lemma_volume_pair, pair, volume, HiddenShape};

verus! {

/// `ort::session::Session`, a loaded model; nothing inside it is visible
/// here.
#[verifier::external_type_specification]
#[verifier::external_body]
pub struct ExSession(ort::session::Session);

/// `ort::Error`, carried from the engine to where it is mapped to a
/// failure of this crate.
#[verifier::external_type_specification]
#[verifier::external_body]
pub struct ExOrtError(ort::Error);

/// An `ort::value::Tensor<i64>`: a tensor of 64-bit integers owned by the
/// inference engine.
#[verifier::external_body]
pub struct InputTensor {
    inner: ort::value::Tensor<i64>,
}

/// An `ort::value::DynValue` that the inference engine produced: one
/// output of a run.
#[verifier::external_body]
pub struct ModelOutput {
    /// The engine's own handle on the value.
    pub inner: ort::value::DynValue,
}

/// The axis lengths an input tensor was created with.
pub uninterp spec fn tensor_dims(t: InputTensor) -> Seq<usize>;

/// The elements an input tensor was created from, in order.
pub uninterp spec fn tensor_data(t: InputTensor) -> Seq<i64>;

/// Whether an output is a tensor whose elements are 32-bit floats.
pub uninterp spec fn output_is_float32(o: ModelOutput) -> bool;

/// The axis lengths of an output if it is a tensor, `None` if it is not.
pub uninterp spec fn output_dims(o: ModelOutput) -> Option<Seq<i64>>;

/// True when every axis length can be written as an `i64`.
pub open spec fn fits_i64(shape: Seq<usize>) -> bool {
    forall|i: int| 0 <= i < shape.len() ==> shape[i] <= i64::MAX
}

/// `ort::value::Tensor::from_array` on a shape slice and a boxed slice of
/// data. By its source the call fails when an axis is shorter than 1 or
/// when the shape's volume differs from the number of elements; past that
/// it is up to the engine. A tensor that comes back carries the shape and
/// the elements it was given. The `requires` keeps the volume computation
/// and the conversion of each axis to `i64` from overflowing. The call
/// needs the engine's runtime library and panics where it cannot be
/// loaded; a session exists only once it has been, so the caller shows one.
#[verifier::external_body]
pub(crate) fn tensor_from_array(
    session: &ort::session::Session,
    shape: &Vec<usize>,
    data: Vec<i64>,
) -> (r: Result<InputTensor, ort::Error>)
    requires
        fits_i64(shape@),
        all_positive(shape@) ==> volume(shape@) <= usize::MAX,
    ensures
        r is Ok ==> (all_positive(shape@) && volume(shape@) == data@.len()),
        r matches Ok(t) ==> tensor_dims(t) == shape@,
        r matches Ok(t) ==> tensor_data(t) == data@,
{
    let _ = session;
    ort::value::Tensor::from_array((shape.as_slice(), data.into_boxed_slice())).map(
        |inner| InputTensor { inner },
    )
}

/// `ort::session::Session::run` on named inputs, with every output the
/// run produced, in the model's own order. The outcome is the model's to
/// decide, so nothing is claimed of it.
#[verifier::external_body]
pub(crate) fn session_run(
    session: &mut ort::session::Session,
    inputs: Vec<(&'static str, InputTensor)>,
) -> (r: Result<Vec<ModelOutput>, ort::Error>) {
    let named: Vec<(&'static str, ort::value::Tensor<i64>)> = inputs.into_iter().map(
        |(name, tensor)| (name, tensor.inner),
    ).collect();
    let outputs = session.run(named)?;
    Ok(outputs.into_iter().map(|(_, inner)| ModelOutput { inner }).collect())
}

/// `ValueType::tensor_type` of the output's `dtype`, compared with
/// `TensorElementType::Float32`.
#[verifier::external_body]
pub(crate) fn element_is_float32(o: &ModelOutput) -> (r: bool)
    ensures
        r == output_is_float32(*o),
{
    matches!(o.inner.dtype().tensor_type(), Some(ort::tensor::TensorElementType::Float32))
}

/// `ValueType::tensor_shape` of the output's `dtype`, copied into a vector.
#[verifier::external_body]
pub(crate) fn shape_of_output(o: &ModelOutput) -> (r: Option<Vec<i64>>)
    ensures
        r is None ==> output_dims(*o) is None,
        r matches Some(v) ==> output_dims(*o) == Some(v@),
{
    o.inner.dtype().tensor_shape().map(|shape| shape.to_vec())
}

/// True when `dims` is the shape `[1, seq_len, h]` of a non-empty buffer
/// that a `usize` can index.
pub open spec fn is_hidden_layout(dims: Seq<i64>, seq_len: usize) -> bool {
    &&& dims.len() == 3
    &&& dims[0] == 1
    &&& dims[1] == seq_len
    &&& 1 <= dims[2] <= usize::MAX
    &&& HiddenShape::admits(seq_len, dims[2] as usize)
}

/// True when an output with this element type and shape holds the hidden
/// states of `seq_len` positions.
pub open spec fn accepts_output(is_float32: bool, dims: Option<Seq<i64>>, seq_len: usize) -> bool {
    is_float32 && dims is Some && is_hidden_layout(dims->0, seq_len)
}

/// Decides whether an output described by its element type and shape is the
/// hidden-state tensor of `seq_len` positions.
///
/// Succeeds exactly when the elements are 32-bit floats and the shape is
/// `[1, seq_len, h]` with `h >= 1` and `seq_len * h` addressable; the
/// result then records `seq_len` and `h`. Every other output is an
/// `Inference` failure.
pub fn check_output(is_float32: bool, dims: Option<&Vec<i64>>, seq_len: usize) -> (r: Result<
    HiddenShape,
    EmbedError,
>)
    ensures
        r is Ok <==> accepts_output(
            is_float32,
            match dims {
                Some(d) => Some(d@),
                None => None,
            },
            seq_len,
        ),
        r matches Ok(h) ==> h.seq_len_spec() == seq_len && dims is Some && h.hidden_dim_spec()
            == dims->0@[2],
        r matches Err(e) ==> e == EmbedError::Inference,
{
    if !is_float32 {
        return Err(EmbedError::Inference);
    }
    let d = match dims {
        Some(d) => d,
        None => {
            return Err(EmbedError::Inference);
        },
    };
    if d.len() != 3 || d[0] != 1 || d[2] < 1 {
        return Err(EmbedError::Inference);
    }
    if d[1] < 0 || d[1] as u64 != seq_len as u64 {
        return Err(EmbedError::Inference);
    }
    if d[2] as u64 > usize::MAX as u64 {
        return Err(EmbedError::Inference);
    }
    match HiddenShape::new(seq_len, d[2] as usize) {
        Some(h) => Ok(h),
        None => Err(EmbedError::Inference),
    }
}

/// Hidden states as the engine returned them, with the layout they were
/// checked to have.
pub struct HiddenStates {
    output: ModelOutput,
    shape: HiddenShape,
}

impl HiddenStates {
    #[verifier::type_invariant]
    spec fn checked(self) -> bool {
        accepts_output(
            output_is_float32(self.output),
            output_dims(self.output),
            self.shape.seq_len_spec(),
        ) && output_dims(self.output)->0[2] == self.shape.hidden_dim_spec()
    }

    /// The engine's value.
    pub closed spec fn output_spec(self) -> ModelOutput {
        self.output
    }

    /// The layout of the value.
    pub closed spec fn shape_spec(self) -> HiddenShape {
        self.shape
    }

    /// Accepts the engine's first output as the hidden states of `seq_len`
    /// positions, under the conditions of [`check_output`].
    pub fn from_output(output: ModelOutput, seq_len: usize) -> (r: Result<
        HiddenStates,
        EmbedError,
    >)
        ensures
            r is Ok <==> accepts_output(output_is_float32(output), output_dims(output), seq_len),
            r matches Ok(s) ==> s.output_spec() == output && s.shape_spec().seq_len_spec()
                == seq_len && s.shape_spec().hidden_dim_spec() == output_dims(output)->0[2],
            r matches Err(e) ==> e == EmbedError::Inference,
    {
        let is_float32 = element_is_float32(&output);
        let dims = shape_of_output(&output);
        match check_output(is_float32, dims.as_ref(), seq_len) {
            Ok(shape) => Ok(HiddenStates { output, shape }),
            Err(e) => Err(e),
        }
    }

    /// Reads the outcome of a run: the hidden states are the first output
    /// in the model's order.
    ///
    /// Succeeds exactly when the run succeeded, produced at least one
    /// output, and the first is accepted by [`HiddenStates::from_output`].
    /// A failed run, a run without output and a first output of another
    /// kind are `Inference` failures.
    pub fn from_run(outcome: Result<Vec<ModelOutput>, ort::Error>, seq_len: usize) -> (r: Result<
        HiddenStates,
        EmbedError,
    >)
        ensures
            r is Ok <==> (outcome matches Ok(outputs) && outputs@.len() >= 1 && accepts_output(
                output_is_float32(outputs@[0]),
                output_dims(outputs@[0]),
                seq_len,
            )),
            r matches Ok(s) ==> s.output_spec() == outcome->Ok_0@[0],
            r matches Ok(s) ==> s.shape_spec().seq_len_spec() == seq_len
                && s.shape_spec().hidden_dim_spec() == output_dims(outcome->Ok_0@[0])->0[2],
            r matches Err(e) ==> e == EmbedError::Inference,
    {
        match outcome {
            Ok(mut outputs) => {
                if outputs.len() == 0 {
                    return Err(EmbedError::Inference);
                }
                let first = outputs.swap_remove(0);
                HiddenStates::from_output(first, seq_len)
            },
            Err(_) => Err(EmbedError::Inference),
        }
    }

    /// The layout: how many positions, how many values per position.
    pub fn shape(&self) -> (r: HiddenShape)
        ensures
            r == self.shape_spec(),
    {
        self.shape
    }

    /// The engine's value, a tensor of 32-bit floats whose shape is
    /// `[1, seq_len, hidden_dim]` of [`HiddenStates::shape`].
    pub fn output(&self) -> (r: &ModelOutput)
        ensures
            *r == self.output_spec(),
            output_is_float32(*r),
            output_dims(*r) is Some,
            is_hidden_layout(output_dims(*r)->0, self.shape_spec().seq_len_spec()),
            output_dims(*r)->0[2] == self.shape_spec().hidden_dim_spec(),
    {
        proof {
            use_type_invariant(self);
        }
        &self.output
    }
}

/// True when `m` is a single row of `seq_len >= 1` elements that can be
/// handed to the engine as a `[1, seq_len]` tensor.
pub open spec fn is_input_row(m: IndexMatrix, seq_len: usize) -> bool {
    &&& seq_len >= 1
    &&& seq_len <= i64::MAX
    &&& matrix_dims(m) == pair(1, seq_len)
    &&& matrix_raw(m).len() == seq_len
}

/// True when the three matrices are input rows of one common length.
pub open spec fn inputs_agree(ids: IndexMatrix, mask: IndexMatrix, type_ids: IndexMatrix) -> bool {
    exists|seq_len: usize|
        #![trigger is_input_row(ids, seq_len)]
        is_input_row(ids, seq_len) && is_input_row(mask, seq_len) && is_input_row(
            type_ids,
            seq_len,
        )
}

/// True when `m` is the `[1, data.len()]` matrix whose single row is
/// `data`.
pub open spec fn is_row_of(m: IndexMatrix, data: Seq<i64>) -> bool {
    matrix_dims(m) == pair(1, data.len() as usize) && matrix_raw(m) == data
}

/// The three inputs of the model, each a `[1, seq_len]` matrix.
pub struct ModelInputs {
    /// Token ids.
    pub ids: IndexMatrix,
    /// Attention mask.
    pub attention_mask: IndexMatrix,
    /// Segment ids.
    pub token_type_ids: IndexMatrix,
}

impl ModelInputs {
    /// True when the three matrices are input rows of one common length.
    pub open spec fn agree(self) -> bool {
        inputs_agree(self.ids, self.attention_mask, self.token_type_ids)
    }

    /// Lays the three sequences of an encoding out as single-row matrices.
    ///
    /// Fails with `Shape` exactly when the encoding is longer than an array
    /// axis may be.
    pub fn from_encoding(tokens: TokenEncoding) -> (r: Result<ModelInputs, EmbedError>)
        ensures
            r is Ok <==> tokens.seq_len() <= isize::MAX,
            r matches Ok(m) ==> is_row_of(m.ids, tokens.ids_spec()) && is_row_of(
                m.attention_mask,
                tokens.attention_mask_spec(),
            ) && is_row_of(m.token_type_ids, tokens.token_type_ids_spec()),
            r matches Err(e) ==> e == EmbedError::Shape,
    {
        let seq_len = tokens.len();
        let (ids, attention_mask, token_type_ids) = tokens.into_parts();
        let ids = match IndexMatrix::single_row(seq_len, ids) {
            Ok(m) => m,
            Err(e) => {
                return Err(e);
            },
        };
        let attention_mask = match IndexMatrix::single_row(seq_len, attention_mask) {
            Ok(m) => m,
            Err(e) => {
                return Err(e);
            },
        };
        let token_type_ids = match IndexMatrix::single_row(seq_len, token_type_ids) {
            Ok(m) => m,
            Err(e) => {
                return Err(e);
            },
        };
        Ok(ModelInputs { ids, attention_mask, token_type_ids })
    }
}

/// Takes a matrix apart when it is an input row of `seq_len` elements.
///
/// Fails with `Shape` exactly when it is not.
pub fn input_row(m: IndexMatrix, seq_len: usize) -> (r: Result<Vec<i64>, EmbedError>)
    ensures
        r is Ok <==> is_input_row(m, seq_len),
        r matches Ok(data) ==> data@ == matrix_raw(m),
        r matches Err(e) ==> e == EmbedError::Shape,
{
    let (dims, data) = m.into_parts();
    if seq_len < 1 || seq_len as u64 > i64::MAX as u64 || dims.len() != 2 || dims[0] != 1
        || dims[1] != seq_len || data.len() != seq_len {
        assert(!is_input_row(m, seq_len)) by {
            if is_input_row(m, seq_len) {
                assert(pair(1, seq_len).len() == 2);
                assert(pair(1, seq_len)[0] == 1);
                assert(pair(1, seq_len)[1] == seq_len);
            }
        }
        return Err(EmbedError::Shape);
    }
    assert(dims@ =~= pair(1, seq_len));
    Ok(data)
}

/// Hands a row of elements to the engine of `session` as a
/// `[1, data.len()]` tensor.
///
/// An empty row, or one longer than `i64::MAX`, is a `Shape` failure; a
/// well-shaped tensor that the engine refuses is an `Inference` failure.
pub fn row_tensor(session: &ort::session::Session, data: Vec<i64>) -> (r: Result<
    InputTensor,
    EmbedError,
>)
    ensures
        (data@.len() < 1 || data@.len() > i64::MAX) <==> r == Err::<InputTensor, EmbedError>(
            EmbedError::Shape,
        ),
        r matches Err(e) ==> e == EmbedError::Shape || e == EmbedError::Inference,
        r matches Ok(t) ==> tensor_dims(t) == pair(1, data@.len() as usize) && tensor_data(t)
            == data@,
{
    let seq_len = data.len();
    if seq_len < 1 || seq_len as u64 > i64::MAX as u64 {
        return Err(EmbedError::Shape);
    }
    let mut dims: Vec<usize> = Vec::with_capacity(2);
    dims.push(1);
    dims.push(seq_len);
    proof {
        assert(dims@ =~= pair(1, seq_len));
        lemma_volume_pair(1, seq_len);
        assert(1 * seq_len == seq_len);
    }
    match tensor_from_array(session, &dims, data) {
        Ok(t) => Ok(t),
        Err(_) => Err(EmbedError::Inference),
    }
}

/// Name of the model input that takes the token ids.
pub open spec fn ids_name() -> Seq<char> {
    "input_ids"@
}

/// Name of the model input that takes the attention mask.
pub open spec fn mask_name() -> Seq<char> {
    "attention_mask"@
}

/// Name of the model input that takes the segment ids.
pub open spec fn type_ids_name() -> Seq<char> {
    "token_type_ids"@
}

/// Binds the three tensors to the input names of the model, in the order
/// ids, attention mask, segment ids.
pub fn named_inputs(ids: InputTensor, mask: InputTensor, type_ids: InputTensor) -> (r: Vec<
    (&'static str, InputTensor),
>)
    ensures
        r@.len() == 3,
        r@[0].0@ == ids_name() && r@[0].1 == ids,
        r@[1].0@ == mask_name() && r@[1].1 == mask,
        r@[2].0@ == type_ids_name() && r@[2].1 == type_ids,
{
    let mut inputs: Vec<(&'static str, InputTensor)> = Vec::with_capacity(3);
    inputs.push(("input_ids", ids));
    inputs.push(("attention_mask", mask));
    inputs.push(("token_type_ids", type_ids));
    inputs
}

/// True when `named` binds the three matrices of `inputs` to the input
/// names of the model, each to its own: the ids to `input_ids`, the
/// attention mask to `attention_mask`, the segment ids to
/// `token_type_ids`, in this order, each as a tensor of the matrix's shape
/// and elements.
pub open spec fn is_binding_of(
    named: Seq<(&'static str, InputTensor)>,
    inputs: ModelInputs,
) -> bool {
    &&& named.len() == 3
    &&& named[0].0@ == ids_name()
    &&& tensor_dims(named[0].1) == matrix_dims(inputs.ids)
    &&& tensor_data(named[0].1) == matrix_raw(inputs.ids)
    &&& named[1].0@ == mask_name()
    &&& tensor_dims(named[1].1) == matrix_dims(inputs.attention_mask)
    &&& tensor_data(named[1].1) == matrix_raw(inputs.attention_mask)
    &&& named[2].0@ == type_ids_name()
    &&& tensor_dims(named[2].1) == matrix_dims(inputs.token_type_ids)
    &&& tensor_data(named[2].1) == matrix_raw(inputs.token_type_ids)
}

/// Turns the three input matrices into the named tensors a run takes.
///
/// Fails with `Shape` exactly when the matrices are not single rows of one
/// common length of at least 1, and with `Inference` when the engine
/// refuses a well-shaped tensor. On success each matrix is bound to its own
/// input name, with its shape and elements unchanged.
pub fn model_inputs(session: &ort::session::Session, inputs: ModelInputs) -> (r: Result<
    Vec<(&'static str, InputTensor)>,
    EmbedError,
>)
    ensures
        !inputs.agree() <==> r == Err::<Vec<(&'static str, InputTensor)>, EmbedError>(
            EmbedError::Shape,
        ),
        r matches Err(e) ==> e == EmbedError::Shape || e == EmbedError::Inference,
        r matches Ok(named) ==> is_binding_of(named@, inputs),
{
    let ghost given = inputs;
    let width = shape_of(&inputs.ids);
    if width.len() != 2 {
        assert(!given.agree()) by {
            if given.agree() {
                let l = choose|l: usize| is_input_row(given.ids, l);
                assert(pair(1, l).len() == 2);
            }
        }
        return Err(EmbedError::Shape);
    }
    let seq_len = width[1];
    proof {
        lemma_common_length(given, seq_len);
    }
    let ids_row = match input_row(inputs.ids, seq_len) {
        Ok(v) => v,
        Err(e) => {
            return Err(e);
        },
    };
    let mask_row = match input_row(inputs.attention_mask, seq_len) {
        Ok(v) => v,
        Err(e) => {
            return Err(e);
        },
    };
    let type_ids_row = match input_row(inputs.token_type_ids, seq_len) {
        Ok(v) => v,
        Err(e) => {
            return Err(e);
        },
    };
    let ids_tensor = match row_tensor(session, ids_row) {
        Ok(t) => t,
        Err(_) => {
            return Err(EmbedError::Inference);
        },
    };
    let mask_tensor = match row_tensor(session, mask_row) {
        Ok(t) => t,
        Err(_) => {
            return Err(EmbedError::Inference);
        },
    };
    let type_ids_tensor = match row_tensor(session, type_ids_row) {
        Ok(t) => t,
        Err(_) => {
            return Err(EmbedError::Inference);
        },
    };
    Ok(named_inputs(ids_tensor, mask_tensor, type_ids_tensor))
}

/// If the inputs agree on a length, it is the second axis of the ids: so
/// they agree exactly when each is an input row of that length.
pub proof fn lemma_common_length(inputs: ModelInputs, seq_len: usize)
    requires
        matrix_dims(inputs.ids).len() == 2,
        matrix_dims(inputs.ids)[1] == seq_len,
    ensures
        inputs.agree() <==> is_input_row(inputs.ids, seq_len) && is_input_row(
            inputs.attention_mask,
            seq_len,
        ) && is_input_row(inputs.token_type_ids, seq_len),
{
    if inputs.agree() {
        let l = choose|l: usize|
            is_input_row(inputs.ids, l) && is_input_row(inputs.attention_mask, l) && is_input_row(
                inputs.token_type_ids,
                l,
            );
        assert(pair(1, l)[1] == l);
    }
    if is_input_row(inputs.ids, seq_len) && is_input_row(inputs.attention_mask, seq_len)
        && is_input_row(inputs.token_type_ids, seq_len) {
        assert(inputs.agree());
    }
}

/// One loaded model session behind a single `forward` operation.
pub struct InferenceAdapter {
    session: ort::session::Session,
}

impl InferenceAdapter {
    /// The session behind the adapter.
    pub closed spec fn session_spec(self) -> ort::session::Session {
        self.session
    }

    /// Wraps a loaded session.
    pub fn new(session: ort::session::Session) -> (r: InferenceAdapter)
        ensures
            r.session_spec() == session,
    {
        InferenceAdapter { session }
    }

    /// Runs the model on token ids, attention mask and segment ids, each a
    /// `[1, seq_len]` matrix, and returns the first output as hidden states
    /// of `seq_len` positions.
    ///
    /// Fails with `Shape` exactly when the three matrices are not single
    /// rows of one common length of at least 1. Otherwise the engine
    /// decides: a refused tensor, a failed run, a run without output or a
    /// first output that [`HiddenStates::from_output`] rejects is an
    /// `Inference` failure. The run is handed what [`model_inputs`] makes of
    /// the matrices, and its outcome is read by [`HiddenStates::from_run`].
    /// A `Shape` failure leaves the adapter as it was: the model is not
    /// run.
    pub fn forward(&mut self, inputs: ModelInputs) -> (r: Result<HiddenStates, EmbedError>)
        ensures
            !inputs.agree() <==> r == Err::<HiddenStates, EmbedError>(EmbedError::Shape),
            r matches Err(e) ==> e == EmbedError::Shape || e == EmbedError::Inference,
            (r matches Err(e) && e == EmbedError::Shape) ==> *final(self) == *old(self),
            r matches Ok(s) ==> is_input_row(inputs.ids, s.shape_spec().seq_len_spec())
                && is_input_row(inputs.attention_mask, s.shape_spec().seq_len_spec())
                && is_input_row(inputs.token_type_ids, s.shape_spec().seq_len_spec()),
    {
        let width = shape_of(&inputs.ids);
        if width.len() != 2 {
            assert(!inputs.agree()) by {
                if inputs.agree() {
                    let l = choose|l: usize| is_input_row(inputs.ids, l);
                    assert(pair(1, l).len() == 2);
                }
            }
            return Err(EmbedError::Shape);
        }
        let seq_len = width[1];
        proof {
            lemma_common_length(inputs, seq_len);
        }
        let named = match model_inputs(&self.session, inputs) {
            Ok(named) => named,
            Err(e) => {
                return Err(e);
            },
        };
        let outcome = session_run(&mut self.session, named);
        HiddenStates::from_run(outcome, seq_len)
    }
}

} // verus!
