//! The validated values of the pipeline: a batch of texts, one embedding, and
//! texts paired with their embeddings.
//!
//! A vector component is held as the IEEE 754 binary32 bit pattern of its
//! value (`f32::to_bits` on the way in, `f32::from_bits` on the way out), so
//! that a stored vector is, bit for bit, the vector that was handed in.

use crate::errors::EmbeddingError;
use crate::text::{blank, is_blank};
use vstd::prelude::*;

verus! {

/// The number of components of every embedding.
pub const EMBEDDING_DIMENSION: usize = 3072;

/// Whether the binary32 value with bit pattern `bits` is neither NaN nor
/// infinite: its exponent field is not all ones.
pub open spec fn is_finite(bits: u32) -> bool {
    bits & 0x7f80_0000 != 0x7f80_0000
}

/// A batch of texts that may be embedded: at least one text, none of them
/// blank.
pub open spec fn valid_texts(texts: Seq<Seq<char>>) -> bool {
    &&& texts.len() > 0
    &&& forall|i: int| 0 <= i < texts.len() ==> !blank(#[trigger] texts[i])
}

/// A vector that may serve as an embedding: the fixed dimension, finite
/// components only.
pub open spec fn valid_vector(vector: Seq<u32>) -> bool {
    &&& vector.len() == EMBEDDING_DIMENSION
    &&& forall|i: int| 0 <= i < vector.len() ==> is_finite(#[trigger] vector[i])
}

/// Whether `e` is the error that rejects `vector`, a vector that is not
/// valid: the wrong dimension is reported before a component that is not
/// finite.
pub open spec fn rejects(e: EmbeddingError, vector: Seq<u32>) -> bool {
    if vector.len() != EMBEDDING_DIMENSION {
        &&& e matches EmbeddingError::InvalidDimension { expected, got }
        &&& expected == EMBEDDING_DIMENSION
        &&& got == vector.len()
    } else {
        e is InvalidValues
    }
}

/// Whether `e` reports that `texts` texts met `embeddings` embeddings.
pub open spec fn mismatch(e: EmbeddingError, texts: nat, embeddings: nat) -> bool {
    &&& e matches EmbeddingError::MismatchedLength { texts: t, embeddings: m }
    &&& t == texts
    &&& m == embeddings
}

/// Every vector of `vectors` is valid.
pub open spec fn all_valid(vectors: Seq<Seq<u32>>) -> bool {
    forall|i: int| 0 <= i < vectors.len() ==> valid_vector(#[trigger] vectors[i])
}

/// Position `k` holds the first vector of `vectors` that is not valid.
pub open spec fn first_invalid(vectors: Seq<Seq<u32>>, k: int) -> bool {
    &&& 0 <= k < vectors.len()
    &&& !valid_vector(vectors[k])
    &&& forall|j: int| 0 <= j < k ==> valid_vector(#[trigger] vectors[j])
}

/// The pairs that put `texts[i]` next to `vectors[i]`, for every position of
/// `texts`.
pub open spec fn paired(texts: Seq<Seq<char>>, vectors: Seq<Seq<u32>>) -> Seq<
    (Seq<char>, Seq<u32>),
> {
    Seq::new(texts.len(), |i: int| (texts[i], vectors[i]))
}

/// Pairs that may be stored: at least one, each with a text that is not
/// blank and a valid vector.
pub open spec fn valid_pairs(pairs: Seq<(Seq<char>, Seq<u32>)>) -> bool {
    &&& pairs.len() > 0
    &&& forall|i: int|
        0 <= i < pairs.len() ==> !blank((#[trigger] pairs[i]).0) && valid_vector(pairs[i].1)
}

fn finite(bits: u32) -> (b: bool)
    ensures
        b == is_finite(bits),
{
    bits & 0x7f80_0000 != 0x7f80_0000
}

/// Input texts to be embedded.
#[derive(Debug)]
pub struct InputTexts(Vec<String>);

impl View for InputTexts {
    type V = Seq<Seq<char>>;

    closed spec fn view(&self) -> Seq<Seq<char>> {
        self.0.deep_view()
    }
}

impl InputTexts {
    #[verifier::type_invariant]
    spec fn well_formed(&self) -> bool {
        valid_texts(self@)
    }

    /// Validates a batch of texts. The batch is kept as it is, in its order.
    pub fn new(texts: Vec<String>) -> (r: Result<Self, EmbeddingError>)
        ensures
            match r {
                Ok(t) => valid_texts(texts.deep_view()) && t@ == texts.deep_view(),
                Err(e) => !valid_texts(texts.deep_view()) && e == if texts@.len() == 0 {
                    EmbeddingError::EmptyInput
                } else {
                    EmbeddingError::EmptyString
                },
            },
    {
        if texts.len() == 0 {
            return Err(EmbeddingError::EmptyInput);
        }
        let mut i: usize = 0;
        while i < texts.len()
            invariant
                i <= texts.len(),
                forall|j: int| 0 <= j < i ==> !blank(#[trigger] texts.deep_view()[j]),
            decreases texts.len() - i,
        {
            if is_blank(texts[i].as_str()) {
                assert(blank(texts.deep_view()[i as int]));
                return Err(EmbeddingError::EmptyString);
            }
            i += 1;
        }
        Ok(InputTexts(texts))
    }

    /// The texts of the batch.
    pub fn as_vec(&self) -> (v: &Vec<String>)
        ensures
            v.deep_view() == self@,
            valid_texts(self@),
    {
        proof {
            use_type_invariant(self);
        }
        &self.0
    }

    /// Turns the batch into embedded texts, given the vectors that the
    /// embedding provider returned for it: `vectors[i]` for the text at
    /// position `i`. Every vector is validated, in order, before the counts
    /// are compared.
    pub fn embed(self, vectors: Vec<Vec<u32>>) -> (r: Result<EmbeddedTexts, EmbeddingError>)
        ensures
            match r {
                Ok(p) => {
                    &&& all_valid(vectors.deep_view())
                    &&& vectors@.len() == self@.len()
                    &&& p@ == paired(self@, vectors.deep_view())
                },
                Err(e) => {
                    ||| exists|k: int|
                        first_invalid(vectors.deep_view(), k) && rejects(
                            e,
                            vectors.deep_view()[k],
                        )
                    ||| {
                        &&& all_valid(vectors.deep_view())
                        &&& vectors@.len() != self@.len()
                        &&& mismatch(e, self@.len(), vectors@.len())
                    }
                },
            },
    {
        let ghost raw = vectors.deep_view();
        let mut embeddings: Vec<Embedding> = Vec::new();
        for vector in it: vectors.into_iter()
            invariant
                raw == vectors.deep_view(),
                embeddings@.len() == it.index(),
                it.seq().len() == raw.len(),
                forall|j: int| 0 <= j < it.seq().len() ==> (#[trigger] it.seq()[j])@ == raw[j],
                forall|j: int|
                    0 <= j < embeddings@.len() ==> (#[trigger] embeddings.deep_view()[j]) == raw[j],
                forall|j: int| 0 <= j < embeddings@.len() ==> valid_vector(#[trigger] raw[j]),
        {
            let ghost k = embeddings@.len() as int;
            let ghost before = embeddings.deep_view();
            assert(vector@ == raw[k]);
            match Embedding::new(vector) {
                Ok(embedding) => {
                    embeddings.push(embedding);
                    assert forall|j: int| 0 <= j < embeddings@.len() implies (
                    #[trigger] embeddings.deep_view()[j]) == raw[j] by {
                        if j < k {
                            assert(embeddings.deep_view()[j] == before[j]);
                        }
                    }
                },
                Err(e) => {
                    assert(first_invalid(raw, k));
                    return Err(e);
                },
            }
        }
        assert(embeddings.deep_view() =~= raw);
        EmbeddedTexts::new(self, embeddings)
    }
}

/// Embedding of a text.
#[derive(Debug)]
pub struct Embedding(Vec<u32>);

impl View for Embedding {
    type V = Seq<u32>;

    closed spec fn view(&self) -> Seq<u32> {
        self.0@
    }
}

impl DeepView for Embedding {
    type V = Seq<u32>;

    open spec fn deep_view(&self) -> Seq<u32> {
        self@
    }
}

impl Embedding {
    #[verifier::type_invariant]
    spec fn well_formed(&self) -> bool {
        valid_vector(self@)
    }

    /// Validates a vector of binary32 bit patterns. The components are kept
    /// as they are.
    pub fn new(embedding: Vec<u32>) -> (r: Result<Self, EmbeddingError>)
        ensures
            match r {
                Ok(e) => valid_vector(embedding@) && e@ == embedding@,
                Err(e) => !valid_vector(embedding@) && rejects(e, embedding@),
            },
    {
        if embedding.len() != EMBEDDING_DIMENSION {
            return Err(
                EmbeddingError::InvalidDimension {
                    expected: EMBEDDING_DIMENSION,
                    got: embedding.len(),
                },
            );
        }
        let mut i: usize = 0;
        while i < embedding.len()
            invariant
                i <= embedding.len() == EMBEDDING_DIMENSION,
                forall|j: int| 0 <= j < i ==> is_finite(#[trigger] embedding@[j]),
            decreases embedding.len() - i,
        {
            if !finite(embedding[i]) {
                assert(!is_finite(embedding@[i as int]));
                return Err(EmbeddingError::InvalidValues);
            }
            i += 1;
        }
        Ok(Embedding(embedding))
    }

    /// The components of the embedding, as binary32 bit patterns.
    pub fn as_vec(&self) -> (v: &Vec<u32>)
        ensures
            v@ == self@,
            valid_vector(self@),
    {
        proof {
            use_type_invariant(self);
        }
        &self.0
    }
}

/// Texts with their embeddings.
#[derive(Debug)]
pub struct EmbeddedTexts(Vec<(String, Embedding)>);

impl View for EmbeddedTexts {
    type V = Seq<(Seq<char>, Seq<u32>)>;

    closed spec fn view(&self) -> Seq<(Seq<char>, Seq<u32>)> {
        self.0.deep_view()
    }
}

impl EmbeddedTexts {
    #[verifier::type_invariant]
    spec fn well_formed(&self) -> bool {
        valid_pairs(self@)
    }

    /// Pairs each text with the embedding at the same position.
    pub fn new(texts: InputTexts, embeddings: Vec<Embedding>) -> (r: Result<Self, EmbeddingError>)
        ensures
            match r {
                Ok(p) => texts@.len() == embeddings@.len() && p@ == paired(
                    texts@,
                    embeddings.deep_view(),
                ),
                Err(e) => texts@.len() != embeddings@.len() && mismatch(
                    e,
                    texts@.len(),
                    embeddings@.len(),
                ),
            },
    {
        let count = texts.as_vec().len();
        if count != embeddings.len() {
            return Err(
                EmbeddingError::MismatchedLength { texts: count, embeddings: embeddings.len() },
            );
        }
        let ghost vectors = embeddings.deep_view();
        let mut pairs: Vec<(String, Embedding)> = Vec::new();
        for embedding in it: embeddings.into_iter()
            invariant
                count == texts@.len() == vectors.len(),
                valid_texts(texts@),
                pairs@.len() == it.index(),
                it.seq().len() == vectors.len(),
                forall|j: int| 0 <= j < it.seq().len() ==> (#[trigger] it.seq()[j])@ == vectors[j],
                forall|j: int|
                    0 <= j < pairs@.len() ==> (#[trigger] pairs.deep_view()[j]) == (
                        texts@[j],
                        vectors[j],
                    ),
                forall|j: int| 0 <= j < pairs@.len() ==> valid_vector(vectors[j]),
        {
            proof {
                use_type_invariant(&embedding);
            }
            let ghost k = pairs@.len() as int;
            let ghost before = pairs.deep_view();
            let all = texts.as_vec();
            let text = all[pairs.len()].clone();
            assert(text@ == all.deep_view()[k]);
            assert(embedding@ == vectors[k]);
            pairs.push((text, embedding));
            assert forall|j: int| 0 <= j < pairs@.len() implies (#[trigger] pairs.deep_view()[j])
                == (texts@[j], vectors[j]) by {
                if j < k {
                    assert(pairs.deep_view()[j] == before[j]);
                }
            }
        }
        assert(pairs.deep_view() =~= paired(texts@, vectors));
        Ok(EmbeddedTexts(pairs))
    }

    /// The pairs, in the order of the texts they were made from.
    pub fn as_vec(&self) -> (v: &Vec<(String, Embedding)>)
        ensures
            v.deep_view() == self@,
            valid_pairs(self@),
    {
        proof {
            use_type_invariant(self);
        }
        &self.0
    }
}

} // verus!
