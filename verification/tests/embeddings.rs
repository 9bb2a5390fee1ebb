use embedder::{EmbeddedTexts, Embedding, EmbeddingError, InputTexts, EMBEDDING_DIMENSION};

fn strings(texts: &[&str]) -> Vec<String> {
    texts.iter().map(|t| t.to_string()).collect()
}

fn bits(values: &[f32]) -> Vec<u32> {
    values.iter().map(|v| v.to_bits()).collect()
}

fn floats(bits: &[u32]) -> Vec<f32> {
    bits.iter().map(|b| f32::from_bits(*b)).collect()
}

/// A vector of the right dimension whose components depend on `seed`.
fn vector(seed: u32) -> Vec<f32> {
    let mut state = seed.wrapping_mul(2654435761).wrapping_add(12345);
    let mut values = Vec::with_capacity(EMBEDDING_DIMENSION);
    for _ in 0..EMBEDDING_DIMENSION {
        state = state.wrapping_mul(1664525).wrapping_add(1013904223);
        values.push((state >> 8) as f32 / 8388608.0 - 1.0);
    }
    values
}

#[test]
fn the_dimension_is_3072() {
    assert_eq!(EMBEDDING_DIMENSION, 3072);
}

#[test]
fn embedding_keeps_the_exact_values() {
    let values = vector(1);
    let embedding = Embedding::new(bits(&values)).unwrap();
    assert_eq!(embedding.as_vec().len(), EMBEDDING_DIMENSION);
    assert_eq!(embedding.as_vec(), &bits(&values));
    assert_eq!(floats(embedding.as_vec()), values);
}

#[test]
fn embedding_accepts_the_extreme_finite_values() {
    let mut values = vec![0.0f32; EMBEDDING_DIMENSION];
    values[0] = f32::MAX;
    values[1] = f32::MIN;
    values[2] = f32::MIN_POSITIVE;
    values[3] = -0.0;
    values[4] = f32::from_bits(1);
    values[5] = f32::from_bits(0x7f7f_ffff);
    values[6] = f32::from_bits(0xff7f_ffff);
    let embedding = Embedding::new(bits(&values)).unwrap();
    assert_eq!(embedding.as_vec(), &bits(&values));
    assert_eq!(embedding.as_vec()[3], 0x8000_0000);
}

#[test]
fn embedding_rejects_a_wrong_dimension() {
    let err = Embedding::new(bits(&vec![0.5f32; 1024])).unwrap_err();
    assert!(matches!(err, EmbeddingError::InvalidDimension { expected: 3072, got: 1024 }));
    assert_eq!(err.to_string(), "Invalid dimension: expected 3072, got 1024");

    let err = Embedding::new(Vec::new()).unwrap_err();
    assert!(matches!(err, EmbeddingError::InvalidDimension { expected: 3072, got: 0 }));

    let err = Embedding::new(bits(&vec![0.5f32; 3071])).unwrap_err();
    assert!(matches!(err, EmbeddingError::InvalidDimension { expected: 3072, got: 3071 }));

    let err = Embedding::new(bits(&vec![0.5f32; 3073])).unwrap_err();
    assert!(matches!(err, EmbeddingError::InvalidDimension { expected: 3072, got: 3073 }));
}

#[test]
fn embedding_rejects_nan_and_infinity() {
    for bad in [f32::NAN, f32::INFINITY, f32::NEG_INFINITY, -f32::NAN] {
        for position in [0, 1, 1535, EMBEDDING_DIMENSION - 1] {
            let mut values = vector(7);
            values[position] = bad;
            let err = Embedding::new(bits(&values)).unwrap_err();
            assert!(matches!(err, EmbeddingError::InvalidValues));
        }
    }
}

#[test]
fn embedding_rejects_every_kind_of_nan() {
    for pattern in [0x7f80_0001u32, 0x7fc0_0000, 0x7fff_ffff, 0xff80_0001, 0xffff_ffff] {
        assert!(f32::from_bits(pattern).is_nan());
        let mut values = bits(&vector(3));
        values[10] = pattern;
        let err = Embedding::new(values).unwrap_err();
        assert!(matches!(err, EmbeddingError::InvalidValues));
    }
}

#[test]
fn the_dimension_is_checked_before_the_values() {
    let err = Embedding::new(bits(&[f32::NAN, 1.0])).unwrap_err();
    assert!(matches!(err, EmbeddingError::InvalidDimension { expected: 3072, got: 2 }));
}

#[test]
fn finiteness_agrees_with_the_float_tests() {
    let samples = [
        0u32, 1, 0x007f_ffff, 0x0080_0000, 0x3f80_0000, 0x7f7f_ffff, 0x7f80_0000, 0x7f80_0001,
        0x7fc0_0000, 0x7fff_ffff, 0x8000_0000, 0xbf80_0000, 0xff7f_ffff, 0xff80_0000,
        0xff80_0001, 0xffff_ffff,
    ];
    for sample in samples {
        let mut values = vec![0u32; EMBEDDING_DIMENSION];
        values[100] = sample;
        let value = f32::from_bits(sample);
        let accepted = Embedding::new(values).is_ok();
        assert_eq!(accepted, !(value.is_nan() || value.is_infinite()));
    }
}

#[test]
fn pairs_follow_the_order_of_texts_and_embeddings() {
    let texts = strings(&["a", "b", "c"]);
    let vectors = [vector(1), vector(2), vector(3)];
    let embeddings = vectors.iter().map(|v| Embedding::new(bits(v)).unwrap()).collect();
    let embedded = EmbeddedTexts::new(InputTexts::new(texts.clone()).unwrap(), embeddings).unwrap();
    assert_eq!(embedded.as_vec().len(), 3);
    for i in 0..3 {
        assert_eq!(embedded.as_vec()[i].0, texts[i]);
        assert_eq!(floats(embedded.as_vec()[i].1.as_vec()), vectors[i]);
    }
}

#[test]
fn mismatched_batch() {
    let embedding_a = Embedding::new(bits(&vector(1))).unwrap();
    let err =
        EmbeddedTexts::new(InputTexts::new(strings(&["x", "y"])).unwrap(), vec![embedding_a])
            .unwrap_err();
    assert!(matches!(err, EmbeddingError::MismatchedLength { texts: 2, embeddings: 1 }));
    assert_eq!(err.to_string(), "Mismatched lengths: texts=2, embeddings=1");
}

#[test]
fn more_embeddings_than_texts_is_a_mismatch_too() {
    let embeddings =
        vec![Embedding::new(bits(&vector(1))).unwrap(), Embedding::new(bits(&vector(2))).unwrap()];
    let err = EmbeddedTexts::new(InputTexts::new(strings(&["x"])).unwrap(), embeddings).unwrap_err();
    assert!(matches!(err, EmbeddingError::MismatchedLength { texts: 1, embeddings: 2 }));
}

#[test]
fn no_embeddings_is_a_mismatch() {
    let err = EmbeddedTexts::new(InputTexts::new(strings(&["x"])).unwrap(), Vec::new()).unwrap_err();
    assert!(matches!(err, EmbeddingError::MismatchedLength { texts: 1, embeddings: 0 }));
}

#[test]
fn input_texts_embed_success() {
    let texts = strings(&["The sky is blue 17", "The sky is blue 4711"]);
    let result = InputTexts::new(texts.clone())
        .unwrap()
        .embed(vec![bits(&vector(17)), bits(&vector(4711))])
        .unwrap();

    assert_eq!(result.as_vec().len(), texts.len());
    assert_eq!(result.as_vec()[0].1.as_vec().len(), EMBEDDING_DIMENSION);
    assert_eq!(result.as_vec()[1].1.as_vec().len(), EMBEDDING_DIMENSION);
    assert_eq!(result.as_vec()[0].0, texts[0]);
    assert_eq!(result.as_vec()[1].0, texts[1]);
}

#[test]
fn embed_pairs_each_text_with_its_vector() {
    let texts = strings(&["a", "b", "c"]);
    let vectors = vec![bits(&vector(1)), bits(&vector(2)), bits(&vector(3))];
    let embedded = InputTexts::new(texts.clone()).unwrap().embed(vectors.clone()).unwrap();
    assert_eq!(embedded.as_vec().len(), 3);
    for i in 0..3 {
        assert_eq!(embedded.as_vec()[i].0, texts[i]);
        assert_eq!(embedded.as_vec()[i].1.as_vec(), &vectors[i]);
    }
    assert_ne!(embedded.as_vec()[0].1.as_vec(), embedded.as_vec()[1].1.as_vec());
}

#[test]
fn embed_reports_the_first_vector_that_is_not_valid() {
    let texts = InputTexts::new(strings(&["a", "b", "c"])).unwrap();
    let mut poisoned = bits(&vector(2));
    poisoned[5] = f32::NAN.to_bits();
    let err = texts.embed(vec![bits(&vector(1)), poisoned, vec![0; 4]]).unwrap_err();
    assert!(matches!(err, EmbeddingError::InvalidValues));

    let texts = InputTexts::new(strings(&["a", "b", "c"])).unwrap();
    let mut poisoned = bits(&vector(2));
    poisoned[5] = f32::INFINITY.to_bits();
    let err = texts.embed(vec![vec![0; 4], poisoned, bits(&vector(3))]).unwrap_err();
    assert!(matches!(err, EmbeddingError::InvalidDimension { expected: 3072, got: 4 }));
}

#[test]
fn embed_checks_the_vectors_before_the_counts() {
    let texts = InputTexts::new(strings(&["a", "b"])).unwrap();
    let err = texts.embed(vec![vec![0; 7]]).unwrap_err();
    assert!(matches!(err, EmbeddingError::InvalidDimension { expected: 3072, got: 7 }));
}

#[test]
fn embed_reports_a_count_that_does_not_match() {
    let texts = InputTexts::new(strings(&["a", "b"])).unwrap();
    let err = texts.embed(vec![bits(&vector(1))]).unwrap_err();
    assert!(matches!(err, EmbeddingError::MismatchedLength { texts: 2, embeddings: 1 }));

    let texts = InputTexts::new(strings(&["a"])).unwrap();
    let err = texts.embed(Vec::new()).unwrap_err();
    assert!(matches!(err, EmbeddingError::MismatchedLength { texts: 1, embeddings: 0 }));

    let texts = InputTexts::new(strings(&["a"])).unwrap();
    let err = texts.embed(vec![bits(&vector(1)), bits(&vector(2))]).unwrap_err();
    assert!(matches!(err, EmbeddingError::MismatchedLength { texts: 1, embeddings: 2 }));
}
