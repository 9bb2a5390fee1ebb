//! The error type of the embedding pipeline.

use crate::text::{decimal, push_decimal};
use vstd::prelude::*;
use vstd::string::*;

verus! {

/// Everything that can go wrong between a batch of texts and the vector store.
///
/// Failures of the embedding provider, of the environment and of the database
/// carry the message of the underlying error.
#[derive(Debug)]
pub enum EmbeddingError {
    /// The embedding provider could not be reached or answered with an error.
    ApiError(String),
    /// A setting was missing from the environment.
    EnvError(String),
    /// The database refused a connection or a statement.
    DbError(String),
    /// The batch of input texts has no element.
    EmptyInput,
    /// A vector does not have the dimension every embedding must have.
    InvalidDimension { expected: usize, got: usize },
    /// The number of texts differs from the number of embeddings.
    MismatchedLength { texts: usize, embeddings: usize },
    /// An input text is empty once surrounding whitespace is removed.
    EmptyString,
    /// A component of a vector is NaN or infinite.
    InvalidValues,
}

impl EmbeddingError {
    /// The text that describes the error to a person.
    pub open spec fn message(self) -> Seq<char> {
        match self {
            EmbeddingError::ApiError(e) => "API error: "@ + e@,
            EmbeddingError::EnvError(e) => "Environment variable error: "@ + e@,
            EmbeddingError::DbError(e) => "Database error: "@ + e@,
            EmbeddingError::EmptyInput => "Input text is empty"@,
            EmbeddingError::InvalidDimension { expected, got } => "Invalid dimension: expected "@
                + decimal(expected as nat) + ", got "@ + decimal(got as nat),
            EmbeddingError::MismatchedLength { texts, embeddings } => "Mismatched lengths: texts="@
                + decimal(texts as nat) + ", embeddings="@ + decimal(embeddings as nat),
            EmbeddingError::EmptyString => "Input text is an empty string"@,
            EmbeddingError::InvalidValues => "Invalid values in the embedding vector"@,
        }
    }

    /// Renders the error as text.
    pub fn to_string(&self) -> (s: String)
        ensures
            s@ == self.message(),
    {
        match self {
            EmbeddingError::ApiError(e) => "API error: ".to_owned().concat(e.as_str()),
            EmbeddingError::EnvError(e) => "Environment variable error: ".to_owned().concat(
                e.as_str(),
            ),
            EmbeddingError::DbError(e) => "Database error: ".to_owned().concat(e.as_str()),
            EmbeddingError::EmptyInput => "Input text is empty".to_owned(),
            EmbeddingError::InvalidDimension { expected, got } => {
                let mut s = "Invalid dimension: expected ".to_owned();
                push_decimal(&mut s, *expected);
                s.append(", got ");
                push_decimal(&mut s, *got);
                s
            },
            EmbeddingError::MismatchedLength { texts, embeddings } => {
                let mut s = "Mismatched lengths: texts=".to_owned();
                push_decimal(&mut s, *texts);
                s.append(", embeddings=");
                push_decimal(&mut s, *embeddings);
                s
            },
            EmbeddingError::EmptyString => "Input text is an empty string".to_owned(),
            EmbeddingError::InvalidValues => "Invalid values in the embedding vector".to_owned(),
        }
    }
}

} // verus!
