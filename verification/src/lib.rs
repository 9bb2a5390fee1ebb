//! Validated text embeddings and the plans by which they are persisted and
//! searched.
//!
//! Texts and vectors enter through smart constructors ([`InputTexts`],
//! [`Embedding`], [`EmbeddedTexts`]); once a value exists it is valid. The
//! vector store is driven through [`Command`] values that the caller executes
//! against its database session.

pub mod embedding;
pub mod errors;
pub mod store;
pub mod text;
pub mod web;

pub use embedding::{EmbeddedTexts, Embedding, InputTexts, EMBEDDING_DIMENSION};
pub use errors::EmbeddingError;
pub use store::{create_schema, Command, Reply, SimilarSearch, Step};
pub use web::config::{Config, LocalConfig};
pub use web::errors::{ApiError, EmbedderError, ErrorResponse};
pub use web::routes::{choose_provider, openai_api_key, response_model, Provider};
