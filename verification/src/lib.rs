//! Rewriting of publisher-scoped model names in inference request bodies.
//!
//! A client may address a model as `publishers/{namespace}/models/{model}`.
//! The upstream only knows `{model}`, so the filter in this crate strips the
//! publisher prefix from the `model` member of a JSON request body.

pub mod model_path;
pub mod json;
pub mod json_parse;
pub mod filter;

pub use filter::{
    default_max_body_bytes, model_rewrite_target, store_rewritten_body, BodyAccess, BodyMode,
    FilterAction, FilterError, PublisherModelRewriteConfig, PublisherModelRewriteFilter,
    DEFAULT_JSON_BODY_MAX_BYTES, FILTER_NAME,
};
pub use model_path::strip_publisher_prefix;
