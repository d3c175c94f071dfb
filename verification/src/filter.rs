//! The publisher model rewrite filter.

use crate::json::{
    json_error_text, JsonDocument, json_string_member, json_text_parses, json_text_written, JsonBody,
};
use crate::model_path::{
    lemma_non_publisher_name_kept, lemma_publisher_path_round_trip,
    lemma_stripped_name_reassembles, publisher_path, publisher_suffix,
    publishers_prefix, strip_publisher_prefix,
};
use vstd::prelude::*;
use vstd::string::*;

verus! {

/// The filter's name in configuration and in error messages.
pub const FILTER_NAME: &'static str = "publisher_model_rewrite";

/// The request body member that names the model.
pub const MODEL_FIELD: &'static str = "model";

/// The largest request body buffered when the configuration names none: 10 MiB.
pub const DEFAULT_JSON_BODY_MAX_BYTES: usize = 10485760;

/// What the proxy does with the request after the filter ran.
#[derive(Debug, Clone, Copy, PartialEq, Eq, Structural)]
pub enum FilterAction {
    /// Pass the request on to the next filter.
    Continue,
}

/// How a filter accesses the request body.
#[derive(Debug, Clone, Copy, PartialEq, Eq, Structural)]
pub enum BodyAccess {
    /// The body is read and left as it is.
    ReadOnly,
    /// The body is read and may be replaced.
    ReadWrite,
}

/// How the proxy delivers the request body to a filter.
#[derive(Debug, Clone, Copy, PartialEq, Eq, Structural)]
pub enum BodyMode {
    /// Chunk by chunk, as it arrives.
    Stream,
    /// Buffered, up to `max_bytes` when that is set, and delivered whole at
    /// the end of the stream.
    StreamBuffer { max_bytes: Option<usize> },
}

/// A filter failure, with its message.
#[derive(Debug)]
pub struct FilterError {
    pub message: String,
}

/// `context`, a colon and a space, then `detail`.
pub open spec fn contextual_message(context: Seq<char>, detail: Seq<char>) -> Seq<char> {
    context + ": "@ + detail
}

impl FilterError {
    /// An error whose message is `context: detail`.
    pub fn with_context(context: &str, detail: &str) -> (e: FilterError)
        ensures
            e.message@ == contextual_message(context@, detail@),
    {
        let mut message = context.to_owned();
        message.append(": ");
        message.append(detail);
        FilterError { message }
    }

    /// The message.
    pub fn message(&self) -> (m: &str)
        ensures
            m@ == self.message@,
    {
        self.message.as_str()
    }
}

/// The configuration of the filter.
#[derive(Debug, Clone, Copy, PartialEq, Eq, Structural)]
pub struct PublisherModelRewriteConfig {
    /// The largest request body to buffer before parsing.
    pub max_body_bytes: usize,
}

/// The default for `max_body_bytes`.
pub fn default_max_body_bytes() -> (n: usize)
    ensures
        n == DEFAULT_JSON_BODY_MAX_BYTES,
{
    DEFAULT_JSON_BODY_MAX_BYTES
}

impl Default for PublisherModelRewriteConfig {
    fn default() -> (config: Self)
        ensures
            config.max_body_bytes == DEFAULT_JSON_BODY_MAX_BYTES,
    {
        PublisherModelRewriteConfig { max_body_bytes: default_max_body_bytes() }
    }
}

/// Checks a configured body limit: a filter that buffers nothing could
/// never see a body.
fn validate_max_body_bytes(filter_name: &str, max_body_bytes: usize) -> (r: Result<(), FilterError>)
    ensures
        r is Ok <==> max_body_bytes > 0,
        r matches Err(e) ==> e.message@ == contextual_message(
            filter_name@,
            "max_body_bytes must be greater than 0"@,
        ),
{
    if max_body_bytes == 0 {
        Err(FilterError::with_context(filter_name, "max_body_bytes must be greater than 0"))
    } else {
        Ok(())
    }
}

/// The bare model name the filter writes into a complete request body
/// `raw`: present when `raw` is JSON whose `model` member is a string with a
/// publisher prefix.
pub open spec fn model_rewrite_of(raw: Seq<u8>) -> Option<Seq<char>> {
    if !json_text_parses(raw) {
        None
    } else {
        match json_string_member((raw, Seq::empty()), MODEL_FIELD@) {
            None => None,
            Some(model) => publisher_suffix(model),
        }
    }
}

/// The document the filter writes back for `raw`, with `model` set to `name`.
pub open spec fn rewritten_document(raw: Seq<u8>, name: Seq<char>) -> JsonDocument {
    (raw, seq![(MODEL_FIELD@, name)])
}

/// What the filter makes of a complete request body `raw`: `None` when the
/// body passes as it is (not JSON; `model` missing, not a string, or without
/// a publisher prefix); otherwise the body written back with `model` replaced
/// by the bare name, `Some(Some(text))`, or `Some(None)` when writing fails.
pub open spec fn body_rewrite(raw: Seq<u8>) -> Option<Option<Seq<u8>>> {
    match model_rewrite_of(raw) {
        None => None,
        Some(name) => Some(json_text_written(rewritten_document(raw, name))),
    }
}


/// A JSON body whose `model` member is `publishers/{namespace}/models/{name}`,
/// for a namespace without `/` and a non-empty name, is rewritten to exactly
/// `name`: the text written is that of the body with `model` set to `name`
/// (and `on_request_body` states that this text reads back with `model` equal
/// to `name` and every other string member as before).
pub proof fn lemma_publisher_model_rewritten_to_name(
    raw: Seq<u8>,
    namespace: Seq<char>,
    name: Seq<char>,
)
    requires
        json_text_parses(raw),
        json_string_member((raw, Seq::empty()), MODEL_FIELD@) == Some(
            publisher_path(namespace, name),
        ),
        !namespace.contains('/'),
        name.len() > 0,
    ensures
        model_rewrite_of(raw) == Some(name),
        body_rewrite(raw) == Some(json_text_written(rewritten_document(raw, name))),
{
    lemma_publisher_path_round_trip(namespace, name);
}

/// The name a body is rewritten to is always the tail of the body's own
/// `model` string, cut right after a `publishers/{namespace}/models/` head:
/// no character of it is invented or altered.
pub proof fn lemma_rewritten_name_ends_original_model(raw: Seq<u8>)
    ensures
        model_rewrite_of(raw) matches Some(name) ==> {
            &&& name.len() > 0
            &&& json_string_member((raw, Seq::empty()), MODEL_FIELD@) matches Some(model)
            &&& exists|namespace: Seq<char>| model == publisher_path(namespace, name)
        },
{
    if let Some(model) = json_string_member((raw, Seq::empty()), MODEL_FIELD@) {
        lemma_stripped_name_reassembles(model);
    }
}

/// A body whose `model` member does not begin with `publishers/` passes
/// through as it is.
pub proof fn lemma_non_publisher_model_passes(raw: Seq<u8>, model: Seq<char>)
    requires
        json_string_member((raw, Seq::empty()), MODEL_FIELD@) == Some(model),
        !(publishers_prefix().len() <= model.len() && model.take(11) == publishers_prefix()),
    ensures
        model_rewrite_of(raw) is None,
        body_rewrite(raw) is None,
{
    lemma_non_publisher_name_kept(model);
}

/// The model name to write into the body in place of `model_field`, the
/// string found in the body's `model` member (if any): the name with its
/// publisher prefix stripped, or nothing when there is no prefix to strip.
pub fn model_rewrite_target(model_field: Option<&str>) -> (target: Option<String>)
    ensures
        match model_field {
            None => target is None,
            Some(model) => match publisher_suffix(model@) {
                None => target is None,
                Some(suffix) => target matches Some(t) && t@ == suffix,
            },
        },
{
    match model_field {
        None => None,
        Some(model) => match strip_publisher_prefix(model) {
            None => None,
            Some(suffix) => Some(suffix.to_owned()),
        },
    }
}

/// Stores the outcome of writing the rewritten document: its bytes become
/// the body, or the failure is reported, prefixed with the filter's name, and
/// the body is left as it was.
pub fn store_rewritten_body(
    body: &mut Option<Vec<u8>>,
    serialized: Result<Vec<u8>, String>,
) -> (r: Result<FilterAction, FilterError>)
    ensures
        match serialized {
            Ok(bytes) => {
                &&& *final(body) == Some(bytes)
                &&& r == Ok::<FilterAction, FilterError>(FilterAction::Continue)
            },
            Err(text) => {
                &&& *final(body) == *old(body)
                &&& r matches Err(e) && e.message@ == contextual_message(FILTER_NAME@, text@)
            },
        },
{
    match serialized {
        Ok(bytes) => {
            *body = Some(bytes);
            Ok(FilterAction::Continue)
        },
        Err(text) => Err(FilterError::with_context(FILTER_NAME, text.as_str())),
    }
}

/// Strips the `publishers/{namespace}/models/` prefix from the `model`
/// member of JSON request bodies.
pub struct PublisherModelRewriteFilter {
    max_body_bytes: usize,
}

impl PublisherModelRewriteFilter {
    #[verifier::type_invariant]
    spec fn limit_is_positive(self) -> bool {
        self.max_body_bytes > 0
    }

    /// The largest request body the filter buffers.
    pub closed spec fn body_limit(self) -> usize {
        self.max_body_bytes
    }

    /// Creates the filter from its configuration; a zero body limit is refused.
    pub fn from_config(config: &PublisherModelRewriteConfig) -> (r: Result<Self, FilterError>)
        ensures
            r is Ok <==> config.max_body_bytes > 0,
            r matches Ok(filter) ==> filter.body_limit() == config.max_body_bytes,
            r matches Err(e) ==> e.message@ == contextual_message(
                FILTER_NAME@,
                "max_body_bytes must be greater than 0"@,
            ),
    {
        match validate_max_body_bytes(FILTER_NAME, config.max_body_bytes) {
            Ok(()) => Ok(PublisherModelRewriteFilter { max_body_bytes: config.max_body_bytes }),
            Err(e) => Err(e),
        }
    }

    /// The filter's name.
    pub fn name(&self) -> (n: &'static str)
        ensures
            n@ == FILTER_NAME@,
    {
        FILTER_NAME
    }

    /// Request headers need nothing from this filter.
    pub fn on_request(&self) -> (r: Result<FilterAction, FilterError>)
        ensures
            r == Ok::<FilterAction, FilterError>(FilterAction::Continue),
    {
        Ok(FilterAction::Continue)
    }

    /// The filter reads the body and may replace it.
    pub fn request_body_access(&self) -> (access: BodyAccess)
        ensures
            access == BodyAccess::ReadWrite,
    {
        BodyAccess::ReadWrite
    }

    /// The body is buffered whole, up to the configured limit.
    pub fn request_body_mode(&self) -> (mode: BodyMode)
        ensures
            mode == (BodyMode::StreamBuffer { max_bytes: Some(self.body_limit()) }),
            self.body_limit() > 0,
    {
        proof {
            use_type_invariant(self);
        }
        BodyMode::StreamBuffer { max_bytes: Some(self.max_body_bytes) }
    }

    /// At the end of the stream, rewrites a publisher-scoped `model` member
    /// of a JSON body to the bare model name.  Every other body passes as it
    /// is: before the end of the stream, without a body, when the body is not
    /// JSON, when `model` is missing or not a string, or when it carries no
    /// publisher prefix.
    pub fn on_request_body(&self, body: &mut Option<Vec<u8>>, end_of_stream: bool) -> (r: Result<
        FilterAction,
        FilterError,
    >)
        ensures
            !end_of_stream || *old(body) is None ==> {
                &&& *final(body) == *old(body)
                &&& r == Ok::<FilterAction, FilterError>(FilterAction::Continue)
            },
            end_of_stream ==> (*old(body) matches Some(raw) ==> match body_rewrite(raw@) {
                None => {
                    &&& *final(body) == *old(body)
                    &&& r == Ok::<FilterAction, FilterError>(FilterAction::Continue)
                },
                Some(Some(text)) => {
                    &&& *final(body) matches Some(new_raw) && new_raw@ == text
                    &&& r == Ok::<FilterAction, FilterError>(FilterAction::Continue)
                    &&& json_text_parses(text)
                    &&& forall|key: Seq<char>|
                        #[trigger] json_string_member((text, Seq::empty()), key) == if key
                            == MODEL_FIELD@ {
                            model_rewrite_of(raw@)
                        } else {
                            json_string_member((raw@, Seq::empty()), key)
                        }
                },
                Some(None) => {
                    &&& *final(body) == *old(body)
                    &&& r matches Err(e) && exists|detail: Seq<char>|
                        e.message@ == contextual_message(FILTER_NAME@, detail)
                },
            }),
            end_of_stream ==> (*old(body) matches Some(raw) ==> (model_rewrite_of(raw@) matches Some(
                name,
            ) ==> {
                &&& json_string_member(rewritten_document(raw@, name), MODEL_FIELD@) == Some(name)
                &&& forall|other: Seq<char>|
                    other != MODEL_FIELD@ ==> #[trigger] json_string_member(
                        rewritten_document(raw@, name),
                        other,
                    ) == json_string_member((raw@, Seq::empty()), other)
            })),
    {
        if !end_of_stream {
            return Ok(FilterAction::Continue);
        }
        let parsed = match body {
            Some(raw) => JsonBody::parse(raw.as_slice()),
            None => return Ok(FilterAction::Continue),
        };
        let mut document = match parsed {
            Ok(document) => document,
            Err(_) => return Ok(FilterAction::Continue),
        };
        let model_field = match document.string_member(MODEL_FIELD) {
            Some(text) => Some(text.as_str()),
            None => None,
        };
        let rewritten = match model_rewrite_target(model_field) {
            Some(rewritten) => rewritten,
            None => return Ok(FilterAction::Continue),
        };
        document.set_string_member(MODEL_FIELD, rewritten);
        let serialized = match document.to_bytes() {
            Ok(bytes) => Ok(bytes),
            Err(e) => Err(json_error_text(&e)),
        };
        store_rewritten_body(body, serialized)
    }
}

} // verus!
