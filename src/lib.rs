//! Content negotiation between the wire formats of a request or response
//! payload: JSON, Protocol Buffers and XML, chosen from the `Content-Type`
//! and `Accept` headers.

mod error;
mod headers;
mod payload;

pub use crate::headers::{
    choose_format, classify, classify_lowered, formats_all, header_text_of, is_visible_ascii, lemma_absent_header_is_unrecognized,
    lemma_negotiation_order, lemma_negotiation_total, lemma_resolution_respects_formats,
    lowercase_of, negotiated, resolve, resolved, select_response_format, text_of, ContentType,
    Formats,
};
pub use crate::error::{ConfigurationError, DeserializeError, PayloadError, SerializeError};
pub use crate::payload::{json_encoded, mime_of, protobuf_encoded, xml_encoded, Payload, Response, ProtobufSupport, SerdeSupportDeserialize, SerdeSupportSerialize};
