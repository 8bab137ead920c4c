use crate::headers::ContentType;
use vstd::prelude::*;
use vstd::string::{to_string_from_display_ensures, StringExecFns};

verus! {

#[verifier::external_type_specification]
#[verifier::external_body]
pub struct ExJsonError(serde_json::Error);

#[verifier::external_type_specification]
#[verifier::external_body]
pub struct ExXmlError(quick_xml::DeError);

/// Why a payload could not be turned into bytes.
#[derive(Debug)]
pub enum SerializeError {
    SerdeJson(serde_json::Error),
    Prost(String),
    QuickXml(quick_xml::DeError),
    Unserializable,
}

/// Why bytes could not be turned into a payload.
#[derive(Debug)]
pub enum DeserializeError {
    SerdeJson(serde_json::Error),
    Prost(String),
    Xml(quick_xml::DeError),
    Undeserializable,
}

/// Why a request could not be extracted as a payload.
#[derive(Debug)]
pub enum PayloadError {
    Deserialize(DeserializeError),
    InvalidContentType,
}

/// A deployment that enables no wire format cannot answer at all.
#[derive(Debug, PartialEq, Eq, Clone, Copy, Structural)]
pub enum ConfigurationError {
    NoFormatEnabled,
}

impl SerializeError {
    /// The format whose encoder failed; `Other` where none was tried.
    pub open spec fn spec_format(self) -> ContentType {
        match self {
            SerializeError::SerdeJson(_) => ContentType::Json,
            SerializeError::Prost(_) => ContentType::Protobuf,
            SerializeError::QuickXml(_) => ContentType::Xml,
            SerializeError::Unserializable => ContentType::Other,
        }
    }

    /// Whether `m` is the text that describes the error: a sentence for the
    /// format, followed by the codec's own message.
    pub open spec fn is_message(self, m: Seq<char>) -> bool {
        match self {
            SerializeError::SerdeJson(e) => exists|t: String|
                to_string_from_display_ensures::<serde_json::Error>(&e, t)
                    && m == "Failed to serialize to JSON: "@ + t@,
            SerializeError::Prost(t) => m == "Failed to encode to protobuf: "@ + t@,
            SerializeError::QuickXml(e) => exists|t: String|
                to_string_from_display_ensures::<quick_xml::DeError>(&e, t)
                    && m == "Failed to serialize to XML: "@ + t@,
            SerializeError::Unserializable => m == "Unable to serialize"@,
        }
    }

    /// The text that describes the error.
    pub fn message(&self) -> (r: String)
        ensures
            self.is_message(r@),
    {
        match self {
            SerializeError::SerdeJson(e) => prefixed("Failed to serialize to JSON: ", e.to_string()),
            SerializeError::Prost(m) => prefixed("Failed to encode to protobuf: ", m.clone()),
            SerializeError::QuickXml(e) => prefixed("Failed to serialize to XML: ", e.to_string()),
            SerializeError::Unserializable => String::from_str("Unable to serialize"),
        }
    }
}

impl DeserializeError {
    /// The format whose decoder failed; `Other` where none was tried.
    pub open spec fn spec_format(self) -> ContentType {
        match self {
            DeserializeError::SerdeJson(_) => ContentType::Json,
            DeserializeError::Prost(_) => ContentType::Protobuf,
            DeserializeError::Xml(_) => ContentType::Xml,
            DeserializeError::Undeserializable => ContentType::Other,
        }
    }

    /// Whether `m` is the text that describes the error: a sentence for the
    /// format, followed by the codec's own message.
    pub open spec fn is_message(self, m: Seq<char>) -> bool {
        match self {
            DeserializeError::SerdeJson(e) => exists|t: String|
                to_string_from_display_ensures::<serde_json::Error>(&e, t)
                    && m == "Failed to deserialize from JSON: "@ + t@,
            DeserializeError::Prost(t) => m == "Failed to decode from protobuf: "@ + t@,
            DeserializeError::Xml(e) => exists|t: String|
                to_string_from_display_ensures::<quick_xml::DeError>(&e, t)
                    && m == "Failed to deserialize from XML: "@ + t@,
            DeserializeError::Undeserializable => m == "Unable to deserialize"@,
        }
    }

    /// The text that describes the error.
    pub fn message(&self) -> (r: String)
        ensures
            self.is_message(r@),
    {
        match self {
            DeserializeError::SerdeJson(e) => prefixed("Failed to deserialize from JSON: ", e.to_string()),
            DeserializeError::Prost(m) => prefixed("Failed to decode from protobuf: ", m.clone()),
            DeserializeError::Xml(e) => prefixed("Failed to deserialize from XML: ", e.to_string()),
            DeserializeError::Undeserializable => String::from_str("Unable to deserialize"),
        }
    }
}

impl PayloadError {
    /// Every extraction error is the client's: 400 Bad Request.
    pub fn status_code(&self) -> (r: u16)
        ensures
            r == 400,
    {
        400
    }

    /// The text that describes the error.
    pub fn message(&self) -> (r: String)
        ensures
            self is InvalidContentType ==> r@ == "Invalid content type"@,
            self matches PayloadError::Deserialize(e) ==> exists|t: Seq<char>|
                e.is_message(t) && r@ == "Error: "@ + t,
    {
        match self {
            PayloadError::Deserialize(e) => prefixed("Error: ", e.message()),
            PayloadError::InvalidContentType => String::from_str("Invalid content type"),
        }
    }
}

fn prefixed(head: &str, tail: String) -> (r: String)
    ensures
        r@ == head@ + tail@,
        head@.is_prefix_of(r@),
{
    let r = String::from_str(head).concat(tail.as_str());
    assert(head@ =~= r@.subrange(0, head@.len() as int));
    r
}

} // verus!
