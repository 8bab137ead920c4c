use crate::error::{ConfigurationError, DeserializeError, PayloadError, SerializeError};
use crate::headers::{negotiated, resolve, resolved, select_response_format, text_of, ContentType, Formats};
use vstd::prelude::*;
use vstd::string::StrSliceExecFns;
use vstd::string::to_string_from_display_ensures;
use vstd::utf8::encode_utf8;

verus! {

#[verifier::external_type_specification]
#[verifier::external_body]
pub struct ExEncodeError(prost::EncodeError);

#[verifier::external_type_specification]
#[verifier::external_body]
pub struct ExDecodeError(prost::DecodeError);

/// The Protocol Buffers capability of a payload type. Every type has it; the
/// encoding itself comes from the type's `prost::Message`, which the payload
/// operations ask for beside it.
pub trait ProtobufSupport {}

impl<T> ProtobufSupport for T {}

/// The JSON and XML reading capability of a payload type. Every type has it;
/// the decoding itself comes from the type's `serde::Deserialize`, which the
/// payload operations ask for beside it.
pub trait SerdeSupportDeserialize {}

impl<T> SerdeSupportDeserialize for T {}

/// The JSON and XML writing capability of a payload type. Every type has it;
/// the encoding itself comes from the type's `serde::Serialize`, which the
/// payload operations ask for beside it.
pub trait SerdeSupportSerialize {}

impl<T> SerdeSupportSerialize for T {}

/// Relies on `serde_json::to_string_pretty`: the value as indented JSON text.
#[verifier::external_body]
fn json_encode<T: serde::Serialize>(v: &T) -> (r: Result<String, serde_json::Error>) {
    serde_json::to_string_pretty(v)
}

/// Relies on `serde_json::from_slice`: the value that the JSON bytes hold.
#[verifier::external_body]
fn json_decode<T: serde::de::DeserializeOwned>(b: &[u8]) -> (r: Result<T, serde_json::Error>) {
    serde_json::from_slice(b)
}

/// Relies on `prost::Message::encode`: the message's bytes, written to a
/// fresh `Vec`, whose room (`isize::MAX` bytes) no encoded message exceeds,
/// so the capacity check always passes.
#[verifier::external_body]
fn protobuf_encode<T: prost::Message>(v: &T) -> (r: Result<Vec<u8>, prost::EncodeError>)
    ensures
        r is Ok,
{
    let mut buf = Vec::new();
    v.encode(&mut buf).map(|_| buf)
}

/// Relies on `prost::Message::decode`: the message that the bytes hold.
#[verifier::external_body]
fn protobuf_decode<T: prost::Message + Default>(b: &[u8]) -> (r: Result<T, prost::DecodeError>) {
    T::decode(b)
}

/// Relies on `quick_xml::se::to_string`: the value as XML text.
#[verifier::external_body]
fn xml_encode<T: serde::Serialize>(v: &T) -> (r: Result<String, quick_xml::DeError>) {
    quick_xml::se::to_string(v)
}

/// Relies on `quick_xml::de::from_reader`: the value that the XML bytes hold.
#[verifier::external_body]
fn xml_decode<T: serde::de::DeserializeOwned>(b: &[u8]) -> (r: Result<T, quick_xml::DeError>) {
    quick_xml::de::from_reader(b)
}

/// A typed request or response body whose wire format is chosen by content
/// negotiation.
#[derive(Debug)]
pub struct Payload<T>(pub T);

impl<T> Payload<T> {
    /// The value carried.
    pub fn deref(&self) -> (r: &T)
        ensures
            *r == self.0,
    {
        &self.0
    }

    /// The value carried, for change in place.
    pub fn deref_mut(&mut self) -> (r: &mut T)
        ensures
            *r == old(self).0,
            *final(r) == final(self).0,
    {
        &mut self.0
    }

    /// The outcome of JSON decoding as a payload: the decoded value, or the
    /// decoder's error as it is.
    pub fn json_decoded(r: Result<T, serde_json::Error>) -> (o: Result<Payload<T>, DeserializeError>)
        ensures
            r matches Ok(v) ==> o == Ok::<Payload<T>, DeserializeError>(Payload(v)),
            r matches Err(e) ==> o == Err::<Payload<T>, DeserializeError>(DeserializeError::SerdeJson(e)),
    {
        match r {
            Ok(v) => Ok(Payload(v)),
            Err(e) => Err(DeserializeError::SerdeJson(e)),
        }
    }

    /// The outcome of Protocol Buffers decoding as a payload: the decoded
    /// value, or the text of the decoder's error.
    pub fn protobuf_decoded(r: Result<T, prost::DecodeError>) -> (o: Result<Payload<T>, DeserializeError>)
        ensures
            r matches Ok(v) ==> o == Ok::<Payload<T>, DeserializeError>(Payload(v)),
            r matches Err(e) ==> (o matches Err(DeserializeError::Prost(t))
                && to_string_from_display_ensures::<prost::DecodeError>(&e, t)),
    {
        match r {
            Ok(v) => Ok(Payload(v)),
            Err(e) => Err(DeserializeError::Prost(e.to_string())),
        }
    }

    /// The outcome of XML decoding as a payload: the decoded value, or the
    /// decoder's error as it is.
    pub fn xml_decoded(r: Result<T, quick_xml::DeError>) -> (o: Result<Payload<T>, DeserializeError>)
        ensures
            r matches Ok(v) ==> o == Ok::<Payload<T>, DeserializeError>(Payload(v)),
            r matches Err(e) ==> o == Err::<Payload<T>, DeserializeError>(DeserializeError::Xml(e)),
    {
        match r {
            Ok(v) => Ok(Payload(v)),
            Err(e) => Err(DeserializeError::Xml(e)),
        }
    }

    /// The outcome of extraction from the outcome of decoding: the payload
    /// as it is, or the decoding error wrapped.
    pub fn from_decoded(d: Result<Payload<T>, DeserializeError>) -> (r: Result<Payload<T>, PayloadError>)
        ensures
            d matches Ok(p) ==> r == Ok::<Payload<T>, PayloadError>(p),
            d matches Err(e) ==> r == Err::<Payload<T>, PayloadError>(PayloadError::Deserialize(e)),
    {
        match d {
            Ok(p) => Ok(p),
            Err(e) => Err(PayloadError::Deserialize(e)),
        }
    }

    /// The value carried, taken out.
    pub fn into_inner(self) -> (r: T)
        ensures
            r == self.0,
    {
        self.0
    }
}

impl<T: ProtobufSupport + SerdeSupportSerialize + prost::Message + serde::Serialize> Payload<T> {
    /// The value as bytes of the given format: pretty JSON, Protocol Buffers
    /// or XML. `Other` is refused without encoding, and every error names the
    /// format whose encoder failed.
    pub fn serialize(&self, content_type: ContentType) -> (r: Result<Vec<u8>, SerializeError>)
        ensures
            content_type == ContentType::Other <==> r matches Err(SerializeError::Unserializable),
            r matches Err(e) ==> e.spec_format() == content_type,
            content_type == ContentType::Protobuf ==> r is Ok,
    {
        match content_type {
            ContentType::Json => json_encoded(json_encode(&self.0)),
            ContentType::Protobuf => protobuf_encoded(protobuf_encode(&self.0)),
            ContentType::Xml => xml_encoded(xml_encode(&self.0)),
            ContentType::Other => Err(SerializeError::Unserializable),
        }
    }

    /// As `serialize`, in a deployment that enables `formats`: a format it
    /// does not enable is refused without encoding.
    pub fn serialize_for(&self, content_type: ContentType, formats: &Formats) -> (r: Result<Vec<u8>, SerializeError>)
        ensures
            !formats.spec_enabled(content_type) <==> r matches Err(SerializeError::Unserializable),
            r matches Err(e) ==> e.spec_format() == content_type || !formats.spec_enabled(content_type),
            formats.spec_enabled(content_type) && content_type == ContentType::Protobuf ==> r is Ok,
    {
        if formats.enabled(content_type) {
            self.serialize(content_type)
        } else {
            Err(SerializeError::Unserializable)
        }
    }

    /// The response for this payload: the format is negotiated from the
    /// request's `Accept` and `Content-Type` headers and the value encoded in
    /// it. Only a deployment that enables no format gets an error.
    pub fn respond(&self, accept: Option<&str>, content_type: Option<&str>, formats: &Formats) -> (r: Result<Response, ConfigurationError>)
        ensures
            r is Err <==> negotiated(*formats, text_of(accept), text_of(content_type)) == ContentType::Other,
            formats.spec_any() ==> r is Ok,
            r matches Ok(resp) ==> {
                ||| resp.status == 200 && text_of(resp.content_type) == mime_of(
                    negotiated(*formats, text_of(accept), text_of(content_type)),
                )
                ||| resp.status == 500 && resp.content_type is None && exists|e: SerializeError, t: Seq<char>|
                    e.spec_format() == negotiated(*formats, text_of(accept), text_of(content_type))
                        && e.is_message(t) && resp.body@ == encode_utf8(t)
            },
            negotiated(*formats, text_of(accept), text_of(content_type)) == ContentType::Protobuf
                ==> (r matches Ok(resp) && resp.status == 200),
    {
        let format = select_response_format(accept, content_type, formats);
        proof {
            crate::headers::lemma_resolution_respects_formats(*formats, text_of(accept));
            crate::headers::lemma_resolution_respects_formats(*formats, text_of(content_type));
            if formats.spec_any() {
                crate::headers::lemma_negotiation_total(*formats, text_of(accept), text_of(content_type));
            }
        }
        let outcome = self.serialize_for(format, formats);
        Response::for_outcome(format, outcome)
    }
}

impl<T: ProtobufSupport + SerdeSupportDeserialize + prost::Message + Default + serde::de::DeserializeOwned> Payload<T> {
    /// The value that the bytes hold in the given format. `Other` is refused
    /// without decoding, and every error names the format whose decoder
    /// failed.
    pub fn deserialize(body: &[u8], content_type: ContentType) -> (r: Result<Payload<T>, DeserializeError>)
        ensures
            content_type == ContentType::Other <==> r matches Err(DeserializeError::Undeserializable),
            r matches Err(e) ==> e.spec_format() == content_type,
    {
        match content_type {
            ContentType::Json => Self::json_decoded(json_decode(body)),
            ContentType::Protobuf => Self::protobuf_decoded(protobuf_decode(body)),
            ContentType::Xml => Self::xml_decoded(xml_decode(body)),
            ContentType::Other => Err(DeserializeError::Undeserializable),
        }
    }

    /// As `deserialize`, in a deployment that enables `formats`: a format it
    /// does not enable is refused without decoding.
    pub fn deserialize_for(body: &[u8], content_type: ContentType, formats: &Formats) -> (r: Result<Payload<T>, DeserializeError>)
        ensures
            !formats.spec_enabled(content_type) <==> r matches Err(DeserializeError::Undeserializable),
            r matches Err(e) ==> e.spec_format() == content_type || !formats.spec_enabled(content_type),
    {
        if formats.enabled(content_type) {
            Self::deserialize(body, content_type)
        } else {
            Err(DeserializeError::Undeserializable)
        }
    }

    /// The payload of a request from its `Content-Type` header and its whole
    /// body. A header that is absent or names no enabled format is refused
    /// before any decoding; otherwise a decoding error names that format.
    pub fn from_body(content_type: Option<&str>, body: &[u8], formats: &Formats) -> (r: Result<Payload<T>, PayloadError>)
        ensures
            content_type is None ==> r matches Err(PayloadError::InvalidContentType),
            resolved(*formats, text_of(content_type)) == ContentType::Other
                <==> r matches Err(PayloadError::InvalidContentType),
            r matches Err(PayloadError::Deserialize(e)) ==> e.spec_format() == resolved(*formats, text_of(content_type)),
    {
        let format = resolve(content_type, formats);
        if format == ContentType::Other {
            return Err(PayloadError::InvalidContentType);
        }
        proof {
            crate::headers::lemma_resolution_respects_formats(*formats, text_of(content_type));
        }
        Self::from_decoded(Self::deserialize_for(body, format, formats))
    }
}

/// The outcome of JSON encoding as bytes: the UTF-8 of the text, or the
/// encoder's error as it is.
pub fn json_encoded(r: Result<String, serde_json::Error>) -> (o: Result<Vec<u8>, SerializeError>)
    ensures
        r matches Ok(s) ==> (o matches Ok(b) && b@ == encode_utf8(s@)),
        r matches Err(e) ==> o == Err::<Vec<u8>, SerializeError>(SerializeError::SerdeJson(e)),
{
    match r {
        Ok(s) => Ok(s.as_str().as_bytes_vec()),
        Err(e) => Err(SerializeError::SerdeJson(e)),
    }
}

/// The outcome of Protocol Buffers encoding: the bytes as they are, or the
/// text of the encoder's error.
pub fn protobuf_encoded(r: Result<Vec<u8>, prost::EncodeError>) -> (o: Result<Vec<u8>, SerializeError>)
    ensures
        r matches Ok(b) ==> o == Ok::<Vec<u8>, SerializeError>(b),
        r matches Err(e) ==> (o matches Err(SerializeError::Prost(t))
            && to_string_from_display_ensures::<prost::EncodeError>(&e, t)),
{
    match r {
        Ok(b) => Ok(b),
        Err(e) => Err(SerializeError::Prost(e.to_string())),
    }
}

/// The outcome of XML encoding as bytes: the UTF-8 of the text, or the
/// encoder's error as it is.
pub fn xml_encoded(r: Result<String, quick_xml::DeError>) -> (o: Result<Vec<u8>, SerializeError>)
    ensures
        r matches Ok(s) ==> (o matches Ok(b) && b@ == encode_utf8(s@)),
        r matches Err(e) ==> o == Err::<Vec<u8>, SerializeError>(SerializeError::QuickXml(e)),
{
    match r {
        Ok(s) => Ok(s.as_str().as_bytes_vec()),
        Err(e) => Err(SerializeError::QuickXml(e)),
    }
}

/// The MIME type that names a format in a response's `Content-Type`.
pub open spec fn mime_of(ct: ContentType) -> Option<Seq<char>> {
    match ct {
        ContentType::Json => Some("application/json"@),
        ContentType::Protobuf => Some("application/protobuf"@),
        ContentType::Xml => Some("application/xml"@),
        ContentType::Other => None,
    }
}

impl ContentType {
    /// The MIME type of the format; none for `Other`.
    pub fn mime(&self) -> (r: Option<&'static str>)
        ensures
            text_of(r) == mime_of(*self),
    {
        match self {
            ContentType::Json => Some("application/json"),
            ContentType::Protobuf => Some("application/protobuf"),
            ContentType::Xml => Some("application/xml"),
            ContentType::Other => None,
        }
    }
}

/// What a host turns into an HTTP response: the status, the `Content-Type`
/// value if any, and the body.
#[derive(Debug)]
pub struct Response {
    pub status: u16,
    pub content_type: Option<&'static str>,
    pub body: Vec<u8>,
}

impl Response {
    /// The response for a negotiated format and the outcome of encoding in
    /// it: 200 with the format's MIME type and the bytes, or 500 with the
    /// error's text. With no format at all there is no response to give.
    pub fn for_outcome(format: ContentType, outcome: Result<Vec<u8>, SerializeError>) -> (r: Result<Response, ConfigurationError>)
        ensures
            format == ContentType::Other ==> r == Err::<Response, ConfigurationError>(ConfigurationError::NoFormatEnabled),
            format != ContentType::Other ==> r is Ok,
            r matches Ok(resp) ==> match outcome {
                Ok(bytes) => resp.status == 200 && text_of(resp.content_type) == mime_of(format) && resp.body@ == bytes@,
                Err(e) => resp.status == 500 && resp.content_type is None && exists|t: Seq<char>|
                    e.is_message(t) && resp.body@ == encode_utf8(t),
            },
    {
        let mime = format.mime();
        match mime {
            None => Err(ConfigurationError::NoFormatEnabled),
            Some(m) => match outcome {
                Ok(bytes) => Ok(Response { status: 200, content_type: Some(m), body: bytes }),
                Err(e) => {
                    let text = e.message();
                    Ok(Response { status: 500, content_type: None, body: text.as_str().as_bytes_vec() })
                },
            },
        }
    }
}

} // verus!
