use actix_multiresponse::{
    json_encoded, protobuf_encoded, xml_encoded,
    ConfigurationError, ContentType, DeserializeError, Formats, Payload, PayloadError, Response,
    SerializeError,
};
use prost::Message;
use serde::ser::SerializeStruct;

#[derive(Debug, Clone, Default, PartialEq)]
struct TestPayload {
    foo: String,
    bar: i64,
}

impl prost::Message for TestPayload {
    fn encode_raw<B>(&self, buf: &mut B)
    where
        B: prost::bytes::BufMut,
    {
        if !self.foo.is_empty() {
            prost::encoding::string::encode(1, &self.foo, buf);
        }
        if self.bar != 0 {
            prost::encoding::int64::encode(2, &self.bar, buf);
        }
    }

    fn merge_field<B>(
        &mut self,
        tag: u32,
        wire_type: prost::encoding::WireType,
        buf: &mut B,
        ctx: prost::encoding::DecodeContext,
    ) -> Result<(), prost::DecodeError>
    where
        B: prost::bytes::Buf,
    {
        match tag {
            1 => prost::encoding::string::merge(wire_type, &mut self.foo, buf, ctx),
            2 => prost::encoding::int64::merge(wire_type, &mut self.bar, buf, ctx),
            _ => prost::encoding::skip_field(wire_type, tag, buf, ctx),
        }
    }

    fn encoded_len(&self) -> usize {
        let foo = if self.foo.is_empty() { 0 } else { prost::encoding::string::encoded_len(1, &self.foo) };
        let bar = if self.bar == 0 { 0 } else { prost::encoding::int64::encoded_len(2, &self.bar) };
        foo + bar
    }

    fn clear(&mut self) {
        self.foo.clear();
        self.bar = 0;
    }
}

impl serde::Serialize for TestPayload {
    fn serialize<S: serde::Serializer>(&self, s: S) -> Result<S::Ok, S::Error> {
        let mut st = s.serialize_struct("TestPayload", 2)?;
        st.serialize_field("foo", &self.foo)?;
        st.serialize_field("bar", &self.bar)?;
        st.end()
    }
}

struct TestPayloadVisitor;

impl<'de> serde::de::Visitor<'de> for TestPayloadVisitor {
    type Value = TestPayload;

    fn expecting(&self, f: &mut std::fmt::Formatter) -> std::fmt::Result {
        f.write_str("struct TestPayload")
    }

    fn visit_map<A: serde::de::MapAccess<'de>>(self, mut map: A) -> Result<TestPayload, A::Error> {
        let mut foo: Option<String> = None;
        let mut bar: Option<i64> = None;
        while let Some(key) = map.next_key::<String>()? {
            match key.as_str() {
                "foo" => foo = Some(map.next_value()?),
                "bar" => bar = Some(map.next_value()?),
                _ => {
                    map.next_value::<serde::de::IgnoredAny>()?;
                }
            }
        }
        let foo = foo.ok_or_else(|| serde::de::Error::missing_field("foo"))?;
        let bar = bar.ok_or_else(|| serde::de::Error::missing_field("bar"))?;
        Ok(TestPayload { foo, bar })
    }
}

impl<'de> serde::Deserialize<'de> for TestPayload {
    fn deserialize<D: serde::Deserializer<'de>>(d: D) -> Result<Self, D::Error> {
        d.deserialize_struct("TestPayload", &["foo", "bar"], TestPayloadVisitor)
    }
}

impl TestPayload {
    fn json() -> String {
        serde_json::to_string_pretty(&Self::default()).unwrap()
    }

    fn protobuf() -> Vec<u8> {
        Self::default().encode_to_vec()
    }

    fn sample() -> Self {
        TestPayload { foo: "x".to_string(), bar: 1 }
    }
}

/// Extracts a payload from a request and answers with it unchanged.
fn echo(accept: Option<&str>, content_type: Option<&str>, body: &[u8]) -> Response {
    let all = Formats::all();
    let payload: Payload<TestPayload> = Payload::from_body(content_type, body, &all).unwrap();
    payload.respond(accept, content_type, &all).unwrap()
}

#[test]
fn test_json_req_json_res() {
    let resp = echo(None, Some("application/json"), TestPayload::json().as_bytes());
    assert_eq!(200, resp.status);
    assert_eq!(TestPayload::json(), String::from_utf8(resp.body).unwrap());
}

#[test]
fn test_json_req_protobuf_response() {
    let resp = echo(Some("application/protobuf"), Some("application/json"), TestPayload::json().as_bytes());
    assert_eq!(200, resp.status);
    assert_eq!(TestPayload::protobuf(), resp.body);
}

#[test]
fn test_protobuf_req_json_response() {
    let resp = echo(Some("application/json"), Some("application/protobuf"), &TestPayload::protobuf());
    assert_eq!(200, resp.status);
    assert_eq!(TestPayload::json(), String::from_utf8(resp.body).unwrap());
}

#[test]
fn test_protobuf_req_protobuf_response() {
    let resp = echo(Some("application/protobuf"), Some("application/protobuf"), &TestPayload::protobuf());
    assert_eq!(200, resp.status);
    assert_eq!(TestPayload::protobuf(), resp.body);
}

#[test]
fn round_trip_every_format() {
    let value = TestPayload { foo: "hello".to_string(), bar: -42 };
    for format in [ContentType::Json, ContentType::Protobuf, ContentType::Xml] {
        let bytes = Payload(value.clone()).serialize(format).unwrap();
        let back: Payload<TestPayload> = Payload::deserialize(&bytes, format).unwrap();
        assert_eq!(value, back.0);
    }
}

#[test]
fn round_trip_default_value_json_and_protobuf() {
    for format in [ContentType::Json, ContentType::Protobuf] {
        let bytes = Payload(TestPayload::default()).serialize(format).unwrap();
        let back: Payload<TestPayload> = Payload::deserialize(&bytes, format).unwrap();
        assert_eq!(TestPayload::default(), back.0);
    }
}

#[test]
fn serialize_json_is_pretty() {
    let bytes = Payload(TestPayload::sample()).serialize(ContentType::Json).unwrap();
    assert_eq!("{\n  \"foo\": \"x\",\n  \"bar\": 1\n}", String::from_utf8(bytes).unwrap());
}

#[test]
fn serialize_protobuf_bytes() {
    let bytes = Payload(TestPayload::sample()).serialize(ContentType::Protobuf).unwrap();
    assert_eq!(vec![0x0a, 0x01, b'x', 0x10, 0x01], bytes);
}

#[test]
fn serialize_xml_text() {
    let bytes = Payload(TestPayload::sample()).serialize(ContentType::Xml).unwrap();
    assert_eq!("<TestPayload><foo>x</foo><bar>1</bar></TestPayload>", String::from_utf8(bytes).unwrap());
}

#[test]
fn serialize_other_is_unserializable() {
    let err = Payload(TestPayload::sample()).serialize(ContentType::Other).unwrap_err();
    assert!(matches!(err, SerializeError::Unserializable));
    assert_eq!("Unable to serialize", err.message());
}

#[test]
fn deserialize_other_is_undeserializable() {
    let err = Payload::<TestPayload>::deserialize(b"{}", ContentType::Other).unwrap_err();
    assert!(matches!(err, DeserializeError::Undeserializable));
    assert_eq!("Unable to deserialize", err.message());
}

#[test]
fn deserialize_errors_name_the_format() {
    let json = Payload::<TestPayload>::deserialize(b"not-json", ContentType::Json).unwrap_err();
    assert!(matches!(json, DeserializeError::SerdeJson(_)));
    assert!(json.message().starts_with("Failed to deserialize from JSON: "));

    let proto = Payload::<TestPayload>::deserialize(&[0x0a, 0x05, b'x'], ContentType::Protobuf).unwrap_err();
    assert!(matches!(proto, DeserializeError::Prost(_)));
    assert!(proto.message().starts_with("Failed to decode from protobuf: "));

    let xml = Payload::<TestPayload>::deserialize(b"<TestPayload><foo>x</foo>", ContentType::Xml).unwrap_err();
    assert!(matches!(xml, DeserializeError::Xml(_)));
    assert!(xml.message().starts_with("Failed to deserialize from XML: "));
}

#[test]
fn extract_json_scenario() {
    let all = Formats::all();
    let body = br#"{"foo":"x","bar":1}"#;
    let payload: Payload<TestPayload> = Payload::from_body(Some("application/json"), body, &all).unwrap();
    assert_eq!(&TestPayload::sample(), payload.deref());

    let resp = payload.respond(None, Some("application/json"), &all).unwrap();
    assert_eq!(200, resp.status);
    assert_eq!(Some("application/json"), resp.content_type);
    let echoed: serde_json::Value = serde_json::from_slice(&resp.body).unwrap();
    let sent: serde_json::Value = serde_json::from_slice(body).unwrap();
    assert_eq!(sent, echoed);
}

#[test]
fn cross_format_scenario() {
    let all = Formats::all();
    let body = TestPayload::sample().encode_to_vec();
    let payload: Payload<TestPayload> = Payload::from_body(Some("application/protobuf"), &body, &all).unwrap();
    let resp = payload.respond(Some("application/json"), Some("application/protobuf"), &all).unwrap();
    assert_eq!(200, resp.status);
    assert_eq!(Some("application/json"), resp.content_type);
    let decoded: TestPayload = serde_json::from_slice(&resp.body).unwrap();
    assert_eq!(TestPayload::sample(), decoded);
}

#[test]
fn malformed_json_scenario() {
    let err = Payload::<TestPayload>::from_body(Some("application/json"), b"not-json", &Formats::all()).unwrap_err();
    assert!(matches!(err, PayloadError::Deserialize(DeserializeError::SerdeJson(_))));
    assert_eq!(400, err.status_code());
    assert!(err.message().starts_with("Error: Failed to deserialize from JSON: "));
}

#[test]
fn missing_content_type_is_invalid() {
    let err = Payload::<TestPayload>::from_body(None, br#"{"foo":"x","bar":1}"#, &Formats::all()).unwrap_err();
    assert!(matches!(err, PayloadError::InvalidContentType));
    assert_eq!(400, err.status_code());
    assert_eq!("Invalid content type", err.message());
}

#[test]
fn unknown_or_disabled_content_type_is_invalid() {
    let err = Payload::<TestPayload>::from_body(Some("foo/bar"), b"", &Formats::all()).unwrap_err();
    assert!(matches!(err, PayloadError::InvalidContentType));
    let no_json = Formats { json: false, protobuf: true, xml: true };
    let err = Payload::<TestPayload>::from_body(Some("application/json"), b"{}", &no_json).unwrap_err();
    assert!(matches!(err, PayloadError::InvalidContentType));
}

#[test]
fn respond_defaults_and_xml() {
    let all = Formats::all();
    let resp = Payload(TestPayload::sample()).respond(None, None, &all).unwrap();
    assert_eq!(200, resp.status);
    assert_eq!(Some("application/json"), resp.content_type);

    let resp = Payload(TestPayload::sample()).respond(Some("text/xml"), None, &all).unwrap();
    assert_eq!(Some("application/xml"), resp.content_type);
    assert_eq!(b"<TestPayload><foo>x</foo><bar>1</bar></TestPayload>".to_vec(), resp.body);
}

#[test]
fn respond_without_formats_is_a_configuration_error() {
    let none = Formats { json: false, protobuf: false, xml: false };
    let err = Payload(TestPayload::sample()).respond(Some("application/json"), None, &none).unwrap_err();
    assert_eq!(ConfigurationError::NoFormatEnabled, err);
}

#[test]
fn response_for_outcomes() {
    let ok = Response::for_outcome(ContentType::Protobuf, Ok(vec![1, 2])).unwrap();
    assert_eq!(200, ok.status);
    assert_eq!(Some("application/protobuf"), ok.content_type);
    assert_eq!(vec![1, 2], ok.body);

    let failed = Response::for_outcome(ContentType::Protobuf, Err(SerializeError::Prost("boom".to_string()))).unwrap();
    assert_eq!(500, failed.status);
    assert_eq!(None, failed.content_type);
    assert_eq!(b"Failed to encode to protobuf: boom".to_vec(), failed.body);

    assert!(Response::for_outcome(ContentType::Other, Ok(vec![])).is_err());
}

#[test]
fn mime_of_formats() {
    assert_eq!(Some("application/json"), ContentType::Json.mime());
    assert_eq!(Some("application/protobuf"), ContentType::Protobuf.mime());
    assert_eq!(Some("application/xml"), ContentType::Xml.mime());
    assert_eq!(None, ContentType::Other.mime());
}

#[test]
fn payload_accessors() {
    let mut p = Payload(TestPayload::sample());
    p.deref_mut().bar = 7;
    assert_eq!(7, p.deref().bar);
    assert_eq!(TestPayload { foo: "x".to_string(), bar: 7 }, p.into_inner());
}

#[test]
fn disabled_formats_are_refused_by_dispatch() {
    let no_xml = Formats { json: true, protobuf: true, xml: false };
    let err = Payload(TestPayload::sample()).serialize_for(ContentType::Xml, &no_xml).unwrap_err();
    assert!(matches!(err, SerializeError::Unserializable));
    let err = Payload::<TestPayload>::deserialize_for(b"<TestPayload/>", ContentType::Xml, &no_xml).unwrap_err();
    assert!(matches!(err, DeserializeError::Undeserializable));

    let bytes = Payload(TestPayload::sample()).serialize_for(ContentType::Protobuf, &no_xml).unwrap();
    let back = Payload::<TestPayload>::deserialize_for(&bytes, ContentType::Protobuf, &no_xml).unwrap();
    assert_eq!(TestPayload::sample(), back.0);
}

#[test]
fn messages_keep_the_codec_text() {
    let codec = serde_json::from_slice::<serde_json::Value>(b"not-json").unwrap_err().to_string();
    let err = Payload::<TestPayload>::from_body(Some("application/json"), b"not-json", &Formats::all()).unwrap_err();
    assert_eq!(format!("Error: Failed to deserialize from JSON: {codec}"), err.message());

    let err = DeserializeError::Prost("bad tag".to_string());
    assert_eq!("Failed to decode from protobuf: bad tag", err.message());
}

#[test]
fn protobuf_response_is_ok() {
    let all = Formats::all();
    let resp = Payload(TestPayload::sample()).respond(None, Some("application/protobuf"), &all).unwrap();
    assert_eq!(200, resp.status);
    assert_eq!(Some("application/protobuf"), resp.content_type);
    assert_eq!(TestPayload::sample().encode_to_vec(), resp.body);
}

#[test]
fn codec_outcomes_map_exactly() {
    let ok: Result<TestPayload, serde_json::Error> = Ok(TestPayload::sample());
    assert_eq!(TestPayload::sample(), Payload::json_decoded(ok).unwrap().0);
    let bad = serde_json::from_slice::<TestPayload>(b"not-json");
    assert!(matches!(Payload::json_decoded(bad), Err(DeserializeError::SerdeJson(_))));

    let bad = TestPayload::decode(&[0x0a, 0x05, b'x'][..]);
    let text = bad.as_ref().unwrap_err().to_string();
    match Payload::protobuf_decoded(bad) {
        Err(DeserializeError::Prost(t)) => assert_eq!(text, t),
        other => panic!("unexpected {other:?}"),
    }

    let bad = quick_xml::de::from_str::<TestPayload>("<TestPayload>");
    assert!(matches!(Payload::xml_decoded(bad), Err(DeserializeError::Xml(_))));
    let ok: Result<TestPayload, quick_xml::DeError> = Ok(TestPayload::default());
    assert_eq!(TestPayload::default(), Payload::xml_decoded(ok).unwrap().0);
}

#[test]
fn extraction_outcomes_map_exactly() {
    let ok: Result<Payload<TestPayload>, DeserializeError> = Ok(Payload(TestPayload::sample()));
    assert_eq!(TestPayload::sample(), Payload::from_decoded(ok).unwrap().0);
    let err: Result<Payload<TestPayload>, DeserializeError> = Err(DeserializeError::Prost("x".to_string()));
    assert!(matches!(
        Payload::from_decoded(err),
        Err(PayloadError::Deserialize(DeserializeError::Prost(t))) if t == "x"
    ));
}

#[test]
fn encoder_outcomes_map_exactly() {
    assert_eq!(b"{\"a\":1}".to_vec(), json_encoded(Ok("{\"a\":1}".to_string())).unwrap());
    assert_eq!("é".as_bytes().to_vec(), xml_encoded(Ok("é".to_string())).unwrap());
    assert_eq!(vec![8, 1], protobuf_encoded(Ok(vec![8, 1])).unwrap());
    let bad = serde_json::from_slice::<serde_json::Value>(b"{").unwrap_err();
    assert!(matches!(json_encoded(Err(bad)), Err(SerializeError::SerdeJson(_))));
}
