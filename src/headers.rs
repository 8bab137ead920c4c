use crate::error::ConfigurationError;
use actix_web::HttpRequest;
use vstd::prelude::*;
use vstd::string::StrSliceExecFns;

verus! {

/// The wire format of a payload, or `Other` where a header names none that
/// is enabled.
#[derive(Debug, PartialEq, Eq, Clone, Copy, Structural)]
pub enum ContentType {
    Json,
    Protobuf,
    Xml,
    Other,
}

/// The set of wire formats that a deployment enables.
#[derive(Debug, PartialEq, Eq, Clone, Copy, Structural)]
pub struct Formats {
    pub json: bool,
    pub protobuf: bool,
    pub xml: bool,
}

/// The set with every format enabled.
pub open spec fn formats_all() -> Formats {
    Formats { json: true, protobuf: true, xml: true }
}

impl Formats {
    /// Whether `ct` is a concrete format of this set.
    pub open spec fn spec_enabled(self, ct: ContentType) -> bool {
        match ct {
            ContentType::Json => self.json,
            ContentType::Protobuf => self.protobuf,
            ContentType::Xml => self.xml,
            ContentType::Other => false,
        }
    }

    /// At least one format is enabled.
    pub open spec fn spec_any(self) -> bool {
        self.json || self.protobuf || self.xml
    }

    /// The first enabled format in the order JSON, Protobuf, XML.
    pub open spec fn spec_default_format(self) -> ContentType {
        if self.json {
            ContentType::Json
        } else if self.protobuf {
            ContentType::Protobuf
        } else if self.xml {
            ContentType::Xml
        } else {
            ContentType::Other
        }
    }

    /// Every format enabled.
    pub fn all() -> (r: Formats)
        ensures
            r == formats_all(),
    {
        Formats { json: true, protobuf: true, xml: true }
    }

    pub fn enabled(&self, ct: ContentType) -> (r: bool)
        ensures
            r == self.spec_enabled(ct),
    {
        match ct {
            ContentType::Json => self.json,
            ContentType::Protobuf => self.protobuf,
            ContentType::Xml => self.xml,
            ContentType::Other => false,
        }
    }

    pub fn any(&self) -> (r: bool)
        ensures
            r == self.spec_any(),
    {
        self.json || self.protobuf || self.xml
    }

    /// The check made once at startup: a deployment that enables no format
    /// is misconfigured.
    pub fn validate(&self) -> (r: Result<(), ConfigurationError>)
        ensures
            r is Ok <==> self.spec_any(),
    {
        if self.json || self.protobuf || self.xml {
            Ok(())
        } else {
            Err(ConfigurationError::NoFormatEnabled)
        }
    }

    /// The format used for a response when neither header names one.
    pub fn default_format(&self) -> (r: ContentType)
        ensures
            r == self.spec_default_format(),
    {
        if self.json {
            ContentType::Json
        } else if self.protobuf {
            ContentType::Protobuf
        } else if self.xml {
            ContentType::Xml
        } else {
            ContentType::Other
        }
    }
}

impl Default for ContentType {
    /// The default with every format enabled: JSON.
    fn default() -> (r: ContentType)
        ensures
            r == ContentType::Json,
    {
        ContentType::Json
    }
}

/// The lowercase form of a text, as `str::to_lowercase` gives it.
pub uninterp spec fn lowercase_of(s: Seq<char>) -> Seq<char>;

/// Relies on `str::to_lowercase`: its result depends on the characters alone.
#[verifier::external_body]
fn lowercase(s: &str) -> (r: String)
    ensures
        r@ == lowercase_of(s@),
{
    s.to_lowercase()
}

/// The format that an already lowercased header value names.
pub open spec fn classify(f: Formats, l: Seq<char>) -> ContentType {
    if "application/json"@.is_prefix_of(l) {
        if f.json { ContentType::Json } else { ContentType::Other }
    } else if "application/protobuf"@.is_prefix_of(l) {
        if f.protobuf { ContentType::Protobuf } else { ContentType::Other }
    } else if "application/xml"@.is_prefix_of(l) || "text/xml"@.is_prefix_of(l) {
        if f.xml { ContentType::Xml } else { ContentType::Other }
    } else {
        ContentType::Other
    }
}

/// The format that a header value names, compared without regard to case;
/// an absent header names none.
pub open spec fn resolved(f: Formats, h: Option<Seq<char>>) -> ContentType {
    match h {
        Some(s) => classify(f, lowercase_of(s)),
        None => ContentType::Other,
    }
}

pub open spec fn text_of(h: Option<&str>) -> Option<Seq<char>> {
    match h {
        Some(s) => Some(s@),
        None => None,
    }
}

/// The response format: the one `Accept` names, else the one `Content-Type`
/// names, else the default of the enabled formats.
pub open spec fn negotiated(f: Formats, accept: Option<Seq<char>>, sent: Option<Seq<char>>) -> ContentType {
    let a = resolved(f, accept);
    let c = resolved(f, sent);
    if a != ContentType::Other {
        a
    } else if c != ContentType::Other {
        c
    } else {
        f.spec_default_format()
    }
}

fn has_prefix(s: &str, p: &str) -> (r: bool)
    ensures
        r == p@.is_prefix_of(s@),
{
    let n = p.unicode_len();
    let m = s.unicode_len();
    if n > m {
        return false;
    }
    let mut i: usize = 0;
    while i < n
        invariant
            n == p@.len(),
            m == s@.len(),
            n <= m,
            i <= n,
            forall|j: int| 0 <= j < i ==> p@[j] == s@[j],
        decreases n - i,
    {
        if p.get_char(i) != s.get_char(i) {
            assert(p@[i as int] != s@.subrange(0, n as int)[i as int]);
            return false;
        }
        i = i + 1;
    }
    assert(p@ =~= s@.subrange(0, n as int));
    true
}

/// The format that an already lowercased header value names, by prefix, so
/// that parameters such as `; charset=UTF-8` are ignored.
pub fn classify_lowered(l: &str, formats: &Formats) -> (r: ContentType)
    ensures
        r == classify(*formats, l@),
{
    if has_prefix(l, "application/json") {
        if formats.json { ContentType::Json } else { ContentType::Other }
    } else if has_prefix(l, "application/protobuf") {
        if formats.protobuf { ContentType::Protobuf } else { ContentType::Other }
    } else if has_prefix(l, "application/xml") || has_prefix(l, "text/xml") {
        if formats.xml { ContentType::Xml } else { ContentType::Other }
    } else {
        ContentType::Other
    }
}

/// The format that a header value names, or `Other`.
pub fn resolve(header: Option<&str>, formats: &Formats) -> (r: ContentType)
    ensures
        r == resolved(*formats, text_of(header)),
{
    match header {
        Some(s) => {
            let l = lowercase(s);
            classify_lowered(l.as_str(), formats)
        },
        None => ContentType::Other,
    }
}

/// The response format from what the two headers resolved to: the accepted
/// one if concrete, else the sent one if concrete, else the default.
pub fn choose_format(accepted: ContentType, sent: ContentType, formats: &Formats) -> (r: ContentType)
    ensures
        r == (if accepted != ContentType::Other {
            accepted
        } else if sent != ContentType::Other {
            sent
        } else {
            formats.spec_default_format()
        }),
{
    if accepted != ContentType::Other {
        accepted
    } else if sent != ContentType::Other {
        sent
    } else {
        formats.default_format()
    }
}

/// The format of a response, from the request's `Accept` and `Content-Type`.
pub fn select_response_format(accept: Option<&str>, content_type: Option<&str>, formats: &Formats) -> (r: ContentType)
    ensures
        r == negotiated(*formats, text_of(accept), text_of(content_type)),
{
    let a = resolve(accept, formats);
    let c = resolve(content_type, formats);
    choose_format(a, c, formats)
}

#[verifier::external_type_specification]
#[verifier::external_body]
pub struct ExHttpRequest(HttpRequest);

/// The text of the named header of a request: the first value under that
/// name, where each of its bytes is visible ASCII or a tab.
pub uninterp spec fn header_text_of(req: HttpRequest, name: Seq<char>) -> Option<Seq<char>>;

/// A character that `HeaderValue::to_str` lets through.
pub open spec fn is_visible_ascii(c: char) -> bool {
    (' ' <= c && c <= '~') || c == '\t'
}

/// Relies on `HttpRequest::headers`, `HeaderMap::get` and `HeaderValue::to_str`:
/// the first value of the named header as text, if the request has one and
/// each of its bytes is visible ASCII or a tab.
#[verifier::external_body]
fn header_text<'a>(req: &'a HttpRequest, name: &str) -> (r: Option<&'a str>)
    ensures
        text_of(r) == header_text_of(*req, name@),
        r matches Some(s) ==> forall|i: int| 0 <= i < s@.len() ==> is_visible_ascii(#[trigger] s@[i]),
{
    req.headers().get(name).and_then(|v| v.to_str().ok())
}

impl ContentType {
    /// The format of the request's `Content-Type` header, with every format
    /// enabled.
    pub fn from_request_content_type(req: &HttpRequest) -> (r: ContentType)
        ensures
            r == resolved(formats_all(), header_text_of(*req, "Content-Type"@)),
    {
        Self::from_request_header(req, "Content-Type")
    }

    /// The format of the request's `Accept` header, with every format enabled.
    pub fn from_request_accepts(req: &HttpRequest) -> (r: ContentType)
        ensures
            r == resolved(formats_all(), header_text_of(*req, "Accept"@)),
    {
        Self::from_request_header(req, "Accept")
    }

    /// The format that the named header of the request names, with every
    /// format enabled; `Other` where it is absent or not text.
    pub fn from_request_header(req: &HttpRequest, name: &str) -> (r: ContentType)
        ensures
            r == resolved(formats_all(), header_text_of(*req, name@)),
    {
        let text = header_text(req, name);
        resolve(text, &Formats::all())
    }
}

/// Resolution yields only formats that are enabled, or `Other`.
pub proof fn lemma_resolution_respects_formats(f: Formats, h: Option<Seq<char>>)
    ensures
        resolved(f, h) == ContentType::Other || f.spec_enabled(resolved(f, h)),
{
}

/// An absent header names no format.
pub proof fn lemma_absent_header_is_unrecognized(f: Formats)
    ensures
        resolved(f, None) == ContentType::Other,
{
}

/// Negotiation honours `Accept` first, then `Content-Type`, and with neither
/// header it picks the default format.
pub proof fn lemma_negotiation_order(f: Formats, accept: Option<Seq<char>>, sent: Option<Seq<char>>)
    ensures
        resolved(f, accept) != ContentType::Other ==> negotiated(f, accept, sent) == resolved(f, accept),
        resolved(f, accept) == ContentType::Other && resolved(f, sent) != ContentType::Other
            ==> negotiated(f, accept, sent) == resolved(f, sent),
        negotiated(f, None, None) == f.spec_default_format(),
{
}

/// With at least one format enabled, negotiation always picks an enabled
/// format, never `Other`.
pub proof fn lemma_negotiation_total(f: Formats, accept: Option<Seq<char>>, sent: Option<Seq<char>>)
    requires
        f.spec_any(),
    ensures
        negotiated(f, accept, sent) != ContentType::Other,
        f.spec_enabled(negotiated(f, accept, sent)),
{
}

} // verus!
