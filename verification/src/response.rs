//! The outcome of one request: the response as the interface shows it, or
//! the reason why there is none.

use crate::cookies::{
    cookie_short_form, decimal, decimal_text, decoded, expiry_shown, expiry_text, join, joined,
    quoted, quoted_text, texts, Cookie, CookieView, RawCookie,
};
use vstd::prelude::*;
use vstd::string::StringExecFns;
use vstd::utf8::{decode_utf8, encode_utf8, is_ascii_chars, valid_utf8};

verus! {

/// Why a request ended without a response to show.
#[derive(Debug, PartialEq, Eq)]
pub enum FetchError {
    /// The request never got a response; the text says what the transport
    /// reported.
    TransportFailure(String),
    /// The response came, but its body could not be read as text.
    DecodeFailure(String),
    /// The task that ran the request ended without delivering anything.
    ChannelDisconnected,
}

/// What is shown of a failure.
pub open spec fn failure_text(e: FetchError) -> Seq<char> {
    match e {
        FetchError::TransportFailure(report) => "failed to get response, request failed: "@
            + report@,
        FetchError::DecodeFailure(report) => "failed to get text from response: "@ + report@,
        FetchError::ChannelDisconnected => "Task sender was dropped"@,
    }
}

impl FetchError {
    /// The message shown in place of the body.
    pub fn message(&self) -> (text: String)
        ensures
            text@ == failure_text(*self),
    {
        match self {
            FetchError::TransportFailure(report) => {
                let mut text = String::from_str("failed to get response, request failed: ");
                text.append(report.as_str());
                text
            },
            FetchError::DecodeFailure(report) => {
                let mut text = String::from_str("failed to get text from response: ");
                text.append(report.as_str());
                text
            },
            FetchError::ChannelDisconnected => String::from_str("Task sender was dropped"),
        }
    }
}

/// The class that a status code falls in, by its hundreds.
#[derive(Debug, Clone, Copy, PartialEq, Eq, Structural)]
pub enum StatusCategory {
    Informational,
    Success,
    Redirection,
    ClientError,
    ServerError,
    Unclassified,
}

/// The class of a status code.
pub open spec fn category_of(status: u16) -> StatusCategory {
    if 100 <= status < 200 {
        StatusCategory::Informational
    } else if 200 <= status < 300 {
        StatusCategory::Success
    } else if 300 <= status < 400 {
        StatusCategory::Redirection
    } else if 400 <= status < 500 {
        StatusCategory::ClientError
    } else if 500 <= status < 600 {
        StatusCategory::ServerError
    } else {
        StatusCategory::Unclassified
    }
}

/// One header as it came over the wire: the name, and the value's bytes.
#[derive(Debug)]
pub struct RawHeader {
    pub name: String,
    pub value: Vec<u8>,
}

/// What is read off a response before its body.
#[derive(Debug)]
pub struct RawResponse {
    pub status: u16,
    /// The length that the server declared, in bytes, if it declared one.
    pub content_length: Option<u64>,
    pub headers: Vec<RawHeader>,
    pub cookies: Vec<RawCookie>,
}

/// How an exchange with the server ended.
#[derive(Debug)]
pub enum Exchange {
    /// No response came; the text says what the transport reported.
    Failed(String),
    /// A response came. Its body was read as text, or reading it failed with
    /// the given report.
    Answered { head: RawResponse, body: Result<String, String> },
}

/// A completed response, as shown. Built once and not changed afterwards.
/// For diagnosis it is written by `short_form`, which leaves the body out.
#[derive(PartialEq, Eq)]
pub struct ResponseData {
    pub url: String,
    pub text: String,
    pub status: u16,
    /// The declared length in bytes; absent where the server gave none.
    pub content_length: Option<u64>,
    /// All headers, in the order received, repeated names included.
    pub headers: Vec<(String, String)>,
    pub cookies: Vec<Cookie>,
}

/// What a `ResponseData` holds, as mathematical values.
pub struct ResponseView {
    pub url: Seq<char>,
    pub text: Seq<char>,
    pub status: u16,
    pub content_length: Option<u64>,
    pub headers: Seq<(Seq<char>, Seq<char>)>,
    pub cookies: Seq<CookieView>,
}

/// The names and values of a header list, as texts.
pub open spec fn header_views(headers: Seq<(String, String)>) -> Seq<(Seq<char>, Seq<char>)> {
    Seq::new(headers.len(), |i: int| (headers[i].0@, headers[i].1@))
}

/// The cookies of a jar, as values.
pub open spec fn cookie_views(cookies: Seq<Cookie>) -> Seq<CookieView> {
    Seq::new(cookies.len(), |i: int| cookies[i]@)
}

impl View for ResponseData {
    type V = ResponseView;

    open spec fn view(&self) -> ResponseView {
        ResponseView {
            url: self.url@,
            text: self.text@,
            status: self.status,
            content_length: self.content_length,
            headers: header_views(self.headers@),
            cookies: cookie_views(self.cookies@),
        }
    }
}

/// A byte that may stand in a header value shown as text: printable ASCII,
/// the space, or a tab.
pub open spec fn is_visible(b: u8) -> bool {
    32 <= b < 127 || b == 9
}

/// Whether every byte is visible.
pub open spec fn all_visible(bytes: Seq<u8>) -> bool {
    forall|i: int| 0 <= i < bytes.len() ==> is_visible(#[trigger] bytes[i])
}

/// The text of a header value: its bytes read as characters where all of
/// them are visible, and the empty text otherwise.
pub open spec fn header_text(bytes: Seq<u8>) -> Seq<char> {
    if all_visible(bytes) {
        Seq::new(bytes.len(), |i: int| bytes[i] as char)
    } else {
        Seq::empty()
    }
}

/// The decoded form of a raw header list.
pub open spec fn decoded_headers(raw: Seq<RawHeader>) -> Seq<(Seq<char>, Seq<char>)> {
    Seq::new(raw.len(), |i: int| (raw[i].name@, header_text(raw[i].value@)))
}

/// The decoded form of a raw cookie list.
pub open spec fn decoded_cookies(raw: Seq<RawCookie>) -> Seq<CookieView> {
    Seq::new(raw.len(), |i: int| decoded(raw[i], expiry_text(raw[i])))
}

/// What decoding makes of an exchange that was made for `url`.
pub open spec fn decoded_exchange(url: Seq<char>, exchange: Exchange) -> Result<
    ResponseView,
    FetchError,
> {
    match exchange {
        Exchange::Failed(report) => Err(FetchError::TransportFailure(report)),
        Exchange::Answered { head, body } => match body {
            Err(report) => Err(FetchError::DecodeFailure(report)),
            Ok(text) => Ok(
                ResponseView {
                    url: url,
                    text: text@,
                    status: head.status,
                    content_length: head.content_length,
                    headers: decoded_headers(head.headers@),
                    cookies: decoded_cookies(head.cookies@),
                },
            ),
        },
    }
}

/// The outcome as values: the view of the response, or the error.
pub open spec fn outcome_view(outcome: Result<ResponseData, FetchError>) -> Result<
    ResponseView,
    FetchError,
> {
    match outcome {
        Ok(model) => Ok(model@),
        Err(e) => Err(e),
    }
}

/// Calls `std::str::from_utf8`: the text is there exactly where the bytes are
/// well-formed UTF-8, and it is then the characters that the bytes encode.
#[verifier::external_body]
fn utf8_str(bytes: &[u8]) -> (text: Option<&str>)
    ensures
        text.is_some() == valid_utf8(bytes@),
        text matches Some(t) ==> t@ == decode_utf8(bytes@),
{
    std::str::from_utf8(bytes).ok()
}

/// Visible bytes are UTF-8 as they stand, one character each.
proof fn visible_bytes_are_text(bytes: Seq<u8>)
    requires
        all_visible(bytes),
    ensures
        valid_utf8(bytes),
        decode_utf8(bytes) == Seq::new(bytes.len(), |i: int| bytes[i] as char),
{
    let chars = Seq::new(bytes.len(), |i: int| bytes[i] as char);
    assert(is_ascii_chars(chars)) by {
        assert forall|i: int| 0 <= i < chars.len() implies '\0' <= #[trigger] chars[i]
            <= '\u{7f}' by {
            assert(is_visible(bytes[i]));
        }
    }
    vstd::utf8::is_ascii_chars_encode_utf8(chars);
    assert(encode_utf8(chars) =~= bytes) by {
        assert forall|i: int| 0 <= i < bytes.len() implies encode_utf8(chars)[i] == bytes[i] by {
            assert(is_visible(bytes[i]));
            assert(chars[i] as u8 == bytes[i]);
        }
    }
    vstd::utf8::encode_utf8_valid_utf8(chars);
    vstd::utf8::encode_utf8_decode_utf8(chars);
}

/// Whether a byte may stand in a header value shown as text.
pub fn visible(b: u8) -> (yes: bool)
    ensures
        yes == is_visible(b),
{
    (32 <= b && b < 127) || b == 9
}

/// Reads a header value as text. A value with a byte that is not visible
/// reads as the empty text.
pub fn header_value_text(bytes: &Vec<u8>) -> (text: String)
    ensures
        text@ == header_text(bytes@),
{
    let mut i: usize = 0;
    while i < bytes.len()
        invariant
            i <= bytes.len(),
            forall|j: int| 0 <= j < i ==> is_visible(#[trigger] bytes@[j]),
        decreases bytes.len() - i,
    {
        if !visible(bytes[i]) {
            return String::new();
        }
        i += 1;
    }
    proof {
        visible_bytes_are_text(bytes@);
    }
    match utf8_str(bytes.as_slice()) {
        Some(t) => String::from_str(t),
        None => String::new(),
    }
}

/// The length of a text in bytes, as it is held in memory.
pub open spec fn byte_len(text: Seq<char>) -> nat {
    encode_utf8(text).len()
}

/// One header written for diagnosis from the written forms of its name and
/// value.
pub open spec fn header_form_text(name: Seq<char>, value: Seq<char>) -> Seq<char> {
    "("@ + name + ", "@ + value + ")"@
}

/// A list as it is written for diagnosis.
pub open spec fn listed(entries: Seq<Seq<char>>) -> Seq<char> {
    "["@ + joined(entries, ", "@) + "]"@
}

/// An optional number as it is written for diagnosis.
pub open spec fn optional_number_text(held: Option<u64>) -> Seq<char> {
    match held {
        Some(n) => "Some("@ + decimal_text(n as nat) + ")"@,
        None => "None"@,
    }
}

/// A response written for diagnosis from the written forms of its address,
/// headers and cookies: every field with its name, on one line, but of the
/// body only its length, `text_len`.
pub open spec fn response_form_text(
    url: Seq<char>,
    text_len: nat,
    status: u16,
    content_length: Option<u64>,
    headers: Seq<Seq<char>>,
    cookies: Seq<Seq<char>>,
) -> Seq<char> {
    "ResponseData { url: "@ + url + ", text_len: "@ + decimal_text(text_len) + ", status: "@
        + decimal_text(status as nat) + ", content_length: "@ + optional_number_text(
        content_length,
    ) + ", headers: "@ + listed(headers) + ", cookies: "@ + listed(cookies) + " }"@
}

/// A response as it is written for diagnosis: its texts quoted, the body
/// left out.
pub open spec fn short_form_text(v: ResponseView, text_len: nat) -> Seq<char> {
    response_form_text(
        quoted_text(v.url),
        text_len,
        v.status,
        v.content_length,
        Seq::new(
            v.headers.len(),
            |i: int| header_form_text(quoted_text(v.headers[i].0), quoted_text(v.headers[i].1)),
        ),
        Seq::new(v.cookies.len(), |i: int| cookie_short_form(v.cookies[i])),
    )
}

/// Writes one header for diagnosis from the written forms of its name and
/// value.
pub fn header_form(name: &str, value: &str) -> (entry: String)
    ensures
        entry@ == header_form_text(name@, value@),
{
    let mut entry = String::from_str("(");
    entry.append(name);
    entry.append(", ");
    entry.append(value);
    entry.append(")");
    entry
}

fn list_entry(entries: &Vec<String>) -> (text: String)
    ensures
        text@ == listed(texts(entries@)),
{
    let mut text = String::from_str("[");
    text.append(join(entries, ", ").as_str());
    text.append("]");
    text
}

/// Writes a response for diagnosis from the written forms of its address,
/// headers and cookies, and the length of its body.
pub fn response_form(
    url: &str,
    text_len: usize,
    status: u16,
    content_length: Option<u64>,
    headers: &Vec<String>,
    cookies: &Vec<String>,
) -> (text: String)
    ensures
        text@ == response_form_text(
            url@,
            text_len as nat,
            status,
            content_length,
            texts(headers@),
            texts(cookies@),
        ),
{
    let mut text = String::from_str("ResponseData { url: ");
    text.append(url);
    text.append(", text_len: ");
    text.append(decimal(text_len as u64).as_str());
    text.append(", status: ");
    text.append(decimal(status as u64).as_str());
    text.append(", content_length: ");
    match content_length {
        Some(n) => {
            let ghost before = text@;
            text.append("Some(");
            text.append(decimal(n).as_str());
            text.append(")");
            assert(text@ =~= before + ("Some("@ + decimal_text(n as nat) + ")"@));
        },
        None => {
            text.append("None");
        },
    }
    text.append(", headers: ");
    text.append(list_entry(headers).as_str());
    text.append(", cookies: ");
    text.append(list_entry(cookies).as_str());
    text.append(" }");
    text
}

impl ResponseData {
    /// The length of the body in bytes.
    pub fn text_len(&self) -> (len: usize)
        ensures
            len == byte_len(self.text@) as usize,
    {
        self.text.as_str().len()
    }

    /// The response written for diagnosis. The body is left out; its length
    /// stands for it.
    pub fn short_form(&self) -> (text: String)
        ensures
            text@ == short_form_text(self@, byte_len(self.text@) as usize as nat),
    {
        let mut headers: Vec<String> = Vec::new();
        let mut i: usize = 0;
        while i < self.headers.len()
            invariant
                i <= self.headers.len(),
                headers@.len() == i,
                forall|j: int|
                    0 <= j < i ==> (#[trigger] headers@[j])@ == header_form_text(
                        quoted_text(self@.headers[j].0),
                        quoted_text(self@.headers[j].1),
                    ),
            decreases self.headers.len() - i,
        {
            let name = quoted(self.headers[i].0.as_str());
            let value = quoted(self.headers[i].1.as_str());
            headers.push(header_form(name.as_str(), value.as_str()));
            i += 1;
        }
        assert(texts(headers@) =~= Seq::new(
            self@.headers.len(),
            |i: int|
                header_form_text(
                    quoted_text(self@.headers[i].0),
                    quoted_text(self@.headers[i].1),
                ),
        ));
        let mut cookies: Vec<String> = Vec::new();
        let mut k: usize = 0;
        while k < self.cookies.len()
            invariant
                k <= self.cookies.len(),
                cookies@.len() == k,
                forall|j: int|
                    0 <= j < k ==> (#[trigger] cookies@[j])@ == cookie_short_form(
                        self@.cookies[j],
                    ),
            decreases self.cookies.len() - k,
        {
            let entry = self.cookies[k].short_form();
            cookies.push(entry);
            k += 1;
        }
        assert(texts(cookies@) =~= Seq::new(
            self@.cookies.len(),
            |i: int| cookie_short_form(self@.cookies[i]),
        ));
        let url = quoted(self.url.as_str());
        response_form(
            url.as_str(),
            self.text_len(),
            self.status,
            self.content_length,
            &headers,
            &cookies,
        )
    }

    /// The class of the response's status code.
    pub fn category(&self) -> (category: StatusCategory)
        ensures
            category == category_of(self.status),
    {
        let status = self.status;
        if 100 <= status && status < 200 {
            StatusCategory::Informational
        } else if 200 <= status && status < 300 {
            StatusCategory::Success
        } else if 300 <= status && status < 400 {
            StatusCategory::Redirection
        } else if 400 <= status && status < 500 {
            StatusCategory::ClientError
        } else if 500 <= status && status < 600 {
            StatusCategory::ServerError
        } else {
            StatusCategory::Unclassified
        }
    }
}

/// Decodes a header list: every header, in the order received.
pub fn decode_headers(raw: &Vec<RawHeader>) -> (headers: Vec<(String, String)>)
    ensures
        header_views(headers@) == decoded_headers(raw@),
{
    let mut headers: Vec<(String, String)> = Vec::new();
    let mut i: usize = 0;
    while i < raw.len()
        invariant
            i <= raw.len(),
            headers@.len() == i,
            forall|j: int|
                0 <= j < i ==> (#[trigger] headers@[j]).0@ == raw@[j].name@ && headers@[j].1@
                    == header_text(raw@[j].value@),
        decreases raw.len() - i,
    {
        let name = raw[i].name.clone();
        let value = header_value_text(&raw[i].value);
        headers.push((name, value));
        i += 1;
    }
    assert(header_views(headers@) =~= decoded_headers(raw@));
    headers
}

/// Whether each cookie of a jar has an expiry exactly where its raw record
/// has one that can be written as a date.
pub open spec fn expiries_as_sent(cookies: Seq<CookieView>, raw: Seq<RawCookie>) -> bool {
    cookies.len() == raw.len() && forall|i: int|
        0 <= i < raw.len() ==> ((#[trigger] cookies[i]).expires.is_some() <==> expiry_shown(
            raw[i],
        ))
}

/// Decodes a cookie list: every cookie, in the order received.
pub fn decode_cookies(raw: &Vec<RawCookie>) -> (cookies: Vec<Cookie>)
    ensures
        cookie_views(cookies@) == decoded_cookies(raw@),
        expiries_as_sent(cookie_views(cookies@), raw@),
{
    let mut cookies: Vec<Cookie> = Vec::new();
    let mut i: usize = 0;
    while i < raw.len()
        invariant
            i <= raw.len(),
            cookies@.len() == i,
            forall|j: int|
                0 <= j < i ==> (#[trigger] cookies@[j])@ == decoded(raw@[j], expiry_text(raw@[j])),
            forall|j: int|
                0 <= j < i ==> ((#[trigger] cookies@[j])@.expires.is_some() <==> expiry_shown(
                    raw@[j],
                )),
        decreases raw.len() - i,
    {
        let cookie = Cookie::decode(&raw[i]);
        cookies.push(cookie);
        i += 1;
    }
    assert(cookie_views(cookies@) =~= decoded_cookies(raw@));
    cookies
}

/// Turns a finished exchange into the outcome that the interface shows. A
/// response is shown only whole: where the body could not be read, the
/// outcome is the failure and nothing of the response.
pub fn decode_exchange(url: String, exchange: Exchange) -> (outcome: Result<
    ResponseData,
    FetchError,
>)
    ensures
        outcome_view(outcome) == decoded_exchange(url@, exchange),
        match (outcome, exchange) {
            (Ok(model), Exchange::Answered { head, body }) => expiries_as_sent(
                model@.cookies,
                head.cookies@,
            ),
            _ => true,
        },
{
    match exchange {
        Exchange::Failed(report) => Err(FetchError::TransportFailure(report)),
        Exchange::Answered { head, body } => {
            let headers = decode_headers(&head.headers);
            let cookies = decode_cookies(&head.cookies);
            match body {
                Err(report) => Err(FetchError::DecodeFailure(report)),
                Ok(text) => Ok(
                    ResponseData {
                        url,
                        text,
                        status: head.status,
                        content_length: head.content_length,
                        headers,
                        cookies,
                    },
                ),
            }
        },
    }
}

} // verus!
