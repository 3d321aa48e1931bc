//! Cookies of a response, decoded for display, and the modes they are
//! rendered in.

use vstd::prelude::*;
use vstd::string::StringExecFns;

verus! {

/// How a cookie is rendered in the cookie jar.
#[derive(Debug, Clone, Copy, PartialEq, Eq, Structural)]
pub enum CookieDisplayMode {
    NameOnly,
    NameValue,
    Pretty,
    SingleLine,
}

impl Default for CookieDisplayMode {
    fn default() -> (mode: Self)
        ensures
            mode == CookieDisplayMode::NameValue,
    {
        CookieDisplayMode::NameValue
    }
}

impl CookieDisplayMode {
    /// The text shown beside the selector of this mode.
    pub open spec fn label_text(self) -> Seq<char> {
        match self {
            CookieDisplayMode::NameOnly => "Name Only"@,
            CookieDisplayMode::NameValue => "Name and Value"@,
            CookieDisplayMode::Pretty => "Pretty"@,
            CookieDisplayMode::SingleLine => "Single Line"@,
        }
    }

    /// The word under which this mode is stored among the preferences.
    pub open spec fn stored_text(self) -> Seq<char> {
        match self {
            CookieDisplayMode::NameOnly => "NameOnly"@,
            CookieDisplayMode::NameValue => "NameValue"@,
            CookieDisplayMode::Pretty => "Pretty"@,
            CookieDisplayMode::SingleLine => "SingleLine"@,
        }
    }

    /// The mode that a stored word stands for, if it stands for one.
    pub open spec fn parse_stored(word: Seq<char>) -> Option<CookieDisplayMode> {
        if word == "NameOnly"@ {
            Some(CookieDisplayMode::NameOnly)
        } else if word == "NameValue"@ {
            Some(CookieDisplayMode::NameValue)
        } else if word == "Pretty"@ {
            Some(CookieDisplayMode::Pretty)
        } else if word == "SingleLine"@ {
            Some(CookieDisplayMode::SingleLine)
        } else {
            None
        }
    }

    /// Human-readable name of the mode.
    pub fn label(&self) -> (text: String)
        ensures
            text@ == self.label_text(),
    {
        match self {
            CookieDisplayMode::NameOnly => String::from_str("Name Only"),
            CookieDisplayMode::NameValue => String::from_str("Name and Value"),
            CookieDisplayMode::Pretty => String::from_str("Pretty"),
            CookieDisplayMode::SingleLine => String::from_str("Single Line"),
        }
    }

    /// Encodes the mode as the word that is kept in the preference store.
    pub fn to_stored(&self) -> (word: String)
        ensures
            word@ == self.stored_text(),
            Self::parse_stored(word@) == Some(*self),
    {
        proof {
            Self::stored_form_round_trips(*self);
        }
        match self {
            CookieDisplayMode::NameOnly => String::from_str("NameOnly"),
            CookieDisplayMode::NameValue => String::from_str("NameValue"),
            CookieDisplayMode::Pretty => String::from_str("Pretty"),
            CookieDisplayMode::SingleLine => String::from_str("SingleLine"),
        }
    }

    /// Decodes a word of the preference store; any other word is no mode.
    pub fn from_stored(word: &str) -> (mode: Option<CookieDisplayMode>)
        ensures
            mode == Self::parse_stored(word@),
    {
        let owned = String::from_str(word);
        if owned == String::from_str("NameOnly") {
            Some(CookieDisplayMode::NameOnly)
        } else if owned == String::from_str("NameValue") {
            Some(CookieDisplayMode::NameValue)
        } else if owned == String::from_str("Pretty") {
            Some(CookieDisplayMode::Pretty)
        } else if owned == String::from_str("SingleLine") {
            Some(CookieDisplayMode::SingleLine)
        } else {
            None
        }
    }

    /// Storing a mode and reading the stored word back gives the same mode,
    /// whichever mode it is.
    pub proof fn stored_form_round_trips(mode: CookieDisplayMode)
        ensures
            Self::parse_stored(mode.stored_text()) == Some(mode),
    {
        reveal_strlit("NameOnly");
        reveal_strlit("NameValue");
        reveal_strlit("Pretty");
        reveal_strlit("SingleLine");
        assert("NameOnly"@.len() == 8);
        assert("NameValue"@.len() == 9);
        assert("Pretty"@.len() == 6);
        assert("SingleLine"@.len() == 10);
    }
}

/// An absolute instant as a response states it for a cookie's expiry: whole
/// seconds counted from the start of 1970 (UTC), or some instant before that.
#[derive(Debug, Clone, Copy, PartialEq, Eq, Structural)]
pub enum Expiry {
    BeforeEpoch,
    SecondsSinceEpoch(u64),
}

/// A cookie record as the transport hands it over.
#[derive(Debug, Clone, PartialEq, Eq)]
pub struct RawCookie {
    pub name: String,
    pub value: String,
    pub expires: Option<Expiry>,
    pub max_age: Option<u64>,
    pub domain: Option<String>,
    pub path: Option<String>,
    pub secure: bool,
    pub http_only: bool,
}

/// A cookie ready for display. Name and value are always there; every other
/// attribute is there exactly if the server sent it.
#[derive(Debug, Clone, PartialEq, Eq)]
pub struct Cookie {
    /// The cookie's name.
    pub name: String,
    /// The cookie's value.
    pub value: String,
    /// The cookie's expiration as readable text, if any.
    pub expires: Option<String>,
    /// The cookie's maximum age in seconds, if any.
    pub max_age: Option<String>,
    /// The cookie's domain, if any.
    pub domain: Option<String>,
    /// The cookie's path, if any.
    pub path: Option<String>,
    /// Whether this cookie was marked Secure.
    pub secure: bool,
    /// Whether this cookie was marked HttpOnly.
    pub http_only: bool,
}

/// What a `Cookie` holds, as mathematical values.
pub struct CookieView {
    pub name: Seq<char>,
    pub value: Seq<char>,
    pub expires: Option<Seq<char>>,
    pub max_age: Option<Seq<char>>,
    pub domain: Option<Seq<char>>,
    pub path: Option<Seq<char>>,
    pub secure: bool,
    pub http_only: bool,
}

/// The text of an optional string.
pub open spec fn text_of(s: Option<String>) -> Option<Seq<char>> {
    match s {
        Some(t) => Some(t@),
        None => None,
    }
}

impl View for Cookie {
    type V = CookieView;

    open spec fn view(&self) -> CookieView {
        CookieView {
            name: self.name@,
            value: self.value@,
            expires: text_of(self.expires),
            max_age: text_of(self.max_age),
            domain: text_of(self.domain),
            path: text_of(self.path),
            secure: self.secure,
            http_only: self.http_only,
        }
    }
}

/// The texts of a list of strings, in order.
pub open spec fn texts(v: Seq<String>) -> Seq<Seq<char>> {
    Seq::new(v.len(), |i: int| v[i]@)
}

/// How a yes/no flag is written.
pub open spec fn flag_text(flag: bool) -> Seq<char> {
    if flag {
        "yes"@
    } else {
        "no"@
    }
}

/// One attribute: its key, `" = "`, and what it holds.
pub open spec fn attribute(key: Seq<char>, held: Seq<char>) -> Seq<char> {
    key + " = "@ + held
}

/// The attribute of an optional field: one entry where the field is present,
/// none where it is absent.
pub open spec fn optional_attribute(key: Seq<char>, held: Option<Seq<char>>) -> Seq<Seq<char>> {
    match held {
        Some(t) => seq![attribute(key, t)],
        None => Seq::empty(),
    }
}

/// The attributes that follow the name, in their fixed order.
pub open spec fn attributes(c: CookieView) -> Seq<Seq<char>> {
    optional_attribute("expires"@, c.expires) + optional_attribute("max_age"@, c.max_age)
        + optional_attribute("domain"@, c.domain) + optional_attribute("path"@, c.path)
        + seq![
        attribute("secure"@, flag_text(c.secure)),
        attribute("http_only"@, flag_text(c.http_only)),
        attribute("value"@, c.value),
    ]
}

/// Each entry on a line of its own, behind a tab.
pub open spec fn indented_lines(entries: Seq<Seq<char>>) -> Seq<char>
    decreases entries.len(),
{
    if entries.len() == 0 {
        Seq::empty()
    } else {
        indented_lines(entries.drop_last()) + "\t"@ + entries.last() + "\n"@
    }
}

/// The entries in order, with `separator` between neighbours.
pub open spec fn joined(entries: Seq<Seq<char>>, separator: Seq<char>) -> Seq<char>
    decreases entries.len(),
{
    if entries.len() == 0 {
        Seq::empty()
    } else if entries.len() == 1 {
        entries[0]
    } else {
        joined(entries.drop_last(), separator) + separator + entries.last()
    }
}

/// What a cookie looks like in a given mode.
pub open spec fn rendered(c: CookieView, mode: CookieDisplayMode) -> Seq<char> {
    match mode {
        CookieDisplayMode::NameOnly => c.name,
        CookieDisplayMode::NameValue => c.name + " = "@ + c.value,
        CookieDisplayMode::Pretty => c.name + indented_lines(attributes(c)) + "---\n"@,
        CookieDisplayMode::SingleLine => joined(seq![c.name] + attributes(c), ", "@),
    }
}

/// Writes a yes/no flag.
pub fn flag_word(flag: bool) -> (word: &'static str)
    ensures
        word@ == flag_text(flag),
{
    if flag {
        "yes"
    } else {
        "no"
    }
}

/// Joins the entries in order, with `separator` between neighbours.
pub fn join(entries: &Vec<String>, separator: &str) -> (text: String)
    ensures
        text@ == joined(texts(entries@), separator@),
{
    if entries.len() == 0 {
        return String::new();
    }
    let mut text = entries[0].clone();
    let mut i: usize = 1;
    assert(texts(entries@).take(1) =~= seq![entries@[0]@]);
    while i < entries.len()
        invariant
            1 <= i <= entries.len(),
            text@ == joined(texts(entries@).take(i as int), separator@),
        decreases entries.len() - i,
    {
        let ghost done = texts(entries@).take(i as int);
        let ghost next = texts(entries@).take(i + 1);
        assert(next.drop_last() =~= done);
        assert(next.last() == entries@[i as int]@);
        text.append(separator);
        text.append(entries[i].as_str());
        i += 1;
    }
    assert(texts(entries@).take(i as int) =~= texts(entries@));
    text
}

fn attribute_entry(key: &str, held: &str) -> (entry: String)
    ensures
        entry@ == attribute(key@, held@),
{
    let mut entry = String::from_str(key);
    entry.append(" = ");
    entry.append(held);
    entry
}

impl Cookie {
    /// The attributes that follow the name: the optional ones that are
    /// present, then `secure`, `http_only` and `value`.
    pub fn non_name_fields(&self) -> (fields: Vec<String>)
        ensures
            texts(fields@) == attributes(self@),
    {
        let mut fields: Vec<String> = Vec::new();
        assert(texts(fields@) =~= Seq::<Seq<char>>::empty());
        if let Some(x) = &self.expires {
            let entry = attribute_entry("expires", x.as_str());
            let ghost before = fields@;
            fields.push(entry);
            assert(texts(fields@) =~= texts(before) + seq![entry@]);
        }
        if let Some(x) = &self.max_age {
            let entry = attribute_entry("max_age", x.as_str());
            let ghost before = fields@;
            fields.push(entry);
            assert(texts(fields@) =~= texts(before) + seq![entry@]);
        }
        if let Some(x) = &self.domain {
            let entry = attribute_entry("domain", x.as_str());
            let ghost before = fields@;
            fields.push(entry);
            assert(texts(fields@) =~= texts(before) + seq![entry@]);
        }
        if let Some(x) = &self.path {
            let entry = attribute_entry("path", x.as_str());
            let ghost before = fields@;
            fields.push(entry);
            assert(texts(fields@) =~= texts(before) + seq![entry@]);
        }
        let ghost optional = texts(fields@);
        let secure = attribute_entry("secure", flag_word(self.secure));
        let http_only = attribute_entry("http_only", flag_word(self.http_only));
        let value = attribute_entry("value", self.value.as_str());
        fields.push(secure);
        fields.push(http_only);
        fields.push(value);
        assert(texts(fields@) =~= optional + seq![secure@, http_only@, value@]);
        assert(optional =~= optional_attribute("expires"@, self@.expires) + optional_attribute(
            "max_age"@,
            self@.max_age,
        ) + optional_attribute("domain"@, self@.domain) + optional_attribute(
            "path"@,
            self@.path,
        ));
        fields
    }

    /// Renders the cookie in the given mode.
    pub fn display(&self, mode: CookieDisplayMode) -> (text: String)
        ensures
            text@ == rendered(self@, mode),
            mode == CookieDisplayMode::NameValue ==> text@ == self.name@ + " = "@ + self.value@,
    {
        match mode {
            CookieDisplayMode::NameOnly => self.name.clone(),
            CookieDisplayMode::NameValue => {
                let mut text = self.name.clone();
                text.append(" = ");
                text.append(self.value.as_str());
                text
            },
            CookieDisplayMode::Pretty => {
                let fields = self.non_name_fields();
                let mut text = self.name.clone();
                let mut i: usize = 0;
                while i < fields.len()
                    invariant
                        i <= fields.len(),
                        text@ == self.name@ + indented_lines(texts(fields@).take(i as int)),
                    decreases fields.len() - i,
                {
                    let ghost done = texts(fields@).take(i as int);
                    let ghost next = texts(fields@).take(i + 1);
                    assert(next.drop_last() =~= done);
                    assert(next.last() == fields@[i as int]@);
                    text.append("\t");
                    text.append(fields[i].as_str());
                    text.append("\n");
                    assert(text@ =~= self.name@ + indented_lines(next));
                    i += 1;
                }
                assert(texts(fields@).take(i as int) =~= texts(fields@));
                text.append("---\n");
                text
            },
            CookieDisplayMode::SingleLine => {
                let mut entries: Vec<String> = Vec::new();
                entries.push(self.name.clone());
                let mut fields = self.non_name_fields();
                let ghost rest = texts(fields@);
                entries.append(&mut fields);
                assert(texts(entries@) =~= seq![self.name@] + rest);
                join(&entries, ", ")
            },
        }
    }
}

/// The decimal digit that stands for a number below ten.
pub open spec fn digit_text(d: nat) -> Seq<char> {
    if d == 0 {
        "0"@
    } else if d == 1 {
        "1"@
    } else if d == 2 {
        "2"@
    } else if d == 3 {
        "3"@
    } else if d == 4 {
        "4"@
    } else if d == 5 {
        "5"@
    } else if d == 6 {
        "6"@
    } else if d == 7 {
        "7"@
    } else if d == 8 {
        "8"@
    } else {
        "9"@
    }
}

/// A number written in decimal, without sign or leading zeros.
pub open spec fn decimal_text(n: nat) -> Seq<char>
    decreases n,
{
    if n < 10 {
        digit_text(n)
    } else {
        decimal_text(n / 10) + digit_text(n % 10)
    }
}

fn digit_word(d: u64) -> (word: &'static str)
    requires
        d < 10,
    ensures
        word@ == digit_text(d as nat),
{
    if d == 0 {
        "0"
    } else if d == 1 {
        "1"
    } else if d == 2 {
        "2"
    } else if d == 3 {
        "3"
    } else if d == 4 {
        "4"
    } else if d == 5 {
        "5"
    } else if d == 6 {
        "6"
    } else if d == 7 {
        "7"
    } else if d == 8 {
        "8"
    } else {
        "9"
    }
}

/// Writes a number of seconds in decimal.
pub fn decimal(n: u64) -> (text: String)
    ensures
        text@ == decimal_text(n as nat),
    decreases n,
{
    if n < 10 {
        String::from_str(digit_word(n))
    } else {
        let mut text = decimal(n / 10);
        text.append(digit_word(n % 10));
        text
    }
}

/// The second at which an expiry falls, counted from the start of 1970. An
/// instant before 1970 has none, and neither has one too far off to count in
/// a signed 64-bit number: such an expiry cannot be converted.
pub open spec fn expiry_second(at: Expiry) -> Option<int> {
    match at {
        Expiry::BeforeEpoch => None,
        Expiry::SecondsSinceEpoch(n) => if n <= i64::MAX {
            Some(n as int)
        } else {
            None
        },
    }
}

impl Expiry {
    /// The second at which this expiry falls, where it can be converted.
    pub fn second(&self) -> (second: Option<i64>)
        ensures
            match expiry_second(*self) {
                Some(s) => second == Some(s as i64),
                None => second.is_none(),
            },
    {
        match self {
            Expiry::BeforeEpoch => None,
            Expiry::SecondsSinceEpoch(n) => if *n <= 0x7fff_ffff_ffff_ffff {
                Some(*n as i64)
            } else {
                None
            },
        }
    }
}

/// The last second that the calendar can write as a date: the end of the
/// last day of the year 262142.
pub const LAST_CALENDAR_SECOND: i64 = 8_210_266_876_799;

/// Whether an expiry can be written as a date: it falls at or after the
/// start of 1970 and within the calendar.
pub open spec fn has_date(at: Expiry) -> bool {
    match at {
        Expiry::BeforeEpoch => false,
        Expiry::SecondsSinceEpoch(n) => n <= LAST_CALENDAR_SECOND,
    }
}

/// The date and time (UTC) at a number of seconds from the start of 1970, as
/// text; none where the calendar in use cannot hold that second.
pub uninterp spec fn calendar_text(second: int) -> Option<Seq<char>>;

/// Calls `chrono::DateTime::from_timestamp` with the given second and no
/// nanoseconds, and where that gives a date, `to_string` on it. Nothing is
/// proved of the text; it is taken to depend on the second alone, as the
/// conversion reads no clock, time zone or locale. Of a second from 1970 on
/// it is further taken that the date is there exactly up to the last day
/// that `NaiveDate` holds, 31 December of its `MAX_YEAR`, 262142.
#[verifier::external_body]
fn calendar_string(second: i64) -> (text: Option<String>)
    ensures
        text_of(text) == calendar_text(second as int),
        0 <= second ==> (text.is_some() <==> second <= LAST_CALENDAR_SECOND),
{
    chrono::DateTime::from_timestamp(second, 0).map(|t| t.to_string())
}

/// What decoding makes of a raw record, given the text of its expiry.
pub open spec fn decoded(raw: RawCookie, expires: Option<Seq<char>>) -> CookieView {
    CookieView {
        name: raw.name@,
        value: raw.value@,
        expires: expires,
        max_age: match raw.max_age {
            Some(n) => Some(decimal_text(n as nat)),
            None => None,
        },
        domain: text_of(raw.domain),
        path: text_of(raw.path),
        secure: raw.secure,
        http_only: raw.http_only,
    }
}

/// The text of a raw record's expiry: absent where the record has none,
/// where the instant cannot be converted, and where the calendar cannot
/// write it as a date.
pub open spec fn expiry_text(raw: RawCookie) -> Option<Seq<char>> {
    match raw.expires {
        Some(at) => match expiry_second(at) {
            Some(second) => calendar_text(second),
            None => None,
        },
        None => None,
    }
}

/// Whether a raw record has an expiry that can be written as a date.
pub open spec fn expiry_shown(raw: RawCookie) -> bool {
    match raw.expires {
        Some(at) => has_date(at),
        None => false,
    }
}

fn copy_of(s: &Option<String>) -> (copy: Option<String>)
    ensures
        text_of(copy) == text_of(*s),
{
    match s {
        Some(t) => Some(t.clone()),
        None => None,
    }
}

impl Cookie {
    /// Builds the cookie from a raw record and the readable form of its
    /// expiry. Nothing is invented: an absent attribute stays absent.
    pub fn assemble(raw: &RawCookie, expires: Option<String>) -> (cookie: Cookie)
        ensures
            cookie@ == decoded(*raw, text_of(expires)),
    {
        let max_age = match raw.max_age {
            Some(n) => Some(decimal(n)),
            None => None,
        };
        Cookie {
            name: raw.name.clone(),
            value: raw.value.clone(),
            expires,
            max_age,
            domain: copy_of(&raw.domain),
            path: copy_of(&raw.path),
            secure: raw.secure,
            http_only: raw.http_only,
        }
    }

    /// Decodes a raw record. An expiry that cannot be written as a date
    /// (one before 1970, or beyond the calendar) is left out, never replaced
    /// by another date; the cookie is decoded all the same.
    pub fn decode(raw: &RawCookie) -> (cookie: Cookie)
        ensures
            cookie@ == decoded(*raw, expiry_text(*raw)),
            cookie@.expires.is_some() <==> expiry_shown(*raw),
    {
        let expires = match raw.expires {
            Some(at) => match at.second() {
                Some(second) => calendar_string(second),
                None => None,
            },
            None => None,
        };
        Cookie::assemble(raw, expires)
    }
}

/// An expiry that cannot be converted, because it falls before 1970 or too
/// far off to count, is absent from the decoded cookie: no other date
/// stands in for it.
pub proof fn unconvertible_expiry_is_absent(raw: RawCookie)
    requires
        raw.expires matches Some(at) && expiry_second(at).is_none(),
    ensures
        expiry_text(raw).is_none(),
        decoded(raw, expiry_text(raw)).expires.is_none(),
        !expiry_shown(raw),
{
}

/// A text as it is written for diagnosis: in double quotes, with the
/// characters that cannot stand there as they are escaped.
pub uninterp spec fn quoted_text(s: Seq<char>) -> Seq<char>;

/// Calls the `Debug` formatting that std has for a string slice, which
/// quotes and escapes it. Nothing is proved of the text; it depends on the
/// slice alone.
#[verifier::external_body]
pub(crate) fn quoted(s: &str) -> (text: String)
    ensures
        text@ == quoted_text(s@),
{
    format!("{:?}", s)
}

/// The quoted form of an optional text.
pub open spec fn optional_quoted_text(held: Option<Seq<char>>) -> Option<Seq<char>> {
    match held {
        Some(t) => Some(quoted_text(t)),
        None => None,
    }
}

/// An optional entry as it is written for diagnosis.
pub open spec fn optional_entry_text(held: Option<Seq<char>>) -> Seq<char> {
    match held {
        Some(t) => "Some("@ + t + ")"@,
        None => "None"@,
    }
}

/// A cookie written for diagnosis from the written forms of its fields: every
/// field with its name, on one line.
pub open spec fn cookie_form_text(
    name: Seq<char>,
    value: Seq<char>,
    expires: Option<Seq<char>>,
    max_age: Option<Seq<char>>,
    domain: Option<Seq<char>>,
    path: Option<Seq<char>>,
    secure: Seq<char>,
    http_only: Seq<char>,
) -> Seq<char> {
    "Cookie { name: "@ + name + ", value: "@ + value + ", expires: "@ + optional_entry_text(
        expires,
    ) + ", max_age: "@ + optional_entry_text(max_age) + ", domain: "@ + optional_entry_text(
        domain,
    ) + ", path: "@ + optional_entry_text(path) + ", secure: "@ + secure + ", http_only: "@
        + http_only + " }"@
}

/// A cookie as it is written for diagnosis: its texts quoted, its flags as
/// the quoted words for yes and no.
pub open spec fn cookie_short_form(c: CookieView) -> Seq<char> {
    cookie_form_text(
        quoted_text(c.name),
        quoted_text(c.value),
        optional_quoted_text(c.expires),
        optional_quoted_text(c.max_age),
        optional_quoted_text(c.domain),
        optional_quoted_text(c.path),
        quoted_text(flag_text(c.secure)),
        quoted_text(flag_text(c.http_only)),
    )
}

fn append_optional_entry(text: &mut String, held: &Option<String>)
    ensures
        final(text)@ == old(text)@ + optional_entry_text(text_of(*held)),
{
    match held {
        Some(t) => {
            let ghost before = text@;
            text.append("Some(");
            text.append(t.as_str());
            text.append(")");
            assert(text@ =~= before + ("Some("@ + t@ + ")"@));
        },
        None => {
            text.append("None");
        },
    }
}

fn optional_quoted(held: &Option<String>) -> (written: Option<String>)
    ensures
        text_of(written) == optional_quoted_text(text_of(*held)),
{
    match held {
        Some(t) => Some(quoted(t.as_str())),
        None => None,
    }
}

/// Writes a cookie for diagnosis from the written forms of its fields.
pub fn cookie_form(
    name: &str,
    value: &str,
    expires: &Option<String>,
    max_age: &Option<String>,
    domain: &Option<String>,
    path: &Option<String>,
    secure: &str,
    http_only: &str,
) -> (text: String)
    ensures
        text@ == cookie_form_text(
            name@,
            value@,
            text_of(*expires),
            text_of(*max_age),
            text_of(*domain),
            text_of(*path),
            secure@,
            http_only@,
        ),
{
    let mut text = String::from_str("Cookie { name: ");
    text.append(name);
    text.append(", value: ");
    text.append(value);
    text.append(", expires: ");
    append_optional_entry(&mut text, expires);
    text.append(", max_age: ");
    append_optional_entry(&mut text, max_age);
    text.append(", domain: ");
    append_optional_entry(&mut text, domain);
    text.append(", path: ");
    append_optional_entry(&mut text, path);
    text.append(", secure: ");
    text.append(secure);
    text.append(", http_only: ");
    text.append(http_only);
    text.append(" }");
    text
}

impl Cookie {
    /// The cookie written for diagnosis.
    pub fn short_form(&self) -> (text: String)
        ensures
            text@ == cookie_short_form(self@),
    {
        let name = quoted(self.name.as_str());
        let value = quoted(self.value.as_str());
        let expires = optional_quoted(&self.expires);
        let max_age = optional_quoted(&self.max_age);
        let domain = optional_quoted(&self.domain);
        let path = optional_quoted(&self.path);
        let secure = quoted(flag_word(self.secure));
        let http_only = quoted(flag_word(self.http_only));
        cookie_form(
            name.as_str(),
            value.as_str(),
            &expires,
            &max_age,
            &domain,
            &path,
            secure.as_str(),
            http_only.as_str(),
        )
    }
}

/// Whether `text` begins with `prefix`.
pub open spec fn begins_with(text: Seq<char>, prefix: Seq<char>) -> bool {
    prefix.len() <= text.len() && text.subrange(0, prefix.len() as int) == prefix
}

/// A cookie without expiry, domain and path is rendered without them: its
/// attributes are the maximum age, if it has one, and the three that are
/// always there, so no entry for an absent attribute appears in any mode,
/// neither filled nor empty.
pub proof fn absent_attributes_are_omitted(c: CookieView)
    requires
        c.expires.is_none(),
        c.domain.is_none(),
        c.path.is_none(),
    ensures
        attributes(c) == optional_attribute("max_age"@, c.max_age) + seq![
            attribute("secure"@, flag_text(c.secure)),
            attribute("http_only"@, flag_text(c.http_only)),
            attribute("value"@, c.value),
        ],
        forall|i: int|
            0 <= i < attributes(c).len() ==> {
                &&& !begins_with(#[trigger] attributes(c)[i], "expires = "@)
                &&& !begins_with(attributes(c)[i], "domain = "@)
                &&& !begins_with(attributes(c)[i], "path = "@)
            },
{
    let rest = seq![
        attribute("secure"@, flag_text(c.secure)),
        attribute("http_only"@, flag_text(c.http_only)),
        attribute("value"@, c.value),
    ];
    assert(attributes(c) =~= optional_attribute("max_age"@, c.max_age) + rest);
    reveal_strlit("expires = ");
    reveal_strlit("domain = ");
    reveal_strlit("path = ");
    reveal_strlit("max_age");
    reveal_strlit("secure");
    reveal_strlit("http_only");
    reveal_strlit("value");
    reveal_strlit(" = ");
    assert forall|i: int| 0 <= i < attributes(c).len() implies {
        &&& !begins_with(#[trigger] attributes(c)[i], "expires = "@)
        &&& !begins_with(attributes(c)[i], "domain = "@)
        &&& !begins_with(attributes(c)[i], "path = "@)
    } by {
        let entry = attributes(c)[i];
        assert(entry.len() > 0);
        let first = entry[0];
        assert(first == 'm' || first == 's' || first == 'h' || first == 'v');
        assert("expires = "@[0] == 'e');
        assert("domain = "@[0] == 'd');
        assert("path = "@[0] == 'p');
        if begins_with(entry, "expires = "@) {
            assert(entry.subrange(0, "expires = "@.len() as int)[0] == entry[0]);
        }
        if begins_with(entry, "domain = "@) {
            assert(entry.subrange(0, "domain = "@.len() as int)[0] == entry[0]);
        }
        if begins_with(entry, "path = "@) {
            assert(entry.subrange(0, "path = "@.len() as int)[0] == entry[0]);
        }
    }
}

} // verus!
