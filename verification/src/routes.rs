//! The replies of the demo server's cookie and fallback routes, worked out
//! from what the request carried.

use vstd::prelude::*;
use vstd::string::StringExecFns;

verus! {

/// The query of the cookie routes. With `stay` present, whatever it holds,
/// the reply stays on the route instead of redirecting.
#[derive(Debug)]
pub struct QueryData {
    pub stay: Option<String>,
}

/// The failure of a handler. Every such failure is answered with the same
/// status.
#[derive(Debug)]
pub struct HandlerError(pub String);

/// The status that a handler's failure is answered with.
pub const HANDLER_ERROR_STATUS: u16 = 418;

impl HandlerError {
    /// The status of the reply to a failed handler.
    pub fn status_code(&self) -> (status: u16)
        ensures
            status == HANDLER_ERROR_STATUS,
    {
        HANDLER_ERROR_STATUS
    }

    /// What the failure says.
    pub fn message(&self) -> (text: String)
        ensures
            text@ == self.0@,
    {
        self.0.clone()
    }
}

/// The cookie that a reply sets. With `removal`, the browser is told to
/// forget the cookie of that name.
#[derive(Debug, PartialEq, Eq)]
pub struct CookieOrder {
    pub name: String,
    pub value: String,
    pub path: String,
    pub removal: bool,
}

/// A reply of the demo server.
#[derive(Debug, PartialEq, Eq)]
pub struct Reply {
    pub status: u16,
    /// Where a redirecting reply sends the client.
    pub location: Option<String>,
    pub cookie: Option<CookieOrder>,
    pub body: String,
}

/// What a `Reply` holds, as mathematical values.
pub struct ReplyView {
    pub status: u16,
    pub location: Option<Seq<char>>,
    pub cookie: Option<CookieOrderView>,
    pub body: Seq<char>,
}

/// What a `CookieOrder` holds, as mathematical values.
pub struct CookieOrderView {
    pub name: Seq<char>,
    pub value: Seq<char>,
    pub path: Seq<char>,
    pub removal: bool,
}

impl View for CookieOrder {
    type V = CookieOrderView;

    open spec fn view(&self) -> CookieOrderView {
        CookieOrderView {
            name: self.name@,
            value: self.value@,
            path: self.path@,
            removal: self.removal,
        }
    }
}

impl View for Reply {
    type V = ReplyView;

    open spec fn view(&self) -> ReplyView {
        ReplyView {
            status: self.status,
            location: match self.location {
                Some(l) => Some(l@),
                None => None,
            },
            cookie: match self.cookie {
                Some(c) => Some(c@),
                None => None,
            },
            body: self.body@,
        }
    }
}

/// The reply that goes with a cookie order: a redirect to the cookie list
/// with an empty body, or, where the query asks to stay, a plain
/// confirmation.
pub open spec fn cookie_reply(order: CookieOrderView, stay: bool, confirmation: Seq<char>)
    -> ReplyView {
    if stay {
        ReplyView { status: 200, location: None, cookie: Some(order), body: confirmation }
    } else {
        ReplyView {
            status: 303,
            location: Some("/cookies/"@),
            cookie: Some(order),
            body: Seq::empty(),
        }
    }
}

/// The reply to a request that sets a cookie.
pub open spec fn cookie_set_reply(name: Seq<char>, value: Seq<char>, stay: bool) -> ReplyView {
    cookie_reply(
        CookieOrderView { name: name, value: value, path: "/"@, removal: false },
        stay,
        "set cookie: "@ + name + " = "@ + value,
    )
}

/// The reply to a request that deletes a cookie.
pub open spec fn cookie_expire_reply(name: Seq<char>, stay: bool) -> ReplyView {
    cookie_reply(
        CookieOrderView { name: name, value: Seq::empty(), path: "/"@, removal: true },
        stay,
        "removed cookie: "@ + name,
    )
}

fn reply_with(order: CookieOrder, stay: bool, confirmation: String) -> (reply: Reply)
    ensures
        reply@ == cookie_reply(order@, stay, confirmation@),
{
    if stay {
        Reply { status: 200, location: None, cookie: Some(order), body: confirmation }
    } else {
        Reply {
            status: 303,
            location: Some(String::from_str("/cookies/")),
            cookie: Some(order),
            body: String::new(),
        }
    }
}

/// Sets the cookie `name` to `value` for the whole site, and redirects to
/// the cookie list unless the query asks to stay.
pub fn cookie_set(name: String, value: String, query: &QueryData) -> (reply: Reply)
    ensures
        reply@ == cookie_set_reply(name@, value@, query.stay.is_some()),
{
    let mut confirmation = String::from_str("set cookie: ");
    confirmation.append(name.as_str());
    confirmation.append(" = ");
    confirmation.append(value.as_str());
    let order = CookieOrder { name, value, path: String::from_str("/"), removal: false };
    reply_with(order, query.stay.is_some(), confirmation)
}

/// Has the cookie `name` forgotten, and redirects to the cookie list unless
/// the query asks to stay.
pub fn cookie_expire(name: String, query: &QueryData) -> (reply: Reply)
    ensures
        reply@ == cookie_expire_reply(name@, query.stay.is_some()),
{
    let mut confirmation = String::from_str("removed cookie: ");
    confirmation.append(name.as_str());
    let order = CookieOrder {
        name,
        value: String::new(),
        path: String::from_str("/"),
        removal: true,
    };
    reply_with(order, query.stay.is_some(), confirmation)
}

/// The reply to a path that no route serves.
pub fn not_found() -> (reply: Reply)
    ensures
        reply@ == (ReplyView {
            status: 404,
            location: None,
            cookie: None,
            body: "404 - Not found\n"@,
        }),
{
    Reply { status: 404, location: None, cookie: None, body: String::from_str("404 - Not found\n") }
}

} // verus!
