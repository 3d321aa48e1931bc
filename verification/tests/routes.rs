use fetch_slot::page::{settings_need_saving, ShouldClose};
use fetch_slot::routes::{
    cookie_expire, cookie_set, not_found, CookieOrder, HandlerError, QueryData, Reply,
    HANDLER_ERROR_STATUS,
};

fn lang_cookie() -> CookieOrder {
    CookieOrder {
        name: "lang".to_string(),
        value: "en".to_string(),
        path: "/".to_string(),
        removal: false,
    }
}

#[test]
fn setting_a_cookie_redirects_to_the_list() {
    let reply = cookie_set("lang".to_string(), "en".to_string(), &QueryData { stay: None });
    assert_eq!(
        reply,
        Reply {
            status: 303,
            location: Some("/cookies/".to_string()),
            cookie: Some(lang_cookie()),
            body: String::new(),
        }
    );
}

#[test]
fn setting_a_cookie_with_stay_confirms() {
    let query = QueryData { stay: Some("1".to_string()) };
    let reply = cookie_set("lang".to_string(), "en".to_string(), &query);
    assert_eq!(
        reply,
        Reply {
            status: 200,
            location: None,
            cookie: Some(lang_cookie()),
            body: "set cookie: lang = en".to_string(),
        }
    );
}

#[test]
fn an_empty_stay_flag_still_stays() {
    let query = QueryData { stay: Some(String::new()) };
    let reply = cookie_set("a".to_string(), "b".to_string(), &query);
    assert_eq!(reply.status, 200);
    assert_eq!(reply.body, "set cookie: a = b");
}

#[test]
fn deleting_a_cookie_redirects_to_the_list() {
    let reply = cookie_expire("lang".to_string(), &QueryData { stay: None });
    assert_eq!(reply.status, 303);
    assert_eq!(reply.location, Some("/cookies/".to_string()));
    assert_eq!(reply.body, "");
    assert_eq!(
        reply.cookie,
        Some(CookieOrder {
            name: "lang".to_string(),
            value: String::new(),
            path: "/".to_string(),
            removal: true,
        })
    );
}

#[test]
fn deleting_a_cookie_with_stay_confirms() {
    let query = QueryData { stay: Some("yes".to_string()) };
    let reply = cookie_expire("lang".to_string(), &query);
    assert_eq!(reply.status, 200);
    assert_eq!(reply.location, None);
    assert_eq!(reply.body, "removed cookie: lang");
    assert!(reply.cookie.unwrap().removal);
}

#[test]
fn unmatched_paths_get_the_not_found_reply() {
    assert_eq!(
        not_found(),
        Reply { status: 404, location: None, cookie: None, body: "404 - Not found\n".to_string() }
    );
}

#[test]
fn handler_failures_are_answered_as_teapots() {
    let failure = HandlerError("failed to access list of cookies".to_string());
    assert_eq!(failure.status_code(), 418);
    assert_eq!(HANDLER_ERROR_STATUS, 418);
    assert_eq!(failure.message(), "failed to access list of cookies");
}

#[test]
fn the_settings_window_closes_when_closed() {
    assert_eq!(ShouldClose::after_frame(true), ShouldClose::LeaveOpen);
    assert_eq!(ShouldClose::after_frame(false), ShouldClose::Close);
}

#[test]
fn settings_are_saved_when_new_or_changed() {
    assert!(settings_need_saving(false, false));
    assert!(settings_need_saving(false, true));
    assert!(settings_need_saving(true, true));
    assert!(!settings_need_saving(true, false));
}
