use vstd::prelude::*;
use wasm_bindgen::JsValue;
use web_sys::{Document, Element, HtmlElement, Location, Window};

use crate::error::{host_result, host_value, require_present, require_success, HostError};
use crate::host::{document_body, document_create_element, document_location, location_reload, window_document};

verus! {

/// `w` is a window that the host may hand out as the global `window`.
pub closed spec fn window_obtained(w: Window) -> bool {
    call_ensures(web_sys::window, (), Some(w))
}

/// The host may report that there is no global `window`.
pub closed spec fn window_missing() -> bool {
    call_ensures(web_sys::window, (), None::<Window>)
}

/// `d` is a document that the host may hand out as the window's `document`.
pub closed spec fn document_obtained(d: Document) -> bool {
    exists|w: Window| window_obtained(w) && #[trigger] call_ensures(window_document, (&w,), Some(d))
}

/// The host may report that there is no window, or that the window has no document.
pub closed spec fn document_missing() -> bool {
    ||| window_missing()
    ||| exists|w: Window| window_obtained(w) && #[trigger] call_ensures(window_document, (&w,), None::<Document>)
}

/// `l` is a location that the host may hand out as the document's `location`.
pub closed spec fn location_obtained(l: Location) -> bool {
    exists|d: Document| document_obtained(d) && #[trigger] call_ensures(document_location, (&d,), Some(l))
}

/// The host may report that there is no document, or that it has no location.
pub closed spec fn location_missing() -> bool {
    ||| document_missing()
    ||| exists|d: Document| document_obtained(d) && #[trigger] call_ensures(document_location, (&d,), None::<Location>)
}

/// `b` is what the host may answer for `d`'s `body`.
pub closed spec fn body_answer(d: Document, b: Option<HtmlElement>) -> bool {
    call_ensures(document_body, (&d,), b)
}

/// `o` is what the host may answer when asked to reload from `l`.
pub closed spec fn reload_answer(l: Location, o: Result<(), JsValue>) -> bool {
    call_ensures(location_reload, (&l,), o)
}

/// `o` is what the host may answer when `d` is asked to create an element
/// of the tag `name`.
pub closed spec fn create_answer(d: Document, name: &str, o: Result<Element, JsValue>) -> bool {
    call_ensures(document_create_element, (&d, name), o)
}

/// The global `window` object, or `HostUnavailable` outside a browser page.
pub(crate) fn host_window() -> (r: Result<Window, HostError>)
    ensures
        match r {
            Ok(w) => window_obtained(w),
            Err(_) => window_missing(),
        },
{
    let window = web_sys::window();
    require_present(window)
}

/// The page's `document`.
pub fn document() -> (r: Result<Document, HostError>)
    ensures
        match r {
            Ok(d) => document_obtained(d),
            Err(_) => document_missing(),
        },
{
    let window = match host_window() {
        Ok(w) => w,
        Err(e) => return Err(e),
    };
    let document = window_document(&window);
    require_present(document)
}

/// The document's `location`.
pub fn location() -> (r: Result<Location, HostError>)
    ensures
        match r {
            Ok(l) => location_obtained(l),
            Err(_) => location_missing(),
        },
{
    let document = match document() {
        Ok(d) => d,
        Err(e) => return Err(e),
    };
    let location = document_location(&document);
    require_present(location)
}

/// The full URL of the page (`location.href`).
pub fn url() -> (r: Result<String, HostError>)
    ensures
        (location_missing() && r == Err::<String, HostError>(HostError::HostUnavailable))
            || (exists|l: Location, o: Result<String, JsValue>| location_obtained(l) && #[trigger] call_ensures(Location::href, (&l,), o) && r == host_result(o)),
{
    let location = match location() {
        Ok(v) => v,
        Err(e) => return Err(e),
    };
    let outcome = location.href();
    proof {
        assert(call_ensures(Location::href, (&location,), outcome));
    }
    require_success(outcome)
}

/// The document's `<body>` element.
pub fn body() -> (r: Result<HtmlElement, HostError>)
    ensures
        (document_missing() && r == Err::<HtmlElement, HostError>(HostError::HostUnavailable))
            || (exists|d: Document, o: Option<HtmlElement>| document_obtained(d) && #[trigger] body_answer(d, o) && r == host_value(o)),
{
    let document = match document() {
        Ok(v) => v,
        Err(e) => return Err(e),
    };
    let outcome = document_body(&document);
    proof {
        assert(body_answer(document, outcome));
    }
    require_present(outcome)
}

/// The host name of the page's URL (`location.hostname`).
pub fn domain_name() -> (r: Result<String, HostError>)
    ensures
        (location_missing() && r == Err::<String, HostError>(HostError::HostUnavailable))
            || (exists|l: Location, o: Result<String, JsValue>| location_obtained(l) && #[trigger] call_ensures(Location::hostname, (&l,), o) && r == host_result(o)),
{
    let location = match location() {
        Ok(v) => v,
        Err(e) => return Err(e),
    };
    let outcome = location.hostname();
    proof {
        assert(call_ensures(Location::hostname, (&location,), outcome));
    }
    require_success(outcome)
}

/// The path of the page's URL (`location.pathname`).
pub fn path_name() -> (r: Result<String, HostError>)
    ensures
        (location_missing() && r == Err::<String, HostError>(HostError::HostUnavailable))
            || (exists|l: Location, o: Result<String, JsValue>| location_obtained(l) && #[trigger] call_ensures(Location::pathname, (&l,), o) && r == host_result(o)),
{
    let location = match location() {
        Ok(v) => v,
        Err(e) => return Err(e),
    };
    let outcome = location.pathname();
    proof {
        assert(call_ensures(Location::pathname, (&location,), outcome));
    }
    require_success(outcome)
}

/// Reloads the page (`location.reload()`).
pub fn reload() -> (r: Result<(), HostError>)
    ensures
        (location_missing() && r == Err::<(), HostError>(HostError::HostUnavailable))
            || (exists|l: Location, o: Result<(), JsValue>| location_obtained(l) && #[trigger] reload_answer(l, o) && r == host_result(o)),
{
    let location = match location() {
        Ok(v) => v,
        Err(e) => return Err(e),
    };
    let outcome = location_reload(&location);
    proof {
        assert(reload_answer(location, outcome));
    }
    require_success(outcome)
}

/// Shows a blocking alert dialog with `msg`.
pub fn alert(msg: &str) -> (r: Result<(), HostError>)
    ensures
        (window_missing() && r == Err::<(), HostError>(HostError::HostUnavailable))
            || (exists|w: Window, o: Result<(), JsValue>| window_obtained(w) && #[trigger] call_ensures(Window::alert_with_message, (&w, msg), o) && r == host_result(o)),
{
    let window = match host_window() {
        Ok(v) => v,
        Err(e) => return Err(e),
    };
    let outcome = window.alert_with_message(msg);
    proof {
        assert(call_ensures(Window::alert_with_message, (&window, msg), outcome));
    }
    require_success(outcome)
}

/// Shows a blocking prompt with `msg`: `Ok(Some(text))` with what the user
/// entered, `Ok(None)` where the user dismissed it.
pub fn prompt(msg: &str) -> (r: Result<Option<String>, HostError>)
    ensures
        (window_missing() && r == Err::<Option<String>, HostError>(HostError::HostUnavailable))
            || (exists|w: Window, o: Result<Option<String>, JsValue>| window_obtained(w) && #[trigger] call_ensures(Window::prompt_with_message, (&w, msg), o) && r == host_result(o)),
{
    let window = match host_window() {
        Ok(v) => v,
        Err(e) => return Err(e),
    };
    let outcome = window.prompt_with_message(msg);
    proof {
        assert(call_ensures(Window::prompt_with_message, (&window, msg), outcome));
    }
    require_success(outcome)
}

/// Creates an element of the tag `element_name`; `HostUnavailable` where the
/// name is not a valid tag.
pub fn create_element(element_name: &str) -> (r: Result<Element, HostError>)
    ensures
        (document_missing() && r == Err::<Element, HostError>(HostError::HostUnavailable))
            || (exists|d: Document, o: Result<Element, JsValue>| document_obtained(d) && #[trigger] create_answer(d, element_name, o) && r == host_result(o)),
{
    let document = match document() {
        Ok(v) => v,
        Err(e) => return Err(e),
    };
    let outcome = document_create_element(&document, element_name);
    proof {
        assert(create_answer(document, element_name, outcome));
    }
    require_success(outcome)
}

} // verus!
