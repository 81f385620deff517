//! The host environment as the library sees it: the web-sys types it passes
//! through, and the web-sys calls it makes. What each call returns depends on
//! the page the code runs in, so none of these promises anything of its result.
use vstd::prelude::*;
use wasm_bindgen::closure::Closure;
use wasm_bindgen::{JsCast, JsValue};
use web_sys::{Document, Element, HtmlCollection, HtmlElement, Location, Node, NodeList, Window};

verus! {

#[verifier::external_type_specification]
#[verifier::external_body]
pub struct ExJsValue(JsValue);

#[verifier::external_type_specification]
#[verifier::external_body]
pub struct ExWindow(Window);

#[verifier::external_type_specification]
#[verifier::external_body]
pub struct ExDocument(Document);

#[verifier::external_type_specification]
#[verifier::external_body]
pub struct ExLocation(Location);

#[verifier::external_type_specification]
#[verifier::external_body]
pub struct ExElement(Element);

#[verifier::external_type_specification]
#[verifier::external_body]
pub struct ExHtmlElement(HtmlElement);

#[verifier::external_type_specification]
#[verifier::external_body]
pub struct ExNode(Node);

#[verifier::external_type_specification]
#[verifier::external_body]
pub struct ExHtmlCollection(HtmlCollection);

#[verifier::external_type_specification]
#[verifier::external_body]
pub struct ExNodeList(NodeList);

/// The global `window`, absent outside a browser page.
pub assume_specification[ web_sys::window ]() -> Option<Window>;

/// Relies on web-sys's `Window::document`: the window's `document`, absent
/// where the window has none.
#[verifier::external_body]
pub(crate) fn window_document(window: &Window) -> (r: Option<Document>) {
    window.document()
}

/// `window.alert(message)`; fails where the host refuses the dialog.
pub assume_specification[ Window::alert_with_message ](this: &Window, message: &str) -> Result<(), JsValue>;

/// `window.prompt(message)`: `None` where the user dismissed the dialog.
pub assume_specification[ Window::prompt_with_message ](this: &Window, message: &str) -> Result<Option<String>, JsValue>;

/// `window.clearTimeout(handle)`: cancels the pending timer with that
/// identifier, if any.
pub assume_specification[ Window::clear_timeout_with_handle ](this: &Window, handle: i32);

/// `window.clearInterval(handle)`: cancels the repeating timer with that
/// identifier, if any.
pub assume_specification[ Window::clear_interval_with_handle ](this: &Window, handle: i32);

/// Relies on web-sys's `Document::location`: absent for a document without a
/// browsing context.
#[verifier::external_body]
pub(crate) fn document_location(document: &Document) -> (r: Option<Location>) {
    document.location()
}

/// Relies on web-sys's `Document::body`: absent while the document has none.
#[verifier::external_body]
pub(crate) fn document_body(document: &Document) -> (r: Option<HtmlElement>) {
    document.body()
}

/// Relies on web-sys's `Document::create_element`: fails on a name that is not
/// a valid tag.
#[verifier::external_body]
pub(crate) fn document_create_element(document: &Document, local_name: &str) -> (r: Result<Element, JsValue>) {
    document.create_element(local_name)
}

/// Relies on web-sys's `Document::get_element_by_id`.
#[verifier::external_body]
pub(crate) fn document_element_by_id(document: &Document, element_id: &str) -> (r: Option<Element>) {
    document.get_element_by_id(element_id)
}

/// `document.getElementsByClassName(class_names)`, a live collection.
pub assume_specification[ Document::get_elements_by_class_name ](this: &Document, class_names: &str) -> HtmlCollection;

/// Relies on web-sys's `Document::query_selector`: fails on an invalid selector.
#[verifier::external_body]
pub(crate) fn document_query_selector(document: &Document, selectors: &str) -> (r: Result<Option<Element>, JsValue>) {
    document.query_selector(selectors)
}

/// Relies on web-sys's `Document::query_selector_all`: fails on an invalid
/// selector.
#[verifier::external_body]
pub(crate) fn document_query_selector_all(document: &Document, selectors: &str) -> (r: Result<NodeList, JsValue>) {
    document.query_selector_all(selectors)
}

/// `location.href`, the full URL of the page.
pub assume_specification[ Location::href ](this: &Location) -> Result<String, JsValue>;

/// `location.hostname`.
pub assume_specification[ Location::hostname ](this: &Location) -> Result<String, JsValue>;

/// `location.pathname`.
pub assume_specification[ Location::pathname ](this: &Location) -> Result<String, JsValue>;

/// Relies on web-sys's `Location::reload`.
#[verifier::external_body]
pub(crate) fn location_reload(location: &Location) -> (r: Result<(), JsValue>) {
    location.reload()
}

/// `collection.item(index)`: the element at `index`, absent past the end.
pub assume_specification[ HtmlCollection::item ](this: &HtmlCollection, index: u32) -> Option<Element>;

/// `list.item(index)`: the node at `index`, absent past the end.
pub assume_specification[ NodeList::item ](this: &NodeList, index: u32) -> Option<Node>;

/// Relies on wasm-bindgen's `Closure::wrap` to turn `handler` into a host
/// function, kept alive for every later call, and on web-sys's
/// `Window::set_timeout_with_callback_and_timeout_and_arguments_0` to register
/// it to run once after `delay` milliseconds. `Ok` holds the host's identifier.
#[verifier::external_body]
pub(crate) fn schedule_once<T: Fn() + 'static>(window: &Window, handler: T, delay: i32) -> (r: Result<i32, JsValue>) {
    let callback = Closure::wrap(Box::new(handler) as Box<dyn Fn()>);
    let result = window.set_timeout_with_callback_and_timeout_and_arguments_0(callback.as_ref().unchecked_ref(), delay);
    callback.forget();
    result
}

/// Relies on wasm-bindgen's `Closure::wrap` to turn `handler` into a host
/// function, kept alive for every later call, and on web-sys's
/// `Window::set_interval_with_callback_and_timeout_and_arguments_0` to
/// register it to run every `interval` milliseconds. `Ok` holds the host's
/// identifier.
#[verifier::external_body]
pub(crate) fn schedule_repeating<T: Fn() + 'static>(window: &Window, handler: T, interval: i32) -> (r: Result<i32, JsValue>) {
    let callback = Closure::wrap(Box::new(handler) as Box<dyn Fn()>);
    let result = window.set_interval_with_callback_and_timeout_and_arguments_0(callback.as_ref().unchecked_ref(), interval);
    callback.forget();
    result
}

} // verus!
