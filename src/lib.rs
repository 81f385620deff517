//! Frequently used browser operations for Rust compiled to WebAssembly.
//!
//! The library wraps the host's document, location, dialog and timer
//! capabilities. Its own logic is verified: draining an indexable host
//! collection into a `Vec`, tying each timer handle to the identifier that the
//! host issued, and turning host failures into a recoverable error. Each
//! public function states that its result is one the host's answers allow.
mod collection;
mod error;
mod global;
mod host;
mod selectors;
mod timer;

pub use collection::{drained_by, item_at, lemma_materialize_exact, materialize};
pub use error::{host_result, host_value, require_present, require_success, HostError};
pub use global::{
    alert, body, create_element, document, domain_name, location, path_name, prompt, reload, url,
};
pub use selectors::{
    get_element_by_id, get_elements_by_classname, get_elements_by_classname_inside_vec,
    query_selector, query_selector_all, query_selector_all_inside_vec,
};
pub use timer::{clear_interval, clear_timeout, set_interval, set_timeout, Interval, Timeout};
