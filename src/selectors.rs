use vstd::prelude::*;
use wasm_bindgen::JsValue;
use web_sys::{Document, Element, HtmlCollection, Node, NodeList};

use crate::collection::materialize;
use crate::error::{host_result, require_success, HostError};
use crate::global::{document, document_missing, document_obtained};
use crate::host::{document_element_by_id, document_query_selector, document_query_selector_all};

verus! {

/// `o` is what the host may answer when `d` is asked for the element whose
/// id is `id`.
pub closed spec fn element_by_id_answer(d: Document, id: &str, o: Option<Element>) -> bool {
    call_ensures(document_element_by_id, (&d, id), o)
}

/// `o` is what the host may answer when `d` is asked for the first element
/// that matches `selector`.
pub closed spec fn query_answer(d: Document, selector: &str, o: Result<Option<Element>, JsValue>) -> bool {
    call_ensures(document_query_selector, (&d, selector), o)
}

/// `o` is what the host may answer when `d` is asked for every element that
/// matches `selector`.
pub closed spec fn query_all_answer(d: Document, selector: &str, o: Result<NodeList, JsValue>) -> bool {
    call_ensures(document_query_selector_all, (&d, selector), o)
}

/// `c` is a collection that the page's document may hand out for the class
/// names `classname`.
pub open spec fn class_collection(classname: &str, c: HtmlCollection) -> bool {
    exists|d: Document| document_obtained(d) && #[trigger] call_ensures(Document::get_elements_by_class_name, (&d, classname), c)
}

/// `v` is what draining `c` gives: each `v[k]` is what `c.item(k)` may
/// answer, and `c.item(v.len())` may answer that there is nothing more.
pub open spec fn elements_drained(c: HtmlCollection, v: Seq<Element>) -> bool {
    &&& forall|k: int| 0 <= k < v.len() ==> #[trigger] call_ensures(HtmlCollection::item, (&c, k as u32), Some(v[k]))
    &&& v.len() <= u32::MAX ==> call_ensures(HtmlCollection::item, (&c, v.len() as u32), None::<Element>)
}

/// `v` is what draining `l` gives: each `v[k]` is what `l.item(k)` may
/// answer, and `l.item(v.len())` may answer that there is nothing more.
pub open spec fn nodes_drained(l: NodeList, v: Seq<Node>) -> bool {
    &&& forall|k: int| 0 <= k < v.len() ==> #[trigger] call_ensures(NodeList::item, (&l, k as u32), Some(v[k]))
    &&& v.len() <= u32::MAX ==> call_ensures(NodeList::item, (&l, v.len() as u32), None::<Node>)
}

/// The element whose id is `id`: `Ok(None)` where the document holds none.
pub fn get_element_by_id(id: &str) -> (r: Result<Option<Element>, HostError>)
    ensures
        (document_missing() && r == Err::<Option<Element>, HostError>(HostError::HostUnavailable))
            || (exists|d: Document, o: Option<Element>| document_obtained(d) && #[trigger] element_by_id_answer(d, id, o) && r == Ok::<Option<Element>, HostError>(o)),
{
    let document = match document() {
        Ok(v) => v,
        Err(e) => return Err(e),
    };
    let outcome = document_element_by_id(&document, id);
    proof {
        assert(element_by_id_answer(document, id, outcome));
    }
    Ok(outcome)
}

/// The live collection of the elements that carry every class of `classname`.
pub fn get_elements_by_classname(classname: &str) -> (r: Result<HtmlCollection, HostError>)
    ensures
        (document_missing() && r == Err::<HtmlCollection, HostError>(HostError::HostUnavailable))
            || (r is Ok && class_collection(classname, r->Ok_0)),
{
    let document = match document() {
        Ok(v) => v,
        Err(e) => return Err(e),
    };
    let elements = document.get_elements_by_class_name(classname);
    proof {
        assert(call_ensures(Document::get_elements_by_class_name, (&document, classname), elements));
    }
    Ok(elements)
}

/// The elements that carry every class of `classname`, copied out of the
/// live collection into a `Vec`, in document order. No match gives an empty
/// `Vec`.
pub fn get_elements_by_classname_inside_vec(classname: &str) -> (r: Result<Vec<Element>, HostError>)
    ensures
        (document_missing() && r == Err::<Vec<Element>, HostError>(HostError::HostUnavailable))
            || (r is Ok && exists|c: HtmlCollection| #[trigger] class_collection(classname, c) && elements_drained(c, r->Ok_0@)),
{
    let elements = match get_elements_by_classname(classname) {
        Ok(v) => v,
        Err(e) => return Err(e),
    };
    let probe = |i: u32| -> (item: Option<Element>)
        ensures
            call_ensures(HtmlCollection::item, (&elements, i), item),
    {
        elements.item(i)
    };
    let v = materialize(probe);
    proof {
        assert forall|k: int| 0 <= k < v@.len() implies #[trigger] call_ensures(HtmlCollection::item, (&elements, k as u32), Some(v@[k])) by {
            assert(probe.ensures((k as u32,), Some(v@[k])));
        }
        if v@.len() <= u32::MAX {
            assert(probe.ensures((v@.len() as u32,), None::<Element>));
        }
        assert(class_collection(classname, elements) && elements_drained(elements, v@));
    }
    Ok(v)
}

/// The first element that matches the CSS selector `selector`: `Ok(None)`
/// where none does, `HostUnavailable` where the selector is invalid.
pub fn query_selector(selector: &str) -> (r: Result<Option<Element>, HostError>)
    ensures
        (document_missing() && r == Err::<Option<Element>, HostError>(HostError::HostUnavailable))
            || (exists|d: Document, o: Result<Option<Element>, JsValue>| document_obtained(d) && #[trigger] query_answer(d, selector, o) && r == host_result(o)),
{
    let document = match document() {
        Ok(v) => v,
        Err(e) => return Err(e),
    };
    let outcome = document_query_selector(&document, selector);
    proof {
        assert(query_answer(document, selector, outcome));
    }
    require_success(outcome)
}

/// The static list of the elements that match the CSS selector `selector`;
/// `HostUnavailable` where the selector is invalid.
pub fn query_selector_all(selector: &str) -> (r: Result<NodeList, HostError>)
    ensures
        (document_missing() && r == Err::<NodeList, HostError>(HostError::HostUnavailable))
            || (exists|d: Document, o: Result<NodeList, JsValue>| document_obtained(d) && #[trigger] query_all_answer(d, selector, o) && r == host_result(o)),
{
    let document = match document() {
        Ok(v) => v,
        Err(e) => return Err(e),
    };
    let outcome = document_query_selector_all(&document, selector);
    proof {
        assert(query_all_answer(document, selector, outcome));
    }
    require_success(outcome)
}

/// The nodes that match the CSS selector `selector`, in a `Vec`, in document
/// order. No match gives an empty `Vec`; an invalid selector gives
/// `HostUnavailable` and no `Vec`.
pub fn query_selector_all_inside_vec(selector: &str) -> (r: Result<Vec<Node>, HostError>)
    ensures
        (document_missing() && r == Err::<Vec<Node>, HostError>(HostError::HostUnavailable))
            || (exists|d: Document, o: Result<NodeList, JsValue>| document_obtained(d) && #[trigger] query_all_answer(d, selector, o) && match o {
                Ok(l) => r is Ok && nodes_drained(l, r->Ok_0@),
                Err(_) => r == Err::<Vec<Node>, HostError>(HostError::HostUnavailable),
            }),
{
    let document = match document() {
        Ok(v) => v,
        Err(e) => return Err(e),
    };
    let outcome = document_query_selector_all(&document, selector);
    proof {
        assert(query_all_answer(document, selector, outcome));
    }
    let nodes = match outcome {
        Ok(l) => l,
        Err(_) => return Err(HostError::HostUnavailable),
    };
    let probe = |i: u32| -> (item: Option<Node>)
        ensures
            call_ensures(NodeList::item, (&nodes, i), item),
    {
        nodes.item(i)
    };
    let v = materialize(probe);
    proof {
        assert forall|k: int| 0 <= k < v@.len() implies #[trigger] call_ensures(NodeList::item, (&nodes, k as u32), Some(v@[k])) by {
            assert(probe.ensures((k as u32,), Some(v@[k])));
        }
        if v@.len() <= u32::MAX {
            assert(probe.ensures((v@.len() as u32,), None::<Node>));
        }
        assert(nodes_drained(nodes, v@));
    }
    Ok(v)
}

} // verus!
