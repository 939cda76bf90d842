//! Element (reusable character) requests: the components formed from the
//! given images, and the pre-process and create requests.
use vstd::prelude::*;
use crate::text::owned;
use crate::failure::{self, Failure};
use crate::task_body::{self, JsonField};
use crate::validators::{self, validate_element_preprocess, ElementBody, ElementFields, JsonList};

verus! {

/// One image of an element: the first is the main image, the others are
/// auxiliary; its content and source are the image reference.
#[derive(Debug)]
pub struct Component {
    pub content: String,
    pub src_img: String,
    pub content_type: String,
    pub kind: String,
}

/// Fewest and most images an element takes.
pub open spec fn images_in_range(n: nat) -> bool {
    1 <= n <= 3
}

/// The component formed from image `u` at position `i`.
pub open spec fn component_ok(c: Component, u: Seq<char>, i: int) -> bool {
    &&& c.content@ == u
    &&& c.src_img@ == u
    &&& c.content_type@ == "image"@
    &&& c.kind@ == (if i == 0 {
        "main"@
    } else {
        "auxiliary"@
    })
}

/// The components formed from the images, in order; fails unless there
/// are 1 to 3 images.
pub fn element_components(images: &Vec<String>) -> (r: Result<Vec<Component>, Failure>)
    ensures
        match r {
            Ok(cs) => images_in_range(images@.len()) && cs@.len() == images@.len() && forall|i: int|
                0 <= i < cs@.len() ==> component_ok(#[trigger] cs@[i], images@[i]@, i),
            Err(f) => !images_in_range(images@.len()) && failure::is_client_failure(
                f,
                "Must provide 1-3 images"@,
            ),
        },
{
    if images.len() == 0 || images.len() > 3 {
        return Err(Failure::client_str("Must provide 1-3 images"));
    }
    let mut cs: Vec<Component> = Vec::new();
    let mut i: usize = 0;
    while i < images.len()
        invariant
            i <= images@.len(),
            cs@.len() == i,
            forall|j: int| 0 <= j < i ==> component_ok(#[trigger] cs@[j], images@[j]@, j),
        decreases images.len() - i,
    {
        let kind = if i == 0 {
            owned("main")
        } else {
            owned("auxiliary")
        };
        cs.push(
            Component {
                content: images[i].clone(),
                src_img: images[i].clone(),
                content_type: owned("image"),
                kind,
            },
        );
        i = i + 1;
    }
    Ok(cs)
}

/// A pre-process request: the components, the element's name and type.
#[derive(Debug)]
pub struct PreprocessRequest {
    pub components: Vec<Component>,
    pub name: String,
    pub elem_type: String,
}

/// `b` is the body of a request with components `cs` as the validator
/// reads it: an object with a name, a type and the components' types.
pub open spec fn body_reads(b: ElementBody, cs: Seq<Component>) -> bool {
    match b {
        ElementBody::Object(f) => f.has_name && f.has_type && match f.components {
            JsonList::Items(v) => v@.len() == cs.len() && forall|i: int|
                0 <= i < v@.len() ==> #[trigger] v@[i] == JsonField::Text(cs[i].kind),
            _ => false,
        },
        _ => false,
    }
}

/// The request body as the validator reads it.
pub fn preprocess_body(req: &PreprocessRequest) -> (b: ElementBody)
    ensures
        body_reads(b, req.components@),
{
    let mut v: Vec<JsonField> = Vec::new();
    let mut i: usize = 0;
    while i < req.components.len()
        invariant
            i <= req.components@.len(),
            v@.len() == i,
            forall|j: int| 0 <= j < i ==> #[trigger] v@[j] == JsonField::Text(req.components@[j].kind),
        decreases req.components.len() - i,
    {
        v.push(JsonField::Text(req.components[i].kind.clone()));
        i = i + 1;
    }
    ElementBody::Object(ElementFields { components: JsonList::Items(v), has_name: true, has_type: true })
}

/// The pre-process request for an element: 1 to 3 images, the first the
/// main one; the request is checked with `validate_element_preprocess`.
pub fn preprocess_request(name: &str, elem_type: &str, images: &Vec<String>) -> (r: Result<
    PreprocessRequest,
    Failure,
>)
    ensures
        match r {
            Ok(req) => images_in_range(images@.len()) && req.name@ == name@ && req.elem_type@
                == elem_type@ && req.components@.len() == images@.len() && forall|i: int|
                0 <= i < req.components@.len() ==> component_ok(
                    #[trigger] req.components@[i],
                    images@[i]@,
                    i,
                ),
            Err(f) => !images_in_range(images@.len()) && failure::is_client_failure(
                f,
                "Must provide 1-3 images"@,
            ),
        },
{
    let components = element_components(images)?;
    let req = PreprocessRequest { components, name: owned(name), elem_type: owned(elem_type) };
    let body = preprocess_body(&req);
    proof {
        law_built_preprocess_passes(req, body);
    }
    let err = validate_element_preprocess(&body);
    if !err.as_str().is_empty() {
        return Err(Failure::client(err));
    }
    Ok(req)
}

/// A pre-process request built from 1 to 3 images passes
/// `validate_element_preprocess`: exactly one of its components is the
/// main one.
pub proof fn law_built_preprocess_passes(req: PreprocessRequest, body: ElementBody)
    requires
        images_in_range(req.components@.len()),
        forall|i: int|
            0 <= i < req.components@.len() ==> (#[trigger] req.components@[i]).kind@ == (if i == 0 {
                "main"@
            } else {
                "auxiliary"@
            }),
        body_reads(body, req.components@),
    ensures
        validators::element_preprocess_error(body) == Seq::<char>::empty(),
{
    reveal_strlit("main");
    reveal_strlit("auxiliary");
    assert("main"@[0] != "auxiliary"@[0]);
    if let ElementBody::Object(f) = body {
        if let JsonList::Items(v) = f.components {
            let n = v@.len();
            assert forall|k: int| 1 <= k <= n implies task_body::count_typed(v@.take(k), "main"@)
                == 1 by {
                lemma_count_main_prefix(req, v@, k);
            }
            assert(v@.take(n as int) =~= v@);
        }
    }
}

proof fn lemma_count_main_prefix(req: PreprocessRequest, v: Seq<JsonField>, k: int)
    requires
        1 <= k <= v.len(),
        v.len() == req.components@.len(),
        "main"@ != "auxiliary"@,
        forall|i: int|
            0 <= i < req.components@.len() ==> (#[trigger] req.components@[i]).kind@ == (if i == 0 {
                "main"@
            } else {
                "auxiliary"@
            }),
        forall|i: int| 0 <= i < v.len() ==> #[trigger] v[i] == JsonField::Text(req.components@[i].kind),
    ensures
        task_body::count_typed(v.take(k), "main"@) == 1,
    decreases k,
{
    assert(v.take(k).drop_last() =~= v.take(k - 1));
    assert(v.take(k).last() == v[k - 1]);
    assert(v[k - 1] == JsonField::Text(req.components@[k - 1].kind));
    let c = req.components@[k - 1];
    if k == 1 {
        assert(v.take(0) =~= Seq::<JsonField>::empty());
        assert(task_body::count_typed(v.take(0), "main"@) == 0);
        assert(c.kind@ == "main"@);
    } else {
        lemma_count_main_prefix(req, v, k - 1);
        assert(req.components@[k - 1].kind@ == "auxiliary"@);
    }
}

/// A create request: the element's id, name, modality, type, components,
/// version and description.
#[derive(Debug)]
pub struct CreateRequest {
    pub id: String,
    pub name: String,
    pub modality: String,
    pub elem_type: String,
    pub components: Vec<Component>,
    pub version: String,
    pub description: String,
}

/// The create request for an element from 1 to 3 images, the first the
/// main one.
pub fn create_request(
    elem_id: &str,
    name: &str,
    modality: &str,
    elem_type: &str,
    images: &Vec<String>,
    version: &str,
    description: &str,
) -> (r: Result<CreateRequest, Failure>)
    ensures
        match r {
            Ok(req) => {
                &&& images_in_range(images@.len())
                &&& req.id@ == elem_id@
                &&& req.name@ == name@
                &&& req.modality@ == modality@
                &&& req.elem_type@ == elem_type@
                &&& req.version@ == version@
                &&& req.description@ == description@
                &&& req.components@.len() == images@.len()
                &&& forall|i: int|
                    0 <= i < req.components@.len() ==> component_ok(
                        #[trigger] req.components@[i],
                        images@[i]@,
                        i,
                    )
            },
            Err(f) => !images_in_range(images@.len()) && failure::is_client_failure(
                f,
                "Must provide 1-3 images"@,
            ),
        },
{
    let components = element_components(images)?;
    Ok(
        CreateRequest {
            id: owned(elem_id),
            name: owned(name),
            modality: owned(modality),
            elem_type: owned(elem_type),
            components,
            version: owned(version),
            description: owned(description),
        },
    )
}

} // verus!
