//! The dynamic value model: a closed tagged union for JSON-like data
//! decoded from the wire (null / number / string / bool / object / list).

use vstd::prelude::*;

verus! {

/// A JSON-like value with exactly one active case.
///
/// Objects keep their fields in arrival order; numbers carry their
/// human-readable decimal text (fixed precision, trailing zeros trimmed),
/// produced by the decoding layer before the value enters this model.
pub enum DynamicValue {
    Null,
    Number(String),
    Text(String),
    Bool(bool),
    Object(Vec<(String, DynamicValue)>),
    List(Vec<DynamicValue>),
}

/// The error for a decoded payload that claims none, or more than one, of
/// the six cases: such a value is rejected, never silently coerced.
#[derive(Debug)]
pub struct MalformedValue;

/// A value as the decoding layer hands it over: every case optionally
/// present, exactly as a decoded wire payload claims them. A well-formed
/// payload populates exactly one case at every level; [`validate`] turns it
/// into a [`DynamicValue`] and rejects everything else.
pub struct RawValue {
    pub null_case: bool,
    pub number: Option<String>,
    pub text: Option<String>,
    pub boolean: Option<bool>,
    pub object: Option<Vec<(String, RawValue)>>,
    pub list: Option<Vec<RawValue>>,
}

/// How many of the six cases the payload claims at its top level.
pub open spec fn case_count(r: RawValue) -> int {
    (if r.null_case {
        1int
    } else {
        0int
    }) + (if r.number is Some {
        1int
    } else {
        0int
    }) + (if r.text is Some {
        1int
    } else {
        0int
    }) + (if r.boolean is Some {
        1int
    } else {
        0int
    }) + (if r.object is Some {
        1int
    } else {
        0int
    }) + (if r.list is Some {
        1int
    } else {
        0int
    })
}

/// A decoded payload is well formed when it claims exactly one case at
/// every level of nesting.
pub open spec fn raw_wf(r: RawValue) -> bool
    decreases r,
{
    &&& case_count(r) == 1
    &&& (r.object matches Some(fields) ==> forall|i: int|
        0 <= i < fields@.len() ==> raw_wf(#[trigger] fields@[i].1))
    &&& (r.list matches Some(items) ==> forall|i: int|
        0 <= i < items@.len() ==> raw_wf(#[trigger] items@[i]))
}

/// The validated value `v` carries exactly the content of the decoded
/// payload `r`: the same single case at every level, keys and items in the
/// same order.
pub open spec fn represents(r: RawValue, v: DynamicValue) -> bool
    decreases r,
{
    if r.null_case {
        v is Null
    } else if r.number is Some {
        v == DynamicValue::Number(r.number->0)
    } else if r.text is Some {
        v == DynamicValue::Text(r.text->0)
    } else if r.boolean is Some {
        v == DynamicValue::Bool(r.boolean->0)
    } else if r.object is Some {
        &&& v is Object
        &&& v->Object_0@.len() == r.object->0@.len()
        &&& forall|i: int|
            0 <= i < r.object->0@.len() ==> #[trigger] v->Object_0@[i].0 == r.object->0@[i].0
                && represents(r.object->0@[i].1, v->Object_0@[i].1)
    } else if r.list is Some {
        &&& v is List
        &&& v->List_0@.len() == r.list->0@.len()
        &&& forall|i: int|
            0 <= i < r.list->0@.len() ==> represents(#[trigger] r.list->0@[i], v->List_0@[i])
    } else {
        false
    }
}

proof fn lemma_represents_object(r: RawValue, v: DynamicValue)
    requires
        !r.null_case,
        r.number is None,
        r.text is None,
        r.boolean is None,
        r.object is Some,
        v is Object,
        v->Object_0@.len() == r.object->0@.len(),
        forall|i: int|
            0 <= i < r.object->0@.len() ==> (#[trigger] v->Object_0@[i]).0 == r.object->0@[i].0
                && represents(r.object->0@[i].1, v->Object_0@[i].1),
    ensures
        represents(r, v),
{
    assert forall|i: int|
        0 <= i < r.object->0@.len() implies #[trigger] v->Object_0@[i].0 == r.object->0@[i].0
        && represents(r.object->0@[i].1, v->Object_0@[i].1) by {
        assert((v->Object_0@[i]).0 == r.object->0@[i].0);
    }
}

proof fn lemma_represents_list(r: RawValue, v: DynamicValue)
    requires
        !r.null_case,
        r.number is None,
        r.text is None,
        r.boolean is None,
        r.object is None,
        r.list is Some,
        v is List,
        v->List_0@.len() == r.list->0@.len(),
        forall|i: int|
            0 <= i < r.list->0@.len() ==> represents(#[trigger] r.list->0@[i], v->List_0@[i]),
    ensures
        represents(r, v),
{
}

/// Turns a decoded payload into a validated value.
///
/// Succeeds exactly when the payload is well formed — one populated case at
/// every level — and then returns the value with the same content in the
/// same order; any payload claiming zero or several cases anywhere is
/// rejected with [`MalformedValue`].
pub fn validate(r: &RawValue) -> (res: Result<DynamicValue, MalformedValue>)
    ensures
        res is Ok <==> raw_wf(*r),
        res matches Ok(v) ==> represents(*r, v),
    decreases *r, 0int,
{
    let mut count: u32 = 0;
    if r.null_case {
        count = count + 1;
    }
    if r.number.is_some() {
        count = count + 1;
    }
    if r.text.is_some() {
        count = count + 1;
    }
    if r.boolean.is_some() {
        count = count + 1;
    }
    if r.object.is_some() {
        count = count + 1;
    }
    if r.list.is_some() {
        count = count + 1;
    }
    if count != 1 {
        return Err(MalformedValue);
    }
    if r.null_case {
        Ok(DynamicValue::Null)
    } else if let Some(n) = &r.number {
        Ok(DynamicValue::Number(n.clone()))
    } else if let Some(s) = &r.text {
        Ok(DynamicValue::Text(s.clone()))
    } else if let Some(b) = &r.boolean {
        Ok(DynamicValue::Bool(*b))
    } else if let Some(fields) = &r.object {
        proof {
            assert(decreases_to!(*r => fields@));
        }
        match validate_fields(fields, 0) {
            Ok(out) => {
                let dv = DynamicValue::Object(out);
                proof {
                    assert forall|ix: int| 0 <= ix < r.object->0@.len() implies (#[trigger] dv
                        ->Object_0@[ix]).0 == r.object->0@[ix].0 && represents(
                        r.object->0@[ix].1,
                        dv->Object_0@[ix].1,
                    ) by {
                        assert(dv->Object_0@[ix].0 == fields@[0 + ix].0);
                        assert(represents(fields@[0 + ix].1, dv->Object_0@[ix].1));
                    }
                    lemma_represents_object(*r, dv);
                }
                Ok(dv)
            },
            Err(e) => Err(e),
        }
    } else {
        let items = r.list.as_ref().unwrap();
        proof {
            assert(decreases_to!(*r => items@));
        }
        match validate_items(items, 0) {
            Ok(out) => {
                let dv = DynamicValue::List(out);
                proof {
                    assert forall|ix: int| 0 <= ix < r.list->0@.len() implies represents(
                        #[trigger] r.list->0@[ix],
                        dv->List_0@[ix],
                    ) by {
                        assert(represents(items@[0 + ix], dv->List_0@[ix]));
                    }
                    lemma_represents_list(*r, dv);
                }
                Ok(dv)
            },
            Err(e) => Err(e),
        }
    }
}

/// Validates an object's fields from position `i` on, keeping key order.
fn validate_fields(fields: &Vec<(String, RawValue)>, i: usize) -> (res: Result<
    Vec<(String, DynamicValue)>,
    MalformedValue,
>)
    requires
        i <= fields@.len(),
    ensures
        res is Ok <==> (forall|j: int| i <= j < fields@.len() ==> raw_wf(#[trigger] fields@[j].1)),
        res matches Ok(out) ==> out@.len() == fields@.len() - i && forall|j: int|
            0 <= j < out@.len() ==> #[trigger] out@[j].0 == fields@[i + j].0 && represents(
                fields@[i + j].1,
                out@[j].1,
            ),
    decreases fields@, fields@.len() - i,
{
    if i == fields.len() {
        Ok(Vec::new())
    } else {
        proof {
            assert(decreases_to!(fields@ => fields@[i as int].1));
        }
        match validate(&fields[i].1) {
            Ok(v) => {
                match validate_fields(fields, i + 1) {
                    Ok(mut rest) => {
                        let mut out: Vec<(String, DynamicValue)> = Vec::new();
                        out.push((fields[i].0.clone(), v));
                        out.append(&mut rest);
                        Ok(out)
                    },
                    Err(e) => Err(e),
                }
            },
            Err(e) => Err(e),
        }
    }
}

/// Validates a list's items from position `i` on, keeping item order.
fn validate_items(items: &Vec<RawValue>, i: usize) -> (res: Result<
    Vec<DynamicValue>,
    MalformedValue,
>)
    requires
        i <= items@.len(),
    ensures
        res is Ok <==> (forall|j: int| i <= j < items@.len() ==> raw_wf(#[trigger] items@[j])),
        res matches Ok(out) ==> out@.len() == items@.len() - i && forall|j: int|
            0 <= j < out@.len() ==> represents(#[trigger] items@[i + j], out@[j]),
    decreases items@, items@.len() - i,
{
    if i == items.len() {
        Ok(Vec::new())
    } else {
        proof {
            assert(decreases_to!(items@ => items@[i as int]));
        }
        match validate(&items[i]) {
            Ok(v) => {
                match validate_items(items, i + 1) {
                    Ok(mut rest) => {
                        let ghost rest_view = rest@;
                        let mut out: Vec<DynamicValue> = Vec::new();
                        out.push(v);
                        out.append(&mut rest);
                        proof {
                            assert(out@ =~= seq![v] + rest_view);
                            assert forall|j: int| 0 <= j < out@.len() implies represents(
                                #[trigger] items@[i + j],
                                out@[j],
                            ) by {
                                if j > 0 {
                                    assert(represents(
                                        items@[(i + 1 as int) + (j - 1)],
                                        rest_view[j - 1],
                                    ));
                                }
                            }
                        }
                        Ok(out)
                    },
                    Err(e) => Err(e),
                }
            },
            Err(e) => Err(e),
        }
    }
}

} // verus!
