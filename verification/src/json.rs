//! A tree model of the store's wire values. The transport layer turns these
//! trees into JSON text and back; everything that gives the trees meaning —
//! how a record is laid out in one — lives in the codec on top of this.

use vstd::prelude::*;
use crate::text::str_eq;

verus! {

/// A wire value: null, a string, an unsigned number, an array, or an object
/// given as its fields in order.
#[derive(Debug, PartialEq)]
pub enum JsonValue {
    Null,
    Str(String),
    Num(u64),
    Arr(Vec<JsonValue>),
    Obj(Vec<(String, JsonValue)>),
}

/// The mathematical shape of a wire value.
pub enum JsonView {
    Null,
    Str(Seq<char>),
    Num(u64),
    Arr(Seq<JsonView>),
    Obj(Seq<(Seq<char>, JsonView)>),
}

/// The views of the items of an array.
pub open spec fn items_view(s: Seq<JsonValue>) -> Seq<JsonView>
    decreases s,
{
    if s.len() == 0 {
        Seq::empty()
    } else {
        seq![json_view(s[0])] + items_view(s.subrange(1, s.len() as int))
    }
}

/// The views of the fields of an object.
pub open spec fn fields_view(s: Seq<(String, JsonValue)>) -> Seq<(Seq<char>, JsonView)>
    decreases s,
{
    if s.len() == 0 {
        Seq::empty()
    } else {
        seq![(s[0].0@, json_view(s[0].1))] + fields_view(s.subrange(1, s.len() as int))
    }
}

/// An array's views are as many as its items.
pub broadcast proof fn lemma_items_view_len(s: Seq<JsonValue>)
    ensures
        #[trigger] items_view(s).len() == s.len(),
    decreases s,
{
    if s.len() > 0 {
        lemma_items_view_len(s.subrange(1, s.len() as int));
    }
}

/// The view of an array's item stands at the item's place.
pub broadcast proof fn lemma_items_view_index(s: Seq<JsonValue>, i: int)
    requires
        0 <= i < s.len(),
    ensures
        items_view(s).len() == s.len(),
        #[trigger] items_view(s)[i] == json_view(s[i]),
    decreases s,
{
    lemma_items_view_len(s);
    if i > 0 {
        lemma_items_view_index(s.subrange(1, s.len() as int), i - 1);
    }
}

/// An object's field views are as many as its fields.
pub broadcast proof fn lemma_fields_view_len(s: Seq<(String, JsonValue)>)
    ensures
        #[trigger] fields_view(s).len() == s.len(),
    decreases s,
{
    if s.len() > 0 {
        lemma_fields_view_len(s.subrange(1, s.len() as int));
    }
}

/// The view of an object's field stands at the field's place.
pub broadcast proof fn lemma_fields_view_index(s: Seq<(String, JsonValue)>, i: int)
    requires
        0 <= i < s.len(),
    ensures
        fields_view(s).len() == s.len(),
        #[trigger] fields_view(s)[i] == (s[i].0@, json_view(s[i].1)),
    decreases s,
{
    lemma_fields_view_len(s);
    if i > 0 {
        lemma_fields_view_index(s.subrange(1, s.len() as int), i - 1);
    }
}

/// The view of a wire value.
pub open spec fn json_view(v: JsonValue) -> JsonView
    decreases v,
{
    match v {
        JsonValue::Null => JsonView::Null,
        JsonValue::Str(s) => JsonView::Str(s@),
        JsonValue::Num(n) => JsonView::Num(n),
        JsonValue::Arr(items) => JsonView::Arr(items_view(items@)),
        JsonValue::Obj(fields) => JsonView::Obj(fields_view(fields@)),
    }
}

impl View for JsonValue {
    type V = JsonView;

    open spec fn view(&self) -> JsonView {
        json_view(*self)
    }
}

/// The value of the first field named `key`, if the object has one.
pub open spec fn spec_lookup(fields: Seq<(Seq<char>, JsonView)>, key: Seq<char>) -> Option<
    JsonView,
>
    decreases fields.len(),
{
    if fields.len() == 0 {
        None
    } else if fields[0].0 == key {
        Some(fields[0].1)
    } else {
        spec_lookup(fields.drop_first(), key)
    }
}

/// Looking a key up lands on the first field that carries it.
pub proof fn lemma_lookup_at(fields: Seq<(Seq<char>, JsonView)>, key: Seq<char>, k: int)
    requires
        0 <= k < fields.len(),
        fields[k].0 == key,
        forall|j: int| 0 <= j < k ==> (#[trigger] fields[j]).0 != key,
    ensures
        spec_lookup(fields, key) == Some(fields[k].1),
    decreases k,
{
    if k > 0 {
        let rest = fields.drop_first();
        assert(rest[k - 1] == fields[k]);
        assert(forall|j: int| 0 <= j < k - 1 ==> (#[trigger] rest[j]).0 != key);
        lemma_lookup_at(rest, key, k - 1);
    }
}

/// Finds the first field named `key` among an object's fields.
#[verifier::loop_isolation(false)]
pub fn lookup_field<'a>(fields: &'a Vec<(String, JsonValue)>, key: &str) -> (r: Option<
    &'a JsonValue,
>)
    ensures
        match r {
            Some(v) => spec_lookup(fields_view(fields@), key@) == Some(json_view(*v)),
            None => spec_lookup(fields_view(fields@), key@) is None,
        },
{
    broadcast use lemma_fields_view_len, lemma_fields_view_index;

    let ghost fv = fields_view(fields@);
    let n = fields.len();
    proof {
        assert(fv.subrange(0, n as int) =~= fv);
    }
    let mut i: usize = 0;
    while i < n
        invariant
            0 <= i <= n,
            spec_lookup(fv, key@) == spec_lookup(fv.subrange(i as int, n as int), key@),
        decreases n - i,
    {
        let ghost pre = fv.subrange(i as int, n as int);
        if str_eq(fields[i].0.as_str(), key) {
            assert(pre[0] == fv[i as int]);
            return Some(&fields[i].1);
        }
        proof {
            assert(pre[0] == fv[i as int]);
            assert(pre.drop_first() =~= fv.subrange(i + 1, n as int));
        }
        i = i + 1;
    }
    proof {
        assert(fv.subrange(i as int, n as int).len() == 0);
    }
    None
}

} // verus!
