//! Labelled fields that a command shows to the user, in the order shown.

use vstd::prelude::*;
use vstd::string::StringExecFns;
use crate::json::{Json, JsonValue};
use crate::text::opt_chars;

verus! {

/// One labelled value of a command's output.
#[derive(Debug, Clone, PartialEq)]
pub struct Field {
    pub label: String,
    pub value: String,
}

/// A method call to send to a node: its name and its parameters.
#[derive(Debug, PartialEq)]
pub struct RpcRequest {
    pub method: String,
    pub params: JsonValue,
}

/// Label and value of each field.
pub open spec fn fields_view(v: Seq<Field>) -> Seq<(Seq<char>, Seq<char>)> {
    v.map_values(|f: Field| (f.label@, f.value@))
}

/// A field that is shown only when its value is present.
pub open spec fn opt_field(label: Seq<char>, v: Option<Seq<char>>) -> Seq<(Seq<char>, Seq<char>)> {
    match v {
        Some(s) => seq![(label, s)],
        None => Seq::empty(),
    }
}

/// Appends a field.
pub fn push_field(fields: &mut Vec<Field>, label: &str, value: String)
    ensures
        fields_view(final(fields)@) == fields_view(old(fields)@).push((label@, value@)),
{
    let ghost before = fields@;
    fields.push(Field { label: String::from_str(label), value });
    assert(fields_view(fields@) =~= fields_view(before).push((label@, value@)));
}

/// Appends a field when its value is present.
pub fn push_opt_field(fields: &mut Vec<Field>, label: &str, value: Option<String>)
    ensures
        fields_view(final(fields)@) == fields_view(old(fields)@) + opt_field(label@, opt_chars(value)),
{
    let ghost before = fields@;
    match value {
        Some(v) => {
            push_field(fields, label, v);
            assert(fields_view(fields@) =~= fields_view(before) + opt_field(label@, opt_chars(value)));
        },
        None => {
            assert(fields_view(fields@) =~= fields_view(before) + opt_field(label@, opt_chars(value)));
        },
    }
}

/// Builds a request.
pub fn request(method: &str, params: JsonValue) -> (r: RpcRequest)
    ensures
        r.method@ == method@,
        r.params@ == params@,
{
    RpcRequest { method: String::from_str(method), params }
}

/// The JSON member `key` of `v`, when `v` is present.
pub open spec fn member(v: Option<Json>, key: Seq<char>) -> Option<Seq<char>> {
    match v {
        Some(j) => j.str_at(key),
        None => None,
    }
}

/// The value shown under `label`: that of the first field with that label.
pub open spec fn shown(fs: Seq<(Seq<char>, Seq<char>)>, label: Seq<char>) -> Option<Seq<char>>
    decreases fs.len(),
{
    if fs.len() == 0 {
        None
    } else if fs[0].0 == label {
        Some(fs[0].1)
    } else {
        shown(fs.drop_first(), label)
    }
}

/// No field has the label.
pub open spec fn lacks(fs: Seq<(Seq<char>, Seq<char>)>, label: Seq<char>) -> bool {
    forall|i: int| 0 <= i < fs.len() ==> #[trigger] fs[i].0 != label
}

/// Two runs of fields without a label, one after the other, are without it.
pub broadcast proof fn lemma_lacks_concat(
    a: Seq<(Seq<char>, Seq<char>)>,
    b: Seq<(Seq<char>, Seq<char>)>,
    label: Seq<char>,
)
    requires
        lacks(a, label),
        lacks(b, label),
    ensures
        #[trigger] lacks(a + b, label),
{
    assert forall|i: int| 0 <= i < (a + b).len() implies #[trigger] (a + b)[i].0 != label by {
        if i < a.len() {
            assert((a + b)[i] == a[i]);
        } else {
            assert((a + b)[i] == b[i - a.len()]);
        }
    }
}

/// A field shown when present has no other label than its own.
pub broadcast proof fn lemma_lacks_opt(own: Seq<char>, v: Option<Seq<char>>, label: Seq<char>)
    requires
        own != label,
    ensures
        #[trigger] lacks(opt_field(own, v), label),
{
}

/// A single field has no other label than its own.
pub broadcast proof fn lemma_lacks_one(f: (Seq<char>, Seq<char>), label: Seq<char>)
    requires
        f.0 != label,
    ensures
        #[trigger] lacks(seq![f], label),
{
}

/// What lets the fields before and after one be passed over.
pub broadcast group group_lacks {
    lemma_lacks_concat,
    lemma_lacks_opt,
    lemma_lacks_one,
}

/// Fields with other labels do not hide the one shown under `label`.
pub proof fn lemma_shown_skip(a: Seq<(Seq<char>, Seq<char>)>, b: Seq<(Seq<char>, Seq<char>)>, label: Seq<char>)
    requires
        lacks(a, label),
    ensures
        shown(a + b, label) == shown(b, label),
    decreases a.len(),
{
    if a.len() > 0 {
        assert((a + b)[0] == a[0]);
        assert((a + b).drop_first() =~= a.drop_first() + b);
        assert forall|i: int| 0 <= i < a.drop_first().len() implies #[trigger] a.drop_first()[i].0
            != label by {
            assert(a.drop_first()[i] == a[i + 1]);
        }
        lemma_shown_skip(a.drop_first(), b, label);
    } else {
        assert(a + b =~= b);
    }
}

/// The first field labelled `label` is the one shown under it.
pub proof fn lemma_shown_first(a: Seq<(Seq<char>, Seq<char>)>, b: Seq<(Seq<char>, Seq<char>)>, label: Seq<char>)
    requires
        a.len() > 0,
        a[0].0 == label,
    ensures
        shown(a + b, label) == Some(a[0].1),
{
    assert((a + b)[0] == a[0]);
}

/// A field shown only when present, followed by fields with other labels:
/// what is shown under its label is its value, when there is one.
pub proof fn lemma_shown_opt(label: Seq<char>, v: Option<Seq<char>>, b: Seq<(Seq<char>, Seq<char>)>)
    requires
        lacks(b, label),
    ensures
        shown(opt_field(label, v) + b, label) == v,
{
    match v {
        Some(s) => {
            lemma_shown_first(opt_field(label, v), b, label);
        },
        None => {
            lemma_shown_skip(b, Seq::empty(), label);
            assert(b + Seq::<(Seq<char>, Seq<char>)>::empty() =~= b);
            assert(opt_field(label, v) + b =~= b);
        },
    }
}

/// The value shown under a label is that of the one field with that label.
pub proof fn lemma_shown_at(
    pre: Seq<(Seq<char>, Seq<char>)>,
    f: (Seq<char>, Seq<char>),
    post: Seq<(Seq<char>, Seq<char>)>,
)
    requires
        lacks(pre, f.0),
    ensures
        shown(pre + seq![f] + post, f.0) == Some(f.1),
{
    assert(pre + seq![f] + post =~= pre + (seq![f] + post));
    lemma_shown_skip(pre, seq![f] + post, f.0);
    lemma_shown_first(seq![f], post, f.0);
}

/// The value shown under the label of a field shown only when present is
/// that field's value, when no other field has its label.
pub proof fn lemma_shown_opt_at(
    pre: Seq<(Seq<char>, Seq<char>)>,
    label: Seq<char>,
    v: Option<Seq<char>>,
    post: Seq<(Seq<char>, Seq<char>)>,
)
    requires
        lacks(pre, label),
        lacks(post, label),
    ensures
        shown(pre + opt_field(label, v) + post, label) == v,
{
    assert(pre + opt_field(label, v) + post =~= pre + (opt_field(label, v) + post));
    lemma_shown_skip(pre, opt_field(label, v) + post, label);
    lemma_shown_opt(label, v, post);
}

} // verus!
