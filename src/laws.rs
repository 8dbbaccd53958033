//! Properties of whole chains of builder calls, stated over
//! [`RequestView`], whose transitions the builder methods follow exactly.
use vstd::prelude::*;

use crate::form::{form_body, form_byte, form_escape, form_field, kept_in_form};
use crate::request::{content_type_name, form_type, json_type, BodyView, RequestView};

verus! {

/// The request after one `param` call per pair, in order.
pub open spec fn after_params(v: RequestView, ps: Seq<(Seq<char>, Seq<char>)>) -> RequestView
    decreases ps.len(),
{
    if ps.len() == 0 {
        v
    } else {
        after_params(v, ps.drop_last()).with_param(ps.last().0, ps.last().1)
    }
}

/// The request after one `body_form` call per pair, in order.
pub open spec fn after_forms(v: RequestView, ps: Seq<(Seq<char>, Seq<char>)>) -> RequestView
    decreases ps.len(),
{
    if ps.len() == 0 {
        v
    } else {
        after_forms(v, ps.drop_last()).with_form(ps.last().0, ps.last().1)
    }
}

/// A builder call that changes the query or the form fields.
pub enum Call {
    Param(Seq<char>, Seq<char>),
    Form(Seq<char>, Seq<char>),
}

/// The request after the calls, in order.
pub open spec fn after_calls(v: RequestView, cs: Seq<Call>) -> RequestView
    decreases cs.len(),
{
    if cs.len() == 0 {
        v
    } else {
        let w = after_calls(v, cs.drop_last());
        match cs.last() {
            Call::Param(n, x) => w.with_param(n, x),
            Call::Form(n, x) => w.with_form(n, x),
        }
    }
}

/// The pairs of the `Form` calls, in order.
pub open spec fn forms_in(cs: Seq<Call>) -> Seq<(Seq<char>, Seq<char>)>
    decreases cs.len(),
{
    if cs.len() == 0 {
        Seq::empty()
    } else {
        match cs.last() {
            Call::Param(_, _) => forms_in(cs.drop_last()),
            Call::Form(n, x) => forms_in(cs.drop_last()).push((n, x)),
        }
    }
}

/// The pairs of the `Param` calls, in order.
pub open spec fn params_in(cs: Seq<Call>) -> Seq<(Seq<char>, Seq<char>)>
    decreases cs.len(),
{
    if cs.len() == 0 {
        Seq::empty()
    } else {
        match cs.last() {
            Call::Param(n, x) => params_in(cs.drop_last()).push((n, x)),
            Call::Form(_, _) => params_in(cs.drop_last()),
        }
    }
}

/// A byte that may stand in an encoded form: a letter, a digit, or one of
/// `*-._+%`. No `&`, `=`, `#` or space is among them.
pub open spec fn form_safe(b: u8) -> bool {
    kept_in_form(b) || b == 0x2b || b == 0x25
}

/// Pairs added with `param` follow the URL's earlier query pairs in the
/// order of the calls, duplicate names included; nothing else changes.
pub proof fn lemma_params_in_call_order(v: RequestView, ps: Seq<(Seq<char>, Seq<char>)>)
    ensures
        after_params(v, ps).query == v.query + ps,
        after_params(v, ps).method == v.method,
        after_params(v, ps).headers == v.headers,
        after_params(v, ps).body == v.body,
    decreases ps.len(),
{
    if ps.len() > 0 {
        lemma_params_in_call_order(v, ps.drop_last());
        assert(v.query + ps =~= (v.query + ps.drop_last()).push(ps.last()));
    }
}

/// After one or more `body_form` calls the body holds the form fields in
/// call order (after those already there), is sent as those fields joined
/// by `&`, and the content type is the form type, set once by the call that
/// started the form body.
pub proof fn lemma_forms_in_call_order(v: RequestView, ps: Seq<(Seq<char>, Seq<char>)>)
    requires
        ps.len() > 0,
    ensures
        after_forms(v, ps).body == BodyView::Forms(v.form_pairs() + ps),
        after_forms(v, ps).payload() == Some(form_body(v.form_pairs() + ps)),
        after_forms(v, ps).headers == (if v.body is Forms {
            v.headers
        } else {
            v.headers.insert(content_type_name(), form_type())
        }),
        !(v.body is Forms) ==> after_forms(v, ps).headers[content_type_name()] == form_type(),
        after_forms(v, ps).query == v.query,
        after_forms(v, ps).method == v.method,
    decreases ps.len(),
{
    if ps.len() == 1 {
        assert(ps.drop_last() =~= Seq::empty());
        assert(v.form_pairs() + ps =~= v.form_pairs().push(ps[0]));
    } else {
        lemma_forms_in_call_order(v, ps.drop_last());
        assert(v.form_pairs() + ps =~= (v.form_pairs() + ps.drop_last()).push(ps.last()));
    }
}

/// With `param` calls mixed in anywhere, `body_form` calls still build the
/// form body in their own order and set the form content type once, and the
/// query pairs still follow in the order of the `param` calls. Without any
/// `body_form` call the body and headers are left as they were.
pub proof fn lemma_mixed_calls_in_order(v: RequestView, cs: Seq<Call>)
    ensures
        after_calls(v, cs).query == v.query + params_in(cs),
        after_calls(v, cs).method == v.method,
        forms_in(cs).len() == 0 ==> after_calls(v, cs).body == v.body && after_calls(v, cs).headers
            == v.headers,
        forms_in(cs).len() > 0 ==> after_calls(v, cs).body == BodyView::Forms(
            v.form_pairs() + forms_in(cs),
        ),
        forms_in(cs).len() > 0 ==> after_calls(v, cs).payload() == Some(
            form_body(v.form_pairs() + forms_in(cs)),
        ),
        forms_in(cs).len() > 0 ==> after_calls(v, cs).headers == (if v.body is Forms {
            v.headers
        } else {
            v.headers.insert(content_type_name(), form_type())
        }),
    decreases cs.len(),
{
    if cs.len() > 0 {
        let rest = cs.drop_last();
        lemma_mixed_calls_in_order(v, rest);
        match cs.last() {
            Call::Param(n, x) => {
                assert(v.query + params_in(cs) =~= (v.query + params_in(rest)).push((n, x)));
            },
            Call::Form(n, x) => {
                assert(v.form_pairs() + forms_in(cs) =~= (v.form_pairs() + forms_in(rest)).push(
                    (n, x),
                ));
                if forms_in(rest).len() == 0 {
                    assert(v.form_pairs() + forms_in(rest) =~= v.form_pairs());
                    assert(v.form_pairs() + forms_in(cs) =~= v.form_pairs().push((n, x)));
                }
            },
        }
    } else {
        assert(v.query + params_in(cs) =~= v.query);
    }
}

/// Every byte of the form escaping of any byte string is a letter, a digit
/// or one of `*-._+%`, so names and values cannot be confused with the `&`
/// and `=` that separate them.
pub proof fn lemma_form_escape_is_safe(bs: Seq<u8>)
    ensures
        forall|i: int| 0 <= i < form_escape(bs).len() ==> form_safe(#[trigger] form_escape(bs)[i]),
    decreases bs.len(),
{
    if bs.len() > 0 {
        lemma_form_escape_is_safe(bs.drop_last());
        let b = bs.last();
        let hi = b / 16;
        let lo = b % 16;
        assert(hi < 16 && lo < 16);
        assert(forall|j: int| 0 <= j < form_byte(b).len() ==> form_safe(#[trigger] form_byte(b)[j]));
        let head = form_escape(bs.drop_last());
        assert forall|i: int| 0 <= i < form_escape(bs).len() implies form_safe(
            #[trigger] form_escape(bs)[i],
        ) by {
            if i < head.len() {
                assert(form_escape(bs)[i] == head[i]);
            } else {
                assert(form_escape(bs)[i] == form_byte(b)[i - head.len()]);
            }
        }
    }
}

/// Setting an encoded JSON body sends exactly those bytes, with one
/// content type field, `application/json`; no other header changes.
pub proof fn lemma_json_body_sent_as_is(v: RequestView, bytes: Seq<u8>)
    ensures
        v.with_json(bytes).payload() == Some(bytes),
        v.with_json(bytes).headers.contains_key(content_type_name()),
        v.with_json(bytes).headers[content_type_name()] == json_type(),
        forall|k: Seq<char>|
            k != content_type_name() ==> v.with_json(bytes).headers.contains_key(k)
                == v.headers.contains_key(k) && v.with_json(bytes).headers.get(k) == v.headers.get(k),
{
}

/// The kind of body set last wins: a form field after JSON discards the
/// buffer and leaves only the form content type; JSON after form fields
/// discards them and leaves only the JSON content type.
pub proof fn lemma_last_body_kind_wins(
    v: RequestView,
    bytes: Seq<u8>,
    name: Seq<char>,
    value: Seq<char>,
)
    ensures
        v.with_json(bytes).with_form(name, value).body == BodyView::Forms(seq![(name, value)]),
        v.with_json(bytes).with_form(name, value).payload() == Some(form_field(name, value)),
        v.with_json(bytes).with_form(name, value).headers[content_type_name()] == form_type(),
        v.with_form(name, value).with_json(bytes).body == BodyView::Buffer(bytes),
        v.with_form(name, value).with_json(bytes).payload() == Some(bytes),
        v.with_form(name, value).with_json(bytes).headers[content_type_name()] == json_type(),
{
}

} // verus!
