//! Field validation failures as client-facing entries: one entry per violated
//! rule, each with a JSON Pointer to the offending field.

use crate::error_message::{copy_opt_str, messages_view, opt_str, ErrorMessage, ErrorMessageView, ErrorSource, ErrorSourceView};
use crate::pointer::{decimal, escape_token, escaped, push_decimal};
use crate::response::{failure, ApiResponse, NoData};
use vstd::prelude::*;

verus! {

/// One violated rule on a field: the rule's code (`"length"`, `"email"`, ...)
/// and its message when the rule has one.
#[derive(Debug, Clone, PartialEq)]
pub struct FieldViolation {
    pub code: String,
    pub message: Option<String>,
}

/// What went wrong under one field name.
#[derive(Debug)]
pub enum ViolationKind {
    /// The field's own value broke these rules.
    Field(Vec<FieldViolation>),
    /// The field is a nested struct with failures of its own.
    Struct(Box<ValidationErrors>),
    /// The field is a list; the listed elements, by index, have failures.
    List(Vec<(usize, ValidationErrors)>),
}

/// A tree of validation failures, field by field, in the order the validator
/// reports them.
#[derive(Debug)]
pub struct ValidationErrors {
    pub fields: Vec<(String, ViolationKind)>,
}

/// The pointer to member `name` under `prefix`.
pub open spec fn member_pointer(prefix: Seq<char>, name: Seq<char>) -> Seq<char> {
    prefix + seq!['/'] + escaped(name)
}

/// The pointer to element `index` under `prefix`.
pub open spec fn index_pointer(prefix: Seq<char>, index: nat) -> Seq<char> {
    prefix + seq!['/'] + decimal(index)
}

/// The entry of one violated rule at `pointer`: the rule's code and message,
/// and a locator holding only the pointer.
pub open spec fn violation_entry(v: FieldViolation, pointer: Seq<char>) -> ErrorMessageView {
    ErrorMessageView {
        code: v.code@,
        message: opt_str(v.message),
        type_uri: None,
        instance: None,
        source: Some(ErrorSourceView { pointer: Some(pointer), ..ErrorSourceView::empty() }),
        meta: None,
    }
}

/// The entries of the fields of `errors` from the `i`-th on, under `prefix`.
pub open spec fn flatten_from(errors: ValidationErrors, i: int, prefix: Seq<char>) -> Seq<ErrorMessageView>
    decreases errors, 0nat, errors.fields@.len() - i,
    when 0 <= i
{
    if i >= errors.fields@.len() {
        Seq::empty()
    } else {
        let (name, kind) = errors.fields@[i];
        kind_entries(kind, member_pointer(prefix, name@)) + flatten_from(errors, i + 1, prefix)
    }
}

/// The entries of what went wrong under one field, at `pointer`.
pub open spec fn kind_entries(kind: ViolationKind, pointer: Seq<char>) -> Seq<ErrorMessageView>
    decreases kind, 1nat, 0int,
{
    match kind {
        ViolationKind::Field(vs) => vs@.map_values(|v: FieldViolation| violation_entry(v, pointer)),
        ViolationKind::Struct(b) => flatten_from(*b, 0, pointer),
        ViolationKind::List(_) => list_from(kind, 0, pointer),
    }
}

/// The entries of the listed elements of a list field from the `j`-th on.
pub open spec fn list_from(kind: ViolationKind, j: int, pointer: Seq<char>) -> Seq<ErrorMessageView>
    decreases kind, 0nat, (match kind { ViolationKind::List(items) => items@.len() as int, _ => 0int }) - j,
    when 0 <= j
{
    match kind {
        ViolationKind::List(items) => if j >= items@.len() {
            Seq::empty()
        } else {
            let (index, nested) = items@[j];
            flatten_from(nested, 0, index_pointer(pointer, index as nat)) + list_from(kind, j + 1, pointer)
        },
        _ => Seq::empty(),
    }
}

/// All the entries of a failure tree: one per violated rule, walking nested
/// structs and lists depth-first in order.
pub open spec fn flatten(errors: ValidationErrors) -> Seq<ErrorMessageView> {
    flatten_from(errors, 0, Seq::empty())
}

/// Append the entries of the violated rules of one field.
fn push_violations(vs: &Vec<FieldViolation>, pointer: &String, output: &mut Vec<ErrorMessage>)
    ensures
        messages_view(final(output)@) == messages_view(old(output)@) + vs@.map_values(
            |v: FieldViolation| violation_entry(v, pointer@),
        ),
{
    let ghost start = messages_view(output@);
    let ghost all = vs@.map_values(|v: FieldViolation| violation_entry(v, pointer@));
    let mut k: usize = 0;
    while k < vs.len()
        invariant
            k <= vs@.len(),
            all == vs@.map_values(|v: FieldViolation| violation_entry(v, pointer@)),
            messages_view(output@) == start + all.take(k as int),
        decreases vs@.len() - k,
    {
        let v = &vs[k];
        let entry = ErrorMessage {
            code: v.code.clone(),
            message: copy_opt_str(&v.message),
            type_uri: None,
            instance: None,
            source: Some(ErrorSource::new().with_pointer(pointer.clone())),
            meta: None,
        };
        let ghost before = output@;
        proof {
            assert(entry@ == violation_entry(vs@[k as int], pointer@));
        }
        output.push(entry);
        proof {
            assert(messages_view(output@) =~= messages_view(before).push(entry@));
            assert(all.take(k + 1) =~= all.take(k as int).push(all[k as int]));
            assert(messages_view(output@) =~= start + all.take(k + 1));
        }
        k = k + 1;
    }
    proof {
        assert(all.take(k as int) =~= all);
    }
}

/// Append the entries of the fields of `errors` under `prefix`.
fn collect(errors: &ValidationErrors, prefix: &String, output: &mut Vec<ErrorMessage>)
    ensures
        messages_view(final(output)@) == messages_view(old(output)@) + flatten_from(*errors, 0, prefix@),
    decreases *errors, 0nat,
{
    let ghost start = messages_view(output@);
    let mut i: usize = 0;
    while i < errors.fields.len()
        invariant
            i <= errors.fields@.len(),
            start + flatten_from(*errors, 0, prefix@) == messages_view(output@) + flatten_from(*errors, i as int, prefix@),
        decreases errors.fields@.len() - i,
    {
        let ghost before = messages_view(output@);
        let (name, kind) = &errors.fields[i];
        let mut pointer = prefix.clone();
        pointer.append("/");
        let token = escape_token(name.as_str());
        pointer.append(token.as_str());
        proof {
            reveal_strlit("/");
            assert(pointer@ =~= member_pointer(prefix@, name@));
            assert(decreases_to!(*errors => errors.fields@[i as int].1));
        }
        collect_kind(kind, &pointer, output);
        proof {
            let here = kind_entries(*kind, pointer@);
            let rest = flatten_from(*errors, i + 1, prefix@);
            assert(flatten_from(*errors, i as int, prefix@) == here + rest);
            assert(before + (here + rest) =~= (before + here) + rest);
        }
        i = i + 1;
    }
    proof {
        assert(flatten_from(*errors, i as int, prefix@) == Seq::<ErrorMessageView>::empty());
        assert(messages_view(output@) + Seq::<ErrorMessageView>::empty() =~= messages_view(output@));
    }
}

/// Append the entries of what went wrong under one field, at `pointer`.
fn collect_kind(kind: &ViolationKind, pointer: &String, output: &mut Vec<ErrorMessage>)
    ensures
        messages_view(final(output)@) == messages_view(old(output)@) + kind_entries(*kind, pointer@),
    decreases *kind, 1nat,
{
    match kind {
        ViolationKind::Field(vs) => {
            push_violations(vs, pointer, output);
        },
        ViolationKind::Struct(b) => {
            collect(b, pointer, output);
        },
        ViolationKind::List(items) => {
            let ghost start = messages_view(output@);
            let mut j: usize = 0;
            while j < items.len()
                invariant
                    j <= items@.len(),
                    *kind == ViolationKind::List(*items),
                    start + list_from(*kind, 0, pointer@) == messages_view(output@) + list_from(*kind, j as int, pointer@),
                decreases items@.len() - j,
            {
                let ghost before = messages_view(output@);
                let (index, nested) = &items[j];
                let mut at = pointer.clone();
                at.append("/");
                push_decimal(*index as u64, &mut at);
                proof {
                    reveal_strlit("/");
                    assert(at@ =~= index_pointer(pointer@, *index as nat));
                    assert(decreases_to!(*kind => items@[j as int].1));
                }
                collect(nested, &at, output);
                proof {
                    let here = flatten_from(*nested, 0, at@);
                    let rest = list_from(*kind, j + 1, pointer@);
                    assert(list_from(*kind, j as int, pointer@) == here + rest);
                    assert(before + (here + rest) =~= (before + here) + rest);
                }
                j = j + 1;
            }
            proof {
                assert(list_from(*kind, j as int, pointer@) == Seq::<ErrorMessageView>::empty());
                assert(messages_view(output@) + Seq::<ErrorMessageView>::empty() =~= messages_view(output@));
            }
        },
    }
}

/// Flatten a failure tree into one entry per violated rule. Nested structs and
/// lists are walked recursively; the JSON Pointer reflects the nesting
/// (`/address/zip`, `/items/0/name`). The `code` is the rule's code, the
/// `message` the rule's message when it has one.
pub fn validation_error_messages(errors: &ValidationErrors) -> (r: Vec<ErrorMessage>)
    ensures
        messages_view(r@) == flatten(*errors),
{
    let mut output: Vec<ErrorMessage> = Vec::new();
    let prefix = String::new();
    collect(errors, &prefix, &mut output);
    proof {
        assert(messages_view(output@) =~= flatten(*errors));
    }
    output
}

/// The failure envelope of a failed validation: one entry in `errors[]` per
/// violated rule, each with a JSON Pointer locator.
pub fn validation_failure(errors: &ValidationErrors) -> (r: ApiResponse<NoData>)
    ensures
        r.data is None,
        r.meta is None,
        messages_view(r.errors@) == flatten(*errors),
{
    failure(validation_error_messages(errors))
}

/// A value wrapped as validated. [`Validated::new`] wraps it only when the
/// validation outcome it is handed is `Ok`; that outcome is whatever the
/// caller's validation reported, so holding one means the caller's validation
/// said the value passed. There is no way to re-validate it.
#[derive(Debug, Clone, Copy, PartialEq, Eq)]
pub struct Validated<T>(T);

impl<T> Validated<T> {
    /// The validated value.
    pub closed spec fn value(self) -> T {
        self.0
    }

    /// Wrap `value` when its validation passed (`outcome` is `Ok`); otherwise
    /// return the failure envelope of the reported violations.
    pub fn new(value: T, outcome: Result<(), ValidationErrors>) -> (r: Result<Self, ApiResponse<NoData>>)
        ensures
            outcome is Ok ==> (r matches Ok(v) && v.value() == value),
            outcome matches Err(errors) ==> (r matches Err(resp) && resp.data is None
                && resp.meta is None && messages_view(resp.errors@) == flatten(errors)),
    {
        match outcome {
            Ok(()) => Ok(Validated(value)),
            Err(errors) => Err(validation_failure(&errors)),
        }
    }

    /// Borrow the validated value.
    pub fn get(&self) -> (r: &T)
        ensures
            *r == self.value(),
    {
        &self.0
    }

    /// Unwrap the validated value.
    pub fn into_inner(self) -> (r: T)
        ensures
            r == self.value(),
    {
        self.0
    }
}


/// The number of violated rules of the fields of `errors` from the `i`-th on.
pub open spec fn count_from(errors: ValidationErrors, i: int) -> nat
    decreases errors, 0nat, errors.fields@.len() - i,
    when 0 <= i
{
    if i >= errors.fields@.len() {
        0
    } else {
        kind_count(errors.fields@[i].1) + count_from(errors, i + 1)
    }
}

/// The number of violated rules under one field.
pub open spec fn kind_count(kind: ViolationKind) -> nat
    decreases kind, 1nat, 0int,
{
    match kind {
        ViolationKind::Field(vs) => vs@.len(),
        ViolationKind::Struct(b) => count_from(*b, 0),
        ViolationKind::List(_) => list_count(kind, 0),
    }
}

/// The number of violated rules of the listed elements from the `j`-th on.
pub open spec fn list_count(kind: ViolationKind, j: int) -> nat
    decreases kind, 0nat, (match kind { ViolationKind::List(items) => items@.len() as int, _ => 0int }) - j,
    when 0 <= j
{
    match kind {
        ViolationKind::List(items) => if j >= items@.len() {
            0
        } else {
            count_from(items@[j].1, 0) + list_count(kind, j + 1)
        },
        _ => 0,
    }
}

/// `p` is `prefix` followed by more: the next character a `/`.
pub open spec fn below(p: Seq<char>, prefix: Seq<char>) -> bool {
    p.len() > prefix.len() && p.take(prefix.len() as int) == prefix && p[prefix.len() as int] == '/'
}

/// `p` is `prefix`, or below it.
pub open spec fn at_or_below(p: Seq<char>, prefix: Seq<char>) -> bool {
    p == prefix || below(p, prefix)
}

/// The entry locates its field by a pointer alone, and that pointer satisfies
/// `ok`.
pub open spec fn located_by(e: ErrorMessageView, ok: spec_fn(Seq<char>) -> bool) -> bool {
    match e.source {
        Some(src) => src.parameter is None && src.header is None && match src.pointer {
            Some(p) => ok(p),
            None => false,
        },
        None => false,
    }
}

/// Every entry locates its field by a pointer alone, and that pointer
/// satisfies `ok`.
pub open spec fn pointers_satisfy(entries: Seq<ErrorMessageView>, ok: spec_fn(Seq<char>) -> bool) -> bool {
    forall|k: int| 0 <= k < entries.len() ==> located_by(#[trigger] entries[k], ok)
}

/// A pointer into the request body: non-empty and starting with `/`.
pub open spec fn body_pointer(p: Seq<char>) -> bool {
    p.len() > 0 && p[0] == '/'
}

proof fn lemma_below_member(p: Seq<char>, prefix: Seq<char>, name: Seq<char>)
    requires
        at_or_below(p, member_pointer(prefix, name)),
    ensures
        below(p, prefix),
{
    let m = member_pointer(prefix, name);
    assert(m.take(prefix.len() as int) =~= prefix);
    assert(m[prefix.len() as int] == '/');
    if p != m {
        let q = p.take(m.len() as int);
        assert(q == m);
        assert(p.take(prefix.len() as int) =~= q.take(prefix.len() as int));
        assert(p[prefix.len() as int] == q[prefix.len() as int]);
    }
}

proof fn lemma_below_index(p: Seq<char>, prefix: Seq<char>, index: nat)
    requires
        below(p, index_pointer(prefix, index)),
    ensures
        below(p, prefix),
{
    let m = index_pointer(prefix, index);
    assert(m.take(prefix.len() as int) =~= prefix);
    assert(m[prefix.len() as int] == '/');
    assert(p.take(prefix.len() as int) =~= m.take(prefix.len() as int));
    assert(p[prefix.len() as int] == p.take(m.len() as int)[prefix.len() as int]);
}

proof fn lemma_concat_pointers(a: Seq<ErrorMessageView>, b: Seq<ErrorMessageView>, ok: spec_fn(Seq<char>) -> bool)
    requires
        pointers_satisfy(a, ok),
        pointers_satisfy(b, ok),
    ensures
        pointers_satisfy(a + b, ok),
{
    assert forall|k: int| 0 <= k < (a + b).len() implies located_by(#[trigger] (a + b)[k], ok) by {
        if k < a.len() {
            assert((a + b)[k] == a[k]);
        } else {
            assert((a + b)[k] == b[k - a.len()]);
        }
    }
}

proof fn lemma_weaken_pointers(
    entries: Seq<ErrorMessageView>,
    ok: spec_fn(Seq<char>) -> bool,
    wider: spec_fn(Seq<char>) -> bool,
)
    requires
        pointers_satisfy(entries, ok),
        forall|p: Seq<char>| #[trigger] ok(p) ==> wider(p),
    ensures
        pointers_satisfy(entries, wider),
{
    assert forall|k: int| 0 <= k < entries.len() implies located_by(#[trigger] entries[k], wider) by {
        assert(located_by(entries[k], ok));
        let src = entries[k].source->Some_0;
        assert(ok(src.pointer->Some_0));
    }
}

/// The entries of the fields from the `i`-th on: one per violated rule, each
/// pointing below `prefix`.
proof fn lemma_fields_shape(errors: ValidationErrors, i: int, prefix: Seq<char>)
    requires
        0 <= i,
    ensures
        flatten_from(errors, i, prefix).len() == count_from(errors, i),
        pointers_satisfy(flatten_from(errors, i, prefix), |p: Seq<char>| below(p, prefix)),
    decreases errors, 0nat, errors.fields@.len() - i,
{
    if i < errors.fields@.len() {
        let (name, kind) = errors.fields@[i];
        let m = member_pointer(prefix, name@);
        assert(decreases_to!(errors => errors.fields@[i].1));
        lemma_kind_shape(kind, m);
        lemma_fields_shape(errors, i + 1, prefix);
        let here = kind_entries(kind, m);
        assert forall|p: Seq<char>| at_or_below(p, m) implies below(p, prefix) by {
            lemma_below_member(p, prefix, name@);
        }
        lemma_weaken_pointers(here, |p: Seq<char>| at_or_below(p, m), |p: Seq<char>| below(p, prefix));
        lemma_concat_pointers(here, flatten_from(errors, i + 1, prefix), |p: Seq<char>| below(p, prefix));
    } else {
        assert(pointers_satisfy(Seq::<ErrorMessageView>::empty(), |p: Seq<char>| below(p, prefix)));
    }
}

/// The entries under one field at `pointer`: one per violated rule, each
/// pointing at or below `pointer`.
proof fn lemma_kind_shape(kind: ViolationKind, pointer: Seq<char>)
    ensures
        kind_entries(kind, pointer).len() == kind_count(kind),
        pointers_satisfy(kind_entries(kind, pointer), |p: Seq<char>| at_or_below(p, pointer)),
    decreases kind, 1nat, 0int,
{
    match kind {
        ViolationKind::Field(vs) => {
            let entries = vs@.map_values(|v: FieldViolation| violation_entry(v, pointer));
            assert forall|k: int| 0 <= k < entries.len() implies located_by(
                #[trigger] entries[k],
                |p: Seq<char>| at_or_below(p, pointer),
            ) by {
                assert(entries[k] == violation_entry(vs@[k], pointer));
            }
        },
        ViolationKind::Struct(b) => {
            lemma_fields_shape(*b, 0, pointer);
            lemma_weaken_pointers(
                flatten_from(*b, 0, pointer),
                |p: Seq<char>| below(p, pointer),
                |p: Seq<char>| at_or_below(p, pointer),
            );
        },
        ViolationKind::List(_) => {
            lemma_list_shape(kind, 0, pointer);
            lemma_weaken_pointers(
                list_from(kind, 0, pointer),
                |p: Seq<char>| below(p, pointer),
                |p: Seq<char>| at_or_below(p, pointer),
            );
        },
    }
}

/// The entries of the listed elements from the `j`-th on: one per violated
/// rule, each pointing below `pointer`.
proof fn lemma_list_shape(kind: ViolationKind, j: int, pointer: Seq<char>)
    requires
        0 <= j,
    ensures
        list_from(kind, j, pointer).len() == list_count(kind, j),
        pointers_satisfy(list_from(kind, j, pointer), |p: Seq<char>| below(p, pointer)),
    decreases kind, 0nat, (match kind { ViolationKind::List(items) => items@.len() as int, _ => 0int }) - j,
{
    match kind {
        ViolationKind::List(items) => {
            if j < items@.len() {
                let (index, nested) = items@[j];
                let at = index_pointer(pointer, index as nat);
                assert(decreases_to!(kind => items@[j].1));
                lemma_fields_shape(nested, 0, at);
                lemma_list_shape(kind, j + 1, pointer);
                let here = flatten_from(nested, 0, at);
                assert forall|p: Seq<char>| below(p, at) implies below(p, pointer) by {
                    lemma_below_index(p, pointer, index as nat);
                }
                lemma_weaken_pointers(here, |p: Seq<char>| below(p, at), |p: Seq<char>| below(p, pointer));
                lemma_concat_pointers(here, list_from(kind, j + 1, pointer), |p: Seq<char>| below(p, pointer));
            } else {
                assert(pointers_satisfy(Seq::<ErrorMessageView>::empty(), |p: Seq<char>| below(p, pointer)));
            }
        },
        _ => {
            assert(pointers_satisfy(Seq::<ErrorMessageView>::empty(), |p: Seq<char>| below(p, pointer)));
        },
    }
}

/// Flattening a failure tree gives one entry per violated rule, and every
/// entry locates its field by a JSON Pointer alone, a non-empty one that
/// starts with `/`.
pub proof fn lemma_one_entry_per_violation(errors: ValidationErrors)
    ensures
        flatten(errors).len() == count_from(errors, 0),
        pointers_satisfy(flatten(errors), |p: Seq<char>| body_pointer(p)),
{
    lemma_fields_shape(errors, 0, Seq::empty());
    assert forall|p: Seq<char>| below(p, Seq::<char>::empty()) implies body_pointer(p) by {}
    lemma_weaken_pointers(
        flatten(errors),
        |p: Seq<char>| below(p, Seq::<char>::empty()),
        |p: Seq<char>| body_pointer(p),
    );
}


/// The entries of a field's own violated rules: one per rule, in order, each
/// carrying the rule's code and message, located at the field's pointer
/// alone, with no type, instance or meta.
pub proof fn lemma_field_entries_carry_rules(vs: Seq<FieldViolation>, pointer: Seq<char>)
    ensures
        ({
            let entries = vs.map_values(|v: FieldViolation| violation_entry(v, pointer));
            &&& entries.len() == vs.len()
            &&& forall|k: int| 0 <= k < vs.len() ==> (#[trigger] entries[k]).code == vs[k].code@ && entries[k].message
                == opt_str(vs[k].message) && entries[k].type_uri is None && entries[k].instance is None
                && entries[k].meta is None && entries[k].source == Some(
                ErrorSourceView { pointer: Some(pointer), parameter: None, header: None },
            )
        }),
{
}

} // verus!
