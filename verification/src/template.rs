//! Message templates: a declared message with `{field}` placeholders,
//! rendered over the values of a variant's fields.
//!
//! A template is text in which a placeholder `{name}` or `{name:spec}` stands
//! for a field's value formatted as the placeholder says, `{{` for `{` and
//! `}}` for `}`. Positional fields are named `arg_0`, `arg_1`, .... The values
//! are given per placeholder as written (`id`, `id:?`, `arg_0:>5`): formatting
//! a value by a spec is the value's own `Display` or `Debug` at work, done by
//! the caller. A template with a placeholder that has no value, no field name
//! (`{}`, `{:?}`), no closing `}` or a nested `{`, or with a lone `}`, is not
//! rendered.

use crate::error_message::opt_str;
use vstd::prelude::*;

verus! {

/// The value given for the placeholder `name` (the first one given).
pub open spec fn field_value(fields: Seq<(Seq<char>, Seq<char>)>, name: Seq<char>) -> Option<Seq<char>>
    decreases fields.len(),
{
    if fields.len() == 0 {
        None
    } else if fields[0].0 == name {
        Some(fields[0].1)
    } else {
        field_value(fields.drop_first(), name)
    }
}

/// The fields, seen as their characters.
pub open spec fn fields_view(fields: Seq<(String, String)>) -> Seq<(Seq<char>, Seq<char>)> {
    fields.map_values(|f: (String, String)| (f.0@, f.1@))
}

/// A rendered piece followed by the rendering of the rest, if both exist.
pub open spec fn then(piece: Seq<char>, rest: Option<Seq<char>>) -> Option<Seq<char>> {
    match rest {
        Some(r) => Some(piece + r),
        None => None,
    }
}

/// The rendering of the template from the `i`-th character on.
pub open spec fn render_from(t: Seq<char>, i: int, fields: Seq<(Seq<char>, Seq<char>)>) -> Option<Seq<char>>
    decreases t.len() - i,
    when 0 <= i
{
    if i >= t.len() {
        Some(Seq::empty())
    } else if t[i] == '{' {
        if i + 1 < t.len() && t[i + 1] == '{' {
            then(seq!['{'], render_from(t, i + 2, fields))
        } else {
            placeholder_from(t, i + 1, Seq::empty(), fields)
        }
    } else if t[i] == '}' {
        if i + 1 < t.len() && t[i + 1] == '}' {
            then(seq!['}'], render_from(t, i + 2, fields))
        } else {
            None
        }
    } else {
        then(seq![t[i]], render_from(t, i + 1, fields))
    }
}

/// The rendering of a placeholder whose text so far is `name`, read on from
/// the `j`-th character, followed by the rendering of the rest. The text is
/// looked up as written, format spec included; it must start with a field
/// name.
pub open spec fn placeholder_from(
    t: Seq<char>,
    j: int,
    name: Seq<char>,
    fields: Seq<(Seq<char>, Seq<char>)>,
) -> Option<Seq<char>>
    decreases t.len() - j,
    when 0 <= j
{
    if j >= t.len() || t[j] == '{' {
        None
    } else if t[j] == '}' {
        if name.len() == 0 || name[0] == ':' {
            None
        } else {
            match field_value(fields, name) {
                Some(v) => then(v, render_from(t, j + 1, fields)),
                None => None,
            }
        }
    } else {
        placeholder_from(t, j + 1, name.push(t[j]), fields)
    }
}

/// The rendering of a whole template, `None` when it cannot be rendered.
pub open spec fn rendered(t: Seq<char>, fields: Seq<(Seq<char>, Seq<char>)>) -> Option<Seq<char>> {
    render_from(t, 0, fields)
}

/// The value given for the placeholder `name` (the first one given).
fn find_field<'a>(fields: &'a Vec<(String, String)>, name: &String) -> (r: Option<&'a String>)
    ensures
        match field_value(fields_view(fields@), name@) {
            Some(v) => r matches Some(x) && x@ == v,
            None => r is None,
        },
{
    let ghost all = fields_view(fields@);
    let mut k: usize = 0;
    proof {
        assert(all.skip(0) =~= all);
    }
    while k < fields.len()
        invariant
            k <= fields@.len(),
            all == fields_view(fields@),
            field_value(all, name@) == field_value(all.skip(k as int), name@),
        decreases fields@.len() - k,
    {
        proof {
            assert(all.skip(k as int)[0] == (fields@[k as int].0@, fields@[k as int].1@));
            assert(all.skip(k as int).drop_first() =~= all.skip(k + 1));
        }
        if fields[k].0 == *name {
            return Some(&fields[k].1);
        }
        k = k + 1;
    }
    proof {
        assert(all.skip(k as int) =~= Seq::<(Seq<char>, Seq<char>)>::empty());
    }
    None
}

/// `piece` followed by `rest`, when the rest was rendered.
fn join(piece: &str, rest: Option<String>) -> (r: Option<String>)
    ensures
        opt_str(r) == then(piece@, opt_str(rest)),
{
    match rest {
        Some(tail) => {
            let mut out = String::from_str(piece);
            out.append(tail.as_str());
            Some(out)
        },
        None => None,
    }
}

/// Render the template from the `i`-th character on.
fn render_at(t: &str, i: usize, fields: &Vec<(String, String)>) -> (r: Option<String>)
    requires
        i <= t@.len(),
    ensures
        opt_str(r) == render_from(t@, i as int, fields_view(fields@)),
    decreases t@.len() - i, 1nat,
{
    let n = t.unicode_len();
    if i >= n {
        return Some(String::new());
    }
    let c = t.get_char(i);
    proof {
        reveal_strlit("{");
        reveal_strlit("}");
    }
    if c == '{' {
        if i + 1 < n && t.get_char(i + 1) == '{' {
            join("{", render_at(t, i + 2, fields))
        } else {
            placeholder_at(t, i + 1, String::new(), fields)
        }
    } else if c == '}' {
        if i + 1 < n && t.get_char(i + 1) == '}' {
            join("}", render_at(t, i + 2, fields))
        } else {
            None
        }
    } else {
        let one = t.substring_char(i, i + 1);
        proof {
            assert(one@ =~= seq![c]);
        }
        join(one, render_at(t, i + 1, fields))
    }
}

/// Render a placeholder whose name so far is `name`, from the `j`-th
/// character on, and the rest after it.
fn placeholder_at(t: &str, j: usize, name: String, fields: &Vec<(String, String)>) -> (r: Option<String>)
    requires
        j <= t@.len(),
    ensures
        opt_str(r) == placeholder_from(t@, j as int, name@, fields_view(fields@)),
    decreases t@.len() - j, 0nat,
{
    let n = t.unicode_len();
    if j >= n {
        return None;
    }
    let c = t.get_char(j);
    if c == '{' {
        None
    } else if c == '}' {
        if name.unicode_len() == 0 || name.as_str().get_char(0) == ':' {
            None
        } else {
            match find_field(fields, &name) {
                Some(v) => join(v.as_str(), render_at(t, j + 1, fields)),
                None => None,
            }
        }
    } else {
        let mut longer = name;
        let one = t.substring_char(j, j + 1);
        proof {
            assert(one@ =~= seq![c]);
        }
        let ghost before = longer@;
        longer.append(one);
        proof {
            assert(longer@ =~= before.push(c));
        }
        placeholder_at(t, j + 1, longer, fields)
    }
}

/// Render a message template over placeholder values: `{name}` (or
/// `{name:spec}`) becomes the value given for that placeholder as written,
/// `{{` and `}}` become `{` and `}`; `None` when the template is not one this
/// renders.
pub fn render_message(template: &str, fields: &Vec<(String, String)>) -> (r: Option<String>)
    ensures
        opt_str(r) == rendered(template@, fields_view(fields@)),
{
    render_at(template, 0, fields)
}


/// No brace in `t` from the `i`-th to before the `j`-th character.
pub open spec fn plain_between(t: Seq<char>, i: int, j: int) -> bool {
    forall|k: int| i <= k < j ==> t[k] != '{' && t[k] != '}'
}

/// Plain text renders as itself, ahead of whatever follows it.
pub proof fn lemma_plain_renders_as_itself(t: Seq<char>, i: int, j: int, fields: Seq<(Seq<char>, Seq<char>)>)
    requires
        0 <= i <= j <= t.len(),
        plain_between(t, i, j),
    ensures
        render_from(t, i, fields) == then(t.subrange(i, j), render_from(t, j, fields)),
    decreases j - i,
{
    if i < j {
        lemma_plain_renders_as_itself(t, i + 1, j, fields);
        assert(seq![t[i]] + t.subrange(i + 1, j) =~= t.subrange(i, j));
        match render_from(t, j, fields) {
            Some(r) => {
                assert(seq![t[i]] + (t.subrange(i + 1, j) + r) =~= t.subrange(i, j) + r);
            },
            None => {},
        }
    } else {
        match render_from(t, j, fields) {
            Some(r) => {
                assert(t.subrange(i, j) + r =~= r);
            },
            None => {},
        }
    }
}

/// A placeholder renders as the value given for it: after `{` at `i`, the
/// text up to the `}` at `j` (no brace inside, not starting with `:`, not
/// empty) is looked up, and rendering goes on after the `}`.
pub proof fn lemma_placeholder_renders_its_value(t: Seq<char>, i: int, j: int, fields: Seq<(Seq<char>, Seq<char>)>)
    requires
        0 <= i < j < t.len(),
        t[i] == '{',
        t[j] == '}',
        i + 1 < j,
        t[i + 1] != ':',
        plain_between(t, i + 1, j),
    ensures
        render_from(t, i, fields) == match field_value(fields, t.subrange(i + 1, j)) {
            Some(v) => then(v, render_from(t, j + 1, fields)),
            None => None,
        },
{
    lemma_placeholder_reads_name(t, i + 1, j, Seq::empty(), fields);
    assert(Seq::<char>::empty() + t.subrange(i + 1, j) =~= t.subrange(i + 1, j));
}

proof fn lemma_placeholder_reads_name(
    t: Seq<char>,
    k: int,
    j: int,
    name: Seq<char>,
    fields: Seq<(Seq<char>, Seq<char>)>,
)
    requires
        0 <= k <= j < t.len(),
        t[j] == '}',
        plain_between(t, k, j),
        name.len() > 0 || k < j,
        name.len() > 0 ==> name[0] != ':',
        name.len() == 0 ==> t[k] != ':',
    ensures
        placeholder_from(t, k, name, fields) == match field_value(fields, name + t.subrange(k, j)) {
            Some(v) => then(v, render_from(t, j + 1, fields)),
            None => None,
        },
    decreases j - k,
{
    if k < j {
        lemma_placeholder_reads_name(t, k + 1, j, name.push(t[k]), fields);
        assert(name.push(t[k]) + t.subrange(k + 1, j) =~= name + t.subrange(k, j));
    } else {
        assert(name + t.subrange(k, j) =~= name);
    }
}

} // verus!
