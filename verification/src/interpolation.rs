//! The interpolation engine: replaces `${name}` references in a text by the
//! values of variables that are already resolved.

use vstd::prelude::*;
use crate::error::{InterpolationError, InterpolationErrorView};
use crate::seqs::{first_from, first_where, index_view, result_view};
use crate::spec::{EnvVariable, EnvVariableView};
use crate::text::{chars_of, find_char, lemma_next_char, next_char, same_text, slice_text};

verus! {

/// Whether a reference opens at index `i` of `t`: a `$` with a `{` after it.
pub open spec fn reference_at(t: Seq<char>, i: int) -> bool {
    0 <= i && i + 1 < t.len() && t[i] == '$' && t[i + 1] == '{'
}

/// The first index at or after `from` at which a reference opens in `t`, if
/// there is one.
pub open spec fn next_reference(t: Seq<char>, from: int) -> Option<int>
    decreases t.len() - from,
{
    if from < 0 || from + 1 >= t.len() {
        None
    } else if reference_at(t, from) {
        Some(from)
    } else {
        next_reference(t, from + 1)
    }
}

/// What [`next_reference`] finds is an index at which a reference opens, and
/// none opens between `from` and that index.
pub proof fn lemma_next_reference(t: Seq<char>, from: int)
    requires
        0 <= from,
    ensures
        match next_reference(t, from) {
            Some(i) => from <= i && reference_at(t, i) && forall|j: int|
                from <= j < i ==> !reference_at(t, j),
            None => forall|j: int| from <= j ==> !reference_at(t, j),
        },
    decreases t.len() - from,
{
    if from + 1 < t.len() && !reference_at(t, from) {
        lemma_next_reference(t, from + 1);
    }
}

fn find_reference(chars: &Vec<char>, from: usize) -> (r: Option<usize>)
    ensures
        index_view(r) == next_reference(chars@, from as int),
{
    if chars.len() < 2 {
        return None;
    }
    let mut i: usize = from;
    while i < chars.len() - 1
        invariant
            from <= i,
            chars.len() >= 2,
            next_reference(chars@, from as int) == next_reference(chars@, i as int),
        decreases chars.len() - i,
    {
        if chars[i] == '$' && chars[i + 1] == '{' {
            return Some(i);
        }
        i += 1;
    }
    None
}

/// Selects the variables of the name `name`.
pub open spec fn var_named(name: Seq<char>) -> spec_fn(EnvVariableView) -> bool {
    |v: EnvVariableView| v.name == name
}

/// The value of the first variable of the name `name`, if there is one.
pub open spec fn value_of(vars: Seq<EnvVariableView>, name: Seq<char>) -> Option<Seq<char>> {
    match first_where(vars, var_named(name)) {
        Some(i) => Some(vars[i].value),
        None => None,
    }
}

/// The index of the first variable of the name `name`, if there is one.
pub fn find_var(vars: &[EnvVariable], name: &str) -> (r: Option<usize>)
    ensures
        index_view(r) == first_where(vars.deep_view(), var_named(name@)),
        r matches Some(i) ==> i < vars.len() && vars[i as int].name@ == name@,
{
    let mut i: usize = 0;
    while i < vars.len()
        invariant
            first_where(vars.deep_view(), var_named(name@)) == first_from(
                vars.deep_view(),
                var_named(name@),
                i as int,
            ),
        decreases vars.len() - i,
    {
        if same_text(vars[i].name.as_str(), name) {
            return Some(i);
        }
        i += 1;
    }
    None
}

/// `t` from index `from` on, with each `${name}` replaced by the value that
/// `vars` gives to `name`.
///
/// A reference runs from a `${` to the first `}` after it. The text that
/// replaces a reference is not searched for references again.
pub open spec fn interpolate_from(t: Seq<char>, from: int, vars: Seq<EnvVariableView>) -> Result<
    Seq<char>,
    InterpolationErrorView,
>
    decreases t.len() - from,
{
    if from < 0 || from > t.len() {
        Ok(Seq::empty())
    } else {
        match next_reference(t, from) {
            None => Ok(t.subrange(from, t.len() as int)),
            Some(start) => match next_char(t, '}', start) {
                None => Err(InterpolationErrorView::Malformed { template: t }),
                Some(end) => {
                    let name = t.subrange(start + 2, end);
                    match value_of(vars, name) {
                        None => Err(InterpolationErrorView::Undefined { name }),
                        Some(value) => {
                            proof {
                                lemma_next_reference(t, from);
                                lemma_next_char(t, '}', start);
                            }
                            match interpolate_from(t, end + 1, vars) {
                                Ok(rest) => Ok(t.subrange(from, start) + value + rest),
                                Err(e) => Err(e),
                            }
                        },
                    }
                },
            },
        }
    }
}

/// `t` with each `${name}` replaced by the value that `vars` gives to `name`.
pub open spec fn interpolate(t: Seq<char>, vars: Seq<EnvVariableView>) -> Result<
    Seq<char>,
    InterpolationErrorView,
> {
    interpolate_from(t, 0, vars)
}

/// Whether `t` holds no reference: no `$` with a `{` after it.
pub open spec fn without_references(t: Seq<char>) -> bool {
    forall|i: int| !reference_at(t, i)
}

/// A text that holds no reference is its own interpolation, whatever the
/// variables; so interpolating it once more changes nothing.
pub proof fn lemma_interpolate_without_references(t: Seq<char>, vars: Seq<EnvVariableView>)
    requires
        without_references(t),
    ensures
        interpolate(t, vars) == Ok::<Seq<char>, InterpolationErrorView>(t),
        interpolate(interpolate(t, vars)->Ok_0, vars) == interpolate(t, vars),
{
    lemma_next_reference(t, 0);
    assert(next_reference(t, 0) is None) by {
        if next_reference(t, 0) is Some {
            assert(reference_at(t, next_reference(t, 0)->0));
        }
    }
    assert(t.subrange(0, t.len() as int) =~= t);
}

/// Interpolation is a function of the text and the variables: two runs of
/// [`resolve_variable_in_string`] on the same text and variables end alike.
pub proof fn lemma_interpolation_deterministic(
    t: Seq<char>,
    vars: Seq<EnvVariableView>,
    first: Result<String, InterpolationError>,
    second: Result<String, InterpolationError>,
)
    requires
        result_view(first) == interpolate(t, vars),
        result_view(second) == interpolate(t, vars),
    ensures
        result_view(first) == result_view(second),
{
}

/// The names that the references of `t` name, from index `from` on and in
/// their order, as interpolation reads them. Reading ends at a `${` that has
/// no `}` after it.
pub open spec fn referenced_names(t: Seq<char>, from: int) -> Seq<Seq<char>>
    decreases t.len() - from,
{
    if from < 0 || from > t.len() {
        Seq::empty()
    } else {
        match next_reference(t, from) {
            None => Seq::empty(),
            Some(start) => match next_char(t, '}', start) {
                None => Seq::empty(),
                Some(end) => {
                    proof {
                        lemma_next_reference(t, from);
                        lemma_next_char(t, '}', start);
                    }
                    seq![t.subrange(start + 2, end)] + referenced_names(t, end + 1)
                },
            },
        }
    }
}

/// Where interpolation succeeds, every name that the text refers to is the
/// name of one of the variables.
pub proof fn lemma_interpolation_defines_references(
    t: Seq<char>,
    from: int,
    vars: Seq<EnvVariableView>,
)
    ensures
        interpolate_from(t, from, vars) is Ok ==> forall|k: int|
            0 <= k < referenced_names(t, from).len() ==> value_of(
                vars,
                #[trigger] referenced_names(t, from)[k],
            ) is Some,
    decreases t.len() - from,
{
    if 0 <= from <= t.len() {
        if let Some(start) = next_reference(t, from) {
            if let Some(end) = next_char(t, '}', start) {
                lemma_next_reference(t, from);
                lemma_next_char(t, '}', start);
                lemma_interpolation_defines_references(t, end + 1, vars);
                if interpolate_from(t, from, vars) is Ok {
                    let names = referenced_names(t, from);
                    let rest = referenced_names(t, end + 1);
                    assert forall|k: int| 0 <= k < names.len() implies value_of(
                        vars,
                        #[trigger] names[k],
                    ) is Some by {
                        if k > 0 {
                            assert(names[k] == rest[k - 1]);
                        }
                    }
                }
            }
        }
    }
}

/// `prefix` in front of a text that may have failed.
pub open spec fn prefixed(prefix: Seq<char>, rest: Result<Seq<char>, InterpolationErrorView>) -> Result<
    Seq<char>,
    InterpolationErrorView,
> {
    match rest {
        Ok(r) => Ok(prefix + r),
        Err(e) => Err(e),
    }
}

/// Replaces each `${name}` in `input` by the value that `vars` gives to `name`.
///
/// Fails when a `${` has no `}` after it, and when a name has no variable.
pub fn resolve_variable_in_string(input: &String, vars: &[EnvVariable]) -> (r: Result<
    String,
    InterpolationError,
>)
    ensures
        result_view(r) == interpolate(input@, vars.deep_view()),
{
    let chars = chars_of(input.as_str());
    let mut result = String::new();
    let mut last_end: usize = 0;
    assert(Seq::<char>::empty() + Seq::<char>::empty() =~= Seq::<char>::empty());
    loop
        invariant
            chars@ == input@,
            last_end <= chars.len(),
            interpolate(input@, vars.deep_view()) == prefixed(
                result@,
                interpolate_from(input@, last_end as int, vars.deep_view()),
            ),
        decreases chars.len() - last_end,
    {
        proof {
            lemma_next_reference(input@, last_end as int);
        }
        match find_reference(&chars, last_end) {
            None => {
                let rest = slice_text(input.as_str(), last_end, chars.len());
                result.append(rest.as_str());
                return Ok(result);
            },
            Some(start) => {
                proof {
                    lemma_next_char(input@, '}', start as int);
                }
                match find_char(&chars, '}', start) {
                    None => {
                        return Err(InterpolationError::Malformed { template: input.clone() });
                    },
                    Some(end) => {
                        let name = slice_text(input.as_str(), start + 2, end);
                        match find_var(vars, name.as_str()) {
                            None => {
                                return Err(InterpolationError::Undefined { name });
                            },
                            Some(k) => {
                                let before = slice_text(input.as_str(), last_end, start);
                                let ghost old_result = result@;
                                result.append(before.as_str());
                                result.append(vars[k].value.as_str());
                                proof {
                                    let rest = interpolate_from(
                                        input@,
                                        end + 1,
                                        vars.deep_view(),
                                    );
                                    if let Ok(r) = rest {
                                        assert(old_result + (before@ + vars[k as int].value@ + r)
                                            =~= result@ + r);
                                    }
                                }
                                last_end = end + 1;
                            },
                        }
                    },
                }
            },
        }
    }
}

} // verus!
