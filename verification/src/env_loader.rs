//! The grammar of variable descriptors, `NAME` and `NAME=value`, as they
//! stand in application descriptors and in env files.

use vstd::prelude::*;
use crate::error::{EnvFileError, EnvFileErrorView, EnvParseError, EnvParseErrorView};
use crate::seqs::{lemma_try_fold_step, result_view, try_fold};
use crate::spec::{EnvVariable, EnvVariableView};
use crate::text::{chars_of, find_char, lemma_next_char, next_char, slice_text};

verus! {

/// A variable as a descriptor declares it: a name, and a value if one is given.
#[derive(Debug, PartialEq, Eq)]
pub struct EnvDescriptor {
    /// The name of the variable.
    pub name: String,
    /// The value, where the descriptor gives one.
    pub default: Option<String>,
}

/// The mathematical value of a [`EnvDescriptor`].
pub struct EnvDescriptorView {
    pub name: Seq<char>,
    pub default: Option<Seq<char>>,
}

impl View for EnvDescriptor {
    type V = EnvDescriptorView;

    open spec fn view(&self) -> EnvDescriptorView {
        EnvDescriptorView {
            name: self.name@,
            default: self.default.deep_view(),
        }
    }
}

impl DeepView for EnvDescriptor {
    type V = EnvDescriptorView;

    open spec fn deep_view(&self) -> EnvDescriptorView {
        self@
    }
}

impl Clone for EnvDescriptor {
    fn clone(&self) -> (r: Self)
        ensures
            r@ == self@,
    {
        EnvDescriptor { name: self.name.clone(), default: self.default.clone() }
    }
}

/// Whether `c` is white space: a character with the Unicode property
/// `White_Space`.
pub open spec fn is_blank(c: char) -> bool {
    let n = c as u32;
    ||| n == 0x20
    ||| 0x09 <= n <= 0x0D
    ||| n == 0x85
    ||| n == 0xA0
    ||| n == 0x1680
    ||| 0x2000 <= n <= 0x200A
    ||| n == 0x2028
    ||| n == 0x2029
    ||| n == 0x202F
    ||| n == 0x205F
    ||| n == 0x3000
}

fn is_blank_char(c: char) -> (r: bool)
    ensures
        r == is_blank(c),
{
    let n = c as u32;
    n == 0x20 || (0x09 <= n && n <= 0x0D) || n == 0x85 || n == 0xA0 || n == 0x1680 || (0x2000 <= n
        && n <= 0x200A) || n == 0x2028 || n == 0x2029 || n == 0x202F || n == 0x205F || n == 0x3000
}

/// `s` without the white space at its start.
pub open spec fn trim_start(s: Seq<char>) -> Seq<char>
    decreases s.len(),
{
    if s.len() > 0 && is_blank(s[0]) {
        trim_start(s.drop_first())
    } else {
        s
    }
}

/// `s` without the white space at its end.
pub open spec fn trim_end(s: Seq<char>) -> Seq<char>
    decreases s.len(),
{
    if s.len() > 0 && is_blank(s.last()) {
        trim_end(s.drop_last())
    } else {
        s
    }
}

/// `s` without the white space at its start and at its end.
pub open spec fn trimmed(s: Seq<char>) -> Seq<char> {
    trim_end(trim_start(s))
}

/// The bounds of what is left of `chars[from..to]` when the white space
/// around it is taken off.
pub fn trim_bounds(chars: &Vec<char>, from: usize, to: usize) -> (r: (usize, usize))
    requires
        from <= to <= chars.len(),
    ensures
        from <= r.0 <= r.1 <= to,
        chars@.subrange(r.0 as int, r.1 as int) == trimmed(chars@.subrange(from as int, to as int)),
{
    let mut a: usize = from;
    while a < to && is_blank_char(chars[a])
        invariant
            from <= a <= to <= chars.len(),
            trim_start(chars@.subrange(from as int, to as int)) == trim_start(
                chars@.subrange(a as int, to as int),
            ),
        decreases to - a,
    {
        assert(chars@.subrange(a as int, to as int).drop_first() =~= chars@.subrange(
            a + 1,
            to as int,
        ));
        a += 1;
    }
    let mut b: usize = to;
    while b > a && is_blank_char(chars[b - 1])
        invariant
            a <= b <= to <= chars.len(),
            trim_end(chars@.subrange(a as int, to as int)) == trim_end(
                chars@.subrange(a as int, b as int),
            ),
        decreases b - a,
    {
        assert(chars@.subrange(a as int, b as int).drop_last() =~= chars@.subrange(
            a as int,
            b - 1,
        ));
        b -= 1;
    }
    (a, b)
}

/// Whether `value` opens with a quote: `"` or `'`.
pub open spec fn opens_with_quote(value: Seq<char>) -> bool {
    value.len() > 0 && (value[0] == '"' || value[0] == '\'')
}

/// Whether `value` is wrapped in a pair of the quote `quote`: it starts with
/// one and ends with another. A lone quote is not wrapped.
pub open spec fn quoted_with(value: Seq<char>, quote: char) -> bool {
    value.len() >= 2 && value.first() == quote && value.last() == quote
}

/// What a descriptor that holds a `=` at index `eq` declares: the name
/// before it and the value after it, both without the white space around
/// them.
///
/// A value that opens with a quote must close with the same quote; the pair
/// is taken off, and what stands between the two is the value as it stands.
/// A value that opens with a quote and does not close with it is refused. A
/// value that opens with no quote holds no `=`.
pub open spec fn parsed_assignment(line: Seq<char>, eq: int) -> Result<
    EnvDescriptorView,
    EnvParseErrorView,
> {
    let name = trimmed(line.subrange(0, eq));
    let value = trimmed(line.subrange(eq + 1, line.len() as int));
    if name.len() == 0 {
        Err(EnvParseErrorView::EmptyName)
    } else if opens_with_quote(value) {
        if quoted_with(value, value[0]) {
            Ok(EnvDescriptorView { name, default: Some(value.subrange(1, value.len() - 1)) })
        } else {
            Err(EnvParseErrorView::InvalidQuotedValue)
        }
    } else if next_char(value, '=', 0) is Some {
        Err(EnvParseErrorView::UnquotedEquals)
    } else {
        Ok(EnvDescriptorView { name, default: Some(value) })
    }
}

/// What the descriptor `input` declares.
///
/// `NAME` declares a name without a value. `NAME=value` declares a name with
/// a value; the `=` that separates them is the first of the text. A value
/// holds no `=` unless it is wrapped in a pair of `"` or of `'`, which are
/// then taken off; a quote that opens a value and is not closed is an
/// error. White space around the text, the name and the value does not
/// count.
pub open spec fn parsed_descriptor(input: Seq<char>) -> Result<EnvDescriptorView, EnvParseErrorView> {
    let line = trimmed(input);
    if line.len() == 0 {
        Err(EnvParseErrorView::Empty)
    } else {
        match next_char(line, '=', 0) {
            None => Ok(EnvDescriptorView { name: line, default: None }),
            Some(eq) => parsed_assignment(line, eq),
        }
    }
}

/// Reads a variable descriptor, `NAME` or `NAME=value`.
pub fn parse_env_string(input: &str) -> (r: Result<EnvDescriptor, EnvParseError>)
    ensures
        result_view(r) == parsed_descriptor(input@),
{
    let all = chars_of(input);
    let (a, b) = trim_bounds(&all, 0, all.len());
    assert(all@.subrange(0, all.len() as int) =~= all@);
    if a == b {
        return Err(EnvParseError::Empty);
    }
    let line = slice_text(input, a, b);
    let chars = chars_of(line.as_str());
    let n = chars.len();
    proof {
        lemma_next_char(line@, '=', 0);
    }
    let eq = match find_char(&chars, '=', 0) {
        None => {
            return Ok(EnvDescriptor { name: line, default: None });
        },
        Some(eq) => eq,
    };
    let (name_from, name_to) = trim_bounds(&chars, 0, eq);
    if name_from == name_to {
        return Err(EnvParseError::EmptyName);
    }
    let name = slice_text(line.as_str(), name_from, name_to);
    let (from, to) = trim_bounds(&chars, eq + 1, n);
    let ghost value = chars@.subrange(from as int, to as int);
    if from < to && (chars[from] == '"' || chars[from] == '\'') {
        if to - from >= 2 && chars[to - 1] == chars[from] {
            let inner = slice_text(line.as_str(), from + 1, to - 1);
            assert(line@.subrange(from + 1, to - 1) =~= value.subrange(1, value.len() - 1));
            return Ok(EnvDescriptor { name, default: Some(inner) });
        } else {
            return Err(EnvParseError::InvalidQuotedValue);
        }
    }
    let text = slice_text(line.as_str(), from, to);
    let text_chars = chars_of(text.as_str());
    match find_char(&text_chars, '=', 0) {
        Some(_) => Err(EnvParseError::UnquotedEquals),
        None => Ok(EnvDescriptor { name, default: Some(text) }),
    }
}

/// What the descriptor `input` declares, where a value is needed.
pub open spec fn parsed_variable(input: Seq<char>) -> Result<EnvVariableView, EnvParseErrorView> {
    match parsed_descriptor(input) {
        Ok(d) => match d.default {
            Some(value) => Ok(EnvVariableView { name: d.name, value }),
            None => Err(EnvParseErrorView::MissingValue { input }),
        },
        Err(e) => Err(e),
    }
}

/// Reads a variable with its value, `NAME=value`.
pub fn parse_env_variable(input: &str) -> (r: Result<EnvVariable, EnvParseError>)
    ensures
        result_view(r) == parsed_variable(input@),
{
    match parse_env_string(input) {
        Ok(desc) => match desc.default {
            Some(value) => Ok(EnvVariable { name: desc.name, value }),
            None => Err(EnvParseError::MissingValue { input: input.to_owned() }),
        },
        Err(e) => Err(e),
    }
}

/// Reads one line of an env file. The state holds the variables read so far
/// and the number of lines before this one. A line that is blank, or whose
/// first character that is not white space is `#`, gives no variable.
pub open spec fn env_line_step() -> spec_fn((Seq<EnvVariableView>, int), Seq<char>) -> Result<
    (Seq<EnvVariableView>, int),
    EnvFileErrorView,
> {
    |state: (Seq<EnvVariableView>, int), line: Seq<char>|
        {
            let text = trimmed(line);
            if text.len() == 0 || text[0] == '#' {
                Ok((state.0, state.1 + 1))
            } else {
                match parsed_variable(text) {
                    Ok(var) => Ok((state.0.push(var), state.1 + 1)),
                    Err(cause) => Err(
                        EnvFileErrorView { line: (state.1 + 1) as usize, text, cause },
                    ),
                }
            }
        }
}

/// The variables that the lines of an env file give, in order, or the first
/// line that is refused.
pub open spec fn parsed_env_file(lines: Seq<Seq<char>>) -> Result<
    Seq<EnvVariableView>,
    EnvFileErrorView,
> {
    match try_fold(lines, (Seq::empty(), 0int), env_line_step()) {
        Ok(state) => Ok(state.0),
        Err(e) => Err(e),
    }
}

/// Reads the variables of an env file from its lines: one `NAME=value` per
/// line, with blank lines and lines that start with `#` passed over.
pub fn load_env_file(lines: &[String]) -> (r: Result<Vec<EnvVariable>, EnvFileError>)
    ensures
        result_view(r) == parsed_env_file(lines.deep_view()),
{
    let ghost step = env_line_step();
    let mut env_vars: Vec<EnvVariable> = Vec::new();
    let mut i: usize = 0;
    proof {
        assert(lines.deep_view().skip(0) =~= lines.deep_view());
        assert(env_vars.deep_view() =~= Seq::empty());
    }
    while i < lines.len()
        invariant
            i <= lines.len(),
            step == env_line_step(),
            try_fold(lines.deep_view(), (Seq::empty(), 0int), step) == try_fold(
                lines.deep_view().skip(i as int),
                (env_vars.deep_view(), i as int),
                step,
            ),
        decreases lines.len() - i,
    {
        proof {
            lemma_try_fold_step(
                lines.deep_view(),
                i as int,
                (env_vars.deep_view(), i as int),
                step,
            );
        }
        let line = lines[i].as_str();
        let chars = chars_of(line);
        let (a, b) = trim_bounds(&chars, 0, chars.len());
        assert(chars@.subrange(0, chars.len() as int) =~= chars@);
        if a < b && chars[a] != '#' {
            let text = slice_text(line, a, b);
            let ghost before = env_vars.deep_view();
            match parse_env_variable(text.as_str()) {
                Ok(var) => {
                    env_vars.push(var);
                    assert(env_vars.deep_view() =~= before.push(var@));
                },
                Err(cause) => {
                    return Err(EnvFileError { line: i + 1, text, cause });
                },
            }
        }
        i += 1;
    }
    proof {
        lemma_try_fold_step(lines.deep_view(), i as int, (env_vars.deep_view(), i as int), step);
    }
    Ok(env_vars)
}

} // verus!
