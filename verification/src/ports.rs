//! Ports as descriptors write them: `external:internal`, two numbers from 0
//! to 65535.

use vstd::prelude::*;
use crate::error::{TransformError, TransformErrorView};
use crate::seqs::{lemma_try_fold_step, result_view, try_fold};
use crate::spec::ServicePort;
use crate::text::{chars_of, find_char, lemma_next_char, next_char, slice_text};

verus! {

/// Whether `c` is one of the digits `0` to `9`.
pub open spec fn is_digit(c: char) -> bool {
    '0' <= c <= '9'
}

/// The number that a sequence of digits writes in base ten.
pub open spec fn digits_value(s: Seq<char>) -> nat
    decreases s.len(),
{
    if s.len() == 0 {
        0
    } else {
        digits_value(s.drop_last()) * 10 + ((s.last() as u32 - '0' as u32) as nat)
    }
}

/// Whether `s` holds digits only.
pub open spec fn all_digits(s: Seq<char>) -> bool {
    forall|i: int| 0 <= i < s.len() ==> is_digit(#[trigger] s[i])
}

/// The port that digits write: their value in base ten, if there is at
/// least one digit, nothing but digits, and the value is 65535 at most.
pub open spec fn written_port(digits: Seq<char>) -> Option<u16> {
    if digits.len() > 0 && all_digits(digits) && digits_value(digits) <= u16::MAX {
        Some(digits_value(digits) as u16)
    } else {
        None
    }
}

/// The port that a text writes: digits, with a `+` before them if one likes.
pub open spec fn parsed_port(s: Seq<char>) -> Option<u16> {
    if s.len() > 0 && s[0] == '+' {
        written_port(s.drop_first())
    } else {
        written_port(s)
    }
}

proof fn lemma_digits_prefix(s: Seq<char>, k: int)
    requires
        0 <= k <= s.len(),
        all_digits(s),
    ensures
        digits_value(s.take(k)) <= digits_value(s),
    decreases s.len() - k,
{
    if k == s.len() {
        assert(s.take(k) =~= s);
    } else {
        assert(s.take(k + 1).drop_last() =~= s.take(k));
        assert(s.take(k + 1).last() == s[k]);
        assert(is_digit(s[k]));
        lemma_digits_prefix(s, k + 1);
    }
}

fn parse_port(text: &str) -> (r: Option<u16>)
    ensures
        r == parsed_port(text@),
{
    let chars = chars_of(text);
    let n = chars.len();
    let start: usize = if n > 0 && chars[0] == '+' {
        1
    } else {
        0
    };
    let ghost digits = chars@.subrange(start as int, n as int);
    assert(digits =~= if text@.len() > 0 && text@[0] == '+' {
        text@.drop_first()
    } else {
        text@
    });
    assert(parsed_port(text@) == written_port(digits));
    if start == n {
        return None;
    }
    let mut value: u32 = 0;
    let mut i: usize = start;
    assert(digits.take(0) =~= Seq::empty());
    while i < n
        invariant
            start <= i <= n,
            n == chars.len(),
            digits == chars@.subrange(start as int, n as int),
            parsed_port(text@) == written_port(digits),
            all_digits(digits.take(i - start)),
            value == digits_value(digits.take(i - start)),
            value <= u16::MAX,
        decreases n - i,
    {
        let c = chars[i];
        let ghost k = i - start;
        assert(digits[k] == c);
        assert(digits.take(k + 1).drop_last() =~= digits.take(k));
        assert(digits.take(k + 1).last() == c);
        if !('0' <= c && c <= '9') {
            assert(!all_digits(digits));
            return None;
        }
        let d = c as u32 - '0' as u32;
        let next = value * 10 + d;
        assert(all_digits(digits.take(k + 1))) by {
            assert forall|j: int| 0 <= j < k + 1 implies is_digit(#[trigger] digits.take(k + 1)[j]) by {
                if j < k {
                    assert(digits.take(k + 1)[j] == digits.take(k)[j]);
                }
            }
        }
        if next > 65535 {
            proof {
                if all_digits(digits) {
                    lemma_digits_prefix(digits, k + 1);
                }
            }
            return None;
        }
        value = next;
        i += 1;
    }
    assert(digits.take(n - start) =~= digits);
    Some(value as u16)
}

/// What a port written as `external:internal` declares. The `:` that
/// separates the two is the first of the text.
pub open spec fn port_of(text: Seq<char>) -> Result<ServicePort, TransformErrorView> {
    match next_char(text, ':', 0) {
        None => Err(TransformErrorView::InvalidPort { text }),
        Some(colon) => {
            let outside = text.subrange(0, colon);
            let inside = text.subrange(colon + 1, text.len() as int);
            match parsed_port(outside) {
                None => Err(TransformErrorView::InvalidExternalPort { port: outside, text }),
                Some(external) => match parsed_port(inside) {
                    None => Err(TransformErrorView::InvalidInternalPort { port: inside, text }),
                    Some(internal) => Ok(ServicePort { external, internal }),
                },
            }
        },
    }
}

/// Adds one written port to the ports read so far.
pub open spec fn port_step() -> spec_fn(Seq<ServicePort>, Seq<char>) -> Result<
    Seq<ServicePort>,
    TransformErrorView,
> {
    |acc: Seq<ServicePort>, text: Seq<char>|
        match port_of(text) {
            Ok(port) => Ok(acc.push(port)),
            Err(e) => Err(e),
        }
}

/// The ports that are written; none where nothing is.
pub open spec fn written_ports(texts: Option<Seq<Seq<char>>>) -> Result<
    Seq<ServicePort>,
    TransformErrorView,
> {
    match texts {
        Some(t) => try_fold(t, Seq::empty(), port_step()),
        None => Ok(Seq::empty()),
    }
}

fn convert_port(text: &String) -> (r: Result<ServicePort, TransformError>)
    ensures
        result_view(r) == port_of(text@),
{
    let chars = chars_of(text.as_str());
    proof {
        lemma_next_char(text@, ':', 0);
    }
    let colon = match find_char(&chars, ':', 0) {
        Some(colon) => colon,
        None => {
            return Err(TransformError::InvalidPort { text: text.clone() });
        },
    };
    let outside = slice_text(text.as_str(), 0, colon);
    let inside = slice_text(text.as_str(), colon + 1, chars.len());
    let external = match parse_port(outside.as_str()) {
        Some(n) => n,
        None => {
            return Err(
                TransformError::InvalidExternalPort { port: outside, text: text.clone() },
            );
        },
    };
    let internal = match parse_port(inside.as_str()) {
        Some(n) => n,
        None => {
            return Err(TransformError::InvalidInternalPort { port: inside, text: text.clone() });
        },
    };
    Ok(ServicePort { external, internal })
}

/// Reads the ports that are written, in order.
pub fn convert_ports(written: &Option<Vec<String>>) -> (r: Result<Vec<ServicePort>, TransformError>)
    ensures
        result_view(r) == written_ports(written.deep_view()),
{
    let mut ports: Vec<ServicePort> = Vec::new();
    assert(ports.deep_view() =~= Seq::empty());
    let texts = match written {
        Some(t) => t,
        None => {
            return Ok(ports);
        },
    };
    let ghost step = port_step();
    let mut i: usize = 0;
    proof {
        assert(texts.deep_view().skip(0) =~= texts.deep_view());
    }
    while i < texts.len()
        invariant
            i <= texts.len(),
            step == port_step(),
            written.deep_view() == Some(texts.deep_view()),
            try_fold(texts.deep_view(), Seq::empty(), step) == try_fold(
                texts.deep_view().skip(i as int),
                ports.deep_view(),
                step,
            ),
        decreases texts.len() - i,
    {
        proof {
            lemma_try_fold_step(texts.deep_view(), i as int, ports.deep_view(), step);
        }
        let ghost before = ports.deep_view();
        match convert_port(&texts[i]) {
            Ok(port) => {
                ports.push(port);
                assert(ports.deep_view() =~= before.push(port));
            },
            Err(e) => {
                return Err(e);
            },
        }
        i += 1;
    }
    proof {
        lemma_try_fold_step(texts.deep_view(), i as int, ports.deep_view(), step);
    }
    Ok(ports)
}

} // verus!
