//! Compiling a colour template into a plain format string.
//!
//! A template is read left to right, one unit at a time:
//! - `{{` and `}}` stand for a literal `{` and `}`;
//! - `{NAME}` with a style name becomes that style's escape sequence;
//! - `{BODY:NAME}` with a style name after the first `:` becomes a reset, the
//!   style (unless it is `reset` itself), the placeholder `{BODY}` and another
//!   reset;
//! - any other `{...}` token, `{}` included, is kept as it stands;
//! - every other character is copied.
//!
//! A `{` that is last, or a token that is never closed, is an error, and so
//! is a `}` that is not part of `}}`.
use vstd::prelude::*;
use crate::style::{ansi_of, lookup, reset_seq, same_text};
use crate::text::{char_vec, find_char, lemma_span_shift, push_char, push_range, span_before};

verus! {

/// Why a template could not be compiled.
#[derive(Debug, Clone, Copy, PartialEq, Eq, Structural)]
pub enum TemplateError {
    /// The template ends right after a `{`, or inside a token.
    UnexpectedEof,
    /// A `}` stands outside any token and is not doubled.
    UnexpectedClosingBrace,
}

impl TemplateError {
    /// A short message for a diagnostic.
    pub fn message(&self) -> (r: &'static str)
        ensures
            *self == TemplateError::UnexpectedEof ==> r@ == "unexpected eof"@,
            *self == TemplateError::UnexpectedClosingBrace ==> r@ == "unexpected text"@,
    {
        match self {
            TemplateError::UnexpectedEof => "unexpected eof",
            TemplateError::UnexpectedClosingBrace => "unexpected text",
        }
    }
}

/// `p` in front of a successful output; an error is left as it is.
pub open spec fn prefixed(
    p: Seq<char>,
    r: Result<Seq<char>, TemplateError>,
) -> Result<Seq<char>, TemplateError> {
    match r {
        Ok(t) => Ok(p + t),
        Err(e) => Err(e),
    }
}

/// The style sequence that a value with the style `name` gets after its
/// leading reset: none for `reset` itself, so that exactly one reset stands on
/// each side of the value.
pub open spec fn value_style(name: Seq<char>) -> Seq<char> {
    if name == "reset"@ {
        Seq::empty()
    } else {
        ansi_of(name)->0
    }
}

/// What the token `{name}` compiles to (`name` is what stands between the
/// braces).
pub open spec fn render_token(name: Seq<char>) -> Seq<char> {
    match ansi_of(name) {
        Some(a) => a,
        None => {
            let k = span_before(name, ':', 0) as int;
            let tail = name.subrange(k + 1, name.len() as int);
            if k < name.len() && ansi_of(tail) is Some {
                reset_seq() + value_style(tail) + seq!['{'] + name.subrange(0, k) + seq!['}']
                    + reset_seq()
            } else {
                seq!['{'] + name + seq!['}']
            }
        }
    }
}

/// The output of the template `s` from position `i` on.
pub open spec fn render_from(s: Seq<char>, i: int) -> Result<Seq<char>, TemplateError>
    decreases s.len() - i,
{
    if i < 0 || i >= s.len() {
        Ok(Seq::empty())
    } else if s[i] == '{' {
        if i + 1 >= s.len() {
            Err(TemplateError::UnexpectedEof)
        } else if s[i + 1] == '{' {
            prefixed(seq!['{'], render_from(s, i + 2))
        } else if s[i + 1] == '}' {
            prefixed(seq!['{', '}'], render_from(s, i + 2))
        } else {
            let j = i + 2 + span_before(s, '}', i + 2);
            if j >= s.len() {
                Err(TemplateError::UnexpectedEof)
            } else {
                prefixed(render_token(s.subrange(i + 1, j)), render_from(s, j + 1))
            }
        }
    } else if s[i] == '}' {
        if i + 1 < s.len() && s[i + 1] == '}' {
            prefixed(seq!['}'], render_from(s, i + 2))
        } else {
            Err(TemplateError::UnexpectedClosingBrace)
        }
    } else {
        prefixed(seq![s[i]], render_from(s, i + 1))
    }
}

/// The output of the template `s`, or why it has none.
pub open spec fn render(s: Seq<char>) -> Result<Seq<char>, TemplateError> {
    render_from(s, 0)
}

/// Putting `b` and then `a` in front is putting `a + b` in front.
pub proof fn lemma_prefixed_concat(a: Seq<char>, b: Seq<char>, r: Result<Seq<char>, TemplateError>)
    ensures
        prefixed(a, prefixed(b, r)) == prefixed(a + b, r),
{
    if let Ok(t) = r {
        assert(a + (b + t) =~= (a + b) + t);
    }
}

/// Appends the output of the token whose name is `text[lo..hi]`.
fn push_token(out: &mut String, text: &[char], lo: usize, hi: usize)
    requires
        lo <= hi <= text@.len(),
    ensures
        final(out)@ == old(out)@ + render_token(text@.subrange(lo as int, hi as int)),
{
    let ghost name = text@.subrange(lo as int, hi as int);
    if let Some(a) = lookup(text, lo, hi) {
        out.append(a);
        return;
    }
    let k = find_char(text, ':', lo, hi);
    proof {
        lemma_span_shift(text@.subrange(0, hi as int), ':', lo as int, lo as int);
        assert(text@.subrange(0, hi as int).subrange(lo as int, hi as int) =~= name);
    }
    if k < hi {
        if let Some(a) = lookup(text, k + 1, hi) {
            assert(name.subrange(k - lo + 1, name.len() as int) =~= text@.subrange(k + 1, hi as int));
            assert(name.subrange(0, k - lo) =~= text@.subrange(lo as int, k as int));
            out.append("\x1b[0m");
            if !same_text(text, k + 1, hi, "reset") {
                out.append(a);
            }
            push_char(out, '{');
            push_range(out, text, lo, k);
            push_char(out, '}');
            out.append("\x1b[0m");
            assert(final(out)@ =~= old(out)@ + render_token(name));
            return;
        }
        assert(name.subrange(k - lo + 1, name.len() as int) =~= text@.subrange(k + 1, hi as int));
    }
    push_char(out, '{');
    push_range(out, text, lo, hi);
    push_char(out, '}');
    assert(final(out)@ =~= old(out)@ + render_token(name));
}

/// A template compiled into a plain format string.
pub struct CFStr(String);

impl View for CFStr {
    type V = Seq<char>;

    closed spec fn view(&self) -> Seq<char> {
        self.0@
    }
}

impl CFStr {
    /// Compiles `template`: the output is `render(template@)` where that
    /// succeeds, and the error it names where it does not.
    pub fn parse(template: &str) -> (r: Result<CFStr, TemplateError>)
        ensures
            r matches Ok(c) ==> render(template@) == Ok::<Seq<char>, TemplateError>(c@),
            r matches Err(e) ==> render(template@) == Err::<Seq<char>, TemplateError>(e),
    {
        let text = char_vec(template);
        let n = text.len();
        let mut out = String::new();
        let mut i: usize = 0;
        while i < n
            invariant
                text@ == template@,
                n == text@.len(),
                i <= n,
                render(text@) == prefixed(out@, render_from(text@, i as int)),
            decreases n - i,
        {
            let ghost before = out@;
            let c = text[i];
            if c == '{' {
                if i + 1 >= n {
                    return Err(TemplateError::UnexpectedEof);
                }
                let d = text[i + 1];
                if d == '{' {
                    push_char(&mut out, '{');
                    proof {
                        lemma_prefixed_concat(before, seq!['{'], render_from(text@, i + 2));
                        assert(out@ =~= before + seq!['{']);
                    }
                    i = i + 2;
                } else if d == '}' {
                    push_char(&mut out, '{');
                    push_char(&mut out, '}');
                    proof {
                        lemma_prefixed_concat(before, seq!['{', '}'], render_from(text@, i + 2));
                        assert(out@ =~= before + seq!['{', '}']);
                    }
                    i = i + 2;
                } else {
                    let j = find_char(text.as_slice(), '}', i + 2, n);
                    proof {
                        assert(text@.subrange(0, n as int) =~= text@);
                    }
                    if j >= n {
                        return Err(TemplateError::UnexpectedEof);
                    }
                    push_token(&mut out, text.as_slice(), i + 1, j);
                    proof {
                        lemma_prefixed_concat(
                            before,
                            render_token(text@.subrange(i + 1, j as int)),
                            render_from(text@, j + 1),
                        );
                    }
                    i = j + 1;
                }
            } else if c == '}' {
                if i + 1 < n && text[i + 1] == '}' {
                    push_char(&mut out, '}');
                    proof {
                        lemma_prefixed_concat(before, seq!['}'], render_from(text@, i + 2));
                        assert(out@ =~= before + seq!['}']);
                    }
                    i = i + 2;
                } else {
                    return Err(TemplateError::UnexpectedClosingBrace);
                }
            } else {
                push_char(&mut out, c);
                proof {
                    lemma_prefixed_concat(before, seq![c], render_from(text@, i + 1));
                    assert(out@ =~= before + seq![c]);
                }
                i = i + 1;
            }
        }
        assert(out@ + Seq::empty() =~= out@);
        Ok(CFStr(out))
    }

    /// The compiled format string.
    pub fn as_str(&self) -> (r: &str)
        ensures
            r@ == self@,
    {
        self.0.as_str()
    }

    /// The compiled format string, by value.
    pub fn into_string(self) -> (r: String)
        ensures
            r@ == self@,
    {
        self.0
    }
}

/// Compiles `template` into a plain format string (see [`CFStr::parse`]).
pub fn comat(template: &str) -> (r: Result<String, TemplateError>)
    ensures
        r matches Ok(o) ==> render(template@) == Ok::<Seq<char>, TemplateError>(o@),
        r matches Err(e) ==> render(template@) == Err::<Seq<char>, TemplateError>(e),
{
    match CFStr::parse(template) {
        Ok(c) => Ok(c.into_string()),
        Err(e) => Err(e),
    }
}

} // verus!
