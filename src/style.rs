//! The style vocabulary: a closed table from ASCII style names to the ANSI
//! escape sequences that switch a terminal into that style.
//!
//! The sequences are kept byte for byte as users of the notation have come
//! to expect them. Three of them are odd as ANSI and are kept on purpose:
//! the colour entries carry a stray `34` parameter in their middle field,
//! `on_magenta` and `on_magenta_bold` swap that field with the colour field,
//! and `underline` maps to `ESC[24m`, which terminals read as "underline off".
use vstd::prelude::*;
use crate::text::char_vec;

verus! {

/// The escape sequence of a style name, or `None` for a name outside the
/// vocabulary. Matching is exact and case-sensitive.
pub open spec fn ansi_of(name: Seq<char>) -> Option<Seq<char>> {
    if name == "reset"@ {
        Some("\x1b[0m"@)
    } else if name == "black"@ {
        Some("\x1b[0;34;30m"@)
    } else if name == "red"@ {
        Some("\x1b[0;34;31m"@)
    } else if name == "green"@ {
        Some("\x1b[0;34;32m"@)
    } else if name == "yellow"@ {
        Some("\x1b[0;34;33m"@)
    } else if name == "blue"@ {
        Some("\x1b[0;34;34m"@)
    } else if name == "magenta"@ {
        Some("\x1b[0;34;35m"@)
    } else if name == "cyan"@ {
        Some("\x1b[0;34;36m"@)
    } else if name == "white"@ {
        Some("\x1b[0;34;37m"@)
    } else if name == "default"@ {
        Some("\x1b[0;34;39m"@)
    } else if name == "bold_black"@ {
        Some("\x1b[1;34;30m"@)
    } else if name == "bold_red"@ {
        Some("\x1b[1;34;31m"@)
    } else if name == "bold_green"@ {
        Some("\x1b[1;34;32m"@)
    } else if name == "bold_yellow"@ {
        Some("\x1b[1;34;33m"@)
    } else if name == "bold_blue"@ {
        Some("\x1b[1;34;34m"@)
    } else if name == "bold_magenta"@ {
        Some("\x1b[1;34;35m"@)
    } else if name == "bold_cyan"@ {
        Some("\x1b[1;34;36m"@)
    } else if name == "bold_white"@ {
        Some("\x1b[1;34;37m"@)
    } else if name == "bold_default"@ {
        Some("\x1b[1;34;39m"@)
    } else if name == "on_black_bold"@ {
        Some("\x1b[1;34;40m"@)
    } else if name == "on_red_bold"@ {
        Some("\x1b[1;34;41m"@)
    } else if name == "on_green_bold"@ {
        Some("\x1b[1;34;42m"@)
    } else if name == "on_yellow_bold"@ {
        Some("\x1b[1;34;43m"@)
    } else if name == "on_blue_bold"@ {
        Some("\x1b[1;34;44m"@)
    } else if name == "on_magenta_bold"@ {
        Some("\x1b[1;44;35m"@)
    } else if name == "on_cyan_bold"@ {
        Some("\x1b[1;34;46m"@)
    } else if name == "on_white_bold"@ {
        Some("\x1b[1;34;47m"@)
    } else if name == "on_default_bold"@ {
        Some("\x1b[1;34;49m"@)
    } else if name == "on_black"@ {
        Some("\x1b[0;34;40m"@)
    } else if name == "on_red"@ {
        Some("\x1b[0;34;41m"@)
    } else if name == "on_green"@ {
        Some("\x1b[0;34;42m"@)
    } else if name == "on_yellow"@ {
        Some("\x1b[0;34;43m"@)
    } else if name == "on_blue"@ {
        Some("\x1b[0;34;44m"@)
    } else if name == "on_magenta"@ {
        Some("\x1b[0;44;35m"@)
    } else if name == "on_cyan"@ {
        Some("\x1b[0;34;46m"@)
    } else if name == "on_white"@ {
        Some("\x1b[0;34;47m"@)
    } else if name == "on_default"@ {
        Some("\x1b[0;34;49m"@)
    } else if name == "dim"@ {
        Some("\x1b[2m"@)
    } else if name == "italic"@ {
        Some("\x1b[3m"@)
    } else if name == "underline"@ {
        Some("\x1b[24m"@)
    } else if name == "blinking"@ {
        Some("\x1b[5m"@)
    } else if name == "hide"@ {
        Some("\x1b[8m"@)
    } else if name == "strike"@ {
        Some("\x1b[9m"@)
    } else if name == "bold"@ {
        Some("\x1b[1m"@)
    } else {
        None
    }
}

/// The escape sequence that clears every style.
pub open spec fn reset_seq() -> Seq<char> {
    "\x1b[0m"@
}

/// `reset` is a style name, whose sequence clears every style.
pub proof fn lemma_reset_is_style()
    ensures
        ansi_of("reset"@) == Some(reset_seq()),
{
}

/// Every name of the vocabulary is non-empty and holds no `{`, `}` or `:`,
/// so it can stand on its own inside a brace token.
pub proof fn lemma_style_name_plain(name: Seq<char>)
    requires
        ansi_of(name) is Some,
    ensures
        name.len() > 0,
        forall|i: int| 0 <= i < name.len() ==> name[i] != '}' && name[i] != ':' && name[i] != '{',
{
    reveal_strlit("black");
    reveal_strlit("red");
    reveal_strlit("green");
    reveal_strlit("yellow");
    reveal_strlit("blue");
    reveal_strlit("magenta");
    reveal_strlit("cyan");
    reveal_strlit("white");
    reveal_strlit("default");
    reveal_strlit("bold_black");
    reveal_strlit("bold_red");
    reveal_strlit("bold_green");
    reveal_strlit("bold_yellow");
    reveal_strlit("bold_blue");
    reveal_strlit("bold_magenta");
    reveal_strlit("bold_cyan");
    reveal_strlit("bold_white");
    reveal_strlit("bold_default");
    reveal_strlit("on_black_bold");
    reveal_strlit("on_red_bold");
    reveal_strlit("on_green_bold");
    reveal_strlit("on_yellow_bold");
    reveal_strlit("on_blue_bold");
    reveal_strlit("on_magenta_bold");
    reveal_strlit("on_cyan_bold");
    reveal_strlit("on_white_bold");
    reveal_strlit("on_default_bold");
    reveal_strlit("on_black");
    reveal_strlit("on_red");
    reveal_strlit("on_green");
    reveal_strlit("on_yellow");
    reveal_strlit("on_blue");
    reveal_strlit("on_magenta");
    reveal_strlit("on_cyan");
    reveal_strlit("on_white");
    reveal_strlit("on_default");
    reveal_strlit("reset");
    reveal_strlit("dim");
    reveal_strlit("italic");
    reveal_strlit("underline");
    reveal_strlit("blinking");
    reveal_strlit("hide");
    reveal_strlit("strike");
    reveal_strlit("bold");
}

/// The escape sequence of the style `name`, or `None` where `name` is not
/// in the vocabulary.
pub fn name2ansi(name: &str) -> (r: Option<&'static str>)
    ensures
        r is Some <==> ansi_of(name@) is Some,
        r matches Some(a) ==> ansi_of(name@) == Some(a@),
{
    let text = char_vec(name);
    proof {
        assert(text@.subrange(0, text@.len() as int) =~= name@);
    }
    lookup(text.as_slice(), 0, text.len())
}

/// Whether `text[lo..hi]` spells out the literal `lit`.
pub(crate) fn same_text(text: &[char], lo: usize, hi: usize, lit: &str) -> (r: bool)
    requires
        lo <= hi <= text@.len(),
    ensures
        r == (text@.subrange(lo as int, hi as int) == lit@),
{
    let n = lit.unicode_len();
    if hi - lo != n {
        return false;
    }
    let mut i: usize = 0;
    while i < n
        invariant
            lo <= hi <= text@.len(),
            hi - lo == n,
            n == lit@.len(),
            i <= n,
            forall|k: int| 0 <= k < i ==> text@[lo + k] == lit@[k],
        decreases n - i,
    {
        if text[lo + i] != lit.get_char(i) {
            assert(text@.subrange(lo as int, hi as int)[i as int] != lit@[i as int]);
            return false;
        }
        i = i + 1;
    }
    assert(text@.subrange(lo as int, hi as int) =~= lit@);
    true
}

/// The escape sequence of the style named by `text[lo..hi]`.
pub(crate) fn lookup(text: &[char], lo: usize, hi: usize) -> (r: Option<&'static str>)
    requires
        lo <= hi <= text@.len(),
    ensures
        r is Some <==> ansi_of(text@.subrange(lo as int, hi as int)) is Some,
        r matches Some(a) ==> ansi_of(text@.subrange(lo as int, hi as int)) == Some(a@),
{
    if same_text(text, lo, hi, "reset") {
        Some("\x1b[0m")
    } else if same_text(text, lo, hi, "black") {
        Some("\x1b[0;34;30m")
    } else if same_text(text, lo, hi, "red") {
        Some("\x1b[0;34;31m")
    } else if same_text(text, lo, hi, "green") {
        Some("\x1b[0;34;32m")
    } else if same_text(text, lo, hi, "yellow") {
        Some("\x1b[0;34;33m")
    } else if same_text(text, lo, hi, "blue") {
        Some("\x1b[0;34;34m")
    } else if same_text(text, lo, hi, "magenta") {
        Some("\x1b[0;34;35m")
    } else if same_text(text, lo, hi, "cyan") {
        Some("\x1b[0;34;36m")
    } else if same_text(text, lo, hi, "white") {
        Some("\x1b[0;34;37m")
    } else if same_text(text, lo, hi, "default") {
        Some("\x1b[0;34;39m")
    } else if same_text(text, lo, hi, "bold_black") {
        Some("\x1b[1;34;30m")
    } else if same_text(text, lo, hi, "bold_red") {
        Some("\x1b[1;34;31m")
    } else if same_text(text, lo, hi, "bold_green") {
        Some("\x1b[1;34;32m")
    } else if same_text(text, lo, hi, "bold_yellow") {
        Some("\x1b[1;34;33m")
    } else if same_text(text, lo, hi, "bold_blue") {
        Some("\x1b[1;34;34m")
    } else if same_text(text, lo, hi, "bold_magenta") {
        Some("\x1b[1;34;35m")
    } else if same_text(text, lo, hi, "bold_cyan") {
        Some("\x1b[1;34;36m")
    } else if same_text(text, lo, hi, "bold_white") {
        Some("\x1b[1;34;37m")
    } else if same_text(text, lo, hi, "bold_default") {
        Some("\x1b[1;34;39m")
    } else if same_text(text, lo, hi, "on_black_bold") {
        Some("\x1b[1;34;40m")
    } else if same_text(text, lo, hi, "on_red_bold") {
        Some("\x1b[1;34;41m")
    } else if same_text(text, lo, hi, "on_green_bold") {
        Some("\x1b[1;34;42m")
    } else if same_text(text, lo, hi, "on_yellow_bold") {
        Some("\x1b[1;34;43m")
    } else if same_text(text, lo, hi, "on_blue_bold") {
        Some("\x1b[1;34;44m")
    } else if same_text(text, lo, hi, "on_magenta_bold") {
        Some("\x1b[1;44;35m")
    } else if same_text(text, lo, hi, "on_cyan_bold") {
        Some("\x1b[1;34;46m")
    } else if same_text(text, lo, hi, "on_white_bold") {
        Some("\x1b[1;34;47m")
    } else if same_text(text, lo, hi, "on_default_bold") {
        Some("\x1b[1;34;49m")
    } else if same_text(text, lo, hi, "on_black") {
        Some("\x1b[0;34;40m")
    } else if same_text(text, lo, hi, "on_red") {
        Some("\x1b[0;34;41m")
    } else if same_text(text, lo, hi, "on_green") {
        Some("\x1b[0;34;42m")
    } else if same_text(text, lo, hi, "on_yellow") {
        Some("\x1b[0;34;43m")
    } else if same_text(text, lo, hi, "on_blue") {
        Some("\x1b[0;34;44m")
    } else if same_text(text, lo, hi, "on_magenta") {
        Some("\x1b[0;44;35m")
    } else if same_text(text, lo, hi, "on_cyan") {
        Some("\x1b[0;34;46m")
    } else if same_text(text, lo, hi, "on_white") {
        Some("\x1b[0;34;47m")
    } else if same_text(text, lo, hi, "on_default") {
        Some("\x1b[0;34;49m")
    } else if same_text(text, lo, hi, "dim") {
        Some("\x1b[2m")
    } else if same_text(text, lo, hi, "italic") {
        Some("\x1b[3m")
    } else if same_text(text, lo, hi, "underline") {
        Some("\x1b[24m")
    } else if same_text(text, lo, hi, "blinking") {
        Some("\x1b[5m")
    } else if same_text(text, lo, hi, "hide") {
        Some("\x1b[8m")
    } else if same_text(text, lo, hi, "strike") {
        Some("\x1b[9m")
    } else if same_text(text, lo, hi, "bold") {
        Some("\x1b[1m")
    } else {
        None
    }
}

} // verus!
