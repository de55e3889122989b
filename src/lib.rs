//! Terminal colours written inside format strings.
//!
//! A template such as `"{red}danger{reset}"` is rewritten into a plain format
//! string with ANSI escape sequences in place of the style tokens, while
//! placeholders that name no style (`{x}`, `{n:.0}`, `{:?}`) are kept as they
//! are for a formatting engine downstream.
//!
//! [`CFStr::parse`] and [`comat`] compile a template; their results are pinned
//! down by the spec function [`render`]. The facts proved about `render` are
//! in the `lemma_*` functions.
mod facade;
mod laws;
mod style;
mod template;
mod text;

pub use facade::{host_macro, Operation};
pub use laws::{
    lemma_deterministic, lemma_literal_kept, lemma_other_token_kept, lemma_plain_text_unchanged,
    lemma_render_append, lemma_render_prepend, lemma_reset_value, lemma_style_token,
    lemma_styled_value,
};
pub use style::{ansi_of, lemma_reset_is_style, lemma_style_name_plain, name2ansi, reset_seq};
pub use template::{
    comat, lemma_prefixed_concat, prefixed, render, render_from, render_token, value_style, CFStr,
    TemplateError,
};
pub use text::span_before;
