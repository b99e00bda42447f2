//! The instruction prompt that asks the model for a translation.

use vstd::prelude::*;

verus! {

/// Which wording the prompt uses. Both name the two languages, ask for nothing
/// but the result ("Only provide the translation without any explanations or
/// additional text" for plain text, "Only provide the translated content without
/// explanations" for markdown), and end in a blank line followed by the text; the
/// markdown wording also asks that formatting, code blocks, links and structure be
/// preserved.
#[derive(Clone, Copy, Debug, PartialEq, Eq, Structural)]
pub enum PromptStyle {
    /// Plain text, translated as it stands.
    Text,
    /// A markdown document whose formatting must be kept.
    Markdown,
}

/// The words of the prompt that come before the source language.
pub open spec fn lead_of(style: PromptStyle) -> Seq<char> {
    match style {
        PromptStyle::Text => "Translate the following text from "@,
        PromptStyle::Markdown => "Translate the following markdown document from "@,
    }
}

/// The words that stand between the two languages.
pub open spec fn between() -> Seq<char> {
    " to "@
}

/// The words after the target language, ending in the blank line before the text.
pub open spec fn instructions_of(style: PromptStyle) -> Seq<char> {
    match style {
        PromptStyle::Text =>
            ". Only provide the translation without any explanations or additional text:\n\n"@,
        PromptStyle::Markdown =>
            ". Preserve all markdown formatting, code blocks, links, and structure. Only provide the translated content without explanations:\n\n"@,
    }
}

/// The prompt that asks for `text`, written in `from`, to be put into `to`.
pub open spec fn prompt_of(style: PromptStyle, from: Seq<char>, to: Seq<char>, text: Seq<char>) -> Seq<
    char,
> {
    lead_of(style) + from + between() + to + instructions_of(style) + text
}

/// `needle` occurs in `hay` as a contiguous run of characters.
pub open spec fn contains(hay: Seq<char>, needle: Seq<char>) -> bool {
    exists|i: int| 0 <= i && i + needle.len() <= hay.len() && #[trigger] hay.subrange(i, i + needle.len()) == needle
}

fn lead(style: PromptStyle) -> (r: &'static str)
    ensures
        r@ == lead_of(style),
{
    match style {
        PromptStyle::Text => "Translate the following text from ",
        PromptStyle::Markdown => "Translate the following markdown document from ",
    }
}

fn instructions(style: PromptStyle) -> (r: &'static str)
    ensures
        r@ == instructions_of(style),
{
    match style {
        PromptStyle::Text =>
            ". Only provide the translation without any explanations or additional text:\n\n",
        PromptStyle::Markdown =>
            ". Preserve all markdown formatting, code blocks, links, and structure. Only provide the translated content without explanations:\n\n",
    }
}

/// Builds the prompt that asks for `text`, written in `from`, to be put into `to`.
pub fn build_prompt(style: PromptStyle, from: &str, to: &str, text: &str) -> (r: String)
    ensures
        r@ == prompt_of(style, from@, to@, text@),
{
    let mut p = String::from_str(lead(style));
    p.append(from);
    p.append(" to ");
    p.append(to);
    p.append(instructions(style));
    p.append(text);
    p
}

/// The prompt holds the text and both language names verbatim.
pub proof fn lemma_prompt_holds_inputs(
    style: PromptStyle,
    from: Seq<char>,
    to: Seq<char>,
    text: Seq<char>,
)
    ensures
        contains(prompt_of(style, from, to, text), text),
        contains(prompt_of(style, from, to, text), from),
        contains(prompt_of(style, from, to, text), to),
{
    let p = prompt_of(style, from, to, text);
    let a: int = lead_of(style).len() as int;
    let b: int = a + from.len() + between().len();
    let c: int = b + to.len() + instructions_of(style).len();
    assert(p.subrange(a, a + from.len()) == from);
    assert(p.subrange(b, b + to.len()) == to);
    assert(p.subrange(c, c + text.len()) == text);
}

/// A run that occurs in `b` occurs in any text that holds `b`.
pub proof fn lemma_contains_within(a: Seq<char>, b: Seq<char>, c: Seq<char>, needle: Seq<char>)
    requires
        contains(b, needle),
    ensures
        contains(a + b + c, needle),
{
    let i = choose|i: int| 0 <= i && i + needle.len() <= b.len() && #[trigger] b.subrange(i, i + needle.len()) == needle;
    let h = a + b + c;
    let k = a.len() + i;
    assert(h.subrange(k, k + needle.len()) == b.subrange(i, i + needle.len()));
}

/// An empty text still gives a prompt: the bare instruction, ending in the blank line.
pub proof fn lemma_prompt_of_empty_text(style: PromptStyle, from: Seq<char>, to: Seq<char>)
    ensures
        prompt_of(style, from, to, Seq::empty()) == lead_of(style) + from + between() + to
            + instructions_of(style),
{
    let head = lead_of(style) + from + between() + to + instructions_of(style);
    assert(head + Seq::<char>::empty() == head);
}

} // verus!
