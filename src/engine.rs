//! The streaming rewrite engine, lol_html, seen through trusted items: its
//! types, the element edits that the handlers make, and the rewriting pass.
use vstd::prelude::*;
use std::borrow::Cow;
use lol_html::errors::{AttributeNameError, RewritingError, SelectorError, TagNameError};
use lol_html::html_content::{ContentType, Element};
use lol_html::{ElementContentHandlers, HtmlRewriter, MemorySettings, Selector, Settings};
use crate::plan::{Fragments, FragmentsView, Placement};
use crate::rewrite::{handle_element, rules_spec, selector_spec, RewriteError, Rule};

verus! {

#[verifier::external_type_specification]
#[verifier::external_body]
pub struct ExElement<'r, 't>(Element<'r, 't>);

#[verifier::external_type_specification]
#[verifier::external_body]
pub struct ExSelector(Selector);

#[verifier::external_type_specification]
#[verifier::external_body]
pub struct ExSelectorError(SelectorError);

#[verifier::external_type_specification]
#[verifier::external_body]
pub struct ExAttributeNameError(AttributeNameError);

#[verifier::external_type_specification]
#[verifier::external_body]
pub struct ExTagNameError(TagNameError);

#[verifier::external_type_specification]
#[verifier::external_body]
pub struct ExRewritingError(RewritingError);

#[verifier::external_type_specification]
#[verifier::external_body]
pub struct ExElementContentHandlers<'h>(ElementContentHandlers<'h>);

/// A non-empty run of ASCII letters: lol_html accepts it both as an
/// attribute name and as a tag name, in every encoding it supports (all of
/// them ASCII-compatible).
pub open spec fn plain_name(s: Seq<char>) -> bool {
    s.len() > 0 && forall|i: int|
        0 <= i < s.len() ==> ('a' <= #[trigger] s[i] <= 'z' || 'A' <= s[i] <= 'Z')
}

/// The content insertions requested on an element so far, in call order.
pub uninterp spec fn insertions_of(el: Element) -> Seq<(Placement, Seq<char>)>;

/// The attribute assignments made on an element so far, in call order.
pub uninterp spec fn attributes_set_of(el: Element) -> Seq<(Seq<char>, Seq<char>)>;

/// The tag names given to an element so far, in call order.
pub uninterp spec fn tag_names_set_of(el: Element) -> Seq<Seq<char>>;

/// Whether the element can have content (it is not a void element).
pub uninterp spec fn holds_content(el: Element) -> bool;

/// The value of the named attribute in the element's start tag.
pub uninterp spec fn attribute_of(el: Element, name: Seq<char>) -> Option<Seq<char>>;

/// The text a selector was parsed from.
pub uninterp spec fn selector_source(s: Selector) -> Seq<char>;

/// What a successful pass of the rewriter emits for `html` with the
/// registry's handlers over fragments `f`; the memory ceiling decides only
/// whether the pass succeeds.
pub uninterp spec fn page_rewritten(html: Seq<u8>, f: FragmentsView) -> Seq<u8>;

/// The element's recorded edits other than its insertions are those of `e`.
pub open spec fn same_but_insertions(e: Element, g: Element) -> bool {
    &&& attributes_set_of(g) == attributes_set_of(e)
    &&& tag_names_set_of(g) == tag_names_set_of(e)
    &&& holds_content(g) == holds_content(e)
}

/// Relies on `<Selector as FromStr>::from_str`: parses a CSS selector. The
/// registry's selectors use only type selectors and the `=` and `*=`
/// attribute matchers, which lol_html supports.
#[verifier::external_body]
pub(crate) fn parse_selector(text: &str) -> (r: Result<Selector, SelectorError>)
    requires
        exists|rule: Rule| text@ == selector_spec(rule),
    ensures
        r is Ok,
        r matches Ok(s) ==> selector_source(s) == text@,
{
    text.parse()
}

/// Relies on `Element::get_attribute`: the value of the named attribute, if
/// the element has it.
#[verifier::external_body]
pub(crate) fn get_attribute(el: &Element, name: &str) -> (r: Option<String>)
    ensures
        crate::plan::opt_view(r) == attribute_of(*el, name@),
{
    el.get_attribute(name)
}

/// Relies on `Element::set_attribute`, which fails only on an empty name, a
/// name holding whitespace, `/`, `>` or `=`, or one the document's encoding
/// cannot represent; on failure the element is left as it was.
#[verifier::external_body]
pub(crate) fn set_attribute(el: &mut Element, name: &str, value: &str) -> (r: Result<
    (),
    AttributeNameError,
>)
    ensures
        plain_name(name@) ==> r is Ok,
        r is Ok ==> attributes_set_of(*final(el)) == attributes_set_of(*old(el)).push(
            (name@, value@),
        ),
        r is Err ==> attributes_set_of(*final(el)) == attributes_set_of(*old(el)),
        tag_names_set_of(*final(el)) == tag_names_set_of(*old(el)),
        insertions_of(*final(el)) == insertions_of(*old(el)),
        holds_content(*final(el)) == holds_content(*old(el)),
{
    el.set_attribute(name, value)
}

/// Relies on `Element::set_tag_name`, which fails only on an empty name, one
/// whose first character is not an ASCII letter, one holding whitespace, `/`
/// or `>`, or one the document's encoding cannot represent; on failure the
/// element is left as it was.
#[verifier::external_body]
pub(crate) fn set_tag_name(el: &mut Element, name: &str) -> (r: Result<(), TagNameError>)
    ensures
        plain_name(name@) ==> r is Ok,
        r is Ok ==> tag_names_set_of(*final(el)) == tag_names_set_of(*old(el)).push(name@),
        r is Err ==> tag_names_set_of(*final(el)) == tag_names_set_of(*old(el)),
        attributes_set_of(*final(el)) == attributes_set_of(*old(el)),
        insertions_of(*final(el)) == insertions_of(*old(el)),
        holds_content(*final(el)) == holds_content(*old(el)),
{
    el.set_tag_name(name)
}

/// Relies on `Element::before`: inserts HTML before the element, after what
/// earlier calls inserted there.
#[verifier::external_body]
pub(crate) fn insert_before(el: &mut Element, html: &str)
    ensures
        insertions_of(*final(el)) == insertions_of(*old(el)).push((Placement::Before, html@)),
        same_but_insertions(*old(el), *final(el)),
{
    el.before(html, ContentType::Html)
}

/// Relies on `Element::after`: inserts HTML after the element, before what
/// earlier calls inserted there.
#[verifier::external_body]
pub(crate) fn insert_after(el: &mut Element, html: &str)
    ensures
        insertions_of(*final(el)) == insertions_of(*old(el)).push((Placement::After, html@)),
        same_but_insertions(*old(el), *final(el)),
{
    el.after(html, ContentType::Html)
}

/// Relies on `Element::prepend`: inserts HTML right after the start tag,
/// before what earlier calls inserted there; an element that cannot have
/// content ignores it.
#[verifier::external_body]
pub(crate) fn insert_prepend(el: &mut Element, html: &str)
    ensures
        holds_content(*old(el)) ==> insertions_of(*final(el)) == insertions_of(*old(el)).push(
            (Placement::Prepend, html@),
        ),
        !holds_content(*old(el)) ==> insertions_of(*final(el)) == insertions_of(*old(el)),
        same_but_insertions(*old(el), *final(el)),
{
    el.prepend(html, ContentType::Html)
}

/// Relies on `Element::append`: inserts HTML right before the end tag, after
/// what earlier calls inserted there; an element that cannot have content
/// ignores it.
#[verifier::external_body]
pub(crate) fn insert_append(el: &mut Element, html: &str)
    ensures
        holds_content(*old(el)) ==> insertions_of(*final(el)) == insertions_of(*old(el)).push(
            (Placement::Append, html@),
        ),
        !holds_content(*old(el)) ==> insertions_of(*final(el)) == insertions_of(*old(el)),
        same_but_insertions(*old(el), *final(el)),
{
    el.append(html, ContentType::Html)
}

/// Relies on `ElementContentHandlers::element`: runs the handler of `rule`
/// on each element that the rule's selector matches.
#[verifier::external_body]
fn element_handlers<'h>(rule: Rule, fragments: &'h Fragments) -> (r: ElementContentHandlers<'h>) {
    ElementContentHandlers::default().element(
        move |el: &mut Element| handle_element(el, rule, fragments).map_err(|e| e.describe().into()),
    )
}

/// The parsing buffer that lol_html's default `MemorySettings` preallocate,
/// counted against the memory ceiling when the rewriter is made.
pub const PREALLOCATED_BUFFER: usize = 1024;

/// Relies on `HtmlRewriter::new`, `write` and `end`: one streaming pass over
/// `html` under the memory ceiling, running each rule's handler on what its
/// selector matches, and collecting what the rewriter emits. `new` panics
/// where the preallocated parsing buffer alone exceeds the ceiling.
#[verifier::external_body]
pub(crate) fn run_rewriter(
    html: &[u8],
    max_allowed_memory_usage: usize,
    fragments: &Fragments,
    registry: Vec<(Rule, Selector)>,
) -> (r: Result<Vec<u8>, RewritingError>)
    requires
        max_allowed_memory_usage >= PREALLOCATED_BUFFER,
        registry@.len() == rules_spec().len(),
        forall|i: int|
            0 <= i < registry@.len() ==> (#[trigger] registry@[i]).0 == rules_spec()[i]
                && selector_source(registry@[i].1) == selector_spec(rules_spec()[i]),
    ensures
        r matches Ok(out) ==> out@ == page_rewritten(html@, fragments@),
{
    let settings = Settings {
        element_content_handlers: registry.into_iter()
            .map(|(rule, s)| (Cow::Owned(s), element_handlers(rule, fragments))).collect(),
        memory_settings: MemorySettings { max_allowed_memory_usage, ..MemorySettings::default() },
        ..Settings::default()
    };
    let mut out = Vec::new();
    let mut rewriter = HtmlRewriter::new(settings, |c: &[u8]| out.extend_from_slice(c));
    rewriter.write(html)?;
    rewriter.end()?;
    Ok(out)
}

/// Relies on the variants of `RewritingError`: the memory ceiling was hit,
/// the input could not be tokenized unambiguously, or a handler failed.
#[verifier::external_body]
pub(crate) fn engine_error(e: RewritingError) -> (r: RewriteError) {
    match e {
        RewritingError::MemoryLimitExceeded(_) => RewriteError::MemoryLimitExceeded,
        RewritingError::ParsingAmbiguity(_) => RewriteError::MalformedMarkup,
        RewritingError::ContentHandlerError(_) => RewriteError::Attribute,
    }
}

} // verus!
