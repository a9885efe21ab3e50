//! The selector registry, the handlers that apply the edit plans, and the
//! rewriting pass that ties them to the engine.
use vstd::prelude::*;
use vstd::string::StringExecFns;
use lol_html::html_content::Element;
use lol_html::Selector;
use crate::engine::{
    attribute_of, attributes_set_of, engine_error, get_attribute, holds_content, insert_after,
    insert_append, insert_before, insert_prepend, insertions_of, page_rewritten, parse_selector,
    plain_name, run_rewriter, selector_source, set_attribute, set_tag_name, tag_names_set_of,
    PREALLOCATED_BUFFER,
};
use crate::plan::{
    body_plan, body_plan_spec, head_plan, head_plan_spec, opt_view, stylesheet_plan,
    stylesheet_plan_spec, ElementPlan, Fragments, FragmentsView, Placement, PlanView,
};

verus! {

/// The elements that the rewriter acts on.
#[derive(Clone, Copy, Debug, PartialEq, Eq, Structural)]
pub enum Rule {
    /// The document's `head`.
    Head,
    /// The document's `body`.
    Body,
    /// The documentation generator's own stylesheet link.
    Stylesheet,
}

/// Why a rewriting pass failed. No output is returned with any of them.
#[derive(Clone, Copy, Debug, PartialEq, Eq, Structural)]
pub enum RewriteError {
    /// The pass needed more working memory than the ceiling allows.
    MemoryLimitExceeded,
    /// The input could not be tokenized as HTML unambiguously.
    MalformedMarkup,
    /// A handler could not set an attribute or rename an element.
    Attribute,
}

/// Why a handler could not apply its edits.
#[derive(Clone, Copy, Debug, PartialEq, Eq, Structural)]
pub enum HandlerFailure {
    InvalidAttributeName,
    InvalidTagName,
}

impl HandlerFailure {
    /// A message for the engine's error report.
    pub fn describe(&self) -> (r: String)
        ensures
            r@ == match self {
                HandlerFailure::InvalidAttributeName => "invalid attribute name"@,
                HandlerFailure::InvalidTagName => "invalid tag name"@,
            },
    {
        proof {
            reveal_strlit("invalid attribute name");
            reveal_strlit("invalid tag name");
        }
        match self {
            HandlerFailure::InvalidAttributeName => String::from_str("invalid attribute name"),
            HandlerFailure::InvalidTagName => String::from_str("invalid tag name"),
        }
    }
}

/// The selector that picks out the elements of a rule.
pub open spec fn selector_spec(rule: Rule) -> Seq<char> {
    match rule {
        Rule::Head => "head"@,
        Rule::Body => "body"@,
        Rule::Stylesheet => "link[type='text/css'][href*='rustdoc']"@,
    }
}

/// The registry, in the order in which the rules are registered.
pub open spec fn rules_spec() -> Seq<Rule> {
    seq![Rule::Head, Rule::Body, Rule::Stylesheet]
}

/// The edits of a rule's handler, given the fragments and the matched
/// element's `class` attribute (read by the body rule only).
pub open spec fn plan_spec(rule: Rule, f: FragmentsView, class: Option<Seq<char>>) -> PlanView {
    match rule {
        Rule::Head => head_plan_spec(f),
        Rule::Body => body_plan_spec(f, class),
        Rule::Stylesheet => stylesheet_plan_spec(f),
    }
}

/// Every name that the plan hands to the engine is a plain name.
pub open spec fn plan_names_plain(p: PlanView) -> bool {
    &&& forall|i: int| 0 <= i < p.attributes.len() ==> plain_name(#[trigger] p.attributes[i].0)
    &&& p.tag_name matches Some(t) ==> plain_name(t)
}

/// The insertions that an element keeps: all of them where it can have
/// content, else only those before and after it.
pub open spec fn kept(ins: Seq<(Placement, Seq<char>)>, content: bool) -> Seq<
    (Placement, Seq<char>),
>
    decreases ins.len(),
{
    if ins.len() == 0 {
        ins
    } else {
        let rest = kept(ins.drop_last(), content);
        if content || ins.last().0 == Placement::Before || ins.last().0 == Placement::After {
            rest.push(ins.last())
        } else {
            rest
        }
    }
}

/// The tag names that a plan gives.
pub open spec fn renames(t: Option<Seq<char>>) -> Seq<Seq<char>> {
    match t {
        Some(n) => seq![n],
        None => seq![],
    }
}

/// `g` is `e` with the plan's edits recorded after its own.
pub open spec fn plan_applied(e: Element, g: Element, p: PlanView) -> bool {
    &&& attributes_set_of(g) == attributes_set_of(e) + p.attributes
    &&& tag_names_set_of(g) == tag_names_set_of(e) + renames(p.tag_name)
    &&& insertions_of(g) == insertions_of(e) + kept(p.insertions, holds_content(e))
}

/// The selector text of a rule.
pub fn selector_text(rule: Rule) -> (r: &'static str)
    ensures
        r@ == selector_spec(rule),
{
    match rule {
        Rule::Head => "head",
        Rule::Body => "body",
        Rule::Stylesheet => "link[type='text/css'][href*='rustdoc']",
    }
}

/// The selector registry: head, body, then the generator's stylesheet.
pub fn rules() -> (r: Vec<Rule>)
    ensures
        r@ == rules_spec(),
{
    let r = vec![Rule::Head, Rule::Body, Rule::Stylesheet];
    assert(r@ =~= rules_spec());
    r
}

/// The edits of a rule's handler.
pub fn plan_for(rule: Rule, f: &Fragments, class: Option<String>) -> (r: ElementPlan)
    ensures
        r@ == plan_spec(rule, f@, opt_view(class)),
{
    match rule {
        Rule::Head => head_plan(f),
        Rule::Body => body_plan(f, class),
        Rule::Stylesheet => stylesheet_plan(f),
    }
}

/// The names in every rule's plan are plain, so no handler ever fails.
pub proof fn lemma_plan_names_plain(rule: Rule, f: FragmentsView, class: Option<Seq<char>>)
    ensures
        plan_names_plain(plan_spec(rule, f, class)),
{
    let p = plan_spec(rule, f, class);
    reveal_strlit("class");
    reveal_strlit("id");
    reveal_strlit("tabindex");
    reveal_strlit("div");
    if rule == Rule::Body {
        assert(plain_name(p.attributes[0].0));
        assert(plain_name(p.attributes[1].0));
        assert(plain_name(p.attributes[2].0));
        assert(plain_name("div"@));
    }
}

/// Applies a plan to the matched element: attributes in order, then the new
/// tag name, then the insertions in order. It succeeds whenever all the names
/// in the plan are plain, and then the element has recorded the plan's edits.
pub fn apply_plan(el: &mut Element, plan: &ElementPlan) -> (r: Result<(), HandlerFailure>)
    ensures
        plan_names_plain(plan@) ==> r is Ok,
        r is Ok ==> plan_applied(*old(el), *final(el), plan@),
        holds_content(*final(el)) == holds_content(*old(el)),
{
    let ghost e0 = *el;
    let mut i: usize = 0;
    while i < plan.attributes.len()
        invariant
            i <= plan.attributes@.len(),
            e0 == *old(el),
            attributes_set_of(*el) == attributes_set_of(e0) + plan@.attributes.subrange(0, i as int),
            tag_names_set_of(*el) == tag_names_set_of(e0),
            insertions_of(*el) == insertions_of(e0),
            holds_content(*el) == holds_content(e0),
        decreases plan.attributes@.len() - i,
    {
        proof {
            if plan_names_plain(plan@) {
                assert(plain_name(plan@.attributes[i as int].0));
            }
        }
        let a = &plan.attributes[i];
        match set_attribute(el, a.0.as_str(), a.1.as_str()) {
            Ok(()) => {},
            Err(_) => {
                return Err(HandlerFailure::InvalidAttributeName);
            },
        }
        assert(plan@.attributes.subrange(0, i + 1) =~= plan@.attributes.subrange(0, i as int).push(
            (a.0@, a.1@),
        ));
        i = i + 1;
    }
    assert(plan@.attributes.subrange(0, i as int) =~= plan@.attributes);
    match &plan.tag_name {
        Some(t) => match set_tag_name(el, t.as_str()) {
            Ok(()) => {},
            Err(_) => {
                return Err(HandlerFailure::InvalidTagName);
            },
        },
        None => {},
    }
    assert(tag_names_set_of(*el) =~= tag_names_set_of(e0) + renames(plan@.tag_name));
    let ghost content = holds_content(e0);
    let mut j: usize = 0;
    while j < plan.insertions.len()
        invariant
            j <= plan.insertions@.len(),
            e0 == *old(el),
            content == holds_content(e0),
            attributes_set_of(*el) == attributes_set_of(e0) + plan@.attributes,
            tag_names_set_of(*el) == tag_names_set_of(e0) + renames(plan@.tag_name),
            insertions_of(*el) == insertions_of(e0) + kept(
                plan@.insertions.subrange(0, j as int),
                content,
            ),
            holds_content(*el) == content,
        decreases plan.insertions@.len() - j,
    {
        let ins = &plan.insertions[j];
        let ghost before = insertions_of(*el);
        match ins.placement {
            Placement::Before => insert_before(el, ins.html.as_str()),
            Placement::After => insert_after(el, ins.html.as_str()),
            Placement::Prepend => insert_prepend(el, ins.html.as_str()),
            Placement::Append => insert_append(el, ins.html.as_str()),
        }
        proof {
            let s = plan@.insertions.subrange(0, j + 1);
            assert(s.drop_last() =~= plan@.insertions.subrange(0, j as int));
            assert(s.last() == (ins.placement, ins.html@));
            if content || ins.placement == Placement::Before || ins.placement == Placement::After {
                assert(insertions_of(*el) =~= insertions_of(e0) + kept(s, content));
            } else {
                assert(insertions_of(*el) =~= insertions_of(e0) + kept(s, content));
            }
        }
        j = j + 1;
    }
    assert(plan@.insertions.subrange(0, j as int) =~= plan@.insertions);
    Ok(())
}

/// The handler of a rule: reads the body's `class` where the rule needs it,
/// and applies the rule's plan. It never fails, and the element records
/// exactly the rule's edits.
pub fn handle_element(el: &mut Element, rule: Rule, f: &Fragments) -> (r: Result<
    (),
    HandlerFailure,
>)
    ensures
        r is Ok,
        plan_applied(*old(el), *final(el), plan_spec(rule, f@, attribute_of(*old(el), "class"@))),
{
    let class = match rule {
        Rule::Body => get_attribute(el, "class"),
        _ => None,
    };
    let plan = plan_for(rule, f, class);
    proof {
        lemma_plan_names_plain(rule, f@, opt_view(class));
    }
    apply_plan(el, &plan)
}

/// Rewrites a page in one streaming pass under a memory ceiling of
/// `max_allowed_memory_usage` bytes: the head fragment becomes the last child
/// of `head`, the vendored stylesheet goes before the generator's stylesheet
/// link, and the body becomes a `div` wrapper inside a new body that starts
/// with the header. Either the whole transformed document is returned or an
/// error, never part of the output; the output does not depend on the
/// ceiling. A ceiling below the engine's preallocated parsing buffer is
/// exceeded before any input is read.
pub fn rewrite_page(html: &[u8], max_allowed_memory_usage: usize, fragments: &Fragments) -> (r:
    Result<Vec<u8>, RewriteError>)
    ensures
        max_allowed_memory_usage < PREALLOCATED_BUFFER ==> r == Err::<Vec<u8>, RewriteError>(
            RewriteError::MemoryLimitExceeded,
        ),
        r matches Ok(out) ==> out@ == page_rewritten(html@, fragments@),
{
    if max_allowed_memory_usage < PREALLOCATED_BUFFER {
        return Err(RewriteError::MemoryLimitExceeded);
    }
    let rules = rules();
    let mut registry: Vec<(Rule, Selector)> = Vec::new();
    let mut i: usize = 0;
    while i < rules.len()
        invariant
            i <= rules@.len(),
            rules@ == rules_spec(),
            registry@.len() == i,
            forall|k: int|
                0 <= k < i ==> (#[trigger] registry@[k]).0 == rules_spec()[k] && selector_source(
                    registry@[k].1,
                ) == selector_spec(rules_spec()[k]),
        decreases rules@.len() - i,
    {
        let rule = rules[i];
        let selector = parse_selector(selector_text(rule));
        match selector {
            Ok(s) => registry.push((rule, s)),
            Err(_) => {},
        }
        i = i + 1;
    }
    match run_rewriter(html, max_allowed_memory_usage, fragments, registry) {
        Ok(out) => Ok(out),
        Err(e) => Err(engine_error(e)),
    }
}

} // verus!
