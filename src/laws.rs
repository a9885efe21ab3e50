//! Properties of the handlers' edits, stated over the plans and the placement
//! model of `plan`.
use vstd::prelude::*;
use lol_html::html_content::Element;
use crate::engine::{holds_content, insertions_of};
use crate::plan::{
    body_plan_spec, content_at, head_plan_spec, merged_class_spec, placed, stylesheet_plan_spec,
    FragmentsView, Placement, PlanView,
};
use crate::rewrite::{kept, plan_applied, plan_spec, Rule};

verus! {

/// The wrapper's class is exactly the container class when the body had no
/// class, and the body's classes followed by the container class otherwise;
/// the original class list is a prefix of the merged one.
pub proof fn law_class_merge(c: Seq<char>)
    ensures
        merged_class_spec(None) == "container-rustdoc"@,
        merged_class_spec(Some(c)) == c + " container-rustdoc"@,
        merged_class_spec(Some(c)).subrange(0, c.len() as int) == c,
{
    assert(merged_class_spec(Some(c)).subrange(0, c.len() as int) =~= c);
}

/// The head fragment comes out as the last child of `head`, after all of the
/// head's own content.
pub proof fn law_head_fragment_last(f: FragmentsView, s: Seq<char>, x: Seq<char>, t: Seq<char>)
    ensures
        placed(head_plan_spec(f), s, x, t) == s + x + f.head + t,
{
    reveal_with_fuel(content_at, 2);
    let ins = head_plan_spec(f).insertions;
    assert(ins.drop_last() =~= seq![]);
    assert(placed(head_plan_spec(f), s, x, t) =~= s + x + f.head + t);
}

/// The body comes out as a new `<body>` holding the header and then the
/// renamed wrapper, whose first child is the prefix, followed by the body's
/// own content.
pub proof fn law_body_wrapped(
    f: FragmentsView,
    existing_class: Option<Seq<char>>,
    s: Seq<char>,
    x: Seq<char>,
    t: Seq<char>,
)
    ensures
        placed(body_plan_spec(f, existing_class), s, x, t) == "<body>"@ + f.header + s
            + f.body_prefix + x + t + "</body>"@,
{
    lemma_body_content(f, existing_class);
    assert(placed(body_plan_spec(f, existing_class), s, x, t) =~= "<body>"@ + f.header + s
        + f.body_prefix + x + t + "</body>"@);
}

proof fn lemma_body_content(f: FragmentsView, existing_class: Option<Seq<char>>)
    ensures
        content_at(body_plan_spec(f, existing_class).insertions, Placement::Before) == "<body>"@
            + f.header,
        content_at(body_plan_spec(f, existing_class).insertions, Placement::Prepend)
            == f.body_prefix,
        content_at(body_plan_spec(f, existing_class).insertions, Placement::Append) == Seq::<
            char,
        >::empty(),
        content_at(body_plan_spec(f, existing_class).insertions, Placement::After) == "</body>"@,
{
    reveal_with_fuel(content_at, 5);
    let ins = body_plan_spec(f, existing_class).insertions;
    let i3 = ins.drop_last();
    let i2 = i3.drop_last();
    let i1 = i2.drop_last();
    let i0 = i1.drop_last();
    assert(i3 =~= seq![ins[0], ins[1], ins[2]]);
    assert(i2 =~= seq![ins[0], ins[1]]);
    assert(i1 =~= seq![ins[0]]);
    assert(i0 =~= seq![]);
    assert(content_at(ins, Placement::Before) =~= "<body>"@ + f.header);
    assert(content_at(ins, Placement::Prepend) =~= f.body_prefix);
    assert(content_at(ins, Placement::Append) =~= Seq::<char>::empty());
    assert(content_at(ins, Placement::After) =~= "</body>"@);
}

/// The vendored stylesheet comes out strictly before the matched link: the
/// link's start tag begins right where the vendored fragment ends.
pub proof fn law_stylesheet_before(f: FragmentsView, s: Seq<char>, x: Seq<char>, t: Seq<char>)
    ensures
        placed(stylesheet_plan_spec(f), s, x, t) == f.vendored_css + s + x + t,
{
    reveal_with_fuel(content_at, 2);
    let ins = stylesheet_plan_spec(f).insertions;
    assert(ins.drop_last() =~= seq![]);
    assert(placed(stylesheet_plan_spec(f), s, x, t) =~= f.vendored_css + s + x + t);
}

/// Taking the new body tags, the header and the prefix back out of the
/// wrapped body gives the element's start tag and its content and end tag
/// unchanged, in order.
pub proof fn law_body_round_trip(
    f: FragmentsView,
    existing_class: Option<Seq<char>>,
    s: Seq<char>,
    x: Seq<char>,
    t: Seq<char>,
)
    ensures
        ({
            let out = placed(body_plan_spec(f, existing_class), s, x, t);
            let a: int = 6 + f.header.len() as int;
            let b: int = a + s.len() + f.body_prefix.len();
            &&& out.subrange(a, a + s.len()) == s
            &&& out.subrange(b, out.len() - 7) == x + t
        }),
{
    law_body_wrapped(f, existing_class, s, x, t);
    let out = placed(body_plan_spec(f, existing_class), s, x, t);
    let a: int = 6 + f.header.len() as int;
    let b: int = a + s.len() + f.body_prefix.len();
    assert("<body>"@.len() == 6) by {
        reveal_strlit("<body>");
    }
    assert("</body>"@.len() == 7) by {
        reveal_strlit("</body>");
    }
    assert(out.subrange(a, a + s.len()) =~= s);
    assert(out.subrange(b, out.len() - 7) =~= x + t);
}

proof fn lemma_kept_all(ins: Seq<(Placement, Seq<char>)>)
    ensures
        kept(ins, true) == ins,
    decreases ins.len(),
{
    if ins.len() > 0 {
        lemma_kept_all(ins.drop_last());
        assert(ins.drop_last().push(ins.last()) =~= ins);
    }
}

/// An element that can have content and had no insertions before its
/// handler ran records exactly the insertions of its rule's plan, so it is
/// placed in the stream as that plan places it.
pub proof fn law_handled_element_placed(
    e: Element,
    g: Element,
    rule: Rule,
    f: FragmentsView,
    class: Option<Seq<char>>,
    s: Seq<char>,
    x: Seq<char>,
    t: Seq<char>,
)
    requires
        plan_applied(e, g, plan_spec(rule, f, class)),
        insertions_of(e) == Seq::<(Placement, Seq<char>)>::empty(),
        holds_content(e),
    ensures
        insertions_of(g) == plan_spec(rule, f, class).insertions,
        placed(
            PlanView { insertions: insertions_of(g), ..plan_spec(rule, f, class) },
            s,
            x,
            t,
        ) == placed(plan_spec(rule, f, class), s, x, t),
{
    let ins = plan_spec(rule, f, class).insertions;
    lemma_kept_all(ins);
    assert(insertions_of(g) =~= ins);
}

} // verus!
