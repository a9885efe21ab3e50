//! What each handler does to the element it matched, as plain data, and how
//! those edits place content around and inside the element.
use vstd::prelude::*;
use vstd::string::StringExecFns;

verus! {

/// The class that marks the wrapped content region.
pub const CONTAINER_CLASS: &'static str = "container-rustdoc";

/// The four pre-rendered fragments, inserted verbatim.
pub struct Fragments {
    /// Appended as the last child of `head`.
    pub head: String,
    /// Inserted right before the generator's own stylesheet link.
    pub vendored_css: String,
    /// Prepended inside the wrapper that the body becomes.
    pub body_prefix: String,
    /// Site header, inside the new body and before the wrapper.
    pub header: String,
}

pub struct FragmentsView {
    pub head: Seq<char>,
    pub vendored_css: Seq<char>,
    pub body_prefix: Seq<char>,
    pub header: Seq<char>,
}

impl View for Fragments {
    type V = FragmentsView;

    open spec fn view(&self) -> FragmentsView {
        FragmentsView {
            head: self.head@,
            vendored_css: self.vendored_css@,
            body_prefix: self.body_prefix@,
            header: self.header@,
        }
    }
}

impl Fragments {
    pub fn new(head: String, vendored_css: String, body_prefix: String, header: String) -> (r:
        Fragments)
        ensures
            r@ == (FragmentsView {
                head: head@,
                vendored_css: vendored_css@,
                body_prefix: body_prefix@,
                header: header@,
            }),
    {
        Fragments { head, vendored_css, body_prefix, header }
    }
}

/// Where inserted content goes relative to the matched element.
#[derive(Clone, Copy, Debug, PartialEq, Eq, Structural)]
pub enum Placement {
    /// Before the start tag; later insertions follow earlier ones.
    Before,
    /// After the end tag; later insertions precede earlier ones.
    After,
    /// Right after the start tag; later insertions precede earlier ones.
    Prepend,
    /// Right before the end tag; later insertions follow earlier ones.
    Append,
}

/// A piece of HTML to insert at a placement.
pub struct Insertion {
    pub placement: Placement,
    pub html: String,
}

/// The edits made to one matched element, applied in this order: attributes
/// set one after the other, then the tag renamed, then the insertions.
pub struct ElementPlan {
    pub attributes: Vec<(String, String)>,
    pub tag_name: Option<String>,
    pub insertions: Vec<Insertion>,
}

pub struct PlanView {
    pub attributes: Seq<(Seq<char>, Seq<char>)>,
    pub tag_name: Option<Seq<char>>,
    pub insertions: Seq<(Placement, Seq<char>)>,
}

impl View for ElementPlan {
    type V = PlanView;

    open spec fn view(&self) -> PlanView {
        PlanView {
            attributes: self.attributes@.map_values(|a: (String, String)| (a.0@, a.1@)),
            tag_name: opt_view(self.tag_name),
            insertions: self.insertions@.map_values(|i: Insertion| (i.placement, i.html@)),
        }
    }
}

/// The view of an optional string.
pub open spec fn opt_view(s: Option<String>) -> Option<Seq<char>> {
    match s {
        Some(v) => Some(v@),
        None => None,
    }
}

/// The class list of the wrapper: the body's own classes, if any, followed by
/// the container class.
pub open spec fn merged_class_spec(existing: Option<Seq<char>>) -> Seq<char> {
    match existing {
        Some(c) => c + " container-rustdoc"@,
        None => "container-rustdoc"@,
    }
}

/// `head`: the head fragment becomes its last child.
pub open spec fn head_plan_spec(f: FragmentsView) -> PlanView {
    PlanView { attributes: seq![], tag_name: None, insertions: seq![(Placement::Append, f.head)] }
}

/// `body`: classes merged, marked as the wrapper, renamed to `div`, the
/// prefix put first inside it, and a new body with the header put round it.
pub open spec fn body_plan_spec(f: FragmentsView, existing_class: Option<Seq<char>>) -> PlanView {
    PlanView {
        attributes: seq![
            ("class"@, merged_class_spec(existing_class)),
            ("id"@, "rustdoc_body_wrapper"@),
            ("tabindex"@, "-1"@),
        ],
        tag_name: Some("div"@),
        insertions: seq![
            (Placement::Prepend, f.body_prefix),
            (Placement::Before, "<body>"@),
            (Placement::Before, f.header),
            (Placement::After, "</body>"@),
        ],
    }
}

/// The generator's stylesheet link: the vendored stylesheet goes right before it.
pub open spec fn stylesheet_plan_spec(f: FragmentsView) -> PlanView {
    PlanView {
        attributes: seq![],
        tag_name: None,
        insertions: seq![(Placement::Before, f.vendored_css)],
    }
}

/// The content that the insertions put at placement `p`, in output order.
pub open spec fn content_at(ins: Seq<(Placement, Seq<char>)>, p: Placement) -> Seq<char>
    decreases ins.len(),
{
    if ins.len() == 0 {
        seq![]
    } else {
        let rest = content_at(ins.drop_last(), p);
        let last = ins.last();
        if last.0 != p {
            rest
        } else if p == Placement::Before || p == Placement::Append {
            rest + last.1
        } else {
            last.1 + rest
        }
    }
}

/// How an element whose (already edited) start tag is `start`, content
/// `inner` and end tag `end` comes out of the stream under `plan`, following
/// the insertion order that lol_html documents for `before`, `after`,
/// `prepend` and `append`. This is a model: no contract ties it to the bytes
/// that the rewriter emits, only to the insertions an element records.
pub open spec fn placed(plan: PlanView, start: Seq<char>, inner: Seq<char>, end: Seq<char>) -> Seq<
    char,
> {
    content_at(plan.insertions, Placement::Before) + start + content_at(
        plan.insertions,
        Placement::Prepend,
    ) + inner + content_at(plan.insertions, Placement::Append) + end + content_at(
        plan.insertions,
        Placement::After,
    )
}

/// Appends the container class to the body's existing class list, or uses the
/// container class alone where the body had no `class` attribute.
pub fn merged_class(existing: Option<String>) -> (r: String)
    ensures
        r@ == merged_class_spec(opt_view(existing)),
{
    match existing {
        Some(mut c) => {
            c.append(" container-rustdoc");
            c
        },
        None => String::from_str(CONTAINER_CLASS),
    }
}

fn insertion(placement: Placement, html: &str) -> (r: Insertion)
    ensures
        r.placement == placement,
        r.html@ == html@,
{
    Insertion { placement, html: String::from_str(html) }
}

fn attribute(name: &str, value: &str) -> (r: (String, String))
    ensures
        r.0@ == name@,
        r.1@ == value@,
{
    (String::from_str(name), String::from_str(value))
}

/// The edits for the document's `head`.
pub fn head_plan(f: &Fragments) -> (r: ElementPlan)
    ensures
        r@ == head_plan_spec(f@),
{
    let insertions = vec![insertion(Placement::Append, f.head.as_str())];
    let r = ElementPlan { attributes: Vec::new(), tag_name: None, insertions };
    assert(r@.attributes =~= seq![]);
    assert(r@.insertions =~= seq![(Placement::Append, f@.head)]);
    r
}

/// The edits for the document's `body`, given its current `class` attribute.
pub fn body_plan(f: &Fragments, existing_class: Option<String>) -> (r: ElementPlan)
    ensures
        r@ == body_plan_spec(f@, opt_view(existing_class)),
{
    let attributes = vec![
        (String::from_str("class"), merged_class(existing_class)),
        attribute("id", "rustdoc_body_wrapper"),
        attribute("tabindex", "-1"),
    ];
    let insertions = vec![
        insertion(Placement::Prepend, f.body_prefix.as_str()),
        insertion(Placement::Before, "<body>"),
        insertion(Placement::Before, f.header.as_str()),
        insertion(Placement::After, "</body>"),
    ];
    let r = ElementPlan { attributes, tag_name: Some(String::from_str("div")), insertions };
    let ghost s = body_plan_spec(f@, opt_view(existing_class));
    assert(r@.attributes =~= s.attributes);
    assert(r@.insertions =~= s.insertions);
    r
}

/// The edits for the generator's own stylesheet link.
pub fn stylesheet_plan(f: &Fragments) -> (r: ElementPlan)
    ensures
        r@ == stylesheet_plan_spec(f@),
{
    let insertions = vec![insertion(Placement::Before, f.vendored_css.as_str())];
    let r = ElementPlan { attributes: Vec::new(), tag_name: None, insertions };
    assert(r@.attributes =~= seq![]);
    assert(r@.insertions =~= seq![(Placement::Before, f@.vendored_css)]);
    r
}

} // verus!
