use page_rewrite::plan::{
    body_plan, head_plan, merged_class, stylesheet_plan, Fragments, Placement, CONTAINER_CLASS,
};
use page_rewrite::rewrite::{
    plan_for, rewrite_page, rules, selector_text, HandlerFailure, RewriteError, Rule,
};

const CEILING: usize = 100 * 1024;

fn fragments() -> Fragments {
    Fragments::new(
        "<style>h</style>".to_string(),
        "<link rel=vendor>".to_string(),
        "<nav>top</nav>".to_string(),
        "<header>hdr</header>".to_string(),
    )
}

fn rewrite(html: &str) -> Result<String, RewriteError> {
    rewrite_page(html.as_bytes(), CEILING, &fragments()).map(|b| String::from_utf8(b).unwrap())
}

// The rewriter keeps an attribute the body already has where it stands and
// adds new ones after it, so an existing `class` comes before `id`.
#[test]
fn wraps_example_page() {
    let out = rewrite("<html><head></head><body class=\"foo\">X</body></html>").unwrap();
    assert_eq!(
        out,
        "<html><head><style>h</style></head><body><header>hdr</header>\
         <div class=\"foo container-rustdoc\" id=\"rustdoc_body_wrapper\" tabindex=\"-1\">\
         <nav>top</nav>X</div></body></html>"
    );
}

#[test]
fn body_without_class_gets_container_class_only() {
    let out = rewrite("<html><head></head><body>X</body></html>").unwrap();
    assert_eq!(
        out,
        "<html><head><style>h</style></head><body><header>hdr</header>\
         <div class=\"container-rustdoc\" id=\"rustdoc_body_wrapper\" tabindex=\"-1\">\
         <nav>top</nav>X</div></body></html>"
    );
}

#[test]
fn head_fragment_is_last_child_of_head() {
    let out = rewrite("<html><head><title>t</title><meta charset=\"utf-8\"></head><body></body></html>")
        .unwrap();
    assert!(out.starts_with(
        "<html><head><title>t</title><meta charset=\"utf-8\"><style>h</style></head>"
    ));
    assert_eq!(out.matches("<style>h</style>").count(), 1);
    assert_eq!(out.matches("<body>").count(), 1);
    assert_eq!(out.matches("</body>").count(), 1);
}

#[test]
fn vendored_stylesheet_precedes_generator_stylesheet() {
    let link = "<link rel=\"stylesheet\" type=\"text/css\" href=\"../rustdoc-1.css\">";
    let html = format!("<html><head><link rel=\"icon\" href=\"a.png\">{}</head><body></body></html>", link);
    let out = rewrite(&html).unwrap();
    let expected = format!("<link rel=vendor>{}", link);
    assert!(out.contains(&expected));
    assert_eq!(out.matches("<link rel=vendor>").count(), 1);
    assert!(out.find("<link rel=vendor>").unwrap() < out.find(link).unwrap());
}

#[test]
fn every_matching_stylesheet_gets_the_fragment() {
    let a = "<link type=\"text/css\" href=\"rustdoc.css\">";
    let b = "<link type=\"text/css\" href=\"x/rustdoc-2.css\">";
    let html = format!("<html><head>{}{}</head><body></body></html>", a, b);
    let out = rewrite(&html).unwrap();
    assert!(out.contains(&format!("<link rel=vendor>{}<link rel=vendor>{}", a, b)));
}

#[test]
fn other_stylesheets_are_left_alone() {
    let html = "<html><head><link type=\"text/css\" href=\"main.css\">\
                <link href=\"rustdoc.css\"></head><body></body></html>";
    let out = rewrite(html).unwrap();
    assert!(!out.contains("<link rel=vendor>"));
}

#[test]
fn page_without_head_or_body_passes_through() {
    let html = "<p>just text</p>";
    assert_eq!(rewrite(html).unwrap(), html);
}

#[test]
fn removing_injections_gives_back_the_input() {
    let html = "<html><head><title>t</title></head><body class=\"a b\"><p>x</p></body></html>";
    let out = rewrite(html).unwrap();
    let reverted = out
        .replace("<style>h</style>", "")
        .replace("<body><header>hdr</header>", "")
        .replace("<nav>top</nav>", "")
        .replace("</body>", "")
        .replace(
            "<div class=\"a b container-rustdoc\" id=\"rustdoc_body_wrapper\" tabindex=\"-1\">",
            "<body class=\"a b\">",
        )
        .replace("</div>", "</body>");
    assert_eq!(reverted, html);
}

#[test]
fn unterminated_oversized_tag_exceeds_memory_ceiling() {
    let html = format!("<html><head></head><body class=\"{}", "z".repeat(64 * 1024));
    let r = rewrite_page(html.as_bytes(), 4096, &fragments());
    assert_eq!(r, Err(RewriteError::MemoryLimitExceeded));
}

#[test]
fn ceiling_below_parsing_buffer_is_exceeded() {
    let r = rewrite_page(b"<html></html>", 1000, &fragments());
    assert_eq!(r, Err(RewriteError::MemoryLimitExceeded));
    let r = rewrite_page(b"", 0, &fragments());
    assert_eq!(r, Err(RewriteError::MemoryLimitExceeded));
}

#[test]
fn larger_ceiling_keeps_the_output() {
    let html = "<html><head></head><body class=\"foo\">X</body></html>";
    let a = rewrite_page(html.as_bytes(), 4096, &fragments()).unwrap();
    let b = rewrite_page(html.as_bytes(), usize::MAX, &fragments()).unwrap();
    assert_eq!(a, b);
}

#[test]
fn void_stylesheet_link_keeps_its_fragment_before_it() {
    let link = "<link type=\"text/css\" href=\"rustdoc.css\"/>";
    let html = format!("<head>{}</head>", link);
    let out = rewrite(&html).unwrap();
    assert_eq!(out, format!("<head><link rel=vendor>{}<style>h</style></head>", link));
}

#[test]
fn empty_input_gives_empty_output() {
    assert_eq!(rewrite_page(b"", CEILING, &fragments()), Ok(Vec::new()));
}

#[test]
fn merged_class_appends_container_class() {
    assert_eq!(merged_class(None), "container-rustdoc");
    assert_eq!(merged_class(Some("foo".to_string())), "foo container-rustdoc");
    assert_eq!(merged_class(Some(String::new())), " container-rustdoc");
    assert_eq!(CONTAINER_CLASS, "container-rustdoc");
}

#[test]
fn head_plan_appends_head_fragment() {
    let p = head_plan(&fragments());
    assert!(p.attributes.is_empty());
    assert!(p.tag_name.is_none());
    assert_eq!(p.insertions.len(), 1);
    assert_eq!(p.insertions[0].placement, Placement::Append);
    assert_eq!(p.insertions[0].html, "<style>h</style>");
}

#[test]
fn body_plan_lists_the_wrapper_edits() {
    let p = body_plan(&fragments(), Some("foo".to_string()));
    let attrs: Vec<(&str, &str)> =
        p.attributes.iter().map(|(n, v)| (n.as_str(), v.as_str())).collect();
    assert_eq!(
        attrs,
        vec![
            ("class", "foo container-rustdoc"),
            ("id", "rustdoc_body_wrapper"),
            ("tabindex", "-1")
        ]
    );
    assert_eq!(p.tag_name.as_deref(), Some("div"));
    let ins: Vec<(Placement, &str)> =
        p.insertions.iter().map(|i| (i.placement, i.html.as_str())).collect();
    assert_eq!(
        ins,
        vec![
            (Placement::Prepend, "<nav>top</nav>"),
            (Placement::Before, "<body>"),
            (Placement::Before, "<header>hdr</header>"),
            (Placement::After, "</body>"),
        ]
    );
}

#[test]
fn stylesheet_plan_inserts_vendored_before() {
    let p = stylesheet_plan(&fragments());
    assert!(p.attributes.is_empty());
    assert!(p.tag_name.is_none());
    assert_eq!(p.insertions.len(), 1);
    assert_eq!(p.insertions[0].placement, Placement::Before);
    assert_eq!(p.insertions[0].html, "<link rel=vendor>");
}

#[test]
fn plan_for_reads_class_only_for_body() {
    let f = fragments();
    let body = plan_for(Rule::Body, &f, None);
    assert_eq!(body.attributes[0].1, "container-rustdoc");
    let head = plan_for(Rule::Head, &f, Some("ignored".to_string()));
    assert!(head.attributes.is_empty());
    let sheet = plan_for(Rule::Stylesheet, &f, None);
    assert_eq!(sheet.insertions[0].html, "<link rel=vendor>");
}

#[test]
fn registry_order_and_selectors() {
    assert_eq!(rules(), vec![Rule::Head, Rule::Body, Rule::Stylesheet]);
    assert_eq!(selector_text(Rule::Head), "head");
    assert_eq!(selector_text(Rule::Body), "body");
    assert_eq!(
        selector_text(Rule::Stylesheet),
        "link[type='text/css'][href*='rustdoc']"
    );
}

#[test]
fn handler_failures_have_messages() {
    assert_eq!(HandlerFailure::InvalidAttributeName.describe(), "invalid attribute name");
    assert_eq!(HandlerFailure::InvalidTagName.describe(), "invalid tag name");
}
