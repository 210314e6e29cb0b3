use boca::{render, render_read, ReadError, RenderResult};

#[test]
fn heading_renders_as_markup() {
    let r = render("# Hello", false);
    assert!(!r.is_failure());
    assert_eq!(r.body(), "<h1>Hello</h1>");
}

#[test]
fn second_level_heading() {
    let r = render("## World", false);
    assert_eq!(r.body(), "<h2>World</h2>");
}

#[test]
fn rendering_twice_gives_identical_markup() {
    let text = "# Title\n\nSome *emphasis*, a [link](https://example.com) and\n\n| a | b |\n|---|---|\n| 1 | 2 |\n";
    for trusted in [false, true] {
        let a = render(text, trusted);
        let b = render(text, trusted);
        assert_eq!(a.body(), b.body());
        assert!(!a.is_failure());
    }
}

#[test]
fn untrusted_script_is_escaped() {
    let r = render("<script>x</script>", false);
    assert!(!r.is_failure());
    assert!(!r.body().contains("<script"));
    assert!(r.body().contains("&lt;script&gt;"));
}

#[test]
fn trusted_script_passes_through() {
    let r = render("<script>x</script>", true);
    assert!(!r.is_failure());
    assert!(r.body().contains("<script>x</script>"));
}

#[test]
fn gfm_strikethrough_is_on() {
    let r = render("~~gone~~", false);
    assert_eq!(r.body(), "<p><del>gone</del></p>");
}

#[test]
fn empty_text_renders_empty() {
    let r = render("", false);
    assert!(!r.is_failure());
    assert_eq!(r.body(), "");
}

#[test]
fn read_of_text_is_rendered() {
    let r = render_read(Ok(String::from("# Hello")), false);
    assert!(matches!(r, RenderResult::Rendered(_)));
    assert_eq!(r.body(), "<h1>Hello</h1>");
}

#[test]
fn failed_read_becomes_failure_payload() {
    let e = ReadError { path: String::from("notes.md"), cause: String::from("not found") };
    let r = render_read(Err(e), false);
    assert!(r.is_failure());
    assert_eq!(r.body(), "Could not read from file notes.md: not found");
}
