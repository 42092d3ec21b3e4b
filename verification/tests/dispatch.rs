use marker_dispatch::{render_bar, Baz, Foo};

#[test]
fn bar_renders_type_name() {
    let fresh = <Baz as Foo>::bar();
    assert_eq!(fresh.render(), "Baz");
}

#[test]
fn dispatch_produces_single_line() {
    let baz = <Baz as Foo>::bar();
    let line = render_bar(&baz);
    assert!(!line.contains('\n'));
    assert_eq!(line.lines().count(), 1);
}

#[test]
fn end_to_end_renders_marker_name() {
    let baz = <Baz as Foo>::bar();
    assert_eq!(render_bar(&baz), "Baz");
}

#[test]
fn repeated_construction_renders_same_text() {
    let first = <Baz as Foo>::bar().render();
    let second = <Baz as Foo>::bar().render();
    let third = <Baz as Foo>::bar().render();
    assert_eq!(first, second);
    assert_eq!(second, third);
}

#[test]
fn debug_rendering_matches_render() {
    let baz = <Baz as Foo>::bar();
    assert_eq!(format!("{:?}", baz), baz.render());
}
