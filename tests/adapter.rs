use gof_adapter::banner::Banner;
use gof_adapter::print::{Print, PrintBanner};

fn adapter(text: &str) -> Box<dyn Print> {
    Box::new(PrintBanner::new(Banner::new(text)))
}

#[test]
fn test_print_weak() {
    let banner = Banner::new("hello");
    let print_banner: Box<dyn Print> = Box::new(PrintBanner::new(banner));
    assert_eq!(print_banner.print_weak(), "(hello)")
}

#[test]
fn test_print_strong() {
    let banner = Banner::new("hello");
    let print_banner: Box<dyn Print> = Box::new(PrintBanner::new(banner));
    assert_eq!(print_banner.print_strong(), "*hello*");
}

#[test]
fn empty_text_gives_bare_brackets() {
    let p = adapter("");
    assert_eq!(p.print_weak(), "()");
    assert_eq!(p.print_strong(), "**");
}

#[test]
fn weak_print_wraps_any_text_in_parentheses() {
    for s in ["a", "two words", "(nested)", "*star*", "日本語"] {
        assert_eq!(adapter(s).print_weak(), format!("({})", s));
    }
}

#[test]
fn strong_print_wraps_any_text_in_asterisks() {
    for s in ["a", "two words", "(nested)", "*star*", "日本語"] {
        assert_eq!(adapter(s).print_strong(), format!("*{}*", s));
    }
}

#[test]
fn repeated_prints_are_equal() {
    let p = adapter("hello");
    let w1 = p.print_weak();
    let s1 = p.print_strong();
    let w2 = p.print_weak();
    let s2 = p.print_strong();
    assert_eq!(w1, w2);
    assert_eq!(s1, s2);
    assert_eq!(p.print_weak(), "(hello)");
}

#[test]
fn banner_renders_directly() {
    let b = Banner::new("msg");
    assert_eq!(b.show_with_paren(), "(msg)");
    assert_eq!(b.show_with_aster(), "*msg*");
}

#[test]
fn banner_keeps_its_own_copy_of_the_text() {
    let mut source = String::from("first");
    let b = Banner::new(&source);
    source.push_str(" changed");
    assert_eq!(b.show_with_paren(), "(first)");
}
