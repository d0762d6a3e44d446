use slate::text::trim;
use slate::ui::truncate;

#[test]
fn trims_white_space() {
    assert_eq!(trim("  Buy milk \t\n"), "Buy milk");
    assert_eq!(trim("no spaces"), "no spaces");
    assert_eq!(trim("   "), "");
    assert_eq!(trim(""), "");
    assert_eq!(trim("\u{3000}wide\u{00a0}"), "wide");
    assert_eq!(trim(" a b "), "a b");
    assert_eq!(trim("\u{2028}\u{85}x\u{200b}"), "x\u{200b}");
    assert_eq!(trim("\u{1680}\u{202f}\u{205f}y\u{2009}\u{0b}"), "y");
}

#[test]
fn truncates_long_titles() {
    assert_eq!(truncate("hello", 10), "hello");
    assert_eq!(truncate("hello", 5), "hello");
    assert_eq!(truncate("hello world", 8), "hello...");
    assert_eq!(truncate("hello", 4), "h...");
    assert_eq!(truncate("hello", 3), "hel");
    assert_eq!(truncate("hello", 0), "");
    assert_eq!(truncate("ééééé", 4), "é...");
    for n in 0..12 {
        let t = truncate("abcdefghij", n);
        assert_eq!(t.chars().count(), n.min(10));
    }
}
