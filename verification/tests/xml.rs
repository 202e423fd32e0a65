use epp_client::canon::check_name;
use epp_client::query::{has_local_name, text_eq};
use epp_client::reader::{
    read_document, read_element, scan, unescape_range, CharClass, MAX_DEPTH,
};
use epp_client::text::{
    chars_of, decimal_string, parse_decimal, push_decimal, push_two_digits, string_of,
};
use epp_client::xml::{push_escaped, XmlElement};

fn chars(s: &str) -> Vec<char> {
    s.chars().collect()
}

#[test]
fn element_as_written() {
    let mut e = XmlElement::new("a");
    assert_eq!(e.to_text(), "<a/>");
    e.add_attribute("k", "v\"<&>'");
    assert_eq!(e.to_text(), "<a k=\"v&quot;&lt;&amp;&gt;&apos;\"/>");
    e.add_child(XmlElement::with_text("b", "1 < 2"));
    e.add_child(XmlElement::new("c"));
    assert_eq!(e.to_text(), "<a k=\"v&quot;&lt;&amp;&gt;&apos;\"><b>1 &lt; 2</b><c/></a>");
    e.add_text_children("d", &vec!["x".to_string(), "".to_string()]);
    assert_eq!(
        e.to_text(),
        "<a k=\"v&quot;&lt;&amp;&gt;&apos;\"><b>1 &lt; 2</b><c/><d>x</d><d/></a>"
    );
}

#[test]
fn text_of_an_element_with_children_is_not_written() {
    let mut e = XmlElement::with_text("a", "ignored");
    e.add_child(XmlElement::new("b"));
    assert_eq!(e.to_text(), "<a><b/></a>");
    assert!(!e.is_well_formed());
}

#[test]
fn document_round_trip() {
    let mut root = XmlElement::new("ns:root");
    root.add_attribute("xmlns:ns", "urn:x");
    root.add_attribute("empty", "");
    let mut child = XmlElement::new("ns:child");
    child.add_child(XmlElement::with_text("leaf", " spaces & <tags> \"kept\" 'too' "));
    child.add_child(XmlElement::new("none"));
    root.add_child(child);
    root.add_child(XmlElement::with_text("t", "é€😀"));
    assert!(root.is_well_formed());
    let text = root.to_text();
    let back = read_document(&text).unwrap();
    assert_eq!(back.to_text(), text);
    assert_eq!(back.name, "ns:root");
    assert_eq!(back.attributes.len(), 2);
    assert_eq!(back.attributes[1].name, "empty");
    assert_eq!(back.attributes[1].value, "");
    assert_eq!(back.children.len(), 2);
    assert_eq!(
        back.children[0].children[0].text,
        " spaces & <tags> \"kept\" 'too' "
    );
    assert_eq!(back.children[0].children[1].children.len(), 0);
    assert_eq!(back.children[1].text, "é€😀");
}

#[test]
fn reader_accepts_what_servers_send() {
    let text = "\n<?xml version='1.0'?>\n<e:epp xmlns:e = 'x'>\n</e:epp>";
    assert!(read_document(text).is_none());
    let text = "\n<?xml version='1.0'?>\n<e:epp xmlns:e='it''s'/>";
    assert!(read_document(text).is_none());
    let text = " \r\n<?xml version='1.0'?>\t\n<e:epp  xmlns:e='a \"b\"'\n k=\"it's\" >\n  <x  /> text <y>1</y >\n</e:epp >\n";
    let root = read_document(text).unwrap();
    assert_eq!(root.name, "e:epp");
    assert_eq!(root.attribute("xmlns:e").unwrap(), "a \"b\"");
    assert_eq!(root.attribute("k").unwrap(), "it's");
    assert!(root.attribute("e").is_none());
    assert_eq!(root.text, "");
    assert_eq!(root.children.len(), 2);
    assert_eq!(root.children[0].name, "x");
    assert_eq!(root.child_text("y").unwrap(), "1");
    assert!(read_document("<a/>").is_some());
    assert_eq!(read_document("<a>&lt;&gt;&amp;&quot;&apos;&unknown;&#65;&</a>").unwrap().text, "<>&\"'&unknown;&#65;&");
}

#[test]
fn reader_refuses_malformed_text() {
    for text in [
        "",
        "   ",
        "a",
        "<",
        "<>",
        "< a/>",
        "<a",
        "<a>",
        "<a></b>",
        "<a><b></a></b>",
        "<a x></a>",
        "<a x=1/>",
        "<a x=\"1/>",
        "<a/><b/>",
        "<a/>x",
        "<a><!-- c --></a>",
        "<?xml version=\"1.0\"?>",
        "<a /",
    ] {
        assert!(read_document(text).is_none(), "{:?}", text);
    }
    assert!(read_document("<?xml version=\"1.0\" <a/>").is_none());
}

#[test]
fn read_element_returns_the_position_behind_it() {
    let src = chars("xx<a k='v'><b/></a>yy");
    let (e, to) = read_element(&src, 2, 2).unwrap();
    assert_eq!(to, 19);
    assert_eq!(e.name, "a");
    assert_eq!(e.children.len(), 1);
    assert!(read_element(&src, 2, 1).is_none());
    assert!(read_element(&src, 2, 0).is_none());
    assert!(read_element(&src, 0, 2).is_none());
    assert!(read_element(&src, src.len(), 2).is_none());
}

fn nested(levels: usize) -> XmlElement {
    let mut e = XmlElement::new("leaf");
    for _ in 1..levels {
        let mut outer = XmlElement::new("n");
        outer.add_child(e);
        e = outer;
    }
    e
}

#[test]
fn nesting_is_limited() {
    assert_eq!(MAX_DEPTH, 128);
    let deepest = nested(MAX_DEPTH);
    assert!(deepest.fits_within(MAX_DEPTH));
    assert!(!deepest.fits_within(MAX_DEPTH - 1));
    assert!(deepest.is_writable());
    let text = deepest.to_text();
    assert_eq!(read_document(&text).unwrap().to_text(), text);
    let too_deep = nested(MAX_DEPTH + 1);
    assert!(too_deep.is_well_formed());
    assert!(!too_deep.is_writable());
    assert!(read_document(&too_deep.to_text()).is_none());
    assert!(matches!(
        epp_client::request::write_document(&too_deep),
        Err(epp_client::common::Error::Xml)
    ));
    let hostile = "<a>".repeat(300_000);
    assert!(read_document(&hostile).is_none());
    assert!(!XmlElement::new("a").fits_within(0));
}

#[test]
fn lookup_ignores_the_prefix_of_elements_only() {
    let root = read_document(
        "<r><p:a n='1'/><a n='2'/><q:b/><p:a n='3'/><x:y:z/><c p:k='v' k='w'/></r>",
    )
    .unwrap();
    assert_eq!(root.child("a").unwrap().attribute("n").unwrap(), "1");
    assert_eq!(root.children_named("a").len(), 3);
    assert_eq!(root.children_named("a")[2].attribute("n").unwrap(), "3");
    assert!(root.child("p:a").is_none());
    assert!(root.child("y:z").is_some());
    assert!(root.child("z").is_none());
    assert!(root.child("missing").is_none());
    assert_eq!(root.children_named("missing").len(), 0);
    let c = root.child("c").unwrap();
    assert_eq!(c.attribute("k").unwrap(), "w");
    assert_eq!(c.attribute("p:k").unwrap(), "v");
    assert_eq!(root.child_texts("a"), vec!["", "", ""]);
    assert!(has_local_name("domain:name", "name"));
    assert!(has_local_name("name", "name"));
    assert!(!has_local_name("domain:name", "domain:name"));
    assert!(has_local_name(":", ""));
    assert!(text_eq("abc", "abc"));
    assert!(!text_eq("abc", "abd"));
    assert!(!text_eq("abc", "ab"));
}

#[test]
fn scanning_and_unescaping() {
    let src = chars("  ab=\"x&amp;y\"");
    assert_eq!(scan(&src, 0, CharClass::Space), 2);
    assert_eq!(scan(&src, 2, CharClass::Name), 4);
    assert_eq!(scan(&src, 6, CharClass::DoubleQuoted), 13);
    assert_eq!(scan(&src, 14, CharClass::Text), 14);
    assert_eq!(scan(&src, 0, CharClass::Prefix), 14);
    assert_eq!(scan(&src, 0, CharClass::SingleQuoted), 14);
    assert_eq!(unescape_range(&src, 6, 13), "x&y");
    assert_eq!(unescape_range(&src, 7, 12), "&");
    assert_eq!(unescape_range(&src, 7, 11), "&amp");
    assert_eq!(unescape_range(&src, 6, 6), "");
    let mut out = "<".to_string();
    push_escaped(&mut out, "a&b");
    assert_eq!(out, "<a&amp;b");
}

#[test]
fn names() {
    assert!(check_name("domain:name"));
    assert!(check_name("a-b.c_d"));
    assert!(!check_name(""));
    for bad in ["a b", "a<", "a>", "a/b", "a=b", "a\"", "a'", "a\tb", "a\n", "\r"] {
        assert!(!check_name(bad), "{:?}", bad);
    }
}

#[test]
fn decimal_numbers() {
    assert_eq!(decimal_string(0), "0");
    assert_eq!(decimal_string(7), "7");
    assert_eq!(decimal_string(10), "10");
    assert_eq!(decimal_string(12345), "12345");
    assert_eq!(decimal_string(u64::MAX), "18446744073709551615");
    let mut s = "n=".to_string();
    push_decimal(&mut s, 909);
    assert_eq!(s, "n=909");
    let mut t = String::new();
    push_two_digits(&mut t, 0);
    push_two_digits(&mut t, 9);
    push_two_digits(&mut t, 10);
    push_two_digits(&mut t, 255);
    assert_eq!(t, "000910255");
    assert_eq!(parse_decimal(&chars("0")), Some(0));
    assert_eq!(parse_decimal(&chars("007")), Some(7));
    assert_eq!(parse_decimal(&chars("1000")), Some(1000));
    assert_eq!(parse_decimal(&chars("4294967295")), Some(4294967295));
    assert_eq!(parse_decimal(&chars("4294967296")), None);
    assert_eq!(parse_decimal(&chars("99999999999999999999999")), None);
    assert_eq!(parse_decimal(&chars("")), None);
    assert_eq!(parse_decimal(&chars("12a")), None);
    assert_eq!(parse_decimal(&chars("-1")), None);
    assert_eq!(parse_decimal(&chars("+1")), None);
    assert_eq!(parse_decimal(&chars(" 1")), None);
}

#[test]
fn characters_and_strings() {
    assert_eq!(chars_of("aé😀"), vec!['a', 'é', '😀']);
    assert_eq!(chars_of(""), Vec::<char>::new());
    let src = chars("hello");
    assert_eq!(string_of(&src, 1, 4), "ell");
    assert_eq!(string_of(&src, 5, 5), "");
}
