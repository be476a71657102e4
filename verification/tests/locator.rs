use rust_drission::locator::{
    Locator, LocatorParseError, escape_attr_value, escape_class_selector, escape_id_selector,
};

#[test]
fn locator_parse_css() {
    let loc = Locator::parse("css:.btn").unwrap();
    assert!(matches!(loc, Locator::Css(ref s) if s == ".btn"));
    assert_eq!(loc.to_css_selector().as_deref(), Some(".btn"));
    assert!(!loc.is_xpath());
    assert!(!loc.is_text());
}

#[test]
fn locator_parse_css_with_spaces() {
    let loc = Locator::parse("  css: div.main  ").unwrap();
    assert!(matches!(loc, Locator::Css(ref s) if s == "div.main"));
}

#[test]
fn locator_parse_xpath() {
    let loc = Locator::parse("xpath://div[@id='foo']").unwrap();
    assert!(matches!(loc, Locator::XPath(ref s) if s == "//div[@id='foo']"));
    assert!(loc.is_xpath());
    assert_eq!(loc.to_xpath_expression().as_deref(), Some("//div[@id='foo']"));
    assert!(loc.to_css_selector().is_none());
}

#[test]
fn locator_parse_text() {
    let loc = Locator::parse("text:立即沟通").unwrap();
    assert!(matches!(loc, Locator::Text(ref s) if s == "立即沟通"));
    assert!(loc.is_text());
    let xpath = loc.to_xpath_expression().unwrap();
    assert!(xpath.contains("contains(text(),"));
    assert!(xpath.contains("立即沟通"));
}

#[test]
fn locator_parse_attr() {
    let loc = Locator::parse("attr:data-id=123").unwrap();
    assert!(matches!(loc, Locator::Attr(ref a, ref b) if a == "data-id" && b == "123"));
    assert_eq!(loc.to_css_selector().as_deref(), Some("[data-id=\"123\"]"));
}

#[test]
fn locator_parse_id() {
    let loc = Locator::parse("id:login").unwrap();
    assert!(matches!(loc, Locator::Id(ref s) if s == "login"));
    assert_eq!(loc.to_css_selector().as_deref(), Some("#login"));
}

#[test]
fn locator_parse_class() {
    let loc = Locator::parse("class:card").unwrap();
    assert!(matches!(loc, Locator::Class(ref s) if s == "card"));
    assert_eq!(loc.to_css_selector().as_deref(), Some(".card"));
}

#[test]
fn locator_parse_tag() {
    let loc = Locator::parse("tag:div").unwrap();
    assert!(matches!(loc, Locator::Tag(ref s) if s == "div"));
    assert_eq!(loc.to_css_selector().as_deref(), Some("div"));
}

#[test]
fn locator_parse_case_insensitive() {
    let loc = Locator::parse("CSS:.btn").unwrap();
    assert!(matches!(loc, Locator::Css(_)));
    let loc = Locator::parse("XPATH://div").unwrap();
    assert!(matches!(loc, Locator::XPath(_)));
}

#[test]
fn locator_parse_bare_css() {
    assert!(matches!(Locator::parse("#kw"), Ok(Locator::Css(s)) if s == "#kw"));
    assert!(matches!(Locator::parse(".btn"), Ok(Locator::Css(s)) if s == ".btn"));
    assert!(matches!(Locator::parse("input[name=q]"), Ok(Locator::Css(s)) if s == "input[name=q]"));
}

#[test]
fn locator_parse_error_missing_prefix() {
    assert!(matches!(
        Locator::parse("123"),
        Err(LocatorParseError::MissingPrefix)
    ));
}

#[test]
fn locator_parse_error_empty_value() {
    assert!(matches!(
        Locator::parse("css:"),
        Err(LocatorParseError::EmptyValue)
    ));
    assert!(matches!(
        Locator::parse("css:   "),
        Err(LocatorParseError::EmptyValue)
    ));
}

#[test]
fn locator_parse_error_attr_no_equals() {
    assert!(matches!(
        Locator::parse("attr:novalue"),
        Err(LocatorParseError::AttrNoEquals)
    ));
}

#[test]
fn locator_parse_error_unknown_kind() {
    assert!(matches!(
        Locator::parse("unknown:value"),
        Err(LocatorParseError::UnknownKind(s)) if s == "unknown"
    ));
}

#[test]
fn locator_display() {
    assert_eq!(Locator::parse("css:.btn").unwrap().to_string(), "css:.btn");
    assert_eq!(Locator::parse("id:foo").unwrap().to_string(), "id:foo");
}

#[test]
fn locator_id_selector_escape() {
    let loc = Locator::parse("id:foo#bar").unwrap();
    let sel = loc.to_css_selector().unwrap();
    assert!(sel.contains("\\#"));
}

#[test]
fn locator_round_trip_through_display() {
    for s in ["css:.btn", "xpath://a", "text:hi", "attr:k=v", "id:x", "class:y", "tag:p"] {
        let loc = Locator::parse(s).unwrap();
        assert_eq!(Locator::parse(&loc.to_string()).unwrap(), loc);
        assert_eq!(loc.to_string(), s);
    }
}

#[test]
fn locator_escapes() {
    assert_eq!(escape_id_selector("a.b#c\\"), "a.b\\#c\\\\");
    assert_eq!(escape_class_selector("a.b#c"), "a\\.b#c");
    assert_eq!(escape_attr_value("say \"hi\\\""), "say \\\"hi\\\\\\\"");
    let loc = Locator::parse("text:it's").unwrap();
    assert_eq!(loc.to_xpath_expression().as_deref(), Some("//*[contains(text(),\"it's\")]"));
    let loc = Locator::parse("text:a\\b").unwrap();
    assert_eq!(loc.to_xpath_expression().as_deref(), Some("//*[contains(text(),'a\\b')]"));
    let loc = Locator::parse("text:say \"it's\"").unwrap();
    assert_eq!(
        loc.to_xpath_expression().as_deref(),
        Some("//*[contains(text(),concat('say \"it', \"'\", 's\"'))]")
    );
}

#[test]
fn locator_search_query_prefers_css() {
    assert_eq!(Locator::parse("id:a").unwrap().to_search_query().as_deref(), Some("#a"));
    assert_eq!(Locator::parse("xpath://b").unwrap().to_search_query().as_deref(), Some("//b"));
}

#[test]
fn locator_parse_error_messages() {
    assert!(!LocatorParseError::MissingPrefix.to_string().is_empty());
    assert!(LocatorParseError::UnknownKind("zz".into()).to_string().contains("zz"));
}

#[test]
fn locator_documented_bare_css_forms() {
    for s in ["#kw", ".search-btn", "input[name='q']", "div.result a"] {
        assert!(matches!(Locator::parse(s), Ok(Locator::Css(ref c)) if c == s));
    }
    assert!(matches!(Locator::parse("xpath://button[contains(., '提交')]"), Ok(Locator::XPath(_))));
    assert!(matches!(Locator::parse("text:登录"), Ok(Locator::Text(ref t)) if t == "登录"));
}

#[test]
fn parsed_locators_round_trip() {
    for s in ["  Text:  hi there ", "ATTR: data-x = 1=2 ", "#main", "xpath://a[@b]", "Class:x.y"] {
        let l = Locator::parse(s).unwrap();
        assert_eq!(Locator::parse(&l.to_string()).unwrap(), l);
    }
}
