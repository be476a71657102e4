//! Locator strings: `css:` / `xpath:` / `text:` / `attr:` / `id:` / `class:` / `tag:`,
//! and bare CSS selectors.

use crate::text::{
    ascii_lower, chars_of, eq_ignore_ascii_case, find_from, is_ws, lemma_find_from_none, trim_end,
    lemma_find_from_found, lemma_find_from_absent, lemma_trim_run, lemma_trim_end_concat,
    trim_start, find_char, find_in_range, range_eq_ignore_ascii_case,
    replace_char, replaced, string_of_range, string_push, trim, trim_range,
};
use vstd::prelude::*;
use vstd::string::StringExecFns;

verus! {

/// A parsed locator.
#[derive(Debug, Clone, PartialEq, Eq)]
pub enum Locator {
    Css(String),
    XPath(String),
    Text(String),
    Attr(String, String),
    Id(String),
    Class(String),
    Tag(String),
}

/// Why a locator string was refused.
#[derive(Debug, Clone, PartialEq, Eq)]
pub enum LocatorParseError {
    MissingPrefix,
    EmptyValue,
    AttrNoEquals,
    UnknownKind(String),
}

/// A locator with its strings as character sequences.
pub enum LocatorView {
    Css(Seq<char>),
    XPath(Seq<char>),
    Text(Seq<char>),
    Attr(Seq<char>, Seq<char>),
    Id(Seq<char>),
    Class(Seq<char>),
    Tag(Seq<char>),
}

pub enum LocatorParseErrorView {
    MissingPrefix,
    EmptyValue,
    AttrNoEquals,
    UnknownKind(Seq<char>),
}

impl View for Locator {
    type V = LocatorView;

    open spec fn view(&self) -> LocatorView {
        match self {
            Locator::Css(s) => LocatorView::Css(s@),
            Locator::XPath(s) => LocatorView::XPath(s@),
            Locator::Text(s) => LocatorView::Text(s@),
            Locator::Attr(a, b) => LocatorView::Attr(a@, b@),
            Locator::Id(s) => LocatorView::Id(s@),
            Locator::Class(s) => LocatorView::Class(s@),
            Locator::Tag(s) => LocatorView::Tag(s@),
        }
    }
}

impl View for LocatorParseError {
    type V = LocatorParseErrorView;

    open spec fn view(&self) -> LocatorParseErrorView {
        match self {
            LocatorParseError::MissingPrefix => LocatorParseErrorView::MissingPrefix,
            LocatorParseError::EmptyValue => LocatorParseErrorView::EmptyValue,
            LocatorParseError::AttrNoEquals => LocatorParseErrorView::AttrNoEquals,
            LocatorParseError::UnknownKind(k) => LocatorParseErrorView::UnknownKind(k@),
        }
    }
}

pub open spec fn parse_result_view(r: Result<Locator, LocatorParseError>) -> Result<
    LocatorView,
    LocatorParseErrorView,
> {
    match r {
        Ok(l) => Ok(l@),
        Err(e) => Err(e@),
    }
}

/// Whether the prefix before the colon names `name`. The prefix is compared after
/// lower-casing; for these names, whose letters are ASCII and which contain no `k`,
/// Unicode lower-casing and ASCII lower-casing accept the same prefixes.
pub open spec fn kind_is(kind: Seq<char>, name: Seq<char>) -> bool {
    eq_ignore_ascii_case(kind, name)
}

pub open spec fn name_css() -> Seq<char> {
    seq!['c', 's', 's']
}

pub open spec fn name_xpath() -> Seq<char> {
    seq!['x', 'p', 'a', 't', 'h']
}

pub open spec fn name_text() -> Seq<char> {
    seq!['t', 'e', 'x', 't']
}

pub open spec fn name_attr() -> Seq<char> {
    seq!['a', 't', 't', 'r']
}

pub open spec fn name_id() -> Seq<char> {
    seq!['i', 'd']
}

pub open spec fn name_class() -> Seq<char> {
    seq!['c', 'l', 'a', 's', 's']
}

pub open spec fn name_tag() -> Seq<char> {
    seq!['t', 'a', 'g']
}

/// First characters that make an unprefixed string a CSS selector.
pub open spec fn css_start(c: char) -> bool {
    c == '#' || c == '.' || ('a' <= c && c <= 'z') || ('A' <= c && c <= 'Z') || c == '*' || c
        == '['
}

/// What `Locator::parse` gives for a string, written as a definition.
pub open spec fn parse_spec(s: Seq<char>) -> Result<LocatorView, LocatorParseErrorView> {
    let t = trim(s);
    match find_char(t, ':') {
        Some(c) => {
            let kind = t.take(c);
            let rest = trim(t.skip(c + 1));
            if rest.len() == 0 {
                Err(LocatorParseErrorView::EmptyValue)
            } else if kind_is(kind, name_css()) {
                Ok(LocatorView::Css(rest))
            } else if kind_is(kind, name_xpath()) {
                Ok(LocatorView::XPath(rest))
            } else if kind_is(kind, name_text()) {
                Ok(LocatorView::Text(rest))
            } else if kind_is(kind, name_attr()) {
                match find_char(rest, '=') {
                    Some(e) => Ok(LocatorView::Attr(trim(rest.take(e)), trim(rest.skip(e + 1)))),
                    None => Err(LocatorParseErrorView::AttrNoEquals),
                }
            } else if kind_is(kind, name_id()) {
                Ok(LocatorView::Id(rest))
            } else if kind_is(kind, name_class()) {
                Ok(LocatorView::Class(rest))
            } else if kind_is(kind, name_tag()) {
                Ok(LocatorView::Tag(rest))
            } else {
                Err(LocatorParseErrorView::UnknownKind(kind))
            }
        },
        None => {
            if t.len() == 0 {
                Err(LocatorParseErrorView::EmptyValue)
            } else if css_start(t[0]) {
                Ok(LocatorView::Css(t))
            } else {
                Err(LocatorParseErrorView::MissingPrefix)
            }
        },
    }
}

pub open spec fn escape_id_spec(s: Seq<char>) -> Seq<char> {
    replace_char(replace_char(s, '\\', seq!['\\', '\\']), '#', seq!['\\', '#'])
}

pub open spec fn escape_class_spec(s: Seq<char>) -> Seq<char> {
    replace_char(replace_char(s, '\\', seq!['\\', '\\']), '.', seq!['\\', '.'])
}

pub open spec fn escape_attr_spec(s: Seq<char>) -> Seq<char> {
    replace_char(replace_char(s, '\\', seq!['\\', '\\']), '"', seq!['\\', '"'])
}

/// `s` as an XPath 1.0 string literal, which has no escapes: between single quotes when `s`
/// holds none, else between double quotes when it holds none, else the pieces between its
/// single quotes joined by `concat` with `"'"` in their place.
pub open spec fn xpath_literal_spec(s: Seq<char>) -> Seq<char> {
    if find_char(s, '\'') is None {
        seq!['\''] + s + seq!['\'']
    } else if find_char(s, '"') is None {
        seq!['"'] + s + seq!['"']
    } else {
        seq!['c', 'o', 'n', 'c', 'a', 't', '(', '\''] + replace_char(s, '\'', quote_piece())
            + seq!['\'', ')']
    }
}

/// What stands for one single quote inside the `concat` form: `', "'", '`.
pub open spec fn quote_piece() -> Seq<char> {
    seq!['\'', ',', ' ', '"', '\'', '"', ',', ' ', '\'']
}

/// The CSS selector a locator stands for, if it stands for one.
pub open spec fn css_selector_spec(l: LocatorView) -> Option<Seq<char>> {
    match l {
        LocatorView::Css(s) => Some(s),
        LocatorView::Id(s) => Some(seq!['#'] + escape_id_spec(s)),
        LocatorView::Class(s) => Some(seq!['.'] + escape_class_spec(s)),
        LocatorView::Tag(s) => Some(s),
        LocatorView::Attr(n, v) => Some(
            seq!['['] + n + seq!['=', '"'] + escape_attr_spec(v) + seq!['"', ']'],
        ),
        LocatorView::XPath(_) => None,
        LocatorView::Text(_) => None,
    }
}

pub open spec fn text_xpath_prefix() -> Seq<char> {
    seq!['/', '/', '*', '[', 'c', 'o', 'n', 't', 'a', 'i', 'n', 's', '(', 't', 'e', 'x', 't', '(', ')', ',']
}

pub open spec fn text_xpath_suffix() -> Seq<char> {
    seq![')', ']']
}

/// The XPath expression a locator stands for, if it stands for one.
pub open spec fn xpath_spec(l: LocatorView) -> Option<Seq<char>> {
    match l {
        LocatorView::XPath(s) => Some(s),
        LocatorView::Text(s) => Some(text_xpath_prefix() + xpath_literal_spec(s) + text_xpath_suffix()),
        _ => None,
    }
}

/// The prefix that names a locator's kind in its string form, colon included.
pub open spec fn display_prefix(l: LocatorView) -> Seq<char> {
    match l {
        LocatorView::Css(_) => name_css().push(':'),
        LocatorView::XPath(_) => name_xpath().push(':'),
        LocatorView::Text(_) => name_text().push(':'),
        LocatorView::Attr(_, _) => name_attr().push(':'),
        LocatorView::Id(_) => name_id().push(':'),
        LocatorView::Class(_) => name_class().push(':'),
        LocatorView::Tag(_) => name_tag().push(':'),
    }
}

/// The string form of a locator, as its `Display` writes it.
pub open spec fn display_spec(l: LocatorView) -> Seq<char> {
    display_prefix(l) + match l {
        LocatorView::Css(s) => s,
        LocatorView::XPath(s) => s,
        LocatorView::Text(s) => s,
        LocatorView::Attr(a, b) => a + seq!['='] + b,
        LocatorView::Id(s) => s,
        LocatorView::Class(s) => s,
        LocatorView::Tag(s) => s,
    }
}

fn push_all(out: &mut String, v: &Vec<char>)
    ensures
        final(out)@ == old(out)@ + v@,
{
    let mut i: usize = 0;
    while i < v.len()
        invariant
            i <= v@.len(),
            out@ == old(out)@ + v@.take(i as int),
        decreases v.len() - i,
    {
        string_push(out, v[i]);
        i = i + 1;
        assert(out@ =~= old(out)@ + v@.take(i as int));
    }
    assert(v@.take(v@.len() as int) =~= v@);
}

/// Appends `v` as an XPath string literal.
fn push_xpath_literal(out: &mut String, v: &Vec<char>)
    ensures
        final(out)@ == old(out)@ + xpath_literal_spec(v@),
{
    let single = find_in_range(v, 0, v.len(), '\'');
    let double = find_in_range(v, 0, v.len(), '"');
    assert(v@.subrange(0, v@.len() as int) =~= v@);
    match single {
        None => {
            push_all(out, &vec!['\'']);
            push_all(out, v);
            push_all(out, &vec!['\'']);
            assert(out@ =~= old(out)@ + xpath_literal_spec(v@));
        },
        Some(_) => match double {
            None => {
                push_all(out, &vec!['"']);
                push_all(out, v);
                push_all(out, &vec!['"']);
                assert(out@ =~= old(out)@ + xpath_literal_spec(v@));
            },
            Some(_) => {
                let pieces = replaced(v, '\'', &vec!['\'', ',', ' ', '"', '\'', '"', ',', ' ', '\'']);
                push_all(out, &vec!['c', 'o', 'n', 'c', 'a', 't', '(', '\'']);
                push_all(out, &pieces);
                push_all(out, &vec!['\'', ')']);
                assert(out@ =~= old(out)@ + xpath_literal_spec(v@));
            },
        },
    }
}

fn clone_string(s: &String) -> (r: String)
    ensures
        r@ == s@,
{
    s.clone()
}

/// Escapes `\\` and `#` for use in a CSS id selector.
pub fn escape_id_selector(s: &str) -> (r: String)
    ensures
        r@ == escape_id_spec(s@),
{
    let v = chars_of(s);
    let once = replaced(&v, '\\', &vec!['\\', '\\']);
    let twice = replaced(&once, '#', &vec!['\\', '#']);
    assert(twice@.subrange(0, twice@.len() as int) =~= escape_id_spec(s@));
    string_of_range(&twice, 0, twice.len())
}

/// Escapes `\\` and `.` for use in a CSS class selector.
pub fn escape_class_selector(s: &str) -> (r: String)
    ensures
        r@ == escape_class_spec(s@),
{
    let v = chars_of(s);
    let once = replaced(&v, '\\', &vec!['\\', '\\']);
    let twice = replaced(&once, '.', &vec!['\\', '.']);
    assert(twice@.subrange(0, twice@.len() as int) =~= escape_class_spec(s@));
    string_of_range(&twice, 0, twice.len())
}

/// Escapes `\\` and `"` for use inside a double-quoted CSS attribute value.
pub fn escape_attr_value(s: &str) -> (r: String)
    ensures
        r@ == escape_attr_spec(s@),
{
    let v = chars_of(s);
    let once = replaced(&v, '\\', &vec!['\\', '\\']);
    let twice = replaced(&once, '"', &vec!['\\', '"']);
    assert(twice@.subrange(0, twice@.len() as int) =~= escape_attr_spec(s@));
    string_of_range(&twice, 0, twice.len())
}

impl Locator {
    /// Parses a locator string. The string is trimmed; a prefix before the first colon names
    /// the kind (compared without case), and the value after it is trimmed and must not be
    /// empty. `attr:` values are split at the first `=`, both sides trimmed. Without a colon,
    /// a string starting with `#`, `.`, an ASCII letter, `*` or `[` is a CSS selector.
    pub fn parse(s: &str) -> (r: Result<Locator, LocatorParseError>)
        ensures
            parse_result_view(r) == parse_spec(s@),
    {
        let v = chars_of(s);
        let (a, b) = trim_range(&v, 0, v.len());
        let ghost t = v@.subrange(a as int, b as int);
        assert(v@.subrange(0, v@.len() as int) =~= s@);
        match find_in_range(&v, a, b, ':') {
            Some(c) => {
                let (ra, rb) = trim_range(&v, c + 1, b);
                let ghost ci = c - a;
                assert(t.take(ci) =~= v@.subrange(a as int, c as int));
                assert(t.skip(ci + 1) =~= v@.subrange(c + 1, b as int));
                if ra == rb {
                    return Err(LocatorParseError::EmptyValue);
                }
                if range_eq_ignore_ascii_case(&v, a, c, &vec!['c', 's', 's']) {
                    return Ok(Locator::Css(string_of_range(&v, ra, rb)));
                }
                if range_eq_ignore_ascii_case(&v, a, c, &vec!['x', 'p', 'a', 't', 'h']) {
                    return Ok(Locator::XPath(string_of_range(&v, ra, rb)));
                }
                if range_eq_ignore_ascii_case(&v, a, c, &vec!['t', 'e', 'x', 't']) {
                    return Ok(Locator::Text(string_of_range(&v, ra, rb)));
                }
                if range_eq_ignore_ascii_case(&v, a, c, &vec!['a', 't', 't', 'r']) {
                    let ghost rest = v@.subrange(ra as int, rb as int);
                    match find_in_range(&v, ra, rb, '=') {
                        Some(e) => {
                            let (na, nb) = trim_range(&v, ra, e);
                            let (va, vb) = trim_range(&v, e + 1, rb);
                            assert(rest.take(e - ra) =~= v@.subrange(ra as int, e as int));
                            assert(rest.skip(e - ra + 1) =~= v@.subrange(e + 1, rb as int));
                            return Ok(
                                Locator::Attr(
                                    string_of_range(&v, na, nb),
                                    string_of_range(&v, va, vb),
                                ),
                            );
                        },
                        None => {
                            return Err(LocatorParseError::AttrNoEquals);
                        },
                    }
                }
                if range_eq_ignore_ascii_case(&v, a, c, &vec!['i', 'd']) {
                    return Ok(Locator::Id(string_of_range(&v, ra, rb)));
                }
                if range_eq_ignore_ascii_case(&v, a, c, &vec!['c', 'l', 'a', 's', 's']) {
                    return Ok(Locator::Class(string_of_range(&v, ra, rb)));
                }
                if range_eq_ignore_ascii_case(&v, a, c, &vec!['t', 'a', 'g']) {
                    return Ok(Locator::Tag(string_of_range(&v, ra, rb)));
                }
                Err(LocatorParseError::UnknownKind(string_of_range(&v, a, c)))
            },
            None => {
                if a == b {
                    return Err(LocatorParseError::EmptyValue);
                }
                let first = v[a];
                if first == '#' || first == '.' || ('a' <= first && first <= 'z') || ('A' <= first
                    && first <= 'Z') || first == '*' || first == '[' {
                    Ok(Locator::Css(string_of_range(&v, a, b)))
                } else {
                    Err(LocatorParseError::MissingPrefix)
                }
            },
        }
    }

    /// The CSS selector for `DOM.querySelector`; `None` for XPath and text locators.
    pub fn to_css_selector(&self) -> (r: Option<String>)
        ensures
            match r {
                Some(x) => css_selector_spec(self@) == Some(x@),
                None => css_selector_spec(self@) is None,
            },
    {
        match self {
            Locator::Css(s) => Some(clone_string(s)),
            Locator::Id(s) => {
                let mut out = String::new();
                string_push(&mut out, '#');
                out.append(escape_id_selector(s.as_str()).as_str());
                Some(out)
            },
            Locator::Class(s) => {
                let mut out = String::new();
                string_push(&mut out, '.');
                out.append(escape_class_selector(s.as_str()).as_str());
                Some(out)
            },
            Locator::Tag(s) => Some(clone_string(s)),
            Locator::Attr(name, value) => {
                let mut out = String::new();
                string_push(&mut out, '[');
                out.append(name.as_str());
                string_push(&mut out, '=');
                string_push(&mut out, '"');
                out.append(escape_attr_value(value.as_str()).as_str());
                string_push(&mut out, '"');
                string_push(&mut out, ']');
                assert(out@ =~= seq!['['] + name@ + seq!['=', '"'] + escape_attr_spec(value@)
                    + seq!['"', ']']);
                Some(out)
            },
            Locator::XPath(_) => None,
            Locator::Text(_) => None,
        }
    }

    /// Whether this is an XPath locator.
    pub fn is_xpath(&self) -> (r: bool)
        ensures
            r == (self@ is XPath),
    {
        match self {
            Locator::XPath(_) => true,
            _ => false,
        }
    }

    /// Whether this is a text locator.
    pub fn is_text(&self) -> (r: bool)
        ensures
            r == (self@ is Text),
    {
        match self {
            Locator::Text(_) => true,
            _ => false,
        }
    }

    /// The XPath expression for evaluation: the XPath itself, or for a text locator
    /// `//*[contains(text(),<text as an XPath string literal>)]`; `None` otherwise.
    pub fn to_xpath_expression(&self) -> (r: Option<String>)
        ensures
            match r {
                Some(x) => xpath_spec(self@) == Some(x@),
                None => xpath_spec(self@) is None,
            },
    {
        match self {
            Locator::XPath(s) => Some(clone_string(s)),
            Locator::Text(s) => {
                let v = chars_of(s.as_str());
                let mut out = String::new();
                push_all(&mut out, &vec!['/', '/', '*', '[', 'c', 'o', 'n', 't', 'a', 'i', 'n', 's', '(', 't', 'e', 'x', 't', '(', ')', ',']);
                push_xpath_literal(&mut out, &v);
                push_all(&mut out, &vec![')', ']']);
                assert(out@ =~= text_xpath_prefix() + xpath_literal_spec(s@) + text_xpath_suffix());
                Some(out)
            },
            _ => None,
        }
    }

    /// The query for `DOM.performSearch`: the CSS selector if there is one, else the XPath.
    pub fn to_search_query(&self) -> (r: Option<String>)
        ensures
            match r {
                Some(x) => (match css_selector_spec(self@) {
                    Some(c) => c,
                    None => xpath_spec(self@)->0,
                }) == x@ && (css_selector_spec(self@) is Some || xpath_spec(self@) is Some),
                None => css_selector_spec(self@) is None && xpath_spec(self@) is None,
            },
    {
        match self.to_css_selector() {
            Some(c) => Some(c),
            None => self.to_xpath_expression(),
        }
    }

    /// The string form `kind:value` (`attr:name=value` for attribute locators).
    pub fn to_string(&self) -> (r: String)
        ensures
            r@ == display_spec(self@),
    {
        let mut out = String::new();
        match self {
            Locator::Css(s) => {
                push_all(&mut out, &vec!['c', 's', 's', ':']);
                out.append(s.as_str());
            },
            Locator::XPath(s) => {
                push_all(&mut out, &vec!['x', 'p', 'a', 't', 'h', ':']);
                out.append(s.as_str());
            },
            Locator::Text(s) => {
                push_all(&mut out, &vec!['t', 'e', 'x', 't', ':']);
                out.append(s.as_str());
            },
            Locator::Attr(a, b) => {
                push_all(&mut out, &vec!['a', 't', 't', 'r', ':']);
                out.append(a.as_str());
                string_push(&mut out, '=');
                out.append(b.as_str());
            },
            Locator::Id(s) => {
                push_all(&mut out, &vec!['i', 'd', ':']);
                out.append(s.as_str());
            },
            Locator::Class(s) => {
                push_all(&mut out, &vec!['c', 'l', 'a', 's', 's', ':']);
                out.append(s.as_str());
            },
            Locator::Tag(s) => {
                push_all(&mut out, &vec!['t', 'a', 'g', ':']);
                out.append(s.as_str());
            },
        }
        assert(out@ =~= display_spec(self@));
        out
    }
}

impl LocatorParseError {
    /// The error's message.
    pub fn to_string(&self) -> (r: String)
        ensures
            r@ == parse_error_message(self@),
    {
        match self {
            LocatorParseError::MissingPrefix => String::from_str(
                "Missing locator prefix. Expected one of: css:, xpath:, text:, attr:, id:, class:, tag:",
            ),
            LocatorParseError::EmptyValue => String::from_str(
                "Locator value is empty after the prefix",
            ),
            LocatorParseError::AttrNoEquals => String::from_str(
                "Invalid attr locator format. Expected name=value",
            ),
            LocatorParseError::UnknownKind(k) => {
                let mut out = String::from_str("Unknown locator type: ");
                out.append(k.as_str());
                out
            },
        }
    }
}

/// No whitespace at either end (vacuously true of the empty sequence).
pub open spec fn unpadded(s: Seq<char>) -> bool {
    s.len() == 0 || (!is_ws(s[0]) && !is_ws(s.last()))
}

/// A locator that its string form can give back: every value is non-empty and unpadded;
/// an attribute name and value are unpadded (either may be empty) and the name holds no `=`.
pub open spec fn round_trips(l: LocatorView) -> bool {
    match l {
        LocatorView::Attr(n, v) => unpadded(n) && unpadded(v) && find_char(n, '=') is None,
        LocatorView::Css(s) => s.len() > 0 && unpadded(s),
        LocatorView::XPath(s) => s.len() > 0 && unpadded(s),
        LocatorView::Text(s) => s.len() > 0 && unpadded(s),
        LocatorView::Id(s) => s.len() > 0 && unpadded(s),
        LocatorView::Class(s) => s.len() > 0 && unpadded(s),
        LocatorView::Tag(s) => s.len() > 0 && unpadded(s),
    }
}

proof fn lemma_trim_unpadded(s: Seq<char>)
    requires
        unpadded(s),
    ensures
        trim(s) == s,
{
    if s.len() > 0 {
        assert(trim_start(s) == s);
        assert(trim_end(s) == s);
    } else {
        assert(trim_start(s) == s);
        assert(trim_end(s) == s);
    }
}

proof fn lemma_find_after(p: Seq<char>, c: char, rest: Seq<char>, i: int)
    requires
        0 <= i <= p.len(),
        forall|j: int| 0 <= j < p.len() ==> p[j] != c,
    ensures
        find_from(p.push(c) + rest, c, i) == Some(p.len() as int),
    decreases p.len() - i,
{
    let s = p.push(c) + rest;
    if i < p.len() {
        assert(s[i] == p[i]);
        lemma_find_after(p, c, rest, i + 1);
    } else {
        assert(s[i] == c);
    }
}

proof fn lemma_names_distinct()
    ensures
        !kind_is(name_xpath(), name_css()),
        !kind_is(name_text(), name_css()),
        !kind_is(name_text(), name_xpath()),
        !kind_is(name_attr(), name_css()),
        !kind_is(name_attr(), name_xpath()),
        !kind_is(name_attr(), name_text()),
        !kind_is(name_id(), name_css()),
        !kind_is(name_id(), name_xpath()),
        !kind_is(name_id(), name_text()),
        !kind_is(name_id(), name_attr()),
        !kind_is(name_class(), name_css()),
        !kind_is(name_class(), name_xpath()),
        !kind_is(name_class(), name_text()),
        !kind_is(name_class(), name_attr()),
        !kind_is(name_class(), name_id()),
        !kind_is(name_tag(), name_css()),
        !kind_is(name_tag(), name_xpath()),
        !kind_is(name_tag(), name_text()),
        !kind_is(name_tag(), name_attr()),
        !kind_is(name_tag(), name_id()),
        !kind_is(name_tag(), name_class()),
        kind_is(name_css(), name_css()),
        kind_is(name_xpath(), name_xpath()),
        kind_is(name_text(), name_text()),
        kind_is(name_attr(), name_attr()),
        kind_is(name_id(), name_id()),
        kind_is(name_class(), name_class()),
        kind_is(name_tag(), name_tag()),
{
    assert(ascii_lower(name_class()[1]) != ascii_lower(name_xpath()[1]));
    assert(ascii_lower(name_tag()[0]) != ascii_lower(name_css()[0]));
    assert(ascii_lower(name_attr()[0]) != ascii_lower(name_text()[0]));
}

/// A trimmed value has whitespace at neither end.
proof fn lemma_trim_unpadded_result(s: Seq<char>)
    ensures
        unpadded(trim(s)),
{
    lemma_trim_run(s);
}

/// What `parse` accepts meets `round_trips`: its values are trimmed and non-empty where one is
/// required, and an attribute name ends before the first `=`.
pub proof fn lemma_parsed_round_trips(s: Seq<char>)
    ensures
        parse_spec(s) matches Ok(l) ==> round_trips(l),
{
    let t = trim(s);
    lemma_trim_unpadded_result(s);
    match find_char(t, ':') {
        Some(c) => {
            lemma_find_from_found(t, ':', 0);
            let rest = trim(t.skip(c + 1));
            lemma_trim_unpadded_result(t.skip(c + 1));
            match find_char(rest, '=') {
                Some(e) => {
                    lemma_find_from_found(rest, '=', 0);
                    let x = rest.take(e);
                    lemma_trim_unpadded_result(x);
                    lemma_trim_unpadded_result(rest.skip(e + 1));
                    let k = lemma_trim_run(x);
                    let n = trim(x);
                    assert forall|j: int| 0 <= j < n.len() implies n[j] != '=' by {
                        assert(n[j] == x[k + j]);
                        assert(x[k + j] == rest[k + j]);
                    }
                    lemma_find_from_absent(n, '=', 0);
                },
                None => {},
            }
        },
        None => {},
    }
}

/// Law: whatever `parse` accepts comes back unchanged from parsing its string form.
pub proof fn law_parsed_locator_round_trip(s: Seq<char>)
    ensures
        parse_spec(s) matches Ok(l) ==> parse_spec(display_spec(l)) == Ok::<LocatorView, LocatorParseErrorView>(l),
{
    lemma_parsed_round_trips(s);
    if let Ok(l) = parse_spec(s) {
        law_parse_display_round_trip(l);
    }
}

/// Where `kind:value` stands once trimmed, for a kind that starts with no whitespace and
/// holds no colon: the colon after the kind is the first, and the value is trimmed at its end.
proof fn lemma_prefixed(a: Seq<char>, v: Seq<char>)
    requires
        a.len() > 0,
        !is_ws(a[0]),
        forall|j: int| 0 <= j < a.len() ==> a[j] != ':',
    ensures
        trim(a.push(':') + v) == a.push(':') + trim_end(v),
        find_char(trim(a.push(':') + v), ':') == Some(a.len() as int),
        trim(a.push(':') + v).take(a.len() as int) == a,
        trim(a.push(':') + v).skip(a.len() as int + 1) == trim_end(v),
{
    let s = a.push(':') + v;
    assert(s[0] == a[0]);
    assert(trim_start(s) == s);
    lemma_trim_end_concat(a.push(':'), v);
    lemma_find_after(a, ':', trim_end(v), 0);
    assert((a.push(':') + trim_end(v)).take(a.len() as int) =~= a);
    assert((a.push(':') + trim_end(v)).skip(a.len() as int + 1) =~= trim_end(v));
}

/// Law: the kind before the colon is compared without case: `kind:value` and `KIND:value`
/// (any letters of the kind in either case) parse to the same locator, or fail alike.
pub proof fn law_kind_ignores_case(a: Seq<char>, b: Seq<char>, v: Seq<char>)
    requires
        eq_ignore_ascii_case(a, b),
        a.len() > 0,
        !is_ws(a[0]),
        !is_ws(b[0]),
        forall|j: int| 0 <= j < a.len() ==> a[j] != ':' && b[j] != ':',
    ensures
        match (parse_spec(a.push(':') + v), parse_spec(b.push(':') + v)) {
            (Ok(x), Ok(y)) => x == y,
            (Err(LocatorParseErrorView::UnknownKind(_)), Err(LocatorParseErrorView::UnknownKind(_))) => true,
            (Err(e), Err(f)) => e == f,
            _ => false,
        },
{
    lemma_prefixed(a, v);
    lemma_prefixed(b, v);
    assert forall|n: Seq<char>| kind_is(a, n) == kind_is(b, n) by {
        if kind_is(a, n) {
            assert forall|i: int| 0 <= i < b.len() implies ascii_lower(b[i]) == ascii_lower(n[i]) by {
                assert(ascii_lower(a[i]) == ascii_lower(b[i]));
            }
        }
        if kind_is(b, n) {
            assert forall|i: int| 0 <= i < a.len() implies ascii_lower(a[i]) == ascii_lower(n[i]) by {
                assert(ascii_lower(a[i]) == ascii_lower(b[i]));
            }
        }
    }
    assert(kind_is(a, name_css()) == kind_is(b, name_css()));
    assert(kind_is(a, name_xpath()) == kind_is(b, name_xpath()));
    assert(kind_is(a, name_text()) == kind_is(b, name_text()));
    assert(kind_is(a, name_attr()) == kind_is(b, name_attr()));
    assert(kind_is(a, name_id()) == kind_is(b, name_id()));
    assert(kind_is(a, name_class()) == kind_is(b, name_class()));
    assert(kind_is(a, name_tag()) == kind_is(b, name_tag()));
}

/// Law: a locator's string form parses back to the same locator, for every locator whose
/// values carry no surrounding whitespace, are non-empty where a value is required, and
/// (for `attr:`) whose name holds no `=`.
pub proof fn law_parse_display_round_trip(l: LocatorView)
    requires
        round_trips(l),
    ensures
        parse_spec(display_spec(l)) == Ok::<LocatorView, LocatorParseErrorView>(l),
{
    lemma_names_distinct();
    let pre = display_prefix(l);
    let name = pre.drop_last();
    let body = display_spec(l).skip(pre.len() as int);
    let d = display_spec(l);
    assert(d =~= name.push(':') + body);
    assert(forall|j: int| 0 <= j < name.len() ==> name[j] != ':');
    lemma_find_after(name, ':', body, 0);
    assert(d.len() > 0 && !is_ws(d[0]));
    match l {
        LocatorView::Attr(n, v) => {
            assert(body =~= n + seq!['='] + v);
            assert(body.len() > 0 && !is_ws(body[0]) && !is_ws(body.last()));
            assert(!is_ws(d.last()));
            lemma_trim_unpadded(d);
            lemma_trim_unpadded(body);
            assert(d.take(name.len() as int) =~= name);
            assert(d.skip(name.len() as int + 1) =~= body);
            lemma_find_from_none(n, '=', 0);
            assert(body =~= n.push('=') + v);
            lemma_find_after(n, '=', v, 0);
            assert(body.take(n.len() as int) =~= n);
            assert(body.skip(n.len() as int + 1) =~= v);
            lemma_trim_unpadded(n);
            lemma_trim_unpadded(v);
            let t = trim(d);
            assert(t == d);
            assert(find_char(t, ':') == Some(name.len() as int));
            let rest = trim(t.skip(name.len() as int + 1));
            assert(rest == body);
            assert(rest.len() != 0);
            assert(t.take(name.len() as int) == name_attr());
            assert(find_char(rest, '=') == Some(n.len() as int));
            assert(trim(rest.take(n.len() as int)) == n);
            assert(trim(rest.skip(n.len() as int + 1)) == v);
            assert(!kind_is(name_attr(), name_css()));
            assert(!kind_is(name_attr(), name_xpath()));
            assert(!kind_is(name_attr(), name_text()));
            assert(kind_is(name_attr(), name_attr()));
            assert(trim(d) == d);
            assert(parse_spec(d) == Ok::<LocatorView, LocatorParseErrorView>(
                LocatorView::Attr(n, v),
            ));
            assert(l == LocatorView::Attr(n, v));
            assert(d == display_spec(l));
            assert(parse_spec(display_spec(l)) == Ok::<LocatorView, LocatorParseErrorView>(l));
        },
        LocatorView::Css(x) => {
            assert(body =~= x);
            assert(!is_ws(d.last()));
            lemma_trim_unpadded(d);
            lemma_trim_unpadded(body);
            assert(d.take(name.len() as int) =~= name);
            assert(d.skip(name.len() as int + 1) =~= body);
            assert(trim(d) == d);
            assert(find_char(trim(d), ':') == Some(name.len() as int));
            assert(trim(d.skip(name.len() as int + 1)) == x);
        },
        LocatorView::XPath(x) => {
            assert(body =~= x);
            assert(!is_ws(d.last()));
            lemma_trim_unpadded(d);
            lemma_trim_unpadded(body);
            assert(d.take(name.len() as int) =~= name);
            assert(d.skip(name.len() as int + 1) =~= body);
            assert(trim(d) == d);
            assert(find_char(trim(d), ':') == Some(name.len() as int));
            assert(trim(d.skip(name.len() as int + 1)) == x);
        },
        LocatorView::Text(x) => {
            assert(body =~= x);
            assert(!is_ws(d.last()));
            lemma_trim_unpadded(d);
            lemma_trim_unpadded(body);
            assert(d.take(name.len() as int) =~= name);
            assert(d.skip(name.len() as int + 1) =~= body);
            assert(trim(d) == d);
            assert(find_char(trim(d), ':') == Some(name.len() as int));
            assert(trim(d.skip(name.len() as int + 1)) == x);
        },
        LocatorView::Id(x) => {
            assert(body =~= x);
            assert(!is_ws(d.last()));
            lemma_trim_unpadded(d);
            lemma_trim_unpadded(body);
            assert(d.take(name.len() as int) =~= name);
            assert(d.skip(name.len() as int + 1) =~= body);
            assert(trim(d) == d);
            assert(find_char(trim(d), ':') == Some(name.len() as int));
            assert(trim(d.skip(name.len() as int + 1)) == x);
        },
        LocatorView::Class(x) => {
            assert(body =~= x);
            assert(!is_ws(d.last()));
            lemma_trim_unpadded(d);
            lemma_trim_unpadded(body);
            assert(d.take(name.len() as int) =~= name);
            assert(d.skip(name.len() as int + 1) =~= body);
            assert(trim(d) == d);
            assert(find_char(trim(d), ':') == Some(name.len() as int));
            assert(trim(d.skip(name.len() as int + 1)) == x);
        },
        LocatorView::Tag(x) => {
            assert(body =~= x);
            assert(!is_ws(d.last()));
            lemma_trim_unpadded(d);
            lemma_trim_unpadded(body);
            assert(d.take(name.len() as int) =~= name);
            assert(d.skip(name.len() as int + 1) =~= body);
            assert(trim(d) == d);
            assert(find_char(trim(d), ':') == Some(name.len() as int));
            assert(trim(d.skip(name.len() as int + 1)) == x);
        },
    }
}

/// The message of each parse error.
pub open spec fn parse_error_message(e: LocatorParseErrorView) -> Seq<char> {
    match e {
        LocatorParseErrorView::MissingPrefix => "Missing locator prefix. Expected one of: css:, xpath:, text:, attr:, id:, class:, tag:"@,
        LocatorParseErrorView::EmptyValue => "Locator value is empty after the prefix"@,
        LocatorParseErrorView::AttrNoEquals => "Invalid attr locator format. Expected name=value"@,
        LocatorParseErrorView::UnknownKind(k) => "Unknown locator type: "@ + k,
    }
}


/// Law: a string with no colon is a bare CSS selector exactly when, once trimmed, it starts
/// with `#`, `.`, `*`, `[` or an ASCII letter: it then parses as that trimmed selector; any other
/// first character is a missing prefix, and nothing at all is an empty value.
pub proof fn law_bare_selector(s: Seq<char>)
    requires
        forall|i: int| 0 <= i < trim(s).len() ==> trim(s)[i] != ':',
    ensures
        trim(s).len() == 0 ==> parse_spec(s) == Err::<LocatorView, LocatorParseErrorView>(
            LocatorParseErrorView::EmptyValue,
        ),
        trim(s).len() > 0 ==> ({
            let c = trim(s)[0];
            if c == '#' || c == '.' || c == '*' || c == '[' || ('a' <= c && c <= 'z') || ('A' <= c
                && c <= 'Z') {
                parse_spec(s) == Ok::<LocatorView, LocatorParseErrorView>(LocatorView::Css(trim(s)))
            } else {
                parse_spec(s) == Err::<LocatorView, LocatorParseErrorView>(
                    LocatorParseErrorView::MissingPrefix,
                )
            }
        }),
{
    lemma_find_from_absent(trim(s), ':', 0);
}

} // verus!
