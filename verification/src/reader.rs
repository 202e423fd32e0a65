//! Reading XML text into the document model.
//!
//! The grammar is given as spec functions on the input that is left to read;
//! the executable reader is proved to compute exactly what they say.
//!
//! The subset read here is what EPP servers send: one optional declaration,
//! elements with attributes in single or double quotes, text, and the five
//! predefined entities. Comments, CDATA sections and numeric character
//! references are not read, nor is a document whose elements are nested
//! more than `MAX_DEPTH` deep.

use crate::text::{push_char, string_of};
use crate::xml::{
    attributes_view, elements_view, lemma_elements_view, lemma_view_fields, AttributeView,
    ElementView, XmlAttribute, XmlElement,
};
use vstd::prelude::*;

verus! {

/// The deepest nesting of elements that is read or written.
pub const MAX_DEPTH: usize = 128;

/// The kinds of character runs that the reader scans over.
#[derive(Clone, Copy, Debug, PartialEq, Eq, Structural)]
pub enum CharClass {
    /// White space.
    Space,
    /// What a name is made of.
    Name,
    /// Character data: anything up to the next `<`.
    Text,
    /// The inside of a value in double quotes.
    DoubleQuoted,
    /// The inside of a value in single quotes.
    SingleQuoted,
    /// A namespace prefix: anything up to the next `:`.
    Prefix,
}

/// White space: a space, a tab, a line feed or a carriage return.
pub open spec fn is_space(c: char) -> bool {
    c == ' ' || c == '\t' || c == '\n' || c == '\r'
}

/// What may stand in a name: anything but white space and `< > / = " '`.
pub open spec fn is_name_char(c: char) -> bool {
    !is_space(c) && c != '<' && c != '>' && c != '/' && c != '=' && c != '"' && c != '\''
}

/// Whether `c` belongs to the class `k`.
pub open spec fn in_class(k: CharClass, c: char) -> bool {
    match k {
        CharClass::Space => is_space(c),
        CharClass::Name => is_name_char(c),
        CharClass::Text => c != '<',
        CharClass::DoubleQuoted => c != '"',
        CharClass::SingleQuoted => c != '\'',
        CharClass::Prefix => c != ':',
    }
}

/// The length of the longest prefix of `s` whose characters are all in `k`.
pub open spec fn span(s: Seq<char>, k: CharClass) -> nat
    decreases s.len(),
{
    if s.len() > 0 && in_class(k, s[0]) {
        1 + span(s.skip(1), k)
    } else {
        0
    }
}

/// The character that the entity at the front of `s` stands for, with the
/// entity's length.
pub open spec fn entity(s: Seq<char>) -> Option<(char, nat)> {
    if s.len() >= 4 && s[0] == '&' && s[1] == 'l' && s[2] == 't' && s[3] == ';' {
        Some(('<', 4nat))
    } else if s.len() >= 4 && s[0] == '&' && s[1] == 'g' && s[2] == 't' && s[3] == ';' {
        Some(('>', 4nat))
    } else if s.len() >= 5 && s[0] == '&' && s[1] == 'a' && s[2] == 'm' && s[3] == 'p' && s[4]
        == ';' {
        Some(('&', 5nat))
    } else if s.len() >= 6 && s[0] == '&' && s[1] == 'q' && s[2] == 'u' && s[3] == 'o' && s[4]
        == 't' && s[5] == ';' {
        Some(('"', 6nat))
    } else if s.len() >= 6 && s[0] == '&' && s[1] == 'a' && s[2] == 'p' && s[3] == 'o' && s[4]
        == 's' && s[5] == ';' {
        Some(('\'', 6nat))
    } else {
        None
    }
}

/// `s` with each predefined entity replaced by the character it stands
/// for; any other `&` stays as it is.
pub open spec fn unescape(s: Seq<char>) -> Seq<char>
    decreases s.len(),
{
    if s.len() == 0 {
        Seq::empty()
    } else {
        match entity(s) {
            Some((c, n)) => seq![c] + unescape(s.skip(n as int)),
            None => seq![s[0]] + unescape(s.skip(1)),
        }
    }
}

/// The attributes of a start tag, read from just behind the element's name:
/// the attributes (after those in `acc`), whether the tag is an
/// empty-element tag, and the input behind the tag.
pub open spec fn parse_attributes(s: Seq<char>, acc: Seq<AttributeView>) -> Option<
    (Seq<AttributeView>, bool, Seq<char>),
>
    decreases s.len(),
{
    let s1 = s.skip(span(s, CharClass::Space) as int);
    if s1.len() == 0 || s1.len() > s.len() {
        None
    } else if s1[0] == '>' {
        Some((acc, false, s1.skip(1)))
    } else if s1[0] == '/' {
        if s1.len() >= 2 && s1[1] == '>' {
            Some((acc, true, s1.skip(2)))
        } else {
            None
        }
    } else {
        let n = span(s1, CharClass::Name);
        let s2 = s1.skip(n as int);
        if n == 0 || s2.len() < 2 || s2[0] != '=' || (s2[1] != '"' && s2[1] != '\'') {
            None
        } else {
            let k = if s2[1] == '"' {
                CharClass::DoubleQuoted
            } else {
                CharClass::SingleQuoted
            };
            let m = span(s2.skip(2), k) as int;
            let s3 = s2.skip(2 + m);
            if s3.len() == 0 || s3.len() > s.len() {
                None
            } else {
                parse_attributes(
                    s3.skip(1),
                    acc.push(
                        AttributeView {
                            name: s1.take(n as int),
                            value: unescape(s2.subrange(2, 2 + m)),
                        },
                    ),
                )
            }
        }
    }
}

/// One element at the front of `s`, with the input behind it. `depth` is
/// the number of nested levels that the element may take up.
pub open spec fn parse_element(s: Seq<char>, depth: nat) -> Option<(ElementView, Seq<char>)>
    decreases s.len(), 0nat,
{
    if depth == 0 || s.len() < 2 || s[0] != '<' {
        None
    } else {
        let n = span(s.skip(1), CharClass::Name) as int;
        let name = s.subrange(1, 1 + n);
        if n == 0 {
            None
        } else {
            match parse_attributes(s.skip(1 + n), Seq::empty()) {
                None => None,
                Some((attributes, empty_tag, after)) => if empty_tag {
                    Some(
                        (
                            ElementView {
                                name,
                                attributes,
                                text: Seq::empty(),
                                children: Seq::empty(),
                            },
                            after,
                        ),
                    )
                } else if after.len() < s.len() {
                    match parse_content(after, name, Seq::empty(), (depth - 1) as nat) {
                        None => None,
                        Some((text, children, rest)) => Some(
                            (ElementView { name, attributes, text, children }, rest),
                        ),
                    }
                } else {
                    None
                },
            }
        }
    }
}

/// The content of the element `name`, read from behind its start tag up to
/// and including its end tag: the element's text, its children (after those
/// in `acc`), and the input behind the end tag. The text is the unescaped
/// character data of an element without children, and empty otherwise.
/// `depth` is the number of nested levels that a child may take up.
pub open spec fn parse_content(
    s: Seq<char>,
    name: Seq<char>,
    acc: Seq<ElementView>,
    depth: nat,
) -> Option<(Seq<char>, Seq<ElementView>, Seq<char>)>
    decreases s.len(), 1nat,
{
    let n = span(s, CharClass::Text);
    let s1 = s.skip(n as int);
    if s1.len() < 2 || s1.len() > s.len() {
        None
    } else if s1[1] == '/' {
        let k = span(s1.skip(2), CharClass::Name) as int;
        let s2 = s1.skip(2 + k);
        let s3 = s2.skip(span(s2, CharClass::Space) as int);
        if s1.subrange(2, 2 + k) != name || s3.len() == 0 || s3[0] != '>' {
            None
        } else {
            Some(
                (
                    if acc.len() == 0 {
                        unescape(s.take(n as int))
                    } else {
                        Seq::empty()
                    },
                    acc,
                    s3.skip(1),
                ),
            )
        }
    } else {
        match parse_element(s1, depth) {
            None => None,
            Some((child, rest)) => if rest.len() < s.len() {
                parse_content(rest, name, acc.push(child), depth)
            } else {
                None
            },
        }
    }
}

/// The length of the declaration at the front of `s`, up to and including
/// the first `?>`.
pub open spec fn declaration_end(s: Seq<char>) -> Option<nat>
    decreases s.len(),
{
    if s.len() < 2 {
        None
    } else if s[0] == '?' && s[1] == '>' {
        Some(2nat)
    } else {
        match declaration_end(s.skip(1)) {
            Some(n) => Some(n + 1),
            None => None,
        }
    }
}

/// `s` without leading white space, one declaration and the white space
/// behind it.
pub open spec fn skip_prolog(s: Seq<char>) -> Seq<char> {
    let s1 = s.skip(span(s, CharClass::Space) as int);
    if s1.len() >= 2 && s1[0] == '<' && s1[1] == '?' {
        match declaration_end(s1) {
            Some(n) => {
                let s2 = s1.skip(n as int);
                s2.skip(span(s2, CharClass::Space) as int)
            },
            None => s1,
        }
    } else {
        s1
    }
}

/// A whole document: a prolog, one element that is nested no deeper than
/// `MAX_DEPTH`, and nothing but white space behind it.
pub open spec fn parse_document(s: Seq<char>) -> Option<ElementView> {
    match parse_element(skip_prolog(s), MAX_DEPTH as nat) {
        None => None,
        Some((e, rest)) => if span(rest, CharClass::Space) == rest.len() {
            Some(e)
        } else {
            None
        },
    }
}

/// `span` is the one length up to which all characters are in the class and
/// at which the next is not.
pub proof fn lemma_span_is(s: Seq<char>, k: CharClass, n: nat)
    requires
        n <= s.len(),
        forall|i: int| 0 <= i < n ==> in_class(k, #[trigger] s[i]),
        n == s.len() || !in_class(k, s[n as int]),
    ensures
        span(s, k) == n,
    decreases n,
{
    if n > 0 {
        let t = s.skip(1);
        assert forall|i: int| 0 <= i < n - 1 implies in_class(k, #[trigger] t[i]) by {
            assert(t[i] == s[i + 1]);
        }
        lemma_span_is(t, k, (n - 1) as nat);
    }
}

/// Whether `c` belongs to the class `k`.
pub fn char_in_class(k: CharClass, c: char) -> (b: bool)
    ensures
        b == in_class(k, c),
{
    match k {
        CharClass::Space => c == ' ' || c == '\t' || c == '\n' || c == '\r',
        CharClass::Name => !(c == ' ' || c == '\t' || c == '\n' || c == '\r') && c != '<' && c
            != '>' && c != '/' && c != '=' && c != '"' && c != '\'',
        CharClass::Text => c != '<',
        CharClass::DoubleQuoted => c != '"',
        CharClass::SingleQuoted => c != '\'',
        CharClass::Prefix => c != ':',
    }
}

/// The position behind the run of `k` characters that starts at `from`.
pub fn scan(src: &[char], from: usize, k: CharClass) -> (to: usize)
    requires
        from <= src@.len(),
    ensures
        from <= to <= src@.len(),
        to - from == span(src@.skip(from as int), k),
        src@.skip(from as int).skip(span(src@.skip(from as int), k) as int) == src@.skip(
            to as int,
        ),
{
    let mut i: usize = from;
    while i < src.len() && char_in_class(k, src[i])
        invariant
            from <= i <= src@.len(),
            forall|j: int| from <= j < i ==> in_class(k, #[trigger] src@[j]),
        decreases src@.len() - i,
    {
        i = i + 1;
    }
    proof {
        let s = src@.skip(from as int);
        assert forall|j: int| 0 <= j < i - from implies in_class(k, #[trigger] s[j]) by {
            assert(s[j] == src@[from + j]);
        }
        lemma_span_is(s, k, (i - from) as nat);
        assert(s.skip((i - from) as int) =~= src@.skip(i as int));
    }
    i
}

/// The entity that starts at `from` and ends before `to`, if there is one.
fn entity_at(src: &[char], from: usize, to: usize) -> (r: Option<(char, usize)>)
    requires
        from < to <= src@.len(),
    ensures
        match entity(src@.subrange(from as int, to as int)) {
            None => r is None,
            Some((c, n)) => r == Some((c, n as usize)) && from + n <= to,
        },
{
    let ghost s = src@.subrange(from as int, to as int);
    let n: usize = to - from;
    if src[from] != '&' {
        return None;
    }
    assert(n >= 4 ==> s[1] == src@[from + 1] && s[2] == src@[from + 2] && s[3] == src@[from + 3]);
    assert(n >= 5 ==> s[4] == src@[from + 4]);
    assert(n >= 6 ==> s[5] == src@[from + 5]);
    if n >= 4 && src[from + 1] == 'l' && src[from + 2] == 't' && src[from + 3] == ';' {
        Some(('<', 4))
    } else if n >= 4 && src[from + 1] == 'g' && src[from + 2] == 't' && src[from + 3] == ';' {
        Some(('>', 4))
    } else if n >= 5 && src[from + 1] == 'a' && src[from + 2] == 'm' && src[from + 3] == 'p'
        && src[from + 4] == ';' {
        Some(('&', 5))
    } else if n >= 6 && src[from + 1] == 'q' && src[from + 2] == 'u' && src[from + 3] == 'o'
        && src[from + 4] == 't' && src[from + 5] == ';' {
        Some(('"', 6))
    } else if n >= 6 && src[from + 1] == 'a' && src[from + 2] == 'p' && src[from + 3] == 'o'
        && src[from + 4] == 's' && src[from + 5] == ';' {
        Some(('\'', 6))
    } else {
        None
    }
}

/// The unescaped form of `src[from..to]`.
pub fn unescape_range(src: &[char], from: usize, to: usize) -> (out: String)
    requires
        from <= to <= src@.len(),
    ensures
        out@ == unescape(src@.subrange(from as int, to as int)),
{
    let ghost whole = unescape(src@.subrange(from as int, to as int));
    let mut out = String::new();
    let mut i: usize = from;
    assert(out@ + whole =~= whole);
    while i < to
        invariant
            from <= i <= to <= src@.len(),
            out@ + unescape(src@.subrange(i as int, to as int)) == whole,
        decreases to - i,
    {
        let ghost s = src@.subrange(i as int, to as int);
        let ghost before = out@;
        match entity_at(src, i, to) {
            Some((c, n)) => {
                push_char(&mut out, c);
                assert(s.skip(n as int) =~= src@.subrange(i + n, to as int));
                assert(out@ + unescape(s.skip(n as int)) =~= before + unescape(s));
                i = i + n;
            },
            None => {
                push_char(&mut out, src[i]);
                assert(s.skip(1) =~= src@.subrange(i + 1, to as int));
                assert(out@ + unescape(s.skip(1)) =~= before + unescape(s));
                i = i + 1;
            },
        }
    }
    assert(out@ + Seq::<char>::empty() =~= out@);
    out
}

/// Whether `src[a..b]` and `src[c..d]` hold the same characters.
fn same_range(src: &[char], a: usize, b: usize, c: usize, d: usize) -> (r: bool)
    requires
        a <= b <= src@.len(),
        c <= d <= src@.len(),
    ensures
        r == (src@.subrange(a as int, b as int) == src@.subrange(c as int, d as int)),
{
    let ghost x = src@.subrange(a as int, b as int);
    let ghost y = src@.subrange(c as int, d as int);
    if b - a != d - c {
        assert(x.len() != y.len());
        return false;
    }
    let n: usize = b - a;
    let mut i: usize = 0;
    while i < n
        invariant
            i <= n,
            n == b - a,
            n == d - c,
            a <= b <= src@.len(),
            c <= d <= src@.len(),
            x == src@.subrange(a as int, b as int),
            y == src@.subrange(c as int, d as int),
            forall|j: int| 0 <= j < i ==> x[j] == y[j],
        decreases n - i,
    {
        if src[a + i] != src[c + i] {
            assert(x[i as int] != y[i as int]);
            return false;
        }
        i = i + 1;
    }
    assert(x =~= y);
    true
}

/// Whether what `read_attributes` returned is what the grammar says of the
/// input: the attributes, the kind of tag, and the position behind the tag.
pub open spec fn attributes_read(
    src: Seq<char>,
    expected: Option<(Seq<AttributeView>, bool, Seq<char>)>,
    r: Option<(Vec<XmlAttribute>, bool, usize)>,
) -> bool {
    match expected {
        None => r is None,
        Some((attrs, empty_tag, rest)) => r matches Some((v, e, to)) && attributes_view(v@)
            == attrs && e == empty_tag && to <= src.len() && src.skip(to as int) == rest,
    }
}

/// Reads the attributes of a start tag from just behind the element's name.
pub fn read_attributes(src: &[char], from: usize) -> (r: Option<(Vec<XmlAttribute>, bool, usize)>)
    requires
        from <= src@.len(),
    ensures
        attributes_read(src@, parse_attributes(src@.skip(from as int), Seq::empty()), r),
        r matches Some((_, _, to)) ==> from < to,
{
    let ghost goal = parse_attributes(src@.skip(from as int), Seq::empty());
    let mut acc: Vec<XmlAttribute> = Vec::new();
    let mut i: usize = from;
    assert(attributes_view(acc@) =~= Seq::empty());
    loop
        invariant
            from <= i <= src@.len(),
            goal == parse_attributes(src@.skip(from as int), Seq::empty()),
            goal == parse_attributes(src@.skip(i as int), attributes_view(acc@)),
        decreases src@.len() - i,
    {
        let ghost s = src@.skip(i as int);
        let j = scan(src, i, CharClass::Space);
        let ghost s1 = src@.skip(j as int);
        if j >= src.len() {
            return None;
        }
        assert(s1[0] == src@[j as int]);
        if src[j] == '>' {
            assert(s1.skip(1) =~= src@.skip(j + 1));
            return Some((acc, false, j + 1));
        }
        if src[j] == '/' {
            if j + 1 < src.len() && src[j + 1] == '>' {
                assert(s1[1] == src@[j + 1]);
                assert(s1.skip(2) =~= src@.skip(j + 2));
                return Some((acc, true, j + 2));
            }
            assert(s1.len() >= 2 ==> s1[1] == src@[j + 1]);
            return None;
        }
        let e = scan(src, j, CharClass::Name);
        let ghost s2 = src@.skip(e as int);
        if e == j || src.len() - e < 2 {
            return None;
        }
        assert(s2[0] == src@[e as int]);
        assert(s2[1] == src@[e + 1]);
        if src[e] != '=' {
            return None;
        }
        let q = src[e + 1];
        if q != '"' && q != '\'' {
            return None;
        }
        let k = if q == '"' {
            CharClass::DoubleQuoted
        } else {
            CharClass::SingleQuoted
        };
        assert(s2.skip(2) =~= src@.skip(e + 2));
        let end = scan(src, e + 2, k);
        let ghost s3 = src@.skip(end as int);
        assert(s2.skip(2 + (end - (e + 2))) =~= s3);
        if end >= src.len() {
            return None;
        }
        let name = string_of(src, j, e);
        let value = unescape_range(src, e + 2, end);
        assert(s1.take(e - j) =~= src@.subrange(j as int, e as int));
        assert(s2.subrange(2, 2 + (end - (e + 2))) =~= src@.subrange(e + 2, end as int));
        assert(s3.skip(1) =~= src@.skip(end + 1));
        let ghost before = attributes_view(acc@);
        acc.push(XmlAttribute { name, value });
        assert(attributes_view(acc@) =~= before.push(
            AttributeView {
                name: src@.subrange(j as int, e as int),
                value: unescape(src@.subrange(e + 2, end as int)),
            },
        ));
        i = end + 1;
    }
}

/// Whether what `read_element` returned is what the grammar says of the
/// input: the element, and the position from which the rest is read.
pub open spec fn element_read(
    src: Seq<char>,
    expected: Option<(ElementView, Seq<char>)>,
    r: Option<(XmlElement, usize)>,
) -> bool {
    match expected {
        None => r is None,
        Some((e, rest)) => r matches Some((x, to)) && x@ == e && to <= src.len() && src.skip(
            to as int,
        ) == rest,
    }
}

/// Whether what `read_content` returned is what the grammar says of the
/// input: the text, the children, and the position behind the end tag.
pub open spec fn content_read(
    src: Seq<char>,
    expected: Option<(Seq<char>, Seq<ElementView>, Seq<char>)>,
    r: Option<(String, Vec<XmlElement>, usize)>,
) -> bool {
    match expected {
        None => r is None,
        Some((text, children, rest)) => r matches Some((t, c, to)) && t@ == text
            && elements_view(c@, c@.len()) == children && to <= src.len() && src.skip(to as int)
            == rest,
    }
}

/// Reads one element that starts at `from` and is nested no deeper than
/// `depth`.
pub fn read_element(src: &[char], from: usize, depth: usize) -> (r: Option<(XmlElement, usize)>)
    requires
        from <= src@.len(),
    ensures
        element_read(src@, parse_element(src@.skip(from as int), depth as nat), r),
        r matches Some((_, to)) ==> from < to,
    decreases src@.len() - from, 0nat,
{
    let ghost s = src@.skip(from as int);
    if depth == 0 || src.len() - from < 2 || src[from] != '<' {
        assert(s.len() >= 1 ==> s[0] == src@[from as int]);
        return None;
    }
    assert(s[0] == src@[from as int]);
    assert(s.skip(1) =~= src@.skip(from + 1));
    let name_end = scan(src, from + 1, CharClass::Name);
    if name_end == from + 1 {
        return None;
    }
    let ghost n = (name_end - (from + 1)) as int;
    assert(s.skip(1 + n) =~= src@.skip(name_end as int));
    assert(s.subrange(1, 1 + n) =~= src@.subrange(from + 1, name_end as int));
    let (attributes, empty_tag, after) = match read_attributes(src, name_end) {
        None => {
            return None;
        },
        Some(found) => found,
    };
    let name = string_of(src, from + 1, name_end);
    if empty_tag {
        let x = XmlElement { name, attributes, text: String::new(), children: Vec::new() };
        proof {
            lemma_view_fields(&x);
            assert(x@.children =~= Seq::empty());
        }
        return Some((x, after));
    }
    match read_content(src, after, from + 1, name_end, depth - 1) {
        None => None,
        Some((text, children, to)) => {
            let x = XmlElement { name, attributes, text, children };
            proof {
                lemma_view_fields(&x);
            }
            Some((x, to))
        },
    }
}

/// Reads the content of an element from behind its start tag up to and
/// including its end tag. The element's name is `src[name_from..name_to]`;
/// its children are nested no deeper than `depth`.
pub fn read_content(
    src: &[char],
    from: usize,
    name_from: usize,
    name_to: usize,
    depth: usize,
) -> (r: Option<(String, Vec<XmlElement>, usize)>)
    requires
        name_from <= name_to <= from <= src@.len(),
    ensures
        content_read(
            src@,
            parse_content(
                src@.skip(from as int),
                src@.subrange(name_from as int, name_to as int),
                Seq::empty(),
                depth as nat,
            ),
            r,
        ),
        r matches Some((_, _, to)) ==> from < to,
    decreases src@.len() - from, 1nat,
{
    let ghost name = src@.subrange(name_from as int, name_to as int);
    let ghost goal = parse_content(src@.skip(from as int), name, Seq::empty(), depth as nat);
    let mut acc: Vec<XmlElement> = Vec::new();
    let mut i: usize = from;
    loop
        invariant
            name_from <= name_to <= from <= i <= src@.len(),
            name == src@.subrange(name_from as int, name_to as int),
            goal == parse_content(src@.skip(from as int), name, Seq::empty(), depth as nat),
            goal == parse_content(
                src@.skip(i as int),
                name,
                elements_view(acc@, acc@.len()),
                depth as nat,
            ),
        decreases src@.len() - i,
    {
        let ghost s = src@.skip(i as int);
        let j = scan(src, i, CharClass::Text);
        let ghost s1 = src@.skip(j as int);
        if src.len() - j < 2 {
            return None;
        }
        assert(s1[1] == src@[j + 1]);
        if src[j + 1] == '/' {
            assert(s1.skip(2) =~= src@.skip(j + 2));
            let e = scan(src, j + 2, CharClass::Name);
            let ghost k = (e - (j + 2)) as int;
            let ghost s2 = src@.skip(e as int);
            assert(s1.skip(2 + k) =~= s2);
            assert(s1.subrange(2, 2 + k) =~= src@.subrange(j + 2, e as int));
            let g = scan(src, e, CharClass::Space);
            let ghost s3 = src@.skip(g as int);
            if !same_range(src, j + 2, e, name_from, name_to) {
                return None;
            }
            if g >= src.len() {
                return None;
            }
            assert(s3[0] == src@[g as int]);
            if src[g] != '>' {
                return None;
            }
            assert(s3.skip(1) =~= src@.skip(g + 1));
            assert(s.take(j - i) =~= src@.subrange(i as int, j as int));
            proof {
                lemma_elements_view(acc@, acc@.len());
            }
            let text = if acc.len() == 0 {
                unescape_range(src, i, j)
            } else {
                String::new()
            };
            return Some((text, acc, g + 1));
        }
        match read_element(src, j, depth) {
            None => {
                return None;
            },
            Some((child, to)) => {
                proof {
                    lemma_elements_view(acc@, acc@.len());
                    lemma_elements_view(acc@.push(child), acc@.len() + 1);
                    assert(elements_view(acc@.push(child), acc@.len() + 1) =~= elements_view(
                        acc@,
                        acc@.len(),
                    ).push(child@));
                }
                acc.push(child);
                i = to;
            },
        }
    }
}

/// The position behind the prolog of the document.
pub fn read_prolog(src: &[char]) -> (to: usize)
    ensures
        to <= src@.len(),
        src@.skip(to as int) == skip_prolog(src@),
{
    let j = scan(src, 0, CharClass::Space);
    let ghost s1 = src@.skip(j as int);
    assert(src@.skip(0) =~= src@);
    if src.len() - j < 2 || src[j] != '<' || src[j + 1] != '?' {
        assert(s1.len() >= 2 ==> s1[0] == src@[j as int] && s1[1] == src@[j + 1]);
        return j;
    }
    assert(s1[0] == src@[j as int] && s1[1] == src@[j + 1]);
    let mut i: usize = j;
    while src.len() - i >= 2 && !(src[i] == '?' && src[i + 1] == '>')
        invariant
            j <= i <= src@.len(),
            match declaration_end(src@.skip(i as int)) {
                Some(n) => declaration_end(s1) == Some((n + (i - j)) as nat),
                None => declaration_end(s1) is None,
            },
        decreases src@.len() - i,
    {
        proof {
            let t = src@.skip(i as int);
            assert(t[0] == src@[i as int] && t[1] == src@[i + 1]);
            assert(t.skip(1) =~= src@.skip(i + 1));
        }
        i = i + 1;
    }
    proof {
        let t = src@.skip(i as int);
        assert(t.len() >= 2 ==> t[0] == src@[i as int] && t[1] == src@[i + 1]);
    }
    if src.len() - i < 2 {
        return j;
    }
    assert(s1.skip((i + 2 - j) as int) =~= src@.skip(i + 2));
    scan(src, i + 2, CharClass::Space)
}

/// Reads a whole document.
///
/// Returns the document's root element exactly when the text is a prolog,
/// one element of the grammar that is nested no deeper than `MAX_DEPTH`,
/// and white space; `None` for any other text.
pub fn read_document(text: &str) -> (r: Option<XmlElement>)
    ensures
        match parse_document(text@) {
            None => r is None,
            Some(e) => r matches Some(x) && x@ == e,
        },
{
    let chars = crate::text::chars_of(text);
    let src = chars.as_slice();
    let start = read_prolog(src);
    match read_element(src, start, MAX_DEPTH) {
        None => None,
        Some((x, to)) => {
            let end = scan(src, to, CharClass::Space);
            if end == src.len() {
                Some(x)
            } else {
                None
            }
        },
    }
}

} // verus!
