//! Well-formed elements: those that are written as XML that reads back as
//! the same element.

use crate::reader::{
    char_in_class, declaration_end, entity, in_class, lemma_span_is, parse_attributes,
    parse_content, parse_document, parse_element, skip_prolog, span, unescape, CharClass,
    MAX_DEPTH,
};
use crate::request::{document_text, EPP_XML_HEADER};
use crate::text::chars_of;
use crate::xml::{
    escape, escape_char, lemma_view_fields, render, render_attribute, render_attributes,
    render_children, AttributeView, ElementView, XmlElement,
};
use vstd::prelude::*;

verus! {

/// `s` can stand as the name of an element or an attribute: it is not empty
/// and holds no white space and none of `< > / = " '`.
pub open spec fn is_name(s: Seq<char>) -> bool {
    s.len() > 0 && forall|i: int| 0 <= i < s.len() ==> in_class(CharClass::Name, #[trigger] s[i])
}

/// `name` is the name of an attribute that declares a namespace: `xmlns`,
/// or a name that starts with `xmlns:`.
pub open spec fn declares_namespace(name: Seq<char>) -> bool {
    name.len() >= 5 && name[0] == 'x' && name[1] == 'm' && name[2] == 'l' && name[3] == 'n'
        && name[4] == 's' && (name.len() == 5 || name[5] == ':')
}

/// The attribute has a name that can stand as one, and names a namespace if
/// it declares one.
pub open spec fn attribute_well_formed(a: AttributeView) -> bool {
    is_name(a.name) && (declares_namespace(a.name) ==> a.value.len() > 0)
}

/// Every attribute is well formed.
pub open spec fn attributes_well_formed(attributes: Seq<AttributeView>) -> bool {
    forall|i: int| 0 <= i < attributes.len() ==> attribute_well_formed(#[trigger] attributes[i])
}

/// The element and all elements below it have names that can stand as
/// names, no declaration of a namespace is empty, and no element has both
/// text and children.
pub open spec fn well_formed(e: ElementView) -> bool
    decreases e,
{
    &&& is_name(e.name)
    &&& attributes_well_formed(e.attributes)
    &&& (e.children.len() > 0 ==> e.text.len() == 0)
    &&& forall|i: int| 0 <= i < e.children.len() ==> well_formed(#[trigger] e.children[i])
}

/// The elements of `e` are nested no deeper than `depth`.
pub open spec fn fits(e: ElementView, depth: nat) -> bool
    decreases e,
{
    depth > 0 && forall|i: int|
        0 <= i < e.children.len() ==> fits(#[trigger] e.children[i], (depth - 1) as nat)
}

/// The element can be written and read back: it is well formed and nested
/// no deeper than `MAX_DEPTH`.
pub open spec fn writable(e: ElementView) -> bool {
    well_formed(e) && fits(e, MAX_DEPTH as nat)
}

/// Whether `s` can stand as a name.
pub fn check_name(s: &str) -> (r: bool)
    ensures
        r == is_name(s@),
{
    let chars = chars_of(s);
    if chars.len() == 0 {
        return false;
    }
    let mut i: usize = 0;
    while i < chars.len()
        invariant
            i <= chars@.len(),
            chars@ == s@,
            forall|j: int| 0 <= j < i ==> in_class(CharClass::Name, #[trigger] chars@[j]),
        decreases chars@.len() - i,
    {
        if !char_in_class(CharClass::Name, chars[i]) {
            return false;
        }
        i = i + 1;
    }
    true
}

/// Whether the attribute is well formed.
pub fn check_attribute(a: &crate::xml::XmlAttribute) -> (r: bool)
    ensures
        r == attribute_well_formed(a@),
{
    if !check_name(a.name.as_str()) {
        return false;
    }
    let name = chars_of(a.name.as_str());
    let declares = name.len() >= 5 && name[0] == 'x' && name[1] == 'm' && name[2] == 'l'
        && name[3] == 'n' && name[4] == 's' && (name.len() == 5 || name[5] == ':');
    !declares || !a.value.as_str().is_empty()
}

impl XmlElement {
    /// Whether the element is well formed.
    pub fn is_well_formed(&self) -> (r: bool)
        ensures
            r == well_formed(self@),
        decreases self,
    {
        proof {
            lemma_view_fields(self);
        }
        if !check_name(self.name.as_str()) {
            return false;
        }
        let mut i: usize = 0;
        while i < self.attributes.len()
            invariant
                i <= self.attributes@.len(),
                self@.attributes.len() == self.attributes@.len(),
                forall|j: int|
                    0 <= j < i ==> attribute_well_formed(#[trigger] self@.attributes[j]),
            decreases self.attributes@.len() - i,
        {
            proof {
                lemma_view_fields(self);
                assert(self@.attributes[i as int] == self.attributes@[i as int]@);
            }
            if !check_attribute(&self.attributes[i]) {
                assert(!attribute_well_formed(self@.attributes[i as int]));
                return false;
            }
            i = i + 1;
        }
        if self.children.len() > 0 && !self.text.as_str().is_empty() {
            return false;
        }
        let mut k: usize = 0;
        while k < self.children.len()
            invariant
                k <= self.children@.len(),
                self@.children.len() == self.children@.len(),
                forall|j: int| 0 <= j < k ==> well_formed(#[trigger] self@.children[j]),
            decreases self.children@.len() - k,
        {
            proof {
                lemma_view_fields(self);
                assert(self@.children[k as int] == self.children@[k as int]@);
            }
            if !self.children[k].is_well_formed() {
                assert(!well_formed(self@.children[k as int]));
                return false;
            }
            k = k + 1;
        }
        true
    }

    /// Whether the element is nested no deeper than `depth`.
    pub fn fits_within(&self, depth: usize) -> (r: bool)
        ensures
            r == fits(self@, depth as nat),
        decreases self,
    {
        proof {
            lemma_view_fields(self);
        }
        if depth == 0 {
            return false;
        }
        let mut k: usize = 0;
        while k < self.children.len()
            invariant
                k <= self.children@.len(),
                depth > 0,
                self@.children.len() == self.children@.len(),
                forall|j: int|
                    0 <= j < k ==> fits(#[trigger] self@.children[j], (depth - 1) as nat),
            decreases self.children@.len() - k,
        {
            proof {
                lemma_view_fields(self);
                assert(self@.children[k as int] == self.children@[k as int]@);
            }
            if !self.children[k].fits_within(depth - 1) {
                assert(!fits(self@.children[k as int], (depth - 1) as nat));
                return false;
            }
            k = k + 1;
        }
        proof {
            lemma_view_fields(self);
        }
        true
    }

    /// Whether the element can be written and read back.
    pub fn is_writable(&self) -> (r: bool)
        ensures
            r == writable(self@),
    {
        self.fits_within(MAX_DEPTH) && self.is_well_formed()
    }
}

/// A run of characters of one class, followed by a character outside the
/// class or by nothing, is exactly what `span` passes over.
pub proof fn lemma_span_prefix(a: Seq<char>, b: Seq<char>, k: CharClass)
    requires
        forall|i: int| 0 <= i < a.len() ==> in_class(k, #[trigger] a[i]),
        b.len() == 0 || !in_class(k, b[0]),
    ensures
        span(a + b, k) == a.len(),
        (a + b).skip(a.len() as int) == b,
        (a + b).take(a.len() as int) == a,
{
    let s = a + b;
    assert forall|i: int| 0 <= i < a.len() implies in_class(k, #[trigger] s[i]) by {
        assert(s[i] == a[i]);
    }
    if b.len() > 0 {
        assert(s[a.len() as int] == b[0]);
    }
    lemma_span_is(s, k, a.len());
    assert(s.skip(a.len() as int) =~= b);
    assert(s.take(a.len() as int) =~= a);
}

/// Escaped text holds neither `<` nor `"`.
pub proof fn lemma_escape_class(t: Seq<char>, k: CharClass)
    requires
        k == CharClass::Text || k == CharClass::DoubleQuoted,
    ensures
        forall|i: int| 0 <= i < escape(t).len() ==> in_class(k, #[trigger] escape(t)[i]),
    decreases t.len(),
{
    if t.len() > 0 {
        let head = escape_char(t[0]);
        let tail = escape(t.skip(1));
        lemma_escape_class(t.skip(1), k);
        assert forall|i: int| 0 <= i < escape(t).len() implies in_class(
            k,
            #[trigger] escape(t)[i],
        ) by {
            if i < head.len() {
                assert(escape(t)[i] == head[i]);
            } else {
                assert(escape(t)[i] == tail[i - head.len()]);
            }
        }
    }
}

/// Unescaping undoes escaping.
pub proof fn lemma_unescape_escape(t: Seq<char>)
    ensures
        unescape(escape(t)) == t,
    decreases t.len(),
{
    if t.len() > 0 {
        let c = t[0];
        let head = escape_char(c);
        let tail = escape(t.skip(1));
        let s = head + tail;
        lemma_unescape_escape(t.skip(1));
        assert(s.len() >= head.len());
        assert forall|i: int| 0 <= i < head.len() implies s[i] == head[i] by {}
        if c == '&' || c == '<' || c == '>' || c == '"' || c == '\'' {
            assert(entity(s) == Some((c, head.len())));
            assert(s.skip(head.len() as int) =~= tail);
        } else {
            assert(s[0] == c);
            assert(entity(s) is None);
            assert(s.skip(1) =~= tail);
        }
        assert(unescape(s) =~= seq![c] + t.skip(1));
        assert(seq![c] + t.skip(1) =~= t);
    }
}

/// The end of an element's content: escaped character data, the end tag,
/// and whatever follows. Reading it gives the children read so far and, for
/// an element without children, the character data.
pub proof fn lemma_end_tag(
    data: Seq<char>,
    name: Seq<char>,
    rest: Seq<char>,
    acc: Seq<ElementView>,
    depth: nat,
)
    requires
        is_name(name),
    ensures
        parse_content(
            escape(data) + seq!['<', '/'] + name + seq!['>'] + rest,
            name,
            acc,
            depth,
        ) == Some(
            (
                if acc.len() == 0 {
                    data
                } else {
                    Seq::empty()
                },
                acc,
                rest,
            ),
        ),
{
    let raw = escape(data);
    let close = seq!['<', '/'] + name + seq!['>'] + rest;
    let s = raw + seq!['<', '/'] + name + seq!['>'] + rest;
    assert(s =~= raw + close);
    lemma_escape_class(data, CharClass::Text);
    assert(close[0] == '<');
    lemma_span_prefix(raw, close, CharClass::Text);
    let s1 = close;
    assert(s1[1] == '/');
    let tail = seq!['>'] + rest;
    assert(s1.skip(2) =~= name + tail);
    assert(tail[0] == '>');
    lemma_span_prefix(name, tail, CharClass::Name);
    let k = name.len() as int;
    assert(s1.skip(2 + k) =~= tail);
    assert(s1.subrange(2, 2 + k) =~= name);
    assert(span(tail, CharClass::Space) == 0);
    assert(tail.skip(0) =~= tail);
    assert(tail.skip(1) =~= rest);
    lemma_unescape_escape(data);
}

/// Whether `tail` starts with the end of a start tag: `>` or `/>`.
pub open spec fn ends_tag(tail: Seq<char>) -> bool {
    tail.len() > 0 && (tail[0] == '>' || (tail[0] == '/' && tail.len() >= 2 && tail[1] == '>'))
}

/// Reading one written attribute gives the attribute, and leaves what
/// follows it to read.
pub proof fn lemma_attribute_round_trip(a: AttributeView, acc: Seq<AttributeView>, more: Seq<char>)
    requires
        is_name(a.name),
        more.len() > 0,
    ensures
        parse_attributes(render_attribute(a) + more, acc) == parse_attributes(more, acc.push(a)),
{
    let value = escape(a.value);
    let s3 = seq!['"'] + more;
    let s2 = seq!['=', '"'] + (value + s3);
    let s1 = a.name + s2;
    let s = seq![' '] + s1;
    assert(render_attribute(a) + more =~= s);
    assert(span(s, CharClass::Space) == 1) by {
        assert(s[0] == ' ');
        assert(s.skip(1) =~= s1);
        assert(s1[0] == a.name[0]);
        assert(span(s1, CharClass::Space) == 0);
    }
    assert(s.skip(1) =~= s1);
    assert(s1[0] == a.name[0]);
    assert(s2[0] == '=' && s2[1] == '"');
    lemma_span_prefix(a.name, s2, CharClass::Name);
    assert(s2.skip(2) =~= value + s3);
    lemma_escape_class(a.value, CharClass::DoubleQuoted);
    assert(s3[0] == '"');
    lemma_span_prefix(value, s3, CharClass::DoubleQuoted);
    let m = value.len() as int;
    assert(s2.skip(2 + m) =~= s3) by {
        assert(s2.skip(2 + m) =~= s2.skip(2).skip(m));
    }
    assert(s2.subrange(2, 2 + m) =~= value) by {
        assert(s2.subrange(2, 2 + m) =~= s2.skip(2).take(m));
    }
    assert(s3.skip(1) =~= more);
    assert(s3.len() <= s.len());
    lemma_unescape_escape(a.value);
    assert(AttributeView { name: a.name, value: a.value } == a);
}

/// Reading written attributes, followed by the end of the tag, gives the
/// attributes back.
pub proof fn lemma_attributes_round_trip(
    attrs: Seq<AttributeView>,
    acc: Seq<AttributeView>,
    tail: Seq<char>,
)
    requires
        attributes_well_formed(attrs),
        ends_tag(tail),
    ensures
        parse_attributes(render_attributes(attrs) + tail, acc) == Some(
            if tail[0] == '>' {
                (acc + attrs, false, tail.skip(1))
            } else {
                (acc + attrs, true, tail.skip(2))
            },
        ),
    decreases attrs.len(),
{
    let s = render_attributes(attrs) + tail;
    if attrs.len() == 0 {
        assert(s =~= tail);
        assert(span(s, CharClass::Space) == 0);
        assert(s.skip(0) =~= s);
        assert(acc + attrs =~= acc);
    } else {
        let a = attrs[0];
        let more = render_attributes(attrs.skip(1)) + tail;
        assert(attribute_well_formed(a));
        assert(s =~= render_attribute(a) + more);
        lemma_attribute_round_trip(a, acc, more);
        assert(attributes_well_formed(attrs.skip(1))) by {
            assert forall|i: int| 0 <= i < attrs.skip(1).len() implies attribute_well_formed(
                #[trigger] attrs.skip(1)[i],
            ) by {
                assert(attrs.skip(1)[i] == attrs[i + 1]);
            }
        }
        lemma_attributes_round_trip(attrs.skip(1), acc.push(a), tail);
        assert(acc.push(a) + attrs.skip(1) =~= acc + attrs);
    }
}

/// What follows an element's name in its written form: its attributes, and
/// the rest of the element.
pub open spec fn after_name(e: ElementView) -> Seq<char> {
    render_attributes(e.attributes) + after_attributes(e)
}

/// What follows an element's attributes in its written form.
pub open spec fn after_attributes(e: ElementView) -> Seq<char> {
    if e.children.len() == 0 && e.text.len() == 0 {
        seq!['/', '>']
    } else {
        seq!['>'] + content(e)
    }
}

/// What follows the start tag of an element that is not written as an
/// empty-element tag.
pub open spec fn content(e: ElementView) -> Seq<char> {
    if e.children.len() == 0 {
        escape(e.text) + seq!['<', '/'] + e.name + seq!['>']
    } else {
        render_children(e, 0) + seq!['<', '/'] + e.name + seq!['>']
    }
}

/// The written form of an element, taken apart.
pub proof fn lemma_render_parts(e: ElementView)
    ensures
        render(e) == seq!['<'] + e.name + after_name(e),
        after_name(e).len() > 0,
        !in_class(CharClass::Name, after_name(e)[0]),
        ends_tag(after_attributes(e)),
{
    assert(render(e) =~= seq!['<'] + e.name + after_name(e));
    if e.attributes.len() > 0 {
        assert(after_name(e)[0] == ' ');
    } else {
        assert(after_name(e)[0] == after_attributes(e)[0]);
    }
}

/// Element round trip: reading the written form of a well-formed element
/// that is nested no deeper than `depth`, whatever follows it, gives the
/// element back, and what follows is left to read.
pub proof fn lemma_element_round_trip(e: ElementView, rest: Seq<char>, depth: nat)
    requires
        well_formed(e),
        fits(e, depth),
    ensures
        parse_element(render(e) + rest, depth) == Some((e, rest)),
    decreases e, 1nat,
{
    lemma_render_parts(e);
    let s = render(e) + rest;
    let tail = after_name(e) + rest;
    assert(s =~= seq!['<'] + (e.name + tail));
    assert(s[0] == '<');
    assert(s.skip(1) =~= e.name + tail);
    assert(tail[0] == after_name(e)[0]);
    lemma_span_prefix(e.name, tail, CharClass::Name);
    let n = e.name.len() as int;
    assert(s.subrange(1, 1 + n) =~= e.name);
    assert(s.skip(1 + n) =~= tail);
    let end = after_attributes(e) + rest;
    assert(tail =~= render_attributes(e.attributes) + end);
    assert(end[0] == after_attributes(e)[0]);
    assert(after_attributes(e).len() >= 2 ==> end[1] == after_attributes(e)[1]);
    lemma_attributes_round_trip(e.attributes, Seq::empty(), end);
    assert(Seq::<AttributeView>::empty() + e.attributes =~= e.attributes);
    if e.children.len() == 0 && e.text.len() == 0 {
        assert(end.skip(2) =~= rest);
        assert(e.text =~= Seq::<char>::empty());
        assert(e.children =~= Seq::<ElementView>::empty());
        assert(e == ElementView {
            name: e.name,
            attributes: e.attributes,
            text: Seq::empty(),
            children: Seq::empty(),
        });
    } else {
        let after = content(e) + rest;
        assert(end.skip(1) =~= after);
        assert(after.len() < s.len());
        if e.children.len() == 0 {
            assert(after =~= escape(e.text) + seq!['<', '/'] + e.name + seq!['>'] + rest);
            lemma_end_tag(e.text, e.name, rest, Seq::empty(), (depth - 1) as nat);
            assert(e.children =~= Seq::<ElementView>::empty());
        } else {
            assert(after =~= render_children(e, 0) + (seq!['<', '/'] + e.name + seq!['>']
                + rest));
            lemma_children_round_trip(e, 0, Seq::empty(), rest, (depth - 1) as nat);
            assert(e.children.skip(0) =~= e.children);
            assert(Seq::<ElementView>::empty() + e.children =~= e.children);
            assert(e.text =~= Seq::<char>::empty());
        }
        assert(e == ElementView {
            name: e.name,
            attributes: e.attributes,
            text: e.text,
            children: e.children,
        });
    }
}

/// Reading the written children of a well-formed element from the child
/// `from` on, followed by the element's end tag, gives those children back.
pub proof fn lemma_children_round_trip(
    e: ElementView,
    from: nat,
    acc: Seq<ElementView>,
    rest: Seq<char>,
    depth: nat,
)
    requires
        well_formed(e),
        fits(e, depth + 1),
        from <= e.children.len(),
        from < e.children.len() || acc.len() > 0,
    ensures
        parse_content(
            render_children(e, from) + (seq!['<', '/'] + e.name + seq!['>'] + rest),
            e.name,
            acc,
            depth,
        ) == Some((Seq::<char>::empty(), acc + e.children.skip(from as int), rest)),
    decreases e, 0nat, e.children.len() - from,
{
    let close = seq!['<', '/'] + e.name + seq!['>'] + rest;
    let s = render_children(e, from) + close;
    if from >= e.children.len() {
        assert(s =~= escape(Seq::<char>::empty()) + seq!['<', '/'] + e.name + seq!['>'] + rest);
        lemma_end_tag(Seq::empty(), e.name, rest, acc, depth);
        assert(acc + e.children.skip(from as int) =~= acc);
    } else {
        let child = e.children[from as int];
        assert(well_formed(child));
        assert(fits(child, depth));
        let more = render_children(e, from + 1) + close;
        assert(s =~= render(child) + more);
        lemma_render_parts(child);
        assert(render(child)[0] == '<');
        assert(render(child).len() >= 2);
        assert(s[0] == '<');
        assert(span(s, CharClass::Text) == 0);
        assert(s.skip(0) =~= s);
        assert(is_name(child.name));
        assert(render(child)[1] == child.name[0]);
        assert(s[1] == child.name[0]);
        assert(in_class(CharClass::Name, child.name[0]));
        lemma_element_round_trip(child, more, depth);
        assert(more.len() < s.len());
        lemma_children_round_trip(e, from + 1, acc.push(child), rest, depth);
        assert(acc.push(child) + e.children.skip(from as int + 1) =~= acc + e.children.skip(
            from as int,
        ));
    }
}

/// A declaration ends behind the first `?>`.
pub proof fn lemma_declaration_end(s: Seq<char>, n: nat)
    requires
        n + 2 <= s.len(),
        s[n as int] == '?',
        s[n as int + 1] == '>',
        forall|i: int| 0 <= i < n ==> #[trigger] s[i + 1] != '>',
    ensures
        declaration_end(s) == Some(n + 2),
    decreases n,
{
    if n > 0 {
        let t = s.skip(1);
        assert(t[n - 1] == s[n as int]);
        assert(t[n as int] == s[n as int + 1]);
        assert forall|i: int| 0 <= i < n - 1 implies #[trigger] t[i + 1] != '>' by {
            assert(t[i + 1] == s[(i + 1) + 1]);
        }
        lemma_declaration_end(t, (n - 1) as nat);
        assert(s[0int + 1] != '>');
    }
}

/// Document round trip: reading a document as sent gives its root element
/// back, for every root that can be written.
pub proof fn lemma_document_round_trip(root: ElementView)
    requires
        writable(root),
    ensures
        parse_document(document_text(root)) == Some(root),
{
    reveal_strlit("<?xml version=\"1.0\" encoding=\"UTF-8\" standalone=\"no\"?>\r\n");
    let h = EPP_XML_HEADER@;
    let body = render(root);
    let s = h + body;
    assert(h.len() == 56);
    lemma_render_parts(root);
    assert(body[0] == '<');
    assert(s[0] == '<' && s[1] == '?');
    assert(span(s, CharClass::Space) == 0);
    assert(s.skip(0) =~= s);
    assert forall|i: int| 0 <= i < 52 implies #[trigger] s[i + 1] != '>' by {
        assert(s[i + 1] == h[i + 1]);
    }
    assert(s[52] == h[52] && s[53] == h[53]);
    lemma_declaration_end(s, 52);
    let s2 = s.skip(54);
    assert(s2 =~= seq!['\r', '\n'] + body);
    lemma_span_prefix(seq!['\r', '\n'], body, CharClass::Space);
    assert(skip_prolog(s) == body);
    lemma_element_round_trip(root, Seq::empty(), MAX_DEPTH as nat);
    assert(body + Seq::<char>::empty() =~= body);
    assert(span(Seq::<char>::empty(), CharClass::Space) == 0);
}

} // verus!
