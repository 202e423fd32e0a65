//! The XML document model: elements with attributes, text and children, and
//! the text that an element is written as.

use crate::text::{chars_of, push_char, strings_view};
use vstd::prelude::*;
use vstd::string::StringExecFns;

verus! {

/// One attribute of an element.
#[derive(Debug)]
pub struct XmlAttribute {
    pub name: String,
    pub value: String,
}

/// One element. An element carries either text or children; the text of an
/// element that has children is ignored when the element is written.
#[derive(Debug)]
pub struct XmlElement {
    pub name: String,
    pub attributes: Vec<XmlAttribute>,
    pub text: String,
    pub children: Vec<XmlElement>,
}

/// The mathematical value of an attribute.
pub struct AttributeView {
    pub name: Seq<char>,
    pub value: Seq<char>,
}

/// The mathematical value of an element.
pub struct ElementView {
    pub name: Seq<char>,
    pub attributes: Seq<AttributeView>,
    pub text: Seq<char>,
    pub children: Seq<ElementView>,
}

impl View for XmlAttribute {
    type V = AttributeView;

    open spec fn view(&self) -> AttributeView {
        AttributeView { name: self.name@, value: self.value@ }
    }
}

/// The views of a list of attributes.
pub open spec fn attributes_view(attrs: Seq<XmlAttribute>) -> Seq<AttributeView> {
    Seq::new(attrs.len(), |i: int| attrs[i]@)
}

/// The views of the first `n` elements of `es`.
pub open spec fn elements_view(es: Seq<XmlElement>, n: nat) -> Seq<ElementView>
    decreases es, n,
{
    if n == 0 || n > es.len() {
        Seq::empty()
    } else {
        elements_view(es, (n - 1) as nat).push(element_view(es[n - 1]))
    }
}

/// The view of one element.
pub open spec fn element_view(e: XmlElement) -> ElementView
    decreases e, 0nat,
{
    ElementView {
        name: e.name@,
        attributes: attributes_view(e.attributes@),
        text: e.text@,
        children: elements_view(e.children@, e.children@.len()),
    }
}

impl View for XmlElement {
    type V = ElementView;

    open spec fn view(&self) -> ElementView {
        element_view(*self)
    }
}

/// An element that holds text only.
pub open spec fn text_element(name: Seq<char>, text: Seq<char>) -> ElementView {
    ElementView { name, attributes: Seq::empty(), text, children: Seq::empty() }
}

/// One text-only element named `name` for each of `texts`, in order.
pub open spec fn text_elements(name: Seq<char>, texts: Seq<Seq<char>>) -> Seq<ElementView> {
    Seq::new(texts.len(), |i: int| text_element(name, texts[i]))
}

/// An element without text.
pub open spec fn element(
    name: Seq<char>,
    attributes: Seq<AttributeView>,
    children: Seq<ElementView>,
) -> ElementView {
    ElementView { name, attributes, text: Seq::empty(), children }
}

/// An attribute.
pub open spec fn attribute(name: Seq<char>, value: Seq<char>) -> AttributeView {
    AttributeView { name, value }
}

/// The entity that stands for `c` in text and attribute values, or `c` itself.
pub open spec fn escape_char(c: char) -> Seq<char> {
    if c == '&' {
        seq!['&', 'a', 'm', 'p', ';']
    } else if c == '<' {
        seq!['&', 'l', 't', ';']
    } else if c == '>' {
        seq!['&', 'g', 't', ';']
    } else if c == '"' {
        seq!['&', 'q', 'u', 'o', 't', ';']
    } else if c == '\'' {
        seq!['&', 'a', 'p', 'o', 's', ';']
    } else {
        seq![c]
    }
}

/// `s` with each of `& < > " '` replaced by its entity.
pub open spec fn escape(s: Seq<char>) -> Seq<char>
    decreases s.len(),
{
    if s.len() == 0 {
        Seq::empty()
    } else {
        escape_char(s[0]) + escape(s.skip(1))
    }
}

/// One attribute as written: a space, the name, `="`, the escaped value, `"`.
pub open spec fn render_attribute(a: AttributeView) -> Seq<char> {
    seq![' '] + a.name + seq!['=', '"'] + escape(a.value) + seq!['"']
}

/// A list of attributes as written, in order.
pub open spec fn render_attributes(attrs: Seq<AttributeView>) -> Seq<char>
    decreases attrs.len(),
{
    if attrs.len() == 0 {
        Seq::empty()
    } else {
        render_attribute(attrs[0]) + render_attributes(attrs.skip(1))
    }
}

/// An element as written. An element without text and children is written
/// as an empty-element tag; any other as a start tag, the escaped text (only
/// where there are no children), the children in order, and an end tag.
pub open spec fn render(e: ElementView) -> Seq<char>
    decreases e, 1nat,
{
    let open = seq!['<'] + e.name + render_attributes(e.attributes);
    if e.children.len() == 0 && e.text.len() == 0 {
        open + seq!['/', '>']
    } else if e.children.len() == 0 {
        open + seq!['>'] + escape(e.text) + seq!['<', '/'] + e.name + seq!['>']
    } else {
        open + seq!['>'] + render_children(e, 0) + seq!['<', '/'] + e.name + seq!['>']
    }
}

/// The children of `e` from index `from` on, as written one after another.
pub open spec fn render_children(e: ElementView, from: nat) -> Seq<char>
    decreases e, 0nat, e.children.len() - from,
{
    if from >= e.children.len() {
        Seq::empty()
    } else {
        render(e.children[from as int]) + render_children(e, from + 1)
    }
}

/// The views of the first `n` elements are the elements' views, in order.
pub proof fn lemma_elements_view(es: Seq<XmlElement>, n: nat)
    requires
        n <= es.len(),
    ensures
        elements_view(es, n).len() == n,
        forall|i: int| 0 <= i < n ==> #[trigger] elements_view(es, n)[i] == es[i]@,
    decreases n,
{
    if n > 0 {
        lemma_elements_view(es, (n - 1) as nat);
    }
}

/// How the view of an element relates to its fields.
pub proof fn lemma_view_fields(e: &XmlElement)
    ensures
        e@.name == e.name@,
        e@.text == e.text@,
        e@.attributes == attributes_view(e.attributes@),
        e@.children.len() == e.children@.len(),
        forall|i: int| 0 <= i < e.children@.len() ==> #[trigger] e@.children[i] == e.children@[i]@,
{
    lemma_elements_view(e.children@, e.children@.len());
}

/// Escaping distributes over concatenation.
pub proof fn lemma_escape_concat(a: Seq<char>, b: Seq<char>)
    ensures
        escape(a + b) == escape(a) + escape(b),
    decreases a.len(),
{
    if a.len() == 0 {
        assert(a + b =~= b);
        assert(escape(a) + escape(b) =~= escape(b));
    } else {
        lemma_escape_concat(a.skip(1), b);
        assert((a + b).skip(1) =~= a.skip(1) + b);
        assert(escape(a + b) =~= escape(a) + escape(b));
    }
}

/// Appends to `out` the entity for `c`, or `c` itself.
pub fn push_escaped_char(out: &mut String, c: char)
    ensures
        final(out)@ == old(out)@ + escape_char(c),
{
    if c == '&' {
        out.append("&amp;");
        proof {
            reveal_strlit("&amp;");
        }
        assert("&amp;"@ =~= escape_char(c));
    } else if c == '<' {
        out.append("&lt;");
        proof {
            reveal_strlit("&lt;");
        }
        assert("&lt;"@ =~= escape_char(c));
    } else if c == '>' {
        out.append("&gt;");
        proof {
            reveal_strlit("&gt;");
        }
        assert("&gt;"@ =~= escape_char(c));
    } else if c == '"' {
        out.append("&quot;");
        proof {
            reveal_strlit("&quot;");
        }
        assert("&quot;"@ =~= escape_char(c));
    } else if c == '\'' {
        out.append("&apos;");
        proof {
            reveal_strlit("&apos;");
        }
        assert("&apos;"@ =~= escape_char(c));
    } else {
        push_char(out, c);
        assert(final(out)@ =~= old(out)@ + escape_char(c));
    }
}

/// Appends the escaped form of `s` to `out`.
pub fn push_escaped(out: &mut String, s: &str)
    ensures
        final(out)@ == old(out)@ + escape(s@),
{
    let chars = chars_of(s);
    let mut i: usize = 0;
    assert(chars@.take(0) =~= Seq::<char>::empty());
    assert(out@ =~= old(out)@ + escape(chars@.take(0)));
    while i < chars.len()
        invariant
            i <= chars@.len(),
            chars@ == s@,
            out@ == old(out)@ + escape(chars@.take(i as int)),
        decreases chars@.len() - i,
    {
        push_escaped_char(out, chars[i]);
        proof {
            let done = chars@.take(i as int);
            let one = seq![chars@[i as int]];
            lemma_escape_concat(done, one);
            assert(one.skip(1) =~= Seq::<char>::empty());
            assert(escape(one.skip(1)) =~= Seq::<char>::empty());
            assert(escape(one) =~= escape_char(chars@[i as int]));
            assert(chars@.take(i + 1) =~= done + one);
            assert(out@ =~= old(out)@ + escape(chars@.take(i + 1)));
        }
        i = i + 1;
    }
    assert(chars@.take(i as int) =~= s@);
}

/// Appends one attribute to `out`.
pub fn push_attribute(out: &mut String, a: &XmlAttribute)
    ensures
        final(out)@ == old(out)@ + render_attribute(a@),
{
    proof {
        reveal_strlit("=\"");
    }
    push_char(out, ' ');
    out.append(a.name.as_str());
    out.append("=\"");
    push_escaped(out, a.value.as_str());
    push_char(out, '"');
    assert("=\""@ =~= seq!['=', '"']);
    assert(final(out)@ =~= old(out)@ + render_attribute(a@));
}

/// Appends a list of attributes to `out`, in order.
pub fn push_attributes(out: &mut String, attrs: &Vec<XmlAttribute>)
    ensures
        final(out)@ == old(out)@ + render_attributes(attributes_view(attrs@)),
{
    let ghost all = attributes_view(attrs@);
    let mut i: usize = 0;
    assert(all.skip(0) =~= all);
    assert(out@ + render_attributes(all.skip(0)) =~= old(out)@ + render_attributes(all));
    while i < attrs.len()
        invariant
            i <= attrs@.len(),
            all == attributes_view(attrs@),
            out@ + render_attributes(all.skip(i as int)) == old(out)@ + render_attributes(all),
        decreases attrs@.len() - i,
    {
        let ghost before = out@;
        push_attribute(out, &attrs[i]);
        proof {
            let rest = all.skip(i as int);
            assert(rest[0] == attrs@[i as int]@);
            assert(rest.skip(1) =~= all.skip(i + 1));
            assert(out@ + render_attributes(all.skip(i + 1)) =~= before + render_attributes(
                rest,
            ));
        }
        i = i + 1;
    }
    assert(render_attributes(all.skip(i as int)) =~= Seq::<char>::empty());
    assert(out@ =~= out@ + Seq::<char>::empty());
}

impl XmlElement {
    /// An element with the given name and nothing else.
    pub fn new(name: &str) -> (e: XmlElement)
        ensures
            e@ == (ElementView {
                name: name@,
                attributes: Seq::empty(),
                text: Seq::empty(),
                children: Seq::empty(),
            }),
    {
        let e = XmlElement {
            name: String::from_str(name),
            attributes: Vec::new(),
            text: String::new(),
            children: Vec::new(),
        };
        proof {
            lemma_view_fields(&e);
        }
        assert(e@.attributes =~= Seq::empty());
        assert(e@.children =~= Seq::empty());
        e
    }

    /// An element with the given name and text.
    pub fn with_text(name: &str, text: &str) -> (e: XmlElement)
        ensures
            e@ == (ElementView {
                name: name@,
                attributes: Seq::empty(),
                text: text@,
                children: Seq::empty(),
            }),
    {
        let e = XmlElement {
            name: String::from_str(name),
            attributes: Vec::new(),
            text: String::from_str(text),
            children: Vec::new(),
        };
        proof {
            lemma_view_fields(&e);
        }
        assert(e@.attributes =~= Seq::empty());
        assert(e@.children =~= Seq::empty());
        e
    }

    /// Adds an attribute after those that the element has.
    pub fn add_attribute(&mut self, name: &str, value: &str)
        ensures
            final(self)@ == (ElementView {
                attributes: old(self)@.attributes.push(
                    AttributeView { name: name@, value: value@ },
                ),
                ..old(self)@
            }),
    {
        let ghost before = self@;
        proof {
            lemma_view_fields(self);
        }
        self.attributes.push(
            XmlAttribute { name: String::from_str(name), value: String::from_str(value) },
        );
        proof {
            lemma_view_fields(self);
        }
        assert(self@.attributes =~= before.attributes.push(
            AttributeView { name: name@, value: value@ },
        ));
        assert(self@.children =~= before.children);
    }

    /// Adds a child after those that the element has.
    pub fn add_child(&mut self, child: XmlElement)
        ensures
            final(self)@ == (ElementView {
                children: old(self)@.children.push(child@),
                ..old(self)@
            }),
    {
        let ghost before = self@;
        proof {
            lemma_view_fields(self);
        }
        self.children.push(child);
        proof {
            lemma_view_fields(self);
        }
        assert(self@.children =~= before.children.push(child@));
        assert(self@.attributes =~= before.attributes);
    }

    /// Adds one text-only child named `name` for each of `texts`.
    pub fn add_text_children(&mut self, name: &str, texts: &Vec<String>)
        ensures
            final(self)@ == (ElementView {
                children: old(self)@.children + text_elements(
                    name@,
                    strings_view(texts@),
                ),
                ..old(self)@
            }),
    {
        let ghost before = self@;
        let ghost all = text_elements(name@, strings_view(texts@));
        let mut i: usize = 0;
        assert(self@.children =~= before.children + all.take(0));
        while i < texts.len()
            invariant
                i <= texts@.len(),
                all == text_elements(name@, strings_view(texts@)),
                self@ == (ElementView {
                    children: before.children + all.take(i as int),
                    ..before
                }),
            decreases texts@.len() - i,
        {
            self.add_child(XmlElement::with_text(name, texts[i].as_str()));
            assert(self@.children =~= before.children + all.take(i + 1));
            i = i + 1;
        }
        assert(all.take(i as int) =~= all);
    }

    /// Appends the element as written to `out`.
    pub fn write(&self, out: &mut String)
        ensures
            final(out)@ == old(out)@ + render(self@),
        decreases self,
    {
        let ghost v = self@;
        let ghost open = seq!['<'] + v.name + render_attributes(v.attributes);
        proof {
            lemma_view_fields(self);
            reveal_strlit("/>");
            reveal_strlit("</");
        }
        push_char(out, '<');
        out.append(self.name.as_str());
        push_attributes(out, &self.attributes);
        assert(out@ =~= old(out)@ + open);
        if self.children.len() == 0 && self.text.as_str().is_empty() {
            out.append("/>");
            assert("/>"@ =~= seq!['/', '>']);
            assert(out@ =~= old(out)@ + render(v));
            return ;
        }
        push_char(out, '>');
        if self.children.len() == 0 {
            push_escaped(out, self.text.as_str());
            assert(out@ =~= old(out)@ + (open + seq!['>'] + escape(v.text)));
        } else {
            let mut i: usize = 0;
            assert(out@ + render_children(v, 0) =~= old(out)@ + (open + seq!['>']
                + render_children(v, 0)));
            while i < self.children.len()
                invariant
                    i <= self.children@.len(),
                    v == self@,
                    out@ + render_children(v, i as nat) == old(out)@ + (open + seq!['>']
                        + render_children(v, 0)),
                decreases self.children@.len() - i,
            {
                let ghost before = out@;
                self.children[i].write(out);
                proof {
                    lemma_view_fields(self);
                    assert(v.children[i as int] == self.children@[i as int]@);
                    assert(out@ + render_children(v, (i + 1) as nat) =~= before
                        + render_children(v, i as nat));
                }
                i = i + 1;
            }
            assert(render_children(v, i as nat) =~= Seq::<char>::empty());
            assert(out@ =~= out@ + Seq::<char>::empty());
        }
        out.append("</");
        out.append(self.name.as_str());
        push_char(out, '>');
        assert("</"@ =~= seq!['<', '/']);
        assert(out@ =~= old(out)@ + render(v));
    }

    /// The element as written.
    pub fn to_text(&self) -> (s: String)
        ensures
            s@ == render(self@),
    {
        let mut s = String::new();
        self.write(&mut s);
        assert(s@ =~= render(self@));
        s
    }
}

} // verus!
