//! Looking things up in an element: children by local name, attributes by
//! name. A namespace prefix on an element's name does not matter to a
//! lookup; an attribute is found by its full name.

use crate::reader::{scan, span, CharClass};
use crate::text::{chars_of, strings_view};
use crate::xml::{lemma_view_fields, AttributeView, ElementView, XmlElement};
use vstd::prelude::*;

verus! {

/// A name without its namespace prefix: what follows the first `:`, or the
/// whole name where there is none.
pub open spec fn local_name(name: Seq<char>) -> Seq<char> {
    let n = span(name, CharClass::Prefix) as int;
    if n < name.len() {
        name.skip(n + 1)
    } else {
        name
    }
}

/// The first of `children` whose local name is `local`.
pub open spec fn find_child(children: Seq<ElementView>, local: Seq<char>) -> Option<ElementView>
    decreases children.len(),
{
    if children.len() == 0 {
        None
    } else if local_name(children[0].name) == local {
        Some(children[0])
    } else {
        find_child(children.skip(1), local)
    }
}

/// Those of `children` whose local name is `local`, in order.
pub open spec fn children_named(children: Seq<ElementView>, local: Seq<char>) -> Seq<ElementView>
    decreases children.len(),
{
    if children.len() == 0 {
        Seq::empty()
    } else if local_name(children[0].name) == local {
        seq![children[0]] + children_named(children.skip(1), local)
    } else {
        children_named(children.skip(1), local)
    }
}

/// The value of the first of `attributes` that is named `name`.
pub open spec fn find_attribute(attributes: Seq<AttributeView>, name: Seq<char>) -> Option<
    Seq<char>,
>
    decreases attributes.len(),
{
    if attributes.len() == 0 {
        None
    } else if attributes[0].name == name {
        Some(attributes[0].value)
    } else {
        find_attribute(attributes.skip(1), name)
    }
}

/// The text of the first child of `e` whose local name is `local`.
pub open spec fn child_text(e: ElementView, local: Seq<char>) -> Option<Seq<char>> {
    match find_child(e.children, local) {
        Some(c) => Some(c.text),
        None => None,
    }
}

/// The texts of `elements`, in order.
pub open spec fn texts_of(elements: Seq<ElementView>) -> Seq<Seq<char>> {
    Seq::new(elements.len(), |i: int| elements[i].text)
}

/// The views of a list of borrowed elements.
pub open spec fn refs_view(v: Seq<&XmlElement>) -> Seq<ElementView> {
    Seq::new(v.len(), |i: int| v[i]@)
}

/// Whether two strings hold the same characters.
pub fn text_eq(a: &str, b: &str) -> (r: bool)
    ensures
        r == (a@ == b@),
{
    let x = chars_of(a);
    let y = chars_of(b);
    if x.len() != y.len() {
        return false;
    }
    let mut i: usize = 0;
    while i < x.len()
        invariant
            i <= x@.len(),
            x@ == a@,
            y@ == b@,
            x@.len() == y@.len(),
            forall|j: int| 0 <= j < i ==> x@[j] == y@[j],
        decreases x@.len() - i,
    {
        if x[i] != y[i] {
            return false;
        }
        i = i + 1;
    }
    assert(x@ =~= y@);
    true
}

/// Whether `name` without its prefix is `local`.
pub fn has_local_name(name: &str, local: &str) -> (r: bool)
    ensures
        r == (local_name(name@) == local@),
{
    let x = chars_of(name);
    let y = chars_of(local);
    assert(x@.skip(0) =~= x@);
    let n = scan(x.as_slice(), 0, CharClass::Prefix);
    let start: usize = if n < x.len() {
        n + 1
    } else {
        0
    };
    let ghost l = local_name(name@);
    assert(l =~= x@.skip(start as int));
    if x.len() - start != y.len() {
        return false;
    }
    let mut i: usize = 0;
    while i < y.len()
        invariant
            i <= y@.len(),
            start <= x@.len() <= usize::MAX,
            x@.len() - start == y@.len(),
            y@ == local@,
            l == local_name(name@),
            l == x@.skip(start as int),
            forall|j: int| 0 <= j < i ==> l[j] == y@[j],
        decreases y@.len() - i,
    {
        assert(l[i as int] == x@[start + i]);
        if x[start + i] != y[i] {
            return false;
        }
        i = i + 1;
    }
    assert(l =~= y@);
    true
}

impl XmlElement {
    /// The first child whose local name is `local`.
    pub fn child(&self, local: &str) -> (r: Option<&XmlElement>)
        ensures
            match find_child(self@.children, local@) {
                Some(c) => r matches Some(x) && x@ == c,
                None => r is None,
            },
    {
        let ghost all = self@.children;
        let mut i: usize = 0;
        proof {
            lemma_view_fields(self);
            assert(all.skip(0) =~= all);
        }
        while i < self.children.len()
            invariant
                i <= self.children@.len(),
                all == self@.children,
                all.len() == self.children@.len(),
                find_child(all, local@) == find_child(all.skip(i as int), local@),
            decreases self.children@.len() - i,
        {
            proof {
                lemma_view_fields(self);
                assert(all.skip(i as int)[0] == self.children@[i as int]@);
                assert(all.skip(i as int).skip(1) =~= all.skip(i + 1));
            }
            if has_local_name(self.children[i].name.as_str(), local) {
                return Some(&self.children[i]);
            }
            i = i + 1;
        }
        None
    }

    /// The children whose local name is `local`, in order.
    pub fn children_named(&self, local: &str) -> (r: Vec<&XmlElement>)
        ensures
            refs_view(r@) == children_named(self@.children, local@),
    {
        let ghost all = self@.children;
        let mut found: Vec<&XmlElement> = Vec::new();
        let mut i: usize = 0;
        proof {
            lemma_view_fields(self);
            assert(all.skip(0) =~= all);
            assert(refs_view(found@) + children_named(all, local@) =~= children_named(
                all,
                local@,
            ));
        }
        while i < self.children.len()
            invariant
                i <= self.children@.len(),
                all == self@.children,
                all.len() == self.children@.len(),
                refs_view(found@) + children_named(all.skip(i as int), local@) == children_named(
                    all,
                    local@,
                ),
            decreases self.children@.len() - i,
        {
            let ghost before = refs_view(found@);
            proof {
                lemma_view_fields(self);
                assert(all.skip(i as int)[0] == self.children@[i as int]@);
                assert(all.skip(i as int).skip(1) =~= all.skip(i + 1));
            }
            if has_local_name(self.children[i].name.as_str(), local) {
                found.push(&self.children[i]);
                assert(refs_view(found@) =~= before + seq![self.children@[i as int]@]);
                assert(refs_view(found@) + children_named(all.skip(i + 1), local@) =~= before
                    + children_named(all.skip(i as int), local@));
            }
            i = i + 1;
        }
        assert(refs_view(found@) + Seq::<ElementView>::empty() =~= refs_view(found@));
        found
    }

    /// The value of the first attribute named `name`.
    pub fn attribute(&self, name: &str) -> (r: Option<&String>)
        ensures
            match find_attribute(self@.attributes, name@) {
                Some(v) => r matches Some(x) && x@ == v,
                None => r is None,
            },
    {
        let ghost all = self@.attributes;
        let mut i: usize = 0;
        proof {
            lemma_view_fields(self);
            assert(all.skip(0) =~= all);
        }
        while i < self.attributes.len()
            invariant
                i <= self.attributes@.len(),
                all == self@.attributes,
                all.len() == self.attributes@.len(),
                find_attribute(all, name@) == find_attribute(all.skip(i as int), name@),
            decreases self.attributes@.len() - i,
        {
            proof {
                lemma_view_fields(self);
                assert(all.skip(i as int)[0] == self.attributes@[i as int]@);
                assert(all.skip(i as int).skip(1) =~= all.skip(i + 1));
            }
            if text_eq(self.attributes[i].name.as_str(), name) {
                return Some(&self.attributes[i].value);
            }
            i = i + 1;
        }
        None
    }

    /// A copy of the text of the first child whose local name is `local`.
    pub fn child_text(&self, local: &str) -> (r: Option<String>)
        ensures
            match child_text(self@, local@) {
                Some(t) => r matches Some(x) && x@ == t,
                None => r is None,
            },
    {
        match self.child(local) {
            Some(c) => {
                proof {
                    lemma_view_fields(c);
                }
                Some(c.text.clone())
            },
            None => None,
        }
    }

    /// Copies of the texts of the children whose local name is `local`.
    pub fn child_texts(&self, local: &str) -> (r: Vec<String>)
        ensures
            strings_view(r@) == texts_of(children_named(self@.children, local@)),
    {
        let found = self.children_named(local);
        let ghost views = refs_view(found@);
        let mut texts: Vec<String> = Vec::new();
        let mut i: usize = 0;
        while i < found.len()
            invariant
                i <= found@.len(),
                views == refs_view(found@),
                texts@.len() == i,
                forall|j: int| 0 <= j < i ==> (#[trigger] texts@[j])@ == views[j].text,
            decreases found@.len() - i,
        {
            proof {
                lemma_view_fields(found[i as int]);
            }
            texts.push(found[i].text.clone());
            i = i + 1;
        }
        assert(strings_view(texts@) =~= texts_of(views));
        texts
    }
}

} // verus!
