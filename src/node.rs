//! A node of one frame's element tree, with its resolved style.
use vstd::prelude::*;
use crate::attribute::{Attr, resolve, spec_resolve};
use crate::style::ComputedValues;

verus! {

/// One virtual element: its kind, its declared attributes, the style it
/// resolved to under its parent, and its children in order.
pub struct Node<E> {
    element: E,
    attrs: Vec<Attr>,
    parent_style: ComputedValues,
    style: ComputedValues,
    children: Vec<Node<E>>,
}

impl<E> Node<E> {
    pub closed spec fn spec_element(self) -> E {
        self.element
    }

    pub closed spec fn spec_attrs(self) -> Seq<Attr> {
        self.attrs@
    }

    pub closed spec fn spec_parent_style(self) -> ComputedValues {
        self.parent_style
    }

    pub closed spec fn spec_style(self) -> ComputedValues {
        self.style
    }

    pub closed spec fn spec_children(self) -> Seq<Node<E>> {
        self.children@
    }

    /// The style is what the attributes resolve to under the parent's style,
    /// and every child was resolved under this node's style.
    pub open spec fn wf(self) -> bool {
        &&& self.spec_style() == spec_resolve(self.spec_attrs(), self.spec_parent_style())
        &&& forall|i: int|
            0 <= i < self.spec_children().len() ==> (#[trigger] self.spec_children()[i]).spec_parent_style()
                == self.spec_style()
    }

    /// A childless node whose style is resolved under `parent`.
    pub fn new(element: E, attrs: Vec<Attr>, parent: &ComputedValues) -> (r: Node<E>)
        ensures
            r.wf(),
            r.spec_element() == element,
            r.spec_attrs() == attrs@,
            r.spec_parent_style() == *parent,
            r.spec_style() == spec_resolve(attrs@, *parent),
            r.spec_children().len() == 0,
    {
        let style = resolve(&attrs, parent);
        Node { element, attrs, parent_style: *parent, style, children: Vec::new() }
    }

    /// Appends a child that was resolved under this node's style.
    pub fn push_child(&mut self, child: Node<E>)
        requires
            old(self).wf(),
            child.spec_parent_style() == old(self).spec_style(),
        ensures
            final(self).wf(),
            final(self).spec_element() == old(self).spec_element(),
            final(self).spec_attrs() == old(self).spec_attrs(),
            final(self).spec_parent_style() == old(self).spec_parent_style(),
            final(self).spec_style() == old(self).spec_style(),
            final(self).spec_children() == old(self).spec_children().push(child),
    {
        self.children.push(child);
    }

    pub fn element(&self) -> (r: &E)
        ensures
            *r == self.spec_element(),
    {
        &self.element
    }

    pub fn attrs(&self) -> (r: &Vec<Attr>)
        ensures
            r@ == self.spec_attrs(),
    {
        &self.attrs
    }

    /// The resolved style, read-only.
    pub fn style(&self) -> (r: &ComputedValues)
        ensures
            *r == self.spec_style(),
    {
        &self.style
    }

    pub fn children(&self) -> (r: &Vec<Node<E>>)
        ensures
            r@ == self.spec_children(),
    {
        &self.children
    }
}

} // verus!
