//! An attribute together with the directives that animate it.

use crate::dom::animate::{animate_spec, Animate, AnimateModel};
use crate::dom::error::{Error, ErrorModel};
use crate::dom::util::{Duplicate, LengthX, LengthY, Parse};
use crate::dom::xml::XmlNode;
use vstd::prelude::*;

verus! {

/// A base value and the directives attached to it, in document order.
#[derive(Debug, Clone)]
pub struct Value<T> {
    pub value: T,
    pub animations: Vec<Animate<T>>,
}

/// A [`Value`] as plain values.
pub struct ValueModel<V> {
    pub value: V,
    pub animations: Seq<AnimateModel<V>>,
}

impl<T: DeepView> DeepView for Value<T> {
    type V = ValueModel<T::V>;

    open spec fn deep_view(&self) -> ValueModel<T::V> {
        ValueModel { value: self.value.deep_view(), animations: self.animations.deep_view() }
    }
}

impl<T: Parse + Duplicate> Value<T> {
    /// Reads the directive `node` and puts it after the directives that are there. Where
    /// the directive cannot be read, the value stays as it is.
    pub fn parse_animate_node(&mut self, node: &XmlNode) -> (r: Result<(), Error>)
        ensures
            match r {
                Ok(_) => animate_spec::<T>(*node, old(self).value.deep_view()) matches Ok(a)
                    && final(self).deep_view() == (ValueModel {
                    value: old(self).value.deep_view(),
                    animations: old(self).animations.deep_view().push(a),
                }),
                Err(e) => animate_spec::<T>(*node, old(self).value.deep_view()) == Err::<
                    AnimateModel<T::V>,
                    ErrorModel,
                >(e.deep_view()) && final(self).deep_view() == old(self).deep_view(),
            },
    {
        match Animate::parse_animate(node, &self.value) {
            Ok(a) => {
                let ghost before = self.animations.deep_view();
                let ghost model = a.deep_view();
                self.animations.push(a);
                proof {
                    assert(self.animations.deep_view() =~= before.push(model));
                }
                Ok(())
            },
            Err(e) => Err(e),
        }
    }
}

impl<T> Value<T> {
    /// The value `value` with no directive.
    pub fn new(value: T) -> (r: Value<T>)
        ensures
            r.value == value,
            r.animations@.len() == 0,
    {
        Value { value, animations: Vec::new() }
    }
}

/// A pair of animated lengths, one along each axis.
#[derive(Debug, Clone)]
pub struct ValueVector {
    pub x: Value<LengthX>,
    pub y: Value<LengthY>,
}

impl ValueVector {
    pub fn new(x: Value<LengthX>, y: Value<LengthY>) -> (r: ValueVector)
        ensures
            r.x == x,
            r.y == y,
    {
        ValueVector { x, y }
    }
}

} // verus!
