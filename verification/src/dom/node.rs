//! How the fields of an element are found in the markup: by attributes, by the declarations
//! of a `style` attribute, and by the directives among the children.

use crate::chars::to_chars;
use crate::dom::animate::{
    animate_spec, transform_animate_spec, AnimateModel, Transform, TransformAnimateModel,
    TransformModel,
};
use crate::dom::error::{Error, ErrorModel};
use crate::dom::outline::{ContourModel, Outline};
use crate::dom::parser::invalid_value;
use crate::dom::parser::length::{parse_points, points_spec};
use crate::dom::parser::path::{parse_path_data, path_data_spec};
use crate::dom::parser::transform::{parse_transform_list, transform_list_spec};
use crate::dom::path::{build_outline, build_points_outline, outline_of, points_outline};
use crate::dom::util::{declarations_view, style_list, style_list_spec, Duplicate, Parse, Rect};
use crate::dom::value::{Value, ValueModel};
use crate::dom::xml::{
    lemma_subtree_nested, skip_subtree, string_view, subtree_end, XmlKind, XmlNode,
};
use crate::geometry::Transform2;
use vstd::prelude::*;

verus! {

/// What reading gives, with the value and the error as plain values.
pub open spec fn result_view<T: DeepView>(r: Result<T, Error>) -> Result<T::V, ErrorModel> {
    match r {
        Ok(v) => Ok(v.deep_view()),
        Err(e) => Err(e.deep_view()),
    }
}

/// The error that says that the attribute `name` is missing.
pub fn missing(name: &str) -> (e: Error)
    ensures
        e.deep_view() == ErrorModel::MissingAttribute(name@),
{
    Error::MissingAttribute(name.to_owned())
}

/// The value of the attribute `attr` of `node`, or the error that says that it is missing.
pub open spec fn get_attr_spec(node: XmlNode, attr: Seq<char>) -> Result<Seq<char>, ErrorModel> {
    match node.attribute_spec(attr) {
        Some(v) => Ok(v),
        None => Err(ErrorModel::MissingAttribute(attr)),
    }
}

/// The value of the attribute `attr`, which must be there.
pub fn get_attr<'a>(node: &'a XmlNode, attr: &str) -> (r: Result<&'a str, Error>)
    ensures
        match r {
            Ok(v) => get_attr_spec(*node, attr@) == Ok::<Seq<char>, ErrorModel>(v@),
            Err(e) => get_attr_spec(*node, attr@) == Err::<Seq<char>, ErrorModel>(e.deep_view()),
        },
{
    match node.attribute(attr) {
        Some(val) => Ok(val),
        None => Err(missing(attr)),
    }
}

/// What the text `text` gives when it is read as a `T`.
pub open spec fn read_as<T: Parse>(text: Seq<char>) -> Result<T::V, ErrorModel> {
    match T::parse_spec(text) {
        Some(v) => Ok(v),
        None => Err(ErrorModel::InvalidAttributeValue(text)),
    }
}

/// Reads `text` as a `T`.
pub fn read<T: Parse>(text: &str) -> (r: Result<T, Error>)
    ensures
        result_view(r) == read_as::<T>(text@),
{
    T::parse(text)
}

/// The value of the attribute `attr` of `node` read as a `T`; the attribute must be there.
pub open spec fn parse_attr_spec<T: Parse>(node: XmlNode, attr: Seq<char>) -> Result<
    T::V,
    ErrorModel,
> {
    match node.attribute_spec(attr) {
        Some(text) => read_as::<T>(text),
        None => Err(ErrorModel::MissingAttribute(attr)),
    }
}

/// The value of the attribute `attr` of `node` read as a `T`, or `default` where the
/// attribute is not there.
pub open spec fn parse_attr_or_spec<T: Parse>(node: XmlNode, attr: Seq<char>, default: T::V) -> Result<
    T::V,
    ErrorModel,
> {
    match node.attribute_spec(attr) {
        Some(text) => read_as::<T>(text),
        None => Ok(default),
    }
}

/// Reads the attribute `attr`, which must be there.
pub fn parse_attr<T: Parse>(node: &XmlNode, attr: &str) -> (r: Result<T, Error>)
    ensures
        result_view(r) == parse_attr_spec::<T>(*node, attr@),
{
    match node.attribute(attr) {
        Some(val) => read::<T>(val),
        None => Err(missing(attr)),
    }
}

/// Reads the attribute `attr`, or gives `default` where it is not there.
pub fn parse_attr_or<T: Parse>(node: &XmlNode, attr: &str, default: T) -> (r: Result<T, Error>)
    ensures
        result_view(r) == parse_attr_or_spec::<T>(*node, attr@, default.deep_view()),
{
    match node.attribute(attr) {
        Some(val) => read::<T>(val),
        None => Ok(default),
    }
}

/// The value of the last declaration among the first `n` of `list` for the property `name`.
pub open spec fn declaration_in(list: Seq<(Seq<char>, Seq<char>)>, name: Seq<char>, n: nat) -> Option<
    Seq<char>,
>
    decreases n,
{
    if n == 0 || n > list.len() {
        None
    } else if list[n - 1].0 == name {
        Some(list[n - 1].1)
    } else {
        declaration_in(list, name, (n - 1) as nat)
    }
}

/// The text that sets the field `name` of the element `node`: the attribute of that name,
/// or else, where there is a `style` attribute, its declaration for that property. An
/// attribute always wins over a declaration.
pub open spec fn field_text(node: XmlNode, name: Seq<char>) -> Option<Seq<char>> {
    match node.attribute_spec(name) {
        Some(v) => Some(v),
        None => match node.attribute_spec("style"@) {
            Some(style) => declaration_in(
                style_list_spec(style),
                name,
                style_list_spec(style).len(),
            ),
            None => None,
        },
    }
}

/// The text that sets the field `name` of the element.
pub fn field(node: &XmlNode, name: &str) -> (r: Option<String>)
    ensures
        string_view(r) == field_text(*node, name@),
{
    match node.attribute(name) {
        Some(v) => Some(v.to_owned()),
        None => match node.attribute("style") {
            Some(style) => {
                let list = style_list(style);
                let key = name.to_owned();
                let mut n: usize = list.len();
                proof {
                    assert(declarations_view(list@).len() == list@.len());
                }
                while n > 0
                    invariant
                        n <= list@.len(),
                        key@ == name@,
                        node.attribute_spec(name@) is None,
                        node.attribute_spec("style"@) == Some(style@),
                        declarations_view(list@).len() == list@.len(),
                        declarations_view(list@) == style_list_spec(style@),
                        declaration_in(style_list_spec(style@), name@, list@.len() as nat)
                            == declaration_in(style_list_spec(style@), name@, n as nat),
                    decreases n,
                {
                    proof {
                        assert(declarations_view(list@)[n - 1] == (
                            list@[n - 1].key@,
                            list@[n - 1].value@,
                        ));
                    }
                    if list[n - 1].key == key {
                        return Some(list[n - 1].value.clone());
                    }
                    n = n - 1;
                }
                None
            },
            None => None,
        },
    }
}

/// The field `name` of `node` read as a `T`, or `default` where nothing sets it.
pub open spec fn parse_field_spec<T: Parse>(node: XmlNode, name: Seq<char>, default: T::V) -> Result<
    T::V,
    ErrorModel,
> {
    match field_text(node, name) {
        Some(text) => read_as::<T>(text),
        None => Ok(default),
    }
}

/// Reads the field `name`, or gives `default` where nothing sets it.
pub fn parse_field<T: Parse>(node: &XmlNode, name: &str, default: T) -> (r: Result<T, Error>)
    ensures
        result_view(r) == parse_field_spec::<T>(*node, name@, default.deep_view()),
{
    match field(node, name) {
        Some(text) => read::<T>(text.as_str()),
        None => Ok(default),
    }
}

/// Whether the node at `at` is a directive: an element called `animate`, `animateColor` or
/// `animateTransform`.
pub open spec fn is_directive(node: XmlNode) -> bool {
    node.kind == XmlKind::Element && (node.name@ == "animate"@ || node.name@ == "animateColor"@
        || node.name@ == "animateTransform"@)
}

/// Whether the node is a directive on the attribute `name`.
pub open spec fn animates(node: XmlNode, name: Seq<char>) -> bool {
    is_directive(node) && node.attribute_spec("attributeName"@) == Some(name)
}

/// Whether the node is a directive on the attribute `name`.
pub fn is_animation_of(node: &XmlNode, name: &str) -> (r: bool)
    ensures
        r == animates(*node, name@),
{
    if !matches!(node.kind, XmlKind::Element) {
        return false;
    }
    let n = node.name.as_str();
    if !(crate::chars::str_eq(n, "animate") || crate::chars::str_eq(n, "animateColor")
        || crate::chars::str_eq(n, "animateTransform")) {
        return false;
    }
    match node.attribute("attributeName") {
        Some(target) => crate::chars::str_eq(target, name),
        None => false,
    }
}

/// The directives on the attribute `name` among the nodes directly beneath a node, from
/// the child at `from` to `end`, in document order, each read against the base value
/// `value`; or the error of the first one that cannot be read.
pub open spec fn animations_from<T: Parse>(
    nodes: Seq<XmlNode>,
    from: int,
    end: int,
    name: Seq<char>,
    value: T::V,
) -> Result<Seq<AnimateModel<T::V>>, ErrorModel>
    decreases end - from,
{
    if from >= end || from < 0 || from >= nodes.len() {
        Ok(Seq::empty())
    } else {
        let next = if from < subtree_end(nodes, from) <= end {
            subtree_end(nodes, from)
        } else {
            end
        };
        let rest = animations_from::<T>(nodes, next, end, name, value);
        if animates(nodes[from], name) {
            match animate_spec::<T>(nodes[from], value) {
                Err(e) => Err(e),
                Ok(a) => match rest {
                    Err(e) => Err(e),
                    Ok(r) => Ok(seq![a] + r),
                },
            }
        } else {
            rest
        }
    }
}

/// The animated field `name` of the element at `at`: its base value, read from the
/// attribute or the style declaration (`default` where nothing sets it), and the
/// directives on it among the children of the element, in document order.
pub open spec fn anim_field_spec<T: Parse>(nodes: Seq<XmlNode>, at: int, name: Seq<char>, default: T::V) -> Result<
    ValueModel<T::V>,
    ErrorModel,
> {
    match parse_field_spec::<T>(nodes[at], name, default) {
        Err(e) => Err(e),
        Ok(value) => match animations_from::<T>(nodes, at + 1, subtree_end(nodes, at), name, value) {
            Err(e) => Err(e),
            Ok(animations) => Ok(ValueModel { value, animations }),
        },
    }
}

/// Reads the animated field `name` of the element at `at`.
pub fn parse_anim<T: Parse + Duplicate>(nodes: &[XmlNode], at: usize, name: &str, default: T) -> (r:
    Result<Value<T>, Error>)
    requires
        at < nodes@.len(),
    ensures
        result_view(r) == anim_field_spec::<T>(nodes@, at as int, name@, default.deep_view()),
{
    let ghost fallback = default.deep_view();
    let base = match parse_field::<T>(&nodes[at], name, default) {
        Ok(v) => v,
        Err(e) => {
            return Err(e);
        },
    };
    let ghost start = base.deep_view();
    let mut value = Value::new(base);
    let end = skip_subtree(nodes, at);
    let mut c: usize = at + 1;
    proof {
        assert(value.animations.deep_view() =~= Seq::empty());
        assert(Seq::<AnimateModel<T::V>>::empty() + Seq::<AnimateModel<T::V>>::empty()
            =~= Seq::<AnimateModel<T::V>>::empty());
    }
    while c < end
        invariant
            at < c,
            c <= end <= nodes@.len(),
            end == subtree_end(nodes@, at as int),
            c < end ==> at < c < subtree_end(nodes@, at as int),
            value.value.deep_view() == start,
            fallback == default.deep_view(),
            parse_field_spec::<T>(nodes@[at as int], name@, fallback) == Ok::<T::V, ErrorModel>(
                start,
            ),
            animations_from::<T>(nodes@, at + 1, end as int, name@, start) == (
            match animations_from::<T>(nodes@, c as int, end as int, name@, start) {
                Ok(rest) => Ok(value.animations.deep_view() + rest),
                Err(e) => Err(e),
            }),
        decreases end - c,
    {
        proof {
            lemma_subtree_nested(nodes@, at as int, c as int);
        }
        let next = skip_subtree(nodes, c);
        if is_animation_of(&nodes[c], name) {
            let ghost before = value.animations.deep_view();
            match value.parse_animate_node(&nodes[c]) {
                Ok(_) => {
                    proof {
                        let a = value.animations.deep_view().last();
                        match animations_from::<T>(nodes@, next as int, end as int, name@, start) {
                            Ok(rest) => {
                                assert(before.push(a) + rest =~= before + (seq![a] + rest));
                            },
                            Err(_) => {},
                        }
                    }
                },
                Err(e) => {
                    proof {
                        assert(animations_from::<T>(nodes@, c as int, end as int, name@, start)
                            == Err::<Seq<AnimateModel<T::V>>, ErrorModel>(e.deep_view()));
                    }
                    return Err(e);
                },
            }
        }
        c = next;
    }
    proof {
        assert(value.animations.deep_view() + Seq::<AnimateModel<T::V>>::empty()
            =~= value.animations.deep_view());
    }
    Ok(value)
}

/// The directives on the transform among the nodes directly beneath a node, from the child
/// at `from` to `end`, in document order; or the error of the first one that cannot be
/// read.
pub open spec fn transform_animations_from(nodes: Seq<XmlNode>, from: int, end: int) -> Result<
    Seq<TransformAnimateModel>,
    ErrorModel,
>
    decreases end - from,
{
    if from >= end || from < 0 || from >= nodes.len() {
        Ok(Seq::empty())
    } else {
        let next = if from < subtree_end(nodes, from) <= end {
            subtree_end(nodes, from)
        } else {
            end
        };
        let rest = transform_animations_from(nodes, next, end);
        if animates(nodes[from], "transform"@) {
            match transform_animate_spec(nodes[from]) {
                Err(e) => Err(e),
                Ok(a) => match rest {
                    Err(e) => Err(e),
                    Ok(r) => Ok(seq![a] + r),
                },
            }
        } else {
            rest
        }
    }
}

/// The `transform` of the element at `at`: the map that its attribute or style
/// declaration stands for (the map that changes nothing where it is not set), and the
/// directives on it among the children of the element.
pub open spec fn transform_field_spec(nodes: Seq<XmlNode>, at: int) -> Result<
    TransformModel,
    ErrorModel,
> {
    let value = match field_text(nodes[at], "transform"@) {
        Some(text) => match transform_list_spec(text) {
            Some(t) => Ok(t),
            None => Err(ErrorModel::InvalidAttributeValue(text)),
        },
        None => Ok(Transform2::identity_spec()),
    };
    match value {
        Err(e) => Err(e),
        Ok(value) => match transform_animations_from(nodes, at + 1, subtree_end(nodes, at)) {
            Err(e) => Err(e),
            Ok(animations) => Ok(TransformModel { value, animations }),
        },
    }
}

/// Reads the `transform` of the element at `at`.
pub fn parse_transform(nodes: &[XmlNode], at: usize) -> (r: Result<Transform, Error>)
    requires
        at < nodes@.len(),
    ensures
        result_view(r) == transform_field_spec(nodes@, at as int),
{
    let mut value = match field(&nodes[at], "transform") {
        Some(text) => match Transform::parse(text.as_str()) {
            Ok(t) => t,
            Err(e) => {
                return Err(e);
            },
        },
        None => Transform::default(),
    };
    let ghost base = value.value;
    let end = skip_subtree(nodes, at);
    let mut c: usize = at + 1;
    proof {
        assert(value.animations.deep_view() =~= Seq::empty());
        assert(Seq::<TransformAnimateModel>::empty() + Seq::<TransformAnimateModel>::empty()
            =~= Seq::<TransformAnimateModel>::empty());
    }
    while c < end
        invariant
            at < c,
            c <= end <= nodes@.len(),
            end == subtree_end(nodes@, at as int),
            value.value == base,
            match field_text(nodes@[at as int], "transform"@) {
                Some(text) => transform_list_spec(text) == Some(base),
                None => base == Transform2::identity_spec(),
            },
            transform_animations_from(nodes@, at + 1, end as int) == (
            match transform_animations_from(nodes@, c as int, end as int) {
                Ok(rest) => Ok(value.animations.deep_view() + rest),
                Err(e) => Err(e),
            }),
        decreases end - c,
    {
        proof {
            lemma_subtree_nested(nodes@, at as int, c as int);
        }
        let next = skip_subtree(nodes, c);
        if is_animation_of(&nodes[c], "transform") {
            let ghost before = value.animations.deep_view();
            match value.parse_animate_node(&nodes[c]) {
                Ok(_) => {
                    proof {
                        let a = value.animations.deep_view().last();
                        match transform_animations_from(nodes@, next as int, end as int) {
                            Ok(rest) => {
                                assert(before.push(a) + rest =~= before + (seq![a] + rest));
                            },
                            Err(_) => {},
                        }
                    }
                },
                Err(e) => {
                    proof {
                        assert(transform_animations_from(nodes@, c as int, end as int) == Err::<
                            Seq<TransformAnimateModel>,
                            ErrorModel,
                        >(e.deep_view()));
                    }
                    return Err(e);
                },
            }
        }
        c = next;
    }
    proof {
        assert(value.animations.deep_view() + Seq::<TransformAnimateModel>::empty()
            =~= value.animations.deep_view());
    }
    Ok(value)
}

/// The `id` attribute of the element, as it stands.
pub open spec fn id_attr_spec(node: XmlNode) -> Result<Option<Seq<char>>, ErrorModel> {
    Ok(node.attribute_spec("id"@))
}

/// The `id` attribute of the element.
pub fn id_attr(node: &XmlNode) -> (r: Result<Option<String>, Error>)
    ensures
        result_view(r) == id_attr_spec(*node),
{
    let id = node_id(node);
    proof {
        assert(id.deep_view() == string_view(id)) by {
            if id is Some {
                assert(id->0.deep_view() == id->0@);
            }
        }
    }
    Ok(id)
}

/// The reference in the `xlink:href` attribute of the element.
pub open spec fn href_field_spec(node: XmlNode) -> Result<Option<Seq<char>>, ErrorModel> {
    Ok(node.href_spec())
}

/// The reference in the `xlink:href` attribute of the element.
pub fn href_field(node: &XmlNode) -> (r: Result<Option<String>, Error>)
    ensures
        result_view(r) == href_field_spec(*node),
{
    let href = crate::dom::xml::href(node);
    proof {
        assert(href.deep_view() == string_view(href)) by {
            if href is Some {
                assert(href->0.deep_view() == href->0@);
            }
        }
    }
    Ok(href)
}

/// The attribute `attr` of `node` read as a `T`, where it is there.
pub open spec fn opt_attr_spec<T: Parse>(node: XmlNode, attr: Seq<char>) -> Result<
    Option<T::V>,
    ErrorModel,
> {
    match node.attribute_spec(attr) {
        Some(text) => match read_as::<T>(text) {
            Ok(v) => Ok(Some(v)),
            Err(e) => Err(e),
        },
        None => Ok(None),
    }
}

/// Reads the attribute `attr`, where it is there.
pub fn parse_opt_attr<T: Parse>(node: &XmlNode, attr: &str) -> (r: Result<Option<T>, Error>)
    ensures
        result_view(r) == opt_attr_spec::<T>(*node, attr@),
{
    match node.attribute(attr) {
        Some(text) => match read::<T>(text) {
            Ok(v) => {
                proof {
                    assert(Some(v).deep_view() == Some(v.deep_view()));
                }
                Ok(Some(v))
            },
            Err(e) => Err(e),
        },
        None => {
            proof {
                assert(None::<T>.deep_view() == None::<T::V>);
            }
            Ok(None)
        },
    }
}

/// The `viewBox` of the element, where it has one.
pub open spec fn view_box_spec(node: XmlNode) -> Result<Option<Rect>, ErrorModel> {
    match node.attribute_spec("viewBox"@) {
        Some(text) => match Rect::parse_spec(text) {
            Ok(r) => Ok(Some(r)),
            Err(short) => if short {
                Err(ErrorModel::TooShort)
            } else {
                Err(ErrorModel::InvalidAttributeValue(text))
            },
        },
        None => Ok(None),
    }
}

/// Reads the `viewBox` of the element.
pub fn parse_view_box(node: &XmlNode) -> (r: Result<Option<Rect>, Error>)
    ensures
        result_view(r) == view_box_spec(*node),
{
    proof {
        assert(forall|v: Option<Rect>| v.deep_view() == v) by {
            assert forall|v: Option<Rect>| v.deep_view() == v by {
                if v is Some {
                    assert(v->0.deep_view() == v->0);
                }
            }
        }
    }
    match node.attribute("viewBox") {
        Some(text) => match Rect::parse(text) {
            Ok(r) => Ok(Some(r)),
            Err(e) => Err(e),
        },
        None => Ok(None),
    }
}

/// The `gradientTransform` of the element, where it has one.
pub open spec fn gradient_transform_spec(node: XmlNode) -> Result<Option<Transform2>, ErrorModel> {
    match node.attribute_spec("gradientTransform"@) {
        Some(text) => match transform_list_spec(text) {
            Some(t) => Ok(Some(t)),
            None => Err(ErrorModel::InvalidAttributeValue(text)),
        },
        None => Ok(None),
    }
}

/// Reads the `gradientTransform` of the element.
pub fn parse_gradient_transform(node: &XmlNode) -> (r: Result<Option<Transform2>, Error>)
    ensures
        result_view(r) == gradient_transform_spec(*node),
{
    proof {
        assert(forall|v: Option<Transform2>| v.deep_view() == v) by {
            assert forall|v: Option<Transform2>| v.deep_view() == v by {
                if v is Some {
                    assert(v->0.deep_view() == v->0);
                }
            }
        }
    }
    match node.attribute("gradientTransform") {
        Some(text) => {
            let c = to_chars(text);
            match parse_transform_list(c.as_slice()) {
                Some(t) => Ok(Some(t)),
                None => Err(invalid_value(text)),
            }
        },
        None => Ok(None),
    }
}

/// The outline through the points of the `points` attribute of the element; one without
/// any contour where the attribute is missing or holds no point.
pub open spec fn points_field_spec(node: XmlNode) -> Result<Seq<ContourModel>, ErrorModel> {
    match node.attribute_spec("points"@) {
        Some(text) => Ok(points_outline(points_spec(text))),
        None => Ok(points_outline(Seq::empty())),
    }
}

/// Reads the `points` attribute of the element into an outline.
pub fn parse_points_field(node: &XmlNode) -> (r: Result<Outline, Error>)
    ensures
        result_view(r) == points_field_spec(*node),
{
    match node.attribute("points") {
        Some(text) => {
            let c = to_chars(text);
            let points = parse_points(c.as_slice());
            Ok(build_points_outline(&points))
        },
        None => {
            let points: Vec<crate::geometry::Vector2> = Vec::new();
            Ok(build_points_outline(&points))
        },
    }
}

/// The outline that the path data in the `d` attribute of the element draws; one without
/// any contour where the attribute is missing.
pub open spec fn path_field_spec(node: XmlNode) -> Result<Seq<ContourModel>, ErrorModel> {
    match node.attribute_spec("d"@) {
        Some(text) => match path_data_spec(text) {
            Some(segments) => Ok(outline_of(segments)),
            None => Err(ErrorModel::InvalidAttributeValue(text)),
        },
        None => Ok(Seq::empty()),
    }
}

/// Reads the `d` attribute of the element into an outline.
pub fn parse_path_field(node: &XmlNode) -> (r: Result<Outline, Error>)
    ensures
        result_view(r) == path_field_spec(*node),
{
    match node.attribute("d") {
        Some(text) => {
            let c = to_chars(text);
            match parse_path_data(c.as_slice()) {
                Some(segments) => Ok(build_outline(&segments)),
                None => Err(invalid_value(text)),
            }
        },
        None => Ok(Outline::new()),
    }
}

/// The first of two errors.
pub open spec fn first_of(a: Option<ErrorModel>, b: Option<ErrorModel>) -> Option<ErrorModel> {
    match a {
        Some(_) => a,
        None => b,
    }
}

/// The error of a result, if it is one.
pub open spec fn err_of<V>(r: Result<V, ErrorModel>) -> Option<ErrorModel> {
    match r {
        Ok(_) => None,
        Err(e) => Some(e),
    }
}

/// The id that the element carries in its `id` attribute.
pub fn node_id(node: &XmlNode) -> (r: Option<String>)
    ensures
        string_view(r) == node.attribute_spec("id"@),
{
    match node.attribute("id") {
        Some(s) => Some(s.to_owned()),
        None => None,
    }
}

} // verus!
