//! The `<filter>` element and the filter primitives.

use crate::chars::{str_eq, to_chars};
use crate::dom::{id_str, id_view, Item, ParseNode, Tag};
use crate::dom::error::{Error, ErrorModel};
use crate::dom::node::{
    err_of, first_of, id_attr, id_attr_spec, missing, opt_attr_spec, parse_opt_attr, result_view,
};
use crate::dom::parser::invalid_value;
use crate::dom::parser::length::{number_list_spec, number_spec, parse_number, parse_number_list};
use crate::dom::xml::{lemma_subtree_nested, skip_subtree, subtree_end, XmlKind, XmlNode};
use crate::number::Number;
use std::sync::Arc;
use vstd::prelude::*;

verus! {

/// The `<filter>` element: its primitives in document order.
#[derive(Debug)]
pub struct TagFilter {
    pub filters: Vec<Filter>,
    pub id: Option<String>,
}

/// A filter primitive.
#[derive(Debug, Clone, Copy)]
pub enum Filter {
    GaussianBlur(FeGaussianBlur),
    ColorMatrix(FeColorMatrix),
}

/// The `<feGaussianBlur>` primitive.
#[derive(Clone, Copy, PartialEq, Eq, Structural, Debug)]
pub struct FeGaussianBlur {
    pub std_deviation: Number,
}

/// The number of entries of a colour matrix: five columns of four.
pub const COLOR_MATRIX_ENTRIES: usize = 20;

/// The `<feColorMatrix>` primitive.
#[derive(Debug, Clone, Copy)]
pub enum FeColorMatrix {
    /// The twenty entries, column by column.
    Matrix([Number; 20]),
    /// A rotation of the hue by an angle in degrees.
    HueRotate(Number),
    Saturate(Number),
    LuminanceToAlpha,
}

/// A [`FeColorMatrix`] as plain values.
pub enum FeColorMatrixModel {
    Matrix(Seq<Number>),
    HueRotate(Number),
    Saturate(Number),
    LuminanceToAlpha,
}

impl DeepView for FeColorMatrix {
    type V = FeColorMatrixModel;

    open spec fn deep_view(&self) -> FeColorMatrixModel {
        match *self {
            FeColorMatrix::Matrix(a) => FeColorMatrixModel::Matrix(a@),
            FeColorMatrix::HueRotate(d) => FeColorMatrixModel::HueRotate(d),
            FeColorMatrix::Saturate(s) => FeColorMatrixModel::Saturate(s),
            FeColorMatrix::LuminanceToAlpha => FeColorMatrixModel::LuminanceToAlpha,
        }
    }
}

/// A [`Filter`] as plain values.
pub enum FilterModel {
    GaussianBlur(FeGaussianBlur),
    ColorMatrix(FeColorMatrixModel),
}

impl DeepView for Filter {
    type V = FilterModel;

    open spec fn deep_view(&self) -> FilterModel {
        match *self {
            Filter::GaussianBlur(b) => FilterModel::GaussianBlur(b),
            Filter::ColorMatrix(m) => FilterModel::ColorMatrix(m.deep_view()),
        }
    }
}

/// The twenty entries `values`, which are given row by row, column by column.
pub open spec fn by_columns(values: Seq<Number>) -> Seq<Number> {
    Seq::new(COLOR_MATRIX_ENTRIES as nat, |i: int| values[(i % 4) * 5 + i / 4])
}

/// The number in the `values` attribute of `node`, which must be set.
pub open spec fn single_value_spec(node: XmlNode) -> Result<Number, ErrorModel> {
    match node.attribute_spec("values"@) {
        None => Err(ErrorModel::MissingAttribute("values"@)),
        Some(text) => match number_spec(text) {
            Some(n) => Ok(n),
            None => Err(ErrorModel::InvalidAttributeValue(text)),
        },
    }
}

/// The colour matrix that the element `node` stands for. Its `type` is `matrix` where it
/// is not set; a matrix takes twenty numbers, `saturate` and `hueRotate` take one,
/// `luminanceToAlpha` takes none.
pub open spec fn color_matrix_spec(node: XmlNode) -> Result<FeColorMatrixModel, ErrorModel> {
    let kind = match node.attribute_spec("type"@) {
        Some(k) => k,
        None => "matrix"@,
    };
    if kind == "matrix"@ {
        match node.attribute_spec("values"@) {
            None => Err(ErrorModel::MissingAttribute("values"@)),
            Some(text) => match number_list_spec(text) {
                None => Err(ErrorModel::InvalidAttributeValue(text)),
                Some(values) => if values.len() != COLOR_MATRIX_ENTRIES {
                    Err(ErrorModel::InvalidAttributeValue("expected 20 values"@))
                } else {
                    Ok(FeColorMatrixModel::Matrix(by_columns(values)))
                },
            },
        }
    } else if kind == "saturate"@ {
        match single_value_spec(node) {
            Ok(n) => Ok(FeColorMatrixModel::Saturate(n)),
            Err(e) => Err(e),
        }
    } else if kind == "hueRotate"@ {
        match single_value_spec(node) {
            Ok(n) => Ok(FeColorMatrixModel::HueRotate(n)),
            Err(e) => Err(e),
        }
    } else if kind == "luminanceToAlpha"@ {
        Ok(FeColorMatrixModel::LuminanceToAlpha)
    } else {
        Err(ErrorModel::InvalidAttributeValue("type"@))
    }
}

fn single_value(node: &XmlNode) -> (r: Result<Number, Error>)
    ensures
        match r {
            Ok(n) => single_value_spec(*node) == Ok::<Number, ErrorModel>(n),
            Err(e) => single_value_spec(*node) == Err::<Number, ErrorModel>(e.deep_view()),
        },
{
    match node.attribute("values") {
        None => Err(missing("values")),
        Some(text) => {
            let c = to_chars(text);
            match parse_number(c.as_slice()) {
                Some(n) => Ok(n),
                None => Err(invalid_value(text)),
            }
        },
    }
}

impl ParseNode for FeColorMatrix {
    /// Whether `self` is the colour matrix that the element at `at` stands for.
    open spec fn parsed_from(&self, nodes: Seq<XmlNode>, at: int) -> bool {
        0 <= at < nodes.len() && color_matrix_spec(nodes[at]) == Ok::<_, ErrorModel>(
            self.deep_view(),
        )
    }

    /// Why the element at `at` stands for no colour matrix.
    open spec fn parse_error(nodes: Seq<XmlNode>, at: int) -> Option<ErrorModel> {
        if 0 <= at < nodes.len() {
            err_of(color_matrix_spec(nodes[at]))
        } else {
            None
        }
    }

    /// Reads an `<feColorMatrix>`.
    fn parse_node(nodes: &[XmlNode], at: usize) -> (r: Result<FeColorMatrix, Error>) {
        let node = &nodes[at];
        let kind = match node.attribute("type") {
            Some(k) => k,
            None => "matrix",
        };
        if str_eq(kind, "matrix") {
            let text = match node.attribute("values") {
                Some(t) => t,
                None => {
                    return Err(missing("values"));
                },
            };
            let c = to_chars(text);
            let v = match parse_number_list(c.as_slice()) {
                Some(v) => v,
                None => {
                    return Err(invalid_value(text));
                },
            };
            if v.len() != COLOR_MATRIX_ENTRIES {
                return Err(Error::InvalidAttributeValue("expected 20 values".to_owned()));
            }
            let columns: [Number; 20] = [
                v[0],
                v[5],
                v[10],
                v[15],
                v[1],
                v[6],
                v[11],
                v[16],
                v[2],
                v[7],
                v[12],
                v[17],
                v[3],
                v[8],
                v[13],
                v[18],
                v[4],
                v[9],
                v[14],
                v[19],
            ];
            proof {
                assert(columns@ =~= by_columns(v@));
            }
            Ok(FeColorMatrix::Matrix(columns))
        } else if str_eq(kind, "saturate") {
            match single_value(node) {
                Ok(n) => Ok(FeColorMatrix::Saturate(n)),
                Err(e) => Err(e),
            }
        } else if str_eq(kind, "hueRotate") {
            match single_value(node) {
                Ok(n) => Ok(FeColorMatrix::HueRotate(n)),
                Err(e) => Err(e),
            }
        } else if str_eq(kind, "luminanceToAlpha") {
            Ok(FeColorMatrix::LuminanceToAlpha)
        } else {
            Err(Error::InvalidAttributeValue("type".to_owned()))
        }
    }
}

/// The blur that the element `node` stands for: its standard deviation is `0` where it is
/// not set.
pub open spec fn gaussian_blur_spec(node: XmlNode) -> Result<FeGaussianBlur, ErrorModel> {
    match opt_attr_spec::<Number>(node, "stdDeviation"@) {
        Ok(Some(std_deviation)) => Ok(FeGaussianBlur { std_deviation }),
        Ok(None) => Ok(FeGaussianBlur { std_deviation: Number::zero_spec() }),
        Err(e) => Err(e),
    }
}

impl ParseNode for FeGaussianBlur {
    /// Whether `self` is the blur that the element at `at` stands for.
    open spec fn parsed_from(&self, nodes: Seq<XmlNode>, at: int) -> bool {
        0 <= at < nodes.len() && gaussian_blur_spec(nodes[at]) == Ok::<_, ErrorModel>(*self)
    }

    /// Why the element at `at` stands for no blur.
    open spec fn parse_error(nodes: Seq<XmlNode>, at: int) -> Option<ErrorModel> {
        if 0 <= at < nodes.len() {
            err_of(gaussian_blur_spec(nodes[at]))
        } else {
            None
        }
    }

    /// Reads an `<feGaussianBlur>`.
    fn parse_node(nodes: &[XmlNode], at: usize) -> (r: Result<FeGaussianBlur, Error>) {
        let node = &nodes[at];
        match parse_opt_attr::<Number>(node, "stdDeviation") {
            Ok(v) => {
                proof {
                    assert(v.deep_view() == v) by {
                        if v is Some {
                            assert(v->0.deep_view() == v->0);
                        }
                    }
                }
                match v {
                    Some(std_deviation) => Ok(FeGaussianBlur { std_deviation }),
                    None => Ok(FeGaussianBlur { std_deviation: Number::zero() }),
                }
            },
            Err(e) => Err(e),
        }
    }
}

/// The filter primitive that the node stands for: `None` for what is no primitive that is
/// known.
pub open spec fn primitive_spec(node: XmlNode) -> Result<Option<FilterModel>, ErrorModel> {
    if node.kind != XmlKind::Element {
        Ok(None)
    } else if node.name@ == "feGaussianBlur"@ {
        match gaussian_blur_spec(node) {
            Ok(b) => Ok(Some(FilterModel::GaussianBlur(b))),
            Err(e) => Err(e),
        }
    } else if node.name@ == "feColorMatrix"@ {
        match color_matrix_spec(node) {
            Ok(m) => Ok(Some(FilterModel::ColorMatrix(m))),
            Err(e) => Err(e),
        }
    } else {
        Ok(None)
    }
}

fn parse_primitive(nodes: &[XmlNode], at: usize) -> (r: Result<Option<Filter>, Error>)
    requires
        at < nodes@.len(),
    ensures
        match r {
            Ok(Some(f)) => primitive_spec(nodes@[at as int]) == Ok::<
                Option<FilterModel>,
                ErrorModel,
            >(Some(f.deep_view())),
            Ok(None) => primitive_spec(nodes@[at as int]) == Ok::<Option<FilterModel>, ErrorModel>(
                None,
            ),
            Err(e) => primitive_spec(nodes@[at as int]) == Err::<Option<FilterModel>, ErrorModel>(
                e.deep_view(),
            ),
        },
{
    let node = &nodes[at];
    if !matches!(node.kind, XmlKind::Element) {
        Ok(None)
    } else if str_eq(node.name.as_str(), "feGaussianBlur") {
        match FeGaussianBlur::parse_node(nodes, at) {
            Ok(b) => Ok(Some(Filter::GaussianBlur(b))),
            Err(e) => Err(e),
        }
    } else if str_eq(node.name.as_str(), "feColorMatrix") {
        match FeColorMatrix::parse_node(nodes, at) {
            Ok(m) => Ok(Some(Filter::ColorMatrix(m))),
            Err(e) => Err(e),
        }
    } else {
        Ok(None)
    }
}

/// The filter primitives among the nodes directly beneath a node, from the child at `from`
/// to `end`, in document order; or the error of the first one that cannot be read.
pub open spec fn primitives_from(nodes: Seq<XmlNode>, from: int, end: int) -> Result<
    Seq<FilterModel>,
    ErrorModel,
>
    decreases end - from,
{
    if from >= end || from < 0 || from >= nodes.len() {
        Ok(Seq::empty())
    } else {
        let next = if from < subtree_end(nodes, from) <= end {
            subtree_end(nodes, from)
        } else {
            end
        };
        match primitive_spec(nodes[from]) {
            Err(e) => Err(e),
            Ok(found) => match primitives_from(nodes, next, end) {
                Err(e) => Err(e),
                Ok(rest) => match found {
                    Some(f) => Ok(seq![f] + rest),
                    None => Ok(rest),
                },
            },
        }
    }
}

/// The primitives of the filter at `at`.
pub open spec fn primitives_spec(nodes: Seq<XmlNode>, at: int) -> Result<
    Seq<FilterModel>,
    ErrorModel,
> {
    primitives_from(nodes, at + 1, subtree_end(nodes, at))
}

fn parse_primitives(nodes: &[XmlNode], at: usize) -> (r: Result<Vec<Filter>, Error>)
    requires
        at < nodes@.len(),
    ensures
        result_view(r) == primitives_spec(nodes@, at as int),
{
    let mut filters: Vec<Filter> = Vec::new();
    let end = skip_subtree(nodes, at);
    let mut c: usize = at + 1;
    proof {
        assert(filters.deep_view() =~= Seq::empty());
        assert(Seq::<FilterModel>::empty() + Seq::<FilterModel>::empty() =~= Seq::<
            FilterModel,
        >::empty());
    }
    while c < end
        invariant
            at < c,
            c <= end <= nodes@.len(),
            end == subtree_end(nodes@, at as int),
            primitives_from(nodes@, at + 1, end as int) == (match primitives_from(
                nodes@,
                c as int,
                end as int,
            ) {
                Ok(rest) => Ok(filters.deep_view() + rest),
                Err(e) => Err(e),
            }),
        decreases end - c,
    {
        proof {
            lemma_subtree_nested(nodes@, at as int, c as int);
        }
        let next = skip_subtree(nodes, c);
        match parse_primitive(nodes, c) {
            Err(e) => {
                return Err(e);
            },
            Ok(None) => {},
            Ok(Some(f)) => {
                let ghost before = filters.deep_view();
                let ghost model = f.deep_view();
                proof {
                    match primitives_from(nodes@, next as int, end as int) {
                        Ok(rest) => {
                            assert(before.push(model) + rest =~= before + (seq![model] + rest));
                        },
                        Err(_) => {},
                    }
                }
                filters.push(f);
                proof {
                    assert(filters.deep_view() =~= before.push(model));
                }
            },
        }
        c = next;
    }
    proof {
        assert(filters.deep_view() + Seq::<FilterModel>::empty() =~= filters.deep_view());
    }
    Ok(filters)
}

impl ParseNode for TagFilter {
    /// Whether the fields of `self` are what the element at `at` sets them to.
    #[verifier::opaque]
    open spec fn parsed_from(&self, nodes: Seq<XmlNode>, at: int) -> bool {
        &&& primitives_spec(nodes, at) == Ok::<_, ErrorModel>(self.filters.deep_view())
        &&& id_attr_spec(nodes[at]) == Ok::<_, ErrorModel>(self.id.deep_view())
    }

    /// The error of the first primitive of the filter at `at` that cannot be read.
    #[verifier::opaque]
    open spec fn parse_error(nodes: Seq<XmlNode>, at: int) -> Option<ErrorModel> {
        first_of(err_of(primitives_spec(nodes, at)), err_of(id_attr_spec(nodes[at])))
    }

    /// Reads a `<filter>`. A primitive that is not known is left out.
    fn parse_node(nodes: &[XmlNode], at: usize) -> (r: Result<TagFilter, Error>) {
        reveal(<TagFilter as ParseNode>::parsed_from);
        reveal(<TagFilter as ParseNode>::parse_error);
        let filters = match parse_primitives(nodes, at) {
            Ok(v) => v,
            Err(e) => {
                return Err(e);
            },
        };
        let id = match id_attr(&nodes[at]) {
            Ok(v) => v,
            Err(e) => {
                return Err(e);
            },
        };
        Ok(TagFilter { id, filters })
    }
}

impl Tag for TagFilter {
    open spec fn id_spec(&self) -> Option<Seq<char>> {
        id_view(self.id)
    }

    open spec fn children_spec(&self) -> Seq<Arc<Item>> {
        Seq::empty()
    }

    fn id(&self) -> (r: Option<&str>) {
        id_str(&self.id)
    }

    fn children(&self) -> (r: &[Arc<Item>]) {
        &[]
    }
}

} // verus!
