//! The API description as the `openapiv3` crate holds it, and the few
//! operations on it that the rest of the library is built from.
//!
//! Verus does not look inside the types of `openapiv3`. What the library
//! needs to know of a value of such a type has a name here, and each function
//! below that touches such a value is believed, not proved: its doc comment
//! says which outside operation it stands for and what is claimed of it.

use vstd::prelude::*;
use openapiv3::{
    OpenAPI, Parameter, ParameterSchemaOrContent, PathItem, Paths, ReferenceOr, Schema, SchemaKind,
    Type,
};
use crate::inject::PARAMETER_TEMPLATE;
use crate::template::TEMPLATE;

verus! {

/// `openapiv3::OpenAPI`, a whole API description. Opaque to Verus.
#[verifier::external_type_specification]
#[verifier::external_body]
pub struct ExOpenAPI(openapiv3::OpenAPI);

/// `openapiv3::Paths`, the route table of a description. Opaque to Verus.
#[verifier::external_type_specification]
#[verifier::external_body]
pub struct ExPaths(openapiv3::Paths);

/// `openapiv3::PathItem`, the operations and parameters of one route.
/// Opaque to Verus.
#[verifier::external_type_specification]
#[verifier::external_body]
pub struct ExPathItem(openapiv3::PathItem);

/// `openapiv3::ReferenceOr`, a value given in place or by reference to a
/// shared definition. Opaque to Verus.
#[verifier::external_type_specification]
#[verifier::external_body]
#[verifier::reject_recursive_types(T)]
pub struct ExReferenceOr<T>(openapiv3::ReferenceOr<T>);

/// `openapiv3::Parameter`, one parameter of a route. Opaque to Verus.
#[verifier::external_type_specification]
#[verifier::external_body]
pub struct ExParameter(openapiv3::Parameter);

/// `serde_json::Error`, what a failed parse or a failed rendering gives.
/// Opaque to Verus.
#[verifier::external_type_specification]
#[verifier::external_body]
pub struct ExJsonError(serde_json::Error);

/// Where a parameter is passed.
#[derive(Clone, Copy, Debug, PartialEq, Eq, Structural)]
pub enum Location {
    Query,
    Header,
    Path,
    Cookie,
}

/// The type that a parameter's schema gives to its value, as far as the
/// library tells types apart.
#[derive(Clone, Copy, Debug, PartialEq, Eq, Structural)]
pub enum SchemaType {
    /// The schema is given in place and is of the string type.
    String,
    /// Anything else: another type, a schema by reference, or a parameter
    /// described by content.
    Other,
}

/// What the library reads of a parameter.
#[derive(Debug)]
pub struct ParameterFacts {
    pub location: Location,
    pub name: String,
    pub required: bool,
    pub schema: SchemaType,
}

/// What the library reads of a parameter, as a mathematical value.
pub struct ParameterShape {
    pub location: Location,
    pub name: Seq<char>,
    pub required: bool,
    pub schema: SchemaType,
}

impl View for ParameterFacts {
    type V = ParameterShape;

    open spec fn view(&self) -> ParameterShape {
        ParameterShape {
            location: self.location,
            name: self.name@,
            required: self.required,
            schema: self.schema,
        }
    }
}

/// One place in the parameter list of a route: a parameter given in place,
/// or a reference to a shared definition.
pub enum ParameterSlot {
    Inline(Parameter),
    Reference(Seq<char>),
}

/// `parameters`, each as a place of a parameter list that gives it in place.
pub open spec fn in_place(parameters: Seq<Parameter>) -> Seq<ParameterSlot> {
    Seq::new(parameters.len(), |i: int| ParameterSlot::Inline(parameters[i]))
}

/// Routes as mathematical values: each route path by its characters, each
/// entry as it is.
pub open spec fn keyed<V>(entries: Seq<(String, V)>) -> Seq<(Seq<char>, V)> {
    Seq::new(entries.len(), |i: int| (entries[i].0@, entries[i].1))
}

/// The route paths of `entries`, in their order.
pub open spec fn keys<V>(entries: Seq<(Seq<char>, V)>) -> Seq<Seq<char>> {
    Seq::new(entries.len(), |i: int| entries[i].0)
}

/// What parsing `text` as an API description gives; `None` where `text` is
/// not the JSON form of a description. The library asks for it of the
/// template only.
pub uninterp spec fn parsed_document(text: Seq<char>) -> Option<OpenAPI>;

/// The JSON form of `document`; `None` where it has none.
pub uninterp spec fn serialized_document(document: OpenAPI) -> Option<Seq<char>>;

/// The route table of `document`.
pub uninterp spec fn document_paths(document: OpenAPI) -> Paths;

/// The description `document` with `paths` in place of its route table, and
/// everything else that it holds kept.
pub uninterp spec fn document_with_paths(document: OpenAPI, paths: Paths) -> OpenAPI;

/// Parses the description's template from its JSON form:
/// `serde_json::from_str` at the type `openapiv3::OpenAPI`. Claimed: on the
/// template the call returns, and its outcome depends on the text alone.
/// Nothing is claimed of whether the template parses, nor of what it gives.
///
/// Only the template is admitted. The parser of `openapiv3::ReferenceOr`
/// panics on some texts, such as one that gives a key twice in an object
/// where a route entry is expected, and no short condition tells all of them
/// apart. That the call returns on the template is what every test that
/// loads it shows.
#[verifier::external_body]
pub(crate) fn parse_document(text: &str) -> (parsed: Result<OpenAPI, serde_json::Error>)
    requires
        text@ == TEMPLATE@,
    ensures
        match parsed {
            Ok(document) => parsed_document(text@) == Some(document),
            Err(_) => parsed_document(text@) is None,
        },
{
    serde_json::from_str(text)
}

/// Renders an API description in its JSON form: `serde_json::to_string`.
/// Claimed: the outcome depends on the description alone. Nothing is claimed
/// of which descriptions can be rendered, nor of the text.
#[verifier::external_body]
pub(crate) fn serialize_document(document: &OpenAPI) -> (text: Result<String, serde_json::Error>)
    ensures
        match text {
            Ok(body) => serialized_document(*document) == Some(body@),
            Err(_) => serialized_document(*document) is None,
        },
{
    serde_json::to_string(document)
}

/// A copy of the route table of a description: `Clone::clone` of the field
/// `paths` of `openapiv3::OpenAPI`. Claimed: the copy is the route table.
#[verifier::external_body]
pub(crate) fn copy_paths(document: &OpenAPI) -> (paths: Paths)
    ensures
        paths == document_paths(*document),
{
    document.paths.clone()
}

/// Puts a route table in place of that of a description: an assignment to
/// the field `paths` of `openapiv3::OpenAPI`. Claimed: the description then
/// has that route table, and nothing else of it has changed.
#[verifier::external_body]
pub(crate) fn replace_paths(document: &mut OpenAPI, paths: Paths)
    ensures
        *final(document) == document_with_paths(*old(document), paths),
        document_paths(*final(document)) == paths,
{
    document.paths = paths;
}

/// The routes that a table holds, in the table's own order: each route path
/// with the entry that stands under it.
pub uninterp spec fn routes(paths: Paths) -> Seq<(Seq<char>, ReferenceOr<PathItem>)>;

/// The table `paths` with `entries` in place of its routes, and everything
/// else that it holds kept.
pub uninterp spec fn paths_with_routes(
    paths: Paths,
    entries: Seq<(Seq<char>, ReferenceOr<PathItem>)>,
) -> Paths;

/// Copies the routes out of a table: `Clone::clone` and `IntoIterator::into_iter`
/// of `openapiv3::Paths`, collected into a vector. Claimed: the vector holds
/// the table's routes in the table's order, and, the table being a map, no
/// route path occurs twice.
#[verifier::external_body]
pub(crate) fn route_entries(paths: &Paths) -> (entries: Vec<(String, ReferenceOr<PathItem>)>)
    ensures
        keyed(entries@) == routes(*paths),
        keys(keyed(entries@)).no_duplicates(),
{
    paths.clone().into_iter().collect()
}

/// Puts `entries` in place of the routes of a table: `FromIterator::from_iter`
/// of `indexmap::IndexMap`, assigned to the field `paths`. Claimed, for
/// route paths that are all different: the table then holds exactly
/// `entries`, in their order, and nothing else of it has changed.
#[verifier::external_body]
pub(crate) fn replace_routes(paths: &mut Paths, entries: Vec<(String, ReferenceOr<PathItem>)>)
    requires
        keys(keyed(entries@)).no_duplicates(),
    ensures
        *final(paths) == paths_with_routes(*old(paths), keyed(entries@)),
        routes(*final(paths)) == keyed(entries@),
{
    paths.paths = entries.into_iter().collect();
}

/// The parameter list of a route entry that is given in place; `None` for an
/// entry that refers to a shared definition.
pub uninterp spec fn entry_parameters(entry: ReferenceOr<PathItem>) -> Option<Seq<ParameterSlot>>;

/// The route entry `entry` with `parameters` added in place at the end of
/// its parameter list, and everything else that it holds kept.
pub uninterp spec fn entry_with_parameters(
    entry: ReferenceOr<PathItem>,
    parameters: Seq<Parameter>,
) -> ReferenceOr<PathItem>;

/// What parsing `text` as one parameter gives; `None` where `text` is not
/// the JSON form of a parameter. The library asks for it of the template of
/// the mandatory parameters only.
pub uninterp spec fn parsed_parameter(text: Seq<char>) -> Option<Parameter>;

/// What the library reads of `parameter`.
pub uninterp spec fn parameter_shape(parameter: Parameter) -> ParameterShape;

/// The parameter `parameter` under the name `name`, all else kept.
pub uninterp spec fn parameter_named(parameter: Parameter, name: Seq<char>) -> Parameter;

/// Tells the two variants of `openapiv3::ReferenceOr` apart. Claimed: the
/// result is true for an entry given in place and false for a reference.
#[verifier::external_body]
pub(crate) fn is_item(entry: &ReferenceOr<PathItem>) -> (item: bool)
    ensures
        item == entry_parameters(*entry) is Some,
{
    match entry {
        ReferenceOr::Item(_) => true,
        ReferenceOr::Reference { .. } => false,
    }
}

/// Adds parameters to a route entry that is given in place: `Extend::extend`
/// of the `Vec` in the field `parameters` of `openapiv3::PathItem`, with each
/// new parameter as a `ReferenceOr::Item`. Claimed: the list then holds what
/// it held, followed by the new parameters in their order, and nothing else
/// of the entry has changed.
#[verifier::external_body]
pub(crate) fn append_parameters(entry: &mut ReferenceOr<PathItem>, parameters: Vec<Parameter>)
    requires
        entry_parameters(*old(entry)) is Some,
    ensures
        *final(entry) == entry_with_parameters(*old(entry), parameters@),
        entry_parameters(*final(entry)) == Some(
            entry_parameters(*old(entry))->0 + in_place(parameters@),
        ),
{
    if let ReferenceOr::Item(item) = entry {
        item.parameters.extend(parameters.into_iter().map(ReferenceOr::Item));
    }
}

/// Parses the template of the mandatory parameters from its JSON form:
/// `serde_json::from_str` at the type `openapiv3::Parameter`. Claimed: on the
/// template the call returns, and its outcome depends on the text alone.
/// Nothing is claimed of whether the template parses, nor of what it gives.
///
/// Only the template is admitted, for the reason given at
/// [`parse_document`]. That the call returns on it is what every test that
/// injects shows.
#[verifier::external_body]
pub(crate) fn parse_parameter(text: &str) -> (parsed: Result<Parameter, serde_json::Error>)
    requires
        text@ == PARAMETER_TEMPLATE@,
    ensures
        match parsed {
            Ok(parameter) => parsed_parameter(text@) == Some(parameter),
            Err(_) => parsed_parameter(text@) is None,
        },
{
    serde_json::from_str(text)
}

/// Reads a parameter: the variant of `openapiv3::Parameter` gives the
/// location, the fields `name` and `required` of its `ParameterData` are
/// copied, and the schema counts as a string where the field `format` is
/// `Schema`, given in place, of kind `Type::String`. Claimed: the result is
/// what the library reads of the parameter.
#[verifier::external_body]
pub(crate) fn inspect_parameter(parameter: &Parameter) -> (facts: ParameterFacts)
    ensures
        facts@ == parameter_shape(*parameter),
{
    let (location, data) = match parameter {
        Parameter::Query { parameter_data, .. } => (Location::Query, parameter_data),
        Parameter::Header { parameter_data, .. } => (Location::Header, parameter_data),
        Parameter::Path { parameter_data, .. } => (Location::Path, parameter_data),
        Parameter::Cookie { parameter_data, .. } => (Location::Cookie, parameter_data),
    };
    let schema = match &data.format {
        ParameterSchemaOrContent::Schema(ReferenceOr::Item(Schema {
            schema_kind: SchemaKind::Type(Type::String(_)), ..
        })) => SchemaType::String,
        _ => SchemaType::Other,
    };
    ParameterFacts { location, name: data.name.clone(), required: data.required, schema }
}

/// A copy of a parameter under another name: `Clone::clone` of
/// `openapiv3::Parameter`, then the field `name` of its `ParameterData` set.
/// Claimed: of what the library reads of a parameter, only the name differs
/// between the two, and the copy's name is `name`.
#[verifier::external_body]
pub(crate) fn rename_parameter(parameter: &Parameter, name: &str) -> (renamed: Parameter)
    ensures
        renamed == parameter_named(*parameter, name@),
        parameter_shape(renamed) == (ParameterShape {
            name: name@,
            ..parameter_shape(*parameter)
        }),
{
    let mut renamed = parameter.clone();
    match &mut renamed {
        Parameter::Query { parameter_data, .. }
        | Parameter::Header { parameter_data, .. }
        | Parameter::Path { parameter_data, .. }
        | Parameter::Cookie { parameter_data, .. } => parameter_data.name = name.to_owned(),
    }
    renamed
}

} // verus!
