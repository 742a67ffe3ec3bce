//! Serving the description: from the template and the deployment's settings
//! to the body and status of the answer.

use vstd::prelude::*;
use openapiv3::{OpenAPI, Paths};
use crate::document::{
    copy_paths, document_paths, document_with_paths, entry_parameters, in_place, keys,
    parsed_document, parsed_parameter, paths_with_routes, replace_paths, routes,
    serialize_document, serialized_document,
};
use crate::inject::{
    copies, inject, injected_paths, injected_routes, mandatory_for, occurrences, table_outcome,
    InjectOutcome, PARAMETER_TEMPLATE,
};
use crate::names::NameSet;
use crate::rewrite::{prefixed, rewrite_paths};
use crate::template::{load, TEMPLATE};

verus! {

/// The route that gets the mandatory parameters.
pub const GRAPH_ROUTE: &'static str = "/graph";

/// Why a description could not be served.
#[derive(Clone, Copy, Debug, PartialEq, Eq, Structural)]
pub enum RenderError {
    /// The template is not the JSON form of an API description.
    TemplateCorrupt,
    /// The tailored description has no JSON form.
    NotSerializable,
}

impl RenderError {
    /// The text that goes with the error.
    pub open spec fn text(self) -> Seq<char> {
        match self {
            RenderError::TemplateCorrupt => "Could not deserialize to OpenAPI object"@,
            RenderError::NotSerializable => "Could not serialize OpenAPI object"@,
        }
    }

    /// The text that goes with the error, for the one who asked.
    pub fn message(&self) -> (message: String)
        ensures
            message@ == self.text(),
    {
        match self {
            RenderError::TemplateCorrupt => "Could not deserialize to OpenAPI object".to_owned(),
            RenderError::NotSerializable => "Could not serialize OpenAPI object".to_owned(),
        }
    }
}

/// The route table `paths` as a deployment serves it: the mandatory
/// parameters `names` injected at [`GRAPH_ROUTE`], then every route path
/// under `prefix`.
pub open spec fn tailored_paths(paths: Paths, prefix: Seq<char>, names: Seq<Seq<char>>) -> Paths {
    let injected = injected_paths(
        paths,
        GRAPH_ROUTE@,
        parsed_parameter(PARAMETER_TEMPLATE@),
        names,
    );
    paths_with_routes(injected, prefixed(routes(injected), prefix))
}

/// The description `document` as a deployment serves it.
pub open spec fn tailored(document: OpenAPI, prefix: Seq<char>, names: Seq<Seq<char>>) -> OpenAPI {
    document_with_paths(document, tailored_paths(document_paths(document), prefix, names))
}

/// What a deployment serves: the JSON form of the template's description,
/// tailored, or the error that stood in the way.
pub open spec fn rendered(prefix: Seq<char>, names: Seq<Seq<char>>) -> Result<
    Seq<char>,
    RenderError,
> {
    match parsed_document(TEMPLATE@) {
        None => Err(RenderError::TemplateCorrupt),
        Some(document) => match serialized_document(tailored(document, prefix, names)) {
            None => Err(RenderError::NotSerializable),
            Some(body) => Ok(body),
        },
    }
}

/// Whether the designated route of `after` is that of `before` with the
/// mandatory parameters injected: it stands under [`GRAPH_ROUTE`] with
/// `prefix` in front, it is given in place, and its parameter list is the
/// former list followed by one required query parameter with a string schema
/// for each of `names`, so that the list holds one more such parameter of each
/// name than before.
pub open spec fn graph_route_injected(
    before: OpenAPI,
    after: OpenAPI,
    prefix: Seq<char>,
    names: Seq<Seq<char>>,
) -> bool {
    let old_routes = routes(document_paths(before));
    let new_routes = routes(document_paths(after));
    let added = copies(parsed_parameter(PARAMETER_TEMPLATE@)->0, names);
    &&& mandatory_for(added, names)
    &&& forall|i: int|
        0 <= i < old_routes.len() && (#[trigger] old_routes[i]).0 == GRAPH_ROUTE@
            ==> new_routes[i].0 == prefix + GRAPH_ROUTE@ && entry_parameters(new_routes[i].1)
            == Some(entry_parameters(old_routes[i].1)->0 + in_place(added))
    &&& forall|i: int, n: int|
        0 <= i < old_routes.len() && (#[trigger] old_routes[i]).0 == GRAPH_ROUTE@ && 0 <= n
            < names.len() ==> occurrences(
            entry_parameters(new_routes[i].1)->0,
            #[trigger] names[n],
        ) == occurrences(entry_parameters(old_routes[i].1)->0, names[n]) + 1
}

/// Whether every route of `after` but the designated one is the route of
/// `before` at the same place, with `prefix` in front of its path and its
/// entry as it was.
pub open spec fn other_routes_kept(before: OpenAPI, after: OpenAPI, prefix: Seq<char>) -> bool {
    let old_routes = routes(document_paths(before));
    let new_routes = routes(document_paths(after));
    &&& new_routes.len() == old_routes.len()
    &&& forall|i: int|
        0 <= i < old_routes.len() && (#[trigger] old_routes[i]).0 != GRAPH_ROUTE@ ==> new_routes[i]
            == (prefix + old_routes[i].0, old_routes[i].1)
}

/// Tailors a description to a deployment: injects the mandatory parameters
/// at [`GRAPH_ROUTE`], then puts `path_prefix` in front of every route path.
/// A mismatch found while injecting does not stop the work: the routes are
/// rewritten all the same, and the outcome of the injection is returned.
///
/// The description must be freshly derived from the template: tailoring one
/// that has been tailored before prefixes and injects a second time.
pub fn tailor(
    description: &mut OpenAPI,
    path_prefix: &str,
    mandatory_params: &NameSet,
) -> (outcome: InjectOutcome)
    ensures
        *final(description) == tailored(*old(description), path_prefix@, mandatory_params@),
        routes(document_paths(*final(description))) == prefixed(
            injected_routes(
                routes(document_paths(*old(description))),
                GRAPH_ROUTE@,
                parsed_parameter(PARAMETER_TEMPLATE@),
                mandatory_params@,
            ),
            path_prefix@,
        ),
        keys(routes(document_paths(*final(description)))).no_duplicates(),
        outcome == table_outcome(
            routes(document_paths(*old(description))),
            GRAPH_ROUTE@,
            parsed_parameter(PARAMETER_TEMPLATE@),
        ),
        outcome is Injected ==> graph_route_injected(
            *old(description),
            *final(description),
            path_prefix@,
            mandatory_params@,
        ),
        other_routes_kept(*old(description), *final(description), path_prefix@),
{
    let mut paths = copy_paths(description);
    let outcome = inject(&mut paths, GRAPH_ROUTE, mandatory_params);
    let new_paths = rewrite_paths(paths, path_prefix);
    replace_paths(description, new_paths);
    outcome
}

/// A description rendered for a deployment.
#[derive(Debug)]
pub struct Rendered {
    /// The JSON form of the tailored description.
    pub body: String,
    /// How the injection of the mandatory parameters ended. A mismatch is
    /// worth a line in the log, and is no reason not to serve the body.
    pub injection: InjectOutcome,
}

/// What a deployment serves: the template loaded, tailored and rendered
/// again. Every call starts from the template, so that none sees what
/// another has added. The body is the JSON form of a description that holds
/// the template's routes under the prefix, the designated one with the
/// mandatory parameters injected.
///
/// A template that does not parse and a description that cannot be rendered
/// are errors; a mismatch found while injecting is none, and is handed out
/// beside the body.
pub fn render(path_prefix: &str, mandatory_params: &NameSet) -> (served: Result<
    Rendered,
    RenderError,
>)
    ensures
        match served {
            Ok(done) => rendered(path_prefix@, mandatory_params@) == Ok::<Seq<char>, RenderError>(
                done.body@,
            ) && done.injection == table_outcome(
                routes(document_paths(parsed_document(TEMPLATE@)->0)),
                GRAPH_ROUTE@,
                parsed_parameter(PARAMETER_TEMPLATE@),
            ) && (done.injection is Injected ==> graph_route_injected(
                parsed_document(TEMPLATE@)->0,
                tailored(parsed_document(TEMPLATE@)->0, path_prefix@, mandatory_params@),
                path_prefix@,
                mandatory_params@,
            )) && other_routes_kept(
                parsed_document(TEMPLATE@)->0,
                tailored(parsed_document(TEMPLATE@)->0, path_prefix@, mandatory_params@),
                path_prefix@,
            ),
            Err(error) => rendered(path_prefix@, mandatory_params@) == Err::<
                Seq<char>,
                RenderError,
            >(error),
        },
{
    let mut description = match load() {
        Ok(document) => document,
        Err(error) => {
            return Err(error);
        },
    };
    let injection = tailor(&mut description, path_prefix, mandatory_params);
    match serialize_document(&description) {
        Ok(body) => Ok(Rendered { body, injection }),
        Err(_) => Err(RenderError::NotSerializable),
    }
}

/// The kind of body that an answer carries.
#[derive(Clone, Copy, Debug, PartialEq, Eq, Structural)]
pub enum ContentType {
    Json,
    PlainText,
}

/// An answer to a request for the description.
#[derive(Debug)]
pub struct Reply {
    pub status: u16,
    pub content_type: ContentType,
    pub body: String,
}

/// The answer that goes with a rendering: the description as JSON with
/// status 200, or the text of the error with status 500.
pub fn reply(served: Result<Rendered, RenderError>) -> (answer: Reply)
    ensures
        match served {
            Ok(done) => answer.status == 200 && answer.content_type == ContentType::Json
                && answer.body@ == done.body@,
            Err(error) => answer.status == 500 && answer.content_type == ContentType::PlainText
                && answer.body@ == error.text(),
        },
{
    match served {
        Ok(done) => Reply { status: 200, content_type: ContentType::Json, body: done.body },
        Err(error) => Reply {
            status: 500,
            content_type: ContentType::PlainText,
            body: error.message(),
        },
    }
}

} // verus!
