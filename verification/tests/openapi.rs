use openapiv3::{OpenAPI, Parameter, ParameterSchemaOrContent, ReferenceOr, SchemaKind, Type};
use policy_engine::inject::{
    add_mandatory_params, add_parameters, find_route, inject, InjectOutcome, PARAMETER_TEMPLATE,
};
use policy_engine::names::NameSet;
use policy_engine::render::{
    render, reply, tailor, ContentType, RenderError, Rendered, GRAPH_ROUTE,
};
use policy_engine::rewrite::{rewrite_entries, rewrite_paths};
use policy_engine::template::{load, TEMPLATE};
use std::collections::HashSet;

/// A description with more in it than the template has: a route that
/// already has a parameter, a route by reference, and an extension.
const WIDE: &str = r##"{
  "openapi": "3.0.2",
  "info": {
    "title": "Update graph policy engine",
    "description": "Serves the update graph after the policies have been applied to it.",
    "version": "v1"
  },
  "paths": {
    "/graph": {
      "get": {
        "summary": "Get the update graph",
        "operationId": "getGraph",
        "responses": {
          "200": {
            "description": "The update graph",
            "content": {
              "application/json": {
                "schema": {
                  "$ref": "#/components/schemas/Graph"
                }
              }
            }
          }
        }
      },
      "parameters": [
        {
          "in": "query",
          "name": "version",
          "schema": {
            "type": "string"
          }
        }
      ]
    },
    "/openapi": {
      "get": {
        "summary": "Get this description",
        "operationId": "getOpenAPI",
        "responses": {
          "200": {
            "description": "The description"
          }
        }
      }
    },
    "/shared": {
      "$ref": "#/components/pathItems/shared"
    }
  },
  "components": {
    "schemas": {
      "Graph": {
        "type": "object",
        "properties": {
          "version": {
            "type": "integer"
          }
        }
      }
    }
  },
  "x-origin": "template"
}"##;

fn names(list: &[&str]) -> NameSet {
    NameSet::from_names(list.iter().map(|name| name.to_string()).collect())
}

/// The names of the required query parameters with a string schema that an
/// entry holds in place, in their order.
fn mandatory_names(entry: &ReferenceOr<openapiv3::PathItem>) -> Vec<String> {
    let item = match entry {
        ReferenceOr::Item(item) => item,
        ReferenceOr::Reference { .. } => return Vec::new(),
    };
    let mut found = Vec::new();
    for parameter in &item.parameters {
        if let ReferenceOr::Item(Parameter::Query { parameter_data, .. }) = parameter {
            let string_schema = match &parameter_data.format {
                ParameterSchemaOrContent::Schema(ReferenceOr::Item(schema)) => {
                    matches!(schema.schema_kind, SchemaKind::Type(Type::String(_)))
                }
                _ => false,
            };
            if parameter_data.required && string_schema {
                found.push(parameter_data.name.clone());
            }
        }
    }
    found
}

#[test]
fn test_rewrite_paths() {
    let prefix = "/test_prefix";
    let description: OpenAPI = serde_json::from_str(TEMPLATE).expect("couldn't parse JSON file");

    let paths_before = description.paths;
    let paths_after = rewrite_paths(paths_before.clone(), prefix);

    let mut compared = 0;
    for ((path_before, _), (path_after, _)) in paths_before.iter().zip(paths_after.iter()) {
        assert_ne!(path_after, path_before);
        assert_eq!(path_after, &format!("{}{}", prefix, path_before));
        assert!(path_after.as_str().starts_with(prefix));
        compared += 1;
    }
    assert_eq!(compared, 2);
}

#[test]
fn graph_params() {
    let params: HashSet<String> = vec!["MARKER1".to_string(), "MARKER2".to_string()]
        .into_iter()
        .collect();
    let reqs = NameSet::from_names(params.iter().cloned().collect());
    let mut document: OpenAPI = serde_json::from_str(TEMPLATE).expect("couldn't parse JSON file");

    {
        let graph_path = document.paths.paths.get_mut("/graph").unwrap();
        add_mandatory_params(graph_path, &reqs);
    }
    let output = serde_json::to_string(&document).unwrap();

    for p in params {
        assert!(
            output.contains(&p),
            "marker {} not found in output: {}",
            p,
            output
        )
    }
}

#[test]
fn graph_params_integration() {
    let mandatory_params: HashSet<String> = ["MARKER1", "MARKER2"]
        .iter()
        .cloned()
        .map(String::from)
        .collect();
    let path_prefix = "test_prefix".to_string();
    let reqs = NameSet::from_names(mandatory_params.iter().cloned().collect());

    let answer = reply(render(&path_prefix, &reqs));
    assert_eq!(answer.status, 200, "unexpected statuscode:{}", answer.status);
    let body = answer.body;

    // The served route path does not begin with a slash, so the body is read
    // as plain JSON: a parsed description keeps only paths that do.
    let document: serde_json::Value = serde_json::from_str(&body).unwrap();
    let v1_graph = document
        .get("paths")
        .and_then(|paths| paths.get(format!("{}/graph", path_prefix)))
        .expect("could not find /graph endpoint in openapi spec");

    let parameters = v1_graph
        .get("parameters")
        .and_then(|parameters| parameters.as_array())
        .expect("reference manipulation for paths not allowed");
    let v1_graph_mandatory_params_result: HashSet<String> = parameters
        .iter()
        .filter_map(|param| {
            let query = param.get("in").and_then(|place| place.as_str()) == Some("query");
            let required = param.get("required").and_then(|flag| flag.as_bool()) == Some(true);
            if query && required {
                return param.get("name").and_then(|name| name.as_str()).map(String::from);
            }
            None
        })
        .collect();

    assert_eq!(mandatory_params, v1_graph_mandatory_params_result);
}

#[test]
fn template_loads() {
    let loaded = load().unwrap();
    let expected: OpenAPI = serde_json::from_str(TEMPLATE).unwrap();
    assert_eq!(loaded, expected);
    let keys: Vec<&String> = loaded.paths.paths.keys().collect();
    assert_eq!(keys, vec!["/graph", "/openapi"]);
    assert!(loaded.paths.paths.get(GRAPH_ROUTE).unwrap().as_item().is_some());
    assert!(mandatory_names(loaded.paths.paths.get(GRAPH_ROUTE).unwrap()).is_empty());
    // Every load gives a description of its own.
    let mut first = load().unwrap();
    tailor(&mut first, "/p", &names(&["MARKER1"]));
    assert_eq!(load().unwrap(), expected);
}

#[test]
fn rewrite_keeps_every_route_once() {
    let description: OpenAPI = serde_json::from_str(WIDE).unwrap();
    let before = description.paths;
    let after = rewrite_paths(before.clone(), "/api/v2");

    let keys_after: Vec<&String> = after.paths.keys().collect();
    assert_eq!(keys_after, vec!["/api/v2/graph", "/api/v2/openapi", "/api/v2/shared"]);
    assert_eq!(after.paths.len(), before.paths.len());
    for (path, entry) in before.iter() {
        assert_eq!(after.paths.get(&format!("/api/v2{}", path)), Some(entry));
    }
    assert_eq!(after.extensions, before.extensions);
    // The table that was handed in by copy is as it was.
    let again: OpenAPI = serde_json::from_str(WIDE).unwrap();
    assert_eq!(before, again.paths);
}

#[test]
fn rewrite_with_empty_prefix_changes_nothing() {
    let description: OpenAPI = serde_json::from_str(WIDE).unwrap();
    let before = description.paths;
    let after = rewrite_paths(before.clone(), "");
    assert_eq!(after, before);
}

#[test]
fn rewrite_of_an_empty_table_is_empty() {
    let after = rewrite_paths(openapiv3::Paths::default(), "/p");
    assert!(after.paths.is_empty());
}

#[test]
fn rewrite_entries_prefixes_each_key() {
    let entries = vec![("/a".to_string(), 1u8), ("/b".to_string(), 2u8), ("".to_string(), 3u8)];
    let rewritten = rewrite_entries(entries, "/p");
    assert_eq!(
        rewritten,
        vec![("/p/a".to_string(), 1u8), ("/p/b".to_string(), 2u8), ("/p".to_string(), 3u8)]
    );
}

#[test]
fn find_route_gives_the_place() {
    let entries = vec![("/a".to_string(), 1u8), ("/b".to_string(), 2u8)];
    assert_eq!(find_route(&entries, "/a"), Some(0));
    assert_eq!(find_route(&entries, "/b"), Some(1));
    assert_eq!(find_route(&entries, "/c"), None);
    assert_eq!(find_route(&Vec::<(String, u8)>::new(), "/a"), None);
}

#[test]
fn injection_adds_one_parameter_for_each_name() {
    let mut document: OpenAPI = serde_json::from_str(WIDE).unwrap();
    let untouched = document.clone();
    let outcome = inject(&mut document.paths, "/graph", &names(&["MARKER1", "MARKER2"]));
    assert_eq!(outcome, InjectOutcome::Injected);
    assert!(!outcome.is_mismatch());

    let item = document.paths.paths.get("/graph").unwrap().as_item().unwrap();
    let before = untouched.paths.paths.get("/graph").unwrap().as_item().unwrap();
    assert_eq!(item.parameters.len(), 3);
    // What was there stays in front, as it was.
    assert_eq!(item.parameters[0], before.parameters[0]);
    // Each new parameter is the template under its name.
    for (place, name) in [(1, "MARKER1"), (2, "MARKER2")] {
        let text = PARAMETER_TEMPLATE.replace("TEMPLATE", name);
        let expected: Parameter = serde_json::from_str(&text).unwrap();
        assert_eq!(item.parameters[place], ReferenceOr::Item(expected));
    }
    assert_eq!(
        mandatory_names(document.paths.paths.get("/graph").unwrap()),
        vec!["MARKER1".to_string(), "MARKER2".to_string()]
    );
    // Nothing else of the route, and no other route, has changed.
    assert_eq!(item.get, before.get);
    assert_eq!(document.paths.paths.get("/openapi"), untouched.paths.paths.get("/openapi"));
    assert_eq!(document.paths.paths.get("/shared"), untouched.paths.paths.get("/shared"));
    let keys: Vec<&String> = document.paths.paths.keys().collect();
    assert_eq!(keys, vec!["/graph", "/openapi", "/shared"]);
    assert_eq!(document.paths.extensions, untouched.paths.extensions);
}

#[test]
fn injection_with_no_names_adds_nothing() {
    let mut document: OpenAPI = serde_json::from_str(WIDE).unwrap();
    let untouched = document.clone();
    let outcome = inject(&mut document.paths, "/graph", &NameSet::new());
    assert_eq!(outcome, InjectOutcome::Injected);
    assert_eq!(document, untouched);
}

#[test]
fn second_injection_duplicates() {
    let reqs = names(&["MARKER1", "MARKER2"]);
    let mut document: OpenAPI = serde_json::from_str(WIDE).unwrap();
    assert_eq!(inject(&mut document.paths, "/graph", &reqs), InjectOutcome::Injected);
    let after_first = document.paths.paths.get("/graph").unwrap().as_item().unwrap().clone();
    assert_eq!(inject(&mut document.paths, "/graph", &reqs), InjectOutcome::Injected);
    let after_second = document.paths.paths.get("/graph").unwrap().as_item().unwrap();
    assert_eq!(
        mandatory_names(document.paths.paths.get("/graph").unwrap()),
        vec![
            "MARKER1".to_string(),
            "MARKER2".to_string(),
            "MARKER1".to_string(),
            "MARKER2".to_string()
        ]
    );
    assert_eq!(after_second.parameters.len(), 1 + 2 * 2);
    assert_eq!(after_second.parameters[..3], after_first.parameters[..]);
}

#[test]
fn absent_route_is_no_error() {
    let mut document: OpenAPI = serde_json::from_str(WIDE).unwrap();
    let untouched = document.clone();
    let outcome = inject(&mut document.paths, "/missing", &names(&["MARKER1"]));
    assert_eq!(outcome, InjectOutcome::RouteAbsent);
    assert!(!outcome.is_mismatch());
    assert_eq!(document, untouched);
}

#[test]
fn reference_route_is_left_alone() {
    let mut document: OpenAPI = serde_json::from_str(WIDE).unwrap();
    let untouched = document.clone();
    let outcome = inject(&mut document.paths, "/shared", &names(&["MARKER1"]));
    assert_eq!(outcome, InjectOutcome::ReferenceSkipped);
    assert!(outcome.is_mismatch());
    assert_eq!(document, untouched);

    let mut entry: ReferenceOr<openapiv3::PathItem> = ReferenceOr::ref_("#/components/pathItems/x");
    let outcome = add_mandatory_params(&mut entry, &names(&["MARKER1"]));
    assert_eq!(outcome, InjectOutcome::ReferenceSkipped);
    assert_eq!(entry, ReferenceOr::ref_("#/components/pathItems/x"));
}

#[test]
fn template_is_a_required_string_query_parameter() {
    let template: Parameter = serde_json::from_str(PARAMETER_TEMPLATE).unwrap();
    let mut entry = ReferenceOr::Item(openapiv3::PathItem::default());
    let outcome = add_parameters(&mut entry, &template, &names(&["a"]));
    assert_eq!(outcome, InjectOutcome::Injected);
    assert_eq!(mandatory_names(&entry), vec!["a".to_string()]);

    let mut entry = ReferenceOr::Item(openapiv3::PathItem::default());
    assert_eq!(add_mandatory_params(&mut entry, &names(&["a"])), InjectOutcome::Injected);
    assert_eq!(mandatory_names(&entry), vec!["a".to_string()]);
}

#[test]
fn unusable_templates_are_rejected() {
    let rejected = [
        r#"{"in": "header", "name": "T", "required": true, "schema": {"type": "string"}}"#,
        r#"{"in": "path", "name": "T", "required": true, "schema": {"type": "string"}}"#,
        r#"{"in": "cookie", "name": "T", "required": true, "schema": {"type": "string"}}"#,
        r#"{"in": "query", "name": "T", "required": false, "schema": {"type": "string"}}"#,
        r#"{"in": "query", "name": "T", "schema": {"type": "string"}}"#,
        r#"{"in": "query", "name": "T", "required": true, "schema": {"type": "integer"}}"#,
        r##"{"in": "query", "name": "T", "required": true, "schema": {"$ref": "#/s"}}"##,
        r#"{"in": "query", "name": "T", "required": true, "content": {}}"#,
    ];
    for text in rejected {
        let template: Parameter = serde_json::from_str(text).unwrap();
        let mut entry = ReferenceOr::Item(openapiv3::PathItem::default());
        let outcome = add_parameters(&mut entry, &template, &names(&["a", "b"]));
        assert_eq!(outcome, InjectOutcome::TemplateRejected, "{}", text);
        assert!(outcome.is_mismatch());
        assert_eq!(entry, ReferenceOr::Item(openapiv3::PathItem::default()), "{}", text);
    }
    // A reference is skipped whatever the template is.
    let template: Parameter = serde_json::from_str(rejected[0]).unwrap();
    let mut entry: ReferenceOr<openapiv3::PathItem> = ReferenceOr::ref_("#/r");
    assert_eq!(
        add_parameters(&mut entry, &template, &names(&["a"])),
        InjectOutcome::ReferenceSkipped
    );
}

#[test]
fn copies_keep_the_rest_of_the_template() {
    let text = r#"{"in": "query", "name": "T", "description": "kept", "required": true,
                   "schema": {"type": "string"}, "allowEmptyValue": true}"#;
    let template: Parameter = serde_json::from_str(text).unwrap();
    let mut entry = ReferenceOr::Item(openapiv3::PathItem::default());
    assert_eq!(add_parameters(&mut entry, &template, &names(&["n"])), InjectOutcome::Injected);
    let expected: Parameter = serde_json::from_str(&text.replace("\"T\"", "\"n\"")).unwrap();
    let item = entry.as_item().unwrap();
    assert_eq!(item.parameters, vec![ReferenceOr::Item(expected)]);
    // The template itself is as it was.
    assert_eq!(template, serde_json::from_str::<Parameter>(text).unwrap());
}

#[test]
fn end_to_end() {
    let reqs = names(&["MARKER1", "MARKER2"]);
    let served = render("/test_prefix", &reqs);
    assert_eq!(served.as_ref().unwrap().injection, InjectOutcome::Injected);
    let answer = reply(served);
    assert_eq!(answer.status, 200);
    assert_eq!(answer.content_type, ContentType::Json);

    let served: OpenAPI = serde_json::from_str(&answer.body).unwrap();
    let template: OpenAPI = serde_json::from_str(TEMPLATE).unwrap();
    let keys: Vec<&String> = served.paths.paths.keys().collect();
    assert_eq!(keys, vec!["/test_prefix/graph", "/test_prefix/openapi"]);
    assert!(served.paths.paths.get("/graph").is_none());
    let graph = served.paths.paths.get("/test_prefix/graph").unwrap();
    assert!(graph.as_item().is_some());
    assert_eq!(mandatory_names(graph), vec!["MARKER1".to_string(), "MARKER2".to_string()]);
    assert_eq!(graph.as_item().unwrap().parameters.len(), 2);
    // No other route is altered beyond its prefix, and nothing else is.
    assert_eq!(
        served.paths.paths.get("/test_prefix/openapi"),
        template.paths.paths.get("/openapi")
    );
    assert_eq!(
        graph.as_item().unwrap().get,
        template.paths.paths.get("/graph").unwrap().as_item().unwrap().get
    );
    assert_eq!(served.info, template.info);
    assert_eq!(served.components, template.components);
    assert_eq!(served.extensions, template.extensions);
}

#[test]
fn every_request_starts_from_the_template() {
    let reqs = names(&["MARKER1"]);
    let first = render("/p", &reqs).unwrap();
    let second = render("/p", &reqs).unwrap();
    assert_eq!(first.body, second.body);
    assert_eq!(first.body.matches("MARKER1").count(), 1);
    assert_eq!(first.injection, InjectOutcome::Injected);
    assert_eq!(second.injection, InjectOutcome::Injected);
}

#[test]
fn tailor_injects_and_rewrites() {
    let mut document: OpenAPI = serde_json::from_str(WIDE).unwrap();
    let untouched = document.clone();
    let outcome = tailor(&mut document, "/p", &names(&["MARKER1"]));
    assert_eq!(outcome, InjectOutcome::Injected);
    let keys: Vec<&String> = document.paths.paths.keys().collect();
    assert_eq!(keys, vec!["/p/graph", "/p/openapi", "/p/shared"]);
    assert_eq!(
        mandatory_names(document.paths.paths.get("/p/graph").unwrap()),
        vec!["MARKER1".to_string()]
    );
    assert_eq!(document.paths.paths.get("/p/shared"), untouched.paths.paths.get("/shared"));
    assert_eq!(document.paths.extensions, untouched.paths.extensions);
    assert_eq!(document.extensions, untouched.extensions);
    assert_eq!(document.info, untouched.info);
    assert_eq!(GRAPH_ROUTE, "/graph");
}

#[test]
fn tailor_reports_the_injection_and_rewrites_anyway() {
    let text = WIDE.replace("\"/graph\"", "\"/other\"");
    let mut document: OpenAPI = serde_json::from_str(&text).unwrap();
    let outcome = tailor(&mut document, "/p", &names(&["MARKER1"]));
    assert_eq!(outcome, InjectOutcome::RouteAbsent);
    let keys: Vec<&String> = document.paths.paths.keys().collect();
    assert_eq!(keys, vec!["/p/other", "/p/openapi", "/p/shared"]);
    assert!(!serde_json::to_string(&document).unwrap().contains("MARKER1"));
}

#[test]
fn reference_at_the_graph_route_is_served_unchanged() {
    let text = r##"{"openapi": "3.0.2", "info": {"title": "t", "version": "1"},
                    "paths": {"/graph": {"$ref": "#/components/pathItems/graph"}}}"##;
    let mut document: OpenAPI = serde_json::from_str(text).unwrap();
    let outcome = tailor(&mut document, "/p", &names(&["MARKER1"]));
    assert_eq!(outcome, InjectOutcome::ReferenceSkipped);
    assert!(outcome.is_mismatch());
    assert_eq!(
        document.paths.paths.get("/p/graph"),
        Some(&ReferenceOr::ref_("#/components/pathItems/graph"))
    );
    assert!(!serde_json::to_string(&document).unwrap().contains("MARKER1"));
}

#[test]
fn corrupt_template_is_an_internal_error() {
    let answer = reply(Err(RenderError::TemplateCorrupt));
    assert_eq!(answer.status, 500);
    assert_eq!(answer.content_type, ContentType::PlainText);
    assert_eq!(answer.body, "Could not deserialize to OpenAPI object");
    assert_eq!(answer.body, RenderError::TemplateCorrupt.message());
}

#[test]
fn rendering_failure_is_an_internal_error() {
    let answer = reply(Err(RenderError::NotSerializable));
    assert_eq!(answer.status, 500);
    assert_eq!(answer.content_type, ContentType::PlainText);
    assert_eq!(answer.body, "Could not serialize OpenAPI object");
    assert_eq!(answer.body, RenderError::NotSerializable.message());
}

#[test]
fn reply_carries_the_body() {
    let answer = reply(Ok(Rendered {
        body: "{}".to_string(),
        injection: InjectOutcome::RouteAbsent,
    }));
    assert_eq!(answer.status, 200);
    assert_eq!(answer.content_type, ContentType::Json);
    assert_eq!(answer.body, "{}");
}
