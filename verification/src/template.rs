//! The description that every deployment starts from.

use vstd::prelude::*;
use openapiv3::OpenAPI;
use crate::document::{parse_document, parsed_document};
use crate::render::RenderError;

verus! {

/// The JSON form of the description, before it is tailored to a deployment.
pub const TEMPLATE: &'static str = r##"{
  "openapi": "3.0.2",
  "info": {
    "title": "Update graph policy engine",
    "description": "Serves the update graph after the policies have been applied to it.",
    "version": "v1"
  },
  "paths": {
    "/graph": {
      "get": {
        "summary": "Get the update graph",
        "operationId": "getGraph",
        "responses": {
          "200": {
            "description": "The update graph",
            "content": {
              "application/json": {
                "schema": {
                  "$ref": "#/components/schemas/Graph"
                }
              }
            }
          }
        }
      }
    },
    "/openapi": {
      "get": {
        "summary": "Get this description",
        "operationId": "getOpenAPI",
        "responses": {
          "200": {
            "description": "The description, tailored to the deployment"
          }
        }
      }
    }
  },
  "components": {
    "schemas": {
      "Graph": {
        "type": "object",
        "properties": {
          "version": {
            "type": "integer"
          },
          "nodes": {
            "type": "array",
            "items": {
              "type": "object"
            }
          },
          "edges": {
            "type": "array",
            "items": {
              "type": "array",
              "items": {
                "type": "integer"
              }
            }
          }
        }
      }
    }
  }
}"##;

/// The description that [`TEMPLATE`] holds. Every call gives a description of
/// its own, which no other holder can change; the template stays as it is.
pub fn load() -> (loaded: Result<OpenAPI, RenderError>)
    ensures
        match loaded {
            Ok(document) => parsed_document(TEMPLATE@) == Some(document),
            Err(error) => parsed_document(TEMPLATE@) is None && error
                == RenderError::TemplateCorrupt,
        },
{
    match parse_document(TEMPLATE) {
        Ok(document) => Ok(document),
        Err(_) => Err(RenderError::TemplateCorrupt),
    }
}

} // verus!
