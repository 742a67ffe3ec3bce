//! Tailoring of an API description to one deployment: every route of the
//! description is mounted under a path prefix, and the deployment's mandatory
//! query parameters are added to one designated route.
//!
//! - [`names`]: the set of mandatory parameter names.
//! - [`document`]: the description as the `openapiv3` crate holds it, and the
//!   operations on it that are believed rather than proved.
//! - [`inject`]: adding the mandatory parameters to a route.
//! - [`rewrite`]: putting the prefix in front of every route path.
//! - [`template`]: the description that every deployment starts from.
//! - [`render`]: from the template to the answer that is served.

pub mod document;
pub mod inject;
pub mod names;
pub mod render;
pub mod rewrite;
pub mod template;
