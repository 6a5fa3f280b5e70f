//! What a handler is told about the request it answers.

use vstd::prelude::*;
use crate::params::Params;
use crate::render::{Metadata, PageLinks, RenderPageOptions};
use crate::response::ResponseError;
use crate::scripts::PageScripts;
use crate::status::{StatusCode, NOT_FOUND};

verus! {

/// Contains information about the current request: its path in normal form,
/// the parameters of the matched route and, for an error handler, the error.
/// The request itself stays with the caller.
#[derive(Debug)]
pub struct RequestContext {
    pub path: String,
    pub params: Params,
    pub error: Option<ResponseError>,
}

impl RequestContext {
    /// A context with the given path, parameters and error.
    pub fn new(path: String, params: Params, error: Option<ResponseError>) -> (c: RequestContext)
        ensures
            c.path == path,
            c.params == params,
            c.error == error,
    {
        RequestContext { path, params, error }
    }

    /// Returns the path of the current request.
    pub fn path(&self) -> (p: &str)
        ensures
            p@ == self.path@,
    {
        self.path.as_str()
    }

    /// Returns the matching params of the route.
    pub fn params(&self) -> (p: &Params)
        ensures
            *p == self.params,
    {
        &self.params
    }

    /// Returns the error that this request is answered for, if any.
    pub fn error(&self) -> (e: Option<&ResponseError>)
        ensures
            match e {
                Some(err) => self.error == Some(*err),
                None => self.error is None,
            },
    {
        match &self.error {
            Some(err) => Some(err),
            None => None,
        }
    }
}

/// What a page handler works with: the request's context, and the elements
/// that it adds to the head and the body of the page.
#[derive(Debug)]
pub struct RenderContext {
    pub context: RequestContext,
    /// The `<meta>` tags of the page to render.
    pub metadata: Metadata,
    /// The `<link>` tags of the page to render.
    pub links: PageLinks,
    /// The `<script>` tags of the page to render.
    pub scripts: PageScripts,
}

impl RenderContext {
    /// A context for rendering the page of `context`, with nothing added yet.
    pub fn new(context: RequestContext) -> (c: RenderContext)
        ensures
            c.context == context,
            c.metadata.tags@.len() == 0,
            c.links.tags@.len() == 0,
            c.scripts.tags@.len() == 0,
    {
        RenderContext {
            context,
            metadata: Metadata::new(),
            links: PageLinks::new(),
            scripts: PageScripts::new(),
        }
    }

    /// Adds `<meta>` elements to the page, after those added before.
    pub fn add_metadata(&mut self, metadata: Metadata)
        ensures
            final(self).metadata.tags@ == old(self).metadata.tags@ + metadata.tags@,
            final(self).links == old(self).links,
            final(self).scripts == old(self).scripts,
            final(self).context == old(self).context,
    {
        self.metadata.extend(metadata);
    }

    /// Adds `<link>` elements to the page, after those added before.
    pub fn add_links(&mut self, links: PageLinks)
        ensures
            final(self).links.tags@ == old(self).links.tags@ + links.tags@,
            final(self).metadata == old(self).metadata,
            final(self).scripts == old(self).scripts,
            final(self).context == old(self).context,
    {
        self.links.extend(links);
    }

    /// Adds `<script>` elements to the page, after those added before.
    pub fn add_scripts(&mut self, scripts: PageScripts)
        ensures
            final(self).scripts.tags@ == old(self).scripts.tags@ + scripts.tags@,
            final(self).metadata == old(self).metadata,
            final(self).links == old(self).links,
            final(self).context == old(self).context,
    {
        self.scripts.extend(scripts);
    }

    /// Returns the matching params of the route.
    pub fn params(&self) -> (p: &Params)
        ensures
            *p == self.context.params,
    {
        &self.context.params
    }

    /// What goes into the page beside its content: the rendered `layout` and
    /// the elements that were added. The request's context comes back with
    /// it, for the caller to render the page with.
    pub fn into_render_options(self, layout: String) -> (r: (RequestContext, RenderPageOptions))
        ensures
            r.0 == self.context,
            r.1.layout == layout,
            r.1.metadata == self.metadata,
            r.1.links == self.links,
            r.1.scripts == self.scripts,
    {
        (
            self.context,
            RenderPageOptions {
                layout,
                metadata: self.metadata,
                links: self.links,
                scripts: self.scripts,
            },
        )
    }

    /// Returns a `404` error.
    pub fn not_found(self) -> (e: ResponseError)
        ensures
            e.status == StatusCode(NOT_FOUND),
            e.message is None,
    {
        ResponseError::from_status(StatusCode(NOT_FOUND))
    }
}

} // verus!
