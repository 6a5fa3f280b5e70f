//! The error routes of the server: a handler for a status code, and one for
//! every status that has none of its own.

use std::collections::HashMap;
use vstd::prelude::*;
use vstd::std_specs::hash::group_hash_axioms;
use crate::status::StatusCode;

verus! {

broadcast use group_hash_axioms;

/// The error routes: handlers by status code, and the fallback handler. The
/// handlers are carried, never called.
pub struct ErrorRouter<E> {
    routes: HashMap<u16, E>,
    fallback: Option<E>,
}

impl<E> ErrorRouter<E> {
    /// The handlers that are registered for a status code of their own.
    pub closed spec fn handlers(self) -> Map<u16, E> {
        self.routes@
    }

    /// The handler for the statuses that have none of their own.
    pub closed spec fn catch_all(self) -> Option<E> {
        self.fallback
    }

    /// The handler for `status`: the one registered for exactly this code, else
    /// the fallback, else none.
    pub open spec fn recognize(self, status: StatusCode) -> Option<E> {
        if self.handlers().contains_key(status.0) {
            Some(self.handlers()[status.0])
        } else {
            self.catch_all()
        }
    }

    /// No error routes.
    pub fn new() -> (r: ErrorRouter<E>)
        ensures
            r.handlers() == Map::<u16, E>::empty(),
            r.catch_all() is None,
    {
        ErrorRouter { routes: HashMap::new(), fallback: None }
    }

    /// Registers `handler` for `status`, in place of the one that was
    /// registered for it before, if any.
    pub fn insert(&mut self, status: StatusCode, handler: E)
        ensures
            final(self).handlers() == old(self).handlers().insert(status.0, handler),
            final(self).catch_all() == old(self).catch_all(),
    {
        let _ = self.routes.insert(status.0, handler);
    }

    /// Registers `handler` for every status that has no handler of its own.
    pub fn fallback(&mut self, handler: E)
        ensures
            final(self).handlers() == old(self).handlers(),
            final(self).catch_all() == Some(handler),
    {
        self.fallback = Some(handler);
    }

    /// The handler for `status`.
    pub fn recognize_error(&self, status: &StatusCode) -> (r: Option<&E>)
        ensures
            match r {
                Some(handler) => self.recognize(*status) == Some(*handler),
                None => self.recognize(*status) is None,
            },
    {
        let code: u16 = status.0;
        match self.routes.get(&code) {
            Some(handler) => Some(handler),
            None => match &self.fallback {
                Some(handler) => Some(handler),
                None => None,
            },
        }
    }
}

} // verus!
