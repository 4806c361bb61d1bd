use vstd::prelude::*;
use crate::error::Error;
use crate::table::ByteTable;

verus! {

/// The table from module ids to the handlers registered for them; module ids
/// match by exact equality.
pub struct Router<M> {
    routes: ByteTable<M>,
}

impl<M> View for Router<M> {
    type V = Map<Seq<u8>, M>;

    closed spec fn view(&self) -> Map<Seq<u8>, M> {
        self.routes@
    }
}

impl<M> Router<M> {
    pub closed spec fn wf(&self) -> bool {
        self.routes.wf()
    }

    /// A router with no route.
    pub fn new() -> (r: Self)
        ensures
            r.wf(),
            r@ == Map::<Seq<u8>, M>::empty(),
    {
        Router { routes: ByteTable::new() }
    }

    /// Whether a handler is registered under `module_id`.
    pub fn has_route(&self, module_id: &Vec<u8>) -> (r: bool)
        requires
            self.wf(),
        ensures
            r == self@.contains_key(module_id@),
    {
        self.routes.contains(module_id)
    }

    /// The handler registered under `module_id`, if any.
    pub fn get_route(&self, module_id: &Vec<u8>) -> (r: Option<&M>)
        requires
            self.wf(),
        ensures
            match r {
                Some(m) => self@.contains_key(module_id@) && *m == self@[module_id@],
                None => !self@.contains_key(module_id@),
            },
    {
        self.routes.get(module_id)
    }
}

/// Builds a router once, before any message is handled.
pub struct SubstrateRouterBuilder<M> {
    router: Router<M>,
}

impl<M> View for SubstrateRouterBuilder<M> {
    type V = Map<Seq<u8>, M>;

    closed spec fn view(&self) -> Map<Seq<u8>, M> {
        self.router@
    }
}

impl<M> SubstrateRouterBuilder<M> {
    pub closed spec fn wf(&self) -> bool {
        self.router.wf()
    }

    /// A builder with no route yet.
    pub fn new() -> (r: Self)
        ensures
            r.wf(),
            r@ == Map::<Seq<u8>, M>::empty(),
    {
        SubstrateRouterBuilder { router: Router::new() }
    }

    /// Registers `module` under `module_id`. An id that is registered already is
    /// refused with `DuplicateModuleId`, and the first registration stays.
    pub fn add_route(&mut self, module_id: Vec<u8>, module: M) -> (r: Result<(), Error>)
        requires
            old(self).wf(),
        ensures
            final(self).wf(),
            old(self)@.contains_key(module_id@) ==> r == Err::<(), Error>(Error::DuplicateModuleId)
                && final(self)@ == old(self)@,
            !old(self)@.contains_key(module_id@) ==> r == Ok::<(), Error>(()) && final(self)@
                == old(self)@.insert(module_id@, module),
    {
        if self.router.routes.contains(&module_id) {
            Err(Error::DuplicateModuleId)
        } else {
            self.router.routes.insert(module_id, module);
            Ok(())
        }
    }

    /// The router with the routes added.
    pub fn build(self) -> (r: Router<M>)
        requires
            self.wf(),
        ensures
            r.wf(),
            r@ == self@,
    {
        self.router
    }
}

} // verus!
