use vstd::prelude::*;
use crate::context::Context;
use crate::router::SubstrateRouterBuilder;
use crate::transfer::TransferModule;

verus! {

/// The module id of the fungible-token transfer application, `transfer`.
pub open spec fn transfer_module_id() -> Seq<u8> {
    seq![116u8, 114u8, 97u8, 110u8, 115u8, 102u8, 101u8, 114u8]
}

/// Wires the transfer application into a router.
pub struct IbcModule;

impl IbcModule {
    /// Registers the transfer application, with the chain's native token name,
    /// under the module id `transfer`. Registering it twice is a configuration
    /// error that must stop start-up, so the id must still be free.
    pub fn add_module(router: &mut SubstrateRouterBuilder<TransferModule>, native_token_name: Vec<u8>)
        requires
            old(router).wf(),
            !old(router)@.contains_key(transfer_module_id()),
        ensures
            final(router).wf(),
            final(router)@.dom() == old(router)@.dom().insert(transfer_module_id()),
            final(router)@[transfer_module_id()].native_token_name@ == native_token_name@,
            forall|k: Seq<u8>| k != transfer_module_id() ==> #[trigger] final(router)@.get(k) == old(router)@.get(k),
    {
        let id: Vec<u8> = vec![116u8, 114u8, 97u8, 110u8, 115u8, 102u8, 101u8, 114u8];
        assert(id@ =~= transfer_module_id());
        let _ = router.add_route(id, TransferModule { native_token_name });
    }
}

/// The key that marks that an asset was created, `asset_created`.
pub open spec fn asset_created_key() -> Seq<u8> {
    seq![97u8, 115u8, 115u8, 101u8, 116u8, 95u8, 99u8, 114u8, 101u8, 97u8, 116u8, 101u8, 100u8]
}

/// The key that marks that an asset was destroyed, `asset_destroyed`.
pub open spec fn asset_destroyed_key() -> Seq<u8> {
    seq![97u8, 115u8, 115u8, 101u8, 116u8, 95u8, 100u8, 101u8, 115u8, 116u8, 114u8, 111u8, 121u8, 101u8, 100u8]
}

/// Hooks called when the ledger creates or destroys an asset; each leaves an
/// empty marker in the store.
pub struct AssetsCallbackHandle;

impl AssetsCallbackHandle {
    /// Marks that an asset was created.
    pub fn created(ctx: &mut Context, _id: u32, _owner: &Vec<u8>) -> (r: Result<(), ()>)
        requires
            old(ctx).wf(),
        ensures
            r is Ok,
            final(ctx).wf(),
            final(ctx).store@.dom() == old(ctx).store@.dom().insert(asset_created_key()),
            final(ctx).store@[asset_created_key()]@ == Seq::<u8>::empty(),
            forall|k: Seq<u8>| k != asset_created_key() ==> #[trigger] final(ctx).store@.get(k) == old(ctx).store@.get(k),
            final(ctx).ledger == old(ctx).ledger,
            final(ctx).assets == old(ctx).assets,
            final(ctx).sequences == old(ctx).sequences,
    {
        let k: Vec<u8> = vec![97u8, 115u8, 115u8, 101u8, 116u8, 95u8, 99u8, 114u8, 101u8, 97u8, 116u8, 101u8, 100u8];
        assert(k@ =~= asset_created_key());
        ctx.store.insert(k, Vec::new());
        Ok(())
    }

    /// Marks that an asset was destroyed.
    pub fn destroyed(ctx: &mut Context, _id: u32) -> (r: Result<(), ()>)
        requires
            old(ctx).wf(),
        ensures
            r is Ok,
            final(ctx).wf(),
            final(ctx).store@.dom() == old(ctx).store@.dom().insert(asset_destroyed_key()),
            final(ctx).store@[asset_destroyed_key()]@ == Seq::<u8>::empty(),
            forall|k: Seq<u8>| k != asset_destroyed_key() ==> #[trigger] final(ctx).store@.get(k) == old(ctx).store@.get(k),
            final(ctx).ledger == old(ctx).ledger,
            final(ctx).assets == old(ctx).assets,
            final(ctx).sequences == old(ctx).sequences,
    {
        let k: Vec<u8> = vec![97u8, 115u8, 115u8, 101u8, 116u8, 95u8, 100u8, 101u8, 115u8, 116u8, 114u8, 111u8, 121u8, 101u8, 100u8];
        assert(k@ =~= asset_destroyed_key());
        ctx.store.insert(k, Vec::new());
        Ok(())
    }
}

} // verus!
