//! Process-wide bridge state: the set-once VM handle, the set-once captured
//! class-loader reference, and the set-once publication of the worker pool.
//!
//! The bridge makes the decisions of the setup sequence; the outcomes of the
//! managed-runtime calls themselves (attaching the setup thread, looking up
//! its context class loader) are handed in by the caller as plain values, and
//! every decision is verified for every value they can take.

use vstd::prelude::*;

use crate::error::BridgeError;
use crate::pool::Pool;
use crate::pool::fresh_worker;

verus! {

/// Version token returned to the host loader on a successful module load.
pub const LOAD_VERSION_TOKEN: u32 = 0x0001_0006;

/// The bridge's process-wide state. Each field is set at most once for the
/// lifetime of the bridge; a second attempt is reported, never applied.
pub struct Bridge {
    /// Handle to the host VM, published once at module load.
    pub vm: Option<u64>,
    /// Captured class-loader reference of the setup thread, captured once.
    pub class_loader: Option<u64>,
    /// Whether the worker pool has been constructed and published.
    pub pool_published: bool,
}

impl Bridge {
    /// The bridge never publishes a pool without a captured loader, and never
    /// captures a loader without a VM handle.
    pub open spec fn inv(&self) -> bool {
        &&& self.pool_published ==> self.class_loader is Some
        &&& self.class_loader is Some ==> self.vm is Some
    }

    /// A fresh bridge: nothing captured, nothing published.
    pub fn new() -> (b: Bridge)
        ensures
            b.vm is None,
            b.class_loader is None,
            !b.pool_published,
            b.inv(),
    {
        Bridge { vm: None, class_loader: None, pool_published: false }
    }

    /// The captured VM handle, if a module-load call has published one.
    pub fn vm_handle(&self) -> (r: Option<u64>)
        ensures
            r == self.vm,
    {
        self.vm
    }

    /// The captured class-loader reference, if capture has happened.
    pub fn class_loader(&self) -> (r: Option<u64>)
        ensures
            r == self.class_loader,
    {
        self.class_loader
    }

    /// Module-load entry: publish the VM handle (set-once) and return the
    /// version token the host loader expects.
    ///
    /// The handle is retrievable afterward exactly when some load call has
    /// succeeded, and a load call succeeds exactly when no handle was
    /// published before it: a second load reports `DoubleInit` and never
    /// replaces the first handle.
    pub fn load_module(&mut self, vm_handle: u64) -> (r: Result<u32, BridgeError>)
        ensures
            r is Ok <==> old(self).vm is None,
            old(self).vm is None ==> r == Ok::<u32, BridgeError>(LOAD_VERSION_TOKEN) && final(self).vm == Some(vm_handle),
            old(self).vm is Some ==> r == Err::<u32, BridgeError>(BridgeError::DoubleInit)
                && final(self).vm == old(self).vm,
            final(self).class_loader == old(self).class_loader,
            final(self).pool_published == old(self).pool_published,
            old(self).inv() ==> final(self).inv(),
    {
        if self.vm.is_none() {
            self.vm = Some(vm_handle);
            Ok(LOAD_VERSION_TOKEN)
        } else {
            Err(BridgeError::DoubleInit)
        }
    }

    /// Capture the context class loader of the setup thread (set-once).
    ///
    /// `loader_lookup` is the outcome of the managed-runtime lookup the
    /// caller performed on its attached thread: the cross-thread reference on
    /// success, `None` if any step of the lookup failed. It is consulted only
    /// once a VM handle exists and no loader has been captured yet. On any
    /// failure no state is mutated.
    pub fn setup_class_loader(&mut self, loader_lookup: Option<u64>) -> (r: Result<
        (),
        BridgeError,
    >)
        ensures
            r is Ok <==> old(self).vm is Some && old(self).class_loader is None
                && loader_lookup is Some,
            old(self).vm is None ==> r == Err::<(), BridgeError>(BridgeError::VmUnavailable)
                && *final(self) == *old(self),
            old(self).vm is Some && old(self).class_loader is Some ==> r == Err::<
                (),
                BridgeError,
            >(BridgeError::DoubleInit) && *final(self) == *old(self),
            old(self).vm is Some && old(self).class_loader is None && loader_lookup is None ==> r
                == Err::<(), BridgeError>(BridgeError::ClassLoaderFailure) && *final(self) == *old(self),
            r is Ok ==> final(self).class_loader == loader_lookup && final(self).vm == old(self).vm
                && final(self).pool_published == old(self).pool_published,
            old(self).inv() ==> final(self).inv(),
    {
        if self.vm.is_none() {
            Err(BridgeError::VmUnavailable)
        } else if self.class_loader.is_some() {
            Err(BridgeError::DoubleInit)
        } else {
            match loader_lookup {
                None => Err(BridgeError::ClassLoaderFailure),
                Some(loader) => {
                    self.class_loader = Some(loader);
                    Ok(())
                },
            }
        }
    }

    /// Build the worker pool and publish it (set-once), capturing the class
    /// loader first if no capture has happened yet.
    ///
    /// `attach_ok` is the outcome of attaching the calling thread to the VM,
    /// `loader_lookup` the outcome of the context-class-loader lookup on that
    /// thread (see [`Self::setup_class_loader`]), and `threads` the number of
    /// workers the pool is built with. On any failure the bridge is left
    /// exactly as it was: no pool exists and no worker is ever started
    /// without a valid captured loader. When a loader was captured before,
    /// that first reference is the one the pool's workers install.
    pub fn create_runtime(&mut self, attach_ok: bool, loader_lookup: Option<u64>, threads: usize)
        -> (r: Result<Pool, BridgeError>)
        ensures
            r is Ok <==> old(self).vm is Some && !old(self).pool_published && attach_ok && (old(self).class_loader is Some || loader_lookup is Some),
            old(self).vm is None ==> r == Err::<Pool, BridgeError>(BridgeError::VmUnavailable)
                && *final(self) == *old(self),
            old(self).vm is Some && old(self).pool_published ==> r == Err::<Pool, BridgeError>(
                BridgeError::DoubleInit,
            ) && *final(self) == *old(self),
            old(self).vm is Some && !old(self).pool_published && !attach_ok ==> r == Err::<
                Pool,
                BridgeError,
            >(BridgeError::AttachFailure) && *final(self) == *old(self),
            old(self).vm is Some && !old(self).pool_published && attach_ok && old(self).class_loader is None && loader_lookup is None ==> r == Err::<Pool, BridgeError>(
                BridgeError::ClassLoaderFailure,
            ) && *final(self) == *old(self),
            r is Ok ==> final(self).vm == old(self).vm && final(self).pool_published,
            r is Ok && old(self).class_loader is Some ==> final(self).class_loader == old(self).class_loader,
            r is Ok && old(self).class_loader is None ==> final(self).class_loader
                == loader_lookup,
            r matches Ok(p) ==> p.wf() && final(self).class_loader == Some(p.loader)
                && p.workers@.len() == threads && p.log@.len() == 0 && (forall|i: int|
                0 <= i < threads ==> p.workers@[i] == fresh_worker()),
            old(self).inv() ==> final(self).inv(),
    {
        if self.vm.is_none() {
            return Err(BridgeError::VmUnavailable);
        }
        if self.pool_published {
            return Err(BridgeError::DoubleInit);
        }
        if !attach_ok {
            return Err(BridgeError::AttachFailure);
        }
        if self.class_loader.is_none() {
            match self.setup_class_loader(loader_lookup) {
                Ok(()) => (),
                Err(e) => {
                    return Err(e);
                },
            }
        }
        let loader = self.class_loader.unwrap();
        let pool = Pool::new(loader, threads);
        self.pool_published = true;
        Ok(pool)
    }

    /// Law: on a bridge that respects its invariant, a published pool implies
    /// a captured loader, which in turn implies a VM handle — pool
    /// construction never proceeded past a failed capture.
    pub proof fn lemma_no_pool_without_loader(&self)
        requires
            self.inv(),
            self.pool_published,
        ensures
            self.class_loader is Some,
            self.vm is Some,
    {
    }
}

} // verus!
