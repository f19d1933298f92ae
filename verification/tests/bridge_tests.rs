use runtime_bridge::Bridge;
use runtime_bridge::BridgeError;
use runtime_bridge::LOAD_VERSION_TOKEN;

#[test]
fn version_token_matches_host_protocol() {
    assert_eq!(LOAD_VERSION_TOKEN, 65542);
    assert_eq!(LOAD_VERSION_TOKEN, 0x0001_0006);
}

#[test]
fn load_publishes_vm_handle_once() {
    let mut b = Bridge::new();
    assert_eq!(b.vm_handle(), None);
    let first = b.load_module(7);
    assert_eq!(first, Ok(LOAD_VERSION_TOKEN));
    assert_eq!(b.vm_handle(), Some(7));
    let second = b.load_module(9);
    assert_eq!(second, Err(BridgeError::DoubleInit));
    assert_eq!(b.vm_handle(), Some(7));
}

#[test]
fn capture_before_load_reports_vm_unavailable() {
    let mut b = Bridge::new();
    let r = b.setup_class_loader(Some(11));
    assert_eq!(r, Err(BridgeError::VmUnavailable));
    assert_eq!(b.vm_handle(), None);
    assert_eq!(b.class_loader(), None);
    assert!(!b.pool_published);
}

#[test]
fn pool_construction_before_load_reports_vm_unavailable() {
    let mut b = Bridge::new();
    let r = b.create_runtime(true, Some(11), 4);
    assert!(matches!(r, Err(BridgeError::VmUnavailable)));
    assert!(!b.pool_published);
}

#[test]
fn failed_lookup_reports_class_loader_failure() {
    let mut b = Bridge::new();
    b.load_module(1).unwrap();
    let r = b.setup_class_loader(None);
    assert_eq!(r, Err(BridgeError::ClassLoaderFailure));
    assert_eq!(b.class_loader(), None);
}

#[test]
fn second_capture_rejected_first_kept() {
    let mut b = Bridge::new();
    b.load_module(1).unwrap();
    assert_eq!(b.setup_class_loader(Some(5)), Ok(()));
    assert_eq!(b.setup_class_loader(Some(6)), Err(BridgeError::DoubleInit));
    assert_eq!(b.class_loader(), Some(5));
    // the pool built afterwards carries the first captured reference,
    let mut pool = b.create_runtime(true, Some(6), 2).unwrap();
    assert_eq!(pool.loader, 5);
    // and an attached worker installs exactly that reference
    pool.begin_attach(0);
    pool.finish_attach(0, true);
    assert_eq!(pool.workers[0].context_loader, Some(5));
}

#[test]
fn failed_capture_blocks_pool_construction() {
    let mut b = Bridge::new();
    b.load_module(1).unwrap();
    let r = b.create_runtime(true, None, 4);
    assert!(matches!(r, Err(BridgeError::ClassLoaderFailure)));
    assert!(!b.pool_published);
    assert_eq!(b.class_loader(), None);
}

#[test]
fn failed_setup_attach_blocks_pool_construction() {
    let mut b = Bridge::new();
    b.load_module(1).unwrap();
    let r = b.create_runtime(false, Some(3), 4);
    assert!(matches!(r, Err(BridgeError::AttachFailure)));
    assert!(!b.pool_published);
    // a later attempt with a working attachment still succeeds
    let r2 = b.create_runtime(true, Some(3), 4);
    assert!(r2.is_ok());
    assert!(b.pool_published);
}

#[test]
fn second_pool_construction_rejected() {
    let mut b = Bridge::new();
    b.load_module(1).unwrap();
    let mut pool = b.create_runtime(true, Some(2), 2).unwrap();
    let again = b.create_runtime(true, Some(2), 2);
    assert!(matches!(again, Err(BridgeError::DoubleInit)));
    // the first pool handle remains usable
    pool.begin_attach(0);
    pool.finish_attach(0, true);
    pool.run_task(0);
    assert_eq!(pool.log.len(), 2);
}
