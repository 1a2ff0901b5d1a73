use pong_rust::lifetime::{EngineResources, LedgerError, Resource, ResourceKind, ResourceStack};

fn res(kind: ResourceKind, handle: u64) -> Resource {
    Resource { kind, handle }
}

#[test]
fn stack_releases_newest_first() {
    let mut s = ResourceStack::new();
    s.push(ResourceKind::Buffer, 1).unwrap();
    s.push(ResourceKind::DeviceMemory, 2).unwrap();
    s.push(ResourceKind::DescriptorPool, 3).unwrap();
    assert_eq!(s.len(), 3);
    assert_eq!(
        s.release_all(),
        vec![
            res(ResourceKind::DescriptorPool, 3),
            res(ResourceKind::DeviceMemory, 2),
            res(ResourceKind::Buffer, 1)
        ]
    );
    assert_eq!(s.len(), 0);
    assert!(!s.is_destroyed());
    assert_eq!(s.push(ResourceKind::Buffer, 4), Ok(()));
}

#[test]
fn teardown_twice_releases_once() {
    let mut s = ResourceStack::new();
    s.push(ResourceKind::Fence, 9).unwrap();
    assert_eq!(s.teardown(), vec![res(ResourceKind::Fence, 9)]);
    assert!(s.is_destroyed());
    assert_eq!(s.teardown(), vec![]);
    assert_eq!(s.push(ResourceKind::Fence, 10), Err(LedgerError::AlreadyTornDown));
    assert_eq!(s.len(), 0);
}

#[test]
fn engine_teardown_order_and_idempotence() {
    let mut e = EngineResources::new();
    e.core.push(ResourceKind::Instance, 1).unwrap();
    e.core.push(ResourceKind::Device, 2).unwrap();
    e.core.push(ResourceKind::CommandPool, 3).unwrap();
    e.swapchain.push(ResourceKind::Swapchain, 10).unwrap();
    e.swapchain.push(ResourceKind::Pipeline, 11).unwrap();
    e.models.push(ResourceKind::Buffer, 20).unwrap();
    e.sync.push(ResourceKind::Semaphore, 30).unwrap();
    e.sync.push(ResourceKind::Fence, 31).unwrap();
    let first = e.teardown();
    assert_eq!(
        first,
        vec![
            res(ResourceKind::Fence, 31),
            res(ResourceKind::Semaphore, 30),
            res(ResourceKind::Pipeline, 11),
            res(ResourceKind::Swapchain, 10),
            res(ResourceKind::Buffer, 20),
            res(ResourceKind::CommandPool, 3),
            res(ResourceKind::Device, 2),
            res(ResourceKind::Instance, 1),
        ]
    );
    assert_eq!(e.teardown(), vec![]);
}
