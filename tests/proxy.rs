use stylus_lottery::address::Address;
use stylus_lottery::proxy::{Error, VrfConsumerProxy};

fn addr(n: u8) -> Address {
    let mut bytes = [0u8; 20];
    bytes[19] = n;
    Address { bytes }
}

#[test]
fn proxy_needs_an_implementation_with_code() {
    assert_eq!(VrfConsumerProxy::constructor(Address::zero(), addr(1), 10).err(), Some(Error::ImplementationNotSet));
    assert_eq!(VrfConsumerProxy::constructor(addr(5), addr(1), 0).err(), Some(Error::ImplementationNotSet));
    assert_eq!(
        VrfConsumerProxy::constructor(addr(5), Address::zero(), 10).err(),
        Some(Error::InvalidOwner { owner: Address::zero() })
    );
    let (p, ev) = VrfConsumerProxy::constructor(addr(5), addr(1), 10).unwrap();
    assert_eq!(ev.implementation, addr(5));
    assert_eq!(p.get_implementation(), addr(5));
    assert_eq!(p.owner(), addr(1));
    assert_eq!(p.fallback(), Ok(addr(5)));
}

#[test]
fn proxy_upgrade_is_owner_only_and_checked() {
    let (mut p, _) = VrfConsumerProxy::constructor(addr(5), addr(1), 10).unwrap();
    assert_eq!(p.upgrade_implementation(addr(2), addr(6), 10).err(), Some(Error::UnauthorizedAccount { account: addr(2) }));
    assert_eq!(p.upgrade_implementation(addr(1), Address::zero(), 10).err(), Some(Error::ImplementationNotSet));
    assert_eq!(p.upgrade_implementation(addr(1), addr(6), 0).err(), Some(Error::ImplementationNotSet));
    assert_eq!(p.get_implementation(), addr(5));
    let ev = p.upgrade_implementation(addr(1), addr(6), 3).unwrap();
    assert_eq!(ev.implementation, addr(6));
    assert_eq!(p.get_implementation(), addr(6));
}

#[test]
fn proxy_receive_forwards_only_to_code() {
    let (p, _) = VrfConsumerProxy::constructor(addr(5), addr(1), 10).unwrap();
    assert_eq!(p.receive(4), Some(addr(5)));
    assert_eq!(p.receive(0), None);
}
