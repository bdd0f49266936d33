use hazptr::hazard::pair::{Hazard, FREE, RESERVED};

#[test]
fn protect_hazard() {
    let ptr: usize = 0x1000;

    let mut hazard = Hazard::new(ptr);
    assert_eq!(ptr, hazard.protected().unwrap().address());

    hazard.set_free();
    assert_eq!(None, hazard.protected());
    assert_eq!(FREE, hazard.load());

    hazard.set_reserved();
    assert_eq!(None, hazard.protected());
    assert_eq!(RESERVED, hazard.load());

    hazard.set_protected(ptr);
    assert_eq!(ptr, hazard.protected().unwrap().address());
}
