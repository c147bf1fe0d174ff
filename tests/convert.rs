use uncon_derive::{FromUnchecked, IntoUnchecked};

struct U4(u8);

impl FromUnchecked<u8> for U4 {
    fn from_unchecked(byte: u8) -> U4 {
        U4(byte)
    }
}

#[test]
fn into_mirrors_from() {
    let a = U4::from_unchecked(0b1010);
    let b: U4 = 0b1010u8.into_unchecked();
    assert_eq!(a.0, 0b1010);
    assert_eq!(b.0, a.0);
}
