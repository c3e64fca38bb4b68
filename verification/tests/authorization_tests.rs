//! Tests of the authorization wire codes.

use keysas::KeysasAuthorization;

#[test]
fn file_codes_of_authorizations() {
    assert_eq!(KeysasAuthorization::AuthAllowRead.to_u8_file(), 1);
    assert_eq!(KeysasAuthorization::AuthAllowAll.to_u8_file(), 2);
    assert_eq!(KeysasAuthorization::AuthUnknown.to_u8_file(), 0);
    assert_eq!(KeysasAuthorization::AuthPending.to_u8_file(), 0);
    assert_eq!(KeysasAuthorization::AuthBlock.to_u8_file(), 0);
    assert_eq!(KeysasAuthorization::AuthAllowWarning.to_u8_file(), 0);
}

#[test]
fn authorizations_of_file_codes() {
    assert_eq!(KeysasAuthorization::from_u8_file(1), KeysasAuthorization::AuthAllowRead);
    assert_eq!(KeysasAuthorization::from_u8_file(2), KeysasAuthorization::AuthAllowAll);
    assert_eq!(KeysasAuthorization::from_u8_file(0), KeysasAuthorization::AuthBlock);
    assert_eq!(KeysasAuthorization::from_u8_file(3), KeysasAuthorization::AuthBlock);
    assert_eq!(KeysasAuthorization::from_u8_file(255), KeysasAuthorization::AuthBlock);
}
