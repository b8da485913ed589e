use pubg::{EncryptedPtr64, TArray};

#[test]
fn encrypted_pointer_basics() {
    let p: EncryptedPtr64<u64> = EncryptedPtr64::new(0xDEAD_BEEF);
    assert_eq!(p.address, 0xDEAD_BEEF);
    assert!(!p.is_null());
    assert_eq!(p.encrypted_target(), Some(0xDEAD_BEEF));
    let q: EncryptedPtr64<TArray> = p.cast();
    assert_eq!(q.address, 0xDEAD_BEEF);
    let c = p.clone();
    assert_eq!(c, p);
}

#[test]
fn null_encrypted_pointer_has_no_target() {
    let p: EncryptedPtr64<TArray> = EncryptedPtr64::from(0);
    assert!(p.is_null());
    assert_eq!(p.encrypted_target(), None);
    let q: EncryptedPtr64<TArray> = 7u64.into();
    assert_eq!(q.address, 7);
}
