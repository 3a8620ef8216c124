use ngrok_java_native::error::ErrorKind;
use ngrok_java_native::registry::Registry;

#[test]
fn install_gives_fresh_handles() {
    let mut r: Registry<String> = Registry::new();
    let a = r.install("a".to_string());
    let b = r.install("b".to_string());
    assert_ne!(a, b);
    assert_eq!(r.borrow(a).unwrap(), "a");
    assert_eq!(r.borrow(b).unwrap(), "b");
    assert_eq!(r.len(), 2);
}

#[test]
fn taken_handle_is_gone() {
    let mut r: Registry<String> = Registry::new();
    let h = r.install("session".to_string());
    assert_eq!(r.take(h).unwrap(), "session");
    assert!(!r.contains(h));
    let e = r.borrow(h).unwrap_err();
    assert_eq!(e.kind, ErrorKind::NoNativeResource);
    assert_eq!(e.message(), "no native resource");
    assert_eq!(r.take(h).unwrap_err().kind, ErrorKind::NoNativeResource);
}

#[test]
fn unknown_handle_is_refused() {
    let r: Registry<u8> = Registry::new();
    assert_eq!(r.borrow(0).unwrap_err().kind, ErrorKind::NoNativeResource);
    assert_eq!(r.borrow(u64::MAX).unwrap_err().kind, ErrorKind::NoNativeResource);
}

#[test]
fn take_leaves_other_handles() {
    let mut r: Registry<u8> = Registry::new();
    let a = r.install(1);
    let b = r.install(2);
    r.take(a).unwrap();
    assert_eq!(*r.borrow(b).unwrap(), 2);
    let c = r.install(3);
    assert_ne!(c, a);
}
