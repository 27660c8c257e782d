use cbind::binding::{Binding, NULL_HANDLE};

struct Remote {
    handle: usize,
}

impl Binding for Remote {
    fn raw_spec(&self) -> usize {
        self.handle
    }

    fn from_raw(raw: usize) -> Remote {
        Remote { handle: raw }
    }

    fn raw(&self) -> usize {
        self.handle
    }
}

#[test]
fn wrap_then_unwrap_returns_the_handle() {
    let r = Remote::from_raw(0x1f00);
    assert_eq!(r.raw(), 0x1f00);
}

#[test]
fn null_handle_wraps_to_none() {
    assert!(Remote::from_raw_opt(NULL_HANDLE).is_none());
}

#[test]
fn non_null_handle_wraps_to_some() {
    let wrapped = Remote::from_raw_opt(42).unwrap();
    assert_eq!(wrapped.raw(), Remote::from_raw(42).raw());
}
