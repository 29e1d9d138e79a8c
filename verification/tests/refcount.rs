use dxsafe::ComPtr;
use dxsafe::ComRuntime;
use dxsafe::WinError;
use dxsafe::comptr::refcount_balance;

#[test]
fn runtime_starts_empty() {
    let rt = ComRuntime::new();
    assert_eq!(rt.num_objects(), 0);
}

#[test]
fn register_creates_singly_referenced_object() {
    let mut rt = ComRuntime::new();
    let ptr = rt.register();
    assert_eq!(ptr, 1);
    assert_eq!(rt.num_objects(), 1);
    assert_eq!(rt.live_count(ptr), 1);
}

#[test]
fn adopt_does_not_touch_the_count() {
    let mut rt = ComRuntime::new();
    let ptr = rt.register();
    let handle = ComPtr::new(ptr);
    assert_eq!(rt.live_count(ptr), 1);
    assert_eq!(handle.as_ptr(), ptr);
}

#[test]
fn clone_increments_and_release_decrements() {
    let mut rt = ComRuntime::new();
    let ptr = rt.register();
    let first = ComPtr::new(ptr);
    let second = first.clone_handle(&mut rt);
    assert_eq!(rt.live_count(ptr), 2);
    assert_eq!(second.as_ptr(), ptr);
    second.release(&mut rt);
    assert_eq!(rt.live_count(ptr), 1);
    first.release(&mut rt);
    assert_eq!(rt.live_count(ptr), 0);
}

#[test]
fn balance_is_zero_for_many_clones() {
    let mut rt = ComRuntime::new();
    let ptr = rt.register();
    let first = ComPtr::new(ptr);
    let mut clones = Vec::new();
    for _ in 0..7 {
        clones.push(first.clone_handle(&mut rt));
    }
    assert_eq!(rt.live_count(ptr), 8);
    for handle in clones {
        handle.release(&mut rt);
    }
    first.release(&mut rt);
    assert_eq!(rt.live_count(ptr), 0);
}

#[test]
fn balance_holds_for_all_n_by_the_proved_scenario() {
    let mut rt = ComRuntime::new();
    let ptr = refcount_balance(&mut rt, 0);
    assert_eq!(rt.live_count(ptr), 0);
    let ptr = refcount_balance(&mut rt, 5);
    assert_eq!(rt.live_count(ptr), 0);
    assert_eq!(rt.num_objects(), 2);
}

#[test]
fn balance_leaves_other_objects_untouched() {
    let mut rt = ComRuntime::new();
    let keep = rt.register();
    let kept_handle = ComPtr::new(keep);
    let extra = kept_handle.clone_handle(&mut rt);
    assert_eq!(rt.live_count(keep), 2);
    let ptr = refcount_balance(&mut rt, 3);
    assert_eq!(rt.live_count(keep), 2);
    assert_eq!(rt.live_count(ptr), 0);
    extra.release(&mut rt);
    kept_handle.release(&mut rt);
    assert_eq!(rt.live_count(keep), 0);
}

#[test]
fn handles_compare_by_pointer_identity() {
    let mut rt = ComRuntime::new();
    let a = rt.register();
    let b = rt.register();
    let ha = ComPtr::new(a);
    let hb = ComPtr::new(b);
    let ha_alias = ha.clone_handle(&mut rt);
    assert_eq!(ha, ha_alias);
    assert_ne!(ha, hb);
    assert_eq!(ha.as_ptr(), ha.as_mut_ptr());
    ha_alias.release(&mut rt);
    ha.release(&mut rt);
    hb.release(&mut rt);
}

#[test]
fn win_error_carries_its_code() {
    let e = WinError::new(-42);
    assert_eq!(e.hresult(), -42);
}

#[test]
fn from_hresult_classifies_codes() {
    assert!(WinError::from_hresult(0).is_ok());
    assert!(WinError::from_hresult(1).is_ok());
    let e = WinError::from_hresult(-1).unwrap_err();
    assert_eq!(e.hresult(), -1);
}
