use dxsafe::Bool;
use dxsafe::Box3u;
use dxsafe::Shader4ComponentMapping;
use dxsafe::ShaderComponentMapping;
use dxsafe::VideoMemInfo;
use dxsafe::from_wchar_slice;

#[test]
fn bool_round_trips_through_native_values() {
    let t = Bool::from_win_bool(1);
    let f = Bool::from_win_bool(0);
    assert!(t.is_true());
    assert!(!f.is_true());
    assert_eq!(t.to_win_bool(), 1);
    assert_eq!(f.to_win_bool(), 0);
}

#[test]
fn bool_from_rust_bool() {
    assert!(Bool::from_bool(true).is_true());
    assert!(!Bool::from_bool(false).is_true());
    assert_eq!(Bool::from_bool(true), Bool::from_win_bool(1));
    assert_eq!(Bool::from_bool(false), Bool::from_win_bool(0));
}

#[test]
fn wchar_slice_stops_at_the_first_nul() {
    let chars = [104u16, 105, 0, 120, 0];
    assert_eq!(from_wchar_slice(&chars), vec![104, 105]);
}

#[test]
fn wchar_slice_without_nul_is_kept_whole() {
    let chars = [104u16, 105];
    assert_eq!(from_wchar_slice(&chars), vec![104, 105]);
}

#[test]
fn wchar_slice_edge_cases() {
    assert_eq!(from_wchar_slice(&[]), Vec::<u16>::new());
    assert_eq!(from_wchar_slice(&[0u16]), Vec::<u16>::new());
    assert_eq!(from_wchar_slice(&[0u16, 55]), Vec::<u16>::new());
}

#[test]
fn default_component_mapping_packs_identity() {
    // ((0 + 1) << (3 + 2)) << (3 * 2 + 3) << (3 * 3) = 1 << 23
    let mapping = Shader4ComponentMapping::default();
    assert_eq!(mapping.bits(), 1 << 23);
}

#[test]
fn component_mapping_packs_as_shipped() {
    // ((4 + 5) << (3 + 0)) << (3 * 2 + 1) << (3 * 3) = 9 << 19
    let mapping = Shader4ComponentMapping::new(
        ShaderComponentMapping::ForceValue0,
        ShaderComponentMapping::ForceValue1,
        ShaderComponentMapping::FromMemoryComponent0,
        ShaderComponentMapping::FromMemoryComponent1,
    );
    assert_eq!(mapping.bits(), 9 << 19);
    let zero = Shader4ComponentMapping::new(
        ShaderComponentMapping::FromMemoryComponent0,
        ShaderComponentMapping::FromMemoryComponent0,
        ShaderComponentMapping::FromMemoryComponent0,
        ShaderComponentMapping::FromMemoryComponent0,
    );
    assert_eq!(zero.bits(), 0);
}

#[test]
fn component_encodings_are_the_native_ones() {
    assert_eq!(ShaderComponentMapping::FromMemoryComponent0.bits(), 0);
    assert_eq!(ShaderComponentMapping::FromMemoryComponent1.bits(), 1);
    assert_eq!(ShaderComponentMapping::FromMemoryComponent2.bits(), 2);
    assert_eq!(ShaderComponentMapping::FromMemoryComponent3.bits(), 3);
    assert_eq!(ShaderComponentMapping::ForceValue0.bits(), 4);
    assert_eq!(ShaderComponentMapping::ForceValue1.bits(), 5);
}

#[test]
fn pod_structs_hold_their_fields() {
    let b = Box3u { left: 1, top: 2, front: 3, right: 4, bottom: 5, back: 6 };
    assert_eq!((b.left, b.top, b.front, b.right, b.bottom, b.back), (1, 2, 3, 4, 5, 6));
    let m = VideoMemInfo {
        budget: 10,
        current_usage: 20,
        available_for_reservation: 30,
        current_reservation: 40,
    };
    assert_eq!(m.budget, 10);
    assert_eq!(m.current_usage, 20);
    assert_eq!(m.available_for_reservation, 30);
    assert_eq!(m.current_reservation, 40);
}
