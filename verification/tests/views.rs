use tsl2591::{DelayLog, Enable, ScriptedBus, Status, Tsl2591};

#[test]
fn enable_view_reads_named_bits() {
    let e = Enable(0x93);
    assert!(e.PON());
    assert!(e.AEN());
    assert!(e.AIEN());
    assert!(e.NPIEN());
    let off = Enable(0x00);
    assert!(!off.PON());
    assert!(!off.AEN());
    assert!(!off.AIEN());
    assert!(!off.NPIEN());
    let pon_only = Enable(0x01);
    assert!(pon_only.PON());
    assert!(!pon_only.AEN());
}

#[test]
fn status_view_reads_named_bits() {
    let s = Status(0x11);
    assert!(s.AVALID());
    assert!(s.AINT());
    assert_eq!(s.NPINTR(), 0x1);
    let s2 = Status(0x60);
    assert!(!s2.AVALID());
    assert!(!s2.AINT());
    assert_eq!(s2.NPINTR(), 0x6);
}

#[test]
fn get_enable_wraps_fresh_snapshot() {
    let bus = ScriptedBus::new(vec![vec![0x50], vec![0x93]]);
    let mut driver: Tsl2591<ScriptedBus, DelayLog> = Tsl2591::new(bus).unwrap();
    let e = driver.get_enable().unwrap();
    assert_eq!(e.0, 0x93);
    assert!(e.PON());
}

#[test]
fn get_status_wraps_fresh_snapshot() {
    let bus = ScriptedBus::new(vec![vec![0x50], vec![0x01]]);
    let mut driver: Tsl2591<ScriptedBus, DelayLog> = Tsl2591::new(bus).unwrap();
    let s = driver.get_status().unwrap();
    assert_eq!(s.0, 0x01);
    assert!(s.AVALID());
}
