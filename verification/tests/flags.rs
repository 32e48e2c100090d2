//! Tests of the capability bitset: bit assignments, union, membership.

use die::flags::Capability;
use die::flags::ScanFlags;

#[test]
fn empty_has_no_bits() {
    assert_eq!(ScanFlags::empty().bits(), 0);
}

#[test]
fn each_capability_has_its_assigned_bit() {
    let cases: [(Capability, u32); 9] = [
        (Capability::DeepScan, 0x00000001),
        (Capability::HeuristicScan, 0x00000002),
        (Capability::AllTypesScan, 0x00000004),
        (Capability::RecursiveScan, 0x00000008),
        (Capability::Verbose, 0x00000010),
        (Capability::ResultAsXml, 0x00010000),
        (Capability::ResultAsJson, 0x00020000),
        (Capability::ResultAsTsv, 0x00040000),
        (Capability::ResultAsCsv, 0x00080000),
    ];
    for (cap, bit) in cases {
        assert_eq!(ScanFlags::capability(cap).bits(), bit);
    }
}

#[test]
fn union_is_bitwise_or() {
    let deep = ScanFlags::capability(Capability::DeepScan);
    let verbose = ScanFlags::capability(Capability::Verbose);
    let both = deep.union(verbose);
    assert_eq!(both.bits(), 0x00000011);
    assert!(both.contains(Capability::DeepScan));
    assert!(both.contains(Capability::Verbose));
    assert!(!both.contains(Capability::HeuristicScan));
    assert!(!both.contains(Capability::ResultAsJson));
}

#[test]
fn union_with_empty_changes_nothing() {
    let json = ScanFlags::capability(Capability::ResultAsJson);
    assert_eq!(json.union(ScanFlags::empty()).bits(), json.bits());
}
