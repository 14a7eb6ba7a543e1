use anvil_recompress::chunk::{REGION_CHUNKS, REGION_SIDE};
use anvil_recompress::text::{decimal, ends_with, signed_decimal};
use anvil_recompress::RelativeChunkPos;

#[test]
fn positions_keep_their_coordinates() {
    let pos = RelativeChunkPos::new(31, 7);
    assert_eq!(pos.x(), 31);
    assert_eq!(pos.z(), 7);
    assert_eq!(pos, RelativeChunkPos::new(31, 7));
    assert_ne!(pos, RelativeChunkPos::new(7, 31));
    assert_eq!(RelativeChunkPos::new(0, 0).x(), 0);
}

#[test]
fn positions_are_shown_with_both_coordinates() {
    assert_eq!(RelativeChunkPos::new(3, 14).to_text(), "(3, 14)");
    assert_eq!(RelativeChunkPos::new(0, 31).to_text(), "(0, 31)");
}

#[test]
fn all_positions_come_in_storage_order() {
    let all = RelativeChunkPos::all();
    assert_eq!(all.len(), REGION_CHUNKS);
    assert_eq!(usize::from(REGION_SIDE) * usize::from(REGION_SIDE), REGION_CHUNKS);
    assert_eq!(all[0], RelativeChunkPos::new(0, 0));
    assert_eq!(all[1], RelativeChunkPos::new(1, 0));
    assert_eq!(all[32], RelativeChunkPos::new(0, 1));
    assert_eq!(all[1023], RelativeChunkPos::new(31, 31));
    for (i, pos) in all.iter().enumerate() {
        assert_eq!(pos.x() + 32 * pos.z(), i);
    }
}

#[test]
fn numbers_are_written_in_decimal() {
    assert_eq!(decimal(0), "0");
    assert_eq!(decimal(1_000_000), "1000000");
    assert_eq!(decimal(u64::MAX), "18446744073709551615");
    assert_eq!(signed_decimal(-1), "-1");
    assert_eq!(signed_decimal(42), "42");
    assert_eq!(signed_decimal(i64::MIN), "-9223372036854775808");
}

#[test]
fn suffixes_are_compared_whole() {
    assert!(ends_with("r.0.0.mca", ".mca"));
    assert!(ends_with("naïve.mca", ".mca"));
    assert!(ends_with(".mca", ".mca"));
    assert!(ends_with("anything", ""));
    assert!(!ends_with("mca", ".mca"));
    assert!(!ends_with("r.0.0.mcr", ".mca"));
    assert!(!ends_with("r.0.0.mca.bak", ".mca"));
}
