use pc_monitor::scaling::{exponent, scale, unit_size, Scaled, FIELD_MAX};
use pc_monitor::system_info::SystemInfo;

const KIB: u64 = 1024;
const MIB: u64 = 1024 * 1024;
const GIB: u64 = 1024 * 1024 * 1024;
const TIB: u64 = 1024 * 1024 * 1024 * 1024;

#[test]
fn a_power_of_1024_keeps_the_exponent_below() {
    assert_eq!(scale(KIB).exponent, 0);
    assert_eq!(scale(MIB).exponent, 1);
    assert_eq!(scale(GIB).exponent, 2);
    assert_eq!(scale(TIB).exponent, 3);
}

#[test]
fn one_byte_above_a_power_of_1024_reaches_its_exponent() {
    assert_eq!(scale(KIB + 1).exponent, 1);
    assert_eq!(scale(MIB + 1).exponent, 2);
    assert_eq!(scale(GIB + 1).exponent, 3);
    assert_eq!(scale(TIB + 1).exponent, 4);
}

#[test]
fn smallest_magnitudes_have_exponent_zero() {
    assert_eq!(scale(0), Scaled { exponent: 0, tenths: 0, unit: [b'B', 0, 0, 0] });
    assert_eq!(scale(1), Scaled { exponent: 0, tenths: 10, unit: [b'B', 0, 0, 0] });
    assert_eq!(scale(2), Scaled { exponent: 0, tenths: 20, unit: [b'B', 0, 0, 0] });
    assert_eq!(scale(1024), Scaled { exponent: 0, tenths: 10240, unit: [b'B', 0, 0, 0] });
}

#[test]
fn eight_gibibytes_are_eighty_tenths_of_a_gigabyte() {
    assert_eq!(
        scale(8589934592),
        Scaled { exponent: 3, tenths: 80, unit: [b'G', b'B', 0, 0] }
    );
}

#[test]
fn each_exponent_has_its_label() {
    assert_eq!(scale(500).unit, [b'B', 0, 0, 0]);
    assert_eq!(scale(2 * KIB).unit, [b'K', b'B', 0, 0]);
    assert_eq!(scale(2 * MIB).unit, [b'M', b'B', 0, 0]);
    assert_eq!(scale(2 * GIB).unit, [b'G', b'B', 0, 0]);
    assert_eq!(scale(2 * TIB).unit, [b'T', b'B', 0, 0]);
}

#[test]
fn tenths_are_rounded_to_the_nearest() {
    // 1.5 KB
    assert_eq!(scale(1536).tenths, 15);
    // 1.04 KB rounds down, 1.06 KB rounds up
    assert_eq!(scale(1065).tenths, 10);
    assert_eq!(scale(1086).tenths, 11);
    // 1075.2 bytes are 1.05 KB: 1075 lies below, 1076 above
    assert_eq!(scale(1075).tenths, 10);
    assert_eq!(scale(1076).tenths, 11);
    // 15.95 GB lies between these two
    assert_eq!(scale(17126182092).tenths, 159);
    assert_eq!(scale(17126182093).tenths, 160);
    assert_eq!(scale(16 * GIB).tenths, 160);
    assert_eq!(scale(12 * GIB + GIB / 2).tenths, 125);
}

#[test]
fn a_half_is_rounded_up() {
    // 1280 bytes are 1.25 KB exactly
    assert_eq!(scale(1280).tenths, 13);
    // 3.75 MB exactly
    assert_eq!(scale(3 * MIB + 3 * MIB / 4).tenths, 38);
}

#[test]
fn tenths_that_exceed_the_field_are_held_to_its_limit() {
    assert_eq!(scale(u64::MAX), Scaled { exponent: 4, tenths: FIELD_MAX, unit: [b'T', b'B', 0, 0] });
    assert_eq!(scale(7000 * TIB).tenths, 65535);
    // 6553.4 TB is the last value below the limit
    assert_eq!(scale(6553 * TIB + 4 * TIB / 10).tenths, 65534);
    assert_eq!(scale(6553 * TIB + 5 * TIB / 10).tenths, 65535);
    assert_eq!(scale(6000 * TIB).tenths, 60000);
}

#[test]
fn exponent_and_unit_size_go_together() {
    assert_eq!(exponent(0), 0);
    assert_eq!(exponent(u64::MAX), 4);
    assert_eq!(unit_size(0), 1);
    assert_eq!(unit_size(1), KIB);
    assert_eq!(unit_size(2), MIB);
    assert_eq!(unit_size(3), GIB);
    assert_eq!(unit_size(4), TIB);
}

#[test]
fn unit_names() {
    assert_eq!(SystemInfo::get_unit(0), "B");
    assert_eq!(SystemInfo::get_unit(1), "KB");
    assert_eq!(SystemInfo::get_unit(2), "MB");
    assert_eq!(SystemInfo::get_unit(3), "GB");
    assert_eq!(SystemInfo::get_unit(4), "TB");
    assert_eq!(SystemInfo::get_unit(5), "UB");
    assert_eq!(SystemInfo::get_unit(255), "UB");
}
