//! The telemetry record: its fields, how a sample fills them, and its fixed
//! layout of 16 bytes on the wire.

use crate::gpu::{numbers_in, GpuInfo};
use crate::sampler::{sample, GpuSample, Sample};
use crate::scaling::{
    exponent_of, lemma_unit_labels, scale, tenths_of, unit_label, unit_name,
};
use vstd::prelude::*;
use vstd::string::StringExecFns;

verus! {

/// What a percentage field holds where its metric is not available.
pub const UNAVAILABLE: u8 = 255;

/// The number of bytes of a record on the wire.
pub const RECORD_LEN: usize = 16;

/// One telemetry record, as the peripheral expects it.
#[derive(Clone, Copy, Debug, PartialEq, Eq)]
pub struct SystemInfo {
    /// Processor load in percent, 0 to 100.
    pub cpu_usage: u8,
    /// Total memory in `ram_unit`, times ten.
    pub ram_max: u16,
    /// Memory in use in percent, 0 to 100.
    pub ram_usage: u8,
    /// The unit of `ram_max`, zero padded.
    pub ram_unit: [u8; 4],
    /// Graphics load in percent, 0 to 100, or 255 where none is known.
    pub gpu_usage: u8,
    /// Total graphics memory in `vram_unit`, times ten.
    pub vram_max: u16,
    /// Graphics memory in use in percent, 0 to 100, or 255 where none is known.
    pub vram_usage: u8,
    /// The unit of `vram_max`, zero padded; all zero where none is known.
    pub vram_unit: [u8; 4],
}

/// The mathematical content of a telemetry record.
pub struct Telemetry {
    pub cpu_usage: u8,
    pub ram_max: u16,
    pub ram_usage: u8,
    pub ram_unit: Seq<u8>,
    pub gpu_usage: u8,
    pub vram_max: u16,
    pub vram_usage: u8,
    pub vram_unit: Seq<u8>,
}

impl View for SystemInfo {
    type V = Telemetry;

    open spec fn view(&self) -> Telemetry {
        Telemetry {
            cpu_usage: self.cpu_usage,
            ram_max: self.ram_max,
            ram_usage: self.ram_usage,
            ram_unit: self.ram_unit@,
            gpu_usage: self.gpu_usage,
            vram_max: self.vram_max,
            vram_usage: self.vram_usage,
            vram_unit: self.vram_unit@,
        }
    }
}

/// `unit` is the label of one of the five units.
pub open spec fn is_unit_label(unit: Seq<u8>) -> bool {
    exists|exp: u8| exp <= 4 && unit == #[trigger] unit_label(exp)
}

/// The label that stands where no unit is known: four zero bytes.
pub open spec fn no_unit() -> Seq<u8> {
    seq![0u8, 0u8, 0u8, 0u8]
}

impl Telemetry {
    /// Every field holds what the record's layout allows it: a percentage
    /// is at most 100, or 255 where the layout allows "not available"; a unit
    /// is one of the five labels, or all zero where it may be unknown.
    pub open spec fn in_range(self) -> bool {
        &&& self.cpu_usage <= 100
        &&& self.ram_usage <= 100
        &&& (self.gpu_usage <= 100 || self.gpu_usage == UNAVAILABLE)
        &&& (self.vram_usage <= 100 || self.vram_usage == UNAVAILABLE)
        &&& is_unit_label(self.ram_unit)
        &&& (is_unit_label(self.vram_unit) || self.vram_unit == no_unit())
    }
}

/// `part` in percent of `whole`, rounded down and held to 100; 0 where
/// `whole` is 0.
pub open spec fn percent_of(part: u64, whole: u64) -> u8 {
    if whole == 0 {
        0
    } else if part * 100 / (whole as int) > 100 {
        100
    } else {
        (part * 100 / (whole as int)) as u8
    }
}

/// `value` held to 100.
pub open spec fn capped_percent(value: int) -> u8 {
    if value > 100 {
        100
    } else {
        value as u8
    }
}

/// The record that shows `sample`. Without a graphics report the graphics
/// fields hold the values that stand for "not available".
pub open spec fn record_of(sample: Sample) -> Telemetry {
    Telemetry {
        cpu_usage: capped_percent(sample.cpu as int),
        ram_max: tenths_of(sample.ram_total),
        ram_usage: percent_of(sample.ram_used, sample.ram_total),
        ram_unit: unit_label(exponent_of(sample.ram_total)),
        gpu_usage: match sample.gpu {
            Some(g) => capped_percent(g.usage as int),
            None => UNAVAILABLE,
        },
        vram_max: match sample.gpu {
            Some(g) => tenths_of(g.vram_total),
            None => 0,
        },
        vram_usage: match sample.gpu {
            Some(g) => percent_of(g.vram_used, g.vram_total),
            None => UNAVAILABLE,
        },
        vram_unit: match sample.gpu {
            Some(g) => unit_label(exponent_of(g.vram_total)),
            None => no_unit(),
        },
    }
}

/// The numbers of a graphics report, where there is a report and it holds
/// numbers.
pub open spec fn numbers_of(gpu: Option<GpuInfo>) -> Option<GpuSample> {
    match gpu {
        Some(info) => numbers_in(info@),
        None => None,
    }
}

/// `record` is the record of the sample with these four parts.
pub open spec fn shows(
    record: Telemetry,
    cpu: u32,
    ram_total: u64,
    ram_used: u64,
    gpu: Option<GpuSample>,
) -> bool {
    record == record_of(Sample { cpu, ram_total, ram_used, gpu })
}

/// The low byte of `v`.
pub open spec fn low_byte(v: u16) -> u8 {
    (v % 256) as u8
}

/// The high byte of `v`.
pub open spec fn high_byte(v: u16) -> u8 {
    (v / 256) as u8
}

/// The 16-bit value with low byte `low` and high byte `high`.
pub open spec fn word_of(low: u8, high: u8) -> u16 {
    (low + 256 * high) as u16
}

/// The record on the wire: 16 bytes at fixed offsets, the 16-bit fields with
/// their low byte first.
pub open spec fn wire_of(t: Telemetry) -> Seq<u8> {
    seq![t.cpu_usage, low_byte(t.ram_max), high_byte(t.ram_max), t.ram_usage] + t.ram_unit
        + seq![t.gpu_usage, low_byte(t.vram_max), high_byte(t.vram_max), t.vram_usage]
        + t.vram_unit
}

/// The record that `bytes` hold; `None` unless there are exactly 16 bytes.
pub open spec fn read_wire(bytes: Seq<u8>) -> Option<Telemetry> {
    if bytes.len() != RECORD_LEN {
        None
    } else {
        Some(
            Telemetry {
                cpu_usage: bytes[0],
                ram_max: word_of(bytes[1], bytes[2]),
                ram_usage: bytes[3],
                ram_unit: bytes.subrange(4, 8),
                gpu_usage: bytes[8],
                vram_max: word_of(bytes[9], bytes[10]),
                vram_usage: bytes[11],
                vram_unit: bytes.subrange(12, 16),
            },
        )
    }
}

/// Each field stands at its fixed offset, and the record fills 16 bytes.
pub proof fn lemma_wire_layout(t: Telemetry)
    requires
        t.ram_unit.len() == 4,
        t.vram_unit.len() == 4,
    ensures
        wire_of(t).len() == RECORD_LEN,
        wire_of(t)[0] == t.cpu_usage,
        wire_of(t)[1] == low_byte(t.ram_max),
        wire_of(t)[2] == high_byte(t.ram_max),
        wire_of(t)[3] == t.ram_usage,
        wire_of(t).subrange(4, 8) == t.ram_unit,
        wire_of(t)[8] == t.gpu_usage,
        wire_of(t)[9] == low_byte(t.vram_max),
        wire_of(t)[10] == high_byte(t.vram_max),
        wire_of(t)[11] == t.vram_usage,
        wire_of(t).subrange(12, 16) == t.vram_unit,
{
    assert(wire_of(t).subrange(4, 8) =~= t.ram_unit);
    assert(wire_of(t).subrange(12, 16) =~= t.vram_unit);
}

/// Decoding an encoded record gives the record back, whatever its fields
/// hold.
pub proof fn lemma_round_trip(t: Telemetry)
    requires
        t.ram_unit.len() == 4,
        t.vram_unit.len() == 4,
    ensures
        read_wire(wire_of(t)) == Some(t),
{
    lemma_wire_layout(t);
}

/// Encoding a decoded record gives the 16 bytes back.
pub proof fn lemma_wire_round_trip(bytes: Seq<u8>)
    requires
        bytes.len() == RECORD_LEN,
    ensures
        wire_of(read_wire(bytes).unwrap()) == bytes,
{
    assert(wire_of(read_wire(bytes).unwrap()) =~= bytes);
}

/// Decoding the bytes of any record gives that record's content back.
pub proof fn lemma_record_round_trip(record: SystemInfo)
    ensures
        wire_of(record@).len() == RECORD_LEN,
        read_wire(wire_of(record@)) == Some(record@),
{
    lemma_round_trip(record@);
}

/// A record is what its content says: two records with the same content are
/// the same record.
pub proof fn lemma_content_is_record(a: SystemInfo, b: SystemInfo)
    requires
        a@ == b@,
    ensures
        a == b,
{
    assert(a.ram_unit =~= b.ram_unit);
    assert(a.vram_unit =~= b.vram_unit);
}

/// `part` in percent of `whole`, rounded down and held to 100; 0 where
/// `whole` is 0.
pub fn percent(part: u64, whole: u64) -> (share: u8)
    ensures
        share == percent_of(part, whole),
        share <= 100,
{
    if whole == 0 {
        return 0;
    }
    let exact: u128 = (part as u128) * 100 / (whole as u128);
    if exact > 100 {
        100
    } else {
        exact as u8
    }
}

impl SystemInfo {
    /// The record that shows `sample`.
    pub fn from_sample(sample: &Sample) -> (record: SystemInfo)
        ensures
            record@ == record_of(*sample),
            record@.in_range(),
    {
        let cpu_usage: u8 = if sample.cpu > 100 {
            100
        } else {
            sample.cpu as u8
        };
        let ram = scale(sample.ram_total);
        let ram_usage = percent(sample.ram_used, sample.ram_total);
        let record = match sample.gpu {
            Some(g) => {
                let vram = scale(g.vram_total);
                SystemInfo {
                    cpu_usage,
                    ram_max: ram.tenths,
                    ram_usage,
                    ram_unit: ram.unit,
                    gpu_usage: if g.usage > 100 {
                        100
                    } else {
                        g.usage as u8
                    },
                    vram_max: vram.tenths,
                    vram_usage: percent(g.vram_used, g.vram_total),
                    vram_unit: vram.unit,
                }
            },
            None => SystemInfo {
                cpu_usage,
                ram_max: ram.tenths,
                ram_usage,
                ram_unit: ram.unit,
                gpu_usage: UNAVAILABLE,
                vram_max: 0,
                vram_usage: UNAVAILABLE,
                vram_unit: [0u8; 4],
            },
        };
        assert(record@.vram_unit =~= record_of(*sample).vram_unit);
        record
    }

    /// Whether `unit` is the label of one of the five units.
    pub fn names_a_unit(unit: &[u8; 4]) -> (ok: bool)
        ensures
            ok == is_unit_label(unit@),
    {
        proof {
            lemma_unit_labels();
        }
        let ok = unit[2] == 0 && unit[3] == 0 && ((unit[0] == 0x42 && unit[1] == 0) || (unit[1]
            == 0x42 && (unit[0] == 0x4b || unit[0] == 0x4d || unit[0] == 0x47 || unit[0]
            == 0x54)));
        proof {
            if ok {
                let exp: u8 = if unit[0] == 0x42 {
                    0
                } else if unit[0] == 0x4b {
                    1
                } else if unit[0] == 0x4d {
                    2
                } else if unit[0] == 0x47 {
                    3
                } else {
                    4
                };
                assert(unit@ =~= unit_label(exp));
            } else {
                assert forall|exp: u8| exp <= 4 implies unit@ != #[trigger] unit_label(exp) by {
                    let label = unit_label(exp);
                    if unit@ == label {
                        assert(unit@[0] == label[0] && unit@[1] == label[1] && unit@[2]
                            == label[2] && unit@[3] == label[3]);
                    }
                }
            }
        }
        ok
    }

    /// Takes a fresh sample of the host through `system` and makes the
    /// record of it. `gpu` is the graphics processor's report, where the
    /// tool gave one; a report that holds no numbers counts as none. What
    /// the host reports is not known beforehand: the record shows some
    /// sample whose graphics part is the one given.
    pub fn get_system_info(system: &mut sysinfo::System, gpu: Option<GpuInfo>) -> (record:
        SystemInfo)
        ensures
            record@.in_range(),
            exists|cpu: u32, ram_total: u64, ram_used: u64| #[trigger]
                shows(record@, cpu, ram_total, ram_used, numbers_of(gpu)),
    {
        let numbers = match gpu {
            Some(info) => info.numbers(),
            None => None,
        };
        let taken = sample(system, numbers);
        let record = SystemInfo::from_sample(&taken);
        assert(shows(record@, taken.cpu, taken.ram_total, taken.ram_used, numbers_of(gpu)));
        record
    }

    /// The record's 16 bytes on the wire.
    pub fn encode(&self) -> (bytes: [u8; 16])
        ensures
            bytes@ == wire_of(self@),
    {
        let bytes: [u8; 16] = [
            self.cpu_usage,
            (self.ram_max % 256) as u8,
            (self.ram_max / 256) as u8,
            self.ram_usage,
            self.ram_unit[0],
            self.ram_unit[1],
            self.ram_unit[2],
            self.ram_unit[3],
            self.gpu_usage,
            (self.vram_max % 256) as u8,
            (self.vram_max / 256) as u8,
            self.vram_usage,
            self.vram_unit[0],
            self.vram_unit[1],
            self.vram_unit[2],
            self.vram_unit[3],
        ];
        assert(bytes@ =~= wire_of(self@));
        bytes
    }

    /// Reads a record from its bytes on the wire; `None` unless there are
    /// exactly 16 of them.
    pub fn decode(bytes: &[u8]) -> (record: Option<SystemInfo>)
        ensures
            match record {
                Some(r) => read_wire(bytes@) == Some(r@),
                None => read_wire(bytes@) is None,
            },
    {
        if bytes.len() != RECORD_LEN {
            return None;
        }
        let record = SystemInfo {
            cpu_usage: bytes[0],
            ram_max: bytes[1] as u16 + 256 * (bytes[2] as u16),
            ram_usage: bytes[3],
            ram_unit: [bytes[4], bytes[5], bytes[6], bytes[7]],
            gpu_usage: bytes[8],
            vram_max: bytes[9] as u16 + 256 * (bytes[10] as u16),
            vram_usage: bytes[11],
            vram_unit: [bytes[12], bytes[13], bytes[14], bytes[15]],
        };
        assert(record@.ram_unit =~= bytes@.subrange(4, 8));
        assert(record@.vram_unit =~= bytes@.subrange(12, 16));
        Some(record)
    }

    /// Whether every field lies in its documented range.
    pub fn is_in_range(&self) -> (ok: bool)
        ensures
            ok == self@.in_range(),
    {
        let unknown = self.vram_unit[0] == 0 && self.vram_unit[1] == 0 && self.vram_unit[2] == 0
            && self.vram_unit[3] == 0;
        assert(unknown == (self.vram_unit@ == no_unit())) by {
            if unknown {
                assert(self.vram_unit@ =~= no_unit());
            }
        }
        self.cpu_usage <= 100 && self.ram_usage <= 100 && (self.gpu_usage <= 100
            || self.gpu_usage == UNAVAILABLE) && (self.vram_usage <= 100 || self.vram_usage
            == UNAVAILABLE) && SystemInfo::names_a_unit(&self.ram_unit) && (
        SystemInfo::names_a_unit(&self.vram_unit) || unknown)
    }

    /// The name of the unit with exponent `exp`: `B`, `KB`, `MB`, `GB`, `TB`,
    /// and `UB` for an exponent above 4.
    pub fn get_unit(exp: u8) -> (name: String)
        ensures
            name@ == unit_name(exp),
    {
        proof {
            reveal_strlit("B");
            reveal_strlit("KB");
            reveal_strlit("MB");
            reveal_strlit("GB");
            reveal_strlit("TB");
            reveal_strlit("UB");
        }
        let name = if exp == 0 {
            "B"
        } else if exp == 1 {
            "KB"
        } else if exp == 2 {
            "MB"
        } else if exp == 3 {
            "GB"
        } else if exp == 4 {
            "TB"
        } else {
            "UB"
        };
        assert(name@ =~= unit_name(exp));
        String::from_str(name)
    }
}

} // verus!
