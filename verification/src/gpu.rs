//! The graphics processor's report: the three readings that the vendor tool
//! prints in XML, taken out of the document and turned into numbers.

use crate::helpers::{nvd_r2u64, reading_of};
use crate::sampler::GpuSample;
use crate::text::{chars_of, contains, contains_chars};
use vstd::prelude::*;

verus! {

/// The JSON documents of `serde_json`, opaque to the verifier.
#[verifier::external_type_specification]
#[verifier::external_body]
pub struct ExJsonValue(serde_json::Value);

/// The error of `xmltojson`, opaque to the verifier.
#[verifier::external_type_specification]
#[verifier::external_body]
pub struct ExXmlError(xmltojson::Error);

/// What a JSON document holds, as the compact text that `serde_json` writes
/// for it.
pub uninterp spec fn json_text(value: serde_json::Value) -> Seq<char>;

/// The text of the JSON document that `xmltojson::to_json` makes of `xml`;
/// `None` where it reports an error.
pub uninterp spec fn xml_as_json(xml: Seq<char>) -> Option<Seq<char>>;

/// The text of the member that indexing the JSON document with text `doc` by
/// `key` gives.
pub uninterp spec fn json_member(doc: Seq<char>, key: Seq<char>) -> Seq<char>;

/// One mebibyte in bytes.
pub const MIB: u64 = 0x10_0000;

/// The start of an element named `#cdata`.
pub open spec fn cdata_tag() -> Seq<char> {
    seq!['<', '#', 'c', 'd', 'a', 't', 'a']
}

/// The three readings of a report, as the tool printed them.
#[derive(Clone, Debug, PartialEq, Eq)]
pub struct GpuInfo {
    /// Load, such as `"37 %"`, in its quotes.
    pub gpu_usage: String,
    /// Total memory, such as `"8192 MiB"`, in its quotes.
    pub vram_max: String,
    /// Memory in use, such as `"1024 MiB"`, in its quotes.
    pub vram_used: String,
}

/// The mathematical content of a `GpuInfo`.
pub struct GpuReport {
    pub gpu_usage: Seq<char>,
    pub vram_max: Seq<char>,
    pub vram_used: Seq<char>,
}

impl View for GpuInfo {
    type V = GpuReport;

    open spec fn view(&self) -> GpuReport {
        GpuReport {
            gpu_usage: self.gpu_usage@,
            vram_max: self.vram_max@,
            vram_used: self.vram_used@,
        }
    }
}

/// The member `inner` of the member `outer` of the document with text `doc`.
pub open spec fn json_member2(doc: Seq<char>, outer: Seq<char>, inner: Seq<char>) -> Seq<char> {
    json_member(json_member(doc, outer), inner)
}

/// The readings in the JSON document with text `doc`: under
/// `nvidia_smi_log.gpu`, the members `utilization.gpu_util`,
/// `fb_memory_usage.total` and `fb_memory_usage.used`.
pub open spec fn report_in(doc: Seq<char>) -> GpuReport {
    let gpu = json_member2(doc, "nvidia_smi_log"@, "gpu"@);
    GpuReport {
        gpu_usage: json_member2(gpu, "utilization"@, "gpu_util"@),
        vram_max: json_member2(gpu, "fb_memory_usage"@, "total"@),
        vram_used: json_member2(gpu, "fb_memory_usage"@, "used"@),
    }
}

/// The readings in the tool's XML output: none where the output names an
/// element `#cdata` or cannot be converted.
pub open spec fn report_of_xml(xml: Seq<char>) -> Option<GpuReport> {
    if contains(xml, cdata_tag()) {
        None
    } else {
        match xml_as_json(xml) {
            Some(doc) => Some(report_in(doc)),
            None => None,
        }
    }
}

/// `mebibytes` in bytes; `None` where that exceeds 64 bits.
pub open spec fn bytes_of_mib(mebibytes: u64) -> Option<u64> {
    if mebibytes * MIB <= u64::MAX {
        Some((mebibytes * MIB) as u64)
    } else {
        None
    }
}

/// The numbers that a report's three readings write: the load as it stands,
/// the two memory sizes turned from mebibytes into bytes. `None` where one of
/// them is no number or a size exceeds 64 bits.
pub open spec fn numbers_in(report: GpuReport) -> Option<GpuSample> {
    match (reading_of(report.gpu_usage), reading_of(report.vram_max), reading_of(report.vram_used)) {
        (Some(usage), Some(total), Some(used)) => match (bytes_of_mib(total), bytes_of_mib(used)) {
            (Some(vram_total), Some(vram_used)) => Some(GpuSample { usage, vram_total, vram_used }),
            _ => None,
        },
        _ => None,
    }
}

/// Calls `xmltojson::to_json`. The conversion depends on the input alone; the
/// text of the document it returns is named `xml_as_json`, and nothing more
/// is claimed of it. The converter unwraps the text of an earlier `#cdata`
/// entry whenever it meets a CDATA section, and panics where that entry came
/// from an element of that name; so the input must not name such an element.
#[verifier::external_body]
fn xml_to_json(xml: &str) -> (converted: Result<serde_json::Value, xmltojson::Error>)
    requires
        !contains(xml@, cdata_tag()),
    ensures
        match converted {
            Ok(value) => xml_as_json(xml@) == Some(json_text(value)),
            Err(_) => xml_as_json(xml@) is None,
        },
{
    xmltojson::to_json(xml)
}

/// Indexes a `serde_json::Value` by a key: the member of that name where the
/// value is an object that has one, and the null value otherwise. The compact
/// text of a document tells what it holds, so the member's text depends on the
/// document's text and the key alone; it is named `json_member`.
#[verifier::external_body]
fn member<'a>(value: &'a serde_json::Value, key: &str) -> (found: &'a serde_json::Value)
    ensures
        json_text(*found) == json_member(json_text(*value), key@),
{
    &value[key]
}

/// Calls `to_string` of a `serde_json::Value`, which writes the document as
/// compact JSON text: the text that `json_text` names.
#[verifier::external_body]
fn text_of(value: &serde_json::Value) -> (text: String)
    ensures
        text@ == json_text(*value),
{
    value.to_string()
}

impl GpuInfo {
    /// Takes the three readings out of a converted report.
    pub fn from_json(json: &serde_json::Value) -> (info: GpuInfo)
        ensures
            info@ == report_in(json_text(*json)),
    {
        let gpu = member(member(json, "nvidia_smi_log"), "gpu");
        let memory = member(gpu, "fb_memory_usage");
        GpuInfo {
            vram_max: text_of(member(memory, "total")),
            gpu_usage: text_of(member(member(gpu, "utilization"), "gpu_util")),
            vram_used: text_of(member(memory, "used")),
        }
    }

    /// Reads the vendor tool's XML output. `None` where the output cannot be
    /// converted.
    pub fn get_gpu_info(xml: &str) -> (info: Option<GpuInfo>)
        ensures
            match info {
                Some(i) => report_of_xml(xml@) == Some(i@),
                None => report_of_xml(xml@) is None,
            },
    {
        let text = chars_of(xml);
        let tag: Vec<char> = vec!['<', '#', 'c', 'd', 'a', 't', 'a'];
        assert(tag@ =~= cdata_tag());
        if contains_chars(&text, &tag) {
            return None;
        }
        match xml_to_json(xml) {
            Ok(json) => Some(GpuInfo::from_json(&json)),
            Err(_) => None,
        }
    }

    /// The report as numbers; `None` where a reading is no number.
    pub fn numbers(&self) -> (numbers: Option<GpuSample>)
        ensures
            numbers == numbers_in(self@),
    {
        let usage = match nvd_r2u64(self.gpu_usage.clone()) {
            Some(n) => n,
            None => {
                return None;
            },
        };
        let total = match nvd_r2u64(self.vram_max.clone()) {
            Some(n) => n,
            None => {
                return None;
            },
        };
        let used = match nvd_r2u64(self.vram_used.clone()) {
            Some(n) => n,
            None => {
                return None;
            },
        };
        let vram_total = match total.checked_mul(MIB) {
            Some(n) => n,
            None => {
                return None;
            },
        };
        let vram_used = match used.checked_mul(MIB) {
            Some(n) => n,
            None => {
                return None;
            },
        };
        Some(GpuSample { usage, vram_total, vram_used })
    }
}

} // verus!
