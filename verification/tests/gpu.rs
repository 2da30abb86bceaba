use pc_monitor::gpu::GpuInfo;
use pc_monitor::sampler::GpuSample;

const REPORT: &str = r#"<?xml version="1.0" ?>
<!DOCTYPE nvidia_smi_log SYSTEM "nvsmi_device_v12.dtd">
<nvidia_smi_log>
	<timestamp>Mon Jan  1 00:00:00 2024</timestamp>
	<driver_version>535.54.03</driver_version>
	<attached_gpus>1</attached_gpus>
	<gpu id="00000000:01:00.0">
		<product_name>NVIDIA GeForce RTX 3070</product_name>
		<fb_memory_usage>
			<total>8192 MiB</total>
			<reserved>200 MiB</reserved>
			<used>1024 MiB</used>
			<free>6968 MiB</free>
		</fb_memory_usage>
		<utilization>
			<gpu_util>37 %</gpu_util>
			<memory_util>5 %</memory_util>
		</utilization>
	</gpu>
</nvidia_smi_log>
"#;

fn info(usage: &str, total: &str, used: &str) -> GpuInfo {
    GpuInfo {
        gpu_usage: usage.to_string(),
        vram_max: total.to_string(),
        vram_used: used.to_string(),
    }
}

#[test]
fn readings_are_taken_out_of_the_report() {
    assert_eq!(
        GpuInfo::get_gpu_info(REPORT),
        Some(info("\"37 %\"", "\"8192 MiB\"", "\"1024 MiB\""))
    );
}

#[test]
fn report_becomes_numbers() {
    let numbers = GpuInfo::get_gpu_info(REPORT).unwrap().numbers();
    assert_eq!(
        numbers,
        Some(GpuSample { usage: 37, vram_total: 8192 << 20, vram_used: 1024 << 20 })
    );
}

#[test]
fn report_without_the_readings_gives_null_texts() {
    let found = GpuInfo::get_gpu_info("<nvidia_smi_log><gpu><a>1</a></gpu></nvidia_smi_log>");
    assert_eq!(found, Some(info("null", "null", "null")));
    assert_eq!(found.unwrap().numbers(), None);
    let found = GpuInfo::get_gpu_info("");
    assert_eq!(found, Some(info("null", "null", "null")));
    let found = GpuInfo::get_gpu_info("not xml at all");
    assert_eq!(found, Some(info("null", "null", "null")));
}

#[test]
fn report_of_two_processors_gives_no_readings() {
    let xml = "<nvidia_smi_log>\
        <gpu><utilization><gpu_util>1 %</gpu_util></utilization></gpu>\
        <gpu><utilization><gpu_util>2 %</gpu_util></utilization></gpu>\
        </nvidia_smi_log>";
    assert_eq!(GpuInfo::get_gpu_info(xml), Some(info("null", "null", "null")));
}

#[test]
fn report_that_names_a_cdata_element_is_refused() {
    assert_eq!(GpuInfo::get_gpu_info("<a><#cdata><b/></#cdata><![CDATA[x]]></a>"), None);
    assert_eq!(GpuInfo::get_gpu_info("<#cdata/>"), None);
    assert_eq!(GpuInfo::get_gpu_info("text <#cdata"), None);
}

#[test]
fn cdata_sections_themselves_are_accepted() {
    let xml = "<nvidia_smi_log><gpu><utilization><gpu_util><![CDATA[37 %]]></gpu_util>\
        </utilization></gpu></nvidia_smi_log>";
    assert!(GpuInfo::get_gpu_info(xml).is_some());
}

#[test]
fn readings_are_taken_out_of_a_json_document() {
    let json: serde_json::Value = serde_json::from_str(
        r#"{"nvidia_smi_log": {"gpu": {
            "utilization": {"gpu_util": "5 %"},
            "fb_memory_usage": {"total": "100 MiB", "used": 7}
        }}}"#,
    )
    .unwrap();
    assert_eq!(GpuInfo::from_json(&json), info("\"5 %\"", "\"100 MiB\"", "7"));
}

#[test]
fn members_that_are_missing_read_as_null() {
    let json: serde_json::Value =
        serde_json::from_str(r#"{"nvidia_smi_log": {"gpu": [1, 2]}}"#).unwrap();
    assert_eq!(GpuInfo::from_json(&json), info("null", "null", "null"));
    let json: serde_json::Value = serde_json::from_str("17").unwrap();
    assert_eq!(GpuInfo::from_json(&json), info("null", "null", "null"));
}

#[test]
fn member_texts_are_compact_json() {
    let json: serde_json::Value = serde_json::from_str(
        r#"{"nvidia_smi_log": {"gpu": {
            "utilization": {"gpu_util": {"b": [1, "x\"y"], "a": null}},
            "fb_memory_usage": {"total": true, "used": -2.5}
        }}}"#,
    )
    .unwrap();
    assert_eq!(
        GpuInfo::from_json(&json),
        info(r#"{"a":null,"b":[1,"x\"y"]}"#, "true", "-2.5")
    );
}

#[test]
fn numbers_need_three_readings() {
    assert_eq!(
        info("\"37 %\"", "\"8192 MiB\"", "\"1024 MiB\"").numbers(),
        Some(GpuSample { usage: 37, vram_total: 8589934592, vram_used: 1073741824 })
    );
    assert_eq!(info("\"N/A\"", "\"8192 MiB\"", "\"1024 MiB\"").numbers(), None);
    assert_eq!(info("\"37 %\"", "null", "\"1024 MiB\"").numbers(), None);
    assert_eq!(info("\"37 %\"", "\"8192 MiB\"", "\"\"").numbers(), None);
}

#[test]
fn sizes_beyond_64_bits_are_refused() {
    // 2^44 MiB are 2^64 bytes
    assert_eq!(info("\"1 %\"", "\"17592186044416 MiB\"", "\"1 MiB\"").numbers(), None);
    assert_eq!(info("\"1 %\"", "\"1 MiB\"", "\"17592186044416 MiB\"").numbers(), None);
    assert_eq!(
        info("\"1 %\"", "\"17592186044415 MiB\"", "\"0 MiB\"").numbers(),
        Some(GpuSample { usage: 1, vram_total: 17592186044415 << 20, vram_used: 0 })
    );
}
