use sysmon::probe::{
    display_gpu_info, fallback_sample, first_tool, get_gpu_info, one_decimal, primary_sample,
    secondary_sample, split_primary, tool_output, GPUInfo, ProbeError, ProbeStep, Tool, ToolRun,
};

fn text(v: Vec<char>) -> String {
    v.into_iter().collect()
}

fn sample(name: &str) -> GPUInfo {
    GPUInfo {
        name: name.to_string(),
        temperature: "45.0 °C".to_string(),
        utilization: "10.0 %".to_string(),
        memory_used: "1000 MB".to_string(),
        memory_total: "8000 MB".to_string(),
    }
}

#[test]
fn primary_line_is_split_into_trimmed_fields() {
    let l = split_primary(" RTX 9090 , 45.5,55 ,1000, 8000\n").ok().unwrap();
    assert_eq!(l.name, "RTX 9090");
    assert_eq!(l.temperature, "45.5");
    assert_eq!(l.utilization, "55");
    assert_eq!(l.memory_used, "1000");
    assert_eq!(l.memory_total, "8000");
}

#[test]
fn primary_line_with_extra_fields_is_accepted() {
    let l = split_primary("A,1,2,3,4,5").ok().unwrap();
    assert_eq!(l.name, "A");
    assert_eq!(l.memory_total, "4");
}

#[test]
fn primary_sample_renders_one_decimal_and_units() {
    let l = split_primary("RTX 9090,45.54,55,1000,8000").ok().unwrap();
    let s = primary_sample(&l, Some(455), Some(550));
    assert_eq!(s.name, "RTX 9090");
    assert_eq!(s.temperature, "45.5 °C");
    assert_eq!(s.utilization, "55.0 %");
    assert_eq!(s.memory_used, "1000 MB");
    assert_eq!(s.memory_total, "8000 MB");
}

#[test]
fn unreadable_temperature_renders_zero() {
    let l = split_primary("RTX 9090,N/A,55,1000,8000").ok().unwrap();
    let s = primary_sample(&l, None, Some(550));
    assert_eq!(s.temperature, "0.0 °C");
    assert_eq!(s.utilization, "55.0 %");
}

#[test]
fn one_decimal_exact_values() {
    assert_eq!(text(one_decimal(0)), "0.0");
    assert_eq!(text(one_decimal(7)), "0.7");
    assert_eq!(text(one_decimal(1234)), "123.4");
    assert_eq!(text(one_decimal(-15)), "-1.5");
    assert_eq!(text(one_decimal(i64::MIN)), "-922337203685477580.8");
}

#[test]
fn short_primary_line_is_parse_error_and_moves_on() {
    let r = split_primary("RTX 9090,45,55");
    assert!(matches!(r, Err(ProbeError::ParseError)));
    assert!(matches!(split_primary(""), Err(ProbeError::ParseError)));
    let step = get_gpu_info(Tool::Primary, Err(ProbeError::ParseError));
    assert!(matches!(step, ProbeStep::Run(Tool::Secondary)));
}

#[test]
fn secondary_load_without_temperature() {
    let s = secondary_sample("GPU Load: 42%");
    assert_eq!(s.utilization, "42%");
    assert_eq!(s.temperature, "");
    assert_eq!(s.name, "AMD Radeon");
    assert_eq!(s.memory_used, "");
    assert_eq!(s.memory_total, "");
}

#[test]
fn secondary_reads_every_marker() {
    let out = "header\nTemperature: Core 61C\nGPU[0] model: Radeon RX 7900\nGPU Load: 10 %\nnoise: x\n";
    let s = secondary_sample(out);
    assert_eq!(s.name, "Radeon RX 7900");
    assert_eq!(s.temperature, "Core 61°C");
    assert_eq!(s.utilization, "10 %");
}

#[test]
fn secondary_temperature_without_unit_gets_one() {
    assert_eq!(secondary_sample("Temperature: 55 ").temperature, "55°C");
    assert_eq!(secondary_sample("Temperature: 55 C").temperature, "55°C");
    assert_eq!(secondary_sample("Temperature: 55CC").temperature, "55C°C");
}

#[test]
fn secondary_line_without_colon_is_ignored() {
    let s = secondary_sample("GPU Load 42%\nTemperature\n");
    assert_eq!(s.utilization, "");
    assert_eq!(s.temperature, "");
}

#[test]
fn fallback_adapter_ram_in_decimal_megabytes() {
    let s = fallback_sample("AdapterRAM : 4294967296");
    assert_eq!(s.memory_total, "4294 MB");
    assert_eq!(s.name, "Unknown device");
    assert_eq!(s.temperature, "N/A (requires nvidia-smi or radeon-smi)");
    assert_eq!(s.utilization, "N/A (requires nvidia-smi or radeon-smi)");
    assert_eq!(s.memory_used, "N/A");
}

#[test]
fn fallback_reads_name_and_memory() {
    let s = fallback_sample("\r\n\r\nName       : NVIDIA GeForce GTX 1060\r\nAdapterRAM : +999999\r\n\r\n");
    assert_eq!(s.name, "NVIDIA GeForce GTX 1060");
    assert_eq!(s.memory_total, "0 MB");
}

#[test]
fn fallback_unreadable_memory_is_zero() {
    assert_eq!(fallback_sample("AdapterRAM : lots").memory_total, "0 MB");
    assert_eq!(fallback_sample("AdapterRAM : 99999999999999999999").memory_total, "0 MB");
    assert_eq!(fallback_sample("Name : X").memory_total, "N/A");
    assert_eq!(fallback_sample("").memory_total, "N/A");
}

#[test]
fn all_sources_missing_ends_with_error_report() {
    let mut tool = first_tool();
    assert_eq!(tool, Tool::Primary);
    let mut tried = 0;
    let result = loop {
        tried += 1;
        let outcome = tool_output(ToolRun::Missing).map(|_| sample("never"));
        match get_gpu_info(tool, outcome) {
            ProbeStep::Run(next) => tool = next,
            ProbeStep::Done(r) => break r,
        }
    };
    assert_eq!(tried, 3);
    assert!(matches!(result, Err(ProbeError::AllFailed)));
    assert_eq!(display_gpu_info(&result), "Error: All GPU detection methods failed");
}

#[test]
fn first_success_ends_the_probe() {
    let step = get_gpu_info(Tool::Secondary, Ok(sample("RX")));
    match step {
        ProbeStep::Done(Ok(s)) => assert_eq!(s.name, "RX"),
        _ => panic!("expected a sample"),
    }
    assert!(matches!(
        get_gpu_info(Tool::Secondary, Err(ProbeError::ToolError)),
        ProbeStep::Run(Tool::Fallback)
    ));
}

#[test]
fn tool_output_maps_each_run() {
    assert!(matches!(tool_output(ToolRun::Missing), Err(ProbeError::ToolNotFound)));
    assert!(matches!(tool_output(ToolRun::Failed), Err(ProbeError::ToolError)));
    assert_eq!(tool_output(ToolRun::Output("abc".to_string())).ok().unwrap(), "abc");
}

#[test]
fn error_messages() {
    assert_eq!(ProbeError::ToolNotFound.message(), "tool not found");
    assert_eq!(ProbeError::ToolError.message(), "tool exited with an error");
    assert_eq!(ProbeError::ParseError.message(), "unexpected tool output");
    assert_eq!(ProbeError::AllFailed.message(), "All GPU detection methods failed");
}

#[test]
fn report_lists_fields_in_order() {
    let r = display_gpu_info(&Ok(sample("RTX")));
    assert_eq!(
        r,
        "=== GPU Information ===\nName: RTX\nTemperature: 45.0 °C\nUsage: 10.0 %\nMemory Used: 1000 MB\nMemory Total: 8000 MB\n"
    );
    assert_eq!(display_gpu_info(&Err(ProbeError::ToolError)), "Error: tool exited with an error");
}

#[test]
fn probing_twice_gives_the_same_sample() {
    let out = "GPU model: RX 580\nTemperature: 60C\nGPU Load: 5%\n";
    let a = secondary_sample(out);
    let b = secondary_sample(out);
    assert_eq!(a.name, b.name);
    assert_eq!(a.temperature, b.temperature);
    assert_eq!(a.utilization, b.utilization);
    let c = fallback_sample("Name : X\nAdapterRAM : 2000000");
    let d = fallback_sample("Name : X\nAdapterRAM : 2000000");
    assert_eq!(c.name, d.name);
    assert_eq!(c.memory_total, d.memory_total);
    assert_eq!(display_gpu_info(&Ok(a)), display_gpu_info(&Ok(b)));
}
