use mesh_llm::benchmark::{
    benchmark_backend_name, benchmark_marker_name, build_benchmark_result, cached_result,
    check_gpus, failure_detail, fingerprint_outputs, hardware_changed, judge_child,
    marked_backend, parse_benchmark_backend, parse_benchmark_backend_from_path, per_gpu_names,
    requested_backend, result_of, usable_outputs, BenchmarkBackend, BenchmarkError,
    BenchmarkOutput, ChildEnding, HardwareSurvey, BENCHMARK_TIMEOUT_SECS,
};

fn survey(name: Option<&str>, vram: &[u64]) -> HardwareSurvey {
    HardwareSurvey {
        gpu_count: vram.len(),
        gpu_name: name.map(|name| name.to_string()),
        gpu_vram: vram.to_vec(),
        is_soc: false,
    }
}

fn output(p90: f64, fp32: Option<f64>) -> BenchmarkOutput<f64> {
    BenchmarkOutput {
        p50_gbps: p90 - 1.0,
        p90_gbps: p90,
        compute_tflops_fp32: fp32,
        compute_tflops_fp16: None,
    }
}

#[test]
fn backends_have_names() {
    for backend in [
        BenchmarkBackend::Metal,
        BenchmarkBackend::Cuda,
        BenchmarkBackend::Hip,
        BenchmarkBackend::Intel,
    ] {
        let name = benchmark_backend_name(backend);
        assert_eq!(parse_benchmark_backend(name), Some(backend));
        assert_eq!(parse_benchmark_backend(&name.to_uppercase()), Some(backend));
        let marker = benchmark_marker_name(backend);
        assert_eq!(marker, format!("mesh-llm-benchmark-{name}"));
        let path = format!("/opt/bin/{marker}");
        assert_eq!(parse_benchmark_backend_from_path(Some(&marker), &path), Some(backend));
        let inside = format!("in-process:{name}");
        assert_eq!(parse_benchmark_backend_from_path(Some(&inside), &inside), Some(backend));
    }
    assert_eq!(parse_benchmark_backend("vulkan"), None);
    assert_eq!(parse_benchmark_backend(""), None);
    assert_eq!(parse_benchmark_backend_from_path(None, "in-process:cuda"), None);
    assert_eq!(parse_benchmark_backend_from_path(Some("cuda"), "/cuda"), None);
    assert_eq!(
        parse_benchmark_backend_from_path(Some("mesh-llm-benchmark-x"), "in-process:cuda"),
        None
    );
    assert_eq!(BENCHMARK_TIMEOUT_SECS, 25);
}

#[test]
fn summarized_names_are_expanded() {
    assert_eq!(per_gpu_names(&survey(Some("A, B"), &[1, 2])), vec!["A", "B"]);
    assert_eq!(per_gpu_names(&survey(Some("2× A , B"), &[1, 2, 3])), vec!["A", "A", "B"]);
    assert_eq!(per_gpu_names(&survey(Some(" 8× NVIDIA A100"), &[])).len(), 8);
    assert_eq!(per_gpu_names(&survey(Some("A"), &[1, 2])), vec!["A", "A"]);
    assert_eq!(per_gpu_names(&survey(Some("x× A"), &[1])), vec!["x× A"]);
    assert_eq!(per_gpu_names(&survey(Some("A,,B,"), &[1, 2])), vec!["A", "B"]);
    assert!(per_gpu_names(&survey(Some("  "), &[1])).is_empty());
    assert!(per_gpu_names(&survey(None, &[1])).is_empty());
}

#[test]
fn measurements_are_used_while_the_hardware_stays() {
    let hw = survey(Some("A, B"), &[10, 20]);
    let outputs = [output(100.0, Some(1.0)), output(200.0, Some(2.0)), output(300.0, None)];
    let (fingerprint, result) = fingerprint_outputs(&hw, &outputs, 77);
    assert_eq!(fingerprint.timestamp_secs, 77);
    assert_eq!(fingerprint.gpus.len(), 2);
    assert_eq!(fingerprint.gpus[1].name, "B");
    assert_eq!(fingerprint.gpus[1].vram_bytes, 20);
    assert_eq!(result.mem_bandwidth_gbps, vec![100.0, 200.0]);
    assert_eq!(result.compute_tflops_fp32, Some(vec![1.0, 2.0]));
    assert_eq!(result.compute_tflops_fp16, None);
    assert!(!hardware_changed(&fingerprint, &hw));
    let again = cached_result(Some(&fingerprint), &hw).unwrap();
    assert_eq!(again.mem_bandwidth_gbps, result.mem_bandwidth_gbps);
    assert_eq!(again.compute_tflops_fp32, result.compute_tflops_fp32);
    assert_eq!(result_of(&fingerprint.gpus).mem_bandwidth_gbps, vec![100.0, 200.0]);
    assert!(hardware_changed(&fingerprint, &survey(Some("A, B"), &[10, 21])));
    assert!(hardware_changed(&fingerprint, &survey(Some("A, C"), &[10, 20])));
    assert!(hardware_changed(&fingerprint, &survey(Some("A"), &[10])));
    let mut soc = survey(Some("A, B"), &[10, 20]);
    soc.is_soc = true;
    assert!(hardware_changed(&fingerprint, &soc));
    assert!(cached_result(Some(&fingerprint), &soc).is_none());
    assert!(cached_result::<f64>(None, &hw).is_none());
}

#[test]
fn partial_measurements_are_not_used_again() {
    let hw = survey(Some("A, B"), &[10, 20]);
    let (fingerprint, result) = fingerprint_outputs(&hw, &[output(100.0, None)], 1);
    assert_eq!(result.mem_bandwidth_gbps, vec![100.0]);
    assert_eq!(result.compute_tflops_fp32, None);
    assert!(cached_result(Some(&fingerprint), &hw).is_none());
}

#[test]
fn unnamed_gpus_are_measured_without_names() {
    let hw = survey(None, &[10]);
    let (gpus, _) = build_benchmark_result(&hw, &[output(5.0, None), output(6.0, None)]);
    assert_eq!(gpus.len(), 1);
    assert_eq!(gpus[0].name, "");
    assert_eq!(gpus[0].p50_gbps, 4.0);
}

#[test]
fn nothing_is_measured_without_gpus() {
    assert!(check_gpus(&survey(Some("A"), &[1])).is_ok());
    let error = check_gpus(&survey(None, &[])).unwrap_err();
    assert_eq!(error.message(), "no GPUs detected on this node");
    assert_eq!(failure_detail(" boom \n"), Some("boom".to_string()));
    assert_eq!(failure_detail(" \n"), None);
}

#[test]
fn backends_are_asked_for_by_name() {
    assert_eq!(requested_backend("CUDA").unwrap(), BenchmarkBackend::Cuda);
    assert_eq!(
        requested_backend("vulkan").unwrap_err().message(),
        "unsupported benchmark backend vulkan"
    );
    let marker = "mesh-llm-benchmark-hip";
    assert_eq!(
        marked_backend(Some(marker), "/bin/mesh-llm-benchmark-hip").unwrap(),
        BenchmarkBackend::Hip
    );
    assert_eq!(
        marked_backend(Some("mesh-llm"), "/bin/mesh-llm").unwrap_err().message(),
        "unknown benchmark runner marker /bin/mesh-llm"
    );
    let none = BenchmarkError::NoBackend { platform: "None".to_string() };
    assert_eq!(
        none.message(),
        "no supported benchmark backend found for detected GPU platform None"
    );
}

#[test]
fn failed_measurements_are_explained() {
    let stopped = || ChildEnding::Stopped { seconds: "25.0".to_string() };
    let exited = |success: bool| ChildEnding::Exited {
        success,
        status: "exit status: 3".to_string(),
    };
    assert_eq!(
        judge_child(stopped(), "").unwrap_err().message(),
        "benchmark timed out after 25.0s"
    );
    assert_eq!(
        judge_child(stopped(), " stuck\n").unwrap_err().message(),
        "benchmark timed out after 25.0s: stuck"
    );
    assert_eq!(
        judge_child(exited(false), "\n").unwrap_err().message(),
        "benchmark child exited with status exit status: 3"
    );
    assert_eq!(
        judge_child(exited(false), "no device").unwrap_err().message(),
        "benchmark child failed: no device"
    );
    assert!(judge_child(exited(true), "warning").is_ok());
    assert_eq!(usable_outputs(Some(vec![output(5.0, None)])).unwrap().len(), 1);
    assert_eq!(
        usable_outputs::<f64>(Some(vec![])).unwrap_err().message(),
        "benchmark child returned invalid output"
    );
    assert!(usable_outputs::<f64>(None).is_err());
}
