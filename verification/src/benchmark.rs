//! How fast the memory of this node's GPUs is, and whether what was measured
//! before still holds.
//!
//! Measured values are of a type `M` that is only stored and reported.

use crate::number::{parse_unsigned, parsed};
use crate::scan::{
    after_prefix, find_char, index_of, parts, split, strip_prefix, trim, trimmed,
};
use crate::text::{chars_of, concat, same_text, string_between, texts};
use vstd::prelude::*;

verus! {

/// The GPUs of a node, as they were found.
#[derive(Debug)]
pub struct HardwareSurvey {
    pub gpu_count: usize,
    /// The names of the GPUs, in one text.
    pub gpu_name: Option<String>,
    pub gpu_vram: Vec<u64>,
    pub is_soc: bool,
}

/// What was measured of one device.
#[derive(Debug, Clone, Copy)]
pub struct BenchmarkOutput<M> {
    pub p50_gbps: M,
    pub p90_gbps: M,
    pub compute_tflops_fp32: Option<M>,
    pub compute_tflops_fp16: Option<M>,
}

/// What a GPU is and what was measured of it.
#[derive(Debug)]
pub struct GpuBandwidth<M> {
    pub name: String,
    pub vram_bytes: u64,
    pub p50_gbps: M,
    pub p90_gbps: M,
    pub compute_tflops_fp32: Option<M>,
    pub compute_tflops_fp16: Option<M>,
}

/// What was measured of all GPUs, in device order.
#[derive(Debug)]
pub struct BenchmarkFingerprint<M> {
    pub gpus: Vec<GpuBandwidth<M>>,
    pub is_soc: bool,
    pub timestamp_secs: u64,
}

/// What is told of the measurement.
#[derive(Debug, PartialEq)]
pub struct BenchmarkResult<M> {
    pub mem_bandwidth_gbps: Vec<M>,
    pub compute_tflops_fp32: Option<Vec<M>>,
    pub compute_tflops_fp16: Option<Vec<M>>,
}

/// A measurement that was written to a file.
#[derive(Debug, PartialEq)]
pub struct SavedBenchmark<M> {
    pub path: String,
    pub result: BenchmarkResult<M>,
}

/// How long a measurement may take, in seconds.
pub const BENCHMARK_TIMEOUT_SECS: u64 = 25;

/// The ways to measure.
#[derive(Debug, Clone, Copy, PartialEq, Eq, Structural)]
pub enum BenchmarkBackend {
    Metal,
    Cuda,
    Hip,
    Intel,
}

impl BenchmarkBackend {
    /// The name of the way to measure.
    pub open spec fn name(self) -> Seq<char> {
        match self {
            BenchmarkBackend::Metal => "metal"@,
            BenchmarkBackend::Cuda => "cuda"@,
            BenchmarkBackend::Hip => "hip"@,
            BenchmarkBackend::Intel => "intel"@,
        }
    }
}

/// The name of a way to measure.
pub fn benchmark_backend_name(backend: BenchmarkBackend) -> (name: &'static str)
    ensures
        name@ == backend.name(),
{
    match backend {
        BenchmarkBackend::Metal => "metal",
        BenchmarkBackend::Cuda => "cuda",
        BenchmarkBackend::Hip => "hip",
        BenchmarkBackend::Intel => "intel",
    }
}

/// An ASCII letter in lower case; any other character as it is.
pub open spec fn lower_code(c: char) -> int {
    if 'A' <= c && c <= 'Z' {
        c as u32 + 32
    } else {
        c as u32 as int
    }
}

/// Whether two texts are the same but for the case of ASCII letters.
pub open spec fn same_ignoring_case(left: Seq<char>, right: Seq<char>) -> bool {
    &&& left.len() == right.len()
    &&& forall|i: int|
        0 <= i < left.len() ==> lower_code(#[trigger] left[i]) == lower_code(right[i])
}

fn lowered_code(c: char) -> (code: u32)
    ensures
        code == lower_code(c),
{
    if 'A' <= c && c <= 'Z' {
        c as u32 + 32
    } else {
        c as u32
    }
}

fn equal_ignoring_case(left: &str, right: &str) -> (same: bool)
    ensures
        same == same_ignoring_case(left@, right@),
{
    let a = chars_of(left);
    let b = chars_of(right);
    if a.len() != b.len() {
        return false;
    }
    let mut i: usize = 0;
    while i < a.len()
        invariant
            i <= a@.len(),
            a@ == left@,
            b@ == right@,
            a@.len() == b@.len(),
            forall|k: int| 0 <= k < i ==> lower_code(#[trigger] a@[k]) == lower_code(b@[k]),
        decreases a@.len() - i,
    {
        if lowered_code(a[i]) != lowered_code(b[i]) {
            return false;
        }
        i += 1;
    }
    true
}

/// The way to measure that a name stands for, in any case.
pub open spec fn backend_named(name: Seq<char>) -> Option<BenchmarkBackend> {
    if same_ignoring_case(name, "metal"@) {
        Some(BenchmarkBackend::Metal)
    } else if same_ignoring_case(name, "cuda"@) {
        Some(BenchmarkBackend::Cuda)
    } else if same_ignoring_case(name, "hip"@) {
        Some(BenchmarkBackend::Hip)
    } else if same_ignoring_case(name, "intel"@) {
        Some(BenchmarkBackend::Intel)
    } else {
        None
    }
}

/// The way to measure that a name stands for, in any case.
pub fn parse_benchmark_backend(name: &str) -> (backend: Option<BenchmarkBackend>)
    ensures
        backend == backend_named(name@),
{
    if equal_ignoring_case(name, "metal") {
        Some(BenchmarkBackend::Metal)
    } else if equal_ignoring_case(name, "cuda") {
        Some(BenchmarkBackend::Cuda)
    } else if equal_ignoring_case(name, "hip") {
        Some(BenchmarkBackend::Hip)
    } else if equal_ignoring_case(name, "intel") {
        Some(BenchmarkBackend::Intel)
    } else {
        None
    }
}

/// The name of the file that stands for a way to measure.
pub open spec fn marker_of(backend: BenchmarkBackend) -> Seq<char> {
    "mesh-llm-benchmark-"@ + backend.name()
}

/// The name of the file that stands for a way to measure.
pub fn benchmark_marker_name(backend: BenchmarkBackend) -> (name: String)
    ensures
        name@ == marker_of(backend),
{
    concat("mesh-llm-benchmark-".to_owned(), benchmark_backend_name(backend))
}

/// The way to measure that a path stands for: by the name of its file, or by
/// the path as a whole.
pub open spec fn backend_of_path(file_name: Option<Seq<char>>, path: Seq<char>) -> Option<
    BenchmarkBackend,
> {
    match file_name {
        None => None,
        Some(file_name) => match after_prefix(file_name, "mesh-llm-benchmark-"@) {
            Some(name) => backend_named(name),
            None => match after_prefix(path, "in-process:"@) {
                Some(name) => backend_named(name),
                None => None,
            },
        },
    }
}

/// The text of the last part of a path, where it has one.
pub open spec fn file_name_text(file_name: Option<&str>) -> Option<Seq<char>> {
    match file_name {
        Some(file_name) => Some(file_name@),
        None => None,
    }
}

/// The way to measure that a path stands for; `file_name` is its last part,
/// where it has one.
pub fn parse_benchmark_backend_from_path(file_name: Option<&str>, path: &str) -> (backend: Option<
    BenchmarkBackend,
>)
    ensures
        backend == backend_of_path(file_name_text(file_name), path@),
{
    match file_name {
        None => None,
        Some(file_name) => match strip_prefix(file_name, "mesh-llm-benchmark-") {
            Some(name) => parse_benchmark_backend(name.as_str()),
            None => match strip_prefix(path, "in-process:") {
                Some(name) => parse_benchmark_backend(name.as_str()),
                None => None,
            },
        },
    }
}

/// The marker of a way to measure stands for it.
pub proof fn law_marker_stands_for_backend(backend: BenchmarkBackend, path: Seq<char>)
    ensures
        backend_of_path(Some(marker_of(backend)), path) == Some(backend),
{
    let prefix = "mesh-llm-benchmark-"@;
    let marker = marker_of(backend);
    assert(marker.subrange(0, prefix.len() as int) =~= prefix);
    assert(marker.skip(prefix.len() as int) =~= backend.name());
    reveal_strlit("metal");
    reveal_strlit("cuda");
    reveal_strlit("hip");
    reveal_strlit("intel");
    assert("metal"@[0] == 'm' && "intel"@[0] == 'i');
}

/// So many copies of a text.
pub open spec fn copies(text: Seq<char>, count: nat) -> Seq<Seq<char>> {
    Seq::new(count, |i: int| text)
}

/// The GPUs that one part of the names stands for: so many of a kind, where
/// the part says how many, and one otherwise.
pub open spec fn part_names(part: Seq<char>) -> Seq<Seq<char>> {
    let name = trimmed(part);
    let at = index_of(name, '×');
    let counted = if at < name.len() {
        parsed(trimmed(name.take(at)), usize::MAX as nat)
    } else {
        None
    };
    if name.len() == 0 {
        seq![]
    } else {
        match counted {
            Some(count) => copies(trimmed(name.skip(at + 1)), count),
            None => seq![name],
        }
    }
}

/// The GPUs that a list of parts stands for.
pub open spec fn all_names(list: Seq<Seq<char>>) -> Seq<Seq<char>>
    decreases list.len(),
{
    if list.len() == 0 {
        seq![]
    } else {
        all_names(list.drop_last()) + part_names(list.last())
    }
}

/// The names of a node's GPUs, one for each. Where the names do not come out
/// at the number of GPUs, all share the name as it is.
pub open spec fn gpu_names(gpu_name: Option<Seq<char>>, gpus: nat) -> Seq<Seq<char>> {
    match gpu_name {
        None => seq![],
        Some(name) => {
            let raw = trimmed(name);
            let names = all_names(parts(raw, ','));
            if raw.len() == 0 {
                seq![]
            } else if names.len() == gpus || gpus == 0 {
                names
            } else {
                copies(raw, gpus)
            }
        },
    }
}

impl HardwareSurvey {
    /// The names of the GPUs, one for each.
    pub open spec fn names(self) -> Seq<Seq<char>> {
        gpu_names(
            match self.gpu_name {
                Some(name) => Some(name@),
                None => None,
            },
            self.gpu_vram@.len(),
        )
    }
}

fn push_copies(names: &mut Vec<String>, name: &str, count: usize)
    ensures
        texts(final(names)@) == texts(old(names)@) + copies(name@, count as nat),
{
    let ghost before = texts(names@);
    let mut i: usize = 0;
    assert(texts(names@) =~= before + copies(name@, 0));
    while i < count
        invariant
            i <= count,
            texts(names@) == before + copies(name@, i as nat),
        decreases count - i,
    {
        let ghost so_far = texts(names@);
        names.push(name.to_owned());
        assert(texts(names@) =~= so_far.push(name@));
        assert(texts(names@) =~= before + copies(name@, (i + 1) as nat));
        i += 1;
    }
}

fn push_part_names(names: &mut Vec<String>, part: &str)
    ensures
        texts(final(names)@) == texts(old(names)@) + part_names(part@),
{
    let ghost before = texts(names@);
    let name = trim(part);
    if name.as_str().is_empty() {
        assert(texts(names@) =~= before + part_names(part@));
        return;
    }
    let chars = chars_of(name.as_str());
    assert(chars@.skip(0) =~= chars@);
    let at: usize = find_char(chars.as_slice(), '×', 0);
    if at < chars.len() {
        let count_text = string_between(chars.as_slice(), 0, at);
        let rest = string_between(chars.as_slice(), at + 1, chars.len());
        assert(count_text@ =~= name@.take(at as int));
        assert(rest@ =~= name@.skip(at + 1));
        let count_trimmed = trim(count_text.as_str());
        if let Some(count) = parse_unsigned(count_trimmed.as_str(), usize::MAX as u64) {
            let kind = trim(rest.as_str());
            push_copies(names, kind.as_str(), count as usize);
            return;
        }
    }
    names.push(name);
    assert(texts(names@) =~= before + part_names(part@));
}

/// The names of the GPUs, one for each.
pub fn per_gpu_names(hw: &HardwareSurvey) -> (names: Vec<String>)
    ensures
        texts(names@) == hw.names(),
{
    let mut names: Vec<String> = Vec::new();
    let raw = match &hw.gpu_name {
        Some(name) => trim(name.as_str()),
        None => {
            assert(texts(names@) =~= hw.names());
            return names;
        },
    };
    if raw.as_str().is_empty() {
        assert(texts(names@) =~= hw.names());
        return names;
    }
    let list = split(raw.as_str(), ',');
    let ghost all = texts(list@);
    let mut i: usize = 0;
    assert(texts(names@) =~= all_names(all.take(0)));
    while i < list.len()
        invariant
            i <= list@.len(),
            all == texts(list@),
            texts(names@) == all_names(all.take(i as int)),
        decreases list@.len() - i,
    {
        push_part_names(&mut names, list[i].as_str());
        proof {
            let now = all.take(i + 1);
            assert(now.drop_last() =~= all.take(i as int));
            assert(now.last() == list@[i as int]@);
        }
        i += 1;
    }
    assert(all.take(i as int) =~= all);
    assert(texts(names@).len() == names@.len());
    if names.len() == hw.gpu_vram.len() || hw.gpu_vram.len() == 0 {
        return names;
    }
    let mut same: Vec<String> = Vec::new();
    push_copies(&mut same, raw.as_str(), hw.gpu_vram.len());
    assert(texts(same@) =~= hw.names());
    same
}

/// Whether the GPUs of a fingerprint are those of the node.
pub open spec fn same_hardware<M>(fingerprint: BenchmarkFingerprint<M>, hw: HardwareSurvey) -> bool {
    &&& fingerprint.is_soc == hw.is_soc
    &&& fingerprint.gpus@.len() == hw.names().len()
    &&& fingerprint.gpus@.len() == hw.gpu_vram@.len()
    &&& forall|i: int|
        0 <= i < fingerprint.gpus@.len() ==> (#[trigger] fingerprint.gpus@[i]).name@
            == hw.names()[i] && fingerprint.gpus@[i].vram_bytes == hw.gpu_vram@[i]
}

/// Whether the node has other GPUs than the fingerprint.
pub fn hardware_changed<M>(fingerprint: &BenchmarkFingerprint<M>, hw: &HardwareSurvey) -> (changed:
    bool)
    ensures
        changed == !same_hardware(*fingerprint, *hw),
{
    if fingerprint.is_soc != hw.is_soc {
        return true;
    }
    let names = per_gpu_names(hw);
    assert(texts(names@).len() == names@.len());
    if fingerprint.gpus.len() != names.len() || fingerprint.gpus.len() != hw.gpu_vram.len() {
        return true;
    }
    let mut i: usize = 0;
    while i < fingerprint.gpus.len()
        invariant
            i <= fingerprint.gpus@.len(),
            texts(names@) == hw.names(),
            fingerprint.gpus@.len() == names@.len(),
            fingerprint.gpus@.len() == hw.gpu_vram@.len(),
            fingerprint.is_soc == hw.is_soc,
            forall|k: int|
                0 <= k < i ==> (#[trigger] fingerprint.gpus@[k]).name@ == hw.names()[k]
                    && fingerprint.gpus@[k].vram_bytes == hw.gpu_vram@[k],
        decreases fingerprint.gpus@.len() - i,
    {
        assert(hw.names()[i as int] == names@[i as int]@);
        if !same_text(fingerprint.gpus[i].name.as_str(), names[i].as_str())
            || fingerprint.gpus[i].vram_bytes != hw.gpu_vram[i] {
            return true;
        }
        i += 1;
    }
    false
}

/// The values, if none is missing.
pub open spec fn all_known<M>(values: Seq<Option<M>>) -> Option<Seq<M>> {
    if forall|i: int| 0 <= i < values.len() ==> (#[trigger] values[i]) is Some {
        Some(Seq::new(values.len(), |i: int| values[i]->0))
    } else {
        None
    }
}

/// What is told of the GPUs of a fingerprint.
pub open spec fn result_tells<M>(gpus: Seq<GpuBandwidth<M>>, result: BenchmarkResult<M>) -> bool {
    &&& result.mem_bandwidth_gbps@ == gpus.map_values(|gpu: GpuBandwidth<M>| gpu.p90_gbps)
    &&& all_known(compute_rates(gpus, false)) == (
    match result.compute_tflops_fp32 {
        Some(values) => Some(values@),
        None => None,
    })
    &&& all_known(compute_rates(gpus, true)) == (
    match result.compute_tflops_fp16 {
        Some(values) => Some(values@),
        None => None,
    })
}

/// The compute rates of the GPUs, in half precision or in single.
pub open spec fn compute_rates<M>(gpus: Seq<GpuBandwidth<M>>, half: bool) -> Seq<Option<M>> {
    Seq::new(
        gpus.len(),
        |i: int|
            if half {
                gpus[i].compute_tflops_fp16
            } else {
                gpus[i].compute_tflops_fp32
            },
    )
}

fn collect_known<M: Copy>(gpus: &Vec<GpuBandwidth<M>>, half: bool) -> (values: Option<Vec<M>>)
    ensures
        all_known(compute_rates(gpus@, half)) == (match values {
            Some(values) => Some(values@),
            None => None,
        }),
{
    let ghost all = compute_rates(gpus@, half);
    let mut values: Vec<M> = Vec::new();
    let mut i: usize = 0;
    while i < gpus.len()
        invariant
            i <= gpus@.len(),
            all == compute_rates(gpus@, half),
            values@.len() == i,
            forall|k: int| 0 <= k < i ==> (#[trigger] all[k]) == Some(values@[k]),
        decreases gpus@.len() - i,
    {
        let value = if half {
            gpus[i].compute_tflops_fp16
        } else {
            gpus[i].compute_tflops_fp32
        };
        assert(all[i as int] == value);
        match value {
            Some(value) => {
                values.push(value);
            },
            None => {
                return None;
            },
        }
        i += 1;
    }
    assert(values@ =~= Seq::new(all.len(), |i: int| all[i]->0));
    Some(values)
}

/// What is told of the GPUs of a fingerprint.
pub fn result_of<M: Copy>(gpus: &Vec<GpuBandwidth<M>>) -> (result: BenchmarkResult<M>)
    ensures
        result_tells(gpus@, result),
{
    let mut mem_bandwidth_gbps: Vec<M> = Vec::new();
    let ghost all = gpus@.map_values(|gpu: GpuBandwidth<M>| gpu.p90_gbps);
    let mut i: usize = 0;
    while i < gpus.len()
        invariant
            i <= gpus@.len(),
            all == gpus@.map_values(|gpu: GpuBandwidth<M>| gpu.p90_gbps),
            mem_bandwidth_gbps@ == all.take(i as int),
        decreases gpus@.len() - i,
    {
        mem_bandwidth_gbps.push(gpus[i].p90_gbps);
        assert(mem_bandwidth_gbps@ =~= all.take(i + 1));
        i += 1;
    }
    assert(all.take(i as int) =~= all);
    let compute_tflops_fp32 = collect_known(gpus, false);
    let compute_tflops_fp16 = collect_known(gpus, true);
    BenchmarkResult { mem_bandwidth_gbps, compute_tflops_fp32, compute_tflops_fp16 }
}

/// How many GPUs a measurement is kept of: as many as have an output, a size
/// and, where there are names at all, a name.
pub open spec fn kept_gpus(outputs: nat, vram: nat, names: nat) -> nat {
    let sized = if outputs < vram {
        outputs
    } else {
        vram
    };
    if names != 0 && names < sized {
        names
    } else {
        sized
    }
}

/// Whether the GPUs are those of the node with what was measured of them.
pub open spec fn gpus_measured<M>(
    gpus: Seq<GpuBandwidth<M>>,
    hw: HardwareSurvey,
    outputs: Seq<BenchmarkOutput<M>>,
) -> bool {
    &&& gpus.len() == kept_gpus(outputs.len(), hw.gpu_vram@.len(), hw.names().len())
    &&& forall|i: int|
        0 <= i < gpus.len() ==> {
            &&& (#[trigger] gpus[i]).name@ == if i < hw.names().len() {
                hw.names()[i]
            } else {
                seq![]
            }
            &&& gpus[i].vram_bytes == hw.gpu_vram@[i]
            &&& gpus[i].p50_gbps == outputs[i].p50_gbps
            &&& gpus[i].p90_gbps == outputs[i].p90_gbps
            &&& gpus[i].compute_tflops_fp32 == outputs[i].compute_tflops_fp32
            &&& gpus[i].compute_tflops_fp16 == outputs[i].compute_tflops_fp16
        }
}

/// Puts together what the GPUs are and what was measured of them.
pub fn build_benchmark_result<M: Copy>(hw: &HardwareSurvey, outputs: &[BenchmarkOutput<M>]) -> (result: (
    Vec<GpuBandwidth<M>>,
    BenchmarkResult<M>,
))
    ensures
        gpus_measured(result.0@, *hw, outputs@),
        result_tells(result.0@, result.1),
{
    let names = per_gpu_names(hw);
    assert(texts(names@).len() == names@.len());
    let mut count: usize = outputs.len();
    if hw.gpu_vram.len() < count {
        count = hw.gpu_vram.len();
    }
    if names.len() != 0 && names.len() < count {
        count = names.len();
    }
    let mut gpus: Vec<GpuBandwidth<M>> = Vec::new();
    let mut i: usize = 0;
    while i < count
        invariant
            i <= count,
            texts(names@) == hw.names(),
            texts(names@).len() == names@.len(),
            count <= outputs@.len(),
            count <= hw.gpu_vram@.len(),
            gpus@.len() == i,
            forall|k: int|
                0 <= k < i ==> {
                    &&& (#[trigger] gpus@[k]).name@ == if k < hw.names().len() {
                        hw.names()[k]
                    } else {
                        seq![]
                    }
                    &&& gpus@[k].vram_bytes == hw.gpu_vram@[k]
                    &&& gpus@[k].p50_gbps == outputs@[k].p50_gbps
                    &&& gpus@[k].p90_gbps == outputs@[k].p90_gbps
                    &&& gpus@[k].compute_tflops_fp32 == outputs@[k].compute_tflops_fp32
                    &&& gpus@[k].compute_tflops_fp16 == outputs@[k].compute_tflops_fp16
                },
        decreases count - i,
    {
        let name = if i < names.len() {
            assert(hw.names()[i as int] == names@[i as int]@);
            names[i].clone()
        } else {
            String::new()
        };
        gpus.push(
            GpuBandwidth {
                name,
                vram_bytes: hw.gpu_vram[i],
                p50_gbps: outputs[i].p50_gbps,
                p90_gbps: outputs[i].p90_gbps,
                compute_tflops_fp32: outputs[i].compute_tflops_fp32,
                compute_tflops_fp16: outputs[i].compute_tflops_fp16,
            },
        );
        i += 1;
    }
    let result = result_of(&gpus);
    (gpus, result)
}

/// The fingerprint of a measurement at the given time, and what is told of it.
pub fn fingerprint_outputs<M: Copy>(
    hw: &HardwareSurvey,
    outputs: &[BenchmarkOutput<M>],
    timestamp_secs: u64,
) -> (result: (BenchmarkFingerprint<M>, BenchmarkResult<M>))
    ensures
        gpus_measured(result.0.gpus@, *hw, outputs@),
        result.0.is_soc == hw.is_soc,
        result.0.timestamp_secs == timestamp_secs,
        result_tells(result.0.gpus@, result.1),
{
    let (gpus, result) = build_benchmark_result(hw, outputs);
    (BenchmarkFingerprint { gpus, is_soc: hw.is_soc, timestamp_secs }, result)
}

/// What is told of an earlier measurement, where it is of the same GPUs.
pub fn cached_result<M: Copy>(
    cached: Option<&BenchmarkFingerprint<M>>,
    hw: &HardwareSurvey,
) -> (result: Option<BenchmarkResult<M>>)
    ensures
        result is Some <==> (cached matches Some(fingerprint) && same_hardware(*fingerprint, *hw)),
        result matches Some(result) ==> result_tells(cached->0.gpus@, result),
{
    match cached {
        Some(fingerprint) => if hardware_changed(fingerprint, hw) {
            None
        } else {
            Some(result_of(&fingerprint.gpus))
        },
        None => None,
    }
}

/// Why nothing was measured.
#[derive(Debug)]
pub enum BenchmarkError {
    NoGpus,
    /// There is no way to measure with this name.
    UnsupportedBackend { name: String },
    /// No way to measure fits the GPUs; how they are called, as it is shown.
    NoBackend { platform: String },
    /// A file that stands for no way to measure.
    UnknownMarker { path: String },
    /// The measuring process ran too long, for so many seconds.
    TimedOut { seconds: String, detail: Option<String> },
    /// The measuring process failed without a word, with this status.
    Exited { status: String },
    ChildFailed { detail: String },
    InvalidOutput,
}

impl BenchmarkError {
    /// The text of the error.
    pub open spec fn text(self) -> Seq<char> {
        match self {
            BenchmarkError::NoGpus => "no GPUs detected on this node"@,
            BenchmarkError::UnsupportedBackend { name } => "unsupported benchmark backend "@
                + name@,
            BenchmarkError::NoBackend { platform } => {
                "no supported benchmark backend found for detected GPU platform "@ + platform@
            },
            BenchmarkError::UnknownMarker { path } => "unknown benchmark runner marker "@ + path@,
            BenchmarkError::TimedOut { seconds, detail } => {
                let told = "benchmark timed out after "@ + seconds@ + "s"@;
                match detail {
                    Some(detail) => told + ": "@ + detail@,
                    None => told,
                }
            },
            BenchmarkError::Exited { status } => "benchmark child exited with status "@ + status@,
            BenchmarkError::ChildFailed { detail } => "benchmark child failed: "@ + detail@,
            BenchmarkError::InvalidOutput => "benchmark child returned invalid output"@,
        }
    }

    /// The text of the error.
    pub fn message(&self) -> (message: String)
        ensures
            message@ == self.text(),
    {
        match self {
            BenchmarkError::NoGpus => "no GPUs detected on this node".to_owned(),
            BenchmarkError::UnsupportedBackend { name } => concat(
                "unsupported benchmark backend ".to_owned(),
                name.as_str(),
            ),
            BenchmarkError::NoBackend { platform } => concat(
                "no supported benchmark backend found for detected GPU platform ".to_owned(),
                platform.as_str(),
            ),
            BenchmarkError::UnknownMarker { path } => concat(
                "unknown benchmark runner marker ".to_owned(),
                path.as_str(),
            ),
            BenchmarkError::TimedOut { seconds, detail } => {
                let told = concat(
                    concat("benchmark timed out after ".to_owned(), seconds.as_str()),
                    "s",
                );
                match detail {
                    Some(detail) => concat(concat(told, ": "), detail.as_str()),
                    None => told,
                }
            },
            BenchmarkError::Exited { status } => concat(
                "benchmark child exited with status ".to_owned(),
                status.as_str(),
            ),
            BenchmarkError::ChildFailed { detail } => concat(
                "benchmark child failed: ".to_owned(),
                detail.as_str(),
            ),
            BenchmarkError::InvalidOutput => "benchmark child returned invalid output".to_owned(),
        }
    }
}

/// Whether there is anything to measure.
pub fn check_gpus(hw: &HardwareSurvey) -> (result: Result<(), BenchmarkError>)
    ensures
        result == if hw.gpu_count == 0 {
            Err::<(), BenchmarkError>(BenchmarkError::NoGpus)
        } else {
            Ok::<(), BenchmarkError>(())
        },
{
    if hw.gpu_count == 0 {
        Err(BenchmarkError::NoGpus)
    } else {
        Ok(())
    }
}

/// The way to measure that was asked for by name.
pub fn requested_backend(name: &str) -> (result: Result<BenchmarkBackend, BenchmarkError>)
    ensures
        match result {
            Ok(backend) => backend_named(name@) == Some(backend),
            Err(error) => backend_named(name@) is None && (error matches
                BenchmarkError::UnsupportedBackend { name: told } && told@ == name@),
        },
{
    match parse_benchmark_backend(name) {
        Some(backend) => Ok(backend),
        None => Err(BenchmarkError::UnsupportedBackend { name: name.to_owned() }),
    }
}

/// The way to measure that a file stands for.
pub fn marked_backend(file_name: Option<&str>, path: &str) -> (result: Result<
    BenchmarkBackend,
    BenchmarkError,
>)
    ensures
        match result {
            Ok(backend) => backend_of_path(file_name_text(file_name), path@) == Some(backend),
            Err(error) => backend_of_path(file_name_text(file_name), path@) is None && (error matches
                BenchmarkError::UnknownMarker { path: told } && told@ == path@),
        },
{
    match parse_benchmark_backend_from_path(file_name, path) {
        Some(backend) => Ok(backend),
        None => Err(BenchmarkError::UnknownMarker { path: path.to_owned() }),
    }
}

/// How a measuring process came to its end.
#[derive(Debug)]
pub enum ChildEnding {
    /// It was stopped after so many seconds.
    Stopped { seconds: String },
    Exited { success: bool, status: String },
}

/// Whether what a measuring process said before it ended tells of a failure,
/// and of which.
pub fn judge_child(ending: ChildEnding, stderr: &str) -> (result: Result<(), BenchmarkError>)
    ensures
        match ending {
            ChildEnding::Stopped { seconds } => {
                &&& result matches Err(BenchmarkError::TimedOut { seconds: told, detail })
                &&& told@ == seconds@
                &&& match detail {
                    Some(detail) => detail@ == trimmed(stderr@) && detail@.len() > 0,
                    None => trimmed(stderr@).len() == 0,
                }
            },
            ChildEnding::Exited { success, status } => if success {
                result is Ok
            } else if trimmed(stderr@).len() == 0 {
                result matches Err(BenchmarkError::Exited { status: told }) && told@ == status@
            } else {
                result matches Err(BenchmarkError::ChildFailed { detail }) && detail@ == trimmed(
                    stderr@,
                )
            },
        },
{
    match ending {
        ChildEnding::Stopped { seconds } => Err(
            BenchmarkError::TimedOut { seconds, detail: failure_detail(stderr) },
        ),
        ChildEnding::Exited { success, status } => if success {
            Ok(())
        } else {
            match failure_detail(stderr) {
                Some(detail) => Err(BenchmarkError::ChildFailed { detail }),
                None => Err(BenchmarkError::Exited { status }),
            }
        },
    }
}

/// What a measuring process measured: something, of at least one device.
pub fn usable_outputs<M>(parsed: Option<Vec<BenchmarkOutput<M>>>) -> (result: Result<
    Vec<BenchmarkOutput<M>>,
    BenchmarkError,
>)
    ensures
        match parsed {
            Some(outputs) => if outputs@.len() > 0 {
                result matches Ok(told) && told@ == outputs@
            } else {
                result matches Err(BenchmarkError::InvalidOutput)
            },
            None => result matches Err(BenchmarkError::InvalidOutput),
        },
{
    match parsed {
        Some(outputs) => if outputs.len() > 0 {
            Ok(outputs)
        } else {
            Err(BenchmarkError::InvalidOutput)
        },
        None => Err(BenchmarkError::InvalidOutput),
    }
}

/// What a measuring process said before it failed, if it said anything.
pub fn failure_detail(stderr: &str) -> (detail: Option<String>)
    ensures
        match detail {
            Some(detail) => detail@ == trimmed(stderr@) && detail@.len() > 0,
            None => trimmed(stderr@).len() == 0,
        },
{
    let detail = trim(stderr);
    if detail.as_str().is_empty() {
        None
    } else {
        Some(detail)
    }
}

/// A node with named GPUs has one name for each of them.
pub proof fn law_every_gpu_is_named(hw: HardwareSurvey)
    requires
        hw.gpu_name matches Some(name) && trimmed(name@).len() > 0,
        hw.gpu_vram@.len() > 0,
    ensures
        hw.names().len() == hw.gpu_vram@.len(),
{
}

/// What was measured of every named GPU is used again as long as the GPUs are
/// the same, and tells the same.
pub proof fn law_measurement_is_used_again<M>(
    hw: HardwareSurvey,
    outputs: Seq<BenchmarkOutput<M>>,
    fingerprint: BenchmarkFingerprint<M>,
    told: BenchmarkResult<M>,
    told_again: BenchmarkResult<M>,
)
    requires
        hw.gpu_name matches Some(name) && trimmed(name@).len() > 0,
        hw.gpu_vram@.len() > 0,
        outputs.len() >= hw.gpu_vram@.len(),
        gpus_measured(fingerprint.gpus@, hw, outputs),
        fingerprint.is_soc == hw.is_soc,
        result_tells(fingerprint.gpus@, told),
        result_tells(fingerprint.gpus@, told_again),
    ensures
        same_hardware(fingerprint, hw),
        told.mem_bandwidth_gbps@ == told_again.mem_bandwidth_gbps@,
        told.compute_tflops_fp32 is Some <==> told_again.compute_tflops_fp32 is Some,
        told.compute_tflops_fp16 is Some <==> told_again.compute_tflops_fp16 is Some,
        told.compute_tflops_fp32 is Some ==> told.compute_tflops_fp32->0@
            == told_again.compute_tflops_fp32->0@,
        told.compute_tflops_fp16 is Some ==> told.compute_tflops_fp16->0@
            == told_again.compute_tflops_fp16->0@,
{
    law_every_gpu_is_named(hw);
}

/// A measurement with fewer outputs than GPUs is made again next time.
pub proof fn law_partial_measurement_is_not_used<M>(
    hw: HardwareSurvey,
    outputs: Seq<BenchmarkOutput<M>>,
    fingerprint: BenchmarkFingerprint<M>,
)
    requires
        outputs.len() < hw.gpu_vram@.len(),
        gpus_measured(fingerprint.gpus@, hw, outputs),
    ensures
        !same_hardware(fingerprint, hw),
{
}

} // verus!
