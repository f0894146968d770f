//! What holds of every measurement and of the names of GPUs.

use crate::benchmark::{
    BENCHMARK_TIMEOUT_SECS, BenchmarkBackend, BenchmarkFingerprint, BenchmarkOutput,
    BenchmarkResult, GpuBandwidth, HardwareSurvey, all_known, all_names, backend_named,
    backend_of_path, compute_rates, copies, gpu_names, gpus_measured, kept_gpus, lower_code,
    part_names, result_tells, same_hardware, same_ignoring_case,
};
use crate::number::decimal;
use crate::scan::{index_of, lemma_index_of_is, parts, trimmed};
use crate::scan_laws::{
    law_decimal_is_read_back, law_decimal_stands_for_its_number, law_prefix_and_suffix_come_off,
    law_trimming_takes_white_space, law_white_space_is_invisible,
};
use crate::text::is_white;
use vstd::prelude::*;
use vstd::utf8::char_u32_cast;

verus! {

/// A name stands for a way to measure exactly if it is that way's name, in
/// capitals or not.
pub proof fn law_backends_have_their_names(name: Seq<char>, backend: BenchmarkBackend)
    ensures
        backend_named(name) == Some(backend) <==> {
            let wanted = match backend {
                BenchmarkBackend::Metal => "metal"@,
                BenchmarkBackend::Cuda => "cuda"@,
                BenchmarkBackend::Hip => "hip"@,
                BenchmarkBackend::Intel => "intel"@,
            };
            &&& name.len() == wanted.len()
            &&& forall|i: int|
                0 <= i < name.len() ==> wanted[i] == #[trigger] name[i] || ('A' <= name[i] && name[i]
                    <= 'Z' && wanted[i] as int == name[i] as int + 32)
        },
        backend.name() == match backend {
            BenchmarkBackend::Metal => "metal"@,
            BenchmarkBackend::Cuda => "cuda"@,
            BenchmarkBackend::Hip => "hip"@,
            BenchmarkBackend::Intel => "intel"@,
        },
{
    reveal_strlit("metal");
    reveal_strlit("cuda");
    reveal_strlit("hip");
    reveal_strlit("intel");
    lemma_same_but_for_case(name, "metal"@);
    lemma_same_but_for_case(name, "cuda"@);
    lemma_same_but_for_case(name, "hip"@);
    lemma_same_but_for_case(name, "intel"@);
    if same_ignoring_case(name, "metal"@) && same_ignoring_case(name, "intel"@) {
        assert(lower_code(name[0]) == lower_code("metal"@[0]));
        assert(lower_code(name[0]) == lower_code("intel"@[0]));
    }
}

proof fn lemma_same_but_for_case(name: Seq<char>, wanted: Seq<char>)
    requires
        forall|i: int| 0 <= i < wanted.len() ==> 'a' <= #[trigger] wanted[i] && wanted[i] <= 'z',
    ensures
        same_ignoring_case(name, wanted) <==> {
            &&& name.len() == wanted.len()
            &&& forall|i: int|
                0 <= i < name.len() ==> wanted[i] == #[trigger] name[i] || ('A' <= name[i] && name[i]
                    <= 'Z' && wanted[i] as int == name[i] as int + 32)
        },
{
    if name.len() == wanted.len() {
        assert forall|i: int| 0 <= i < name.len() implies (lower_code(#[trigger] name[i])
            == lower_code(wanted[i]) <==> (wanted[i] == name[i] || ('A' <= name[i] && name[i] <= 'Z'
            && wanted[i] as int == name[i] as int + 32))) by {
            assert('a' <= wanted[i] && wanted[i] <= 'z');
            char_u32_cast(name[i], name[i] as u32);
            char_u32_cast(wanted[i], wanted[i] as u32);
        }
    }
}

/// A path stands for a way to measure by the marker in its file's name, and else
/// as a whole by what follows `in-process:`.
pub proof fn law_paths_stand_for_backends(file_name: Seq<char>, name: Seq<char>, path: Seq<char>)
    ensures
        backend_of_path(None, path) is None,
        file_name == "mesh-llm-benchmark-"@ + name ==> backend_of_path(Some(file_name), path)
            == backend_named(name),
        (forall|rest: Seq<char>| file_name != #[trigger] ("mesh-llm-benchmark-"@ + rest)) && path
            == "in-process:"@ + name ==> backend_of_path(Some(file_name), path) == backend_named(
            name,
        ),
        (forall|rest: Seq<char>| file_name != #[trigger] ("mesh-llm-benchmark-"@ + rest)) && (
        forall|rest: Seq<char>| path != #[trigger] ("in-process:"@ + rest)) ==> backend_of_path(
            Some(file_name),
            path,
        ) is None,
{
    law_prefix_and_suffix_come_off(file_name, "mesh-llm-benchmark-"@, name);
    law_prefix_and_suffix_come_off(path, "in-process:"@, name);
    if let Some(rest) = crate::scan::after_prefix(file_name, "mesh-llm-benchmark-"@) {
        law_prefix_and_suffix_come_off(file_name, "mesh-llm-benchmark-"@, rest);
    }
    if let Some(rest) = crate::scan::after_prefix(path, "in-process:"@) {
        law_prefix_and_suffix_come_off(path, "in-process:"@, rest);
    }
}

/// So many GPUs of a kind, written as their number, a cross and the kind, are so
/// many names; a kind by itself is one name, and blank text is none.
pub proof fn law_counted_gpus_are_named_one_by_one(
    lead: Seq<char>,
    count: nat,
    gap: Seq<char>,
    kind: Seq<char>,
    tail: Seq<char>,
)
    requires
        forall|i: int| 0 <= i < lead.len() ==> is_white(#[trigger] lead[i]),
        forall|i: int| 0 <= i < gap.len() ==> is_white(#[trigger] gap[i]),
        forall|i: int| 0 <= i < tail.len() ==> is_white(#[trigger] tail[i]),
        count <= usize::MAX,
        kind.len() > 0,
        !is_white(kind[0]) && !is_white(kind.last()),
        !kind.contains('×'),
    ensures
        part_names(lead + (decimal(count).push('×') + gap + kind) + tail) == Seq::new(
            count,
            |i: int| kind,
        ),
        part_names(lead + kind + tail) == seq![kind],
        part_names(lead) == Seq::<Seq<char>>::empty(),
{
    let digits = decimal(count);
    let nothing = Seq::<char>::empty();
    let name = digits.push('×') + gap + kind;
    law_decimal_stands_for_its_number(count);
    law_decimal_is_read_back(count, usize::MAX as nat);
    assert forall|i: int| 0 <= i < digits.len() implies !is_white(digits[i]) && digits[i]
        != '×' by {
        law_white_space_is_invisible(digits[i]);
        assert('0' <= digits[i] && digits[i] <= '9');
    }
    assert(name[0] == digits[0]);
    assert(name.last() == kind.last());
    law_trimming_takes_white_space(lead, name, tail);
    lemma_index_of_is(name, '×', digits.len() as int);
    assert(name.take(digits.len() as int) =~= digits);
    law_trimming_takes_white_space(nothing, digits, nothing);
    assert(nothing + digits + nothing =~= digits);
    assert(name.skip(digits.len() as int + 1) =~= gap + kind + nothing);
    law_trimming_takes_white_space(gap, kind, nothing);
    assert(copies(kind, count) =~= Seq::new(count, |i: int| kind));
    law_trimming_takes_white_space(lead, kind, tail);
    assert forall|i: int| 0 <= i < kind.len() implies kind[i] != '×' by {
        assert(kind.contains(kind[i]));
    }
    lemma_index_of_is(kind, '×', kind.len() as int);
    law_trimming_takes_white_space(lead, nothing, nothing);
    assert(lead + nothing + nothing =~= lead);
}

/// The names of a list of parts are those of its parts, in order.
pub proof fn law_parts_are_named_in_order(list: Seq<Seq<char>>, last: Seq<char>)
    ensures
        all_names(Seq::<Seq<char>>::empty()) == Seq::<Seq<char>>::empty(),
        all_names(list.push(last)) == all_names(list) + part_names(last),
{
    assert(list.push(last).drop_last() =~= list);
}

/// The names of the GPUs are those of the parts between commas, where there are
/// as many as GPUs or nothing is known of the GPUs; else every GPU has the whole
/// text as its name. Without a text there are no names.
pub proof fn law_names_fit_the_gpus(name: Seq<char>, gpus: nat)
    ensures
        gpu_names(None, gpus) == Seq::<Seq<char>>::empty(),
        trimmed(name).len() == 0 ==> gpu_names(Some(name), gpus) == Seq::<Seq<char>>::empty(),
        trimmed(name).len() > 0 && (gpus == 0 || all_names(parts(trimmed(name), ',')).len() == gpus)
            ==> gpu_names(Some(name), gpus) == all_names(parts(trimmed(name), ',')),
        trimmed(name).len() > 0 && gpus > 0 && all_names(parts(trimmed(name), ',')).len() != gpus
            ==> gpu_names(Some(name), gpus) == Seq::new(gpus, |i: int| trimmed(name)),
{
    assert(copies(trimmed(name), gpus) =~= Seq::new(gpus, |i: int| trimmed(name)));
}

/// A fingerprint is of this node's GPUs exactly if each name and each size is
/// the same, in order, and the memory is shared or not in both.
pub proof fn law_fingerprints_are_compared_gpu_by_gpu<M>(
    fingerprint: BenchmarkFingerprint<M>,
    hw: HardwareSurvey,
)
    ensures
        same_hardware(fingerprint, hw) <==> {
            &&& fingerprint.is_soc == hw.is_soc
            &&& fingerprint.gpus@.len() == hw.gpu_vram@.len()
            &&& fingerprint.gpus@.len() == hw.names().len()
            &&& forall|i: int|
                0 <= i < fingerprint.gpus@.len() ==> (#[trigger] fingerprint.gpus@[i]).vram_bytes
                    == hw.gpu_vram@[i]
            &&& forall|i: int|
                0 <= i < fingerprint.gpus@.len() ==> (#[trigger] fingerprint.gpus@[i]).name@
                    == hw.names()[i]
        },
{
}

/// What is told of a measurement: the bandwidth that nine of ten runs reached,
/// GPU by GPU, and the compute rates of a precision where every GPU has one.
pub proof fn law_results_tell_every_gpu<M>(
    gpus: Seq<GpuBandwidth<M>>,
    result: BenchmarkResult<M>,
)
    requires
        result_tells(gpus, result),
    ensures
        result.mem_bandwidth_gbps@.len() == gpus.len(),
        forall|i: int|
            0 <= i < gpus.len() ==> #[trigger] result.mem_bandwidth_gbps@[i] == gpus[i].p90_gbps,
        result.compute_tflops_fp32 is Some <==> forall|i: int|
            0 <= i < gpus.len() ==> (#[trigger] gpus[i]).compute_tflops_fp32 is Some,
        result.compute_tflops_fp16 is Some <==> forall|i: int|
            0 <= i < gpus.len() ==> (#[trigger] gpus[i]).compute_tflops_fp16 is Some,
        result.compute_tflops_fp32 matches Some(rates) ==> rates@.len() == gpus.len() && forall|
            i: int,
        |
            0 <= i < gpus.len() ==> Some(#[trigger] rates@[i]) == gpus[i].compute_tflops_fp32,
        result.compute_tflops_fp16 matches Some(rates) ==> rates@.len() == gpus.len() && forall|
            i: int,
        |
            0 <= i < gpus.len() ==> Some(#[trigger] rates@[i]) == gpus[i].compute_tflops_fp16,
{
    let single = compute_rates(gpus, false);
    let half = compute_rates(gpus, true);
    if forall|i: int| 0 <= i < gpus.len() ==> (#[trigger] gpus[i]).compute_tflops_fp32 is Some {
        assert forall|i: int| 0 <= i < single.len() implies (#[trigger] single[i]) is Some by {
            assert(gpus[i].compute_tflops_fp32 is Some);
        }
    } else {
        let i = choose|i: int|
            0 <= i < gpus.len() && (#[trigger] gpus[i]).compute_tflops_fp32 is None;
        assert(single[i] is None);
    }
    if forall|i: int| 0 <= i < gpus.len() ==> (#[trigger] gpus[i]).compute_tflops_fp16 is Some {
        assert forall|i: int| 0 <= i < half.len() implies (#[trigger] half[i]) is Some by {
            assert(gpus[i].compute_tflops_fp16 is Some);
        }
    } else {
        let i = choose|i: int|
            0 <= i < gpus.len() && (#[trigger] gpus[i]).compute_tflops_fp16 is None;
        assert(half[i] is None);
    }
    if let Some(rates) = result.compute_tflops_fp32 {
        assert(all_known(single) == Some(rates@));
        assert forall|i: int| 0 <= i < gpus.len() implies Some(#[trigger] rates@[i])
            == gpus[i].compute_tflops_fp32 by {
            assert(single[i] is Some);
        }
    }
    if let Some(rates) = result.compute_tflops_fp16 {
        assert(all_known(half) == Some(rates@));
        assert forall|i: int| 0 <= i < gpus.len() implies Some(#[trigger] rates@[i])
            == gpus[i].compute_tflops_fp16 by {
            assert(half[i] is Some);
        }
    }
}

/// Of as many GPUs a measurement is kept as have an output and a size, and a
/// name where there are names; each keeps its own values.
pub proof fn law_measured_gpus_keep_their_values<M>(
    gpus: Seq<GpuBandwidth<M>>,
    hw: HardwareSurvey,
    outputs: Seq<BenchmarkOutput<M>>,
    i: int,
)
    requires
        gpus_measured(gpus, hw, outputs),
    ensures
        gpus.len() <= outputs.len(),
        gpus.len() <= hw.gpu_vram@.len(),
        hw.names().len() > 0 ==> gpus.len() <= hw.names().len(),
        gpus.len() == outputs.len() || gpus.len() == hw.gpu_vram@.len() || gpus.len()
            == hw.names().len(),
        hw.names().len() == 0 ==> gpus.len() == outputs.len() || gpus.len()
            == hw.gpu_vram@.len(),
        0 <= i < gpus.len() ==> gpus[i].p50_gbps == outputs[i].p50_gbps && gpus[i].p90_gbps
            == outputs[i].p90_gbps && gpus[i].compute_tflops_fp32 == outputs[i].compute_tflops_fp32
            && gpus[i].compute_tflops_fp16 == outputs[i].compute_tflops_fp16
            && gpus[i].vram_bytes == hw.gpu_vram@[i],
        0 <= i < gpus.len() && i < hw.names().len() ==> gpus[i].name@ == hw.names()[i],
        0 <= i < gpus.len() && hw.names().len() == 0 ==> gpus[i].name@.len() == 0,
        BENCHMARK_TIMEOUT_SECS == 25,
{
    assert(gpus.len() == kept_gpus(outputs.len(), hw.gpu_vram@.len(), hw.names().len()));
}

} // verus!
