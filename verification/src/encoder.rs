//! Encoder resolution: from the output format and the caller's hardware
//! preference to a concrete encoder choice. Hardware candidates are probed
//! in a fixed priority order; probing itself is an external call, so the
//! resolver is a step machine — each step either asks the caller to probe
//! one named encoder or hands back the finished choice.

use vstd::prelude::*;
use vstd::string::StringExecFns;
use crate::format::OutputFormat;

verus! {

/// Mathematical model of an encoder choice.
pub struct ChoiceModel {
    pub video: Seq<char>,
    pub audio: Option<Seq<char>>,
    pub preset: Option<Seq<char>>,
    pub extra: Seq<Seq<char>>,
}

/// The encoder, audio codec, preset and extra flag fragments picked for one
/// request; consumed once by the argument builder.
pub struct EncoderChoice {
    pub video_codec: String,
    pub audio_codec: Option<String>,
    pub preset: Option<String>,
    pub extra_args: Vec<String>,
}

impl View for EncoderChoice {
    type V = ChoiceModel;

    open spec fn view(&self) -> ChoiceModel {
        ChoiceModel {
            video: self.video_codec@,
            audio: self.audio_codec.deep_view(),
            preset: self.preset.deep_view(),
            extra: self.extra_args.deep_view(),
        }
    }
}

/// Only the MP4 container family has a hardware encoding path.
pub open spec fn has_hardware_path(f: OutputFormat) -> bool {
    f == OutputFormat::Mp4Family
}

/// The software baseline for each format. Formats without codec
/// negotiation get an empty choice, which the argument builder ignores.
pub open spec fn software_baseline(f: OutputFormat) -> ChoiceModel {
    match f {
        OutputFormat::Mp4Family | OutputFormat::Unknown => ChoiceModel {
            video: "libx264"@,
            audio: Some("aac"@),
            preset: Some("medium"@),
            extra: Seq::empty(),
        },
        OutputFormat::WebM => ChoiceModel {
            video: "libvpx-vp9"@,
            audio: Some("libopus"@),
            preset: None,
            extra: seq!["-b:v"@, "0"@, "-crf"@, "30"@],
        },
        OutputFormat::OggTheora => ChoiceModel {
            video: "libtheora"@,
            audio: Some("libvorbis"@),
            preset: None,
            extra: seq!["-q:v"@, "7"@],
        },
        OutputFormat::Gif | OutputFormat::Pdf | OutputFormat::StillImage => ChoiceModel {
            video: Seq::empty(),
            audio: None,
            preset: None,
            extra: Seq::empty(),
        },
    }
}

/// How many hardware candidates stand in the priority list.
pub open spec fn candidate_count() -> int {
    4
}

/// The name of the hardware candidate with priority `k` (0 is tried
/// first): NVIDIA, then the Apple platform encoder, then AMD, then Intel
/// QuickSync.
pub open spec fn candidate_name(k: int) -> Seq<char> {
    if k == 0 { "h264_nvenc"@ }
    else if k == 1 { "h264_videotoolbox"@ }
    else if k == 2 { "h264_amf"@ }
    else { "h264_qsv"@ }
}

/// The full choice adopted when candidate `k` probes successfully. The
/// Apple platform encoder is quality-controlled and takes no preset.
pub open spec fn candidate_choice(k: int) -> ChoiceModel {
    ChoiceModel {
        video: candidate_name(k),
        audio: Some("aac"@),
        preset: if k == 0 { Some("p4"@) }
            else if k == 1 { None }
            else { Some("medium"@) },
        extra: if k == 1 { seq!["-q:v"@, "55"@] }
            else if k == 2 { seq!["-usage"@, "transcoding"@] }
            else if k == 3 { seq!["-global_quality"@, "25"@] }
            else { Seq::empty() },
    }
}

/// A resolver waiting for the answer to the probe of candidate
/// `next_candidate - 1`.
pub struct ResolverState {
    pub format: OutputFormat,
    pub next_candidate: usize,
}

/// A live resolver state: hardware resolution only runs for formats with a
/// hardware path, and one of the four candidates is under probe.
pub open spec fn resolver_wf(s: ResolverState) -> bool {
    &&& has_hardware_path(s.format)
    &&& 1 <= s.next_candidate <= candidate_count()
}

/// One step of the resolver: either the caller must probe the named
/// encoder and report back, or the choice is final.
pub enum ResolveStep {
    Probe { encoder: String, state: ResolverState },
    Done { choice: EncoderChoice },
}

/// Builds the software baseline choice for `f`.
pub fn baseline_choice(f: OutputFormat) -> (c: EncoderChoice)
    ensures
        c@ == software_baseline(f),
{
    match f {
        OutputFormat::Mp4Family | OutputFormat::Unknown => {
            let c = EncoderChoice {
                video_codec: String::from_str("libx264"),
                audio_codec: Some(String::from_str("aac")),
                preset: Some(String::from_str("medium")),
                extra_args: Vec::new(),
            };
            proof {
                assert(c@.extra =~= software_baseline(f).extra);
            }
            c
        },
        OutputFormat::WebM => {
            let mut extra: Vec<String> = Vec::new();
            extra.push(String::from_str("-b:v"));
            extra.push(String::from_str("0"));
            extra.push(String::from_str("-crf"));
            extra.push(String::from_str("30"));
            let c = EncoderChoice {
                video_codec: String::from_str("libvpx-vp9"),
                audio_codec: Some(String::from_str("libopus")),
                preset: None,
                extra_args: extra,
            };
            proof {
                assert(c@.extra =~= software_baseline(f).extra);
            }
            c
        },
        OutputFormat::OggTheora => {
            let mut extra: Vec<String> = Vec::new();
            extra.push(String::from_str("-q:v"));
            extra.push(String::from_str("7"));
            let c = EncoderChoice {
                video_codec: String::from_str("libtheora"),
                audio_codec: Some(String::from_str("libvorbis")),
                preset: None,
                extra_args: extra,
            };
            proof {
                assert(c@.extra =~= software_baseline(f).extra);
            }
            c
        },
        OutputFormat::Gif | OutputFormat::Pdf | OutputFormat::StillImage => {
            let c = EncoderChoice {
                video_codec: String::from_str(""),
                audio_codec: None,
                preset: None,
                extra_args: Vec::new(),
            };
            proof {
                reveal_strlit("");
                assert(c@.video =~= software_baseline(f).video);
                assert(c@.extra =~= software_baseline(f).extra);
            }
            c
        },
    }
}

fn candidate_name_exec(k: usize) -> (r: String)
    requires
        k < candidate_count(),
    ensures
        r@ == candidate_name(k as int),
{
    if k == 0 {
        String::from_str("h264_nvenc")
    } else if k == 1 {
        String::from_str("h264_videotoolbox")
    } else if k == 2 {
        String::from_str("h264_amf")
    } else {
        String::from_str("h264_qsv")
    }
}

/// Builds the full choice adopted for hardware candidate `k`.
pub fn candidate_choice_exec(k: usize) -> (c: EncoderChoice)
    requires
        k < candidate_count(),
    ensures
        c@ == candidate_choice(k as int),
{
    let preset: Option<String> = if k == 0 {
        Some(String::from_str("p4"))
    } else if k == 1 {
        None
    } else {
        Some(String::from_str("medium"))
    };
    let mut extra: Vec<String> = Vec::new();
    if k == 1 {
        extra.push(String::from_str("-q:v"));
        extra.push(String::from_str("55"));
    } else if k == 2 {
        extra.push(String::from_str("-usage"));
        extra.push(String::from_str("transcoding"));
    } else if k == 3 {
        extra.push(String::from_str("-global_quality"));
        extra.push(String::from_str("25"));
    }
    let c = EncoderChoice {
        video_codec: candidate_name_exec(k),
        audio_codec: Some(String::from_str("aac")),
        preset,
        extra_args: extra,
    };
    proof {
        assert(c@.extra =~= candidate_choice(k as int).extra);
    }
    c
}

/// Starts resolution. Without a hardware preference, or for a format
/// without a hardware path, the software baseline is final at once;
/// otherwise the top-priority candidate is put up for probing.
pub fn resolve_start(format: OutputFormat, prefer_hardware: bool) -> (r: ResolveStep)
    ensures
        (prefer_hardware && has_hardware_path(format)) ==> (r matches ResolveStep::Probe {
            encoder,
            state,
        } && encoder@ == candidate_name(0) && state == (ResolverState {
            format,
            next_candidate: 1,
        })),
        !(prefer_hardware && has_hardware_path(format)) ==> (r matches ResolveStep::Done {
            choice,
        } && choice@ == software_baseline(format)),
{
    if prefer_hardware && matches!(format, OutputFormat::Mp4Family) {
        ResolveStep::Probe {
            encoder: candidate_name_exec(0),
            state: ResolverState { format, next_candidate: 1 },
        }
    } else {
        ResolveStep::Done { choice: baseline_choice(format) }
    }
}

/// Consumes one probe answer. A success adopts the candidate just probed
/// and stops; a failure moves to the next candidate, or falls back to the
/// software baseline once the list is exhausted. Probe failure is absorbed
/// here and never surfaces as an error.
pub fn resolve_next(state: ResolverState, probe_ok: bool) -> (r: ResolveStep)
    requires
        resolver_wf(state),
    ensures
        probe_ok ==> (r matches ResolveStep::Done { choice } && choice@ == candidate_choice(
            state.next_candidate - 1,
        )),
        (!probe_ok && state.next_candidate < candidate_count()) ==> (r
            matches ResolveStep::Probe { encoder, state: s2 } && encoder@ == candidate_name(
            state.next_candidate as int,
        ) && s2 == (ResolverState {
            format: state.format,
            next_candidate: (state.next_candidate + 1) as usize,
        })),
        (!probe_ok && state.next_candidate == candidate_count()) ==> (r
            matches ResolveStep::Done { choice } && choice@ == software_baseline(state.format)),
{
    if probe_ok {
        ResolveStep::Done { choice: candidate_choice_exec(state.next_candidate - 1) }
    } else if state.next_candidate < 4 {
        ResolveStep::Probe {
            encoder: candidate_name_exec(state.next_candidate),
            state: ResolverState {
                format: state.format,
                next_candidate: state.next_candidate + 1,
            },
        }
    } else {
        ResolveStep::Done { choice: baseline_choice(state.format) }
    }
}

/// The priority of the first candidate that answers successfully, from
/// `from` on; `candidate_count()` when none does.
pub open spec fn first_success(answers: Seq<bool>, from: int) -> int
    decreases candidate_count() - from,
{
    if from < 0 || from >= candidate_count() {
        candidate_count()
    } else if answers[from] {
        from
    } else {
        first_success(answers, from + 1)
    }
}

/// The choice the resolver settles on when the probe of candidate `k`
/// would answer `answers[k]`: the highest-priority successful candidate,
/// or the software baseline when hardware is not asked for, has no path
/// for this format, or no candidate works.
pub open spec fn resolved_with(f: OutputFormat, prefer_hardware: bool, answers: Seq<bool>)
    -> ChoiceModel {
    if prefer_hardware && has_hardware_path(f) {
        let k = first_success(answers, 0);
        if k < candidate_count() {
            candidate_choice(k)
        } else {
            software_baseline(f)
        }
    } else {
        software_baseline(f)
    }
}

/// The encoder names put up for probing, in the order they are probed.
pub open spec fn probes_asked(f: OutputFormat, prefer_hardware: bool, answers: Seq<bool>)
    -> Seq<Seq<char>> {
    if prefer_hardware && has_hardware_path(f) {
        let k = first_success(answers, 0);
        let count = if k < candidate_count() { k + 1 } else { candidate_count() };
        Seq::new(count as nat, |i: int| candidate_name(i))
    } else {
        Seq::empty()
    }
}

/// Drives the resolver to completion against a fixed table of probe
/// answers, returning the final choice and the names probed, in order.
/// This is the step machine of `resolve_start` / `resolve_next` run to the
/// end, so its result is pinned by `resolved_with` and `probes_asked`.
pub fn resolve_with_answers(format: OutputFormat, prefer_hardware: bool, answers: &Vec<bool>)
    -> (r: (EncoderChoice, Vec<String>))
    requires
        answers@.len() == candidate_count(),
    ensures
        r.0@ == resolved_with(format, prefer_hardware, answers@),
        r.1.deep_view() == probes_asked(format, prefer_hardware, answers@),
{
    let mut asked: Vec<String> = Vec::new();
    let mut step = resolve_start(format, prefer_hardware);
    loop
        invariant
            answers@.len() == candidate_count(),
            match step {
                ResolveStep::Probe { encoder, state } => {
                    &&& prefer_hardware && has_hardware_path(format)
                    &&& resolver_wf(state)
                    &&& state.format == format
                    &&& encoder@ == candidate_name(state.next_candidate - 1)
                    &&& forall|j: int| 0 <= j < state.next_candidate - 1 ==> !answers@[j]
                    &&& asked.deep_view() =~= Seq::new(
                        (state.next_candidate - 1) as nat,
                        |i: int| candidate_name(i),
                    )
                },
                ResolveStep::Done { choice } => {
                    &&& choice@ == resolved_with(format, prefer_hardware, answers@)
                    &&& asked.deep_view() =~= probes_asked(format, prefer_hardware, answers@)
                },
            },
        decreases (match step {
            ResolveStep::Probe { state, .. } => candidate_count() + 1 - state.next_candidate,
            ResolveStep::Done { .. } => 0int,
        }),
    {
        match step {
            ResolveStep::Done { choice } => {
                return (choice, asked);
            },
            ResolveStep::Probe { encoder, state } => {
                let k = state.next_candidate - 1;
                let ok = answers[k];
                let ghost before = asked.deep_view();
                let ghost ename = encoder@;
                asked.push(encoder);
                proof {
                    assert(asked.deep_view() =~= before.push(ename));
                    lemma_first_success_skip(answers@, 0, k as int);
                    if ok {
                        assert(first_success(answers@, k as int) == k);
                        assert(asked.deep_view() =~= Seq::new(
                            (k + 1) as nat,
                            |i: int| candidate_name(i),
                        ));
                    } else {
                        assert(first_success(answers@, k as int) == first_success(
                            answers@,
                            k + 1,
                        ));
                        if k + 1 == candidate_count() {
                            assert(first_success(answers@, 0) == candidate_count());
                            assert(asked.deep_view() =~= Seq::new(
                                candidate_count() as nat,
                                |i: int| candidate_name(i),
                            ));
                        } else {
                            assert(asked.deep_view() =~= Seq::new(
                                (k + 1) as nat,
                                |i: int| candidate_name(i),
                            ));
                        }
                    }
                }
                step = resolve_next(state, ok);
            },
        }
    }
}

/// A scan may skip past candidates already known to have failed.
proof fn lemma_first_success_skip(answers: Seq<bool>, j: int, k: int)
    requires
        0 <= j <= k <= candidate_count(),
        forall|i: int| j <= i < k ==> !answers[i],
    ensures
        first_success(answers, j) == first_success(answers, k),
    decreases k - j,
{
    if j < k {
        lemma_first_success_skip(answers, j + 1, k);
    }
}

/// Strict priority order: when the two top candidates fail their probes
/// and the third succeeds, the third candidate's choice is adopted, and
/// exactly the first three candidates are probed, in priority order.
pub proof fn law_resolver_priority(answers: Seq<bool>)
    requires
        answers.len() == candidate_count(),
        !answers[0],
        !answers[1],
        answers[2],
    ensures
        resolved_with(OutputFormat::Mp4Family, true, answers) == candidate_choice(2),
        probes_asked(OutputFormat::Mp4Family, true, answers) =~= seq![
            candidate_name(0),
            candidate_name(1),
            candidate_name(2),
        ],
{
    lemma_first_success_skip(answers, 0, 2);
    assert(first_success(answers, 2) == 2);
}

/// Hardware unavailability is never fatal: when every probe fails, the
/// resolver falls back to the software baseline of the format, with no
/// error.
pub proof fn law_resolver_fallback(f: OutputFormat, answers: Seq<bool>)
    requires
        answers.len() == candidate_count(),
        forall|k: int| 0 <= k < candidate_count() ==> !answers[k],
    ensures
        resolved_with(f, true, answers) == software_baseline(f),
{
    lemma_first_success_skip(answers, 0, candidate_count());
    assert(first_success(answers, candidate_count()) == candidate_count());
}

/// The WebM path has no hardware branch: its resolution is the VP9 and
/// Opus baseline whatever the hardware preference and whatever the probes
/// would have answered.
pub proof fn law_webm_ignores_hardware(prefer_hardware: bool, answers: Seq<bool>)
    ensures
        resolved_with(OutputFormat::WebM, prefer_hardware, answers) == software_baseline(
            OutputFormat::WebM,
        ),
        probes_asked(OutputFormat::WebM, prefer_hardware, answers) == Seq::<Seq<char>>::empty(),
{
}

} // verus!
