//! Argument assembly: a pure function from the request, the output format
//! and the resolved encoder choice to the full argument vector handed to
//! the external engine.

use vstd::prelude::*;
use vstd::string::StrSliceExecFns;
use vstd::string::StringExecFns;
use crate::encoder::{
    candidate_choice, software_baseline, ChoiceModel, EncoderChoice,
};
use crate::format::OutputFormat;
use crate::text::{dec_seq, str_eq, u64_to_string};

verus! {

/// One compression request, immutable once accepted. Width and height are
/// kept as the caller's tokens: `"0"` and the empty string both mean
/// "unspecified".
pub struct CompressionRequest {
    pub input_path: String,
    pub output_path: String,
    pub target_width: String,
    pub target_height: String,
    pub target_size_bytes: Option<u64>,
    pub prefer_hardware: bool,
}

/// Mathematical model of a request.
pub struct RequestModel {
    pub input: Seq<char>,
    pub output: Seq<char>,
    pub width: Seq<char>,
    pub height: Seq<char>,
    pub size: Option<u64>,
    pub hardware: bool,
}

impl View for CompressionRequest {
    type V = RequestModel;

    open spec fn view(&self) -> RequestModel {
        RequestModel {
            input: self.input_path@,
            output: self.output_path@,
            width: self.target_width@,
            height: self.target_height@,
            size: self.target_size_bytes,
            hardware: self.prefer_hardware,
        }
    }
}

/// Which external engine runs the command.
#[derive(Clone, Copy, Debug, PartialEq, Eq, Structural)]
pub enum Engine {
    Ffmpeg,
    Ghostscript,
}

/// A fully assembled invocation of an external engine.
pub struct BuiltCommand {
    pub engine: Engine,
    pub args: Vec<String>,
}

/// PDF output goes to the document converter; everything else to the
/// transcoder.
pub open spec fn engine_of(f: OutputFormat) -> Engine {
    if f == OutputFormat::Pdf {
        Engine::Ghostscript
    } else {
        Engine::Ffmpeg
    }
}

/// Whether a dimension token names an actual dimension: `"0"` and the
/// empty string both mean "unspecified".
pub open spec fn dim_given(d: Seq<char>) -> bool {
    d != ""@ && d != "0"@
}

/// A dimension token as it appears inside the scale filter: unspecified
/// dimensions become the aspect-preserving token `-1`.
pub open spec fn dim_token(d: Seq<char>) -> Seq<char> {
    if dim_given(d) {
        d
    } else {
        "-1"@
    }
}

/// A scale filter is wanted as soon as either dimension is given.
pub open spec fn wants_scale(w: Seq<char>, h: Seq<char>) -> bool {
    dim_given(w) || dim_given(h)
}

/// The scale filter text, both dimensions normalized.
pub open spec fn scale_filter(w: Seq<char>, h: Seq<char>) -> Seq<char> {
    "scale="@ + dim_token(w) + ":"@ + dim_token(h)
}

/// The preset flag pair, absent for quality-controlled encoders.
pub open spec fn preset_part(c: ChoiceModel) -> Seq<Seq<char>> {
    match c.preset {
        Some(p) => seq!["-preset"@, p],
        None => Seq::empty(),
    }
}

/// The audio codec flag pair.
pub open spec fn audio_part(c: ChoiceModel) -> Seq<Seq<char>> {
    match c.audio {
        Some(a) => seq!["-c:a"@, a],
        None => Seq::empty(),
    }
}

/// The pixel-format normalization, forced on every MP4-family output for
/// playback compatibility.
pub open spec fn pix_part(f: OutputFormat) -> Seq<Seq<char>> {
    if f == OutputFormat::Mp4Family {
        seq!["-pix_fmt"@, "yuv420p"@]
    } else {
        Seq::empty()
    }
}

/// The strict size cap applies only to still-image output with a positive
/// target byte size; video-class output never gets it.
pub open spec fn size_part(f: OutputFormat, size: Option<u64>) -> Seq<Seq<char>> {
    if f == OutputFormat::StillImage {
        match size {
            Some(n) => if n > 0 {
                seq!["-fs"@, dec_seq(n as int)]
            } else {
                Seq::empty()
            },
            None => Seq::empty(),
        }
    } else {
        Seq::empty()
    }
}

/// The scale filter flag pair, when either dimension is given.
pub open spec fn scale_part(w: Seq<char>, h: Seq<char>) -> Seq<Seq<char>> {
    if wants_scale(w, h) {
        seq!["-vf"@, scale_filter(w, h)]
    } else {
        Seq::empty()
    }
}

/// The full argument vector for one request: the format picks the rule.
pub open spec fn built_args(r: RequestModel, f: OutputFormat, c: ChoiceModel) -> Seq<Seq<char>> {
    match f {
        OutputFormat::Gif => seq![
            "-i"@,
            r.input,
            "-vf"@,
            "fps=15,scale=480:-1:flags=lanczos"@,
            "-y"@,
            r.output,
        ],
        OutputFormat::Pdf => seq![
            "-sDEVICE=pdfwrite"@,
            "-dPDFSETTINGS=/screen"@,
            "-dNOPAUSE"@,
            "-dQUIET"@,
            "-dBATCH"@,
            "-sOutputFile="@ + r.output,
            r.input,
        ],
        OutputFormat::StillImage => seq!["-i"@, r.input] + size_part(f, r.size) + scale_part(
            r.width,
            r.height,
        ) + seq!["-y"@, r.output],
        _ => seq!["-i"@, r.input, "-c:v"@, c.video] + preset_part(c) + pix_part(f) + c.extra
            + audio_part(c) + seq!["-y"@, r.output],
    }
}

fn dim_given_exec(d: &String) -> (r: bool)
    ensures
        r == dim_given(d@),
{
    !str_eq(d.as_str(), "") && !str_eq(d.as_str(), "0")
}

/// Builds the scale filter text with both dimensions normalized.
pub fn scale_argument(w: &String, h: &String) -> (r: String)
    ensures
        r@ == scale_filter(w@, h@),
{
    let mut s = String::from_str("scale=");
    if dim_given_exec(w) {
        s.append(w.as_str());
    } else {
        s.append("-1");
    }
    s.append(":");
    if dim_given_exec(h) {
        s.append(h.as_str());
    } else {
        s.append("-1");
    }
    proof {
        assert(s@ =~= scale_filter(w@, h@));
    }
    s
}

fn push_arg(args: &mut Vec<String>, s: String)
    ensures
        final(args).deep_view() == old(args).deep_view().push(s@),
{
    let ghost before = args@;
    let ghost before_dv = args.deep_view();
    let ghost sv = s@;
    args.push(s);
    proof {
        assert(args.deep_view() =~= before_dv.push(sv)) by {
            assert forall|i: int| 0 <= i < before_dv.len() implies args.deep_view()[i]
                == before_dv[i] by {
                assert(args@[i] == before[i]);
            }
            assert(args.deep_view()[before_dv.len() as int] == sv);
        }
    }
}

/// Assembles the full command for one request. A pure function of its
/// inputs: the same request, format and choice always yield the same
/// argument vector.
pub fn build_command(req: &CompressionRequest, format: OutputFormat, choice: &EncoderChoice)
    -> (r: BuiltCommand)
    ensures
        r.engine == engine_of(format),
        r.args.deep_view() == built_args(req@, format, choice@),
{
    let mut args: Vec<String> = Vec::new();
    match format {
        OutputFormat::Gif => {
            args.push(String::from_str("-i"));
            args.push(req.input_path.clone());
            args.push(String::from_str("-vf"));
            args.push(String::from_str("fps=15,scale=480:-1:flags=lanczos"));
            args.push(String::from_str("-y"));
            args.push(req.output_path.clone());
            proof {
                assert(args.deep_view() =~= built_args(req@, format, choice@));
            }
            BuiltCommand { engine: Engine::Ffmpeg, args }
        },
        OutputFormat::Pdf => {
            args.push(String::from_str("-sDEVICE=pdfwrite"));
            args.push(String::from_str("-dPDFSETTINGS=/screen"));
            args.push(String::from_str("-dNOPAUSE"));
            args.push(String::from_str("-dQUIET"));
            args.push(String::from_str("-dBATCH"));
            let mut out_arg = String::from_str("-sOutputFile=");
            out_arg.append(req.output_path.as_str());
            args.push(out_arg);
            args.push(req.input_path.clone());
            proof {
                assert(args.deep_view() =~= built_args(req@, format, choice@));
            }
            BuiltCommand { engine: Engine::Ghostscript, args }
        },
        OutputFormat::StillImage => {
            args.push(String::from_str("-i"));
            args.push(req.input_path.clone());
            match req.target_size_bytes {
                Some(n) => {
                    if n > 0 {
                        args.push(String::from_str("-fs"));
                        args.push(u64_to_string(n));
                    }
                },
                None => {},
            }
            if dim_given_exec(&req.target_width) || dim_given_exec(&req.target_height) {
                args.push(String::from_str("-vf"));
                args.push(scale_argument(&req.target_width, &req.target_height));
            }
            args.push(String::from_str("-y"));
            args.push(req.output_path.clone());
            proof {
                assert(args.deep_view() =~= built_args(req@, format, choice@));
            }
            BuiltCommand { engine: Engine::Ffmpeg, args }
        },
        _ => {
            push_arg(&mut args, String::from_str("-i"));
            push_arg(&mut args, req.input_path.clone());
            push_arg(&mut args, String::from_str("-c:v"));
            push_arg(&mut args, choice.video_codec.clone());
            match &choice.preset {
                Some(p) => {
                    push_arg(&mut args, String::from_str("-preset"));
                    push_arg(&mut args, p.clone());
                },
                None => {},
            }
            if matches!(format, OutputFormat::Mp4Family) {
                push_arg(&mut args, String::from_str("-pix_fmt"));
                push_arg(&mut args, String::from_str("yuv420p"));
            }
            proof {
                assert(args.deep_view() =~= seq!["-i"@, req@.input, "-c:v"@, choice@.video]
                    + preset_part(choice@) + pix_part(format));
            }
            let ghost mid = args.deep_view();
            let mut j: usize = 0;
            while j < choice.extra_args.len()
                invariant
                    j <= choice.extra_args.len(),
                    args.deep_view() =~= mid + choice@.extra.subrange(0, j as int),
                decreases choice.extra_args.len() - j,
            {
                push_arg(&mut args, choice.extra_args[j].clone());
                proof {
                    assert(mid + choice@.extra.subrange(0, j + 1) =~= (mid
                        + choice@.extra.subrange(0, j as int)).push(choice@.extra[j as int]));
                }
                j += 1;
            }
            proof {
                assert(choice@.extra.subrange(0, choice@.extra.len() as int) =~= choice@.extra);
            }
            match &choice.audio_codec {
                Some(a) => {
                    push_arg(&mut args, String::from_str("-c:a"));
                    push_arg(&mut args, a.clone());
                },
                None => {},
            }
            push_arg(&mut args, String::from_str("-y"));
            push_arg(&mut args, req.output_path.clone());
            proof {
                assert(args.deep_view() =~= built_args(req@, format, choice@));
            }
            BuiltCommand { engine: Engine::Ffmpeg, args }
        },
    }
}

/// The argument vector of the synthetic probe encode for one candidate
/// encoder: a one-frame solid-colour HD clip sent to a null sink. HD size
/// matters: some hardware encoders refuse tiny test frames and would
/// probe as falsely unsupported.
pub open spec fn probe_args(encoder: Seq<char>) -> Seq<Seq<char>> {
    seq![
        "-f"@,
        "lavfi"@,
        "-i"@,
        "color=s=1280x720:d=0.1"@,
        "-c:v"@,
        encoder,
        "-f"@,
        "null"@,
        "-"@,
    ]
}

/// Builds the synthetic probe invocation for one candidate encoder.
pub fn probe_command(encoder: &str) -> (r: Vec<String>)
    ensures
        r.deep_view() == probe_args(encoder@),
{
    let mut args: Vec<String> = Vec::new();
    args.push(String::from_str("-f"));
    args.push(String::from_str("lavfi"));
    args.push(String::from_str("-i"));
    args.push(String::from_str("color=s=1280x720:d=0.1"));
    args.push(String::from_str("-c:v"));
    args.push(encoder.to_owned());
    args.push(String::from_str("-f"));
    args.push(String::from_str("null"));
    args.push(String::from_str("-"));
    proof {
        assert(args.deep_view() =~= probe_args(encoder@));
    }
    args
}

/// Every MP4-family invocation carries the pixel-format normalization
/// flag, whatever the encoder choice.
pub proof fn law_pixel_format_normalized(r: RequestModel, c: ChoiceModel)
    ensures
        built_args(r, OutputFormat::Mp4Family, c).contains("-pix_fmt"@),
{
    let s = built_args(r, OutputFormat::Mp4Family, c);
    let idx = 4 + preset_part(c).len() as int;
    assert(s[idx] == "-pix_fmt"@);
    assert(s.contains("-pix_fmt"@)) by {
        assert(0 <= idx < s.len() && s[idx] == "-pix_fmt"@);
    }
}

/// Every still-image invocation with a positive target byte size carries
/// the size-limit flag.
pub proof fn law_size_cap_on_still_images(r: RequestModel, c: ChoiceModel, n: u64)
    requires
        r.size == Some(n),
        n > 0,
    ensures
        built_args(r, OutputFormat::StillImage, c).contains("-fs"@),
{
    let s = built_args(r, OutputFormat::StillImage, c);
    assert(s[2] == "-fs"@);
    assert(s.contains("-fs"@)) by {
        assert(0 <= 2 < s.len() && s[2] == "-fs"@);
    }
}

/// An encoder choice the resolver can actually produce for format `f`.
pub open spec fn valid_choice(f: OutputFormat, c: ChoiceModel) -> bool {
    c == software_baseline(f) || (f == OutputFormat::Mp4Family && exists|k: int|
        0 <= k < 4 && c == candidate_choice(k))
}

/// A codec-format argument list holds no occurrence of `x` when none of
/// its components spells `x`.
proof fn lemma_codec_args_free_of(r: RequestModel, f: OutputFormat, c: ChoiceModel, x: Seq<char>)
    requires
        f == OutputFormat::Mp4Family || f == OutputFormat::WebM || f == OutputFormat::OggTheora
            || f == OutputFormat::Unknown,
        r.input != x,
        r.output != x,
        c.video != x,
        c.preset matches Some(p) ==> p != x,
        c.audio matches Some(a) ==> a != x,
        !c.extra.contains(x),
        x != "-i"@ && x != "-y"@ && x != "-c:v"@ && x != "-c:a"@ && x != "-preset"@ && x
            != "-pix_fmt"@ && x != "yuv420p"@,
    ensures
        !built_args(r, f, c).contains(x),
{
    let s = built_args(r, f, c);
    let head = seq!["-i"@, r.input, "-c:v"@, c.video];
    let tail = seq!["-y"@, r.output];
    assert(s == head + preset_part(c) + pix_part(f) + c.extra + audio_part(c) + tail);
    assert forall|i: int| 0 <= i < s.len() implies s[i] != x by {
        let pl = preset_part(c).len() as int;
        let xl = pix_part(f).len() as int;
        let el = c.extra.len() as int;
        if i < 4 {
            assert(s[i] == head[i]);
            if i == 0 {
            } else if i == 1 {
                assert(s[i] == r.input);
            } else if i == 2 {
            } else {
                assert(s[i] == c.video);
            }
        } else if i < 4 + pl {
            assert(s[i] == preset_part(c)[i - 4]);
        } else if i < 4 + pl + xl {
            assert(s[i] == pix_part(f)[i - 4 - pl]);
        } else if i < 4 + pl + xl + el {
            assert(s[i] == c.extra[i - 4 - pl - xl]);
            assert(!c.extra.contains(c.extra[i - 4 - pl - xl]) ==> false);
        } else if i < s.len() - 2 {
            assert(s[i] == audio_part(c)[i - 4 - pl - xl - el]);
        } else {
            assert(s[i] == tail[i - (s.len() - 2)]);
        }
    }
    if s.contains(x) {
        let w = choose|i: int| 0 <= i < s.len() && s[i] == x;
        assert(s[w] != x);
    }
}

/// The size-limit flag never reaches a video-class invocation, whatever
/// target size the request carries. The one caveat: a path that is
/// literally the flag token would of course appear in the arguments, so
/// the paths are required not to spell it.
pub proof fn law_size_cap_never_on_video(r: RequestModel, f: OutputFormat, c: ChoiceModel)
    requires
        f == OutputFormat::Mp4Family || f == OutputFormat::WebM || f == OutputFormat::OggTheora
            || f == OutputFormat::Gif || f == OutputFormat::Unknown,
        valid_choice(f, c),
        r.input != "-fs"@,
        r.output != "-fs"@,
    ensures
        !built_args(r, f, c).contains("-fs"@),
{
    let x = "-fs"@;
    reveal_strlit("-fs");
    reveal_strlit("-i");
    reveal_strlit("-y");
    reveal_strlit("-vf");
    reveal_strlit("fps=15,scale=480:-1:flags=lanczos");
    reveal_strlit("-c:v");
    reveal_strlit("-c:a");
    reveal_strlit("-preset");
    reveal_strlit("-pix_fmt");
    reveal_strlit("yuv420p");
    reveal_strlit("aac");
    reveal_strlit("medium");
    reveal_strlit("p4");
    reveal_strlit("libx264");
    reveal_strlit("libvpx-vp9");
    reveal_strlit("libopus");
    reveal_strlit("libtheora");
    reveal_strlit("libvorbis");
    reveal_strlit("-b:v");
    reveal_strlit("0");
    reveal_strlit("-crf");
    reveal_strlit("30");
    reveal_strlit("-q:v");
    reveal_strlit("7");
    reveal_strlit("55");
    reveal_strlit("-usage");
    reveal_strlit("transcoding");
    reveal_strlit("-global_quality");
    reveal_strlit("25");
    reveal_strlit("h264_nvenc");
    reveal_strlit("h264_videotoolbox");
    reveal_strlit("h264_amf");
    reveal_strlit("h264_qsv");
    assert("-fs"@.len() == 3);
    assert("-i"@.len() == 2);
    assert("-y"@.len() == 2);
    assert("-vf"@.len() == 3 && "-vf"@[1] == 'v' && "-fs"@[1] == 'f');
    assert("fps=15,scale=480:-1:flags=lanczos"@.len() == 33);
    assert("-c:v"@.len() == 4);
    assert("-c:a"@.len() == 4);
    assert("-preset"@.len() == 7);
    assert("-pix_fmt"@.len() == 8);
    assert("yuv420p"@.len() == 7);
    assert("aac"@.len() == 3 && "aac"@[0] == 'a' && "-fs"@[0] == '-');
    assert("medium"@.len() == 6);
    assert("p4"@.len() == 2);
    assert("libx264"@.len() == 7);
    assert("libvpx-vp9"@.len() == 10);
    assert("libopus"@.len() == 7);
    assert("libtheora"@.len() == 9);
    assert("libvorbis"@.len() == 9);
    assert("-b:v"@.len() == 4);
    assert("0"@.len() == 1);
    assert("-crf"@.len() == 4);
    assert("30"@.len() == 2);
    assert("-q:v"@.len() == 4);
    assert("7"@.len() == 1);
    assert("55"@.len() == 2);
    assert("-usage"@.len() == 6);
    assert("transcoding"@.len() == 11);
    assert("-global_quality"@.len() == 15);
    assert("25"@.len() == 2);
    assert("h264_nvenc"@.len() == 10);
    assert("h264_videotoolbox"@.len() == 17);
    assert("h264_amf"@.len() == 8);
    assert("h264_qsv"@.len() == 8);
    if f == OutputFormat::Gif {
        let s = built_args(r, f, c);
        assert forall|i: int| 0 <= i < s.len() implies s[i] != x by {
            assert(s.len() == 6);
            if i == 1 {
                assert(s[i] == r.input);
            } else if i == 5 {
                assert(s[i] == r.output);
            }
        }
        if s.contains(x) {
            let w = choose|i: int| 0 <= i < s.len() && s[i] == x;
            assert(s[w] != x);
        }
    } else {
        if c == software_baseline(f) {
            assert(!c.extra.contains(x)) by {
                if c.extra.contains(x) {
                    let w = choose|i: int| 0 <= i < c.extra.len() && c.extra[i] == x;
                    if f == OutputFormat::WebM {
                        assert(c.extra[w] != x);
                    } else if f == OutputFormat::OggTheora {
                        assert(c.extra[w] != x);
                    }
                }
            }
        } else {
            let k = choose|k: int| 0 <= k < 4 && c == candidate_choice(k);
            assert(c == candidate_choice(k));
            assert(!c.extra.contains(x)) by {
                if c.extra.contains(x) {
                    let w = choose|i: int| 0 <= i < c.extra.len() && c.extra[i] == x;
                    if k == 0 {
                        assert(c.extra.len() == 0);
                    } else {
                        assert(c.extra[w] != x);
                    }
                }
            }
        }
        lemma_codec_args_free_of(r, f, c, x);
    }
}

} // verus!
