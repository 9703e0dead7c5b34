//! Command planning: mapping a transcode request to the invocation plan for
//! the external engine (codec choice, hardware-acceleration flag, output
//! path, and the full argument lists for the engine and the probing tool).

use vstd::prelude::*;
use vstd::string::StringExecFns;

verus! {

/// The processing device selected for a transcode run.
#[derive(Clone, Copy, Debug, PartialEq, Eq, Structural)]
pub enum Device {
    Cpu,
    Nvidia,
    Intel,
    Amd,
}

/// The target container / codec family of a transcode run.
#[derive(Clone, Copy, Debug, PartialEq, Eq, Structural)]
pub enum TargetFormat {
    Mp4,
    Avi,
    Mkv,
    Mov,
    Flv,
    Wmv,
    Mp3,
    Aac,
    Wav,
    Ogg,
}

/// A request to transcode one source file: immutable once a session starts.
pub struct TranscodeRequest {
    pub source_path: String,
    pub target_format: TargetFormat,
    pub device: Device,
}

/// The derived invocation plan: a pure function of the request.
pub struct EncodePlan {
    pub hwaccel_flag: Option<String>,
    pub video_codec: String,
    pub output_path: String,
}

/// The video codec the engine is asked to use for a device.
pub open spec fn spec_codec(d: Device) -> Seq<char> {
    match d {
        Device::Nvidia => "h264_nvenc"@,
        Device::Intel => "h264_qsv"@,
        Device::Amd => "h264_amf"@,
        Device::Cpu => "libx264"@,
    }
}

/// The hardware-acceleration flag value for a device; `None` for the
/// software path.
pub open spec fn spec_hwaccel(d: Device) -> Option<Seq<char>> {
    match d {
        Device::Nvidia => Some("cuda"@),
        Device::Intel => Some("qsv"@),
        Device::Amd => Some("dxva2"@),
        Device::Cpu => None,
    }
}

/// The file-name extension of a target format.
pub open spec fn spec_extension(f: TargetFormat) -> Seq<char> {
    match f {
        TargetFormat::Mp4 => "mp4"@,
        TargetFormat::Avi => "avi"@,
        TargetFormat::Mkv => "mkv"@,
        TargetFormat::Mov => "mov"@,
        TargetFormat::Flv => "flv"@,
        TargetFormat::Wmv => "wmv"@,
        TargetFormat::Mp3 => "mp3"@,
        TargetFormat::Aac => "aac"@,
        TargetFormat::Wav => "wav"@,
        TargetFormat::Ogg => "ogg"@,
    }
}

/// The device named by a selection string; anything unrecognized falls back
/// to the software path, by design not an error.
pub open spec fn spec_device_of(n: Seq<char>) -> Device {
    if n == "NVIDIA"@ {
        Device::Nvidia
    } else if n == "Intel"@ {
        Device::Intel
    } else if n == "AMD"@ {
        Device::Amd
    } else {
        Device::Cpu
    }
}

/// The target format named by a selection string, if any.
pub open spec fn spec_format_of(n: Seq<char>) -> Option<TargetFormat> {
    if n == "mp4"@ {
        Some(TargetFormat::Mp4)
    } else if n == "avi"@ {
        Some(TargetFormat::Avi)
    } else if n == "mkv"@ {
        Some(TargetFormat::Mkv)
    } else if n == "mov"@ {
        Some(TargetFormat::Mov)
    } else if n == "flv"@ {
        Some(TargetFormat::Flv)
    } else if n == "wmv"@ {
        Some(TargetFormat::Wmv)
    } else if n == "mp3"@ {
        Some(TargetFormat::Mp3)
    } else if n == "aac"@ {
        Some(TargetFormat::Aac)
    } else if n == "wav"@ {
        Some(TargetFormat::Wav)
    } else if n == "ogg"@ {
        Some(TargetFormat::Ogg)
    } else {
        None
    }
}

/// The output artifact's path: the source path with the target extension
/// appended after a dot.
pub open spec fn spec_output_path(source: Seq<char>, f: TargetFormat) -> Seq<char> {
    source + "."@ + spec_extension(f)
}

/// Any selection string other than the three hardware names maps to the
/// software path: the libx264 codec and no acceleration flag — an explicit
/// default, not an error.
pub proof fn lemma_unrecognized_device_is_software(n: Seq<char>)
    requires
        n != "NVIDIA"@,
        n != "Intel"@,
        n != "AMD"@,
    ensures
        spec_device_of(n) == Device::Cpu,
        spec_codec(spec_device_of(n)) == "libx264"@,
        spec_hwaccel(spec_device_of(n)) is None,
{
}

/// Each hardware device's selection name maps back to that device, and the
/// software device's to the software path: the name table is injective on
/// the names it knows.
pub proof fn lemma_device_names_round_trip()
    ensures
        spec_device_of("NVIDIA"@) == Device::Nvidia,
        spec_device_of("Intel"@) == Device::Intel,
        spec_device_of("AMD"@) == Device::Amd,
        spec_device_of("CPU"@) == Device::Cpu,
{
    reveal_strlit("NVIDIA");
    reveal_strlit("Intel");
    reveal_strlit("AMD");
    reveal_strlit("CPU");
    assert("NVIDIA"@ =~= seq!['N', 'V', 'I', 'D', 'I', 'A']);
    assert("Intel"@ =~= seq!['I', 'n', 't', 'e', 'l']);
    assert("AMD"@ =~= seq!['A', 'M', 'D']);
    assert("CPU"@ =~= seq!['C', 'P', 'U']);
}

/// Every target format's extension names that format again: extension and
/// format-name lookup are mutually inverse.
pub proof fn lemma_extension_names_round_trip(f: TargetFormat)
    ensures
        spec_format_of(spec_extension(f)) == Some(f),
{
    reveal_strlit("mp4");
    reveal_strlit("avi");
    reveal_strlit("mkv");
    reveal_strlit("mov");
    reveal_strlit("flv");
    reveal_strlit("wmv");
    reveal_strlit("mp3");
    reveal_strlit("aac");
    reveal_strlit("wav");
    reveal_strlit("ogg");
    assert("mp4"@ =~= seq!['m', 'p', '4']);
    assert("avi"@ =~= seq!['a', 'v', 'i']);
    assert("mkv"@ =~= seq!['m', 'k', 'v']);
    assert("mov"@ =~= seq!['m', 'o', 'v']);
    assert("flv"@ =~= seq!['f', 'l', 'v']);
    assert("wmv"@ =~= seq!['w', 'm', 'v']);
    assert("mp3"@ =~= seq!['m', 'p', '3']);
    assert("aac"@ =~= seq!['a', 'a', 'c']);
    assert("wav"@ =~= seq!['w', 'a', 'v']);
    assert("ogg"@ =~= seq!['o', 'g', 'g']);
}

/// Codec name handed to the engine for a device.
pub fn codec_name(d: Device) -> (s: &'static str)
    ensures
        s@ == spec_codec(d),
{
    match d {
        Device::Nvidia => "h264_nvenc",
        Device::Intel => "h264_qsv",
        Device::Amd => "h264_amf",
        Device::Cpu => "libx264",
    }
}

/// Parse a device selection string; unrecognized values mean the software
/// path.
pub fn device_from_name(name: &String) -> (d: Device)
    ensures
        d == spec_device_of(name@),
{
    if name.eq(&String::from_str("NVIDIA")) {
        Device::Nvidia
    } else if name.eq(&String::from_str("Intel")) {
        Device::Intel
    } else if name.eq(&String::from_str("AMD")) {
        Device::Amd
    } else {
        Device::Cpu
    }
}

/// Parse a target-format selection string.
pub fn format_from_name(name: &String) -> (f: Option<TargetFormat>)
    ensures
        f == spec_format_of(name@),
{
    if name.eq(&String::from_str("mp4")) {
        Some(TargetFormat::Mp4)
    } else if name.eq(&String::from_str("avi")) {
        Some(TargetFormat::Avi)
    } else if name.eq(&String::from_str("mkv")) {
        Some(TargetFormat::Mkv)
    } else if name.eq(&String::from_str("mov")) {
        Some(TargetFormat::Mov)
    } else if name.eq(&String::from_str("flv")) {
        Some(TargetFormat::Flv)
    } else if name.eq(&String::from_str("wmv")) {
        Some(TargetFormat::Wmv)
    } else if name.eq(&String::from_str("mp3")) {
        Some(TargetFormat::Mp3)
    } else if name.eq(&String::from_str("aac")) {
        Some(TargetFormat::Aac)
    } else if name.eq(&String::from_str("wav")) {
        Some(TargetFormat::Wav)
    } else if name.eq(&String::from_str("ogg")) {
        Some(TargetFormat::Ogg)
    } else {
        None
    }
}

/// File-name extension of a target format.
pub fn extension(f: TargetFormat) -> (s: &'static str)
    ensures
        s@ == spec_extension(f),
{
    match f {
        TargetFormat::Mp4 => "mp4",
        TargetFormat::Avi => "avi",
        TargetFormat::Mkv => "mkv",
        TargetFormat::Mov => "mov",
        TargetFormat::Flv => "flv",
        TargetFormat::Wmv => "wmv",
        TargetFormat::Mp3 => "mp3",
        TargetFormat::Aac => "aac",
        TargetFormat::Wav => "wav",
        TargetFormat::Ogg => "ogg",
    }
}

/// The output path for a request.
pub fn output_path(req: &TranscodeRequest) -> (out: String)
    ensures
        out@ == spec_output_path(req.source_path@, req.target_format),
{
    let mut out = req.source_path.clone();
    out.append(".");
    out.append(extension(req.target_format));
    out
}

/// Compute the invocation plan for a request: codec and acceleration flag
/// from the device table, output path from the source path and target
/// format.  Pure, with no failure path: every device maps to a codec.
pub fn plan(req: &TranscodeRequest) -> (p: EncodePlan)
    ensures
        p.video_codec@ == spec_codec(req.device),
        p.hwaccel_flag.deep_view() == spec_hwaccel(req.device),
        p.output_path@ == spec_output_path(req.source_path@, req.target_format),
{
    let hwaccel_flag = match req.device {
        Device::Nvidia => Some(String::from_str("cuda")),
        Device::Intel => Some(String::from_str("qsv")),
        Device::Amd => Some(String::from_str("dxva2")),
        Device::Cpu => None,
    };
    EncodePlan {
        hwaccel_flag,
        video_codec: String::from_str(codec_name(req.device)),
        output_path: output_path(req),
    }
}

/// The full engine argument list for a request: overwrite flag, the
/// acceleration pair when a hardware device is selected, input path, codec
/// pair, output path, machine-readable-progress flag, and the flag that
/// suppresses human-readable statistics.
pub open spec fn spec_engine_args(source: Seq<char>, d: Device, f: TargetFormat) -> Seq<
    Seq<char>,
> {
    let head = match spec_hwaccel(d) {
        Some(h) => seq!["-y"@, "-hwaccel"@, h],
        None => seq!["-y"@],
    };
    head + seq![
        "-i"@,
        source,
        "-c:v"@,
        spec_codec(d),
        spec_output_path(source, f),
        "-progress"@,
        "pipe:1"@,
        "-nostats"@,
    ]
}

/// Build the engine argument list for a request.
pub fn engine_args(req: &TranscodeRequest) -> (args: Vec<String>)
    ensures
        args.deep_view() == spec_engine_args(req.source_path@, req.device, req.target_format),
{
    let mut args: Vec<String> = Vec::new();
    args.push(String::from_str("-y"));
    match req.device {
        Device::Nvidia => {
            args.push(String::from_str("-hwaccel"));
            args.push(String::from_str("cuda"));
        },
        Device::Intel => {
            args.push(String::from_str("-hwaccel"));
            args.push(String::from_str("qsv"));
        },
        Device::Amd => {
            args.push(String::from_str("-hwaccel"));
            args.push(String::from_str("dxva2"));
        },
        Device::Cpu => {},
    }
    args.push(String::from_str("-i"));
    args.push(req.source_path.clone());
    args.push(String::from_str("-c:v"));
    args.push(String::from_str(codec_name(req.device)));
    args.push(output_path(req));
    args.push(String::from_str("-progress"));
    args.push(String::from_str("pipe:1"));
    args.push(String::from_str("-nostats"));
    proof {
        assert(args.deep_view() =~= spec_engine_args(
            req.source_path@,
            req.device,
            req.target_format,
        ));
    }
    args
}

/// Argument list of the probing call that asks only for the source's
/// duration in a fixed numeric format on the tool's standard output.
pub open spec fn spec_probe_duration_args(source: Seq<char>) -> Seq<Seq<char>> {
    seq![
        "-v"@,
        "error"@,
        "-show_entries"@,
        "format=duration"@,
        "-of"@,
        "default=noprint_wrappers=1:nokey=1"@,
        source,
    ]
}

/// Build the duration-probe argument list.
pub fn probe_duration_args(source: &String) -> (args: Vec<String>)
    ensures
        args.deep_view() == spec_probe_duration_args(source@),
{
    let mut args: Vec<String> = Vec::new();
    args.push(String::from_str("-v"));
    args.push(String::from_str("error"));
    args.push(String::from_str("-show_entries"));
    args.push(String::from_str("format=duration"));
    args.push(String::from_str("-of"));
    args.push(String::from_str("default=noprint_wrappers=1:nokey=1"));
    args.push(source.clone());
    proof {
        assert(args.deep_view() =~= spec_probe_duration_args(source@));
    }
    args
}

/// Argument list of the probing call whose diagnostic text describes the
/// source; the description arrives on the tool's diagnostic stream.
pub open spec fn spec_probe_info_args(source: Seq<char>) -> Seq<Seq<char>> {
    seq!["-i"@, source, "-hide_banner"@]
}

/// Build the metadata-probe argument list.
pub fn probe_info_args(source: &String) -> (args: Vec<String>)
    ensures
        args.deep_view() == spec_probe_info_args(source@),
{
    let mut args: Vec<String> = Vec::new();
    args.push(String::from_str("-i"));
    args.push(source.clone());
    args.push(String::from_str("-hide_banner"));
    proof {
        assert(args.deep_view() =~= spec_probe_info_args(source@));
    }
    args
}

} // verus!
