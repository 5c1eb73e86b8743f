//! The encoder: how ffmpeg is called, and what its failures are reported as.

use crate::text::{
    decimal, decimal_reads_back, decimal_text, ends_with_text, first_chars, first_chars_text,
    has_suffix, joined, suffixes_stand_at_the_end,
};
use vstd::prelude::*;

verus! {

/// Rate above which the deferred encoder uses a second thread.
pub const HIGH_FPS_THRESHOLD: u32 = 30;

/// VP8 budget chosen for readable UI text and thin drawing strokes.
pub const WEBM_BITRATE_KBPS: u32 = 8000;

/// How many characters of the encoder's own error text are reported.
pub const STDERR_CHARS: usize = 300;

/// Where a standard stream of a program goes.
#[derive(Clone, Copy, Debug, PartialEq, Eq)]
pub enum Stream {
    /// To or from whoever started the program.
    Piped,
    /// Nowhere.
    Discarded,
}

/// A program, its arguments and how it is to be run.
#[derive(Debug)]
pub struct EncoderCommand {
    pub program: String,
    pub args: Vec<String>,
    pub stdin: Stream,
    pub stdout: Stream,
    pub stderr: Stream,
    /// Whether the program is killed when it is no longer of interest.
    pub kill_on_drop: bool,
}

/// The characters of each text.
pub open spec fn texts(strings: Seq<String>) -> Seq<Seq<char>> {
    strings.map_values(|text: String| text@)
}

/// The arguments that make ffmpeg read frames of `fps` per second from its
/// standard input.
pub open spec fn input_args(fps: nat) -> Seq<Seq<char>> {
    seq![
        "-y"@,
        "-loglevel"@,
        "error"@,
        "-avioflags"@,
        "direct"@,
        "-fpsprobesize"@,
        "0"@,
        "-probesize"@,
        "32"@,
        "-analyzeduration"@,
        "0"@,
        "-f"@,
        "image2pipe"@,
        "-c:v"@,
        "png"@,
        "-framerate"@,
        decimal(fps),
        "-i"@,
        "pipe:0"@,
        "-vf"@,
        "pad=ceil(iw/2)*2:ceil(ih/2)*2"@,
    ]
}

/// The codec for an output file: VP8 for WebM, H.264 for anything else.
pub open spec fn codec_args(output: Seq<char>) -> Seq<Seq<char>> {
    if has_suffix(output, ".webm"@) {
        seq![
            "-c:v"@,
            "libvpx"@,
            "-crf"@,
            "18"@,
            "-b:v"@,
            decimal(WEBM_BITRATE_KBPS as nat) + "k"@,
        ]
    } else {
        seq!["-c:v"@, "libx264"@, "-preset"@, "ultrafast"@]
    }
}

/// The pixel format, the number of threads and the output file. One encoder
/// thread is enough at ordinary rates; high ones benefit from a second thread
/// during deferred encoding.
pub open spec fn output_args(output: Seq<char>, fps: nat) -> Seq<Seq<char>> {
    seq![
        "-pix_fmt"@,
        "yuv420p"@,
        "-threads"@,
        if fps > HIGH_FPS_THRESHOLD {
            "2"@
        } else {
            "1"@
        },
        output,
    ]
}

/// All arguments of ffmpeg.
pub open spec fn ffmpeg_args(output: Seq<char>, fps: nat) -> Seq<Seq<char>> {
    input_args(fps) + codec_args(output) + output_args(output, fps)
}

impl EncoderCommand {
    /// The call of ffmpeg that encodes `fps` frames per second to `output`. The
    /// frames go in through its standard input, and what it has to say of its
    /// failures comes out of its standard error.
    pub open spec fn encodes(self, output: Seq<char>, fps: nat) -> bool {
        &&& self.program@ == "ffmpeg"@
        &&& texts(self.args@) == ffmpeg_args(output, fps)
        &&& self.stdin is Piped
        &&& self.stdout is Discarded
        &&& self.stderr is Piped
        &&& self.kill_on_drop
    }
}

/// Adds one argument.
fn push_arg(args: &mut Vec<String>, arg: &str)
    ensures
        texts(final(args)@) == texts(old(args)@).push(arg@),
{
    args.push(arg.to_owned());
    proof {
        assert(texts(args@) =~= texts(old(args)@).push(arg@));
    }
}

/// The call of ffmpeg that encodes frames from its standard input.
pub fn build_ffmpeg_command(output_path: &str, fps: u32) -> (command: EncoderCommand)
    ensures
        command.encodes(output_path@, fps as nat),
{
    let mut args: Vec<String> = Vec::new();
    proof {
        assert(texts(args@) =~= Seq::<Seq<char>>::empty());
    }
    push_arg(&mut args, "-y");
    push_arg(&mut args, "-loglevel");
    push_arg(&mut args, "error");
    push_arg(&mut args, "-avioflags");
    push_arg(&mut args, "direct");
    push_arg(&mut args, "-fpsprobesize");
    push_arg(&mut args, "0");
    push_arg(&mut args, "-probesize");
    push_arg(&mut args, "32");
    push_arg(&mut args, "-analyzeduration");
    push_arg(&mut args, "0");
    push_arg(&mut args, "-f");
    push_arg(&mut args, "image2pipe");
    push_arg(&mut args, "-c:v");
    push_arg(&mut args, "png");
    push_arg(&mut args, "-framerate");
    let rate = decimal_text(fps as u64);
    push_arg(&mut args, rate.as_str());
    push_arg(&mut args, "-i");
    push_arg(&mut args, "pipe:0");
    push_arg(&mut args, "-vf");
    push_arg(&mut args, "pad=ceil(iw/2)*2:ceil(ih/2)*2");
    proof {
        assert(texts(args@) == input_args(fps as nat));
    }
    if ends_with_text(output_path, ".webm") {
        push_arg(&mut args, "-c:v");
        push_arg(&mut args, "libvpx");
        push_arg(&mut args, "-crf");
        push_arg(&mut args, "18");
        push_arg(&mut args, "-b:v");
        let kbps = decimal_text(WEBM_BITRATE_KBPS as u64);
        let bitrate = joined(kbps.as_str(), "k");
        push_arg(&mut args, bitrate.as_str());
    } else {
        push_arg(&mut args, "-c:v");
        push_arg(&mut args, "libx264");
        push_arg(&mut args, "-preset");
        push_arg(&mut args, "ultrafast");
    }
    proof {
        assert(texts(args@) =~= input_args(fps as nat) + codec_args(output_path@));
    }
    push_arg(&mut args, "-pix_fmt");
    push_arg(&mut args, "yuv420p");
    push_arg(&mut args, "-threads");
    if fps > HIGH_FPS_THRESHOLD {
        push_arg(&mut args, "2");
    } else {
        push_arg(&mut args, "1");
    }
    push_arg(&mut args, output_path);
    proof {
        assert(texts(args@) =~= ffmpeg_args(output_path@, fps as nat));
    }
    EncoderCommand {
        program: "ffmpeg".to_owned(),
        args,
        stdin: Stream::Piped,
        stdout: Stream::Discarded,
        stderr: Stream::Piped,
        kill_on_drop: true,
    }
}

/// The frame rate stands behind `-framerate`, the number of threads behind
/// `-threads`, and the output file at the end.
pub proof fn arguments_stand_behind_their_options(output: Seq<char>, fps: nat)
    ensures
        ffmpeg_args(output, fps)[15] == "-framerate"@,
        ffmpeg_args(output, fps)[16] == decimal(fps),
        ({
            let args = ffmpeg_args(output, fps);
            &&& args[args.len() - 3] == "-threads"@
            &&& args[args.len() - 2] == if fps > HIGH_FPS_THRESHOLD {
                "2"@
            } else {
                "1"@
            }
            &&& args.last() == output
        }),
{
    assert(input_args(fps)[15] == "-framerate"@);
    assert(output_args(output, fps).len() == 5);
}

/// The text that bytes stand for in UTF-8, with replacement characters where
/// they stand for none.
pub uninterp spec fn lossy_utf8(bytes: Seq<u8>) -> Seq<char>;

/// `String::from_utf8_lossy`: the text of bytes that are valid UTF-8, and a text
/// of the bytes alone, with replacement characters, for others. Where those
/// characters stand is left to the standard library.
#[verifier::external_body]
fn lossy_text(bytes: &Vec<u8>) -> (text: String)
    ensures
        text@ == lossy_utf8(bytes@),
        vstd::utf8::valid_utf8(bytes@) ==> text@ == vstd::utf8::decode_utf8(bytes@),
{
    String::from_utf8_lossy(bytes).into_owned()
}

/// What can go wrong while a capture is encoded. The texts are those of the
/// underlying causes.
pub enum EncodeFailure {
    /// ffmpeg could not be started.
    Launch(String),
    /// ffmpeg's standard input is not at hand.
    Stdin,
    /// A spooled frame could not be read.
    Read(String),
    /// ffmpeg did not take a frame.
    Write(String),
    /// ffmpeg's end could not be waited for.
    Wait(String),
    /// ffmpeg ended with a failure, and wrote this.
    Exit(Vec<u8>),
}

/// The report on an encoder that ended with a failure: the start of what it
/// wrote.
pub open spec fn exit_report(stderr: Seq<char>) -> Seq<char> {
    "ffmpeg failed: "@ + first_chars(stderr, STDERR_CHARS as nat)
}

impl EncodeFailure {
    /// The report on a failure.
    pub open spec fn report(self) -> Seq<char> {
        match self {
            EncodeFailure::Launch(cause) => "ffmpeg not found or failed to execute: "@ + cause@
                + ". Install ffmpeg to enable recording."@,
            EncodeFailure::Stdin => "Failed to open ffmpeg stdin"@,
            EncodeFailure::Read(cause) => "Failed to read recording frame: "@ + cause@,
            EncodeFailure::Write(cause) => "ffmpeg write failed: "@ + cause@,
            EncodeFailure::Wait(cause) => "ffmpeg wait failed: "@ + cause@,
            EncodeFailure::Exit(stderr) => exit_report(lossy_utf8(stderr@)),
        }
    }

    /// The report on a failure.
    pub fn message(&self) -> (message: String)
        ensures
            message@ == self.report(),
            self matches EncodeFailure::Exit(stderr) ==> (vstd::utf8::valid_utf8(stderr@)
                ==> message@ == exit_report(vstd::utf8::decode_utf8(stderr@))),
    {
        match self {
            EncodeFailure::Launch(cause) => {
                let head = joined("ffmpeg not found or failed to execute: ", cause.as_str());
                joined(head.as_str(), ". Install ffmpeg to enable recording.")
            },
            EncodeFailure::Stdin => "Failed to open ffmpeg stdin".to_owned(),
            EncodeFailure::Read(cause) => joined(
                "Failed to read recording frame: ",
                cause.as_str(),
            ),
            EncodeFailure::Write(cause) => joined("ffmpeg write failed: ", cause.as_str()),
            EncodeFailure::Wait(cause) => joined("ffmpeg wait failed: ", cause.as_str()),
            EncodeFailure::Exit(stderr) => {
                let text = lossy_text(stderr);
                exit_message(text.as_str())
            },
        }
    }
}

/// The report on an encoder that ended with a failure and wrote `stderr`.
pub fn exit_message(stderr: &str) -> (message: String)
    ensures
        message@ == exit_report(stderr@),
{
    let head = first_chars_text(stderr, STDERR_CHARS);
    joined("ffmpeg failed: ", head.as_str())
}

/// How ffmpeg reads: frames as they come, lossless, at the rate of the recording,
/// from its standard input; each is padded to an even size and nothing else is
/// done to it, at whatever rate and for whatever output.
pub proof fn frames_are_read_as_they_were_captured(output: Seq<char>, fps: nat)
    ensures
        ffmpeg_args(output, fps).len() > 21,
        ffmpeg_args(output, fps).take(16) == seq![
            "-y"@,
            "-loglevel"@,
            "error"@,
            "-avioflags"@,
            "direct"@,
            "-fpsprobesize"@,
            "0"@,
            "-probesize"@,
            "32"@,
            "-analyzeduration"@,
            "0"@,
            "-f"@,
            "image2pipe"@,
            "-c:v"@,
            "png"@,
            "-framerate"@,
        ],
        ffmpeg_args(output, fps)[16] == decimal(fps),
        ffmpeg_args(output, fps).subrange(17, 21) == seq![
            "-i"@,
            "pipe:0"@,
            "-vf"@,
            "pad=ceil(iw/2)*2:ceil(ih/2)*2"@,
        ],
{
    let args = ffmpeg_args(output, fps);
    assert(input_args(fps).len() == 21);
    assert(output_args(output, fps).len() == 5);
    assert(args.take(21) =~= input_args(fps));
    assert(args.take(16) =~= input_args(fps).take(16));
    assert(args.subrange(17, 21) =~= input_args(fps).subrange(17, 21));
}

/// The bit rate of a WebM video, as ffmpeg is told it.
proof fn webm_bitrate_text()
    ensures
        decimal(WEBM_BITRATE_KBPS as nat) + "k"@ == "8000k"@,
{
    reveal_strlit("k");
    reveal_strlit("8000k");
    reveal_with_fuel(decimal, 5);
    assert(decimal(8) =~= seq!['8']);
    assert(decimal(80) =~= seq!['8', '0']);
    assert(decimal(800) =~= seq!['8', '0', '0']);
    assert(decimal(8000) =~= seq!['8', '0', '0', '0']);
    assert(decimal(WEBM_BITRATE_KBPS as nat) + "k"@ =~= "8000k"@);
}

/// A file named as WebM is encoded in VP8, at whatever rate, with everything
/// else in its place: the pixel format, the threads and, last, the file itself.
pub proof fn webm_files_are_vp8(name: Seq<char>, fps: nat)
    ensures
        ffmpeg_args(name + ".webm"@, fps).skip(21) == seq![
            "-c:v"@,
            "libvpx"@,
            "-crf"@,
            "18"@,
            "-b:v"@,
            "8000k"@,
            "-pix_fmt"@,
            "yuv420p"@,
            "-threads"@,
            if fps > 30 {
                "2"@
            } else {
                "1"@
            },
            name + ".webm"@,
        ],
{
    let output = name + ".webm"@;
    suffixes_stand_at_the_end(output, name, ".webm"@);
    webm_bitrate_text();
    assert(ffmpeg_args(output, fps).skip(21) =~= codec_args(output) + output_args(output, fps));
}

/// Any other file is encoded in H.264, at whatever rate, with everything else in
/// its place: the pixel format, the threads and, last, the file itself.
pub proof fn other_files_are_h264(output: Seq<char>, fps: nat)
    requires
        forall|name: Seq<char>| output != #[trigger] (name + ".webm"@),
    ensures
        ffmpeg_args(output, fps).skip(21) == seq![
            "-c:v"@,
            "libx264"@,
            "-preset"@,
            "ultrafast"@,
            "-pix_fmt"@,
            "yuv420p"@,
            "-threads"@,
            if fps > 30 {
                "2"@
            } else {
                "1"@
            },
            output,
        ],
{
    suffixes_stand_at_the_end(output, output, ".webm"@);
    if has_suffix(output, ".webm"@) {
        let name = choose|name: Seq<char>| output == name + ".webm"@;
        assert(output != name + ".webm"@);
    }
    assert(ffmpeg_args(output, fps).skip(21) =~= codec_args(output) + output_args(output, fps));
}

/// Two rates make the same call but for the arguments behind `-framerate` and
/// `-threads`, and the latter differ only across the threshold.
pub proof fn rates_change_nothing_else(output: Seq<char>, fps: nat, other: nat, i: int)
    ensures
        ffmpeg_args(output, fps).len() == ffmpeg_args(output, other).len(),
        0 <= i < ffmpeg_args(output, fps).len() && i != 16 && i != ffmpeg_args(output, fps).len()
            - 2 ==> ffmpeg_args(output, fps)[i] == ffmpeg_args(output, other)[i],
        (fps > 30) == (other > 30) ==> ffmpeg_args(output, fps)[ffmpeg_args(output, fps).len() - 2]
            == ffmpeg_args(output, other)[ffmpeg_args(output, other).len() - 2],
        fps != other ==> ffmpeg_args(output, fps)[16] != ffmpeg_args(output, other)[16],
{
    assert(input_args(fps).len() == 21);
    assert(input_args(other).len() == 21);
    assert(output_args(output, fps).len() == 5);
    assert(output_args(output, other).len() == 5);
    decimal_reads_back(fps);
    decimal_reads_back(other);
}

/// The command that is built is that call, argument by argument, of a program
/// that is fed through its standard input, read through its standard error, and
/// ended with whoever started it.
pub proof fn commands_call_ffmpeg(
    command: EncoderCommand,
    output: Seq<char>,
    fps: nat,
    i: int,
)
    requires
        command.encodes(output, fps),
    ensures
        command.program@ == "ffmpeg"@,
        command.args@.len() == ffmpeg_args(output, fps).len(),
        0 <= i < command.args@.len() ==> command.args@[i]@ == ffmpeg_args(output, fps)[i],
        command.stdin is Piped,
        command.stdout is Discarded,
        command.stderr is Piped,
        command.kill_on_drop,
{
    assert(texts(command.args@).len() == command.args@.len());
    if 0 <= i < command.args@.len() {
        assert(texts(command.args@)[i] == command.args@[i]@);
    }
}

/// Each failure is reported with what failed and with its whole cause.
pub proof fn failures_are_reported_with_their_cause(cause: String)
    ensures
        EncodeFailure::Launch(cause).report() == "ffmpeg not found or failed to execute: "@ + cause@
            + ". Install ffmpeg to enable recording."@,
        EncodeFailure::Stdin.report() == "Failed to open ffmpeg stdin"@,
        EncodeFailure::Read(cause).report() == "Failed to read recording frame: "@ + cause@,
        EncodeFailure::Write(cause).report() == "ffmpeg write failed: "@ + cause@,
        EncodeFailure::Wait(cause).report() == "ffmpeg wait failed: "@ + cause@,
{
}

/// An encoder that ends with a failure is reported with what it wrote, of which
/// three hundred characters are kept.
pub proof fn exits_are_reported_with_their_text(stderr: Seq<char>, bytes: Vec<u8>)
    ensures
        stderr.len() <= 300 ==> exit_report(stderr) == "ffmpeg failed: "@ + stderr,
        stderr.len() > 300 ==> exit_report(stderr) == "ffmpeg failed: "@ + stderr.take(300),
        EncodeFailure::Exit(bytes).report() == exit_report(lossy_utf8(bytes@)),
{
}

} // verus!
