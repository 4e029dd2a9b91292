use vstd::prelude::*;

use crate::resolution::{
    decimal_string, decimal_text, lemma_decimal_text_reads_back, lemma_resolution_round_trip,
    resolution_of_text, resolution_string, resolution_text, u32_of_text,
};

verus! {

/// Number of frames buffered between the render loop and the encoder thread.
/// At 1920x1080 RGBA each frame is about 8 MB, so 8 frames hold about 64 MB.
pub const FRAME_QUEUE_SIZE: usize = 8;

/// The arguments that check whether FFmpeg can be run at all.
pub open spec fn probe_args_text() -> Seq<Seq<char>> {
    seq!["-version"@]
}

/// The arguments of the encoding process, before the output path: raw RGBA
/// frames of `width`x`height` at `fps` frames per second arrive on standard
/// input and are encoded as H.264 (yuv420p, preset `fast`, CRF 23), overwriting
/// the output file.
pub open spec fn encode_args_text(width: u32, height: u32, fps: u32) -> Seq<Seq<char>> {
    seq![
        "-y"@,
        "-f"@,
        "rawvideo"@,
        "-pix_fmt"@,
        "rgba"@,
        "-s"@,
        resolution_text(width, height),
        "-r"@,
        decimal_text(fps as nat),
        "-i"@,
        "pipe:0"@,
        "-c:v"@,
        "libx264"@,
        "-pix_fmt"@,
        "yuv420p"@,
        "-preset"@,
        "fast"@,
        "-crf"@,
        "23"@,
    ]
}

/// The frame size and rate named on the encoder's command line read back as
/// exactly the configured width, height and rate.
pub proof fn lemma_encode_args_name_the_frame_format(width: u32, height: u32, fps: u32)
    ensures
        resolution_of_text(encode_args_text(width, height, fps)[6]) == Some((width, height)),
        u32_of_text(encode_args_text(width, height, fps)[8]) == Some(fps),
{
    lemma_resolution_round_trip(width, height);
    lemma_decimal_text_reads_back(fps);
}

/// Only the size and the rate depend on the frame format: two command lines
/// agree on every other argument.
pub proof fn lemma_encode_args_fixed_parts(w1: u32, h1: u32, f1: u32, w2: u32, h2: u32, f2: u32)
    ensures
        encode_args_text(w1, h1, f1).len() == encode_args_text(w2, h2, f2).len() == 19,
        forall|i: int|
            0 <= i < 19 && i != 6 && i != 8 ==> #[trigger] encode_args_text(w1, h1, f1)[i]
                == encode_args_text(w2, h2, f2)[i],
{
}

/// The texts of a list of arguments.
pub open spec fn texts_of(args: Seq<String>) -> Seq<Seq<char>> {
    args.map_values(|a: String| a@)
}

/// The arguments of `ffmpeg -version`.
pub fn ffmpeg_probe_args() -> (args: Vec<String>)
    ensures
        texts_of(args@) == probe_args_text(),
{
    let mut args: Vec<String> = Vec::new();
    args.push("-version".to_owned());
    assert(texts_of(args@) =~= probe_args_text());
    args
}

/// The arguments of the encoding process, in order; the caller appends the
/// output path after them.
pub fn ffmpeg_encode_args(width: u32, height: u32, fps: u32) -> (args: Vec<String>)
    ensures
        texts_of(args@) == encode_args_text(width, height, fps),
        // Raw RGBA frames of the given size and rate on standard input, encoded as
        // H.264 in yuv420p with preset fast and CRF 23, overwriting the output.
        args@.len() == 19,
        args@[0]@ == "-y"@,
        args@[1]@ == "-f"@,
        args@[2]@ == "rawvideo"@,
        args@[3]@ == "-pix_fmt"@,
        args@[4]@ == "rgba"@,
        args@[5]@ == "-s"@,
        resolution_of_text(args@[6]@) == Some((width, height)),
        args@[7]@ == "-r"@,
        u32_of_text(args@[8]@) == Some(fps),
        args@[9]@ == "-i"@,
        args@[10]@ == "pipe:0"@,
        args@[11]@ == "-c:v"@,
        args@[12]@ == "libx264"@,
        args@[13]@ == "-pix_fmt"@,
        args@[14]@ == "yuv420p"@,
        args@[15]@ == "-preset"@,
        args@[16]@ == "fast"@,
        args@[17]@ == "-crf"@,
        args@[18]@ == "23"@,
{
    let mut args: Vec<String> = Vec::new();
    args.push("-y".to_owned());
    args.push("-f".to_owned());
    args.push("rawvideo".to_owned());
    args.push("-pix_fmt".to_owned());
    args.push("rgba".to_owned());
    args.push("-s".to_owned());
    args.push(resolution_string(width, height));
    args.push("-r".to_owned());
    args.push(decimal_string(fps));
    args.push("-i".to_owned());
    args.push("pipe:0".to_owned());
    args.push("-c:v".to_owned());
    args.push("libx264".to_owned());
    args.push("-pix_fmt".to_owned());
    args.push("yuv420p".to_owned());
    args.push("-preset".to_owned());
    args.push("fast".to_owned());
    args.push("-crf".to_owned());
    args.push("23".to_owned());
    assert(texts_of(args@) =~= encode_args_text(width, height, fps));
    proof {
        lemma_encode_args_name_the_frame_format(width, height, fps);
        assert(args@[6]@ == texts_of(args@)[6]);
        assert(args@[8]@ == texts_of(args@)[8]);
    }
    args
}

} // verus!
