//! The GStreamer pipeline descriptions the recorder launches, and the file
//! names and commands around a recording.
use vstd::prelude::*;
use vstd::string::*;
use crate::decimal::{decimal, signed_decimal, signed_text, unsigned_text};
use crate::text::{contains_text, lemma_contains_between, owned, same_text};

verus! {

/// The video encoder a recording uses.
#[derive(Clone, Copy, Debug, PartialEq, Eq, Structural)]
pub enum Encoder {
    /// NVIDIA's `nvh264enc`.
    Nvenc,
    /// VA-API's `vaapih264enc`.
    Vaapi,
    /// `x264enc`, the fallback for any other name.
    X264,
}

/// The encoder a configuration names: "nvenc", "vaapi", or x264 for anything else.
pub open spec fn encoder_named(name: Seq<char>) -> Encoder {
    if name == "nvenc"@ {
        Encoder::Nvenc
    } else if name == "vaapi"@ {
        Encoder::Vaapi
    } else {
        Encoder::X264
    }
}

/// Picks the encoder that a configuration names.
pub fn encoder_from_name(name: &str) -> (e: Encoder)
    ensures
        e == encoder_named(name@),
{
    if same_text(name, "nvenc") {
        Encoder::Nvenc
    } else if same_text(name, "vaapi") {
        Encoder::Vaapi
    } else {
        Encoder::X264
    }
}

// ---------------------------------------------------------------- preview

/// The pipeline that feeds the live preview: the PipeWire stream scaled to
/// the given size, at 15 frames per second, as JPEG frames into an app sink.
pub open spec fn preview_pipeline_text(fd: int, node: nat, width: int, height: int) -> Seq<char> {
    "pipewiresrc fd="@ + signed_decimal(fd) + " path="@ + decimal(node)
        + " do-timestamp=true ! queue max-size-buffers=30 max-size-time=0 max-size-bytes=0 leaky=downstream ! videoconvert ! videoscale ! video/x-raw,width="@
        + signed_decimal(width) + ",height="@ + signed_decimal(height)
        + ",format=RGB ! videorate ! video/x-raw,framerate=15/1 ! jpegenc quality=80 ! appsink name=preview_sink drop=true max-buffers=1"@
}

/// Describes the preview pipeline.
pub fn preview_pipeline(fd: i32, node_id: u32, width: i32, height: i32) -> (s: String)
    ensures
        s@ == preview_pipeline_text(fd as int, node_id as nat, width as int, height as int),
{
    let mut s = owned("pipewiresrc fd=");
    s.append(signed_text(fd as i64).as_str());
    s.append(" path=");
    s.append(unsigned_text(node_id as u64).as_str());
    s.append(" do-timestamp=true ! queue max-size-buffers=30 max-size-time=0 max-size-bytes=0 leaky=downstream ! videoconvert ! videoscale ! video/x-raw,width=");
    s.append(signed_text(width as i64).as_str());
    s.append(",height=");
    s.append(signed_text(height as i64).as_str());
    s.append(",format=RGB ! videorate ! video/x-raw,framerate=15/1 ! jpegenc quality=80 ! appsink name=preview_sink drop=true max-buffers=1");
    s
}

// ---------------------------------------------------------------- audio

/// The source element of the microphone: the default PulseAudio source for
/// "default" or an empty name, else the named device.
pub open spec fn mic_element_text(mic: Seq<char>) -> Seq<char> {
    if mic == "default"@ || mic.len() == 0 {
        "pulsesrc"@
    } else {
        "pulsesrc device=\""@ + mic + "\""@
    }
}

/// The source element of the system sound: the monitor of the default sink
/// when one is known, else the default PulseAudio source.
pub open spec fn system_element_text(monitor: Option<Seq<char>>) -> Seq<char> {
    match monitor {
        Some(m) => "pulsesrc device=\""@ + m + "\""@,
        None => "pulsesrc"@,
    }
}

/// The audio sources of a recording, microphone first.
pub open spec fn audio_sources_of(
    record_mic: bool,
    mic: Seq<char>,
    record_system: bool,
    monitor: Option<Seq<char>>,
) -> Seq<Seq<char>> {
    (if record_mic { seq![mic_element_text(mic)] } else { Seq::empty() })
        + (if record_system { seq![system_element_text(monitor)] } else { Seq::empty() })
}

/// The source element of the microphone.
pub fn mic_element(mic: &str) -> (s: String)
    ensures
        s@ == mic_element_text(mic@),
{
    if same_text(mic, "default") || mic.is_empty() {
        owned("pulsesrc")
    } else {
        let mut s = owned("pulsesrc device=\"");
        s.append(mic);
        s.append("\"");
        s
    }
}

/// The source element of the system sound.
pub fn system_element(monitor: &Option<String>) -> (s: String)
    ensures
        s@ == system_element_text(monitor.deep_view()),
{
    match monitor {
        Some(m) => {
            let mut s = owned("pulsesrc device=\"");
            s.append(m.as_str());
            s.append("\"");
            s
        },
        None => owned("pulsesrc"),
    }
}

/// Lists the audio sources of a recording. The monitor is looked at only
/// when the system sound is recorded.
pub fn audio_sources(
    record_mic: bool,
    mic: &str,
    record_system: bool,
    monitor: &Option<String>,
) -> (v: Vec<String>)
    ensures
        v.deep_view() == audio_sources_of(record_mic, mic@, record_system, monitor.deep_view()),
{
    let mut v: Vec<String> = Vec::new();
    if record_mic {
        v.push(mic_element(mic));
    }
    if record_system {
        v.push(system_element(monitor));
    }
    proof {
        let want = audio_sources_of(record_mic, mic@, record_system, monitor.deep_view());
        assert(v.deep_view() =~= want);
    }
    v
}

/// The audio part of a recording pipeline: nothing without sources; one
/// source encoded to AAC into the muxer; two sources mixed first.
pub open spec fn audio_branch_text(sources: Seq<Seq<char>>) -> Seq<char> {
    if sources.len() == 0 {
        Seq::empty()
    } else if sources.len() == 1 {
        sources[0] + " ! queue ! audioconvert ! audioresample ! audiorate ! avenc_aac ! aacparse ! mux."@
    } else {
        "audiomixer name=mix ! queue ! audioconvert ! audioresample ! audiorate ! avenc_aac ! aacparse ! mux. "@
            + sources[0] + " ! queue ! mix. "@ + sources[1] + " ! queue ! mix."@
    }
}

/// Describes the audio part of a recording pipeline.
pub fn audio_branch(sources: &Vec<String>) -> (s: String)
    ensures
        s@ == audio_branch_text(sources.deep_view()),
{
    if sources.len() == 0 {
        String::new()
    } else if sources.len() == 1 {
        let mut s = sources[0].clone();
        s.append(" ! queue ! audioconvert ! audioresample ! audiorate ! avenc_aac ! aacparse ! mux.");
        s
    } else {
        let mut s = owned("audiomixer name=mix ! queue ! audioconvert ! audioresample ! audiorate ! avenc_aac ! aacparse ! mux. ");
        s.append(sources[0].as_str());
        s.append(" ! queue ! mix. ");
        s.append(sources[1].as_str());
        s.append(" ! queue ! mix.");
        s
    }
}

// ---------------------------------------------------------------- scaling

/// Whether `res` holds exactly one 'x', that is, splits at 'x' into two parts.
pub open spec fn has_one_x(res: Seq<char>) -> bool {
    exists|i: int|
        0 <= i < res.len() && res[i] == 'x' && forall|j: int|
            0 <= j < res.len() && j != i ==> res[j] != 'x'
}

/// Where the 'x' of a resolution stands.
pub open spec fn x_position(res: Seq<char>) -> int {
    choose|i: int| 0 <= i < res.len() && res[i] == 'x'
}

/// The size caps added to the raw video caps for a chosen resolution:
/// nothing for "original" or for a text that is not two parts joined by 'x';
/// else the two parts as width and height.
pub open spec fn scale_caps_text(res: Seq<char>) -> Seq<char> {
    if res == "original"@ {
        Seq::empty()
    } else if has_one_x(res) {
        let i = x_position(res);
        ",width="@ + res.subrange(0, i) + ",height="@ + res.subrange(i + 1, res.len() as int)
    } else {
        Seq::empty()
    }
}

/// Describes the size caps for a chosen resolution such as "1920x1080".
pub fn scale_caps(res: &str) -> (s: String)
    ensures
        s@ == scale_caps_text(res@),
{
    if same_text(res, "original") {
        return String::new();
    }
    let n = res.unicode_len();
    let mut count: usize = 0;
    let mut pos: usize = 0;
    let mut k: usize = 0;
    while k < n
        invariant
            n == res@.len(),
            k <= n,
            count <= 2,
            count == 0 ==> forall|j: int| 0 <= j < k ==> res@[j] != 'x',
            count == 1 ==> pos < k && res@[pos as int] == 'x' && forall|j: int|
                0 <= j < k && j != pos ==> res@[j] != 'x',
            count == 2 ==> exists|a: int, b: int|
                0 <= a < k && 0 <= b < k && a != b && res@[a] == 'x' && res@[b] == 'x',
        decreases n - k,
    {
        if res.get_char(k) == 'x' {
            if count == 0 {
                pos = k;
                count = 1;
            } else if count == 1 {
                assert(res@[pos as int] == 'x' && res@[k as int] == 'x');
                count = 2;
            }
        }
        k = k + 1;
    }
    if count == 1 {
        proof {
            assert(has_one_x(res@));
            let i = x_position(res@);
            assert(i == pos);
        }
        let mut s = owned(",width=");
        s.append(res.substring_char(0, pos));
        s.append(",height=");
        s.append(res.substring_char(pos + 1, n));
        s
    } else {
        proof {
            if count == 0 {
                assert(!has_one_x(res@));
            } else {
                let (a, b) = choose|a: int, b: int|
                    0 <= a < n && 0 <= b < n && a != b && res@[a] == 'x' && res@[b] == 'x';
                assert(!has_one_x(res@));
            }
        }
        String::new()
    }
}

// ---------------------------------------------------------------- recording

/// The raw video format an encoder takes.
pub open spec fn raw_format_text(e: Encoder) -> Seq<char> {
    match e {
        Encoder::Nvenc => "NV12"@,
        _ => "I420"@,
    }
}

/// The encoder element, at the given bit rate, with a key frame every
/// `fps` frames where the encoder takes that setting.
pub open spec fn encoder_element_text(e: Encoder, fps: nat, bitrate: nat) -> Seq<char> {
    match e {
        Encoder::Nvenc => "nvh264enc preset=low-latency-hq zerolatency=true rc-mode=cbr bitrate="@
            + decimal(bitrate) + " gop-size="@ + decimal(fps),
        Encoder::Vaapi => "vaapih264enc bitrate="@ + decimal(bitrate) + " rate-control=cbr"@,
        Encoder::X264 => "x264enc speed-preset=ultrafast threads=0 bitrate="@ + decimal(bitrate)
            + " key-int-max="@ + decimal(fps) + " bframes=0"@,
    }
}

/// The pipeline of one recording segment: the PipeWire stream converted,
/// scaled by the size caps, at `fps` frames per second, encoded to H.264
/// into a Matroska file at `path`, followed by the audio part.
pub open spec fn recording_pipeline_text(
    e: Encoder,
    path: Seq<char>,
    fd: int,
    node: nat,
    caps: Seq<char>,
    fps: nat,
    bitrate: nat,
    audio: Seq<char>,
) -> Seq<char> {
    "matroskamux name=mux ! filesink location=\""@ + path + "\" async=false pipewiresrc fd="@
        + signed_decimal(fd) + " path="@ + decimal(node)
        + " do-timestamp=true ! queue max-size-buffers=200 max-size-time=0 max-size-bytes=0 leaky=downstream ! videoconvert ! videoscale ! video/x-raw,format="@
        + raw_format_text(e) + caps + " ! videorate ! video/x-raw,framerate="@ + decimal(fps)
        + "/1 ! queue max-size-buffers=200 max-size-time=0 max-size-bytes=0 leaky=downstream ! "@
        + encoder_element_text(e, fps, bitrate) + " ! h264parse config-interval=-1 ! mux. "@ + audio
}

fn raw_format(e: Encoder) -> (s: &'static str)
    ensures
        s@ == raw_format_text(e),
{
    match e {
        Encoder::Nvenc => "NV12",
        _ => "I420",
    }
}

/// Describes the encoder element.
pub fn encoder_element(e: Encoder, fps: u32, bitrate: u32) -> (s: String)
    ensures
        s@ == encoder_element_text(e, fps as nat, bitrate as nat),
{
    match e {
        Encoder::Nvenc => {
            let mut s = owned("nvh264enc preset=low-latency-hq zerolatency=true rc-mode=cbr bitrate=");
            s.append(unsigned_text(bitrate as u64).as_str());
            s.append(" gop-size=");
            s.append(unsigned_text(fps as u64).as_str());
            s
        },
        Encoder::Vaapi => {
            let mut s = owned("vaapih264enc bitrate=");
            s.append(unsigned_text(bitrate as u64).as_str());
            s.append(" rate-control=cbr");
            s
        },
        Encoder::X264 => {
            let mut s = owned("x264enc speed-preset=ultrafast threads=0 bitrate=");
            s.append(unsigned_text(bitrate as u64).as_str());
            s.append(" key-int-max=");
            s.append(unsigned_text(fps as u64).as_str());
            s.append(" bframes=0");
            s
        },
    }
}

/// Describes the pipeline of one recording segment.
pub fn recording_pipeline(
    e: Encoder,
    path: &str,
    fd: i32,
    node_id: u32,
    caps: &str,
    fps: u32,
    bitrate: u32,
    audio: &str,
) -> (s: String)
    ensures
        s@ == recording_pipeline_text(
            e,
            path@,
            fd as int,
            node_id as nat,
            caps@,
            fps as nat,
            bitrate as nat,
            audio@,
        ),
{
    let mut s = owned("matroskamux name=mux ! filesink location=\"");
    s.append(path);
    s.append("\" async=false pipewiresrc fd=");
    s.append(signed_text(fd as i64).as_str());
    s.append(" path=");
    s.append(unsigned_text(node_id as u64).as_str());
    s.append(" do-timestamp=true ! queue max-size-buffers=200 max-size-time=0 max-size-bytes=0 leaky=downstream ! videoconvert ! videoscale ! video/x-raw,format=");
    s.append(raw_format(e));
    s.append(caps);
    s.append(" ! videorate ! video/x-raw,framerate=");
    s.append(unsigned_text(fps as u64).as_str());
    s.append("/1 ! queue max-size-buffers=200 max-size-time=0 max-size-bytes=0 leaky=downstream ! ");
    s.append(encoder_element(e, fps, bitrate).as_str());
    s.append(" ! h264parse config-interval=-1 ! mux. ");
    s.append(audio);
    s
}

// ---------------------------------------------------------------- files

/// The file of segment `index` of the recording made by process `pid`.
pub open spec fn segment_path_text(pid: nat, index: int) -> Seq<char> {
    "/tmp/seg_"@ + decimal(pid) + "_"@ + signed_decimal(index) + ".mkv"@
}

/// Names the file of a recording segment.
pub fn segment_path(pid: u32, index: i32) -> (s: String)
    ensures
        s@ == segment_path_text(pid as nat, index as int),
{
    let mut s = owned("/tmp/seg_");
    s.append(unsigned_text(pid as u64).as_str());
    s.append("_");
    s.append(signed_text(index as i64).as_str());
    s.append(".mkv");
    s
}

/// The finished recording: `recording_<seconds>.mkv` in the chosen folder.
pub open spec fn output_path_text(folder: Seq<char>, seconds: nat) -> Seq<char> {
    folder + "/recording_"@ + decimal(seconds) + ".mkv"@
}

/// Names the finished recording, from the Unix time at which it started.
pub fn output_path(folder: &str, seconds: u64) -> (s: String)
    ensures
        s@ == output_path_text(folder@, seconds as nat),
{
    let mut s = owned(folder);
    s.append("/recording_");
    s.append(unsigned_text(seconds).as_str());
    s.append(".mkv");
    s
}

/// The list of segments handed to ffmpeg's concat demuxer.
pub open spec fn concat_list_path_text(pid: nat) -> Seq<char> {
    "/tmp/list_"@ + decimal(pid) + ".txt"@
}

/// Names the list of segments of process `pid`.
pub fn concat_list_path(pid: u32) -> (s: String)
    ensures
        s@ == concat_list_path_text(pid as nat),
{
    let mut s = owned("/tmp/list_");
    s.append(unsigned_text(pid as u64).as_str());
    s.append(".txt");
    s
}

/// The line of the concat list that names one file.
pub open spec fn concat_line_text(file: Seq<char>) -> Seq<char> {
    "file '"@ + file + "'\n"@
}

/// The concat list: one line per segment that exists, in order.
pub open spec fn concat_list_text(files: Seq<Seq<char>>, present: Seq<bool>) -> Seq<char>
    decreases files.len(),
{
    if files.len() == 0 || present.len() == 0 {
        Seq::empty()
    } else {
        concat_list_text(files.drop_last(), present.drop_last()) + if present.last() {
            concat_line_text(files.last())
        } else {
            Seq::empty()
        }
    }
}

/// Writes the concat list; `present[i]` says whether `files[i]` exists.
pub fn concat_list(files: &Vec<String>, present: &Vec<bool>) -> (s: String)
    requires
        files.len() == present.len(),
    ensures
        s@ == concat_list_text(files.deep_view(), present@),
{
    let mut s = String::new();
    let mut i: usize = 0;
    while i < files.len()
        invariant
            files.len() == present.len(),
            i <= files.len(),
            s@ == concat_list_text(files.deep_view().take(i as int), present@.take(i as int)),
        decreases files.len() - i,
    {
        proof {
            assert(files.deep_view().take(i + 1).drop_last() =~= files.deep_view().take(i as int));
            assert(present@.take(i + 1).drop_last() =~= present@.take(i as int));
        }
        if present[i] {
            s.append("file '");
            s.append(files[i].as_str());
            s.append("'\n");
        }
        i = i + 1;
    }
    proof {
        assert(files.deep_view().take(i as int) =~= files.deep_view());
        assert(present@.take(i as int) =~= present@);
    }
    s
}

/// The arguments of the ffmpeg run that joins the segments into the output.
pub open spec fn concat_args_text(list: Seq<char>, output: Seq<char>) -> Seq<Seq<char>> {
    seq!["-y"@, "-f"@, "concat"@, "-safe"@, "0"@, "-i"@, list, "-c"@, "copy"@, output]
}

/// Lists the arguments of the ffmpeg run that joins the segments.
pub fn concat_args(list: &str, output: &str) -> (v: Vec<String>)
    ensures
        v.deep_view() == concat_args_text(list@, output@),
{
    let mut v: Vec<String> = Vec::new();
    v.push(owned("-y"));
    v.push(owned("-f"));
    v.push(owned("concat"));
    v.push(owned("-safe"));
    v.push(owned("0"));
    v.push(owned("-i"));
    v.push(owned(list));
    v.push(owned("-c"));
    v.push(owned("copy"));
    v.push(owned(output));
    proof {
        assert(v.deep_view() =~= concat_args_text(list@, output@));
    }
    v
}

/// The files removed after a successful join: every segment, then the list.
/// Nothing is removed when ffmpeg failed, so that the segments can be looked at.
pub open spec fn cleanup_text(files: Seq<Seq<char>>, list: Seq<char>, joined: bool) -> Seq<Seq<char>> {
    if joined {
        files.push(list)
    } else {
        Seq::empty()
    }
}

/// Lists the files to remove after the join.
pub fn cleanup_files(files: &Vec<String>, list: &str, joined: bool) -> (v: Vec<String>)
    ensures
        v.deep_view() == cleanup_text(files.deep_view(), list@, joined),
{
    let mut v: Vec<String> = Vec::new();
    if joined {
        let mut i: usize = 0;
        while i < files.len()
            invariant
                i <= files.len(),
                v@.len() == i,
                v.deep_view() == files.deep_view().take(i as int),
            decreases files.len() - i,
        {
            let ghost before = v@;
            v.push(files[i].clone());
            proof {
                assert(v@ == before.push(files@[i as int]));
                assert forall|j: int| 0 <= j <= i implies v.deep_view()[j] == files.deep_view().take(i + 1)[j] by {
                    if j < i {
                        assert(v@[j] == before[j]);
                    }
                }
                assert(v.deep_view() =~= files.deep_view().take(i + 1));
            }
            i = i + 1;
        }
        v.push(owned(list));
        proof {
            assert(files.deep_view().take(i as int) =~= files.deep_view());
            assert(v.deep_view() =~= files.deep_view().push(list@));
        }
    } else {
        proof { assert(v.deep_view() =~= Seq::<Seq<char>>::empty()); }
    }
    v
}

/// The folder offered by default: `Videos/RScreenRec` in the home folder,
/// or under `/tmp` when no home is known.
pub open spec fn default_folder_text(home: Option<Seq<char>>) -> Seq<char> {
    match home {
        Some(h) => h + "/Videos/RScreenRec"@,
        None => "/tmp"@ + "/Videos/RScreenRec"@,
    }
}

/// Names the folder offered by default.
pub fn default_folder(home: &Option<String>) -> (s: String)
    ensures
        s@ == default_folder_text(home.deep_view()),
{
    let mut s = match home {
        Some(h) => h.clone(),
        None => owned("/tmp"),
    };
    s.append("/Videos/RScreenRec");
    s
}


/// The queue that follows the rate caps of a recording pipeline.
pub open spec fn rate_queue_text() -> Seq<char> {
    "/1 ! queue max-size-buffers=200 max-size-time=0 max-size-bytes=0 leaky=downstream ! "@
}

/// The parts of a recording pipeline, each in terms of the request: it
/// starts with the muxer writing to `path` and the PipeWire source on `fd`
/// and `node`; the raw caps name the encoder's format (NV12 for nvenc, I420
/// otherwise) followed by the size caps; the rate caps carry `fps`; the
/// encoder element carries the bit rate, and `fps` as key frame distance
/// where the encoder takes one; and the pipeline ends with the audio part.
pub proof fn law_recording_pipeline_parts(
    e: Encoder,
    path: Seq<char>,
    fd: int,
    node: nat,
    caps: Seq<char>,
    fps: nat,
    bitrate: nat,
    audio: Seq<char>,
)
    ensures
        ({
            let t = recording_pipeline_text(e, path, fd, node, caps, fps, bitrate, audio);
            let format = if e == Encoder::Nvenc { "NV12"@ } else { "I420"@ };
            let encoder = match e {
                Encoder::Nvenc => "nvh264enc preset=low-latency-hq zerolatency=true rc-mode=cbr bitrate="@
                    + decimal(bitrate) + " gop-size="@ + decimal(fps),
                Encoder::Vaapi => "vaapih264enc bitrate="@ + decimal(bitrate) + " rate-control=cbr"@,
                Encoder::X264 => "x264enc speed-preset=ultrafast threads=0 bitrate="@ + decimal(bitrate)
                    + " key-int-max="@ + decimal(fps) + " bframes=0"@,
            };
            &&& ("matroskamux name=mux ! filesink location=\""@ + path + "\" async=false pipewiresrc fd="@
                + signed_decimal(fd) + " path="@ + decimal(node)).is_prefix_of(t)
            &&& contains_text(t, "video/x-raw,format="@ + format + caps + " ! videorate ! video/x-raw,framerate="@)
            &&& contains_text(t, " ! videorate ! video/x-raw,framerate="@ + decimal(fps) + rate_queue_text())
            &&& contains_text(t, rate_queue_text() + encoder + " ! h264parse config-interval=-1 ! mux. "@)
            &&& (" ! h264parse config-interval=-1 ! mux. "@ + audio).is_suffix_of(t)
        }),
{
    let t = recording_pipeline_text(e, path, fd, node, caps, fps, bitrate, audio);
    let head = "matroskamux name=mux ! filesink location=\""@ + path + "\" async=false pipewiresrc fd="@
        + signed_decimal(fd) + " path="@ + decimal(node);
    let mid = " do-timestamp=true ! queue max-size-buffers=200 max-size-time=0 max-size-bytes=0 leaky=downstream ! videoconvert ! videoscale ! video/x-raw,format="@;
    let rate = " ! videorate ! video/x-raw,framerate="@;
    let enc = encoder_element_text(e, fps, bitrate);
    let tail = " ! h264parse config-interval=-1 ! mux. "@ + audio;
    let fmt = raw_format_text(e);
    assert(t =~= head + (mid + fmt + caps + rate + decimal(fps) + rate_queue_text() + enc + tail));
    assert(t.subrange(0, head.len() as int) =~= head);
    assert(t.subrange(t.len() - tail.len(), t.len() as int) =~= tail);

    // The raw caps: "video/x-raw,format=" closes the literal before them.
    reveal_strlit(" do-timestamp=true ! queue max-size-buffers=200 max-size-time=0 max-size-bytes=0 leaky=downstream ! videoconvert ! videoscale ! video/x-raw,format=");
    reveal_strlit(" do-timestamp=true ! queue max-size-buffers=200 max-size-time=0 max-size-bytes=0 leaky=downstream ! videoconvert ! videoscale ! ");
    reveal_strlit("video/x-raw,format=");
    let mid_a = " do-timestamp=true ! queue max-size-buffers=200 max-size-time=0 max-size-bytes=0 leaky=downstream ! videoconvert ! videoscale ! "@;
    assert(mid =~= mid_a + "video/x-raw,format="@);
    let piece1 = "video/x-raw,format="@ + fmt + caps + rate;
    assert(t =~= (head + mid_a) + piece1 + (decimal(fps) + rate_queue_text() + enc + tail));
    lemma_contains_between(head + mid_a, piece1, decimal(fps) + rate_queue_text() + enc + tail);

    let piece2 = rate + decimal(fps) + rate_queue_text();
    assert(t =~= (head + mid + fmt + caps) + piece2 + (enc + tail));
    lemma_contains_between(head + mid + fmt + caps, piece2, enc + tail);

    let piece3 = rate_queue_text() + enc + " ! h264parse config-interval=-1 ! mux. "@;
    assert(t =~= (head + mid + fmt + caps + rate + decimal(fps)) + piece3 + audio);
    lemma_contains_between(head + mid + fmt + caps + rate + decimal(fps), piece3, audio);
}


/// The audio sources in terms of the request: the microphone comes first
/// when recorded, the default source for "default" or an empty name, else
/// the named device; the system sound comes last when recorded, from the
/// default sink's monitor when one is known, whether or not the microphone
/// is recorded, else from the default source.
pub proof fn law_audio_sources(
    record_mic: bool,
    mic: Seq<char>,
    record_system: bool,
    monitor: Option<Seq<char>>,
)
    ensures
        ({
            let v = audio_sources_of(record_mic, mic, record_system, monitor);
            &&& v.len() == (if record_mic { 1int } else { 0 }) + (if record_system { 1int } else { 0 })
            &&& record_mic ==> v[0] == (if mic == "default"@ || mic.len() == 0 {
                "pulsesrc"@
            } else {
                "pulsesrc device=\""@ + mic + "\""@
            })
            &&& forall|m: Seq<char>|
                record_system && monitor == Some(m) ==> v.last() == "pulsesrc device=\""@ + m + "\""@
            &&& record_system && monitor is None ==> v.last() == "pulsesrc"@
        }),
{
}

/// The audio part in terms of its sources: nothing without sources; one
/// source is the start of the part, encoded into the muxer; two sources are
/// mixed, the first then the second, and the mix goes into the muxer.
pub proof fn law_audio_branch(sources: Seq<Seq<char>>)
    ensures
        ({
            let b = audio_branch_text(sources);
            &&& sources.len() == 0 ==> b.len() == 0
            &&& sources.len() == 1 ==> sources[0].is_prefix_of(b) && (
            " ! queue ! audioconvert ! audioresample ! audiorate ! avenc_aac ! aacparse ! mux."@).is_suffix_of(b)
            &&& sources.len() >= 2 ==> {
                &&& ("audiomixer name=mix ! queue ! audioconvert ! audioresample ! audiorate ! avenc_aac ! aacparse ! mux. "@ + sources[0]).is_prefix_of(b)
                &&& contains_text(b, " ! queue ! mix. "@ + sources[1] + " ! queue ! mix."@)
                &&& (sources[1] + " ! queue ! mix."@).is_suffix_of(b)
            }
        }),
{
    let b = audio_branch_text(sources);
    if sources.len() == 1 {
        let tail = " ! queue ! audioconvert ! audioresample ! audiorate ! avenc_aac ! aacparse ! mux."@;
        assert(b.subrange(0, sources[0].len() as int) =~= sources[0]);
        assert(b.subrange(b.len() - tail.len(), b.len() as int) =~= tail);
    } else if sources.len() >= 2 {
        let head = "audiomixer name=mix ! queue ! audioconvert ! audioresample ! audiorate ! avenc_aac ! aacparse ! mux. "@ + sources[0];
        let piece = " ! queue ! mix. "@ + sources[1] + " ! queue ! mix."@;
        let tail = sources[1] + " ! queue ! mix."@;
        assert(b =~= head + piece + Seq::<char>::empty());
        assert(b.subrange(0, head.len() as int) =~= head);
        assert(b.subrange(b.len() - tail.len(), b.len() as int) =~= tail);
        lemma_contains_between(head, piece, Seq::<char>::empty());
    }
}

/// The size caps in terms of the resolution: a text `a` 'x' `b` with no
/// other 'x' (and other than "original") gives width `a` and height `b`;
/// "original", or a text with no 'x' or several, gives no caps.
pub proof fn law_scale_caps(a: Seq<char>, b: Seq<char>)
    ensures
        !a.contains('x') && !b.contains('x') ==> scale_caps_text(a + seq!['x'] + b) == ",width="@ + a
            + ",height="@ + b,
        scale_caps_text("original"@).len() == 0,
        !a.contains('x') ==> scale_caps_text(a).len() == 0 || a == "original"@,
        a.contains('x') && b.contains('x') ==> scale_caps_text(a + b).len() == 0,
{
    let r = a + seq!['x'] + b;
    if !a.contains('x') && !b.contains('x') {
        let i = a.len() as int;
        assert(r[i] == 'x');
        assert forall|j: int| 0 <= j < r.len() && j != i implies r[j] != 'x' by {
            if j < i {
                assert(r[j] == a[j]);
            } else {
                assert(r[j] == b[j - i - 1]);
            }
        }
        assert(has_one_x(r));
        let p = x_position(r);
        assert(p == i);
        reveal_strlit("original");
        if r == "original"@ {
            assert(r[i] == "original"@[i]);
        }
        assert(r.subrange(0, i) =~= a);
        assert(r.subrange(i + 1, r.len() as int) =~= b);
    }
    if !a.contains('x') {
        if has_one_x(a) {
            let w = choose|i: int| 0 <= i < a.len() && a[i] == 'x' && forall|j: int| 0 <= j < a.len() && j != i ==> a[j] != 'x';
            assert(a[w] == 'x');
        }
    }
    if a.contains('x') && b.contains('x') {
        let ia = choose|i: int| 0 <= i < a.len() && a[i] == 'x';
        let ib = choose|i: int| 0 <= i < b.len() && b[i] == 'x';
        let r2 = a + b;
        assert(r2[ia] == 'x');
        assert(r2[a.len() + ib] == 'x');
        assert(!has_one_x(r2));
    }
}


/// The preview pipeline in terms of its inputs: it reads the PipeWire
/// stream on `fd` and `node`, scales it to `width` by `height` in RGB, and
/// ends in the JPEG app sink named `preview_sink`.
pub proof fn law_preview_pipeline_parts(fd: int, node: nat, width: int, height: int)
    ensures
        ({
            let t = preview_pipeline_text(fd, node, width, height);
            &&& ("pipewiresrc fd="@ + signed_decimal(fd) + " path="@ + decimal(node)).is_prefix_of(t)
            &&& contains_text(t, "video/x-raw,width="@ + signed_decimal(width) + ",height="@ + signed_decimal(height) + ",format=RGB"@)
            &&& ("jpegenc quality=80 ! appsink name=preview_sink drop=true max-buffers=1"@).is_suffix_of(t)
        }),
{
    let t = preview_pipeline_text(fd, node, width, height);
    let head = "pipewiresrc fd="@ + signed_decimal(fd) + " path="@ + decimal(node);
    let mid = " do-timestamp=true ! queue max-size-buffers=30 max-size-time=0 max-size-bytes=0 leaky=downstream ! videoconvert ! videoscale ! video/x-raw,width="@;
    let mid_a = " do-timestamp=true ! queue max-size-buffers=30 max-size-time=0 max-size-bytes=0 leaky=downstream ! videoconvert ! videoscale ! "@;
    let rest = ",format=RGB ! videorate ! video/x-raw,framerate=15/1 ! jpegenc quality=80 ! appsink name=preview_sink drop=true max-buffers=1"@;
    let rest_b = " ! videorate ! video/x-raw,framerate=15/1 ! "@;
    let sink = "jpegenc quality=80 ! appsink name=preview_sink drop=true max-buffers=1"@;
    reveal_strlit(" do-timestamp=true ! queue max-size-buffers=30 max-size-time=0 max-size-bytes=0 leaky=downstream ! videoconvert ! videoscale ! video/x-raw,width=");
    reveal_strlit(" do-timestamp=true ! queue max-size-buffers=30 max-size-time=0 max-size-bytes=0 leaky=downstream ! videoconvert ! videoscale ! ");
    reveal_strlit("video/x-raw,width=");
    reveal_strlit(",format=RGB ! videorate ! video/x-raw,framerate=15/1 ! jpegenc quality=80 ! appsink name=preview_sink drop=true max-buffers=1");
    reveal_strlit(",format=RGB");
    reveal_strlit(" ! videorate ! video/x-raw,framerate=15/1 ! ");
    reveal_strlit("jpegenc quality=80 ! appsink name=preview_sink drop=true max-buffers=1");
    assert(mid =~= mid_a + "video/x-raw,width="@);
    assert(rest =~= ",format=RGB"@ + rest_b + sink);
    assert(t =~= head + (mid + signed_decimal(width) + ",height="@ + signed_decimal(height) + rest));
    assert(t.subrange(0, head.len() as int) =~= head);
    let piece = "video/x-raw,width="@ + signed_decimal(width) + ",height="@ + signed_decimal(height) + ",format=RGB"@;
    assert(t =~= (head + mid_a) + piece + (rest_b + sink));
    lemma_contains_between(head + mid_a, piece, rest_b + sink);
    assert(t.subrange(t.len() - sink.len(), t.len() as int) =~= sink);
}

/// The encoder a name picks: nvenc and vaapi by those exact names, x264 for
/// every other name.
pub proof fn law_encoder_named(name: Seq<char>)
    ensures
        encoder_named(name) == Encoder::Nvenc <==> name == "nvenc"@,
        encoder_named(name) == Encoder::Vaapi <==> name == "vaapi"@,
        encoder_named(name) == Encoder::X264 <==> name != "nvenc"@ && name != "vaapi"@,
{
    reveal_strlit("nvenc");
    reveal_strlit("vaapi");
    assert("nvenc"@[0] != "vaapi"@[0]);
}

/// The names of the files of a recording: segment files live in /tmp, are
/// named after the process and the segment index, and differ for different
/// indices; the output lies in the chosen folder and is named after the
/// start time; the concat list lives in /tmp and is named after the process.
pub proof fn law_file_names(pid: nat, index: int, other: int, folder: Seq<char>, seconds: nat)
    ensures
        ("/tmp/seg_"@ + decimal(pid) + "_"@).is_prefix_of(segment_path_text(pid, index)),
        (signed_decimal(index) + ".mkv"@).is_suffix_of(segment_path_text(pid, index)),
        segment_path_text(pid, index) == segment_path_text(pid, other) ==> index == other,
        folder.is_prefix_of(output_path_text(folder, seconds)),
        ("/recording_"@ + decimal(seconds) + ".mkv"@).is_suffix_of(output_path_text(folder, seconds)),
        ("/tmp/list_"@ + decimal(pid)).is_prefix_of(concat_list_path_text(pid)),
        (".txt"@).is_suffix_of(concat_list_path_text(pid)),
{
    let sp = segment_path_text(pid, index);
    let h = "/tmp/seg_"@ + decimal(pid) + "_"@;
    let tl = signed_decimal(index) + ".mkv"@;
    assert(sp =~= h + tl);
    assert(sp.subrange(0, h.len() as int) =~= h);
    assert(sp.subrange(sp.len() - tl.len(), sp.len() as int) =~= tl);
    if sp == segment_path_text(pid, other) {
        let da = signed_decimal(index);
        let db = signed_decimal(other);
        let pb = segment_path_text(pid, other);
        assert(da =~= sp.subrange(h.len() as int, (h.len() + da.len()) as int));
        assert(db =~= pb.subrange(h.len() as int, (h.len() + db.len()) as int));
        crate::decimal::lemma_signed_decimal_injective(index, other);
    }
    let op = output_path_text(folder, seconds);
    let ot = "/recording_"@ + decimal(seconds) + ".mkv"@;
    assert(op =~= folder + ot);
    assert(op.subrange(0, folder.len() as int) =~= folder);
    assert(op.subrange(op.len() - ot.len(), op.len() as int) =~= ot);
    let cp = concat_list_path_text(pid);
    let ch = "/tmp/list_"@ + decimal(pid);
    assert(cp.subrange(0, ch.len() as int) =~= ch);
    assert(cp.subrange(cp.len() - ".txt"@.len(), cp.len() as int) =~= ".txt"@);
}

/// The default folder: `Videos/RScreenRec` under the home folder when one
/// is known, under /tmp otherwise.
pub proof fn law_default_folder(home: Option<Seq<char>>)
    ensures
        ("/Videos/RScreenRec"@).is_suffix_of(default_folder_text(home)),
        forall|h: Seq<char>| home == Some(h) ==> h.is_prefix_of(default_folder_text(home)),
        home is None ==> ("/tmp"@).is_prefix_of(default_folder_text(home)),
{
    let t = default_folder_text(home);
    let suffix = "/Videos/RScreenRec"@;
    assert(t.subrange(t.len() - suffix.len(), t.len() as int) =~= suffix);
    match home {
        Some(h) => {
            assert(t.subrange(0, h.len() as int) =~= h);
        },
        None => {
            assert(t.subrange(0, "/tmp"@.len() as int) =~= "/tmp"@);
        },
    }
}

/// How the concat list grows with the files: a file that exists adds its
/// line at the end, a file that does not adds nothing; no files, no lines.
pub proof fn law_concat_list_grows(files: Seq<Seq<char>>, present: Seq<bool>, f: Seq<char>, p: bool)
    requires
        files.len() == present.len(),
    ensures
        concat_list_text(Seq::empty(), Seq::empty()).len() == 0,
        concat_list_text(files.push(f), present.push(p)) == concat_list_text(files, present) + if p {
            "file '"@ + f + "'\n"@
        } else {
            Seq::empty()
        },
{
    assert(files.push(f).drop_last() =~= files);
    assert(present.push(p).drop_last() =~= present);
}

/// A file absent from disk is never listed: with no file present the
/// concat list is empty.
pub proof fn law_concat_list_absent(files: Seq<Seq<char>>, present: Seq<bool>)
    requires
        files.len() == present.len(),
        forall|i: int| 0 <= i < present.len() ==> !present[i],
    ensures
        concat_list_text(files, present).len() == 0,
    decreases files.len(),
{
    if files.len() > 0 {
        law_concat_list_absent(files.drop_last(), present.drop_last());
        assert(!present[present.len() - 1]);
    }
}

/// After a successful join every segment file and then the list are
/// removed, in that order; after a failed one, nothing.
pub proof fn law_cleanup(files: Seq<Seq<char>>, list: Seq<char>, joined: bool)
    ensures
        joined ==> cleanup_text(files, list, joined).len() == files.len() + 1
            && files.is_prefix_of(cleanup_text(files, list, joined))
            && cleanup_text(files, list, joined).last() == list,
        !joined ==> cleanup_text(files, list, joined).len() == 0,
{
    if joined {
        assert(files.push(list).subrange(0, files.len() as int) =~= files);
    }
}

} // verus!
