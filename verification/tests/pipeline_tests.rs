use rscreenrec::pipeline::{
    audio_branch, audio_sources, cleanup_files, concat_args, concat_list, concat_list_path,
    default_folder, encoder_element, encoder_from_name, mic_element, output_path,
    preview_pipeline, recording_pipeline, scale_caps, segment_path, system_element, Encoder,
};

#[test]
fn encoder_names() {
    assert_eq!(encoder_from_name("nvenc"), Encoder::Nvenc);
    assert_eq!(encoder_from_name("vaapi"), Encoder::Vaapi);
    assert_eq!(encoder_from_name("x264"), Encoder::X264);
    assert_eq!(encoder_from_name("NVENC"), Encoder::X264);
    assert_eq!(encoder_from_name(""), Encoder::X264);
}

#[test]
fn preview_pipeline_text() {
    let expected = format!(
        "pipewiresrc fd={} path={} do-timestamp=true ! queue max-size-buffers=30 max-size-time=0 max-size-bytes=0 leaky=downstream ! videoconvert ! videoscale ! video/x-raw,width={},height={},format=RGB ! videorate ! video/x-raw,framerate=15/1 ! jpegenc quality=80 ! appsink name=preview_sink drop=true max-buffers=1",
        17, 42, 1280, 720
    );
    assert_eq!(preview_pipeline(17, 42, 1280, 720), expected);
}

#[test]
fn mic_elements() {
    assert_eq!(mic_element("default"), "pulsesrc");
    assert_eq!(mic_element(""), "pulsesrc");
    assert_eq!(mic_element("alsa_input.usb"), "pulsesrc device=\"alsa_input.usb\"");
}

#[test]
fn system_elements() {
    assert_eq!(system_element(&Some("sink.monitor".to_string())), "pulsesrc device=\"sink.monitor\"");
    assert_eq!(system_element(&None), "pulsesrc");
}

#[test]
fn audio_source_lists() {
    assert!(audio_sources(false, "default", false, &None).is_empty());
    assert_eq!(audio_sources(true, "mic", false, &Some("m".to_string())), vec!["pulsesrc device=\"mic\"".to_string()]);
    assert_eq!(audio_sources(false, "mic", true, &None), vec!["pulsesrc".to_string()]);
    assert_eq!(
        audio_sources(true, "default", true, &Some("out.monitor".to_string())),
        vec!["pulsesrc".to_string(), "pulsesrc device=\"out.monitor\"".to_string()]
    );
}

#[test]
fn audio_branches() {
    assert_eq!(audio_branch(&vec![]), "");
    let one = vec!["pulsesrc".to_string()];
    assert_eq!(
        audio_branch(&one),
        format!("{} ! queue ! audioconvert ! audioresample ! audiorate ! avenc_aac ! aacparse ! mux.", "pulsesrc")
    );
    let two = vec!["pulsesrc".to_string(), "pulsesrc device=\"m\"".to_string()];
    assert_eq!(
        audio_branch(&two),
        format!(
            "audiomixer name=mix ! queue ! audioconvert ! audioresample ! audiorate ! avenc_aac ! aacparse ! mux. {} ! queue ! mix. {} ! queue ! mix.",
            "pulsesrc", "pulsesrc device=\"m\""
        )
    );
}

#[test]
fn scale_caps_of_resolutions() {
    assert_eq!(scale_caps("original"), "");
    assert_eq!(scale_caps("1920x1080"), ",width=1920,height=1080");
    assert_eq!(scale_caps("x"), ",width=,height=");
    assert_eq!(scale_caps("1920"), "");
    assert_eq!(scale_caps("1x2x3"), "");
    assert_eq!(scale_caps(""), "");
    assert_eq!(scale_caps("Original"), "");
}

#[test]
fn recording_pipelines_per_encoder() {
    let (path, fd, node, caps, fps, bitrate, audio) =
        ("/tmp/seg_9_0.mkv", 23, 88u32, ",width=1280,height=720", 30u32, 8000u32, "pulsesrc ! queue ! mux.");
    let nv = format!(
        "matroskamux name=mux ! filesink location=\"{}\" async=false \
         pipewiresrc fd={} path={} do-timestamp=true ! queue max-size-buffers=200 max-size-time=0 max-size-bytes=0 leaky=downstream ! videoconvert ! videoscale ! video/x-raw,format=NV12{} ! videorate ! video/x-raw,framerate={}/1 ! queue max-size-buffers=200 max-size-time=0 max-size-bytes=0 leaky=downstream ! nvh264enc preset=low-latency-hq zerolatency=true rc-mode=cbr bitrate={} gop-size={} ! h264parse config-interval=-1 ! mux. \
         {}",
        path, fd, node, caps, fps, bitrate, fps, audio
    );
    assert_eq!(recording_pipeline(Encoder::Nvenc, path, fd, node, caps, fps, bitrate, audio), nv);
    let va = format!(
        "matroskamux name=mux ! filesink location=\"{}\" async=false \
         pipewiresrc fd={} path={} do-timestamp=true ! queue max-size-buffers=200 max-size-time=0 max-size-bytes=0 leaky=downstream ! videoconvert ! videoscale ! video/x-raw,format=I420{} ! videorate ! video/x-raw,framerate={}/1 ! queue max-size-buffers=200 max-size-time=0 max-size-bytes=0 leaky=downstream ! vaapih264enc bitrate={} rate-control=cbr ! h264parse config-interval=-1 ! mux. \
         {}",
        path, fd, node, caps, fps, bitrate, audio
    );
    assert_eq!(recording_pipeline(Encoder::Vaapi, path, fd, node, caps, fps, bitrate, audio), va);
    let x = format!(
        "matroskamux name=mux ! filesink location=\"{}\" async=false \
         pipewiresrc fd={} path={} do-timestamp=true ! queue max-size-buffers=200 max-size-time=0 max-size-bytes=0 leaky=downstream ! videoconvert ! videoscale ! video/x-raw,format=I420{} ! videorate ! video/x-raw,framerate={}/1 ! queue max-size-buffers=200 max-size-time=0 max-size-bytes=0 leaky=downstream ! x264enc speed-preset=ultrafast threads=0 bitrate={} key-int-max={} bframes=0 ! h264parse config-interval=-1 ! mux. \
         {}",
        path, fd, node, caps, fps, bitrate, fps, audio
    );
    assert_eq!(recording_pipeline(Encoder::X264, path, fd, node, caps, fps, bitrate, audio), x);
}

#[test]
fn recording_pipeline_without_audio_ends_with_mux() {
    let p = recording_pipeline(Encoder::X264, "/tmp/a.mkv", -1, 0, "", 60, 4000, "");
    assert!(p.ends_with("! mux. "));
    assert!(p.contains("fd=-1 path=0 "));
    assert!(p.contains("format=I420 ! videorate"));
}

#[test]
fn encoder_elements() {
    assert_eq!(
        encoder_element(Encoder::Nvenc, 25, 6000),
        "nvh264enc preset=low-latency-hq zerolatency=true rc-mode=cbr bitrate=6000 gop-size=25"
    );
    assert_eq!(encoder_element(Encoder::Vaapi, 25, 6000), "vaapih264enc bitrate=6000 rate-control=cbr");
    assert_eq!(
        encoder_element(Encoder::X264, 25, 6000),
        "x264enc speed-preset=ultrafast threads=0 bitrate=6000 key-int-max=25 bframes=0"
    );
}

#[test]
fn file_names() {
    assert_eq!(segment_path(4242, 0), format!("/tmp/seg_{}_{}.mkv", 4242, 0));
    assert_eq!(segment_path(4242, 17), "/tmp/seg_4242_17.mkv");
    assert_eq!(output_path("/home/u/Videos/RScreenRec", 1700000000), "/home/u/Videos/RScreenRec/recording_1700000000.mkv");
    assert_eq!(concat_list_path(77), "/tmp/list_77.txt");
}

#[test]
fn concat_list_names_present_files() {
    let files = vec!["/tmp/seg_1_0.mkv".to_string(), "/tmp/seg_1_1.mkv".to_string(), "/tmp/seg_1_2.mkv".to_string()];
    assert_eq!(
        concat_list(&files, &vec![true, false, true]),
        "file '/tmp/seg_1_0.mkv'\nfile '/tmp/seg_1_2.mkv'\n"
    );
    assert_eq!(concat_list(&files, &vec![false, false, false]), "");
    assert_eq!(concat_list(&vec![], &vec![]), "");
}

#[test]
fn ffmpeg_arguments() {
    let args = concat_args("/tmp/list_1.txt", "/out/recording_5.mkv");
    assert_eq!(
        args,
        vec!["-y", "-f", "concat", "-safe", "0", "-i", "/tmp/list_1.txt", "-c", "copy", "/out/recording_5.mkv"]
    );
}

#[test]
fn cleanup_after_join() {
    let files = vec!["a".to_string(), "b".to_string()];
    assert_eq!(cleanup_files(&files, "list", true), vec!["a", "b", "list"]);
    assert!(cleanup_files(&files, "list", false).is_empty());
}

#[test]
fn default_folders() {
    assert_eq!(default_folder(&Some("/home/ann".to_string())), "/home/ann/Videos/RScreenRec");
    assert_eq!(default_folder(&None), "/tmp/Videos/RScreenRec");
}
