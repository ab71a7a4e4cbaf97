use cinematic::encoding::get_thumbnail_base64;
use cinematic::json::parse_json;
use cinematic::json::Json;
use cinematic::scanner::extract_embedded_artwork;
use cinematic::scanner::extract_metadata;
use cinematic::scanner::ffmpeg_outcome;
use cinematic::scanner::generate_thumbnail;
use cinematic::scanner::is_attached_picture_stream;
use cinematic::scanner::probe_media;
use cinematic::scanner::probed_duration;
use cinematic::scanner::read_report;
use cinematic::scanner::stream_index;
use cinematic::scanner::FfmpegRun;
use cinematic::scanner::ProbedVideoMetadata;
use cinematic::double::Double;

const REPORT: &str = r#"{
    "streams": [
        {"index": 0, "codec_type": "audio", "width": 1, "height": 1},
        {"index": 3, "codec_type": "video", "width": 600, "height": 800, "disposition": {"attached_pic": 1}},
        {"index": 1, "codec_type": "video", "width": 1920, "height": 1080, "disposition": {"attached_pic": 0}},
        {"index": 2, "codec_type": "video", "width": 640, "height": 480}
    ],
    "format": {"duration": "5400.25"}
}"#;

#[test]
fn json_is_read() {
    let doc = parse_json(r#"{"a": [1, -2, 3.5, true, null, "x\ny"], "b": {"c": 18446744073709551615}}"#).unwrap();
    let items = match doc.get("a").unwrap() {
        Json::Array(items) => items,
        other => panic!("{other:?}"),
    };
    assert_eq!(items.len(), 6);
    assert_eq!(items[0].as_i64(), Some(1));
    assert_eq!(items[0].as_double(), Some(Double { bits: 1.0f64.to_bits() }));
    assert_eq!(items[1].as_i64(), Some(-2));
    assert_eq!(items[2].as_i64(), None);
    assert_eq!(items[2].as_double(), Some(Double { bits: 3.5f64.to_bits() }));
    assert_eq!(items[3].as_bool(), Some(true));
    assert!(matches!(items[4], Json::Null));
    assert_eq!(items[5].as_str(), Some("x\ny"));
    assert_eq!(doc.get("b").unwrap().int_at("c"), None);
    assert!(doc.get("c").is_none());
    assert!(parse_json("{").is_none());
    assert!(parse_json("").is_none());
}

#[test]
fn a_field_that_comes_twice_counts_by_its_last_value() {
    assert_eq!(parse_json(r#"{"a": 1, "a": 2}"#).unwrap().int_at("a"), Some(2));
}

#[test]
fn a_report_tells_of_the_film_and_its_artwork() {
    let report = read_report(REPORT.as_bytes().to_vec()).unwrap();
    assert_eq!(probed_duration(&report).as_deref(), Some("5400.25"));
    let duration = Some(Double { bits: 5400.25f64.to_bits() });
    let metadata = extract_metadata(Some(&report), duration);
    assert_eq!(
        metadata,
        ProbedVideoMetadata {
            duration_secs: duration,
            width: Some(1920),
            height: Some(1080),
            embedded_artwork_stream_index: Some(3),
        }
    );
}

#[test]
fn a_picture_stands_in_where_there_is_no_film() {
    let report = parse_json(
        r#"{"streams": [{"index": 4294967297, "codec_type": "video", "width": 10, "disposition": {"attached_pic": 1}}]}"#,
    )
    .unwrap();
    let metadata = extract_metadata(Some(&report), None);
    assert_eq!(metadata.width, Some(10));
    assert_eq!(metadata.height, None);
    assert_eq!(metadata.embedded_artwork_stream_index, Some(1));
    assert_eq!(metadata.duration_secs, None);
    assert_eq!(probed_duration(&report), None);
}

#[test]
fn without_a_report_nothing_is_known() {
    let duration = Some(Double { bits: 1.0f64.to_bits() });
    assert_eq!(extract_metadata(None, duration), ProbedVideoMetadata::default());
    assert!(read_report(vec![0xff, 0xfe]).is_none());
    assert!(read_report(b"not json".to_vec()).is_none());
    let empty = parse_json("{\"streams\": 3}").unwrap();
    assert_eq!(extract_metadata(Some(&empty), duration).duration_secs, duration);
    assert_eq!(extract_metadata(Some(&empty), duration).width, None);
}

#[test]
fn streams_are_told_apart() {
    let picture = parse_json(r#"{"index": 7, "disposition": {"attached_pic": 1}}"#).unwrap();
    let film = parse_json(r#"{"index": -1, "disposition": {"attached_pic": 1.0}}"#).unwrap();
    assert!(is_attached_picture_stream(&picture));
    assert!(!is_attached_picture_stream(&film));
    assert_eq!(stream_index(&picture), Some(7));
    assert_eq!(stream_index(&film), Some(-1));
    assert_eq!(stream_index(&Json::Null), None);
}

#[test]
fn tools_are_called_with_their_arguments() {
    let probe = probe_media("/v/a.mkv");
    assert_eq!(probe.program, "ffprobe");
    assert_eq!(
        probe.args,
        vec!["-v", "quiet", "-print_format", "json", "-show_format", "-show_streams", "/v/a.mkv"]
    );
    let thumbnail = generate_thumbnail("/v/a.mkv", "/t/1.jpg", "12.50");
    assert_eq!(thumbnail.program, "ffmpeg");
    assert_eq!(
        thumbnail.args,
        vec!["-y", "-ss", "12.50", "-i", "/v/a.mkv", "-vframes", "1", "-q:v", "3", "-vf", "scale=480:-1", "/t/1.jpg"]
    );
    let artwork = extract_embedded_artwork("/v/a.mkv", "/t/1.jpg", 3);
    assert_eq!(
        artwork.args,
        vec!["-y", "-i", "/v/a.mkv", "-map", "0:3", "-frames:v", "1", "-q:v", "3", "-vf", "scale=480:-1", "/t/1.jpg"]
    );
    assert_eq!(extract_embedded_artwork("a", "b", -2).args[4], "0:-2");
}

#[test]
fn a_run_of_ffmpeg_is_told() {
    assert_eq!(ffmpeg_outcome(FfmpegRun::Succeeded), Ok(()));
    assert_eq!(
        ffmpeg_outcome(FfmpegRun::Failed("böse".as_bytes().to_vec())),
        Err("ffmpeg failed: böse".to_string())
    );
    assert_eq!(
        ffmpeg_outcome(FfmpegRun::Failed(vec![b'x', 0xff])),
        Err("ffmpeg failed: x\u{fffd}".to_string())
    );
    assert_eq!(
        ffmpeg_outcome(FfmpegRun::NotStarted("missing".to_string())),
        Err("Failed to run ffmpeg: missing".to_string())
    );
}

#[test]
fn thumbnails_are_encoded() {
    assert_eq!(get_thumbnail_base64(b""), "data:image/jpeg;base64,");
    assert_eq!(get_thumbnail_base64(b"f"), "data:image/jpeg;base64,Zg==");
    assert_eq!(get_thumbnail_base64(b"fo"), "data:image/jpeg;base64,Zm8=");
    assert_eq!(get_thumbnail_base64(b"foo"), "data:image/jpeg;base64,Zm9v");
    assert_eq!(get_thumbnail_base64(b"foobar"), "data:image/jpeg;base64,Zm9vYmFy");
    assert_eq!(get_thumbnail_base64(&[0xff, 0xef, 0xbe]), "data:image/jpeg;base64,/+++");
}

#[test]
fn bytes_that_differ_are_encoded_differently() {
    let mut seen: Vec<String> = Vec::new();
    for a in 0..=255u8 {
        for tail in [vec![], vec![a], vec![a, 1]] {
            let mut bytes = vec![a];
            bytes.extend(tail);
            seen.push(get_thumbnail_base64(&bytes));
        }
    }
    let count = seen.len();
    seen.sort();
    seen.dedup();
    assert_eq!(seen.len(), count);
}
