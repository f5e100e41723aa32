use remux::arguments::{alias_track_name, output_file_path, Arguments, ArgumentsError};
use remux::commands::{
    audio_transcode_arguments, input_arguments, intermediate_files, multiplex_arguments,
    other_default_name, russian_default_name, subtitle_default_name, subtitle_transcode_arguments,
    transcode_commands,
};
use remux::report::{debug_list_text, rule};
use remux::run::{advance, Stage, Step};
use remux::streams::{intermediate_file, underscore, TrackKind};

fn strings(v: &[&str]) -> Vec<String> {
    v.iter().map(|s| s.to_string()).collect()
}

fn configuration(
    inputs: &[&str],
    english: &[&str],
    russian: &[&str],
    other: &[&str],
    subtitles: &[&str],
    names: &[&str],
    language: Option<&str>,
    prefix: Option<&str>,
    title: Option<&str>,
) -> Result<Arguments, ArgumentsError> {
    Arguments::new(
        strings(inputs),
        "0".to_string(),
        strings(english),
        strings(&[]),
        strings(russian),
        strings(other),
        strings(subtitles),
        strings(names),
        language.map(|s| s.to_string()),
        prefix.map(|s| s.to_string()),
        title.map(|s| s.to_string()),
        ".".to_string(),
    )
}

fn movie() -> Arguments {
    configuration(&["movie.mp4"], &["0:1"], &["0:2"], &[], &["0:3"], &[], None, None, Some("Show"))
        .unwrap()
}

fn run_steps(dummy: bool, outcomes: &[bool]) -> Vec<Step> {
    let mut stage = Stage::Start;
    let mut steps = Vec::new();
    for ok in outcomes {
        let (next, step) = advance(stage, dummy, *ok);
        stage = next;
        steps.push(step);
    }
    steps
}

#[test]
fn no_title_means_dummy_mode() {
    let a = configuration(&["a.mkv"], &["0:1"], &[], &[], &[], &[], None, None, None).unwrap();
    assert!(a.dummy());
    assert_eq!(a.title(), "");
    assert_eq!(a.language(), "eng");
}

#[test]
fn a_title_means_full_mode() {
    let a = configuration(&["a.mkv"], &[], &[], &[], &[], &[], None, None, Some("Film")).unwrap();
    assert!(!a.dummy());
    assert_eq!(a.title(), "Film");
}

#[test]
fn no_inputs_is_an_error() {
    let r = configuration(&[], &[], &[], &[], &[], &[], None, None, Some("Film"));
    assert!(matches!(r, Err(ArgumentsError::NoInputs)));
}

#[test]
fn output_path_without_prefix() {
    assert_eq!(output_file_path(".", None, "Show"), "./Show.mkv");
    assert_eq!(movie().output_path(), "./Show.mkv");
}

#[test]
fn output_path_with_prefix() {
    assert_eq!(output_file_path("/films", Some("S01"), "Show"), "/films/S01.Show.mkv");
    let a = configuration(&["a.mkv"], &[], &[], &[], &[], &[], None, Some("P"), Some("T")).unwrap();
    assert_eq!(a.output_path(), "./P.T.mkv");
    assert_eq!(a.destination(), ".");
}

#[test]
fn track_name_codes_expand() {
    assert_eq!(alias_track_name(&"o".to_string()), "Original");
    assert_eq!(alias_track_name(&"O".to_string()), "Original");
    assert_eq!(alias_track_name(&"d".to_string()), "Dub");
    assert_eq!(alias_track_name(&"D".to_string()), "Dub");
    assert_eq!(alias_track_name(&"Director".to_string()), "Director");
    assert_eq!(alias_track_name(&"".to_string()), "");
}

#[test]
fn track_name_expansion_is_idempotent() {
    for n in ["o", "O", "d", "D", "x", "Original", "Dub"] {
        let once = alias_track_name(&n.to_string());
        assert_eq!(alias_track_name(&once), once);
    }
}

#[test]
fn configuration_expands_track_names() {
    let a = configuration(&["a.mkv"], &["0:1"], &[], &[], &[], &["o", "D", "Commentary"], None, None, Some("T"))
        .unwrap();
    assert_eq!(a.track_names(), &strings(&["Original", "Dub", "Commentary"]));
}

#[test]
fn intermediate_file_names() {
    assert_eq!(underscore("0:1"), "0_1");
    assert_eq!(underscore("a:b:c"), "a_b_c");
    assert_eq!(intermediate_file("0:1", TrackKind::Audio), "0_1.ogg");
    assert_eq!(intermediate_file("0:1", TrackKind::Subtitle), "0_1.srt");
    assert_ne!(intermediate_file("0:1", TrackKind::Audio), intermediate_file("0:2", TrackKind::Audio));
    assert_ne!(intermediate_file("1:0", TrackKind::Audio), intermediate_file("0:1", TrackKind::Audio));
}

#[test]
fn russian_default_name_follows_language() {
    assert_eq!(russian_default_name(&"rus".to_string()), "Original");
    assert_eq!(russian_default_name(&"eng".to_string()), "Dub");
    assert_eq!(russian_default_name(&"ukr".to_string()), "Dub");
}

#[test]
fn other_default_name_follows_language() {
    assert_eq!(other_default_name(&"eng".to_string()), "Dub");
    assert_eq!(other_default_name(&"jpn".to_string()), "Original");
    assert_eq!(other_default_name(&"rus".to_string()), "Original");
}

#[test]
fn subtitle_default_name_follows_language() {
    assert_eq!(subtitle_default_name(&"eng".to_string()), "Original");
    assert_eq!(subtitle_default_name(&"rus".to_string()), "Dub");
    assert_eq!(subtitle_default_name(&"fra".to_string()), "Dub");
}

#[test]
fn input_flags_precede_each_input() {
    assert_eq!(input_arguments(&strings(&["a.mkv", "b.mkv"])), strings(&["-i", "a.mkv", "-i", "b.mkv"]));
    assert_eq!(input_arguments(&strings(&[])), strings(&[]));
}

#[test]
fn transcode_arguments_of_one_stream() {
    let inputs = strings(&["a.mkv", "b.mkv"]);
    assert_eq!(
        audio_transcode_arguments(&inputs, "1:2"),
        strings(&[
            "-i", "a.mkv", "-i", "b.mkv", "-map", "1:2", "-c:a", "libopus", "-compression_level", "10",
            "-mapping_family", "255", "1_2.ogg",
        ])
    );
    assert_eq!(
        subtitle_transcode_arguments(&inputs, "0:4"),
        strings(&["-i", "a.mkv", "-i", "b.mkv", "-map", "0:4", "-c:s", "copy", "0_4.srt"])
    );
}

#[test]
fn end_to_end_plan() {
    let a = movie();
    let cmds = transcode_commands(&a);
    assert_eq!(
        cmds,
        vec![
            strings(&[
                "-i", "movie.mp4", "-map", "0:1", "-c:a", "libopus", "-compression_level", "10",
                "-mapping_family", "255", "0_1.ogg",
            ]),
            strings(&[
                "-i", "movie.mp4", "-map", "0:2", "-c:a", "libopus", "-compression_level", "10",
                "-mapping_family", "255", "0_2.ogg",
            ]),
            strings(&["-i", "movie.mp4", "-map", "0:3", "-c:s", "copy", "0_3.srt"]),
        ]
    );
    assert_eq!(
        multiplex_arguments(&a),
        strings(&[
            "--default-language", "eng", "--title", "Show", "-o", "./Show.mkv", "--language", "0:eng",
            "-A", "-S", "-T", "-M", "-B", "movie.mp4", "--language", "0:eng", "--track-name",
            "0:Original", "0_1.ogg", "--language", "0:rus", "--track-name", "0:Dub", "0_2.ogg",
            "--language", "0:eng", "--track-name", "0:Original", "--default-track", "0:false", "0_3.srt",
        ])
    );
    assert_eq!(intermediate_files(&a), strings(&["0_1.ogg", "0_2.ogg", "0_3.srt"]));
    assert_eq!(
        run_steps(false, &[true, true, true, true]),
        vec![Step::Transcode, Step::Multiplex, Step::RemoveIntermediates, Step::Finish]
    );
}

#[test]
fn track_names_are_taken_in_turn() {
    let a = configuration(
        &["m.mkv"],
        &["0:1"],
        &["0:2"],
        &["0:5"],
        &["0:3"],
        &["Director", "d"],
        Some("rus"),
        None,
        Some("Film"),
    )
    .unwrap();
    assert_eq!(
        multiplex_arguments(&a),
        strings(&[
            "--default-language", "rus", "--title", "Film", "-o", "./Film.mkv", "--language", "0:rus",
            "-A", "-S", "-T", "-M", "-B", "m.mkv", "--language", "0:eng", "--track-name", "0:Director",
            "0_1.ogg", "--language", "0:rus", "--track-name", "0:Dub", "0_2.ogg", "--language", "0:rus",
            "--track-name", "0:Original", "0_5.ogg", "--language", "0:eng", "--track-name", "0:Dub",
            "--default-track", "0:false", "0_3.srt",
        ])
    );
}

#[test]
fn dummy_run_plans_one_input_only_transcode() {
    let a = configuration(&["a.mkv", "b.mkv"], &["0:1"], &[], &[], &["0:2"], &[], None, None, None).unwrap();
    assert_eq!(transcode_commands(&a), vec![strings(&["-i", "a.mkv", "-i", "b.mkv"])]);
    assert_eq!(run_steps(true, &[true, true, true]), vec![Step::Transcode, Step::Finish, Step::Finish]);
    assert_eq!(run_steps(true, &[true, false, true]), vec![Step::Transcode, Step::Abort, Step::Abort]);
}

#[test]
fn failed_multiplex_keeps_intermediates() {
    let steps = run_steps(false, &[true, true, false, true]);
    assert_eq!(steps, vec![Step::Transcode, Step::Multiplex, Step::Abort, Step::Abort]);
    assert!(!steps.contains(&Step::RemoveIntermediates));
}

#[test]
fn failed_transcode_or_cleanup_aborts() {
    assert_eq!(run_steps(false, &[true, false, true]), vec![Step::Transcode, Step::Abort, Step::Abort]);
    assert_eq!(
        run_steps(false, &[true, true, true, false]),
        vec![Step::Transcode, Step::Multiplex, Step::RemoveIntermediates, Step::Abort]
    );
}

#[test]
fn audio_streams_in_bucket_order() {
    let a = Arguments::new(
        strings(&["m.mkv"]),
        "0:0".to_string(),
        strings(&["0:1"]),
        strings(&["0:2"]),
        strings(&["0:3"]),
        strings(&["0:4"]),
        strings(&["0:5"]),
        strings(&[]),
        Some("ukr".to_string()),
        None,
        Some("T".to_string()),
        "out".to_string(),
    )
    .unwrap();
    assert_eq!(a.audio_streams(), strings(&["0:1", "0:2", "0:3", "0:4"]));
    assert_eq!(a.english_streams(), &strings(&["0:1"]));
    assert_eq!(a.ukrainian_streams(), &strings(&["0:2"]));
    assert_eq!(a.russian_streams(), &strings(&["0:3"]));
    assert_eq!(a.other_streams(), &strings(&["0:4"]));
    assert_eq!(a.subtitle_streams(), &strings(&["0:5"]));
    assert_eq!(a.video_stream(), "0:0");
    assert_eq!(a.inputs(), &strings(&["m.mkv"]));
    assert_eq!(a.output_path(), "out/T.mkv");
}

#[test]
fn debug_lists_and_rules() {
    assert_eq!(debug_list_text(&strings(&[])), "[]");
    assert_eq!(debug_list_text(&strings(&["0:1", "0:2"])), "[\"0:1\", \"0:2\"]");
    assert_eq!(debug_list_text(&strings(&["a\"b"])), "[\"a\\\"b\"]");
    assert_eq!(rule(3), "___");
    assert_eq!(rule(0), "");
}

#[test]
fn report_of_a_full_configuration() {
    let a = movie();
    let expected = format!(
        "{0} ARGUMENTS {0}\nInput #0001: movie.mp4\nStream HEVC: 0\nStreams ENG: [\"0:1\"]\nStreams UKR: []\nStreams RUS: [\"0:2\"]\nStreams OTH: []\nStreams SUB: [\"0:3\"]\nTrack names: []\nLanguage   : eng\nOutput file: Show\nOutput path: ./Show.mkv\n{1}\n",
        "_".repeat(32),
        "_".repeat(75)
    );
    assert_eq!(a.report(), expected);
}

#[test]
fn report_of_a_dummy_configuration() {
    let a = configuration(&["a.mkv", "b.mkv"], &[], &[], &[], &[], &[], None, None, None).unwrap();
    let expected = format!(
        "{0} ARGUMENTS {0}\nInput #0001: a.mkv\nInput #0002: b.mkv\nDummy mode!\n",
        "_".repeat(32)
    );
    assert_eq!(a.report(), expected);
}
