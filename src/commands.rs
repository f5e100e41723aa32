use vstd::prelude::*;
use crate::arguments::{Arguments, ArgumentsModel};
use crate::streams::{TrackKind, file_name_of, intermediate_file};
use crate::text::{texts, lemma_texts_push, is_text, joined};

verus! {

/// An input flag before each input file, in order.
pub open spec fn input_flags(inputs: Seq<Seq<char>>) -> Seq<Seq<char>>
    decreases inputs.len(),
{
    if inputs.len() == 0 {
        Seq::empty()
    } else {
        input_flags(inputs.drop_last()) + seq!["-i"@, inputs.last()]
    }
}

/// The transcoder's arguments that extract the audio stream `stream`.
pub open spec fn audio_transcode_of(inputs: Seq<Seq<char>>, stream: Seq<char>) -> Seq<Seq<char>> {
    input_flags(inputs) + seq![
        "-map"@,
        stream,
        "-c:a"@,
        "libopus"@,
        "-compression_level"@,
        "10"@,
        "-mapping_family"@,
        "255"@,
        file_name_of(stream, TrackKind::Audio),
    ]
}

/// The transcoder's arguments that copy out the subtitle stream `stream`.
pub open spec fn subtitle_transcode_of(inputs: Seq<Seq<char>>, stream: Seq<char>) -> Seq<Seq<char>> {
    input_flags(inputs) + seq![
        "-map"@,
        stream,
        "-c:s"@,
        "copy"@,
        file_name_of(stream, TrackKind::Subtitle),
    ]
}

/// The transcoder's arguments for a stream of the given kind.
pub open spec fn transcode_of(inputs: Seq<Seq<char>>, stream: Seq<char>, kind: TrackKind) -> Seq<Seq<char>> {
    match kind {
        TrackKind::Audio => audio_transcode_of(inputs, stream),
        TrackKind::Subtitle => subtitle_transcode_of(inputs, stream),
    }
}

/// One transcoder invocation per stream of `streams`.
pub open spec fn transcodes_of(inputs: Seq<Seq<char>>, streams: Seq<Seq<char>>, kind: TrackKind) -> Seq<Seq<Seq<char>>> {
    streams.map_values(|s: Seq<char>| transcode_of(inputs, s, kind))
}

/// The intermediate file of each stream of `streams`.
pub open spec fn files_of(streams: Seq<Seq<char>>, kind: TrackKind) -> Seq<Seq<char>> {
    streams.map_values(|s: Seq<char>| file_name_of(s, kind))
}

/// The views of a list of argument lists.
pub open spec fn command_texts(v: Seq<Vec<String>>) -> Seq<Seq<Seq<char>>> {
    v.map_values(|c: Vec<String>| texts(c@))
}

/// The transcoder invocations of a run: in dummy mode one that only reads the
/// inputs; otherwise one per audio stream, bucket by bucket, then one per
/// subtitle stream.
pub open spec fn transcode_plan(m: ArgumentsModel) -> Seq<Seq<Seq<char>>> {
    if m.dummy {
        seq![input_flags(m.inputs)]
    } else {
        transcodes_of(m.inputs, m.audio(), TrackKind::Audio) + transcodes_of(
            m.inputs,
            m.subtitles,
            TrackKind::Subtitle,
        )
    }
}

/// The intermediate files of a run: those of the audio streams, then those of
/// the subtitle streams.
pub open spec fn intermediates_of(m: ArgumentsModel) -> Seq<Seq<char>> {
    files_of(m.audio(), TrackKind::Audio) + files_of(m.subtitles, TrackKind::Subtitle)
}

/// Appends `s` to `v`.
fn push_text(v: &mut Vec<String>, s: &str)
    ensures
        texts(final(v)@) == texts(old(v)@).push(s@),
{
    let t = String::from_str(s);
    proof {
        lemma_texts_push(v@, t);
    }
    v.push(t);
}

/// An input flag before each input file.
pub fn input_arguments(inputs: &Vec<String>) -> (r: Vec<String>)
    ensures
        texts(r@) == input_flags(texts(inputs@)),
{
    let mut r: Vec<String> = Vec::new();
    let mut i: usize = 0;
    while i < inputs.len()
        invariant
            i <= inputs@.len(),
            texts(r@) == input_flags(texts(inputs@).subrange(0, i as int)),
        decreases inputs@.len() - i,
    {
        push_text(&mut r, "-i");
        push_text(&mut r, inputs[i].as_str());
        let ghost done = texts(inputs@).subrange(0, i + 1);
        assert(done.drop_last() =~= texts(inputs@).subrange(0, i as int));
        assert(input_flags(done) =~= input_flags(done.drop_last()) + seq!["-i"@, inputs@[i as int]@]);
        i = i + 1;
    }
    assert(texts(inputs@).subrange(0, i as int) =~= texts(inputs@));
    r
}

/// The transcoder's arguments that extract the audio stream `stream` into its
/// intermediate file.
pub fn audio_transcode_arguments(inputs: &Vec<String>, stream: &str) -> (r: Vec<String>)
    ensures
        texts(r@) == audio_transcode_of(texts(inputs@), stream@),
{
    let mut r = input_arguments(inputs);
    push_text(&mut r, "-map");
    push_text(&mut r, stream);
    push_text(&mut r, "-c:a");
    push_text(&mut r, "libopus");
    push_text(&mut r, "-compression_level");
    push_text(&mut r, "10");
    push_text(&mut r, "-mapping_family");
    push_text(&mut r, "255");
    let file = intermediate_file(stream, TrackKind::Audio);
    push_text(&mut r, file.as_str());
    assert(texts(r@) =~= audio_transcode_of(texts(inputs@), stream@));
    r
}

/// The transcoder's arguments that copy the subtitle stream `stream` into its
/// intermediate file.
pub fn subtitle_transcode_arguments(inputs: &Vec<String>, stream: &str) -> (r: Vec<String>)
    ensures
        texts(r@) == subtitle_transcode_of(texts(inputs@), stream@),
{
    let mut r = input_arguments(inputs);
    push_text(&mut r, "-map");
    push_text(&mut r, stream);
    push_text(&mut r, "-c:s");
    push_text(&mut r, "copy");
    let file = intermediate_file(stream, TrackKind::Subtitle);
    push_text(&mut r, file.as_str());
    assert(texts(r@) =~= subtitle_transcode_of(texts(inputs@), stream@));
    r
}

/// Appends one transcoder invocation per stream of `streams`.
fn push_transcodes(cmds: &mut Vec<Vec<String>>, inputs: &Vec<String>, streams: &Vec<String>, kind: TrackKind)
    ensures
        command_texts(final(cmds)@) == command_texts(old(cmds)@) + transcodes_of(
            texts(inputs@),
            texts(streams@),
            kind,
        ),
{
    let ghost start = command_texts(cmds@);
    let ghost ins = texts(inputs@);
    let ghost all = texts(streams@);
    let mut i: usize = 0;
    while i < streams.len()
        invariant
            i <= streams@.len(),
            all == texts(streams@),
            ins == texts(inputs@),
            command_texts(cmds@) == start + transcodes_of(ins, all.subrange(0, i as int), kind),
        decreases streams@.len() - i,
    {
        let c = match kind {
            TrackKind::Audio => audio_transcode_arguments(inputs, streams[i].as_str()),
            TrackKind::Subtitle => subtitle_transcode_arguments(inputs, streams[i].as_str()),
        };
        assert(command_texts(cmds@.push(c)) =~= command_texts(cmds@).push(texts(c@)));
        cmds.push(c);
        assert(transcodes_of(ins, all.subrange(0, i + 1), kind) =~= transcodes_of(
            ins,
            all.subrange(0, i as int),
            kind,
        ).push(transcode_of(ins, all[i as int], kind)));
        assert(command_texts(cmds@) =~= start + transcodes_of(ins, all.subrange(0, i + 1), kind));
        i = i + 1;
    }
    assert(all.subrange(0, i as int) =~= all);
}

/// The transcoder invocations of the run that `args` describes: in dummy mode
/// one that only reads the inputs; otherwise one per audio stream, bucket by
/// bucket, then one per subtitle stream.
pub fn transcode_commands(args: &Arguments) -> (r: Vec<Vec<String>>)
    ensures
        command_texts(r@) == transcode_plan(args@),
{
    let mut cmds: Vec<Vec<String>> = Vec::new();
    if args.dummy() {
        let c = input_arguments(args.inputs());
        cmds.push(c);
        assert(command_texts(cmds@) =~= seq![input_flags(args@.inputs)]);
        return cmds;
    }
    let audio = args.audio_streams();
    push_transcodes(&mut cmds, args.inputs(), &audio, TrackKind::Audio);
    push_transcodes(&mut cmds, args.inputs(), args.subtitle_streams(), TrackKind::Subtitle);
    assert(command_texts(cmds@) =~= transcode_plan(args@));
    cmds
}

/// Appends the intermediate file of each stream of `streams`.
fn push_files(files: &mut Vec<String>, streams: &Vec<String>, kind: TrackKind)
    ensures
        texts(final(files)@) == texts(old(files)@) + files_of(texts(streams@), kind),
{
    let ghost start = texts(files@);
    let ghost all = texts(streams@);
    let mut i: usize = 0;
    while i < streams.len()
        invariant
            i <= streams@.len(),
            all == texts(streams@),
            texts(files@) == start + files_of(all.subrange(0, i as int), kind),
        decreases streams@.len() - i,
    {
        let file = intermediate_file(streams[i].as_str(), kind);
        proof {
            lemma_texts_push(files@, file);
        }
        files.push(file);
        assert(files_of(all.subrange(0, i + 1), kind) =~= files_of(all.subrange(0, i as int), kind).push(
            file_name_of(all[i as int], kind),
        ));
        assert(texts(files@) =~= start + files_of(all.subrange(0, i + 1), kind));
        i = i + 1;
    }
    assert(all.subrange(0, i as int) =~= all);
}

/// The intermediate files that the transcode phase writes and the cleanup
/// removes: those of the audio streams, then those of the subtitle streams.
pub fn intermediate_files(args: &Arguments) -> (r: Vec<String>)
    ensures
        texts(r@) == intermediates_of(args@),
{
    let mut files: Vec<String> = Vec::new();
    let audio = args.audio_streams();
    push_files(&mut files, &audio, TrackKind::Audio);
    push_files(&mut files, args.subtitle_streams(), TrackKind::Subtitle);
    assert(texts(files@) =~= intermediates_of(args@));
    files
}

/// The default name of a Russian track: `Original` when the output language
/// is Russian, else `Dub`.
pub open spec fn russian_default_of(language: Seq<char>) -> Seq<char> {
    if language == "rus"@ {
        "Original"@
    } else {
        "Dub"@
    }
}

/// The default name of an audio track of another language: `Dub` when the
/// output language is English, else `Original`.
pub open spec fn other_default_of(language: Seq<char>) -> Seq<char> {
    if language == "eng"@ {
        "Dub"@
    } else {
        "Original"@
    }
}

/// The default name of a subtitle track: `Dub` when the output language is
/// not English, else `Original`.
pub open spec fn subtitle_default_of(language: Seq<char>) -> Seq<char> {
    if language != "eng"@ {
        "Dub"@
    } else {
        "Original"@
    }
}

/// The `k`-th track name, or `default` once the names are used up.
pub open spec fn name_at(names: Seq<Seq<char>>, k: int, default: Seq<char>) -> Seq<char> {
    if 0 <= k < names.len() {
        names[k]
    } else {
        default
    }
}

/// The multiplexer's arguments that add the intermediate file of `stream`
/// with the language tag `tag` and the track name `name`.
pub open spec fn track_entry(stream: Seq<char>, kind: TrackKind, tag: Seq<char>, name: Seq<char>) -> Seq<Seq<char>> {
    match kind {
        TrackKind::Audio => seq!["--language"@, tag, "--track-name"@, "0:"@ + name, file_name_of(stream, kind)],
        TrackKind::Subtitle => seq![
            "--language"@,
            tag,
            "--track-name"@,
            "0:"@ + name,
            "--default-track"@,
            "0:false"@,
            file_name_of(stream, kind),
        ],
    }
}

/// The entries of the tracks of `streams`, the first of which takes the
/// `start`-th track name.
pub open spec fn track_entries(
    streams: Seq<Seq<char>>,
    kind: TrackKind,
    tag: Seq<char>,
    default: Seq<char>,
    names: Seq<Seq<char>>,
    start: int,
) -> Seq<Seq<char>>
    decreases streams.len(),
{
    if streams.len() == 0 {
        Seq::empty()
    } else {
        track_entries(streams.drop_last(), kind, tag, default, names, start) + track_entry(
            streams.last(),
            kind,
            tag,
            name_at(names, start + streams.len() - 1, default),
        )
    }
}

/// The multiplexer's global flags and its video source: language, title,
/// output path, the video's language, no tracks of the first input but its
/// video, and the first input.
pub open spec fn multiplex_head(m: ArgumentsModel) -> Seq<Seq<char>> {
    seq![
        "--default-language"@,
        m.language,
        "--title"@,
        m.title,
        "-o"@,
        m.output_path,
        "--language"@,
        m.video + ":"@ + m.language,
        "-A"@,
        "-S"@,
        "-T"@,
        "-M"@,
        "-B"@,
        m.inputs[0],
    ]
}

/// The multiplexer's arguments: the head, then the English, Ukrainian,
/// Russian and other audio tracks and the subtitle tracks, which take the
/// track names in turn.
pub open spec fn multiplex_of(m: ArgumentsModel) -> Seq<Seq<char>> {
    let e = m.english.len() as int;
    let u = m.ukrainian.len() as int;
    let r = m.russian.len() as int;
    let o = m.other.len() as int;
    let n = m.track_names;
    multiplex_head(m) + track_entries(m.english, TrackKind::Audio, "0:eng"@, "Original"@, n, 0)
        + track_entries(m.ukrainian, TrackKind::Audio, "0:ukr"@, "Dub"@, n, e) + track_entries(
        m.russian,
        TrackKind::Audio,
        "0:rus"@,
        russian_default_of(m.language),
        n,
        e + u,
    ) + track_entries(m.other, TrackKind::Audio, "0:"@ + m.language, other_default_of(m.language), n, e + u + r)
        + track_entries(m.subtitles, TrackKind::Subtitle, "0:eng"@, subtitle_default_of(m.language), n, e + u + r + o)
}

/// How many track names are taken once `k` tracks have been named.
pub open spec fn names_taken(k: int, n: int) -> int {
    if k < n {
        k
    } else {
        n
    }
}

/// The default name of a Russian track under the output language `language`.
pub fn russian_default_name(language: &String) -> (r: String)
    ensures
        r@ == russian_default_of(language@),
{
    if is_text(language, "rus") {
        String::from_str("Original")
    } else {
        String::from_str("Dub")
    }
}

/// The default name of an audio track of another language under the output
/// language `language`.
pub fn other_default_name(language: &String) -> (r: String)
    ensures
        r@ == other_default_of(language@),
{
    if is_text(language, "eng") {
        String::from_str("Dub")
    } else {
        String::from_str("Original")
    }
}

/// The default name of a subtitle track under the output language `language`.
pub fn subtitle_default_name(language: &String) -> (r: String)
    ensures
        r@ == subtitle_default_of(language@),
{
    if !is_text(language, "eng") {
        String::from_str("Dub")
    } else {
        String::from_str("Original")
    }
}

/// Appends the entries of the tracks of `streams`; `taken` counts the track
/// names used so far.
fn push_tracks(
    args: &mut Vec<String>,
    streams: &Vec<String>,
    kind: TrackKind,
    tag: &str,
    default: &str,
    names: &Vec<String>,
    taken: &mut usize,
    Ghost(start): Ghost<int>,
)
    requires
        0 <= start,
        *old(taken) as int == names_taken(start, names@.len() as int),
    ensures
        texts(final(args)@) == texts(old(args)@) + track_entries(
            texts(streams@),
            kind,
            tag@,
            default@,
            texts(names@),
            start,
        ),
        *final(taken) as int == names_taken(start + streams@.len(), names@.len() as int),
{
    let ghost head = texts(args@);
    let ghost all = texts(streams@);
    let ghost ns = texts(names@);
    let mut i: usize = 0;
    while i < streams.len()
        invariant
            i <= streams@.len(),
            0 <= start,
            all == texts(streams@),
            ns == texts(names@),
            *taken as int == names_taken(start + i, names@.len() as int),
            texts(args@) == head + track_entries(all.subrange(0, i as int), kind, tag@, default@, ns, start),
        decreases streams@.len() - i,
    {
        let ghost before = texts(args@);
        let name = if *taken < names.len() {
            let n = names[*taken].clone();
            *taken = *taken + 1;
            n
        } else {
            String::from_str(default)
        };
        assert(name@ == name_at(ns, start + i, default@));
        push_text(args, "--language");
        push_text(args, tag);
        push_text(args, "--track-name");
        let flag = joined("0:", name.as_str());
        push_text(args, flag.as_str());
        match kind {
            TrackKind::Audio => {},
            TrackKind::Subtitle => {
                push_text(args, "--default-track");
                push_text(args, "0:false");
            },
        }
        let file = intermediate_file(streams[i].as_str(), kind);
        push_text(args, file.as_str());
        let ghost done = all.subrange(0, i + 1);
        assert(done.drop_last() =~= all.subrange(0, i as int));
        assert(texts(args@) =~= before + track_entry(all[i as int], kind, tag@, name@));
        assert(texts(args@) =~= head + track_entries(done, kind, tag@, default@, ns, start));
        i = i + 1;
    }
    assert(all.subrange(0, i as int) =~= all);
}

/// The multiplexer's arguments for the run that `args` describes.
pub fn multiplex_arguments(args: &Arguments) -> (r: Vec<String>)
    ensures
        texts(r@) == multiplex_of(args@),
{
    let mut r: Vec<String> = Vec::new();
    let language = String::from_str(args.language());
    push_text(&mut r, "--default-language");
    push_text(&mut r, language.as_str());
    push_text(&mut r, "--title");
    push_text(&mut r, args.title());
    push_text(&mut r, "-o");
    push_text(&mut r, args.output_path());
    push_text(&mut r, "--language");
    let mut video = joined(args.video_stream(), ":");
    video.append(language.as_str());
    push_text(&mut r, video.as_str());
    push_text(&mut r, "-A");
    push_text(&mut r, "-S");
    push_text(&mut r, "-T");
    push_text(&mut r, "-M");
    push_text(&mut r, "-B");
    push_text(&mut r, args.inputs()[0].as_str());
    assert(texts(r@) =~= multiplex_head(args@));
    let names = args.track_names();
    let ghost e = args@.english.len() as int;
    let ghost u = args@.ukrainian.len() as int;
    let ghost ru = args@.russian.len() as int;
    let ghost o = args@.other.len() as int;
    let mut taken: usize = 0;
    push_tracks(&mut r, args.english_streams(), TrackKind::Audio, "0:eng", "Original", names, &mut taken, Ghost(0));
    push_tracks(&mut r, args.ukrainian_streams(), TrackKind::Audio, "0:ukr", "Dub", names, &mut taken, Ghost(e));
    let russian = russian_default_name(&language);
    push_tracks(
        &mut r,
        args.russian_streams(),
        TrackKind::Audio,
        "0:rus",
        russian.as_str(),
        names,
        &mut taken,
        Ghost(e + u),
    );
    let other = other_default_name(&language);
    let tag = joined("0:", language.as_str());
    push_tracks(
        &mut r,
        args.other_streams(),
        TrackKind::Audio,
        tag.as_str(),
        other.as_str(),
        names,
        &mut taken,
        Ghost(e + u + ru),
    );
    let subtitle = subtitle_default_name(&language);
    push_tracks(
        &mut r,
        args.subtitle_streams(),
        TrackKind::Subtitle,
        "0:eng",
        subtitle.as_str(),
        names,
        &mut taken,
        Ghost(e + u + ru + o),
    );
    r
}

} // verus!
