use vstd::prelude::*;
use crate::text::{texts, lemma_texts_push, is_text, joined};

verus! {

/// What a configuration holds, as mathematical values.
pub ghost struct ArgumentsModel {
    pub inputs: Seq<Seq<char>>,
    pub video: Seq<char>,
    pub english: Seq<Seq<char>>,
    pub ukrainian: Seq<Seq<char>>,
    pub russian: Seq<Seq<char>>,
    pub other: Seq<Seq<char>>,
    pub subtitles: Seq<Seq<char>>,
    pub track_names: Seq<Seq<char>>,
    pub language: Seq<char>,
    pub title: Seq<char>,
    pub destination: Seq<char>,
    pub output_path: Seq<char>,
    pub dummy: bool,
}

impl ArgumentsModel {
    /// The audio specifiers of all buckets: English, Ukrainian, Russian, other.
    pub open spec fn audio(self) -> Seq<Seq<char>> {
        self.english + self.ukrainian + self.russian + self.other
    }
}

/// Why a configuration cannot be made.
#[derive(Clone, Copy, Debug, PartialEq, Eq, Structural)]
pub enum ArgumentsError {
    /// No input file was given.
    NoInputs,
}

/// A display name with its one-letter codes expanded: `o` or `O` is
/// `Original`, `d` or `D` is `Dub`, anything else stays as it is.
pub open spec fn alias_of(name: Seq<char>) -> Seq<char> {
    if name == "o"@ || name == "O"@ {
        "Original"@
    } else if name == "d"@ || name == "D"@ {
        "Dub"@
    } else {
        name
    }
}

/// Each name of `names` with its code expanded.
pub open spec fn aliased(names: Seq<Seq<char>>) -> Seq<Seq<char>> {
    names.map_values(|n: Seq<char>| alias_of(n))
}

/// The views of an optional string.
pub open spec fn opt_text(o: Option<String>) -> Option<Seq<char>> {
    match o {
        Some(s) => Some(s@),
        None => None,
    }
}

/// The output language: the one given, else `eng`.
pub open spec fn language_of(language: Option<Seq<char>>) -> Seq<char> {
    match language {
        Some(l) => l,
        None => "eng"@,
    }
}

/// The output title: the name given, else empty.
pub open spec fn title_of(name: Option<Seq<char>>) -> Seq<char> {
    match name {
        Some(n) => n,
        None => Seq::empty(),
    }
}

/// Dummy mode: no output name was given.
pub open spec fn dummy_of(name: Option<Seq<char>>) -> bool {
    name is None
}

/// `destination/[prefix.]title.mkv`.
pub open spec fn output_path_of(destination: Seq<char>, prefix: Option<Seq<char>>, title: Seq<char>) -> Seq<char> {
    let p = match prefix {
        Some(p) => p + "."@,
        None => Seq::empty(),
    };
    destination + "/"@ + p + title + ".mkv"@
}

/// A display name with its one-letter code expanded.
pub fn alias_track_name(name: &String) -> (r: String)
    ensures
        r@ == alias_of(name@),
{
    if is_text(name, "o") || is_text(name, "O") {
        String::from_str("Original")
    } else if is_text(name, "d") || is_text(name, "D") {
        String::from_str("Dub")
    } else {
        name.clone()
    }
}

/// The path of the output file: `destination/[prefix.]title.mkv`.
pub fn output_file_path(destination: &str, prefix: Option<&str>, title: &str) -> (r: String)
    ensures
        r@ == output_path_of(
            destination@,
            match prefix {
                Some(p) => Some(p@),
                None => None,
            },
            title@,
        ),
{
    let mut r = joined(destination, "/");
    match prefix {
        Some(p) => {
            r.append(p);
            r.append(".");
        },
        None => {},
    }
    r.append(title);
    r.append(".mkv");
    proof {
        let p = match prefix {
            Some(p) => p@ + "."@,
            None => Seq::empty(),
        };
        assert(r@ =~= destination@ + "/"@ + p + title@ + ".mkv"@);
    }
    r
}

/// The run configuration: inputs, the stream buckets, naming and output.
pub struct Arguments {
    inputs: Vec<String>,
    video: String,
    english: Vec<String>,
    ukrainian: Vec<String>,
    russian: Vec<String>,
    other: Vec<String>,
    subtitles: Vec<String>,
    track_names: Vec<String>,
    language: String,
    title: String,
    destination: String,
    output_path: String,
    dummy: bool,
}

impl View for Arguments {
    type V = ArgumentsModel;

    closed spec fn view(&self) -> ArgumentsModel {
        ArgumentsModel {
            inputs: texts(self.inputs@),
            video: self.video@,
            english: texts(self.english@),
            ukrainian: texts(self.ukrainian@),
            russian: texts(self.russian@),
            other: texts(self.other@),
            subtitles: texts(self.subtitles@),
            track_names: texts(self.track_names@),
            language: self.language@,
            title: self.title@,
            destination: self.destination@,
            output_path: self.output_path@,
            dummy: self.dummy,
        }
    }
}

impl Arguments {
    #[verifier::type_invariant]
    spec fn well_formed(&self) -> bool {
        &&& self.inputs@.len() > 0
        &&& self.dummy ==> self.title@.len() == 0
    }

    /// A configuration from the values of the command line: the one-letter
    /// track names expanded, the language defaulting to `eng`, the title to
    /// empty, dummy mode when no name is given, and the output path derived.
    pub fn new(
        inputs: Vec<String>,
        video: String,
        english: Vec<String>,
        ukrainian: Vec<String>,
        russian: Vec<String>,
        other: Vec<String>,
        subtitles: Vec<String>,
        track_names: Vec<String>,
        language: Option<String>,
        prefix: Option<String>,
        name: Option<String>,
        destination: String,
    ) -> (r: Result<Arguments, ArgumentsError>)
        ensures
            inputs@.len() == 0 <==> r == Err::<Arguments, ArgumentsError>(ArgumentsError::NoInputs),
            r is Ok ==> r->Ok_0@ == (ArgumentsModel {
                inputs: texts(inputs@),
                video: video@,
                english: texts(english@),
                ukrainian: texts(ukrainian@),
                russian: texts(russian@),
                other: texts(other@),
                subtitles: texts(subtitles@),
                track_names: aliased(texts(track_names@)),
                language: language_of(opt_text(language)),
                title: title_of(opt_text(name)),
                destination: destination@,
                output_path: output_path_of(destination@, opt_text(prefix), title_of(opt_text(name))),
                dummy: dummy_of(opt_text(name)),
            }),
    {
        if inputs.len() == 0 {
            return Err(ArgumentsError::NoInputs);
        }
        let mut names: Vec<String> = Vec::new();
        let mut i: usize = 0;
        while i < track_names.len()
            invariant
                i <= track_names@.len(),
                texts(names@) == aliased(texts(track_names@).subrange(0, i as int)),
            decreases track_names@.len() - i,
        {
            let n = alias_track_name(&track_names[i]);
            proof {
                lemma_texts_push(names@, n);
            }
            names.push(n);
            assert(aliased(texts(track_names@).subrange(0, i + 1)) =~= aliased(
                texts(track_names@).subrange(0, i as int),
            ).push(alias_of(track_names@[i as int]@)));
            i = i + 1;
        }
        assert(texts(track_names@).subrange(0, i as int) =~= texts(track_names@));
        let language = match language {
            Some(l) => l,
            None => String::from_str("eng"),
        };
        let dummy = name.is_none();
        let title = match name {
            Some(n) => n,
            None => String::new(),
        };
        let output_path = match prefix {
            Some(p) => output_file_path(destination.as_str(), Some(p.as_str()), title.as_str()),
            None => output_file_path(destination.as_str(), None, title.as_str()),
        };
        Ok(Arguments {
            inputs,
            video,
            english,
            ukrainian,
            russian,
            other,
            subtitles,
            track_names: names,
            language,
            title,
            destination,
            output_path,
            dummy,
        })
    }
    /// The input files, in the order given; never empty.
    pub fn inputs(&self) -> (r: &Vec<String>)
        ensures
            texts(r@) == self@.inputs,
            r@.len() > 0,
    {
        proof {
            use_type_invariant(self);
        }
        &self.inputs
    }

    /// The video stream specifier.
    pub fn video_stream(&self) -> (r: &str)
        ensures
            r@ == self@.video,
    {
        self.video.as_str()
    }

    /// All audio stream specifiers: English, Ukrainian, Russian, then other.
    pub fn audio_streams(&self) -> (r: Vec<String>)
        ensures
            texts(r@) == self@.audio(),
    {
        let mut streams = self.english.clone();
        let mut more = self.ukrainian.clone();
        streams.append(&mut more);
        let mut more = self.russian.clone();
        streams.append(&mut more);
        let mut more = self.other.clone();
        streams.append(&mut more);
        assert(texts(streams@) =~= self@.audio());
        streams
    }

    /// The English audio stream specifiers.
    pub fn english_streams(&self) -> (r: &Vec<String>)
        ensures
            texts(r@) == self@.english,
    {
        &self.english
    }

    /// The Ukrainian audio stream specifiers.
    pub fn ukrainian_streams(&self) -> (r: &Vec<String>)
        ensures
            texts(r@) == self@.ukrainian,
    {
        &self.ukrainian
    }

    /// The Russian audio stream specifiers.
    pub fn russian_streams(&self) -> (r: &Vec<String>)
        ensures
            texts(r@) == self@.russian,
    {
        &self.russian
    }

    /// The audio stream specifiers of any other language.
    pub fn other_streams(&self) -> (r: &Vec<String>)
        ensures
            texts(r@) == self@.other,
    {
        &self.other
    }

    /// The subtitle stream specifiers.
    pub fn subtitle_streams(&self) -> (r: &Vec<String>)
        ensures
            texts(r@) == self@.subtitles,
    {
        &self.subtitles
    }

    /// The track names, codes expanded, taken in turn by the audio and then
    /// the subtitle tracks.
    pub fn track_names(&self) -> (r: &Vec<String>)
        ensures
            texts(r@) == self@.track_names,
    {
        &self.track_names
    }

    /// The output language code.
    pub fn language(&self) -> (r: &str)
        ensures
            r@ == self@.language,
    {
        self.language.as_str()
    }

    /// The output title; empty in dummy mode.
    pub fn title(&self) -> (r: &str)
        ensures
            r@ == self@.title,
            self@.dummy ==> r@.len() == 0,
    {
        proof {
            use_type_invariant(self);
        }
        self.title.as_str()
    }

    /// The output directory.
    pub fn destination(&self) -> (r: &str)
        ensures
            r@ == self@.destination,
    {
        self.destination.as_str()
    }

    /// The path of the output file.
    pub fn output_path(&self) -> (r: &str)
        ensures
            r@ == self@.output_path,
    {
        self.output_path.as_str()
    }

    /// Dummy mode: only pass the inputs through the transcoder. A
    /// configuration with a non-empty title is never in dummy mode.
    pub fn dummy(&self) -> (r: bool)
        ensures
            r == self@.dummy,
            r ==> self@.title.len() == 0,
            self@.title.len() > 0 ==> !r,
    {
        proof {
            use_type_invariant(self);
        }
        self.dummy
    }
}

/// Dummy mode goes with the title: with no name given the title is empty and
/// the run is a dummy one; with a non-empty name it is not. (An explicitly
/// empty name gives an empty title outside dummy mode.)
pub proof fn lemma_dummy_iff_untitled(name: Option<Seq<char>>)
    requires
        name != Some(Seq::<char>::empty()),
    ensures
        title_of(name).len() == 0 <==> dummy_of(name),
{
    if let Some(n) = name {
        if n.len() == 0 {
            assert(n =~= Seq::<char>::empty());
        }
    }
}

/// Expanding a track name twice is expanding it once.
pub proof fn lemma_alias_idempotent(name: Seq<char>)
    ensures
        alias_of(alias_of(name)) == alias_of(name),
{
    reveal_strlit("o");
    reveal_strlit("O");
    reveal_strlit("d");
    reveal_strlit("D");
    reveal_strlit("Original");
    reveal_strlit("Dub");
}

/// The output path is the destination, a slash, the prefix and a dot when a
/// prefix is given, the title and `.mkv`; without a prefix nothing stands
/// between the slash and the title.
pub proof fn lemma_output_path_shape(destination: Seq<char>, prefix: Option<Seq<char>>, title: Seq<char>)
    ensures
        prefix is None ==> output_path_of(destination, prefix, title) == destination + "/"@ + title + ".mkv"@,
        prefix is Some ==> output_path_of(destination, prefix, title) == destination + "/"@ + prefix->Some_0 + "."@ + title + ".mkv"@,
{
    assert(destination + "/"@ + Seq::<char>::empty() =~= destination + "/"@);
    match prefix {
        Some(p) => {
            assert(destination + "/"@ + (p + "."@) =~= destination + "/"@ + p + "."@);
        },
        None => {},
    }
}

} // verus!
