use vstd::prelude::*;

verus! {

/// The two kinds of intermediate track that the transcode phase produces.
#[derive(Clone, Copy, Debug, PartialEq, Eq, Structural)]
pub enum TrackKind {
    Audio,
    Subtitle,
}

/// A stream specifier with each `:` turned into `_`.
pub open spec fn underscored(s: Seq<char>) -> Seq<char> {
    s.map_values(|c: char| if c == ':' { '_' } else { c })
}

/// The file extension of an intermediate track of the given kind.
pub open spec fn extension_of(kind: TrackKind) -> Seq<char> {
    match kind {
        TrackKind::Audio => ".ogg"@,
        TrackKind::Subtitle => ".srt"@,
    }
}

/// The name of the intermediate file made from the stream `s`.
pub open spec fn file_name_of(s: Seq<char>, kind: TrackKind) -> Seq<char> {
    underscored(s) + extension_of(kind)
}

/// A stream specifier of the form `container:stream` holds no `_`.
pub open spec fn is_specifier(s: Seq<char>) -> bool {
    forall|i: int| 0 <= i < s.len() ==> s[i] != '_'
}

/// `s` with each `:` turned into `_`.
pub fn underscore(s: &str) -> (r: String)
    ensures
        r@ == underscored(s@),
{
    let n = s.unicode_len();
    let mut r = String::new();
    let mut i: usize = 0;
    while i < n
        invariant
            n == s@.len(),
            i <= n,
            r@ == underscored(s@.subrange(0, i as int)),
        decreases n - i,
    {
        let c = s.get_char(i);
        if c == ':' {
            r.append("_");
            proof { reveal_strlit("_"); }
        } else {
            r.append(s.substring_char(i, i + 1));
        }
        assert(underscored(s@.subrange(0, i + 1)) =~= underscored(s@.subrange(0, i as int)) + underscored(s@.subrange(i as int, i + 1)));
        i = i + 1;
    }
    assert(s@.subrange(0, n as int) =~= s@);
    r
}

/// The name of the intermediate file that the transcoder writes for `stream`.
pub fn intermediate_file(stream: &str, kind: TrackKind) -> (r: String)
    ensures
        r@ == file_name_of(stream@, kind),
{
    let mut r = underscore(stream);
    match kind {
        TrackKind::Audio => r.append(".ogg"),
        TrackKind::Subtitle => r.append(".srt"),
    }
    r
}

/// Intermediate file names never collide: two specifiers of the form
/// `container:stream` give the same name only when they are the same
/// specifier and the tracks are of the same kind.
pub proof fn lemma_file_names_distinct(s1: Seq<char>, k1: TrackKind, s2: Seq<char>, k2: TrackKind)
    requires
        is_specifier(s1),
        is_specifier(s2),
        file_name_of(s1, k1) == file_name_of(s2, k2),
    ensures
        s1 == s2,
        k1 == k2,
{
    reveal_strlit(".ogg");
    reveal_strlit(".srt");
    let f1 = file_name_of(s1, k1);
    let f2 = file_name_of(s2, k2);
    assert(extension_of(k1).len() == 4 && extension_of(k2).len() == 4);
    assert(f1.len() == s1.len() + 4 && f2.len() == s2.len() + 4);
    assert(s1.len() == s2.len());
    let n = s1.len() as int;
    assert(f1[n + 1] == extension_of(k1)[1]);
    assert(f2[n + 1] == extension_of(k2)[1]);
    assert(k1 == k2);
    assert forall|i: int| 0 <= i < n implies s1[i] == s2[i] by {
        assert(f1[i] == underscored(s1)[i]);
        assert(f2[i] == underscored(s2)[i]);
    }
    assert(s1 =~= s2);
}

} // verus!
