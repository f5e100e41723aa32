use vstd::prelude::*;
use crate::arguments::{Arguments, ArgumentsModel};
use crate::text::{texts, joined};

verus! {

/// What std's `Debug` writes for a string: the string quoted, with escapes.
pub uninterp spec fn debug_text(s: Seq<char>) -> Seq<char>;

/// A number in decimal digits.
pub open spec fn decimal(n: nat) -> Seq<char>
    decreases n,
{
    if n < 10 {
        seq![digit(n)]
    } else {
        decimal(n / 10).push(digit(n % 10))
    }
}

/// The decimal digit of `d`, for `d` below ten.
pub open spec fn digit(d: nat) -> char {
    (('0' as u8) + (d as u8)) as char
}

/// `n` in decimal, padded on the left with zeros to four digits.
pub open spec fn padded_decimal(n: nat) -> Seq<char> {
    let d = decimal(n);
    if d.len() < 4 {
        Seq::new((4 - d.len()) as nat, |i: int| '0') + d
    } else {
        d
    }
}

/// A line of `n` underscores.
pub open spec fn rule_of(n: nat) -> Seq<char> {
    Seq::new(n, |i: int| '_')
}

/// The debug forms of `items`, separated by `, `.
pub open spec fn debug_items(items: Seq<Seq<char>>) -> Seq<char>
    decreases items.len(),
{
    if items.len() == 0 {
        Seq::empty()
    } else if items.len() == 1 {
        debug_text(items[0])
    } else {
        debug_items(items.drop_last()) + ", "@ + debug_text(items.last())
    }
}

/// What std's `Debug` writes for a list of strings.
pub open spec fn debug_list(items: Seq<Seq<char>>) -> Seq<char> {
    "["@ + debug_items(items) + "]"@
}

/// One line per input: its number from one, four digits wide, and its path.
pub open spec fn input_lines(inputs: Seq<Seq<char>>) -> Seq<char>
    decreases inputs.len(),
{
    if inputs.len() == 0 {
        Seq::empty()
    } else {
        input_lines(inputs.drop_last()) + "Input #"@ + padded_decimal(inputs.len()) + ": "@ + inputs.last()
            + "\n"@
    }
}

/// A labelled line.
pub open spec fn line(label: Seq<char>, value: Seq<char>) -> Seq<char> {
    label + value + "\n"@
}

/// The report of a configuration: a header, the inputs, and in dummy mode a
/// note, else the streams, names, language, title and output path and a
/// closing rule.
pub open spec fn report_of(m: ArgumentsModel) -> Seq<char> {
    let head = rule_of(32) + " ARGUMENTS "@ + rule_of(32) + "\n"@ + input_lines(m.inputs);
    if m.dummy {
        head + "Dummy mode!\n"@
    } else {
        head + line("Stream HEVC: "@, m.video) + line("Streams ENG: "@, debug_list(m.english)) + line(
            "Streams UKR: "@,
            debug_list(m.ukrainian),
        ) + line("Streams RUS: "@, debug_list(m.russian)) + line("Streams OTH: "@, debug_list(m.other))
            + line("Streams SUB: "@, debug_list(m.subtitles)) + line(
            "Track names: "@,
            debug_list(m.track_names),
        ) + line("Language   : "@, m.language) + line("Output file: "@, m.title) + line(
            "Output path: "@,
            m.output_path,
        ) + rule_of(75) + "\n"@
    }
}

/// Relies on std's `Debug` for `str`: the quoted, escaped form of `s`.
#[verifier::external_body]
fn debug_string(s: &str) -> (r: String)
    ensures
        r@ == debug_text(s@),
{
    format!("{:?}", s)
}

/// Relies on std's formatting with `{:04}`: `n` in decimal, zero-padded on
/// the left to four digits.
#[verifier::external_body]
fn padded_number(n: usize) -> (r: String)
    ensures
        r@ == padded_decimal(n as nat),
{
    format!("{:04}", n)
}

/// A line of `n` underscores.
pub fn rule(n: usize) -> (r: String)
    ensures
        r@ == rule_of(n as nat),
{
    let mut r = String::new();
    let mut i: usize = 0;
    while i < n
        invariant
            i <= n,
            r@ == rule_of(i as nat),
        decreases n - i,
    {
        r.append("_");
        proof {
            reveal_strlit("_");
        }
        assert(r@ =~= rule_of((i + 1) as nat));
        i = i + 1;
    }
    r
}

/// What std's `Debug` writes for `items`.
pub fn debug_list_text(items: &Vec<String>) -> (r: String)
    ensures
        r@ == debug_list(texts(items@)),
{
    let ghost all = texts(items@);
    let mut r = String::from_str("[");
    let mut i: usize = 0;
    while i < items.len()
        invariant
            i <= items@.len(),
            all == texts(items@),
            r@ == "["@ + debug_items(all.subrange(0, i as int)),
        decreases items@.len() - i,
    {
        if i > 0 {
            r.append(", ");
        }
        let d = debug_string(items[i].as_str());
        r.append(d.as_str());
        let ghost done = all.subrange(0, i + 1);
        assert(done.drop_last() =~= all.subrange(0, i as int));
        if i == 0 {
            assert(debug_items(all.subrange(0, 0)) =~= Seq::<char>::empty());
            assert(r@ =~= "["@ + debug_items(done));
        } else {
            assert(r@ =~= "["@ + debug_items(done));
        }
        i = i + 1;
    }
    assert(all.subrange(0, i as int) =~= all);
    r.append("]");
    r
}

/// Appends `label`, `value` and a line break to `r`.
fn append_line(r: &mut String, label: &str, value: &str)
    ensures
        final(r)@ == old(r)@ + line(label@, value@),
{
    r.append(label);
    r.append(value);
    r.append("\n");
    assert(final(r)@ =~= old(r)@ + line(label@, value@));
}

impl Arguments {
    /// The human-readable report of the configuration.
    pub fn report(&self) -> (r: String)
        ensures
            r@ == report_of(self@),
    {
        let mut r = rule(32);
        r.append(" ARGUMENTS ");
        let line32 = rule(32);
        r.append(line32.as_str());
        r.append("\n");
        let inputs = self.inputs();
        let ghost all = self@.inputs;
        let ghost head = r@;
        let mut i: usize = 0;
        while i < inputs.len()
            invariant
                i <= inputs@.len(),
                all == texts(inputs@),
                r@ == head + input_lines(all.subrange(0, i as int)),
            decreases inputs@.len() - i,
        {
            r.append("Input #");
            let number = padded_number(i + 1);
            r.append(number.as_str());
            r.append(": ");
            r.append(inputs[i].as_str());
            r.append("\n");
            let ghost done = all.subrange(0, i + 1);
            assert(done.drop_last() =~= all.subrange(0, i as int));
            assert(r@ =~= head + input_lines(done));
            i = i + 1;
        }
        assert(all.subrange(0, i as int) =~= all);
        if self.dummy() {
            r.append("Dummy mode!\n");
            return r;
        }
        append_line(&mut r, "Stream HEVC: ", self.video_stream());
        let s = debug_list_text(self.english_streams());
        append_line(&mut r, "Streams ENG: ", s.as_str());
        let s = debug_list_text(self.ukrainian_streams());
        append_line(&mut r, "Streams UKR: ", s.as_str());
        let s = debug_list_text(self.russian_streams());
        append_line(&mut r, "Streams RUS: ", s.as_str());
        let s = debug_list_text(self.other_streams());
        append_line(&mut r, "Streams OTH: ", s.as_str());
        let s = debug_list_text(self.subtitle_streams());
        append_line(&mut r, "Streams SUB: ", s.as_str());
        let s = debug_list_text(self.track_names());
        append_line(&mut r, "Track names: ", s.as_str());
        append_line(&mut r, "Language   : ", self.language());
        append_line(&mut r, "Output file: ", self.title());
        append_line(&mut r, "Output path: ", self.output_path());
        let line75 = rule(75);
        r.append(line75.as_str());
        r.append("\n");
        r
    }
}

} // verus!
