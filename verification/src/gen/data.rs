//! Naming: the singular, plural, camel-case, snake-case and idiomatic forms
//! of a table's or a column's raw identifier.

use super::plugin::{Column, Table};
use super::text::{join, joined, owned, reads, views};
use vstd::prelude::*;

verus! {

/// The casings that generated names are written in.
#[derive(Clone, Copy)]
pub enum WordCase {
    /// Lower-case words joined by underscores.
    Snake,
    /// Capitalised words joined by nothing.
    UpperCamel,
}

/// The identifier `s` rewritten in the casing `case`, as `convert_case` does it
/// with its default word boundaries.
pub uninterp spec fn case_converted(s: Seq<char>, case: WordCase) -> Seq<char>;

/// `convert_case::Casing::to_case` on a string slice. The conversion splits the
/// text into words, re-cases each word and joins them; it reads nothing but
/// its two arguments, so its result is named by [`case_converted`]. Of the
/// result itself only this is stated: the empty text has no words, and is
/// converted to the empty text.
#[verifier::external_body]
fn to_case(s: &str, case: WordCase) -> (out: String)
    ensures
        out@ == case_converted(s@, case),
        s@.len() == 0 ==> out@.len() == 0,
{
    let target = match case {
        WordCase::Snake => convert_case::Case::Snake,
        WordCase::UpperCamel => convert_case::Case::UpperCamel,
    };
    convert_case::Casing::to_case(&s, target)
}

/// `pluralizer::pluralize`: the singular form of `word` for a count of one, the
/// plural form for any other count. The rule tables it consults are shared by
/// the whole process and can be extended while it runs, so the same word need
/// not give the same form twice: nothing is claimed of the result.
#[verifier::external_body]
fn pluralize(word: &str, count: isize, include_count: bool) -> (out: String)
{
    pluralizer::pluralize(word, count, include_count)
}

/// The pieces of `s` between the occurrences of `sep`, in order. There is
/// always at least one piece; a piece is empty where two separators meet and
/// where `s` begins or ends with one.
pub open spec fn split_on(s: Seq<char>, sep: char) -> Seq<Seq<char>>
    decreases s.len(),
{
    if s.len() == 0 {
        seq![Seq::empty()]
    } else {
        let before = split_on(s.drop_last(), sep);
        if s.last() == sep {
            before.push(Seq::empty())
        } else {
            before.drop_last().push(before.last().push(s.last()))
        }
    }
}

/// Splits `s` at every `sep`.
pub fn split(s: &str, sep: char) -> (pieces: Vec<String>)
    ensures
        views(pieces@) == split_on(s@, sep),
{
    let n = s.unicode_len();
    let mut pieces: Vec<String> = Vec::new();
    let mut start: usize = 0;
    let mut i: usize = 0;
    proof {
        assert(s@.take(0).len() == 0);
        assert(s@.subrange(0, 0) == Seq::<char>::empty());
        assert(views(pieces@).push(s@.subrange(0, 0)) == seq![Seq::<char>::empty()]);
    }
    for c in chars: s.chars()
        invariant
            i == chars.index(),
            chars.seq() == s@,
            n == s@.len(),
            start <= i <= n,
            views(pieces@).push(s@.subrange(start as int, i as int)) == split_on(
                s@.take(i as int),
                sep,
            ),
    {
        let ghost before = split_on(s@.take(i as int), sep);
        proof {
            assert(s@.take(i + 1).drop_last() == s@.take(i as int));
            assert(before.last() == s@.subrange(start as int, i as int));
            assert(before.drop_last() == views(pieces@));
        }
        if c == sep {
            pieces.push(owned(s.substring_char(start, i)));
            start = i + 1;
            proof {
                assert(views(pieces@) == before);
                assert(s@.subrange(start as int, i + 1) == Seq::<char>::empty());
            }
        } else {
            proof {
                assert(s@.subrange(start as int, i + 1) == s@.subrange(
                    start as int,
                    i as int,
                ).push(s@[i as int]));
            }
        }
        i += 1;
    }
    proof {
        assert(s@.take(n as int) == s@);
    }
    pieces.push(owned(s.substring_char(start, n)));
    pieces
}

/// The idiomatic form of one camel-cased word: `Id` is written as the acronym
/// `ID`, every other word stays as it is.
pub open spec fn idiomatic_word(camel: Seq<char>) -> Seq<char> {
    if camel == "Id"@ {
        "ID"@
    } else {
        camel
    }
}

/// The idiomatic form of each snake-case segment: the segment in upper camel
/// case, with `Id` written `ID`.
pub open spec fn idiomatic_words(segments: Seq<Seq<char>>) -> Seq<Seq<char>> {
    segments.map_values(|w: Seq<char>| idiomatic_word(case_converted(w, WordCase::UpperCamel)))
}

/// The idiomatic field name of a snake-case identifier: its segments between
/// underscores, each in idiomatic form, written one after the other.
pub open spec fn idiomatic_of_snake(snake: Seq<char>) -> Seq<char> {
    joined(idiomatic_words(split_on(snake, '_')), Seq::empty())
}

/// The idiomatic field name of a raw identifier.
pub open spec fn idiomatic_name(raw: Seq<char>) -> Seq<char> {
    idiomatic_of_snake(case_converted(raw, WordCase::Snake))
}

/// The idiomatic form of a word that is already in upper camel case.
pub fn idiomatic_word_of(camel: String) -> (out: String)
    ensures
        out@ == idiomatic_word(camel@),
{
    if reads(&camel, "Id") {
        owned("ID")
    } else {
        camel
    }
}

/// The idiomatic form of one snake-case segment. An empty segment gives the
/// empty text.
pub fn map_to_ideomatic_go(t: &str) -> (out: String)
    ensures
        out@ == idiomatic_word(case_converted(t@, WordCase::UpperCamel)),
        t@.len() == 0 ==> out@.len() == 0,
{
    proof {
        reveal_strlit("Id");
    }
    idiomatic_word_of(to_case(t, WordCase::UpperCamel))
}

/// The idiomatic field name of an identifier that is already in snake case.
/// The empty identifier gives the empty text.
pub fn idiomatic_from_snake(snake: &str) -> (out: String)
    ensures
        out@ == idiomatic_of_snake(snake@),
        snake@.len() == 0 ==> out@.len() == 0,
{
    let segments = split(snake, '_');
    let mut words: Vec<String> = Vec::new();
    let mut i: usize = 0;
    while i < segments.len()
        invariant
            i <= segments.len(),
            words.len() == i,
            forall|j: int|
                0 <= j < i ==> words[j]@ == idiomatic_word(
                    case_converted(#[trigger] segments[j]@, WordCase::UpperCamel),
                ),
            forall|j: int| 0 <= j < i && segments[j]@.len() == 0 ==> (#[trigger] words[j])@.len() == 0,
        decreases segments.len() - i,
    {
        words.push(map_to_ideomatic_go(segments[i].as_str()));
        i += 1;
    }
    proof {
        reveal_strlit("");
        assert(views(words@) =~= idiomatic_words(views(segments@)));
        assert(""@ =~= Seq::<char>::empty());
        if snake@.len() == 0 {
            assert(views(segments@)[0] == segments[0]@);
            assert(views(words@)[0] == words[0]@);
            assert(views(words@).drop_last().len() == 0);
        }
    }
    join(&words, "")
}

/// Something with a raw identifier, from which the generated names derive.
pub trait Named {
    /// The raw identifier.
    spec fn raw_name(&self) -> Seq<char>;

    /// The raw identifier.
    fn name(&self) -> (out: String)
        ensures
            out@ == self.raw_name(),
    ;

    /// The snake-case form, singularised. The inflection is left to
    /// `pluralizer`, of whose result nothing is claimed.
    fn sing_snake(&self) -> (out: String) {
        let raw = self.name();
        let snake = to_case(raw.as_str(), WordCase::Snake);
        pluralize(snake.as_str(), 1, false)
    }

    /// The upper-camel-case form. The empty identifier gives the empty text.
    fn camel_case_name(&self) -> (out: String)
        ensures
            out@ == case_converted(self.raw_name(), WordCase::UpperCamel),
            self.raw_name().len() == 0 ==> out@.len() == 0,
    {
        let raw = self.name();
        to_case(raw.as_str(), WordCase::UpperCamel)
    }

    /// The plural of the camel-case form. The inflection is left to
    /// `pluralizer`, of whose result nothing is claimed.
    fn plural(&self) -> (out: String) {
        let camel = self.camel_case_name();
        pluralize(camel.as_str(), 2, false)
    }

    /// The singular of the camel-case form. The inflection is left to
    /// `pluralizer`, of whose result nothing is claimed.
    fn singular(&self) -> (out: String) {
        let camel = self.camel_case_name();
        pluralize(camel.as_str(), 1, false)
    }

    /// The idiomatic field name: the snake-case form split at underscores,
    /// each segment in upper camel case with `Id` written `ID`. The empty
    /// identifier gives the empty text.
    fn ideomatic_go(&self) -> (out: String)
        ensures
            out@ == idiomatic_name(self.raw_name()),
            self.raw_name().len() == 0 ==> out@.len() == 0,
    {
        let raw = self.name();
        let snake = to_case(raw.as_str(), WordCase::Snake);
        idiomatic_from_snake(snake.as_str())
    }
}

impl Named for Table {
    open spec fn raw_name(&self) -> Seq<char> {
        self.name@
    }

    fn name(&self) -> (out: String) {
        let out = self.name.clone();
        assert(self.raw_name() == self.name@);
        out
    }
}

impl Named for Column {
    open spec fn raw_name(&self) -> Seq<char> {
        self.name@
    }

    fn name(&self) -> (out: String) {
        let out = self.name.clone();
        assert(self.raw_name() == self.name@);
        out
    }
}

} // verus!
