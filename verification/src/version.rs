//! The version a runtime announces: its structure and how it is read from
//! free text.

use crate::text::{
    all_whitespace, bounded, chars_of, decimal, decimal_value, is_numeral, is_whitespace,
    last_token, last_token_of, lemma_decimal_denotes, lemma_last_token_ignores_trailing_whitespace,
    lemma_last_token_of_last_word, parse_numeral, push_decimal, Reading,
};
use vstd::prelude::*;
use vstd::string::StringExecFns;

verus! {

/// A runtime version. Versions are ordered by major, then minor, then patch.
#[derive(Clone, Copy, Debug, PartialEq, Eq, Hash, Structural)]
pub struct Version {
    pub major: u64,
    pub minor: u64,
    pub patch: u64,
}

/// The pieces of `s` between the occurrences of `sep`, in order. There is
/// always one piece more than there are separators, so the empty string has
/// one empty piece.
pub open spec fn split_on(s: Seq<char>, sep: char) -> Seq<Seq<char>>
    decreases s.len(),
{
    if s.len() == 0 {
        seq![Seq::empty()]
    } else if s.last() == sep {
        split_on(s.drop_last(), sep).push(Seq::empty())
    } else {
        let before = split_on(s.drop_last(), sep);
        before.drop_last().push(before.last().push(s.last()))
    }
}

/// The pieces with `sep` put between them.
pub open spec fn joined(pieces: Seq<Seq<char>>, sep: char) -> Seq<char>
    decreases pieces.len(),
{
    if pieces.len() == 0 {
        Seq::empty()
    } else if pieces.len() == 1 {
        pieces[0]
    } else {
        joined(pieces.drop_last(), sep) + seq![sep] + pieces.last()
    }
}

/// `c` does not occur in `s`.
pub open spec fn lacks(s: Seq<char>, c: char) -> bool {
    forall|i: int| 0 <= i < s.len() ==> #[trigger] s[i] != c
}

/// The values of those pieces that are numerals, in order. Every other piece
/// is left out whole: an empty piece, and a piece with a sign or with a
/// suffix such as `0rc1`.
pub open spec fn numeric_fields(pieces: Seq<Seq<char>>) -> Seq<nat>
    decreases pieces.len(),
{
    if pieces.len() == 0 {
        Seq::empty()
    } else if is_numeral(pieces.last()) {
        numeric_fields(pieces.drop_last()).push(decimal_value(pieces.last()))
    } else {
        numeric_fields(pieces.drop_last())
    }
}

/// The patch level among the numeric fields: the third field, or 0 where
/// there is none.
pub open spec fn patch_of_fields(fields: Seq<nat>) -> nat {
    if fields.len() >= 3 {
        fields[2]
    } else {
        0
    }
}

/// The version that a list of numeric fields stands for: the first two are
/// major and minor, a third is the patch level, which is 0 when absent;
/// further fields are ignored. Fewer than two fields make no version, and
/// neither do fields of which one of these three does not fit in 64 bits:
/// no version is made up that says less than the fields do.
pub open spec fn version_of_fields(fields: Seq<nat>) -> Option<Version> {
    if fields.len() >= 2 && fields[0] <= u64::MAX && fields[1] <= u64::MAX && patch_of_fields(
        fields,
    ) <= u64::MAX {
        Some(
            Version {
                major: fields[0] as u64,
                minor: fields[1] as u64,
                patch: patch_of_fields(fields) as u64,
            },
        )
    } else {
        None
    }
}

/// What a version announcement says: the last whitespace-delimited token is
/// split at each `'.'`, the pieces that are numerals are kept, and these are
/// read as major, minor and patch.
pub open spec fn parse_version(s: Seq<char>) -> Option<Version> {
    version_of_fields(numeric_fields(split_on(last_token(s), '.')))
}

/// `read` holds the given fields, each as far as 64 bits can hold it.
pub open spec fn holds_fields(read: Seq<Option<u64>>, fields: Seq<nat>) -> bool {
    &&& read.len() == fields.len()
    &&& forall|i: int| 0 <= i < read.len() ==> #[trigger] read[i] == bounded(fields[i])
}

/// The numeric fields of a dot-separated token; a field that does not fit in
/// 64 bits is kept as a gap.
fn numeric_fields_of(token: &Vec<char>) -> (fields: Vec<Option<u64>>)
    ensures
        holds_fields(fields@, numeric_fields(split_on(token@, '.'))),
{
    let mut fields: Vec<Option<u64>> = Vec::new();
    let mut start: usize = 0;
    let n: usize = token.len();
    let ghost mut done: Seq<Seq<char>> = Seq::empty();
    proof {
        assert(token@.subrange(0, 0) =~= Seq::<char>::empty());
    }
    for i in 0..n
        invariant
            n == token@.len(),
            start <= i,
            split_on(token@.take(i as int), '.') == done.push(token@.subrange(start as int, i as int)),
            holds_fields(fields@, numeric_fields(done)),
    {
        let ghost piece = token@.subrange(start as int, i as int);
        proof {
            assert(token@.take(i + 1).drop_last() =~= token@.take(i as int));
            assert(done.push(piece).drop_last() =~= done);
        }
        if token[i] == '.' {
            match parse_numeral(token, start, i) {
                Reading::Number(value) => {
                    fields.push(Some(value));
                },
                Reading::TooLarge => {
                    fields.push(None);
                },
                Reading::NotNumeric => {},
            }
            proof {
                done = done.push(piece);
                assert(token@.subrange(i + 1, i + 1) =~= Seq::<char>::empty());
            }
            start = i + 1;
        } else {
            proof {
                assert(piece.push(token@[i as int]) =~= token@.subrange(start as int, i + 1));
            }
        }
    }
    let ghost piece = token@.subrange(start as int, n as int);
    proof {
        assert(token@.take(n as int) =~= token@);
        assert(done.push(piece).drop_last() =~= done);
    }
    match parse_numeral(token, start, n) {
        Reading::Number(value) => {
            fields.push(Some(value));
        },
        Reading::TooLarge => {
            fields.push(None);
        },
        Reading::NotNumeric => {},
    }
    fields
}

impl Version {
    /// The version as it is written: the three fields in base ten, with a
    /// `'.'` between them.
    pub open spec fn written(self) -> Seq<char> {
        decimal(self.major as nat) + seq!['.'] + decimal(self.minor as nat) + seq!['.'] + decimal(
            self.patch as nat,
        )
    }

    /// The version as it is written, such as `"3.13.0"`.
    pub fn to_str(&self) -> (r: String)
        ensures
            r@ == self.written(),
    {
        proof {
            reveal_strlit(".");
        }
        let mut r = String::new();
        push_decimal(&mut r, self.major);
        r.append(".");
        push_decimal(&mut r, self.minor);
        r.append(".");
        push_decimal(&mut r, self.patch);
        r
    }

    /// Reads the version out of an announcement such as `"Python 3.13.0"`.
    /// The patch level is 0 when the announcement gives only two numbers; an
    /// announcement with fewer than two numeric fields in its last token
    /// has no version.
    ///
    /// A piece of the token that is not purely numeric is left out, not read
    /// in part, and the pieces after it move up: `"3.13.0rc1"` reads as
    /// 3.13.0, and `"3.13rc1.4"` as 3.4.0.
    ///
    /// A numeral is never left out, whatever its size. Where the major,
    /// minor or patch number does not fit in 64 bits, the announcement has
    /// no version.
    pub fn from_str(version_str: &str) -> (r: Option<Version>)
        ensures
            r == parse_version(version_str@),
    {
        let chars = chars_of(version_str);
        let token = last_token_of(&chars);
        let fields = numeric_fields_of(&token);
        if fields.len() < 2 {
            return None;
        }
        let patch: Option<u64> = if fields.len() >= 3 {
            fields[2]
        } else {
            Some(0)
        };
        match (fields[0], fields[1], patch) {
            (Some(major), Some(minor), Some(patch)) => Some(Version { major, minor, patch }),
            _ => None,
        }
    }
}

/// Splitting undoes joining: there is at least one piece, no piece holds the
/// separator, and the pieces with the separator put between them are the
/// text again.
pub proof fn lemma_split_undoes_join(s: Seq<char>, sep: char)
    ensures
        split_on(s, sep).len() >= 1,
        forall|i: int| 0 <= i < split_on(s, sep).len() ==> lacks(#[trigger] split_on(s, sep)[i], sep),
        joined(split_on(s, sep), sep) == s,
    decreases s.len(),
{
    if s.len() > 0 {
        let pieces = split_on(s, sep);
        let before = split_on(s.drop_last(), sep);
        lemma_split_undoes_join(s.drop_last(), sep);
        if s.last() == sep {
            assert(pieces.drop_last() =~= before);
        } else {
            if before.len() > 1 {
                assert(pieces.drop_last() =~= before.drop_last());
            }
            assert(s.drop_last().push(s.last()) =~= s);
        }
    }
}

/// A text without the separator is one piece.
pub proof fn lemma_split_without_separator(s: Seq<char>, sep: char)
    requires
        lacks(s, sep),
    ensures
        split_on(s, sep) == seq![s],
    decreases s.len(),
{
    if s.len() == 0 {
        assert(s =~= Seq::<char>::empty());
    } else {
        lemma_split_without_separator(s.drop_last(), sep);
        let before = split_on(s.drop_last(), sep);
        assert(before.last().push(s.last()) =~= s);
    }
}

/// What follows the last separator is the last piece.
pub proof fn lemma_split_last_piece(head: Seq<char>, sep: char, piece: Seq<char>)
    requires
        lacks(piece, sep),
    ensures
        split_on(head + seq![sep] + piece, sep) == split_on(head, sep).push(piece),
    decreases piece.len(),
{
    let s = head + seq![sep] + piece;
    if piece.len() == 0 {
        assert(s.drop_last() =~= head);
        assert(piece =~= Seq::<char>::empty());
    } else {
        assert(s.drop_last() =~= head + seq![sep] + piece.drop_last());
        lemma_split_last_piece(head, sep, piece.drop_last());
        let before = split_on(s.drop_last(), sep);
        assert(before.last().push(s.last()) =~= piece);
    }
}

/// A numeral among the pieces adds its value to the fields; any other piece
/// adds nothing.
pub proof fn lemma_numeric_fields_of_pushed(pieces: Seq<Seq<char>>, piece: Seq<char>)
    ensures
        numeric_fields(pieces.push(piece)) == if is_numeral(piece) {
            numeric_fields(pieces).push(decimal_value(piece))
        } else {
            numeric_fields(pieces)
        },
{
    assert(pieces.push(piece).drop_last() =~= pieces);
}

/// An announcement that ends with two numerals joined by `'.'`, set off
/// from what goes before by whitespace and followed by nothing but
/// whitespace, gives their values as major and minor, and 0 as patch. It
/// has no version where one of the two values does not fit in 64 bits.
pub proof fn lemma_two_numerals_parse(
    head: Seq<char>,
    major: Seq<char>,
    minor: Seq<char>,
    tail: Seq<char>,
)
    requires
        head.len() == 0 || is_whitespace(head.last()),
        is_numeral(major),
        is_numeral(minor),
        all_whitespace(tail),
    ensures
        parse_version(head + (major + seq!['.'] + minor) + tail) == (if decimal_value(major)
            <= u64::MAX && decimal_value(minor) <= u64::MAX {
            Some(
                Version {
                    major: decimal_value(major) as u64,
                    minor: decimal_value(minor) as u64,
                    patch: 0,
                },
            )
        } else {
            None
        }),
{
    let word = major + seq!['.'] + minor;
    lemma_last_token_ignores_trailing_whitespace(head + word, tail);
    lemma_last_token_of_last_word(head, word);
    lemma_split_last_piece(major, '.', minor);
    lemma_split_without_separator(major, '.');
    lemma_numeric_fields_of_pushed(seq![major], minor);
    lemma_numeric_fields_of_pushed(Seq::empty(), major);
}

/// An announcement that ends with three numerals joined by `'.'`, set off
/// from what goes before by whitespace and followed by nothing but
/// whitespace, gives their values as major, minor and patch. It has no
/// version where one of the three values does not fit in 64 bits.
pub proof fn lemma_three_numerals_parse(
    head: Seq<char>,
    major: Seq<char>,
    minor: Seq<char>,
    patch: Seq<char>,
    tail: Seq<char>,
)
    requires
        head.len() == 0 || is_whitespace(head.last()),
        is_numeral(major),
        is_numeral(minor),
        is_numeral(patch),
        all_whitespace(tail),
    ensures
        parse_version(head + (major + seq!['.'] + minor + seq!['.'] + patch) + tail) == (
        if decimal_value(major) <= u64::MAX && decimal_value(minor) <= u64::MAX && decimal_value(
            patch,
        ) <= u64::MAX {
            Some(
                Version {
                    major: decimal_value(major) as u64,
                    minor: decimal_value(minor) as u64,
                    patch: decimal_value(patch) as u64,
                },
            )
        } else {
            None
        }),
{
    let front = major + seq!['.'] + minor;
    let word = front + seq!['.'] + patch;
    lemma_last_token_ignores_trailing_whitespace(head + word, tail);
    lemma_last_token_of_last_word(head, word);
    lemma_split_last_piece(front, '.', patch);
    lemma_split_last_piece(major, '.', minor);
    lemma_split_without_separator(major, '.');
    lemma_numeric_fields_of_pushed(seq![major, minor], patch);
    lemma_numeric_fields_of_pushed(seq![major], minor);
    lemma_numeric_fields_of_pushed(Seq::empty(), major);
    assert(seq![major].push(minor) =~= seq![major, minor]);
}

/// Reading what was written gives the version back: a version as it is
/// written, set off from what goes before by whitespace and followed by
/// nothing but whitespace, is read as that version.
pub proof fn lemma_written_version_parses(head: Seq<char>, version: Version, tail: Seq<char>)
    requires
        head.len() == 0 || is_whitespace(head.last()),
        all_whitespace(tail),
    ensures
        parse_version(head + version.written() + tail) == Some(version),
{
    lemma_decimal_denotes(version.major as nat);
    lemma_decimal_denotes(version.minor as nat);
    lemma_decimal_denotes(version.patch as nat);
    lemma_three_numerals_parse(
        head,
        decimal(version.major as nat),
        decimal(version.minor as nat),
        decimal(version.patch as nat),
        tail,
    );
}

/// A version that is read says what the announcement says: its fields are
/// the first numeric fields of the last token, number for number, with 0 for
/// a patch level that is not given. And there is no version exactly when
/// the last token holds fewer than two numeric fields, or when the major,
/// minor or patch number among them does not fit in 64 bits.
pub proof fn lemma_version_says_what_is_announced(s: Seq<char>)
    ensures
        ({
            let fields = numeric_fields(split_on(last_token(s), '.'));
            &&& parse_version(s) matches Some(version) ==> {
                &&& fields.len() >= 2
                &&& version.major == fields[0]
                &&& version.minor == fields[1]
                &&& version.patch == patch_of_fields(fields)
            }
            &&& parse_version(s) is None <==> {
                ||| fields.len() < 2
                ||| fields[0] > u64::MAX
                ||| fields[1] > u64::MAX
                ||| patch_of_fields(fields) > u64::MAX
            }
        }),
{
}

} // verus!
