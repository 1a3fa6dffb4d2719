//! Extracting a volume percentage from the free-form text of an
//! external mixer tool. Two incompatible output shapes are handled,
//! selected by the caller: a bracketed token on the last line, or a
//! percent-suffixed token on the first line mentioning `Volume`.

use vstd::prelude::*;
use vstd::string::StrSliceExecFns;
use crate::text::contains_sub;
use crate::text::lemma_split_rec_len;
use crate::text::lines_of;
use crate::text::spec_contains;
use crate::text::spec_lines;
use crate::text::spec_tokens;
use crate::text::tokens_of;

verus! {

/// Which text shape the backing mixer tool produces.
#[derive(Clone, Copy, PartialEq, Eq, Debug)]
pub enum MixerFormat {
    /// The volume stands on the last line as a bracketed token `[NN%]`,
    /// returned stripped of its brackets.
    Bracketed,
    /// The volume stands on a line containing `Volume` as a bare token
    /// `NN%`, returned as-is.
    PercentSuffix,
}

/// The mixer tool's output did not hold the expected line or token.
#[derive(Clone, Copy, PartialEq, Eq, Debug)]
pub enum VolumeError {
    NoVolumeToken,
}

/// A token of the form `NN%`: non-empty and ending with a percent sign.
pub open spec fn spec_ends_percent(t: Seq<char>) -> bool {
    t.len() > 0 && t.last() == '%'
}

/// A token of the form `[NN%]`: bracketed, its content ending with a
/// percent sign.
pub open spec fn spec_bracket_percent(t: Seq<char>) -> bool {
    t.len() >= 3 && t[0] == '[' && t.last() == ']' && t[t.len() - 2] == '%'
}

/// The first token of the form `NN%`, kept whole.
pub open spec fn first_percent_token(ts: Seq<Seq<char>>) -> Option<Seq<char>>
    decreases ts.len(),
{
    if ts.len() == 0 {
        Option::None
    } else if spec_ends_percent(ts[0]) {
        Option::Some(ts[0])
    } else {
        first_percent_token(ts.drop_first())
    }
}

/// The first token of the form `[NN%]`, stripped of its brackets.
pub open spec fn first_bracket_token(ts: Seq<Seq<char>>) -> Option<Seq<char>>
    decreases ts.len(),
{
    if ts.len() == 0 {
        Option::None
    } else if spec_bracket_percent(ts[0]) {
        Option::Some(ts[0].subrange(1, ts[0].len() - 1))
    } else {
        first_bracket_token(ts.drop_first())
    }
}

/// The first line containing the substring `Volume`.
pub open spec fn first_volume_line(ls: Seq<Seq<char>>) -> Option<Seq<char>>
    decreases ls.len(),
{
    if ls.len() == 0 {
        Option::None
    } else if spec_contains(ls[0], "Volume"@) {
        Option::Some(ls[0])
    } else {
        first_volume_line(ls.drop_first())
    }
}

/// What volume extraction yields on a raw text blob, for each format:
/// `None` when the expected line or token is absent.
pub open spec fn spec_extract_volume(s: Seq<char>, fmt: MixerFormat) -> Option<Seq<char>> {
    match fmt {
        MixerFormat::Bracketed => {
            let ls = spec_lines(s);
            if ls.len() == 0 {
                Option::None
            } else {
                first_bracket_token(spec_tokens(ls.last()))
            }
        },
        MixerFormat::PercentSuffix => match first_volume_line(spec_lines(s)) {
            Option::Some(l) => first_percent_token(spec_tokens(l)),
            Option::None => Option::None,
        },
    }
}

fn ends_percent(t: &str) -> (r: bool)
    ensures
        r == spec_ends_percent(t@),
{
    let n: usize = t.unicode_len();
    n > 0 && t.get_char(n - 1) == '%'
}

fn bracket_percent(t: &str) -> (r: bool)
    ensures
        r == spec_bracket_percent(t@),
{
    let n: usize = t.unicode_len();
    n >= 3 && t.get_char(0) == '[' && t.get_char(n - 1) == ']' && t.get_char(n - 2) == '%'
}

fn find_percent_token(toks: &Vec<String>) -> (r: Option<String>)
    ensures
        match first_percent_token(toks.deep_view()) {
            Option::Some(v) => r matches Option::Some(s) && s@ == v,
            Option::None => r is None,
        },
{
    let ghost ts: Seq<Seq<char>> = toks.deep_view();
    let mut j: usize = 0;
    proof {
        assert(ts.subrange(0, ts.len() as int) =~= ts);
    }
    while j < toks.len()
        invariant
            j <= toks.len(),
            ts == toks.deep_view(),
            first_percent_token(ts) == first_percent_token(
                ts.subrange(j as int, ts.len() as int),
            ),
        decreases toks.len() - j,
    {
        let ghost rest: Seq<Seq<char>> = ts.subrange(j as int, ts.len() as int);
        proof {
            assert(rest[0] == ts[j as int]);
            assert(rest.drop_first() =~= ts.subrange(j + 1, ts.len() as int));
        }
        if ends_percent(toks[j].as_str()) {
            return Option::Some(toks[j].clone());
        }
        j += 1;
    }
    proof {
        assert(ts.subrange(ts.len() as int, ts.len() as int) =~= Seq::<Seq<char>>::empty());
    }
    Option::None
}

fn find_bracket_token(toks: &Vec<String>) -> (r: Option<String>)
    ensures
        match first_bracket_token(toks.deep_view()) {
            Option::Some(v) => r matches Option::Some(s) && s@ == v,
            Option::None => r is None,
        },
{
    let ghost ts: Seq<Seq<char>> = toks.deep_view();
    let mut j: usize = 0;
    proof {
        assert(ts.subrange(0, ts.len() as int) =~= ts);
    }
    while j < toks.len()
        invariant
            j <= toks.len(),
            ts == toks.deep_view(),
            first_bracket_token(ts) == first_bracket_token(
                ts.subrange(j as int, ts.len() as int),
            ),
        decreases toks.len() - j,
    {
        let ghost rest: Seq<Seq<char>> = ts.subrange(j as int, ts.len() as int);
        proof {
            assert(rest[0] == ts[j as int]);
            assert(rest.drop_first() =~= ts.subrange(j + 1, ts.len() as int));
        }
        let t: &str = toks[j].as_str();
        if bracket_percent(t) {
            let n: usize = t.unicode_len();
            let inner: &str = t.substring_char(1, n - 1);
            return Option::Some(inner.to_owned());
        }
        j += 1;
    }
    proof {
        assert(ts.subrange(ts.len() as int, ts.len() as int) =~= Seq::<Seq<char>>::empty());
    }
    Option::None
}

fn find_volume_line(lines: &Vec<String>) -> (r: Option<String>)
    ensures
        match first_volume_line(lines.deep_view()) {
            Option::Some(v) => r matches Option::Some(s) && s@ == v,
            Option::None => r is None,
        },
{
    let ghost ls: Seq<Seq<char>> = lines.deep_view();
    let mut j: usize = 0;
    proof {
        assert(ls.subrange(0, ls.len() as int) =~= ls);
    }
    while j < lines.len()
        invariant
            j <= lines.len(),
            ls == lines.deep_view(),
            first_volume_line(ls) == first_volume_line(ls.subrange(j as int, ls.len() as int)),
        decreases lines.len() - j,
    {
        let ghost rest: Seq<Seq<char>> = ls.subrange(j as int, ls.len() as int);
        proof {
            assert(rest[0] == ls[j as int]);
            assert(rest.drop_first() =~= ls.subrange(j + 1, ls.len() as int));
        }
        if contains_sub(lines[j].as_str(), "Volume") {
            return Option::Some(lines[j].clone());
        }
        j += 1;
    }
    proof {
        assert(ls.subrange(ls.len() as int, ls.len() as int) =~= Seq::<Seq<char>>::empty());
    }
    Option::None
}

/// The parser of the mixer tool's textual output.
pub struct TextTableParser;

impl TextTableParser {
    /// Extracts the volume percentage token from the raw output, per
    /// the given format; a missing line or token is an error, never a
    /// guessed value.
    pub fn extract_volume(raw: &str, fmt: MixerFormat) -> (r: Result<String, VolumeError>)
        ensures
            match spec_extract_volume(raw@, fmt) {
                Option::Some(v) => r matches Ok(s) && s@ == v,
                Option::None => r matches Err(e) && e is NoVolumeToken,
            },
    {
        let lines = lines_of(raw);
        match fmt {
            MixerFormat::Bracketed => {
                proof {
                    if raw@.len() > 0 && raw@.last() == '\n' {
                        lemma_split_rec_len(
                            raw@.drop_last(),
                            Seq::empty(),
                            Seq::<Seq<char>>::empty(),
                        );
                    } else {
                        lemma_split_rec_len(raw@, Seq::empty(), Seq::<Seq<char>>::empty());
                    }
                    assert(lines.deep_view().len() > 0);
                }
                let last: &String = &lines[lines.len() - 1];
                proof {
                    assert(last@ == spec_lines(raw@).last());
                }
                let toks = tokens_of(last.as_str());
                match find_bracket_token(&toks) {
                    Option::Some(s) => Ok(s),
                    Option::None => Err(VolumeError::NoVolumeToken),
                }
            },
            MixerFormat::PercentSuffix => {
                match find_volume_line(&lines) {
                    Option::Some(line) => {
                        let toks = tokens_of(line.as_str());
                        match find_percent_token(&toks) {
                            Option::Some(s) => Ok(s),
                            Option::None => Err(VolumeError::NoVolumeToken),
                        }
                    },
                    Option::None => Err(VolumeError::NoVolumeToken),
                }
            },
        }
    }
}

} // verus!
