//! Fuzzy classification of recognized text into a control category.
//!
//! The text scanned from the screen region is noisy: characters get dropped
//! or swapped, and word breaks are sometimes lost. The classifier picks the
//! first whitespace-separated token of at least 4 characters, truncates it to
//! at most 6, and matches it against a fixed set of canonical labels by
//! Levenshtein distance, accepting a distance below 2.

use vstd::prelude::*;

verus! {

/// Category of the entity under the scan region, as last recognized.
#[derive(Clone, Copy, Debug, PartialEq, Eq, Structural)]
pub enum CurrentlySelected {
    /// Nothing recognized: the idle category.
    Nothing,
    Growing,
    Thirsty,
    Hungry,
    Ripe,
}

/// Levenshtein edit distance between two character sequences: the least
/// number of single-character insertions, deletions and substitutions that
/// turns one into the other.
pub open spec fn lev(a: Seq<char>, b: Seq<char>) -> nat
    decreases a.len() + b.len(),
{
    if a.len() == 0 {
        b.len()
    } else if b.len() == 0 {
        a.len()
    } else {
        let subst = lev(a.drop_first(), b.drop_first()) + (if a[0] == b[0] {
            0nat
        } else {
            1nat
        });
        let del = lev(a.drop_first(), b) + 1;
        let ins = lev(a, b.drop_first()) + 1;
        if subst <= del && subst <= ins {
            subst
        } else if del <= ins {
            del
        } else {
            ins
        }
    }
}

/// Relies on levenshtein::levenshtein: the Levenshtein edit distance between
/// the character sequences of the two strings.
#[verifier::external_body]
fn edit_distance(a: &str, b: &str) -> (r: usize)
    ensures
        r as nat == lev(a@, b@),
{
    levenshtein::levenshtein(a, b)
}

/// A character with the Unicode `White_Space` property: these are the
/// separators between tokens of recognized text.
pub open spec fn is_white(c: char) -> bool {
    let u = c as u32;
    u == 0x9 || u == 0xa || u == 0xb || u == 0xc || u == 0xd || u == 0x20 || u == 0x85
        || u == 0xa0 || u == 0x1680 || (0x2000 <= u && u <= 0x200a) || u == 0x2028 || u == 0x2029
        || u == 0x202f || u == 0x205f || u == 0x3000
}

/// Decides [`is_white`] on a character.
pub fn is_space_char(c: char) -> (r: bool)
    ensures
        r == is_white(c),
{
    let u = c as u32;
    u == 0x9 || u == 0xa || u == 0xb || u == 0xc || u == 0xd || u == 0x20 || u == 0x85
        || u == 0xa0 || u == 0x1680 || (0x2000 <= u && u <= 0x200a) || u == 0x2028 || u == 0x2029
        || u == 0x202f || u == 0x205f || u == 0x3000
}

/// Length of the maximal non-whitespace prefix of `s`: the token that starts
/// at the front of `s`, if any.
pub open spec fn token_len(s: Seq<char>) -> nat
    decreases s.len(),
{
    if s.len() == 0 || is_white(s[0]) {
        0
    } else {
        1 + token_len(s.drop_first())
    }
}

/// The candidate prefix of `s`: the first whitespace-separated token of at
/// least 4 characters, truncated to at most 6. `None` when no such token
/// exists.
pub open spec fn first_cand(s: Seq<char>) -> Option<Seq<char>>
    decreases s.len(),
    via first_cand_decreases
{
    if s.len() == 0 {
        None
    } else if is_white(s[0]) {
        first_cand(s.drop_first())
    } else {
        let t = token_len(s);
        if t >= 4 {
            Some(s.take(if t <= 6 {
                t as int
            } else {
                6
            }))
        } else {
            first_cand(s.skip(t as int))
        }
    }
}

/// A token is never longer than the sequence it starts.
proof fn lemma_token_len_le(s: Seq<char>)
    ensures
        token_len(s) <= s.len(),
    decreases s.len(),
{
    if s.len() > 0 && !is_white(s[0]) {
        lemma_token_len_le(s.drop_first());
    }
}

#[via_fn]
proof fn first_cand_decreases(s: Seq<char>) {
    if s.len() > 0 && !is_white(s[0]) {
        lemma_token_len_le(s);
        assert(token_len(s) >= 1);
    }
}

/// Category assigned to a candidate prefix: the first canonical label within
/// edit distance 1, in the fixed priority order.
pub open spec fn label_of(c: Seq<char>) -> CurrentlySelected {
    if lev(c, "Growin"@) < 2 {
        CurrentlySelected::Growing
    } else if lev(c, "Thirst"@) < 2 {
        CurrentlySelected::Thirsty
    } else if lev(c, "Hungry"@) < 2 {
        CurrentlySelected::Hungry
    } else if lev(c, "Bloomi"@) < 2 || lev(c, "Ripe"@) < 2 {
        CurrentlySelected::Ripe
    } else {
        CurrentlySelected::Nothing
    }
}

/// What [`CurrentlySelected::classify`] returns on a character sequence.
pub open spec fn classify_spec(s: Seq<char>) -> CurrentlySelected {
    match first_cand(s) {
        Some(c) => label_of(c),
        None => CurrentlySelected::Nothing,
    }
}

/// The exact token length is fixed by a scan that found `k` non-whitespace
/// characters followed by whitespace or the end.
proof fn lemma_token_len_exact(s: Seq<char>, k: int)
    requires
        0 <= k <= s.len(),
        forall|j: int| 0 <= j < k ==> !is_white(s[j]),
        k == s.len() || is_white(s[k]),
    ensures
        token_len(s) == k,
    decreases k,
{
    if k > 0 {
        lemma_token_len_exact(s.drop_first(), k - 1);
    }
}

impl CurrentlySelected {
    /// Maps raw recognized text to a category. Deterministic and total:
    /// unrecognized input maps to [`CurrentlySelected::Nothing`].
    pub fn classify(text: &str) -> (r: CurrentlySelected)
        ensures
            r == classify_spec(text@),
    {
        let n = text.unicode_len();
        let mut i: usize = 0;
        proof {
            assert(text@.skip(0) =~= text@);
        }
        while i < n
            invariant
                i <= n,
                n == text@.len(),
                first_cand(text@) == first_cand(text@.skip(i as int)),
            decreases n - i,
        {
            if is_space_char(text.get_char(i)) {
                proof {
                    assert(text@.skip(i as int).drop_first() =~= text@.skip(i as int + 1));
                }
                i = i + 1;
            } else {
                let start = i;
                let mut j = i + 1;
                while j < n && !is_space_char(text.get_char(j))
                    invariant
                        start < j <= n,
                        n == text@.len(),
                        forall|q: int| start <= q < j ==> !is_white(text@[q]),
                    decreases n - j,
                {
                    j = j + 1;
                }
                proof {
                    let rest = text@.skip(start as int);
                    assert(forall|q: int|
                        0 <= q < j - start ==> rest[q] == text@[start + q] && !is_white(rest[q]));
                    if j < n {
                        assert(is_white(rest[j - start]));
                    }
                    lemma_token_len_exact(rest, j - start);
                }
                if j - start >= 4 {
                    let end = if j - start >= 6 {
                        start + 6
                    } else {
                        j
                    };
                    let cand = text.substring_char(start, end);
                    proof {
                        let rest = text@.skip(start as int);
                        let t = token_len(rest) as int;
                        assert(rest.take(if t <= 6 {
                            t
                        } else {
                            6
                        }) =~= text@.subrange(start as int, end as int));
                        assert(first_cand(text@) == Some(cand@));
                    }
                    let r = if edit_distance(cand, "Growin") < 2 {
                        CurrentlySelected::Growing
                    } else if edit_distance(cand, "Thirst") < 2 {
                        CurrentlySelected::Thirsty
                    } else if edit_distance(cand, "Hungry") < 2 {
                        CurrentlySelected::Hungry
                    } else if edit_distance(cand, "Bloomi") < 2 || edit_distance(cand, "Ripe")
                        < 2 {
                        CurrentlySelected::Ripe
                    } else {
                        CurrentlySelected::Nothing
                    };
                    return r;
                } else {
                    proof {
                        let rest = text@.skip(start as int);
                        assert(rest.skip(token_len(rest) as int) =~= text@.skip(j as int));
                    }
                    i = j;
                }
            }
        }
        proof {
            assert(text@.skip(n as int) =~= Seq::<char>::empty());
        }
        CurrentlySelected::Nothing
    }
}

/// The classifier is determined by the candidate prefix: whenever the first
/// token of at least 4 characters, truncated to 6, is within edit distance 1
/// of a canonical label, that label's category is returned, and the fixed
/// priority order decides when several labels are that close.
pub proof fn lemma_classifier_priority(s: Seq<char>, c: Seq<char>)
    requires
        first_cand(s) == Some(c),
    ensures
        lev(c, "Growin"@) < 2 ==> classify_spec(s) == CurrentlySelected::Growing,
        lev(c, "Growin"@) >= 2 && lev(c, "Thirst"@) < 2 ==> classify_spec(s)
            == CurrentlySelected::Thirsty,
        lev(c, "Growin"@) >= 2 && lev(c, "Thirst"@) >= 2 && lev(c, "Hungry"@) < 2
            ==> classify_spec(s) == CurrentlySelected::Hungry,
        lev(c, "Growin"@) >= 2 && lev(c, "Thirst"@) >= 2 && lev(c, "Hungry"@) >= 2 && (lev(
            c,
            "Bloomi"@,
        ) < 2 || lev(c, "Ripe"@) < 2) ==> classify_spec(s) == CurrentlySelected::Ripe,
        lev(c, "Growin"@) >= 2 && lev(c, "Thirst"@) >= 2 && lev(c, "Hungry"@) >= 2 && lev(
            c,
            "Bloomi"@,
        ) >= 2 && lev(c, "Ripe"@) >= 2 ==> classify_spec(s) == CurrentlySelected::Nothing,
{
}

/// A string without any candidate token is classified as the idle category.
pub proof fn lemma_no_candidate(s: Seq<char>)
    requires
        first_cand(s) is None,
    ensures
        classify_spec(s) == CurrentlySelected::Nothing,
{
}

/// A string consisting only of whitespace has no candidate token, so it is
/// classified as the idle category; the empty string is such a string.
pub proof fn lemma_all_white(s: Seq<char>)
    requires
        forall|j: int| 0 <= j < s.len() ==> is_white(s[j]),
    ensures
        first_cand(s) is None,
        classify_spec(s) == CurrentlySelected::Nothing,
    decreases s.len(),
{
    if s.len() > 0 {
        lemma_all_white(s.drop_first());
    }
}

impl CurrentlySelected {
    /// What [`CurrentlySelected::to_code`] returns.
    pub open spec fn code_spec(self) -> u8 {
        match self {
            CurrentlySelected::Nothing => 0,
            CurrentlySelected::Growing => 1,
            CurrentlySelected::Thirsty => 2,
            CurrentlySelected::Hungry => 3,
            CurrentlySelected::Ripe => 4,
        }
    }

    /// What [`CurrentlySelected::from_code`] returns.
    pub open spec fn from_code_spec(code: u8) -> Option<CurrentlySelected> {
        if code == 0 {
            Some(CurrentlySelected::Nothing)
        } else if code == 1 {
            Some(CurrentlySelected::Growing)
        } else if code == 2 {
            Some(CurrentlySelected::Thirsty)
        } else if code == 3 {
            Some(CurrentlySelected::Hungry)
        } else if code == 4 {
            Some(CurrentlySelected::Ripe)
        } else {
            None
        }
    }

    /// Stable small-integer code of the category, for storage in a shared
    /// atomic byte.
    pub fn to_code(self) -> (r: u8)
        ensures
            r == self.code_spec(),
    {
        match self {
            CurrentlySelected::Nothing => 0,
            CurrentlySelected::Growing => 1,
            CurrentlySelected::Thirsty => 2,
            CurrentlySelected::Hungry => 3,
            CurrentlySelected::Ripe => 4,
        }
    }

    /// Reads a category back from its code; codes above 4 decode to nothing.
    pub fn from_code(code: u8) -> (r: Option<CurrentlySelected>)
        ensures
            r == Self::from_code_spec(code),
    {
        if code == 0 {
            Some(CurrentlySelected::Nothing)
        } else if code == 1 {
            Some(CurrentlySelected::Growing)
        } else if code == 2 {
            Some(CurrentlySelected::Thirsty)
        } else if code == 3 {
            Some(CurrentlySelected::Hungry)
        } else if code == 4 {
            Some(CurrentlySelected::Ripe)
        } else {
            None
        }
    }
}

impl CurrentlySelected {
    /// The text of [`CurrentlySelected::display_name`], character for
    /// character.
    pub open spec fn display_name_spec(self) -> Seq<char> {
        match self {
            CurrentlySelected::Nothing => "None"@,
            CurrentlySelected::Growing => "Growing"@,
            CurrentlySelected::Thirsty => "Thirsty"@,
            CurrentlySelected::Hungry => "Hungry"@,
            CurrentlySelected::Ripe => "Ripe"@,
        }
    }

    /// The human-readable name of the category, as shown to the user.
    pub fn display_name(self) -> (r: &'static str)
        ensures
            r@ == self.display_name_spec(),
    {
        match self {
            CurrentlySelected::Nothing => "None",
            CurrentlySelected::Growing => "Growing",
            CurrentlySelected::Thirsty => "Thirsty",
            CurrentlySelected::Hungry => "Hungry",
            CurrentlySelected::Ripe => "Ripe",
        }
    }
}

/// Encoding a category and decoding it again returns the same category.
pub proof fn lemma_code_round_trip(c: CurrentlySelected)
    ensures
        CurrentlySelected::from_code_spec(c.code_spec()) == Some(c),
{
}

} // verus!
