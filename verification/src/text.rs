//! Text handling shared by the rest of the crate: white space and trimming.

use vstd::prelude::*;

verus! {

/// Whether a character has the Unicode property White_Space.
pub open spec fn is_white_space(c: char) -> bool {
    let code = c as u32;
    ||| 0x09 <= code <= 0x0D
    ||| code == 0x20
    ||| code == 0x85
    ||| code == 0xA0
    ||| code == 0x1680
    ||| 0x2000 <= code <= 0x200A
    ||| code == 0x2028
    ||| code == 0x2029
    ||| code == 0x202F
    ||| code == 0x205F
    ||| code == 0x3000
}

/// Whether a text consists of white space only.
pub open spec fn is_blank(s: Seq<char>) -> bool {
    forall|i: int| 0 <= i < s.len() ==> is_white_space(#[trigger] s[i])
}

/// The number of white-space characters a text starts with.
pub open spec fn leading_space(s: Seq<char>) -> nat
    decreases s.len(),
{
    if s.len() > 0 && is_white_space(s.first()) {
        1 + leading_space(s.drop_first())
    } else {
        0
    }
}

/// The number of white-space characters a text ends with.
pub open spec fn trailing_space(s: Seq<char>) -> nat
    decreases s.len(),
{
    if s.len() > 0 && is_white_space(s.last()) {
        1 + trailing_space(s.drop_last())
    } else {
        0
    }
}

/// A text without the white space at its two ends.
pub open spec fn trimmed(s: Seq<char>) -> Seq<char> {
    if leading_space(s) == s.len() {
        Seq::empty()
    } else {
        s.subrange(leading_space(s) as int, s.len() - trailing_space(s))
    }
}

/// `leading_space` is the first position that holds no white space.
pub proof fn lemma_leading_space(s: Seq<char>)
    ensures
        leading_space(s) <= s.len(),
        is_blank(s.take(leading_space(s) as int)),
        leading_space(s) < s.len() ==> !is_white_space(s[leading_space(s) as int]),
    decreases s.len(),
{
    if s.len() > 0 && is_white_space(s.first()) {
        let rest = s.drop_first();
        lemma_leading_space(rest);
        let n = leading_space(rest) as int;
        assert forall|i: int| 0 <= i < n + 1 implies is_white_space(#[trigger] s.take(n + 1)[i]) by {
            if i > 0 {
                assert(s.take(n + 1)[i] == rest.take(n)[i - 1]);
            }
        }
    }
}

/// `trailing_space` counts back to the last position that holds no white
/// space.
pub proof fn lemma_trailing_space(s: Seq<char>)
    ensures
        trailing_space(s) <= s.len(),
        is_blank(s.skip(s.len() - trailing_space(s))),
        trailing_space(s) < s.len() ==> !is_white_space(s[s.len() - trailing_space(s) - 1]),
    decreases s.len(),
{
    if s.len() > 0 && is_white_space(s.last()) {
        let rest = s.drop_last();
        lemma_trailing_space(rest);
        let n = trailing_space(rest) as int;
        let from = s.len() - (n + 1);
        assert forall|i: int| 0 <= i < n + 1 implies is_white_space(#[trigger] s.skip(from)[i]) by {
            if i < n {
                assert(s.skip(from)[i] == rest.skip(rest.len() - n)[i]);
            }
        }
    }
}

/// A count of leading white space is determined by the two facts that
/// `lemma_leading_space` states of it.
pub proof fn lemma_leading_space_unique(s: Seq<char>, n: int)
    requires
        0 <= n <= s.len(),
        is_blank(s.take(n)),
        n < s.len() ==> !is_white_space(s[n]),
    ensures
        leading_space(s) == n,
    decreases s.len(),
{
    if n > 0 {
        assert(s.take(n)[0] == s[0]);
        let rest = s.drop_first();
        assert forall|i: int| 0 <= i < n - 1 implies is_white_space(#[trigger] rest.take(n - 1)[i]) by {
            assert(rest.take(n - 1)[i] == s.take(n)[i + 1]);
        }
        lemma_leading_space_unique(rest, n - 1);
    }
}

/// A count of trailing white space is determined by the two facts that
/// `lemma_trailing_space` states of it.
pub proof fn lemma_trailing_space_unique(s: Seq<char>, n: int)
    requires
        0 <= n <= s.len(),
        is_blank(s.skip(s.len() - n)),
        n < s.len() ==> !is_white_space(s[s.len() - n - 1]),
    ensures
        trailing_space(s) == n,
    decreases s.len(),
{
    if n > 0 {
        assert(s.skip(s.len() - n)[n - 1] == s.last());
        let rest = s.drop_last();
        assert forall|i: int| 0 <= i < n - 1 implies is_white_space(
            #[trigger] rest.skip(rest.len() - (n - 1))[i],
        ) by {
            assert(rest.skip(rest.len() - (n - 1))[i] == s.skip(s.len() - n)[i]);
        }
        lemma_trailing_space_unique(rest, n - 1);
    }
}

/// What remains of a text that is not blank starts and ends with something
/// other than white space, and only white space was removed: the text is a
/// blank, then what remains, then another blank.
pub proof fn lemma_trimmed_is_tidy(s: Seq<char>)
    ensures
        is_blank(s) <==> trimmed(s).len() == 0,
        !is_blank(s) ==> !is_white_space(trimmed(s).first()) && !is_white_space(
            trimmed(s).last(),
        ),
        leading_space(s) + trimmed(s).len() + trailing_space(s) == s.len() || is_blank(s),
        trimmed(trimmed(s)) == trimmed(s),
{
    lemma_leading_space(s);
    lemma_trailing_space(s);
    let lead = leading_space(s) as int;
    let trail = trailing_space(s) as int;
    if lead == s.len() {
        assert(s.take(lead) == s);
    } else {
        if s.len() - trail <= lead {
            assert(s.skip(s.len() - trail)[lead - (s.len() - trail)] == s[lead]);
        }
        let t = trimmed(s);
        lemma_leading_space_unique(t, 0);
        lemma_trailing_space_unique(t, 0);
    }
}

/// There is one way only to take white space off the two ends of a text
/// until none is left there, and `trimmed` is it.
pub proof fn lemma_trimmed_unique(s: Seq<char>, before: Seq<char>, kept: Seq<char>, after: Seq<char>)
    requires
        s == before + kept + after,
        is_blank(before),
        is_blank(after),
        kept.len() > 0 ==> !is_white_space(kept.first()) && !is_white_space(kept.last()),
    ensures
        trimmed(s) == kept,
{
    if kept.len() == 0 {
        assert(is_blank(s));
        lemma_leading_space_unique(s, s.len() as int);
    } else {
        let lead = before.len() as int;
        let trail = after.len() as int;
        lemma_leading_space_unique(s, lead);
        lemma_trailing_space_unique(s, trail);
    }
}

/// Tells whether a character is white space.
pub fn is_space(c: char) -> (space: bool)
    ensures
        space == is_white_space(c),
{
    let code: u32 = c as u32;
    (0x09 <= code && code <= 0x0D) || code == 0x20 || code == 0x85 || code == 0xA0 || code
        == 0x1680 || (0x2000 <= code && code <= 0x200A) || code == 0x2028 || code == 0x2029
        || code == 0x202F || code == 0x205F || code == 0x3000
}

/// Removes the white space at the two ends of a text.
pub fn trim(text: &str) -> (result: String)
    ensures
        result@ == trimmed(text@),
{
    let len = text.unicode_len();
    // Where something other than white space was seen, `start` is the place
    // of the first such character and `end` the place after the last.
    let mut start: usize = 0;
    let mut end: usize = 0;
    let mut index: usize = 0;
    for c in it: text.chars()
        invariant
            len == text@.len(),
            it.seq() == text@,
            index == it.index(),
            index <= len,
            end <= index,
            end == 0 ==> is_blank(text@.take(index as int)),
            end > 0 ==> start < end && is_blank(text@.take(start as int)) && !is_white_space(
                text@[start as int],
            ) && !is_white_space(text@[end - 1]) && is_blank(
                text@.subrange(end as int, index as int),
            ),
    {
        let ghost before = index;
        if !is_space(c) {
            if end == 0 {
                start = index;
            }
            end = index + 1;
        }
        index = index + 1;
        proof {
            if end == 0 {
                assert(is_blank(text@.take(index as int)));
            } else if end < index {
                assert forall|i: int| 0 <= i < index - end implies is_white_space(
                    #[trigger] text@.subrange(end as int, index as int)[i],
                ) by {
                    if i < before - end {
                        assert(text@.subrange(end as int, index as int)[i] == text@.subrange(
                            end as int,
                            before as int,
                        )[i]);
                    }
                }
            }
        }
    }
    if end == 0 {
        proof {
            lemma_leading_space_unique(text@, len as int);
        }
        return String::new();
    }
    proof {
        lemma_leading_space_unique(text@, start as int);
        lemma_trailing_space_unique(text@, len - end);
    }
    text.substring_char(start, end).to_owned()
}

/// An optional text as a plain value.
pub open spec fn text_model(text: Option<String>) -> Option<Seq<char>> {
    match text {
        Some(text) => Some(text@),
        None => None,
    }
}

} // verus!
