//! Text as the client reads and writes it: white space, decimal numerals, joining.

use vstd::prelude::*;

verus! {

/// The characters with the Unicode property `White_Space`.
pub open spec fn is_white_space(c: char) -> bool {
    ||| '\u{9}' <= c <= '\u{d}'
    ||| c == '\u{20}'
    ||| c == '\u{85}'
    ||| c == '\u{a0}'
    ||| c == '\u{1680}'
    ||| '\u{2000}' <= c <= '\u{200a}'
    ||| c == '\u{2028}'
    ||| c == '\u{2029}'
    ||| c == '\u{202f}'
    ||| c == '\u{205f}'
    ||| c == '\u{3000}'
}

/// `text` without its leading white space.
pub open spec fn trim_start(text: Seq<char>) -> Seq<char>
    decreases text.len(),
{
    if text.len() > 0 && is_white_space(text[0]) {
        trim_start(text.drop_first())
    } else {
        text
    }
}

/// `text` without its trailing white space.
pub open spec fn trim_end(text: Seq<char>) -> Seq<char>
    decreases text.len(),
{
    if text.len() > 0 && is_white_space(text.last()) {
        trim_end(text.drop_last())
    } else {
        text
    }
}

/// `text` without its leading and trailing white space.
pub open spec fn trimmed(text: Seq<char>) -> Seq<char> {
    trim_end(trim_start(text))
}

/// Nothing but white space, or nothing at all.
pub open spec fn blank(text: Seq<char>) -> bool {
    forall|i: int| 0 <= i < text.len() ==> is_white_space(#[trigger] text[i])
}

/// `str::trim` removes the leading and the trailing characters that have the
/// Unicode property `White_Space`, and nothing else.
pub assume_specification[ str::trim ](text: &str) -> (rest: &str)
    ensures
        rest@ == trimmed(text@),
;

proof fn lemma_trim_start(text: Seq<char>)
    ensures
        trim_start(text).len() == 0 <==> blank(text),
        trim_start(text).len() > 0 ==> !is_white_space(trim_start(text)[0]),
    decreases text.len(),
{
    if text.len() > 0 && is_white_space(text[0]) {
        let rest = text.drop_first();
        lemma_trim_start(rest);
        if blank(rest) {
            assert forall|i: int| 0 <= i < text.len() implies is_white_space(#[trigger] text[i]) by {
                if i > 0 {
                    assert(rest[i - 1] == text[i]);
                }
            }
        }
        if blank(text) {
            assert forall|i: int| 0 <= i < rest.len() implies is_white_space(#[trigger] rest[i]) by {
                assert(rest[i] == text[i + 1]);
            }
        }
    }
}

proof fn lemma_trim_end(text: Seq<char>)
    requires
        text.len() > 0,
        !is_white_space(text[0]),
    ensures
        trim_end(text).len() > 0,
        trim_end(text)[0] == text[0],
        !is_white_space(trim_end(text).last()),
    decreases text.len(),
{
    if is_white_space(text.last()) {
        lemma_trim_end(text.drop_last());
    }
}

/// Trimming leaves nothing exactly where there is nothing but white space.
pub proof fn law_trim_empties_blank_text(text: Seq<char>)
    ensures
        trimmed(text).len() == 0 <==> blank(text),
{
    lemma_trim_start(text);
    if trim_start(text).len() > 0 {
        lemma_trim_end(trim_start(text));
    }
}

/// What has been trimmed starts and ends with a visible character.
pub proof fn law_trimmed_text_is_tight(text: Seq<char>)
    requires
        trimmed(text).len() > 0,
    ensures
        !is_white_space(trimmed(text)[0]),
        !is_white_space(trimmed(text).last()),
{
    lemma_trim_start(text);
    if trim_start(text).len() > 0 {
        lemma_trim_end(trim_start(text));
    }
}

/// Trimming twice is trimming once.
pub proof fn law_trim_is_idempotent(text: Seq<char>)
    ensures
        trimmed(trimmed(text)) == trimmed(text),
{
    if trimmed(text).len() > 0 {
        law_trimmed_text_is_tight(text);
    }
}

/// Tells whether `text` holds nothing but white space.
pub fn is_blank(text: &str) -> (empty: bool)
    ensures
        empty == blank(text@),
{
    proof {
        law_trim_empties_blank_text(text@);
    }
    text.trim().is_empty()
}

/// The content, unless it is absent or blank.
pub open spec fn filled(text: Option<Seq<char>>) -> Option<Seq<char>> {
    match text {
        Some(content) if !blank(content) => Some(content),
        _ => None,
    }
}

/// The trimmed content, unless it is absent or blank.
pub open spec fn filled_trimmed(text: Option<Seq<char>>) -> Option<Seq<char>> {
    match text {
        Some(content) if !blank(content) => Some(trimmed(content)),
        _ => None,
    }
}

/// The view of an optional string.
pub open spec fn text_of(text: Option<String>) -> Option<Seq<char>> {
    match text {
        Some(content) => Some(content@),
        None => None,
    }
}

/// Drops a blank string.
pub fn keep_filled(text: Option<String>) -> (kept: Option<String>)
    ensures
        text_of(kept) == filled(text_of(text)),
{
    match text {
        Some(content) => if is_blank(content.as_str()) {
            None
        } else {
            Some(content)
        },
        None => None,
    }
}

/// Trims a string and drops a blank one.
pub fn keep_trimmed(text: &Option<String>) -> (kept: Option<String>)
    ensures
        text_of(kept) == filled_trimmed(text_of(*text)),
{
    match text {
        Some(content) => if is_blank(content.as_str()) {
            None
        } else {
            Some(content.as_str().trim().to_owned())
        },
        None => None,
    }
}

/// `head` followed by `tail`.
pub fn join(head: &str, tail: &str) -> (joined: String)
    ensures
        joined@ == head@ + tail@,
{
    head.to_owned().concat(tail)
}

/// `truth` as a word.
pub open spec fn truth_text(truth: bool) -> Seq<char> {
    if truth {
        "true"@
    } else {
        "false"@
    }
}

/// Writes a truth value as the word `true` or `false`.
pub fn truth_word(truth: bool) -> (word: String)
    ensures
        word@ == truth_text(truth),
{
    if truth {
        "true".to_owned()
    } else {
        "false".to_owned()
    }
}

/// `needle` occurs somewhere in `text`.
pub open spec fn occurs_in(needle: Seq<char>, text: Seq<char>) -> bool {
    exists|at: int|
        0 <= at <= text.len() - needle.len() && #[trigger] text.subrange(at, at + needle.len())
            == needle
}

/// The characters of `text`, in order.
fn characters(text: &str) -> (list: Vec<char>)
    ensures
        list@ == text@,
{
    let mut list: Vec<char> = Vec::new();
    for c in iter: text.chars()
        invariant
            iter.seq() == text@,
            list@ == text@.take(iter.index() as int),
    {
        list.push(c);
    }
    assert(text@.take(text@.len() as int) =~= text@);
    list
}

/// Tells whether `needle` stands in `text` at `at`.
fn stands_at(needle: &Vec<char>, text: &Vec<char>, at: usize) -> (found: bool)
    requires
        at + needle@.len() <= text@.len(),
    ensures
        found == (text@.subrange(at as int, at + needle@.len()) == needle@),
{
    let length: usize = text.len();
    let mut i: usize = 0;
    while i < needle.len()
        invariant
            i <= needle@.len(),
            length == text@.len(),
            at + needle@.len() <= length,
            forall|j: int| 0 <= j < i ==> text@[at + j] == #[trigger] needle@[j],
        decreases needle@.len() - i,
    {
        if text[at + i] != needle[i] {
            assert(text@.subrange(at as int, at + needle@.len())[i as int] != needle@[i as int]);
            return false;
        }
        i = i + 1;
    }
    assert(text@.subrange(at as int, at + needle@.len()) =~= needle@);
    true
}

/// Tells whether `needle` occurs somewhere in `text`.
pub fn contains_text(text: &str, needle: &str) -> (found: bool)
    ensures
        found == occurs_in(needle@, text@),
{
    let text_list = characters(text);
    let needle_list = characters(needle);
    if needle_list.len() > text_list.len() {
        return false;
    }
    let last: usize = text_list.len() - needle_list.len();
    let mut at: usize = 0;
    while !stands_at(&needle_list, &text_list, at)
        invariant
            at <= last,
            last == text@.len() - needle@.len(),
            text_list@ == text@,
            needle_list@ == needle@,
            forall|i: int|
                0 <= i < at ==> #[trigger] text@.subrange(i, i + needle@.len()) != needle@,
        decreases last - at,
    {
        if at == last {
            return false;
        }
        at = at + 1;
    }
    true
}

/// The character `c` is the last one of `text`.
pub open spec fn ends_in(text: Seq<char>, c: char) -> bool {
    text.len() > 0 && text.last() == c
}

/// Tells whether `text` ends with the character `c`.
pub fn ends_with(text: &str, c: char) -> (ends: bool)
    ensures
        ends == ends_in(text@, c),
{
    let length: usize = text.unicode_len();
    length > 0 && text.get_char(length - 1) == c
}

/// The character for a digit below ten.
pub open spec fn digit(value: nat) -> char {
    ('0' as u32 + value) as char
}

/// The decimal numeral of `value`, without leading zeros.
pub open spec fn decimal(value: nat) -> Seq<char>
    decreases value,
{
    if value < 10 {
        seq![digit(value)]
    } else {
        decimal(value / 10).push(digit(value % 10))
    }
}

/// The decimal numeral of an integer, with a leading minus where it is negative.
pub open spec fn signed_decimal(value: int) -> Seq<char> {
    if value < 0 {
        seq!['-'] + decimal((-value) as nat)
    } else {
        decimal(value as nat)
    }
}

/// A numeral is never blank.
pub proof fn law_numerals_are_not_blank(value: int)
    ensures
        !blank(signed_decimal(value)),
{
    if value < 0 {
        assert(signed_decimal(value)[0] == '-');
    } else {
        let numeral = decimal(value as nat);
        lemma_numeral_ends_in_a_digit(value as nat);
        assert(!is_white_space(numeral[numeral.len() - 1]));
    }
}

proof fn lemma_numeral_ends_in_a_digit(value: nat)
    ensures
        decimal(value).len() > 0,
        decimal(value).last() == digit(value % 10),
        '0' <= digit(value % 10) <= '9',
{
}

/// Some character of the text is not white space.
pub open spec fn visible(text: Seq<char>) -> bool {
    exists|i: int| 0 <= i < text.len() && !is_white_space(#[trigger] text[i])
}

/// Text is blank exactly if it shows no character, and then trimming leaves nothing.
pub proof fn law_blank_text_shows_nothing(text: Seq<char>)
    ensures
        blank(text) <==> !visible(text),
        trimmed(text).len() == 0 <==> !visible(text),
{
    law_trim_empties_blank_text(text);
}

proof fn lemma_leading_part(text: Seq<char>) -> (lead: Seq<char>)
    ensures
        text == lead + trim_start(text),
        !visible(lead),
    decreases text.len(),
{
    if text.len() > 0 && is_white_space(text[0]) {
        let rest = lemma_leading_part(text.drop_first());
        let lead = seq![text[0]] + rest;
        assert(text =~= seq![text[0]] + text.drop_first());
        assert(text =~= lead + trim_start(text));
        assert forall|i: int| 0 <= i < lead.len() implies is_white_space(#[trigger] lead[i]) by {
            if i > 0 {
                assert(lead[i] == rest[i - 1]);
            }
        }
        lead
    } else {
        assert(text =~= Seq::empty() + text);
        Seq::empty()
    }
}

proof fn lemma_trailing_part(text: Seq<char>) -> (tail: Seq<char>)
    ensures
        text == trim_end(text) + tail,
        !visible(tail),
    decreases text.len(),
{
    if text.len() > 0 && is_white_space(text.last()) {
        let rest = lemma_trailing_part(text.drop_last());
        let tail = rest.push(text.last());
        assert(text =~= text.drop_last().push(text.last()));
        assert(text =~= trim_end(text) + tail);
        assert forall|i: int| 0 <= i < tail.len() implies is_white_space(#[trigger] tail[i]) by {
            if i < rest.len() {
                assert(tail[i] == rest[i]);
            }
        }
        tail
    } else {
        assert(text =~= text + Seq::empty());
        Seq::empty()
    }
}

/// Trimming takes white space off both ends and touches nothing else.
pub proof fn law_trim_takes_white_space_only(text: Seq<char>)
    ensures
        exists|lead: Seq<char>, tail: Seq<char>|
            text == #[trigger] (lead + trimmed(text) + tail) && !visible(lead) && !visible(tail),
{
    let lead = lemma_leading_part(text);
    let tail = lemma_trailing_part(trim_start(text));
    assert(text =~= lead + trimmed(text) + tail);
}

/// Text that shows a character is kept, as it is or trimmed; other text is dropped.
pub proof fn law_visible_text_is_kept(text: Seq<char>)
    ensures
        visible(text) ==> filled(Some(text)) == Some(text) && filled_trimmed(Some(text)) == Some(
            trimmed(text),
        ),
        !visible(text) ==> filled(Some(text)) is None && filled_trimmed(Some(text)) is None,
        filled(None) is None,
        filled_trimmed(None) is None,
{
    law_blank_text_shows_nothing(text);
}

/// Truth values are spelled `true` and `false`.
pub proof fn law_truth_is_spelled_out()
    ensures
        truth_text(true) == seq!['t', 'r', 'u', 'e'],
        truth_text(false) == seq!['f', 'a', 'l', 's', 'e'],
{
    reveal_strlit("true");
    reveal_strlit("false");
    assert(truth_text(true) =~= seq!['t', 'r', 'u', 'e']);
    assert(truth_text(false) =~= seq!['f', 'a', 'l', 's', 'e']);
}

/// Text occurs in whatever surrounds it, whatever that is.
pub proof fn law_text_occurs_where_it_is_surrounded(
    before: Seq<char>,
    needle: Seq<char>,
    after: Seq<char>,
)
    ensures
        occurs_in(needle, before + needle + after),
{
    let text = before + needle + after;
    let at = before.len() as int;
    assert(text.subrange(at, at + needle.len()) =~= needle);
}

/// Text that occurs in another is surrounded by the rest of it.
pub proof fn law_occurring_text_is_surrounded(needle: Seq<char>, text: Seq<char>)
    requires
        occurs_in(needle, text),
    ensures
        exists|before: Seq<char>, after: Seq<char>| text == #[trigger] (before + needle + after),
{
    let at = choose|at: int|
        0 <= at <= text.len() - needle.len() && #[trigger] text.subrange(at, at + needle.len())
            == needle;
    let before = text.take(at);
    let after = text.skip((at + needle.len()) as int);
    assert(text =~= before + needle + after);
}

/// Text ends in the character that was put behind it last, and in no other.
pub proof fn law_last_character_ends_the_text(text: Seq<char>, last: char, other: char)
    ensures
        ends_in(text.push(last), last),
        other != last ==> !ends_in(text.push(last), other),
        !ends_in(Seq::empty(), other),
{
}

/// The number that a numeral stands for.
pub open spec fn numeral_value(numeral: Seq<char>) -> int
    decreases numeral.len(),
{
    if numeral.len() == 0 {
        0
    } else {
        numeral_value(numeral.drop_last()) * 10 + (numeral.last() as int - '0' as int)
    }
}

/// Digits and nothing else, and no zero in front of another digit.
pub open spec fn is_numeral(text: Seq<char>) -> bool {
    &&& text.len() > 0
    &&& forall|i: int| 0 <= i < text.len() ==> '0' <= #[trigger] text[i] <= '9'
    &&& text.len() > 1 ==> text[0] != '0'
}

/// The numeral of a number is made of digits and stands for that number.
pub proof fn law_numeral_stands_for_its_number(value: nat)
    ensures
        is_numeral(decimal(value)),
        numeral_value(decimal(value)) == value,
        value > 0 ==> decimal(value)[0] != '0',
    decreases value,
{
    reveal_with_fuel(numeral_value, 2);
    lemma_numeral_ends_in_a_digit(value);
    if value < 10 {
        assert(seq![digit(value)].drop_last() =~= Seq::empty());
    } else {
        law_numeral_stands_for_its_number(value / 10);
        assert(decimal(value).drop_last() =~= decimal(value / 10));
        assert(decimal(value)[0] == decimal(value / 10)[0]);
    }
}

/// White space is what Unicode counts as such, by the code points of the property.
pub proof fn law_white_space_is_that_of_unicode(c: char)
    ensures
        is_white_space(c) <==> {
            let code = c as u32;
            ||| 9 <= code <= 13
            ||| code == 32
            ||| code == 133
            ||| code == 160
            ||| code == 5760
            ||| 8192 <= code <= 8202
            ||| code == 8232
            ||| code == 8233
            ||| code == 8239
            ||| code == 8287
            ||| code == 12288
        },
{
}

} // verus!
