//! JSON documents and what the client looks for in them.

use crate::text::{
    blank, decimal, is_blank, is_numeral, law_blank_text_shows_nothing,
    law_numeral_stands_for_its_number, law_numerals_are_not_blank, law_trim_empties_blank_text,
    numeral_value, signed_decimal, text_of, trimmed, visible,
};
use vstd::prelude::*;

verus! {

/// A number as it is written. No numeral is blank.
#[derive(Debug)]
pub struct Numeral {
    text: String,
}

impl View for Numeral {
    type V = Seq<char>;

    /// The text of the numeral. There is no numeral with a blank text; a zero
    /// stands in for it, so that the view of every value is a numeral.
    closed spec fn view(&self) -> Seq<char> {
        if blank(self.text@) {
            seq!['0']
        } else {
            self.text@
        }
    }
}

impl Numeral {
    #[verifier::type_invariant]
    closed spec fn is_not_blank(self) -> bool {
        !blank(self.text@)
    }

    /// The numeral with this text, unless the text is blank.
    pub fn new(text: String) -> (numeral: Option<Numeral>)
        ensures
            numeral is Some <==> !blank(text@),
            numeral matches Some(numeral) ==> numeral@ == text@,
    {
        if is_blank(text.as_str()) {
            None
        } else {
            Some(Numeral { text })
        }
    }

    /// The text of the numeral.
    pub fn to_text(&self) -> (text: String)
        ensures
            text@ == self@,
            !blank(text@),
    {
        proof {
            use_type_invariant(self);
        }
        self.text.clone()
    }
}

/// A JSON number.
#[derive(Debug)]
pub enum JsonNumber {
    /// A whole number that is not negative.
    Unsigned(u64),
    /// A whole number of either sign.
    Signed(i64),
    /// Any other number, as it is written in decimal.
    Decimal(Numeral),
}

/// A JSON document.
#[derive(Debug)]
pub enum JsonValue {
    Null,
    Bool(bool),
    Number(JsonNumber),
    Text(String),
    Array(Vec<JsonValue>),
    Object(Vec<JsonMember>),
}

/// One entry of a JSON object.
#[derive(Debug)]
pub struct JsonMember {
    pub key: String,
    pub value: JsonValue,
}

impl View for JsonNumber {
    type V = Seq<char>;

    /// The number as it is written.
    open spec fn view(&self) -> Seq<char> {
        match *self {
            JsonNumber::Unsigned(value) => decimal(value as nat),
            JsonNumber::Signed(value) => signed_decimal(value as int),
            JsonNumber::Decimal(numeral) => numeral@,
        }
    }
}

/// Prints the `serde_json::Number` made from `value` through its `Display`, which
/// writes the decimal numeral of a whole number.
#[verifier::external_body]
fn print_unsigned(value: u64) -> (printed: String)
    ensures
        printed@ == decimal(value as nat),
{
    serde_json::Number::from(value).to_string()
}

/// Prints the `serde_json::Number` made from `value` through its `Display`, which
/// writes the decimal numeral of a whole number, after a minus where it is negative.
#[verifier::external_body]
fn print_signed(value: i64) -> (printed: String)
    ensures
        printed@ == signed_decimal(value as int),
{
    serde_json::Number::from(value).to_string()
}

impl JsonNumber {
    /// Writes the number in decimal.
    pub fn to_text(&self) -> (printed: String)
        ensures
            printed@ == self@,
    {
        match self {
            JsonNumber::Unsigned(value) => print_unsigned(*value),
            JsonNumber::Signed(value) => print_signed(*value),
            JsonNumber::Decimal(numeral) => numeral.to_text(),
        }
    }
}

/// What a search through a document accepts: the keys that it tries first in an
/// object, and whether it takes numbers besides text.
pub struct Wanted {
    pub keys: Seq<Seq<char>>,
    pub numbers: bool,
}

/// The position of the first member with this key.
pub open spec fn position_of(members: Seq<JsonMember>, key: Seq<char>) -> Option<int>
    decreases members.len(),
{
    if members.len() == 0 {
        None
    } else {
        match position_of(members.drop_last(), key) {
            Some(at) => Some(at),
            None => if members.last().key@ == key {
                Some(members.len() - 1)
            } else {
                None
            },
        }
    }
}

/// What a search finds in a document. Text that is not blank is found as it is,
/// a number, where it is wanted, as it is written. In an object the members with
/// a preferred key come first, in the order of preference, then all members in
/// their order; in an array the elements in their order. The first thing found
/// is the answer.
pub open spec fn search(value: JsonValue, wanted: Wanted) -> Option<Seq<char>>
    decreases value, 1nat, 0int,
{
    match value {
        JsonValue::Text(text) => if blank(text@) {
            None
        } else {
            Some(text@)
        },
        JsonValue::Number(number) => if wanted.numbers {
            Some(number@)
        } else {
            None
        },
        JsonValue::Object(members) => match search_keys(value, wanted, 0) {
            Some(found) => Some(found),
            None => search_members(value, wanted, 0),
        },
        JsonValue::Array(items) => search_items(value, wanted, 0),
        _ => None,
    }
}

/// What a search finds under the preferred keys of an object, from the one at `rank` on.
pub open spec fn search_keys(object: JsonValue, wanted: Wanted, rank: nat) -> Option<Seq<char>>
    decreases object, 0nat, wanted.keys.len() - rank,
{
    match object {
        JsonValue::Object(members) => if rank < wanted.keys.len() {
            let found = match position_of(members@, wanted.keys[rank as int]) {
                Some(at) if 0 <= at < members@.len() => search(members@[at].value, wanted),
                _ => None,
            };
            if found is Some {
                found
            } else {
                search_keys(object, wanted, rank + 1)
            }
        } else {
            None
        },
        _ => None,
    }
}

/// What a search finds in the members of an object, from the one at `from` on.
pub open spec fn search_members(object: JsonValue, wanted: Wanted, from: nat) -> Option<Seq<char>>
    decreases
            object,
            0nat,
            (match object {
                JsonValue::Object(members) => members@.len() - from,
                _ => 0,
            }),
{
    match object {
        JsonValue::Object(members) => if from < members@.len() {
            let found = search(members@[from as int].value, wanted);
            if found is Some {
                found
            } else {
                search_members(object, wanted, from + 1)
            }
        } else {
            None
        },
        _ => None,
    }
}

/// What a search finds in the elements of an array, from the one at `from` on.
pub open spec fn search_items(array: JsonValue, wanted: Wanted, from: nat) -> Option<Seq<char>>
    decreases
            array,
            0nat,
            (match array {
                JsonValue::Array(items) => items@.len() - from,
                _ => 0,
            }),
{
    match array {
        JsonValue::Array(items) => if from < items@.len() {
            let found = search(items@[from as int], wanted);
            if found is Some {
                found
            } else {
                search_items(array, wanted, from + 1)
            }
        } else {
            None
        },
        _ => None,
    }
}

/// The views of a list of keys.
pub open spec fn texts(keys: Seq<&'static str>) -> Seq<Seq<char>> {
    Seq::new(keys.len(), |i: int| keys[i]@)
}

/// The first member with this key.
fn member<'a>(members: &'a Vec<JsonMember>, key: &str) -> (found: Option<&'a JsonValue>)
    ensures
        match position_of(members@, key@) {
            Some(at) => 0 <= at < members@.len() && found == Some(&members@[at].value),
            None => found is None,
        },
{
    let sought: String = key.to_owned();
    let mut at: usize = 0;
    while at < members.len()
        invariant
            at <= members@.len(),
            sought@ == key@,
            position_of(members@.take(at as int), key@) is None,
        decreases members@.len() - at,
    {
        assert(members@.take(at + 1).drop_last() =~= members@.take(at as int));
        if members[at].key == sought {
            proof {
                lemma_position_of_prefix(members@, key@, at + 1);
            }
            return Some(&members[at].value);
        }
        at = at + 1;
    }
    assert(members@.take(at as int) =~= members@);
    None
}

proof fn lemma_position_of_prefix(members: Seq<JsonMember>, key: Seq<char>, length: int)
    requires
        0 <= length <= members.len(),
        position_of(members.take(length), key) is Some,
    ensures
        position_of(members, key) == position_of(members.take(length), key),
    decreases members.len(),
{
    if length < members.len() {
        assert(members.drop_last().take(length) =~= members.take(length));
        lemma_position_of_prefix(members.drop_last(), key, length);
    } else {
        assert(members.take(length) =~= members);
    }
}

/// Searches a document.
fn find(value: &JsonValue, keys: &Vec<&'static str>, numbers: bool) -> (found: Option<String>)
    ensures
        text_of(found) == search(*value, (Wanted { keys: texts(keys@), numbers })),
    decreases value,
{
    let ghost wanted = Wanted { keys: texts(keys@), numbers };
    match value {
        JsonValue::Text(text) => if is_blank(text.as_str()) {
            None
        } else {
            Some(text.clone())
        },
        JsonValue::Number(number) => if numbers {
            Some(number.to_text())
        } else {
            None
        },
        JsonValue::Object(members) => {
            let mut rank: usize = 0;
            while rank < keys.len()
                invariant
                    rank <= keys@.len(),
                    wanted == (Wanted { keys: texts(keys@), numbers }),
                    *value == JsonValue::Object(*members),
                    search_keys(*value, wanted, 0) == search_keys(*value, wanted, rank as nat),
                decreases keys@.len() - rank,
            {
                if let Some(entry) = member(members, keys[rank]) {
                    let found = find(entry, keys, numbers);
                    if found.is_some() {
                        return found;
                    }
                }
                rank = rank + 1;
            }
            let mut at: usize = 0;
            while at < members.len()
                invariant
                    at <= members@.len(),
                    wanted == (Wanted { keys: texts(keys@), numbers }),
                    *value == JsonValue::Object(*members),
                    search(*value, wanted) == search_members(*value, wanted, at as nat),
                decreases members@.len() - at,
            {
                let found = find(&members[at].value, keys, numbers);
                if found.is_some() {
                    return found;
                }
                at = at + 1;
            }
            None
        },
        JsonValue::Array(items) => {
            let mut at: usize = 0;
            while at < items.len()
                invariant
                    at <= items@.len(),
                    wanted == (Wanted { keys: texts(keys@), numbers }),
                    *value == JsonValue::Array(*items),
                    search(*value, wanted) == search_items(*value, wanted, at as nat),
                decreases items@.len() - at,
            {
                let found = find(&items[at], keys, numbers);
                if found.is_some() {
                    return found;
                }
                at = at + 1;
            }
            None
        },
        _ => None,
    }
}

/// The search for a torrent id.
pub open spec fn id_wanted() -> Wanted {
    Wanted { keys: seq!["torrent_id"@, "torrentId"@, "id"@, "torrentID"@], numbers: true }
}

/// The search for a download link.
pub open spec fn link_wanted() -> Wanted {
    Wanted {
        keys: seq!["download_link"@, "downloadLink"@, "link"@, "url"@, "data"@],
        numbers: false,
    }
}

/// Looks for a torrent id in the data of an answer.
pub fn extract_torrent_id(value: &JsonValue) -> (id: Option<String>)
    ensures
        text_of(id) == search(*value, id_wanted()),
        id matches Some(id) ==> !blank(id@) && holds(*value, true, id@),
{
    proof {
        law_search_is_sound(*value, id_wanted());
        law_found_text_is_not_blank(*value, id_wanted());
    }
    let keys = vec!["torrent_id", "torrentId", "id", "torrentID"];
    assert(texts(keys@) =~= id_wanted().keys);
    find(value, &keys, true)
}

/// Looks for a download link in the data of an answer.
pub fn extract_download_link(value: Option<&JsonValue>) -> (link: Option<String>)
    ensures
        text_of(link) == match value {
            Some(value) => search(*value, link_wanted()),
            None => None,
        },
        link matches Some(link) ==> !blank(link@) && value is Some && holds(
            *value->Some_0,
            false,
            link@,
        ),
{
    match value {
        Some(value) => {
            proof {
                law_search_is_sound(*value, link_wanted());
                law_found_text_is_not_blank(*value, link_wanted());
            }
            let keys = vec!["download_link", "downloadLink", "link", "url", "data"];
            assert(texts(keys@) =~= link_wanted().keys);
            find(value, &keys, false)
        },
        None => None,
    }
}

/// `text` is the content of some text in the document that is not blank, or,
/// where `numbers` count too, some number of it as it is written.
pub open spec fn holds(value: JsonValue, numbers: bool, text: Seq<char>) -> bool
    decreases value,
{
    match value {
        JsonValue::Text(content) => !blank(content@) && content@ == text,
        JsonValue::Number(number) => numbers && number@ == text,
        JsonValue::Object(members) => exists|i: int|
            0 <= i < members@.len() && holds((#[trigger] members@[i]).value, numbers, text),
        JsonValue::Array(items) => exists|i: int|
            0 <= i < items@.len() && holds(#[trigger] items@[i], numbers, text),
        _ => false,
    }
}

proof fn lemma_position_of_names_a_member(members: Seq<JsonMember>, key: Seq<char>)
    ensures
        position_of(members, key) matches Some(at) ==> 0 <= at < members.len() && members[at].key@
            == key && (forall|i: int| 0 <= i < at ==> (#[trigger] members[i]).key@ != key),
        position_of(members, key) is None ==> (forall|i: int|
            0 <= i < members.len() ==> (#[trigger] members[i]).key@ != key),
    decreases members.len(),
{
    if members.len() > 0 {
        let front = members.drop_last();
        lemma_position_of_names_a_member(front, key);
        assert forall|i: int| 0 <= i < front.len() implies front[i] == #[trigger] members[i] by {}
    }
}

/// No two members have the same key, as in every object that was read from JSON.
pub open spec fn distinct_keys(members: Seq<JsonMember>) -> bool {
    forall|i: int, j: int|
        0 <= i < j < members.len() ==> (#[trigger] members[i]).key@ != (
        #[trigger] members[j]).key@
}

/// Where keys are distinct, each names its one member, wherever that stands.
pub proof fn law_key_names_its_member(members: Seq<JsonMember>, at: int)
    requires
        distinct_keys(members),
        0 <= at < members.len(),
    ensures
        position_of(members, members[at].key@) == Some(at),
{
    lemma_position_of_names_a_member(members, members[at].key@);
}

/// A search invents nothing: what it finds stands in the document.
pub proof fn law_search_is_sound(value: JsonValue, wanted: Wanted)
    ensures
        search(value, wanted) matches Some(text) ==> holds(value, wanted.numbers, text),
    decreases value, 1nat, 0int,
{
    match value {
        JsonValue::Object(members) => {
            lemma_keys_sound(value, wanted, 0);
            lemma_members_sound(value, wanted, 0);
        },
        JsonValue::Array(items) => {
            lemma_items_sound(value, wanted, 0);
        },
        _ => {},
    }
}

proof fn lemma_keys_sound(object: JsonValue, wanted: Wanted, rank: nat)
    ensures
        search_keys(object, wanted, rank) matches Some(text) ==> holds(
            object,
            wanted.numbers,
            text,
        ),
    decreases object, 0nat, wanted.keys.len() - rank,
{
    if let JsonValue::Object(members) = object {
        if rank < wanted.keys.len() {
            lemma_position_of_names_a_member(members@, wanted.keys[rank as int]);
            if let Some(at) = position_of(members@, wanted.keys[rank as int]) {
                law_search_is_sound(members@[at].value, wanted);
            }
            lemma_keys_sound(object, wanted, rank + 1);
        }
    }
}

proof fn lemma_members_sound(object: JsonValue, wanted: Wanted, from: nat)
    ensures
        search_members(object, wanted, from) matches Some(text) ==> holds(
            object,
            wanted.numbers,
            text,
        ),
    decreases
            object,
            0nat,
            (match object {
                JsonValue::Object(members) => members@.len() - from,
                _ => 0,
            }),
{
    if let JsonValue::Object(members) = object {
        if from < members@.len() {
            law_search_is_sound(members@[from as int].value, wanted);
            lemma_members_sound(object, wanted, from + 1);
        }
    }
}

proof fn lemma_items_sound(array: JsonValue, wanted: Wanted, from: nat)
    ensures
        search_items(array, wanted, from) matches Some(text) ==> holds(
            array,
            wanted.numbers,
            text,
        ),
    decreases
            array,
            0nat,
            (match array {
                JsonValue::Array(items) => items@.len() - from,
                _ => 0,
            }),
{
    if let JsonValue::Array(items) = array {
        if from < items@.len() {
            law_search_is_sound(items@[from as int], wanted);
            lemma_items_sound(array, wanted, from + 1);
        }
    }
}

/// A search overlooks nothing: it comes back empty only from a document in which
/// there is nothing to find, however deep.
pub proof fn law_search_is_complete(value: JsonValue, wanted: Wanted, text: Seq<char>)
    requires
        holds(value, wanted.numbers, text),
    ensures
        search(value, wanted) is Some,
    decreases value,
{
    match value {
        JsonValue::Object(members) => {
            let i = choose|i: int|
                0 <= i < members@.len() && holds(
                    (#[trigger] members@[i]).value,
                    wanted.numbers,
                    text,
                );
            law_search_is_complete(members@[i].value, wanted, text);
            lemma_members_reached(value, wanted, 0, i as nat);
        },
        JsonValue::Array(items) => {
            let i = choose|i: int|
                0 <= i < items@.len() && holds(#[trigger] items@[i], wanted.numbers, text);
            law_search_is_complete(items@[i], wanted, text);
            lemma_items_reached(value, wanted, 0, i as nat);
        },
        _ => {},
    }
}

proof fn lemma_members_reached(object: JsonValue, wanted: Wanted, from: nat, at: nat)
    requires
        object matches JsonValue::Object(members) && from <= at < members@.len() && search(
            members@[at as int].value,
            wanted,
        ) is Some,
    ensures
        search_members(object, wanted, from) is Some,
    decreases at - from,
{
    if from < at {
        lemma_members_reached(object, wanted, from + 1, at);
    }
}

proof fn lemma_items_reached(array: JsonValue, wanted: Wanted, from: nat, at: nat)
    requires
        array matches JsonValue::Array(items) && from <= at < items@.len() && search(
            items@[at as int],
            wanted,
        ) is Some,
    ensures
        search_items(array, wanted, from) is Some,
    decreases at - from,
{
    if from < at {
        lemma_items_reached(array, wanted, from + 1, at);
    }
}

/// What is found is never blank.
pub proof fn law_found_text_is_not_blank(value: JsonValue, wanted: Wanted)
    ensures
        search(value, wanted) matches Some(text) ==> !blank(text) && trimmed(text).len() > 0,
{
    law_search_is_sound(value, wanted);
    if let Some(text) = search(value, wanted) {
        lemma_held_text_is_not_blank(value, wanted.numbers, text);
        law_trim_empties_blank_text(text);
    }
}

/// Text that is not blank is found as it stands, to the last character.
pub proof fn law_text_is_found_verbatim(text: String, wanted: Wanted)
    requires
        !blank(text@),
    ensures
        search(JsonValue::Text(text), wanted) == Some(text@),
{
}

proof fn lemma_held_text_is_not_blank(value: JsonValue, numbers: bool, text: Seq<char>)
    requires
        holds(value, numbers, text),
    ensures
        !blank(text),
    decreases value,
{
    match value {
        JsonValue::Number(number) => law_numbers_are_not_blank(number),
        JsonValue::Object(members) => {
            let i = choose|i: int|
                0 <= i < members@.len() && holds((#[trigger] members@[i]).value, numbers, text);
            lemma_held_text_is_not_blank(members@[i].value, numbers, text);
        },
        JsonValue::Array(items) => {
            let i = choose|i: int|
                0 <= i < items@.len() && holds(#[trigger] items@[i], numbers, text);
            lemma_held_text_is_not_blank(items@[i], numbers, text);
        },
        _ => {},
    }
}

/// A number is never written as blank text.
pub proof fn law_numbers_are_not_blank(number: JsonNumber)
    ensures
        !blank(number@),
{
    match number {
        JsonNumber::Unsigned(value) => law_numerals_are_not_blank(value as int),
        JsonNumber::Signed(value) => law_numerals_are_not_blank(value as int),
        JsonNumber::Decimal(numeral) => {
            if blank(numeral.text@) {
                assert(numeral@[0] == '0');
            }
        },
    }
}

/// What a search finds in the first member with this key.
pub open spec fn found_under(
    members: Seq<JsonMember>,
    wanted: Wanted,
    key: Seq<char>,
) -> Option<Seq<char>> {
    match position_of(members, key) {
        Some(at) => search(members[at].value, wanted),
        None => None,
    }
}

/// In an object the most preferred key that leads to anything decides, whatever
/// the other members hold.
pub proof fn law_preferred_key_decides(members: Vec<JsonMember>, wanted: Wanted, rank: int)
    requires
        0 <= rank < wanted.keys.len(),
        found_under(members@, wanted, wanted.keys[rank]) is Some,
        forall|i: int|
            0 <= i < rank ==> found_under(members@, wanted, #[trigger] wanted.keys[i]) is None,
    ensures
        search(JsonValue::Object(members), wanted) == found_under(
            members@,
            wanted,
            wanted.keys[rank],
        ),
{
    lemma_keys_skipped(members, wanted, 0, rank as nat);
    lemma_position_of_names_a_member(members@, wanted.keys[rank]);
}

proof fn lemma_keys_skipped(members: Vec<JsonMember>, wanted: Wanted, from: nat, rank: nat)
    requires
        from <= rank < wanted.keys.len(),
        forall|i: int|
            from <= i < rank ==> found_under(members@, wanted, #[trigger] wanted.keys[i]) is None,
    ensures
        search_keys(JsonValue::Object(members), wanted, from) == search_keys(
            JsonValue::Object(members),
            wanted,
            rank,
        ),
    decreases rank - from,
{
    if from < rank {
        lemma_position_of_names_a_member(members@, wanted.keys[from as int]);
        lemma_keys_skipped(members, wanted, from + 1, rank);
    }
}

/// The member at `at` is the first with this key.
pub open spec fn first_named(members: Seq<JsonMember>, key: Seq<char>, at: int) -> bool {
    &&& 0 <= at < members.len()
    &&& members[at].key@ == key
    &&& forall|i: int| 0 <= i < at ==> (#[trigger] members[i]).key@ != key
}

proof fn lemma_position_is_the_first(members: Seq<JsonMember>, key: Seq<char>, at: int)
    requires
        first_named(members, key, at),
    ensures
        position_of(members, key) == Some(at),
{
    lemma_position_of_names_a_member(members, key);
}

proof fn lemma_no_key_leads(members: Vec<JsonMember>, wanted: Wanted, from: nat)
    requires
        forall|i: int|
            0 <= i < wanted.keys.len() ==> found_under(
                members@,
                wanted,
                #[trigger] wanted.keys[i],
            ) is None,
    ensures
        search_keys(JsonValue::Object(members), wanted, from) is None,
    decreases wanted.keys.len() - from,
{
    if from < wanted.keys.len() {
        lemma_position_of_names_a_member(members@, wanted.keys[from as int]);
        lemma_no_key_leads(members, wanted, from + 1);
    }
}

proof fn lemma_first_member_found(members: Vec<JsonMember>, wanted: Wanted, from: nat, at: nat)
    requires
        from <= at < members@.len(),
        search(members@[at as int].value, wanted) is Some,
        forall|j: int|
            from <= j < at ==> search((#[trigger] members@[j]).value, wanted) is None,
    ensures
        search_members(JsonValue::Object(members), wanted, from) == search(
            members@[at as int].value,
            wanted,
        ),
    decreases at - from,
{
    if from < at {
        lemma_first_member_found(members, wanted, from + 1, at);
    }
}

proof fn lemma_first_item_found(items: Vec<JsonValue>, wanted: Wanted, from: nat, at: nat)
    requires
        from <= at < items@.len(),
        search(items@[at as int], wanted) is Some,
        forall|j: int| from <= j < at ==> search(#[trigger] items@[j], wanted) is None,
    ensures
        search_items(JsonValue::Array(items), wanted, from) == search(items@[at as int], wanted),
    decreases at - from,
{
    if from < at {
        lemma_first_item_found(items, wanted, from + 1, at);
    }
}

/// Text is an id and a link as it stands if it shows a character, and neither if not.
/// A number is an id as it is written, and no link. Nothing else is either by itself.
pub proof fn law_text_and_numbers_are_taken_as_written(
    text: String,
    number: JsonNumber,
    truth: bool,
)
    ensures
        visible(text@) ==> search(JsonValue::Text(text), id_wanted()) == Some(text@) && search(
            JsonValue::Text(text),
            link_wanted(),
        ) == Some(text@),
        !visible(text@) ==> search(JsonValue::Text(text), id_wanted()) is None && search(
            JsonValue::Text(text),
            link_wanted(),
        ) is None,
        search(JsonValue::Number(number), id_wanted()) == Some(number@),
        search(JsonValue::Number(number), link_wanted()) is None,
        search(JsonValue::Bool(truth), id_wanted()) is None,
        search(JsonValue::Bool(truth), link_wanted()) is None,
        search(JsonValue::Null, id_wanted()) is None,
        search(JsonValue::Null, link_wanted()) is None,
{
    law_blank_text_shows_nothing(text@);
}

/// An array gives what its first element gives that gives anything.
pub proof fn law_first_element_decides(items: Vec<JsonValue>, wanted: Wanted, at: int)
    requires
        0 <= at < items@.len(),
        search(items@[at], wanted) is Some,
        forall|j: int| 0 <= j < at ==> search(#[trigger] items@[j], wanted) is None,
    ensures
        search(JsonValue::Array(items), wanted) == search(items@[at], wanted),
{
    lemma_first_item_found(items, wanted, 0, at as nat);
}

/// An array or an object gives nothing if no element or member gives anything.
pub proof fn law_nothing_comes_of_nothing(
    items: Vec<JsonValue>,
    members: Vec<JsonMember>,
    wanted: Wanted,
)
    ensures
        (forall|j: int| 0 <= j < items@.len() ==> search(#[trigger] items@[j], wanted) is None)
            ==> search(JsonValue::Array(items), wanted) is None,
        (forall|j: int|
            0 <= j < members@.len() ==> search((#[trigger] members@[j]).value, wanted) is None)
            ==> search(JsonValue::Object(members), wanted) is None,
{
    if forall|j: int| 0 <= j < items@.len() ==> search(#[trigger] items@[j], wanted) is None {
        lemma_no_item_found(items, wanted, 0);
    }
    if forall|j: int|
        0 <= j < members@.len() ==> search((#[trigger] members@[j]).value, wanted) is None {
        assert forall|i: int| 0 <= i < wanted.keys.len() implies found_under(
            members@,
            wanted,
            #[trigger] wanted.keys[i],
        ) is None by {
            lemma_position_of_names_a_member(members@, wanted.keys[i]);
        }
        lemma_no_key_leads(members, wanted, 0);
        lemma_no_member_found(members, wanted, 0);
    }
}

proof fn lemma_no_item_found(items: Vec<JsonValue>, wanted: Wanted, from: nat)
    requires
        forall|j: int| 0 <= j < items@.len() ==> search(#[trigger] items@[j], wanted) is None,
    ensures
        search_items(JsonValue::Array(items), wanted, from) is None,
    decreases items@.len() - from,
{
    if from < items@.len() {
        lemma_no_item_found(items, wanted, from + 1);
    }
}

proof fn lemma_no_member_found(members: Vec<JsonMember>, wanted: Wanted, from: nat)
    requires
        forall|j: int|
            0 <= j < members@.len() ==> search((#[trigger] members@[j]).value, wanted) is None,
    ensures
        search_members(JsonValue::Object(members), wanted, from) is None,
    decreases members@.len() - from,
{
    if from < members@.len() {
        lemma_no_member_found(members, wanted, from + 1);
    }
}

/// In an object the id of a torrent is looked for under `torrent_id`, `torrentId`, `id`
/// and `torrentID`, in this order: the first of these keys that leads to anything
/// decides, whatever the other members hold.
pub proof fn law_id_keys_decide(
    members: Vec<JsonMember>,
    keys: Seq<Seq<char>>,
    rank: int,
    at: int,
)
    requires
        keys == seq!["torrent_id"@, "torrentId"@, "id"@, "torrentID"@],
        0 <= rank < keys.len(),
        first_named(members@, keys[rank], at),
        search(members@[at].value, id_wanted()) is Some,
        forall|earlier: int, j: int|
            0 <= earlier < rank && #[trigger] first_named(members@, keys[earlier], j)
                ==> search(members@[j].value, id_wanted()) is None,
    ensures
        search(JsonValue::Object(members), id_wanted()) == search(
            members@[at].value,
            id_wanted(),
        ),
{
    assert(id_wanted().keys =~= keys);
    assert forall|i: int| 0 <= i < rank implies found_under(
        members@,
        id_wanted(),
        #[trigger] id_wanted().keys[i],
    ) is None by {
        lemma_position_of_names_a_member(members@, keys[i]);
        if let Some(j) = position_of(members@, keys[i]) {
            assert(first_named(members@, keys[i], j));
        }
    }
    lemma_position_is_the_first(members@, keys[rank], at);
    law_preferred_key_decides(members, id_wanted(), rank);
}

/// In an object in which none of these keys leads to anything, the first member that
/// does decides, under whatever key, in the order of the members.
pub proof fn law_id_is_found_under_any_key(members: Vec<JsonMember>, at: int)
    requires
        0 <= at < members@.len(),
        forall|j: int|
            0 <= j < members@.len() && (members@[j].key@ == "torrent_id"@
                || members@[j].key@ == "torrentId"@
                || members@[j].key@ == "id"@
                || members@[j].key@ == "torrentID"@) ==> search(
                (#[trigger] members@[j]).value,
                id_wanted(),
            ) is None,
        forall|j: int|
            0 <= j < at ==> search((#[trigger] members@[j]).value, id_wanted()) is None,
        search(members@[at].value, id_wanted()) is Some,
    ensures
        search(JsonValue::Object(members), id_wanted()) == search(
            members@[at].value,
            id_wanted(),
        ),
{
    let keys = seq!["torrent_id"@, "torrentId"@, "id"@, "torrentID"@];
    assert(id_wanted().keys =~= keys);
    assert forall|i: int| 0 <= i < id_wanted().keys.len() implies found_under(
        members@,
        id_wanted(),
        #[trigger] id_wanted().keys[i],
    ) is None by {
        lemma_position_of_names_a_member(members@, keys[i]);
    }
    lemma_no_key_leads(members, id_wanted(), 0);
    lemma_first_member_found(members, id_wanted(), 0, at as nat);
}

/// In an object the link is looked for under `download_link`, `downloadLink`, `link`,
/// `url` and `data`, in this order: the first of these keys that leads to anything
/// decides, whatever the other members hold.
pub proof fn law_link_keys_decide(
    members: Vec<JsonMember>,
    keys: Seq<Seq<char>>,
    rank: int,
    at: int,
)
    requires
        keys == seq!["download_link"@, "downloadLink"@, "link"@, "url"@, "data"@],
        0 <= rank < keys.len(),
        first_named(members@, keys[rank], at),
        search(members@[at].value, link_wanted()) is Some,
        forall|earlier: int, j: int|
            0 <= earlier < rank && #[trigger] first_named(members@, keys[earlier], j)
                ==> search(members@[j].value, link_wanted()) is None,
    ensures
        search(JsonValue::Object(members), link_wanted()) == search(
            members@[at].value,
            link_wanted(),
        ),
{
    assert(link_wanted().keys =~= keys);
    assert forall|i: int| 0 <= i < rank implies found_under(
        members@,
        link_wanted(),
        #[trigger] link_wanted().keys[i],
    ) is None by {
        lemma_position_of_names_a_member(members@, keys[i]);
        if let Some(j) = position_of(members@, keys[i]) {
            assert(first_named(members@, keys[i], j));
        }
    }
    lemma_position_is_the_first(members@, keys[rank], at);
    law_preferred_key_decides(members, link_wanted(), rank);
}

/// In an object in which none of these keys leads to anything, the first member that
/// does decides, under whatever key, in the order of the members.
pub proof fn law_link_is_found_under_any_key(members: Vec<JsonMember>, at: int)
    requires
        0 <= at < members@.len(),
        forall|j: int|
            0 <= j < members@.len() && (members@[j].key@ == "download_link"@
                || members@[j].key@ == "downloadLink"@
                || members@[j].key@ == "link"@
                || members@[j].key@ == "url"@
                || members@[j].key@ == "data"@) ==> search(
                (#[trigger] members@[j]).value,
                link_wanted(),
            ) is None,
        forall|j: int|
            0 <= j < at ==> search((#[trigger] members@[j]).value, link_wanted()) is None,
        search(members@[at].value, link_wanted()) is Some,
    ensures
        search(JsonValue::Object(members), link_wanted()) == search(
            members@[at].value,
            link_wanted(),
        ),
{
    let keys = seq!["download_link"@, "downloadLink"@, "link"@, "url"@, "data"@];
    assert(link_wanted().keys =~= keys);
    assert forall|i: int| 0 <= i < link_wanted().keys.len() implies found_under(
        members@,
        link_wanted(),
        #[trigger] link_wanted().keys[i],
    ) is None by {
        lemma_position_of_names_a_member(members@, keys[i]);
    }
    lemma_no_key_leads(members, link_wanted(), 0);
    lemma_first_member_found(members, link_wanted(), 0, at as nat);
}

/// A number or a visible text under `torrent_id` is the id, whatever other members
/// there are.
pub proof fn law_torrent_id_is_the_id(members: Vec<JsonMember>, at: int, id: Seq<char>)
    requires
        first_named(members@, "torrent_id"@, at),
        match members@[at].value {
            JsonValue::Number(number) => id == number@,
            JsonValue::Text(text) => id == text@ && visible(id),
            _ => false,
        },
    ensures
        search(JsonValue::Object(members), id_wanted()) == Some(id),
{
    match members@[at].value {
        JsonValue::Number(number) => {
            law_text_and_numbers_are_taken_as_written(arbitrary(), number, true);
        },
        JsonValue::Text(text) => {
            law_text_and_numbers_are_taken_as_written(text, arbitrary(), true);
        },
        _ => {},
    }
    let keys = seq!["torrent_id"@, "torrentId"@, "id"@, "torrentID"@];
    law_id_keys_decide(members, keys, 0, at);
}

/// Visible text under `download_link` is the link, whatever other members there are.
pub proof fn law_download_link_is_the_link(members: Vec<JsonMember>, at: int, text: String)
    requires
        first_named(members@, "download_link"@, at),
        members@[at].value == JsonValue::Text(text),
        visible(text@),
    ensures
        search(JsonValue::Object(members), link_wanted()) == Some(text@),
{
    law_text_and_numbers_are_taken_as_written(text, arbitrary(), true);
    let keys = seq!["download_link"@, "downloadLink"@, "link"@, "url"@, "data"@];
    law_link_keys_decide(members, keys, 0, at);
}

/// A whole number is written in digits that stand for it, behind a minus where it is
/// negative; any other number is written as it was.
pub proof fn law_numbers_are_written_in_decimal(
    unsigned: u64,
    signed: i64,
    numeral: Numeral,
)
    ensures
        is_numeral(JsonNumber::Unsigned(unsigned)@),
        numeral_value(JsonNumber::Unsigned(unsigned)@) == unsigned,
        signed >= 0 ==> is_numeral(JsonNumber::Signed(signed)@) && numeral_value(
            JsonNumber::Signed(signed)@,
        ) == signed,
        signed < 0 ==> JsonNumber::Signed(signed)@.len() > 0 && JsonNumber::Signed(signed)@[0]
            == '-' && is_numeral(JsonNumber::Signed(signed)@.skip(1)) && numeral_value(
            JsonNumber::Signed(signed)@.skip(1),
        ) == -signed,
        JsonNumber::Decimal(numeral)@ == numeral@,
{
    law_numeral_stands_for_its_number(unsigned as nat);
    if signed >= 0 {
        law_numeral_stands_for_its_number(signed as nat);
    } else {
        let size = (-signed) as nat;
        law_numeral_stands_for_its_number(size);
        assert(JsonNumber::Signed(signed)@.skip(1) =~= decimal(size));
    }
}

} // verus!
