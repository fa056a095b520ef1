//! The argument codec: typed call arguments to query fields.

use vstd::prelude::*;
use crate::text::{decimal, flag_text, render_flag, render_i64, render_u64, signed_decimal};

verus! {

/// The separator of a delimiter-joined list. Each endpoint fixes its own.
#[derive(Clone, Copy, Debug, PartialEq, Eq, Structural)]
pub enum Separator {
    /// `|`: peers, hashes, file indexes.
    Pipe,
    /// A line feed: tags, tracker addresses, categories.
    Newline,
    /// `,`: creating and deleting tags.
    Comma,
}

impl Separator {
    /// The separator as text: one character.
    pub open spec fn text(self) -> Seq<char> {
        match self {
            Separator::Pipe => seq!['|'],
            Separator::Newline => seq!['\n'],
            Separator::Comma => seq![','],
        }
    }

    /// The separator's character.
    pub open spec fn mark(self) -> char {
        match self {
            Separator::Pipe => '|',
            Separator::Newline => '\n',
            Separator::Comma => ',',
        }
    }

    pub fn as_str(&self) -> (r: &'static str)
        ensures
            r@ == self.text(),
    {
        proof {
            reveal_strlit("|");
            reveal_strlit("\n");
            reveal_strlit(",");
        }
        let r = match self {
            Separator::Pipe => "|",
            Separator::Newline => "\n",
            Separator::Comma => ",",
        };
        proof {
            assert(r@ =~= self.text());
        }
        r
    }
}

/// The items with the separator between each two neighbours. No items give
/// the empty text.
pub open spec fn joined(items: Seq<Seq<char>>, sep: Seq<char>) -> Seq<char>
    decreases items.len(),
{
    if items.len() == 0 {
        Seq::empty()
    } else if items.len() == 1 {
        items[0]
    } else {
        joined(items.drop_last(), sep) + sep + items.last()
    }
}

/// The pieces of a text between each two neighbouring occurrences of a
/// character, with what stands before the first and after the last: always at
/// least one piece, and one more than the text has occurrences.
pub open spec fn split(text: Seq<char>, mark: char) -> Seq<Seq<char>>
    decreases text.len(),
{
    if text.len() == 0 {
        seq![Seq::<char>::empty()]
    } else if text.last() == mark {
        split(text.drop_last(), mark).push(Seq::<char>::empty())
    } else {
        let before = split(text.drop_last(), mark);
        before.drop_last().push(before.last().push(text.last()))
    }
}

/// Whether no item holds the character.
pub open spec fn free_of(items: Seq<Seq<char>>, mark: char) -> bool {
    forall|i: int, j: int|
        0 <= i < items.len() && 0 <= j < items[i].len() ==> #[trigger] items[i][j] != mark
}

/// The text of each string of a list.
pub open spec fn texts(items: Seq<String>) -> Seq<Seq<char>> {
    Seq::new(items.len(), |i: int| items[i]@)
}

/// The decimal text of each number of a list.
pub open spec fn number_texts(items: Seq<i64>) -> Seq<Seq<char>> {
    Seq::new(items.len(), |i: int| signed_decimal(items[i] as int))
}

/// Joins strings into one delimited field.
pub fn join(items: &Vec<String>, sep: Separator) -> (r: String)
    ensures
        r@ == joined(texts(items@), sep.text()),
{
    let mut out = String::new();
    let mut i: usize = 0;
    while i < items.len()
        invariant
            i <= items@.len(),
            out@ == joined(texts(items@).take(i as int), sep.text()),
        decreases items@.len() - i,
    {
        proof {
            let next = texts(items@).take(i + 1);
            assert(next.drop_last() =~= texts(items@).take(i as int));
            assert(next.last() == items@[i as int]@);
            if i == 0 {
                assert(out@ + items@[i as int]@ =~= items@[i as int]@);
            }
        }
        if i > 0 {
            out.append(sep.as_str());
        }
        out.append(items[i].as_str());
        i = i + 1;
    }
    proof {
        assert(texts(items@).take(i as int) =~= texts(items@));
    }
    out
}

/// Joins numbers, written in decimal, into one delimited field.
pub fn join_numbers(items: &Vec<i64>, sep: Separator) -> (r: String)
    ensures
        r@ == joined(number_texts(items@), sep.text()),
{
    let mut rendered: Vec<String> = Vec::new();
    let mut i: usize = 0;
    while i < items.len()
        invariant
            i <= items@.len(),
            rendered@.len() == i,
            forall|j: int| 0 <= j < i ==> (#[trigger] rendered@[j])@ == signed_decimal(
                items@[j] as int,
            ),
        decreases items@.len() - i,
    {
        rendered.push(render_i64(items[i]));
        i = i + 1;
    }
    proof {
        assert(texts(rendered@) =~= number_texts(items@));
    }
    join(&rendered, sep)
}

/// A set of content hashes, or the sentinel that stands for every torrent.
#[derive(Debug)]
pub enum Hashes {
    /// Every torrent the daemon knows. Not the same as an empty list.
    All,
    /// These hashes, possibly none.
    Hashes(Vec<String>),
}

impl Hashes {
    /// The field value: `all`, or the hashes joined by `|`.
    pub open spec fn text(self) -> Seq<char> {
        match self {
            Hashes::All => "all"@,
            Hashes::Hashes(list) => joined(texts(list@), Separator::Pipe.text()),
        }
    }

    pub fn encode(&self) -> (r: String)
        ensures
            r@ == self.text(),
    {
        match self {
            Hashes::All => String::from_str("all"),
            Hashes::Hashes(list) => join(list, Separator::Pipe),
        }
    }
}

/// A scalar argument.
#[derive(Debug)]
pub enum Scalar {
    Text(String),
    Int(i64),
    Unsigned(u64),
    Flag(bool),
}

impl Scalar {
    /// The scalar as it is written into a field.
    pub open spec fn text(self) -> Seq<char> {
        match self {
            Scalar::Text(s) => s@,
            Scalar::Int(n) => signed_decimal(n as int),
            Scalar::Unsigned(n) => decimal(n as nat),
            Scalar::Flag(b) => flag_text(b),
        }
    }

    pub fn encode(&self) -> (r: String)
        ensures
            r@ == self.text(),
    {
        match self {
            Scalar::Text(s) => s.clone(),
            Scalar::Int(n) => render_i64(*n),
            Scalar::Unsigned(n) => render_u64(*n),
            Scalar::Flag(b) => render_flag(*b),
        }
    }
}

/// The shapes an argument can take, each with its own encoding.
#[derive(Debug)]
pub enum Arg {
    /// Always written.
    Scalar(Scalar),
    /// Written when present, left out when absent.
    OptionalScalar(Option<Scalar>),
    /// Always written, joined by the separator; no items give an empty value.
    DelimitedList(Vec<String>, Separator),
    /// As a delimited list when present, left out when absent.
    OptionalList(Option<Vec<String>>, Separator),
    /// A hash set: hashes joined by `|`, or the sentinel for all.
    HashSet(Hashes),
}

impl Arg {
    /// The value written for the argument, or none when its key is left out.
    pub open spec fn encoded(self) -> Option<Seq<char>> {
        match self {
            Arg::Scalar(s) => Some(s.text()),
            Arg::OptionalScalar(Some(s)) => Some(s.text()),
            Arg::OptionalScalar(None) => None,
            Arg::DelimitedList(items, sep) => Some(joined(texts(items@), sep.text())),
            Arg::OptionalList(Some(items), sep) => Some(joined(texts(items@), sep.text())),
            Arg::OptionalList(None, _) => None,
            Arg::HashSet(hashes) => Some(hashes.text()),
        }
    }

    pub fn encode(&self) -> (r: Option<String>)
        ensures
            text_of(r) == self.encoded(),
    {
        match self {
            Arg::Scalar(s) => Some(s.encode()),
            Arg::OptionalScalar(Some(s)) => Some(s.encode()),
            Arg::OptionalScalar(None) => None,
            Arg::DelimitedList(items, sep) => Some(join(items, *sep)),
            Arg::OptionalList(Some(items), sep) => Some(join(items, *sep)),
            Arg::OptionalList(None, _) => None,
            Arg::HashSet(hashes) => Some(hashes.encode()),
        }
    }
}

/// The text of an optional string.
pub open spec fn text_of(s: Option<String>) -> Option<Seq<char>> {
    match s {
        Some(s) => Some(s@),
        None => None,
    }
}

/// One `key=value` pair of a query.
#[derive(Debug)]
pub struct Field {
    pub key: String,
    pub value: String,
}

/// The query of a call: its fields in the order they were added.
#[derive(Debug)]
pub struct Query {
    pub fields: Vec<Field>,
}

/// The key and value of each field of a list, as text.
pub open spec fn pairs(fields: Seq<Field>) -> Seq<(Seq<char>, Seq<char>)> {
    Seq::new(fields.len(), |i: int| (fields[i].key@, fields[i].value@))
}

/// The value of the first pair with this key, if there is one.
pub open spec fn first_value(fields: Seq<(Seq<char>, Seq<char>)>, key: Seq<char>) -> Option<
    Seq<char>,
>
    decreases fields.len(),
{
    if fields.len() == 0 {
        None
    } else if fields[0].0 == key {
        Some(fields[0].1)
    } else {
        first_value(fields.drop_first(), key)
    }
}

/// Finds the value of the first field with this key.
pub fn find(fields: &Vec<Field>, key: &str) -> (r: Option<String>)
    ensures
        text_of(r) == first_value(pairs(fields@), key@),
{
    let wanted = String::from_str(key);
    let mut i: usize = 0;
    proof {
        assert(pairs(fields@).skip(0) =~= pairs(fields@));
    }
    while i < fields.len()
        invariant
            i <= fields@.len(),
            wanted@ == key@,
            first_value(pairs(fields@), key@) == first_value(pairs(fields@).skip(i as int), key@),
        decreases fields@.len() - i,
    {
        proof {
            let rest = pairs(fields@).skip(i as int);
            assert(rest[0] == (fields@[i as int].key@, fields@[i as int].value@));
            assert(rest.drop_first() =~= pairs(fields@).skip(i + 1));
        }
        if fields[i].key == wanted {
            return Some(fields[i].value.clone());
        }
        i = i + 1;
    }
    None
}

impl View for Query {
    type V = Seq<(Seq<char>, Seq<char>)>;

    open spec fn view(&self) -> Seq<(Seq<char>, Seq<char>)> {
        pairs(self.fields@)
    }
}

/// The fields that a query has after an argument is added under `key`: one
/// more where the argument is written, the same where it is left out.
pub open spec fn extended(
    fields: Seq<(Seq<char>, Seq<char>)>,
    key: Seq<char>,
    value: Option<Seq<char>>,
) -> Seq<(Seq<char>, Seq<char>)> {
    match value {
        Some(v) => fields.push((key, v)),
        None => fields,
    }
}

impl Query {
    /// The query without fields.
    pub fn new() -> (r: Query)
        ensures
            r@ == Seq::<(Seq<char>, Seq<char>)>::empty(),
    {
        let r = Query { fields: Vec::new() };
        proof {
            assert(r@ =~= Seq::<(Seq<char>, Seq<char>)>::empty());
        }
        r
    }

    /// Adds an argument under `key`, unless its encoding leaves it out.
    pub fn with(self, key: &str, arg: &Arg) -> (r: Query)
        ensures
            r@ == extended(self@, key@, arg.encoded()),
    {
        match arg.encode() {
            Some(value) => {
                let mut fields = self.fields;
                fields.push(Field { key: String::from_str(key), value });
                let r = Query { fields };
                proof {
                    assert(r@ =~= self@.push((key@, value@)));
                }
                r
            },
            None => self,
        }
    }

    /// A copy of the query, field by field.
    pub fn copy(&self) -> (r: Query)
        ensures
            r@ == self@,
    {
        let mut fields: Vec<Field> = Vec::new();
        let mut i: usize = 0;
        while i < self.fields.len()
            invariant
                i <= self.fields@.len(),
                fields@.len() == i,
                forall|j: int|
                    0 <= j < i ==> (#[trigger] fields@[j]).key@ == self.fields@[j].key@
                        && fields@[j].value@ == self.fields@[j].value@,
            decreases self.fields@.len() - i,
        {
            fields.push(
                Field { key: self.fields[i].key.clone(), value: self.fields[i].value.clone() },
            );
            i = i + 1;
        }
        let r = Query { fields };
        proof {
            assert(r@ =~= self@);
        }
        r
    }

    /// The value of the first field with this key, if there is one.
    pub fn get(&self, key: &str) -> (r: Option<String>)
        ensures
            text_of(r) == first_value(self@, key@),
    {
        find(&self.fields, key)
    }
}

/// An absent optional argument adds no field: the query is as before, so its
/// key is in the query only if it was there already.
pub proof fn lemma_absent_optional_adds_no_field(
    fields: Seq<(Seq<char>, Seq<char>)>,
    key: Seq<char>,
    sep: Separator,
)
    ensures
        extended(fields, key, Arg::OptionalScalar(None).encoded()) == fields,
        extended(fields, key, Arg::OptionalList(None, sep).encoded()) == fields,
{
}

/// A list that is not optional is always written, as one more field under its
/// key; with no items its value is the empty text.
pub proof fn lemma_list_is_always_written(
    fields: Seq<(Seq<char>, Seq<char>)>,
    key: Seq<char>,
    items: Vec<String>,
    sep: Separator,
)
    ensures
        extended(fields, key, Arg::DelimitedList(items, sep).encoded()) == fields.push(
            (key, joined(texts(items@), sep.text())),
        ),
        items@.len() == 0 ==> joined(texts(items@), sep.text()) == Seq::<char>::empty(),
{
}

/// Joining one more item puts the separator before it, unless it is the
/// first.
pub proof fn lemma_joined_push(items: Seq<Seq<char>>, item: Seq<char>, sep: Seq<char>)
    ensures
        joined(items.push(item), sep) == (if items.len() == 0 {
            item
        } else {
            joined(items, sep) + sep + item
        }),
{
    assert(items.push(item).drop_last() =~= items);
}

/// A text always splits into at least one piece.
pub proof fn lemma_split_nonempty(text: Seq<char>, mark: char)
    ensures
        split(text, mark).len() >= 1,
    decreases text.len(),
{
    if text.len() > 0 {
        lemma_split_nonempty(text.drop_last(), mark);
    }
}

/// Text without the character, put behind another text, only makes that
/// text's last piece longer.
pub proof fn lemma_split_append(text: Seq<char>, tail: Seq<char>, mark: char)
    requires
        forall|i: int| 0 <= i < tail.len() ==> tail[i] != mark,
    ensures
        split(text, mark).len() >= 1,
        split(text + tail, mark) == split(text, mark).drop_last().push(
            split(text, mark).last() + tail,
        ),
    decreases tail.len(),
{
    lemma_split_nonempty(text, mark);
    let pieces = split(text, mark);
    if tail.len() == 0 {
        assert(text + tail =~= text);
        assert(pieces.last() + tail =~= pieces.last());
        assert(pieces.drop_last().push(pieces.last()) =~= pieces);
    } else {
        let shorter = tail.drop_last();
        lemma_split_append(text, shorter, mark);
        assert((text + tail).drop_last() =~= text + shorter);
        assert((text + tail).last() == tail.last());
        let before = split(text + shorter, mark);
        assert(before.last() == pieces.last() + shorter);
        assert(before.drop_last() =~= pieces.drop_last());
        assert((pieces.last() + shorter).push(tail.last()) =~= pieces.last() + tail);
    }
}

/// Splitting gives the items back: one or more items, none of which holds the
/// separator, joined and then split at the separator, are the same items in
/// the same order. So the joined text has one separator fewer than items, none
/// leading and none trailing.
pub proof fn lemma_split_joined(items: Seq<Seq<char>>, sep: Separator)
    requires
        items.len() >= 1,
        free_of(items, sep.mark()),
    ensures
        split(joined(items, sep.text()), sep.mark()) == items,
    decreases items.len(),
{
    let mark = sep.mark();
    assert(sep.text() =~= seq![mark]);
    let last = items.last();
    assert forall|j: int| 0 <= j < last.len() implies last[j] != mark by {
        assert(items[items.len() - 1][j] != mark);
    }
    if items.len() == 1 {
        let none = Seq::<char>::empty();
        lemma_split_append(none, last, mark);
        assert(none + last =~= last);
        assert(split(none, mark) =~= seq![none]);
        assert(split(none, mark).drop_last().push(split(none, mark).last() + last) =~= items);
    } else {
        let front = items.drop_last();
        assert forall|i: int, j: int|
            0 <= i < front.len() && 0 <= j < front[i].len() implies #[trigger] front[i][j]
            != mark by {
            assert(items[i][j] != mark);
        }
        lemma_split_joined(front, sep);
        let head = joined(front, sep.text()) + sep.text();
        assert(head.drop_last() =~= joined(front, sep.text()));
        assert(head.last() == mark);
        assert(split(head, mark) == front.push(Seq::<char>::empty()));
        lemma_split_append(head, last, mark);
        assert(Seq::<char>::empty() + last =~= last);
        assert(front.push(Seq::<char>::empty()).drop_last() =~= front);
        assert(front.push(last) =~= items);
    }
}

} // verus!
