//! The log entry that the logging service accepts, and its form as one
//! string of keys and values.
use crate::names::texts;
use vstd::prelude::*;
use vstd::string::*;

verus! {

/// A log entry. Each part may be absent.
#[derive(Debug, Clone, PartialEq)]
pub struct InlineObject {
    pub text: Option<String>,
    pub target: Option<String>,
    pub level: Option<String>,
}

/// A log entry, by the characters of its parts.
pub struct InlineObjectView {
    pub text: Option<Seq<char>>,
    pub target: Option<Seq<char>>,
    pub level: Option<Seq<char>>,
}

/// The characters of an optional string.
pub open spec fn part(s: Option<String>) -> Option<Seq<char>> {
    match s {
        Some(s) => Some(s@),
        None => None,
    }
}

impl View for InlineObject {
    type V = InlineObjectView;

    open spec fn view(&self) -> InlineObjectView {
        InlineObjectView {
            text: part(self.text),
            target: part(self.target),
            level: part(self.level),
        }
    }
}

/// `parts` with a comma between each two neighbours.
pub open spec fn join_commas(parts: Seq<Seq<char>>) -> Seq<char>
    decreases parts.len(),
{
    if parts.len() == 0 {
        Seq::empty()
    } else if parts.len() == 1 {
        parts[0]
    } else {
        join_commas(parts.drop_last()) + seq![','] + parts.last()
    }
}

/// The fields of `s`: the stretches between its commas. A string without a
/// comma is one field, the empty string too.
pub open spec fn split_commas(s: Seq<char>) -> Seq<Seq<char>>
    decreases s.len(),
{
    if s.len() == 0 {
        seq![Seq::empty()]
    } else {
        let before = split_commas(s.drop_last());
        if s.last() == ',' {
            before.push(Seq::empty())
        } else {
            before.update(before.len() - 1, before.last().push(s.last()))
        }
    }
}

/// Why a string is no log entry.
pub open spec fn missing_value() -> Seq<char> {
    "Missing value while parsing InlineObject"@
}

/// Why a string is no log entry.
pub open spec fn unexpected_key() -> Seq<char> {
    "Unexpected key while parsing InlineObject"@
}

impl InlineObjectView {
    /// The keys and values of the entry in the order `text`, `target`,
    /// `level`, each key followed by its value, without the parts that are
    /// absent.
    pub open spec fn params(self) -> Seq<Seq<char>> {
        (match self.text {
            Some(text) => seq!["text"@, text],
            None => Seq::empty(),
        }) + (match self.target {
            Some(target) => seq!["target"@, target],
            None => Seq::empty(),
        }) + (match self.level {
            Some(level) => seq!["level"@, level],
            None => Seq::empty(),
        })
    }

    /// The entry with `value` for the part `key`, unless it has that part.
    pub open spec fn with(self, key: Seq<char>, value: Seq<char>) -> InlineObjectView {
        if key == "text"@ {
            InlineObjectView {
                text: if self.text is Some {
                    self.text
                } else {
                    Some(value)
                },
                ..self
            }
        } else if key == "target"@ {
            InlineObjectView {
                target: if self.target is Some {
                    self.target
                } else {
                    Some(value)
                },
                ..self
            }
        } else {
            InlineObjectView {
                level: if self.level is Some {
                    self.level
                } else {
                    Some(value)
                },
                ..self
            }
        }
    }

    /// Whether `key` names a part of an entry.
    pub open spec fn is_key(key: Seq<char>) -> bool {
        key == "text"@ || key == "target"@ || key == "level"@
    }

    /// Reads `fields` as keys and values in turn, on top of the entry
    /// `self`. Of two values for one key the first counts. A key without a
    /// value is an error, and so is a key that names no part; of the two,
    /// the one that comes first in `fields` is reported, and the missing
    /// value where both are at the same key.
    pub open spec fn read(self, fields: Seq<Seq<char>>) -> Result<InlineObjectView, Seq<char>>
        decreases fields.len(),
    {
        if fields.len() == 0 {
            Ok(self)
        } else if fields.len() == 1 {
            Err(missing_value())
        } else if !Self::is_key(fields[0]) {
            Err(unexpected_key())
        } else {
            self.with(fields[0], fields[1]).read(fields.skip(2))
        }
    }

    /// The entry without any part.
    pub open spec fn empty() -> InlineObjectView {
        InlineObjectView { text: None, target: None, level: None }
    }

    /// The entry that the string `s` stands for, or why it stands for none.
    pub open spec fn parse(s: Seq<char>) -> Result<InlineObjectView, Seq<char>> {
        Self::empty().read(split_commas(s))
    }
}

/// The result of parsing, by its characters.
pub open spec fn parsed(res: Result<InlineObject, String>) -> Result<InlineObjectView, Seq<char>> {
    match res {
        Ok(entry) => Ok(entry@),
        Err(why) => Err(why@),
    }
}

fn split(s: &str) -> (fields: Vec<String>)
    ensures
        texts(fields@) == split_commas(s@),
{
    let len = s.unicode_len();
    let mut fields: Vec<String> = Vec::new();
    let mut start: usize = 0;
    let mut i: usize = 0;
    assert(s@.subrange(0, 0) =~= Seq::<char>::empty());
    assert(texts(fields@).push(s@.subrange(0, 0)) =~= seq![Seq::<char>::empty()]);
    while i < len
        invariant
            len == s@.len(),
            start <= i <= len,
            split_commas(s@.subrange(0, i as int)) == texts(fields@).push(
                s@.subrange(start as int, i as int),
            ),
        decreases len - i,
    {
        let c = s.get_char(i);
        let ghost prefix = s@.subrange(0, i as int);
        let ghost next = s@.subrange(0, i + 1);
        let ghost done = texts(fields@);
        proof {
            assert(next.drop_last() =~= prefix);
            assert(next.last() == c);
        }
        if c == ',' {
            let field = String::from_str(s.substring_char(start, i));
            let ghost from = start as int;
            fields.push(field);
            start = i + 1;
            proof {
                assert(texts(fields@) =~= done.push(s@.subrange(from, i as int))) by {
                    assert forall|j: int| 0 <= j < fields.len() implies texts(fields@)[j]
                        == done.push(field@)[j] by {
                        if j < done.len() {
                            assert(texts(fields@)[j] == done[j]);
                        }
                    }
                }
                assert(s@.subrange(i + 1, i + 1) =~= Seq::<char>::empty());
            }
        } else {
            proof {
                let before = done.push(s@.subrange(start as int, i as int));
                assert(s@.subrange(start as int, i as int).push(c) =~= s@.subrange(
                    start as int,
                    i + 1,
                ));
                assert(before.update(before.len() - 1, before.last().push(c)) =~= done.push(
                    s@.subrange(start as int, i + 1),
                ));
            }
        }
        i += 1;
    }
    let ghost done = texts(fields@);
    let field = String::from_str(s.substring_char(start, len));
    fields.push(field);
    proof {
        assert(s@.subrange(0, len as int) =~= s@);
        assert(texts(fields@) =~= done.push(field@)) by {
            assert forall|j: int| 0 <= j < fields.len() implies texts(fields@)[j] == done.push(
                field@,
            )[j] by {
                if j < done.len() {
                    assert(texts(fields@)[j] == done[j]);
                }
            }
        }
    }
    fields
}

fn join(parts: &Vec<String>) -> (res: String)
    ensures
        res@ == join_commas(texts(parts@)),
{
    let mut res = String::new();
    let mut i: usize = 0;
    assert(texts(parts@).subrange(0, 0) =~= Seq::<Seq<char>>::empty());
    while i < parts.len()
        invariant
            i <= parts.len(),
            res@ == join_commas(texts(parts@).subrange(0, i as int)),
        decreases parts.len() - i,
    {
        proof {
            let upto = texts(parts@).subrange(0, i + 1);
            assert(upto.drop_last() =~= texts(parts@).subrange(0, i as int));
            assert(upto.last() == parts@[i as int]@);
            reveal_strlit(",");
            assert(","@ =~= seq![',']);
            if i == 0 {
                assert(upto[0] == parts@[0]@);
                assert(Seq::<char>::empty() + parts@[0]@ =~= parts@[0]@);
            }
        }
        if i > 0 {
            res.append(",");
        }
        res.append(parts[i].as_str());
        i += 1;
    }
    assert(texts(parts@).subrange(0, parts.len() as int) =~= texts(parts@));
    res
}

impl InlineObject {
    /// The entry without any part.
    pub fn new() -> (res: InlineObject)
        ensures
            res@ == InlineObjectView::empty(),
    {
        InlineObject { text: None, target: None, level: None }
    }

    /// The entry as one string: its keys and values, each key followed by
    /// its value, with commas between them.
    pub fn to_string(&self) -> (res: String)
        ensures
            res@ == join_commas(self@.params()),
    {
        let mut params: Vec<String> = Vec::new();
        if let Some(text) = &self.text {
            params.push(String::from_str("text"));
            params.push(text.clone());
        }
        let ghost after_text = texts(params@);
        assert(after_text =~= match self@.text {
            Some(text) => seq!["text"@, text],
            None => Seq::empty(),
        });
        if let Some(target) = &self.target {
            params.push(String::from_str("target"));
            params.push(target.clone());
        }
        let ghost after_target = texts(params@);
        assert(after_target =~= after_text + match self@.target {
            Some(target) => seq!["target"@, target],
            None => Seq::empty(),
        });
        if let Some(level) = &self.level {
            params.push(String::from_str("level"));
            params.push(level.clone());
        }
        assert(texts(params@) =~= after_target + match self@.level {
            Some(level) => seq!["level"@, level],
            None => Seq::empty(),
        });
        join(&params)
    }

    /// Reads an entry from the string that `to_string` writes: keys and
    /// values in turn, with commas between them.
    pub fn from_str(s: &str) -> (res: Result<InlineObject, String>)
        ensures
            parsed(res) == InlineObjectView::parse(s@),
    {
        let fields = split(s);
        let text_key = String::from_str("text");
        let target_key = String::from_str("target");
        let level_key = String::from_str("level");
        let mut entry = InlineObject::new();
        let mut i: usize = 0;
        let ghost all = texts(fields@);
        assert(all.skip(0) =~= all);
        while i < fields.len()
            invariant
                i <= fields.len(),
                all == texts(fields@),
                text_key@ == "text"@,
                target_key@ == "target"@,
                level_key@ == "level"@,
                InlineObjectView::parse(s@) == entry@.read(all.skip(i as int)),
            decreases fields.len() - i,
        {
            let ghost rest = all.skip(i as int);
            assert(rest[0] == fields@[i as int]@);
            if i + 1 >= fields.len() {
                assert(rest.len() == 1);
                return Err(String::from_str("Missing value while parsing InlineObject"));
            }
            assert(rest[1] == fields@[i + 1]@);
            assert(rest.skip(2) =~= all.skip(i + 2));
            let key = &fields[i];
            let value = &fields[i + 1];
            if *key == text_key {
                if entry.text.is_none() {
                    entry.text = Some(value.clone());
                }
            } else if *key == target_key {
                if entry.target.is_none() {
                    entry.target = Some(value.clone());
                }
            } else if *key == level_key {
                if entry.level.is_none() {
                    entry.level = Some(value.clone());
                }
            } else {
                return Err(String::from_str("Unexpected key while parsing InlineObject"));
            }
            i += 2;
        }
        assert(all.skip(i as int).len() == 0);
        Ok(entry)
    }
}

/// A string without a comma is one field.
pub proof fn lemma_split_one_field(field: Seq<char>)
    requires
        !field.contains(','),
    ensures
        split_commas(field) == seq![field],
    decreases field.len(),
{
    if field.len() > 0 {
        let front = field.drop_last();
        assert forall|i: int| 0 <= i < front.len() implies front[i] != ',' by {
            assert(front[i] == field[i]);
        }
        assert(field[field.len() - 1] != ',');
        lemma_split_one_field(front);
        assert(front.push(field.last()) =~= field);
        assert(seq![front].update(0, front.push(field.last())) =~= seq![field]);
    } else {
        assert(field =~= Seq::<char>::empty());
    }
}

/// A comma, and a field after it, add that field to the fields before.
pub proof fn lemma_split_after_comma(before: Seq<char>, field: Seq<char>)
    requires
        !field.contains(','),
    ensures
        split_commas(before + seq![','] + field) == split_commas(before).push(field),
    decreases field.len(),
{
    let whole = before + seq![','] + field;
    if field.len() == 0 {
        assert(whole.drop_last() =~= before);
        assert(whole.last() == ',');
        assert(field =~= Seq::<char>::empty());
    } else {
        let front = field.drop_last();
        assert forall|i: int| 0 <= i < front.len() implies front[i] != ',' by {
            assert(front[i] == field[i]);
        }
        assert(field[field.len() - 1] != ',');
        lemma_split_after_comma(before, front);
        assert(whole.drop_last() =~= before + seq![','] + front);
        assert(whole.last() == field.last());
        let earlier = split_commas(before).push(front);
        assert(earlier.update(earlier.len() - 1, earlier.last().push(field.last()))
            =~= split_commas(before).push(field)) by {
            assert(front.push(field.last()) =~= field);
        }
    }
}

/// Splitting undoes joining, for fields without a comma of which there is
/// one at least.
pub proof fn lemma_split_undoes_join(parts: Seq<Seq<char>>)
    requires
        parts.len() > 0,
        forall|i: int| 0 <= i < parts.len() ==> !(#[trigger] parts[i]).contains(','),
    ensures
        split_commas(join_commas(parts)) == parts,
    decreases parts.len(),
{
    if parts.len() == 1 {
        lemma_split_one_field(parts[0]);
        assert(seq![parts[0]] =~= parts);
    } else {
        let front = parts.drop_last();
        assert forall|i: int| 0 <= i < front.len() implies !(#[trigger] front[i]).contains(',') by {
            assert(front[i] == parts[i]);
        }
        lemma_split_undoes_join(front);
        assert(!parts[parts.len() - 1].contains(','));
        lemma_split_after_comma(join_commas(front), parts.last());
        assert(front.push(parts.last()) =~= parts);
    }
}

impl InlineObjectView {
    /// Whether the string of the entry can be read back: the entry has a
    /// part, and no part holds a comma.
    pub open spec fn is_plain(self) -> bool {
        &&& self.text is Some || self.target is Some || self.level is Some
        &&& self.text matches Some(text) ==> !text.contains(',')
        &&& self.target matches Some(target) ==> !target.contains(',')
        &&& self.level matches Some(level) ==> !level.contains(',')
    }
}

/// What is written can be read: the string of an entry that has a part, and
/// no comma in any part, stands for that entry.
pub proof fn lemma_entry_round_trip(entry: InlineObjectView)
    requires
        entry.is_plain(),
    ensures
        InlineObjectView::parse(join_commas(entry.params())) == Ok::<
            InlineObjectView,
            Seq<char>,
        >(entry),
{
    reveal_strlit("text");
    reveal_strlit("target");
    reveal_strlit("level");
    let params = entry.params();
    assert(!"text"@.contains(','));
    assert(!"target"@.contains(','));
    assert(!"level"@.contains(','));
    assert("text"@ != "target"@) by {
        assert("text"@.len() != "target"@.len());
    }
    assert("text"@ != "level"@) by {
        assert("text"@.len() != "level"@.len());
    }
    assert("target"@ != "level"@) by {
        assert("target"@.len() != "level"@.len());
    }
    let text_part: Seq<Seq<char>> = match entry.text {
        Some(text) => seq!["text"@, text],
        None => Seq::empty(),
    };
    let target_part: Seq<Seq<char>> = match entry.target {
        Some(target) => seq!["target"@, target],
        None => Seq::empty(),
    };
    let level_part: Seq<Seq<char>> = match entry.level {
        Some(level) => seq!["level"@, level],
        None => Seq::empty(),
    };
    assert(params == text_part + target_part + level_part);
    assert forall|i: int| 0 <= i < params.len() implies !(#[trigger] params[i]).contains(',') by {
        if i < text_part.len() {
            assert(params[i] == text_part[i]);
        } else if i < text_part.len() + target_part.len() {
            assert(params[i] == target_part[i - text_part.len()]);
        } else {
            assert(params[i] == level_part[i - text_part.len() - target_part.len()]);
        }
    }
    lemma_split_undoes_join(params);
    let start = InlineObjectView::empty();
    let after_text = InlineObjectView { text: entry.text, ..start };
    let after_target = InlineObjectView { target: entry.target, ..after_text };
    assert(after_target.read(level_part) == Ok::<InlineObjectView, Seq<char>>(entry)) by {
        if entry.level is Some {
            assert(level_part.skip(2) =~= Seq::<Seq<char>>::empty());
            reveal_with_fuel(InlineObjectView::read, 2);
        }
    }
    assert(after_text.read(target_part + level_part) == after_target.read(level_part)) by {
        if entry.target is Some {
            assert((target_part + level_part).skip(2) =~= level_part);
            assert((target_part + level_part)[0] == "target"@);
            assert((target_part + level_part)[1] == entry.target->0);
        } else {
            assert(target_part + level_part =~= level_part);
        }
    }
    assert(start.read(params) == after_text.read(target_part + level_part)) by {
        if entry.text is Some {
            assert(params.skip(2) =~= target_part + level_part);
            assert(params[0] == "text"@);
            assert(params[1] == entry.text->0);
        } else {
            assert(params =~= target_part + level_part);
        }
    }
}

} // verus!
