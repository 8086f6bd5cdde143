//! Text as sequences of characters.

use vstd::prelude::*;

verus! {

/// `String::push` of the standard library appends one character to the end of
/// the string and changes nothing else.
pub assume_specification[ String::push ](text: &mut String, ch: char)
    ensures
        final(text)@ == old(text)@.push(ch),
;

/// The characters of a text.
pub fn chars_of(text: &str) -> (chars: Vec<char>)
    ensures
        chars@ == text@,
{
    let mut chars: Vec<char> = Vec::new();
    for c in it: text.chars()
        invariant
            chars@ == text@.take(it.index() as int),
            it.seq() == text@,
    {
        chars.push(c);
    }
    chars
}

/// Appends the characters to the text, in their order.
pub fn push_chars(text: &mut String, chars: &Vec<char>)
    ensures
        final(text)@ == old(text)@ + chars@,
{
    let mut i: usize = 0;
    while i < chars.len()
        invariant
            i <= chars.len(),
            text@ == old(text)@ + chars@.take(i as int),
        decreases chars.len() - i,
    {
        text.push(chars[i]);
        assert(chars@.take(i + 1) == chars@.take(i as int).push(chars@[i as int]));
        i += 1;
    }
    assert(chars@.take(i as int) == chars@);
}

/// The text made of the characters, last one first.
pub fn reversed_text(chars: &Vec<char>) -> (text: String)
    ensures
        text@ == chars@.reverse(),
{
    let mut text = String::new();
    let mut i: usize = chars.len();
    while i > 0
        invariant
            i <= chars.len(),
            text@.len() == chars.len() - i,
            forall|j: int| 0 <= j < text@.len() ==> text@[j] == chars@[chars.len() - 1 - j],
        decreases i,
    {
        i -= 1;
        text.push(chars[i]);
    }
    assert(text@ =~= chars@.reverse());
    text
}

/// Whether two texts hold the same characters.
pub fn same_text(a: &str, b: &str) -> (same: bool)
    ensures
        same == (a@ == b@),
{
    let x = chars_of(a);
    let y = chars_of(b);
    if x.len() != y.len() {
        return false;
    }
    let mut i: usize = 0;
    while i < x.len()
        invariant
            i <= x.len(),
            x.len() == y.len(),
            x@ == a@,
            y@ == b@,
            x@.take(i as int) == y@.take(i as int),
        decreases x.len() - i,
    {
        if x[i] != y[i] {
            assert(a@[i as int] != b@[i as int]);
            return false;
        }
        assert(x@.take(i + 1) == x@.take(i as int).push(x@[i as int]));
        assert(y@.take(i + 1) == y@.take(i as int).push(y@[i as int]));
        i += 1;
    }
    assert(x@.take(i as int) == x@ && y@.take(i as int) == y@);
    true
}

/// The fields of a text: the pieces between its spaces. A text without a
/// space is one field, and two spaces in a row hold an empty field.
pub open spec fn split(text: Seq<char>) -> Seq<Seq<char>>
    decreases text.len(),
{
    if text.len() == 0 {
        seq![Seq::empty()]
    } else {
        let before = split(text.drop_last());
        if text.last() == ' ' {
            before.push(Seq::empty())
        } else {
            before.drop_last().push(before.last().push(text.last()))
        }
    }
}

/// The characters of each field.
pub open spec fn fields_view(fields: Seq<Vec<char>>) -> Seq<Seq<char>> {
    Seq::new(fields.len(), |i: int| fields[i]@)
}

/// Splits a text into its fields.
pub fn split_fields(chars: &Vec<char>) -> (fields: Vec<Vec<char>>)
    ensures
        fields_view(fields@) == split(chars@),
        fields.len() >= 1,
{
    let mut fields: Vec<Vec<char>> = Vec::new();
    let mut current: Vec<char> = Vec::new();
    let mut i: usize = 0;
    while i < chars.len()
        invariant
            i <= chars.len(),
            fields_view(fields@).push(current@) == split(chars@.take(i as int)),
        decreases chars.len() - i,
    {
        let c = chars[i];
        proof {
            assert(chars@.take(i + 1).drop_last() == chars@.take(i as int));
            assert(chars@.take(i + 1).last() == c);
        }
        let ghost done = fields_view(fields@);
        let ghost field = current@;
        if c == ' ' {
            fields.push(current);
            current = Vec::new();
            assert(fields_view(fields@) == done.push(fields@.last()@));
        } else {
            current.push(c);
            assert(done.push(field).drop_last() =~= done);
        }
        assert(fields_view(fields@).push(current@) =~= split(chars@.take(i + 1)));
        i += 1;
    }
    assert(chars@.take(i as int) == chars@);
    let ghost done = fields_view(fields@);
    fields.push(current);
    assert(fields_view(fields@) =~= done.push(current@));
    fields
}

/// The fields put together again, with one space between each two.
pub open spec fn join(fields: Seq<Seq<char>>) -> Seq<char>
    decreases fields.len(),
{
    if fields.len() == 0 {
        Seq::empty()
    } else if fields.len() == 1 {
        fields[0]
    } else {
        join(fields.drop_last()) + seq![' '] + fields.last()
    }
}

/// Splitting loses nothing and leaves no space behind: the fields joined by
/// single spaces are the text again, there is at least one field, and no
/// field holds a space.
pub proof fn law_split_join(text: Seq<char>)
    ensures
        split(text).len() >= 1,
        join(split(text)) == text,
        forall|k: int, i: int|
            0 <= k < split(text).len() && 0 <= i < split(text)[k].len() ==> #[trigger] split(
                text,
            )[k][i] != ' ',
    decreases text.len(),
{
    if text.len() > 0 {
        let shorter = text.drop_last();
        let before = split(shorter);
        law_split_join(shorter);
        if text.last() == ' ' {
            let fields = before.push(Seq::empty());
            assert(fields.drop_last() == before);
            assert(join(fields) == join(before) + seq![' '] + Seq::<char>::empty());
            assert(join(fields) =~= text);
        } else {
            let grown = before.last().push(text.last());
            let fields = before.drop_last().push(grown);
            if before.len() == 1 {
                assert(fields.len() == 1);
                assert(join(fields) == grown);
                assert(join(before) == before[0]);
                assert(grown =~= text);
            } else {
                assert(fields.drop_last() == before.drop_last());
                assert(join(fields) == join(before.drop_last()) + seq![' '] + grown);
                assert(join(before) == join(before.drop_last()) + seq![' '] + before.last());
                assert(join(fields) =~= join(before).push(text.last()));
                assert(shorter.push(text.last()) =~= text);
            }
            assert forall|k: int, i: int|
                0 <= k < fields.len() && 0 <= i < fields[k].len() implies #[trigger] fields[k][i]
                    != ' ' by {
                if k < fields.len() - 1 {
                    assert(fields[k] == before[k]);
                } else if i < before.last().len() {
                    assert(fields[k][i] == before[k][i]);
                }
            }
        }
    } else {
        assert(split(text)[0] =~= text);
    }
}

/// Whether a text holds no space.
pub open spec fn spaceless(word: Seq<char>) -> bool {
    forall|i: int| 0 <= i < word.len() ==> #[trigger] word[i] != ' '
}

/// More text without a space makes the last field longer and leaves the
/// others as they were.
pub proof fn lemma_split_grows_last_field(text: Seq<char>, word: Seq<char>)
    requires
        spaceless(word),
    ensures
        split(text + word) == split(text).drop_last().push(split(text).last() + word),
        split(text).len() >= 1,
    decreases word.len(),
{
    law_split_join(text);
    if word.len() == 0 {
        assert(text + word =~= text);
        assert(split(text).last() + word =~= split(text).last());
        assert(split(text).drop_last().push(split(text).last()) =~= split(text));
    } else {
        let shorter = word.drop_last();
        lemma_split_grows_last_field(text, shorter);
        assert((text + word).drop_last() =~= text + shorter);
        assert((text + word).last() == word.last());
        assert(word.last() == word[word.len() - 1]);
        let before = split(text + shorter);
        assert(before.last() == split(text).last() + shorter);
        assert(before.last().push(word.last()) =~= split(text).last() + word);
        assert(before.drop_last() =~= split(text).drop_last());
    }
}

/// Joining is undone by splitting: fields without spaces, at least one of
/// them, joined by single spaces, split into themselves.
pub proof fn law_join_split(fields: Seq<Seq<char>>)
    requires
        fields.len() >= 1,
        forall|k: int| 0 <= k < fields.len() ==> spaceless(#[trigger] fields[k]),
    ensures
        split(join(fields)) == fields,
    decreases fields.len(),
{
    if fields.len() == 1 {
        let none = Seq::<char>::empty();
        lemma_split_grows_last_field(none, fields[0]);
        assert(none + fields[0] =~= fields[0]);
        assert(split(none) =~= seq![none]);
        assert(split(join(fields)) =~= fields);
    } else {
        let front = fields.drop_last();
        law_join_split(front);
        let spaced = join(front) + seq![' '];
        assert(spaced.drop_last() =~= join(front));
        assert(split(spaced) == front.push(Seq::empty()));
        lemma_split_grows_last_field(spaced, fields.last());
        assert(Seq::<char>::empty() + fields.last() =~= fields.last());
        assert(split(join(fields)) =~= fields);
    }
}

} // verus!
