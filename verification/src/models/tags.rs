//! How a list of tags is kept in one column of text.
//!
//! Each tag is written out and closed by a comma. A comma or a backslash
//! inside a tag is written with a backslash in front of it. So every list
//! has its own text, the list can be read back from the text, and the text
//! of a list of plain tags reads as the tags one after the other:
//! `Action,Fantasy,`.

use vstd::prelude::*;

verus! {

/// Whether `c` has to be escaped inside a tag.
pub open spec fn is_special(c: char) -> bool {
    c == ',' || c == '\\'
}

/// The text of one tag: its characters, with a backslash in front of each
/// comma and each backslash.
pub open spec fn escaped(tag: Seq<char>) -> Seq<char>
    decreases tag.len(),
{
    if tag.len() == 0 {
        Seq::empty()
    } else if is_special(tag.last()) {
        escaped(tag.drop_last()).push('\\').push(tag.last())
    } else {
        escaped(tag.drop_last()).push(tag.last())
    }
}

/// The text of a list of tags: the text of each tag, closed by a comma.
pub open spec fn encoded(tags: Seq<Seq<char>>) -> Seq<char>
    decreases tags.len(),
{
    if tags.len() == 0 {
        Seq::empty()
    } else {
        encoded(tags.drop_last()) + escaped(tags.last()).push(',')
    }
}

/// What a reader of a text knows after some of its characters: the tags
/// that are closed, the tag that is open, and whether the last character
/// was a backslash that escapes the next one.
pub struct Reading {
    pub closed: Seq<Seq<char>>,
    pub open: Seq<char>,
    pub escaping: bool,
}

impl Reading {
    /// The reader before the first character.
    pub open spec fn start() -> Reading {
        Reading { closed: Seq::empty(), open: Seq::empty(), escaping: false }
    }

    /// The reader after one more character.
    pub open spec fn step(self, c: char) -> Reading {
        if self.escaping {
            Reading { open: self.open.push(c), escaping: false, ..self }
        } else if c == '\\' {
            Reading { escaping: true, ..self }
        } else if c == ',' {
            Reading { closed: self.closed.push(self.open), open: Seq::empty(), escaping: false }
        } else {
            Reading { open: self.open.push(c), ..self }
        }
    }

    /// The reader after all of `text`.
    pub open spec fn after(text: Seq<char>) -> Reading
        decreases text.len(),
    {
        if text.len() == 0 {
            Reading::start()
        } else {
            Reading::after(text.drop_last()).step(text.last())
        }
    }
}

/// The list of tags that `text` holds. A text that does not end with a
/// comma holds, as its last tag, what follows the last comma.
pub open spec fn decoded(text: Seq<char>) -> Seq<Seq<char>> {
    let end = Reading::after(text);
    if end.open.len() > 0 {
        end.closed.push(end.open)
    } else {
        end.closed
    }
}

proof fn lemma_read_more(text: Seq<char>, c: char)
    ensures
        Reading::after(text.push(c)) == Reading::after(text).step(c),
{
    assert(text.push(c).drop_last() =~= text);
}

proof fn lemma_read_escaped(text: Seq<char>, tag: Seq<char>)
    requires
        !Reading::after(text).escaping,
    ensures
        Reading::after(text + escaped(tag)) == (Reading {
            open: Reading::after(text).open + tag,
            ..Reading::after(text)
        }),
    decreases tag.len(),
{
    let before = Reading::after(text);
    if tag.len() == 0 {
        assert(text + escaped(tag) =~= text);
        assert(before.open + tag =~= before.open);
    } else {
        let front = tag.drop_last();
        let c = tag.last();
        lemma_read_escaped(text, front);
        let mid = text + escaped(front);
        assert((before.open + front).push(c) =~= before.open + tag);
        if is_special(c) {
            lemma_read_more(mid, '\\');
            lemma_read_more(mid.push('\\'), c);
            assert(text + escaped(tag) =~= mid.push('\\').push(c));
        } else {
            lemma_read_more(mid, c);
            assert(text + escaped(tag) =~= mid.push(c));
        }
    }
}

proof fn lemma_read_encoded(tags: Seq<Seq<char>>)
    ensures
        Reading::after(encoded(tags)) == (Reading {
            closed: tags,
            open: Seq::empty(),
            escaping: false,
        }),
    decreases tags.len(),
{
    if tags.len() == 0 {
        assert(tags =~= Seq::<Seq<char>>::empty());
    } else {
        let front = tags.drop_last();
        lemma_read_encoded(front);
        let text = encoded(front);
        lemma_read_escaped(text, tags.last());
        lemma_read_more(text + escaped(tags.last()), ',');
        assert(encoded(tags) =~= (text + escaped(tags.last())).push(','));
        assert(Seq::<char>::empty() + tags.last() =~= tags.last());
        assert(front.push(tags.last()) =~= tags);
    }
}

/// Every list of tags is read back from its text as it was written: the
/// same tags in the same order, whatever characters they hold, and no tag
/// where there was none.
pub proof fn decoding_undoes_encoding(tags: Seq<Seq<char>>)
    ensures
        decoded(encoded(tags)) == tags,
{
    lemma_read_encoded(tags);
}

fn push_escaped(out: &mut String, tag: &str)
    ensures
        final(out)@ == old(out)@ + escaped(tag@),
{
    let ghost start = out@;
    assert(start + escaped(tag@.take(0)) =~= start);
    for c in it: tag.chars()
        invariant
            it.seq() == tag@,
            out@ == start + escaped(tag@.take(it.index())),
    {
        let ghost seen = tag@.take(it.index());
        let ghost grown = tag@.take(it.index() + 1);
        proof {
            assert(grown.drop_last() =~= seen);
            assert(grown.last() == c);
        }
        if c == ',' || c == '\\' {
            out.push('\\');
        }
        out.push(c);
        assert(out@ =~= start + escaped(grown));
    }
    assert(tag@.take(tag@.len() as int) =~= tag@);
}

/// Writes the list `tags` as one text.
pub fn encode_tags(tags: &Vec<String>) -> (text: String)
    ensures
        text@ == encoded(tags.deep_view()),
{
    let mut text = String::new();
    let ghost all = tags.deep_view();
    let mut i: usize = 0;
    assert(all.take(0) =~= Seq::<Seq<char>>::empty());
    while i < tags.len()
        invariant
            i <= tags.len(),
            all == tags.deep_view(),
            text@ == encoded(all.take(i as int)),
        decreases tags.len() - i,
    {
        let ghost before = text@;
        push_escaped(&mut text, tags[i].as_str());
        text.push(',');
        proof {
            let grown = all.take(i + 1);
            assert(grown.drop_last() =~= all.take(i as int));
            assert(grown.last() == tags[i as int]@);
            assert(text@ =~= before + escaped(tags[i as int]@).push(','));
        }
        i += 1;
    }
    assert(all.take(tags.len() as int) =~= all);
    text
}

/// Reads the list of tags that `text` holds.
pub fn decode_tags(text: &str) -> (tags: Vec<String>)
    ensures
        tags.deep_view() == decoded(text@),
{
    let mut closed: Vec<String> = Vec::new();
    let mut open = String::new();
    let mut escaping = false;
    assert(closed.deep_view() =~= Seq::<Seq<char>>::empty());
    for c in it: text.chars()
        invariant
            it.seq() == text@,
            (Reading { closed: closed.deep_view(), open: open@, escaping }) == Reading::after(
                text@.take(it.index()),
            ),
    {
        proof {
            let grown = text@.take(it.index() + 1);
            assert(grown.drop_last() =~= text@.take(it.index()));
            assert(grown.last() == c);
        }
        if escaping {
            open.push(c);
            escaping = false;
        } else if c == '\\' {
            escaping = true;
        } else if c == ',' {
            let ghost before = closed.deep_view();
            let ghost tag = open@;
            closed.push(open);
            open = String::new();
            assert(closed.deep_view() =~= before.push(tag));
        } else {
            open.push(c);
        }
    }
    assert(text@.take(text@.len() as int) =~= text@);
    if !open.as_str().is_empty() {
        let ghost before = closed.deep_view();
        let ghost tag = open@;
        closed.push(open);
        assert(closed.deep_view() =~= before.push(tag));
    }
    closed
}

} // verus!
