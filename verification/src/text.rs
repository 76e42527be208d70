//! Records as text: fields joined by a separator, and taken apart again.

use vstd::prelude::*;
use vstd::string::*;

verus! {

/// The fields of a text: the pieces between the occurrences of `sep`, in
/// order. A text without `sep` is one field; the empty text is one empty
/// field; a text of `n` separators has `n + 1` fields.
pub open spec fn split(s: Seq<char>, sep: char) -> Seq<Seq<char>>
    decreases s.len(),
{
    if s.len() == 0 {
        seq![Seq::empty()]
    } else {
        let before = split(s.drop_last(), sep);
        if s.last() == sep {
            before.push(Seq::empty())
        } else {
            before.drop_last().push(before.last().push(s.last()))
        }
    }
}

/// A text has at least one field.
pub proof fn lemma_split_len(s: Seq<char>, sep: char)
    ensures
        split(s, sep).len() >= 1,
    decreases s.len(),
{
    if s.len() > 0 {
        lemma_split_len(s.drop_last(), sep);
    }
}

/// The fields written one after the other, with `sep` between each two.
pub open spec fn join(fields: Seq<Seq<char>>, sep: char) -> Seq<char>
    decreases fields.len(),
{
    if fields.len() == 0 {
        Seq::empty()
    } else if fields.len() == 1 {
        fields[0]
    } else {
        join(fields.drop_last(), sep) + seq![sep] + fields.last()
    }
}

/// True when `sep` occurs nowhere in the text.
pub open spec fn free_of(s: Seq<char>, sep: char) -> bool {
    forall|i: int| 0 <= i < s.len() ==> #[trigger] s[i] != sep
}

/// Text without a separator, written after another text, goes to the end of
/// the last field of that text.
pub proof fn lemma_split_append(s: Seq<char>, t: Seq<char>, sep: char)
    requires
        free_of(t, sep),
    ensures
        split(s + t, sep).len() == split(s, sep).len(),
        split(s + t, sep) == split(s, sep).drop_last().push(split(s, sep).last() + t),
    decreases t.len(),
{
    lemma_split_len(s, sep);
    let fields = split(s, sep);
    if t.len() == 0 {
        assert(s + t =~= s);
        assert(fields.last() + t =~= fields.last());
        assert(fields.drop_last().push(fields.last()) =~= fields);
    } else {
        let shorter = t.drop_last();
        assert(free_of(shorter, sep)) by {
            assert forall|i: int| 0 <= i < shorter.len() implies #[trigger] shorter[i] != sep by {
                assert(shorter[i] == t[i]);
            }
        }
        lemma_split_append(s, shorter, sep);
        assert((s + t).drop_last() =~= s + shorter);
        assert((s + t).last() == t.last());
        assert(t[t.len() - 1] != sep);
        let before = split(s + shorter, sep);
        assert(before.drop_last() =~= fields.drop_last());
        assert(before.last().push(t.last()) =~= fields.last() + t);
    }
}

/// Fields that hold no separator come back from their joined text as they
/// went in.
pub proof fn lemma_split_join(fields: Seq<Seq<char>>, sep: char)
    requires
        fields.len() >= 1,
        forall|i: int| 0 <= i < fields.len() ==> free_of(#[trigger] fields[i], sep),
    ensures
        split(join(fields, sep), sep) == fields,
    decreases fields.len(),
{
    let empty = Seq::<char>::empty();
    if fields.len() == 1 {
        lemma_split_append(empty, fields[0], sep);
        assert(empty + fields[0] =~= fields[0]);
        assert(split(empty, sep) =~= seq![empty]);
        assert(split(empty, sep).drop_last().push(empty + fields[0]) =~= fields);
    } else {
        let init = fields.drop_last();
        assert forall|i: int| 0 <= i < init.len() implies free_of(#[trigger] init[i], sep) by {
            assert(init[i] == fields[i]);
        }
        lemma_split_join(init, sep);
        let head = join(init, sep) + seq![sep];
        assert(head.drop_last() =~= join(init, sep));
        assert(head.last() == sep);
        assert(split(head, sep) == init.push(empty));
        assert(free_of(fields.last(), sep));
        lemma_split_append(head, fields.last(), sep);
        assert(init.push(empty).drop_last() =~= init);
        assert(empty + fields.last() =~= fields.last());
        assert(init.push(fields.last()) =~= fields);
    }
}

/// Takes a text apart at each occurrence of `sep`.
pub fn split_text(s: &str, sep: char) -> (fields: Vec<String>)
    ensures
        fields.deep_view() == split(s@, sep),
        fields@.len() >= 1,
{
    let n: usize = s.unicode_len();
    let mut fields: Vec<String> = Vec::new();
    let mut start: usize = 0;
    let mut i: usize = 0;
    assert(s@.take(0) =~= Seq::<char>::empty());
    assert(fields.deep_view().push(s@.subrange(0, 0)) =~= split(s@.take(0), sep));
    while i < n
        invariant
            n == s@.len(),
            start <= i <= n,
            fields.deep_view().push(s@.subrange(start as int, i as int)) == split(
                s@.take(i as int),
                sep,
            ),
        decreases n - i,
    {
        let c: char = s.get_char(i);
        let ghost before = split(s@.take(i as int), sep);
        let ghost done = fields.deep_view();
        proof {
            assert(s@.take(i + 1).drop_last() =~= s@.take(i as int));
            assert(s@.take(i + 1).last() == c);
            assert(before.last() == s@.subrange(start as int, i as int));
            assert(before.drop_last() =~= done);
        }
        if c == sep {
            let field: String = s.substring_char(start, i).to_owned();
            fields.push(field);
            start = i + 1;
            proof {
                assert(fields.deep_view() =~= before);
                assert(s@.subrange(start as int, i + 1) =~= Seq::<char>::empty());
            }
        } else {
            proof {
                assert(s@.subrange(start as int, i + 1) =~= s@.subrange(
                    start as int,
                    i as int,
                ).push(c));
            }
        }
        i = i + 1;
    }
    let last: String = s.substring_char(start, n).to_owned();
    let ghost done = fields.deep_view();
    fields.push(last);
    proof {
        assert(s@.take(n as int) =~= s@);
        assert(fields.deep_view() =~= done.push(s@.subrange(start as int, n as int)));
    }
    fields
}

} // verus!
