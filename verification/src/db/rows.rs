//! Raw database rows and their conversion into domain values.

use vstd::prelude::*;
use crate::db::types::patches::{is_blank, is_white_space, lemma_white_space_is_unicode, str_is_blank};
use crate::text::push_char;

verus! {

/// The separator between media ids in a concatenated thumbnails column.
pub const THUMBNAIL_SEPARATOR: char = ';';

/// The fields of `s` between occurrences of `sep` (what `str::split` yields):
/// there is always one more field than separators.
pub open spec fn split_on(s: Seq<char>, sep: char) -> Seq<Seq<char>>
    decreases s.len(),
{
    if s.len() == 0 {
        seq![Seq::<char>::empty()]
    } else {
        let prev = split_on(s.drop_last(), sep);
        if s.last() == sep {
            prev.push(Seq::<char>::empty())
        } else {
            prev.update(prev.len() - 1, prev.last().push(s.last()))
        }
    }
}

/// The media ids of a concatenated thumbnails column: the fields between
/// separators that are not blank.
pub open spec fn thumbnail_fields(s: Seq<char>) -> Seq<Seq<char>> {
    split_on(s, THUMBNAIL_SEPARATOR).filter(not_blank())
}

/// The fields that are kept: those that are not blank.
pub open spec fn not_blank() -> spec_fn(Seq<char>) -> bool {
    |f: Seq<char>| !is_blank(f)
}

proof fn lemma_split_on_nonempty(s: Seq<char>, sep: char)
    ensures
        split_on(s, sep).len() >= 1,
    decreases s.len(),
{
    if s.len() > 0 {
        lemma_split_on_nonempty(s.drop_last(), sep);
    }
}

/// Splits the concatenated thumbnails column of a collection row into
/// the media ids it lists, dropping blank entries.
pub fn split_thumbnails(thumbnails: &str) -> (ids: Vec<String>)
    ensures
        ids@.map_values(|id: String| id@) == thumbnail_fields(thumbnails@),
{
    let ghost s = thumbnails@;
    let mut ids: Vec<String> = Vec::new();
    let mut cur = String::new();
    for c in it: thumbnails.chars()
        invariant
            it.seq() == s,
            split_on(s.take(it.index() as int), THUMBNAIL_SEPARATOR).len() >= 1,
            cur@ == split_on(s.take(it.index() as int), THUMBNAIL_SEPARATOR).last(),
            ids@.map_values(|id: String| id@) == split_on(
                s.take(it.index() as int),
                THUMBNAIL_SEPARATOR,
            ).drop_last().filter(not_blank()),
    {
        let ghost n = it.index() as int;
        let ghost prev = split_on(s.take(n), THUMBNAIL_SEPARATOR);
        let ghost old_ids = ids@;
        proof {
            reveal(Seq::filter);
            assert(s.take(n + 1).drop_last() =~= s.take(n));
            assert(s.take(n + 1).last() == c);
            lemma_split_on_nonempty(s.take(n + 1), THUMBNAIL_SEPARATOR);
        }
        if c == THUMBNAIL_SEPARATOR {
            let field = cur;
            cur = String::new();
            let ghost fv = field@;
            assert(fv == prev.last());
            let blank = str_is_blank(field.as_str());
            assert(blank == is_blank(fv));
            if !blank {
                ids.push(field);
                assert(ids@.map_values(|id: String| id@) =~= old_ids.map_values(|id: String| id@).push(
                    fv,
                ));
                assert(not_blank()(prev.last()));
            } else {
                assert(!not_blank()(prev.last()));
            }
            proof {
                let next = split_on(s.take(n + 1), THUMBNAIL_SEPARATOR);
                assert(next == prev.push(Seq::<char>::empty()));
                assert(next.drop_last() =~= prev);
                assert(prev.drop_last().push(prev.last()) =~= prev);
                assert(prev.filter(not_blank()) == (if not_blank()(prev.last()) {
                    prev.drop_last().filter(not_blank()).push(prev.last())
                } else {
                    prev.drop_last().filter(not_blank())
                }));
                assert(ids@.map_values(|id: String| id@) =~= prev.filter(not_blank()));
            }
        } else {
            push_char(&mut cur, c);
            proof {
                let next = split_on(s.take(n + 1), THUMBNAIL_SEPARATOR);
                assert(next.drop_last() =~= prev.drop_last());
            }
        }
    }
    proof {
        reveal(Seq::filter);
        assert(s.take(s.len() as int) =~= s);
        let all = split_on(s, THUMBNAIL_SEPARATOR);
        assert(all.drop_last().push(all.last()) =~= all);
    }
    if !str_is_blank(cur.as_str()) {
        ids.push(cur);
    }
    proof {
        assert(ids@.map_values(|id: String| id@) =~= thumbnail_fields(s));
    }
    ids
}

/// The media ids of a row concatenated with a separator between consecutive ids
/// (what the database's `group_concat` produces).
pub open spec fn concatenated(ids: Seq<Seq<char>>, sep: char) -> Seq<char>
    decreases ids.len(),
{
    if ids.len() == 0 {
        Seq::empty()
    } else if ids.len() == 1 {
        ids[0]
    } else {
        concatenated(ids.drop_last(), sep).push(sep) + ids.last()
    }
}

proof fn lemma_split_on_append_field(prefix: Seq<char>, b: Seq<char>, sep: char)
    requires
        forall|i: int| 0 <= i < b.len() ==> #[trigger] b[i] != sep,
    ensures
        split_on(prefix + b, sep) == split_on(prefix, sep).update(
            split_on(prefix, sep).len() - 1,
            split_on(prefix, sep).last() + b,
        ),
    decreases b.len(),
{
    lemma_split_on_nonempty(prefix, sep);
    let base = split_on(prefix, sep);
    if b.len() == 0 {
        assert(prefix + b =~= prefix);
        assert(base.last() + b =~= base.last());
        assert(base.update(base.len() - 1, base.last()) =~= base);
    } else {
        let init = b.drop_last();
        lemma_split_on_append_field(prefix, init, sep);
        assert((prefix + b).drop_last() =~= prefix + init);
        assert((prefix + b).last() == b.last());
        lemma_split_on_nonempty(prefix + init, sep);
        let mid = split_on(prefix + init, sep);
        assert(mid.last() == base.last() + init);
        assert((base.last() + init).push(b.last()) =~= base.last() + b);
        assert(split_on(prefix + b, sep) =~= base.update(base.len() - 1, base.last() + b));
    }
}

/// Fields law: splitting the concatenation of ids that hold no separator gives the ids back.
pub proof fn lemma_split_concatenated(ids: Seq<Seq<char>>, sep: char)
    requires
        ids.len() >= 1,
        forall|k: int, i: int|
            0 <= k < ids.len() && 0 <= i < ids[k].len() ==> #[trigger] ids[k][i] != sep,
    ensures
        split_on(concatenated(ids, sep), sep) == ids,
    decreases ids.len(),
{
    if ids.len() == 1 {
        let e = Seq::<char>::empty();
        lemma_split_on_append_field(e, ids[0], sep);
        assert(e + ids[0] =~= ids[0]);
        assert(seq![e].update(0, e + ids[0]) =~= ids);
    } else {
        let init = ids.drop_last();
        let b = ids.last();
        lemma_split_concatenated(init, sep);
        let pre = concatenated(init, sep).push(sep);
        assert(pre.drop_last() =~= concatenated(init, sep));
        let sp = split_on(pre, sep);
        assert(sp == init.push(Seq::<char>::empty()));
        assert forall|i: int| 0 <= i < b.len() implies #[trigger] b[i] != sep by {
            assert(ids[ids.len() - 1][i] != sep);
        }
        lemma_split_on_append_field(pre, b, sep);
        assert(Seq::<char>::empty() + b =~= b);
        assert(sp.update(sp.len() - 1, sp.last() + b) =~= ids);
    }
}

/// Thumbnail law: the media ids of a collection row are recovered from their
/// concatenation, provided none is blank or holds the separator.
pub proof fn lemma_thumbnails_round_trip(ids: Seq<Seq<char>>)
    requires
        forall|k: int| 0 <= k < ids.len() ==> !is_blank(#[trigger] ids[k]),
        forall|k: int, i: int|
            0 <= k < ids.len() && 0 <= i < ids[k].len() ==> #[trigger] ids[k][i]
                != THUMBNAIL_SEPARATOR,
    ensures
        thumbnail_fields(concatenated(ids, THUMBNAIL_SEPARATOR)) == ids,
{
    if ids.len() == 0 {
        reveal(Seq::filter);
        let fields = split_on(Seq::<char>::empty(), THUMBNAIL_SEPARATOR);
        assert(fields.drop_last() =~= Seq::<Seq<char>>::empty());
        assert(is_blank(fields.last()));
        assert(!not_blank()(fields.last()));
        assert(fields.drop_last().filter(not_blank()) == fields.drop_last());
        assert(fields.filter(not_blank()) =~= ids);
    } else {
        lemma_split_concatenated(ids, THUMBNAIL_SEPARATOR);
        lemma_filter_keeps_all(ids);
    }
}

/// `c` is an ASCII letter or digit.
pub open spec fn is_ascii_alphanumeric(c: char) -> bool {
    ('0' <= c <= '9') || ('a' <= c <= 'z') || ('A' <= c <= 'Z')
}

/// `f` holds an ASCII letter or digit.
pub open spec fn has_ascii_alphanumeric(f: Seq<char>) -> bool {
    exists|i: int| 0 <= i < f.len() && is_ascii_alphanumeric(#[trigger] f[i])
}

/// Media id law: ids that each hold an ASCII letter or digit and no separator (such
/// as numeric media ids) all survive the split of their concatenation, unchanged
/// and in order; none is dropped as blank.
pub proof fn lemma_thumbnails_keep_alphanumeric_ids(ids: Seq<Seq<char>>)
    requires
        forall|k: int| 0 <= k < ids.len() ==> has_ascii_alphanumeric(#[trigger] ids[k]),
        forall|k: int, i: int|
            0 <= k < ids.len() && 0 <= i < ids[k].len() ==> #[trigger] ids[k][i]
                != THUMBNAIL_SEPARATOR,
    ensures
        thumbnail_fields(concatenated(ids, THUMBNAIL_SEPARATOR)) == ids,
{
    assert forall|k: int| 0 <= k < ids.len() implies !is_blank(#[trigger] ids[k]) by {
        let i = choose|i: int| 0 <= i < ids[k].len() && is_ascii_alphanumeric(#[trigger] ids[k][i]);
        lemma_white_space_is_unicode(ids[k][i]);
        assert(!is_white_space(ids[k][i]));
    }
    lemma_thumbnails_round_trip(ids);
}

proof fn lemma_filter_keeps_all(ids: Seq<Seq<char>>)
    requires
        forall|k: int| 0 <= k < ids.len() ==> !is_blank(#[trigger] ids[k]),
    ensures
        ids.filter(not_blank()) == ids,
    decreases ids.len(),
{
    reveal(Seq::filter);
    if ids.len() > 0 {
        lemma_filter_keeps_all(ids.drop_last());
        assert(ids.drop_last().push(ids.last()) =~= ids);
    }
}

} // verus!
