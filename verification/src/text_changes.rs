//! Changes to a text by byte ranges.

use vstd::prelude::*;
use vstd::string::*;
use vstd::utf8::*;

verus! {

/// A byte range of a text and the text that takes its place.
#[derive(Debug, Clone, PartialEq, Eq)]
pub struct TextChange {
    pub start: usize,
    pub end: usize,
    pub new_text: String,
}

/// What a [`TextChange`] holds.
#[verifier::ext_equal]
pub struct TextChangeView {
    pub start: int,
    pub end: int,
    pub new_text: Seq<char>,
}

impl View for TextChange {
    type V = TextChangeView;

    open spec fn view(&self) -> TextChangeView {
        TextChangeView { start: self.start as int, end: self.end as int, new_text: self.new_text@ }
    }
}

/// What a sequence of changes holds.
pub open spec fn change_views(changes: Seq<TextChange>) -> Seq<TextChangeView> {
    changes.map_values(|c: TextChange| c@)
}

/// The bytes that the changes at position `p` put there: the new texts, one after another, of the
/// changes of an empty range, or those of the others.
pub open spec fn put_at(changes: Seq<TextChangeView>, p: int, empty: bool) -> Seq<u8>
    decreases changes.len(),
{
    if changes.len() == 0 {
        Seq::<u8>::empty()
    } else {
        let before = put_at(changes.drop_last(), p, empty);
        let change = changes.last();
        if change.start == p && (change.end == p) == empty {
            before + encode_utf8(change.new_text)
        } else {
            before
        }
    }
}

/// A change takes the byte at position `p` away.
pub open spec fn is_replaced(changes: Seq<TextChangeView>, p: int) -> bool {
    exists|i: int|
        0 <= i < changes.len() && (#[trigger] changes[i]).start <= p && p < changes[i].end
}

/// The bytes of the changed text, from position `p` of the source on. At each position, the
/// insertions come first, and the text in place of a range that begins there next; a byte stays
/// where no change takes it away.
pub open spec fn changed_from(source: Seq<u8>, changes: Seq<TextChangeView>, p: int) -> Seq<u8>
    decreases source.len() - p + 1,
{
    if p < 0 || p > source.len() {
        Seq::<u8>::empty()
    } else {
        let kept = if p < source.len() && !is_replaced(changes, p) {
            seq![source[p]]
        } else {
            Seq::<u8>::empty()
        };
        put_at(changes, p, true) + put_at(changes, p, false) + kept + changed_from(
            source,
            changes,
            p + 1,
        )
    }
}

/// The bytes of the changed text.
pub open spec fn changed(source: Seq<u8>, changes: Seq<TextChangeView>) -> Seq<u8> {
    changed_from(source, changes, 0)
}

/// The ranges of two changes do not overlap: the one that begins first, or ends first where both
/// begin together, ends where the other begins or before it.
pub open spec fn apart(a: TextChangeView, b: TextChangeView) -> bool {
    if a.start < b.start || (a.start == b.start && a.end <= b.end) {
        a.end <= b.start
    } else {
        b.end <= a.start
    }
}

/// A range between characters of the source.
pub open spec fn fits(source: Seq<u8>, change: TextChangeView) -> bool {
    &&& 0 <= change.start <= change.end <= source.len()
    &&& is_char_boundary(source, change.start)
    &&& is_char_boundary(source, change.end)
}

/// The changes can be made to the source: they fit it, and no two of them overlap.
pub open spec fn applicable(source: Seq<u8>, changes: Seq<TextChangeView>) -> bool {
    &&& forall|i: int| 0 <= i < changes.len() ==> fits(source, #[trigger] changes[i])
    &&& forall|i: int, j: int|
        0 <= i < j < changes.len() ==> apart(#[trigger] changes[i], #[trigger] changes[j])
}

/// Calls `deno_ast::apply_text_changes`, which sorts the changes by their ranges, keeping the
/// order of those with the same range, and puts each new text in the place of its range. It panics
/// on a range that ends before it begins, on ranges that overlap and on ranges that split a
/// character.
#[verifier::external_body]
fn apply_with_deno_ast(source: &str, changes: Vec<TextChange>) -> (r: String)
    requires
        applicable(encode_utf8(source@), change_views(changes@)),
    ensures
        encode_utf8(r@) == changed(encode_utf8(source@), change_views(changes@)),
{
    let changes = changes.into_iter().map(|c| deno_ast::TextChange::new(c.start, c.end, c.new_text));
    deno_ast::apply_text_changes(source, changes.collect())
}

/// Whether the changes can be made to the source.
pub fn can_apply(source: &str, changes: &Vec<TextChange>) -> (r: bool)
    ensures
        r == applicable(encode_utf8(source@), change_views(changes@)),
{
    let ghost views = change_views(changes@);
    let length: usize = source.as_bytes().len();
    let mut j: usize = 0;
    while j < changes.len()
        invariant
            j <= changes.len(),
            length == encode_utf8(source@).len(),
            views == change_views(changes@),
            forall|i: int| 0 <= i < j ==> fits(encode_utf8(source@), #[trigger] views[i]),
            forall|i: int, k: int|
                0 <= i < k < j ==> apart(#[trigger] views[i], #[trigger] views[k]),
        decreases changes.len() - j,
    {
        let b = &changes[j];
        assert(views[j as int] == b@);
        if b.start > b.end || b.end > length || !source.is_char_boundary(b.start)
            || !source.is_char_boundary(b.end) {
            assert(!fits(encode_utf8(source@), views[j as int]));
            return false;
        }
        let mut i: usize = 0;
        while i < j
            invariant
                i <= j < changes.len(),
                views == change_views(changes@),
                *b == changes@[j as int],
                forall|k: int|
                    0 <= k < i ==> apart(#[trigger] views[k], views[j as int]),
            decreases j - i,
        {
            let a = &changes[i];
            assert(views[i as int] == a@);
            let are_apart = if a.start < b.start || (a.start == b.start && a.end <= b.end) {
                a.end <= b.start
            } else {
                b.end <= a.start
            };
            if !are_apart {
                assert(!apart(views[i as int], views[j as int]));
                return false;
            }
            i += 1;
        }
        j += 1;
    }
    true
}

/// The source with the changes made to it.
pub fn apply_text_changes(source: &str, changes: Vec<TextChange>) -> (r: String)
    requires
        applicable(encode_utf8(source@), change_views(changes@)),
    ensures
        encode_utf8(r@) == changed(encode_utf8(source@), change_views(changes@)),
{
    apply_with_deno_ast(source, changes)
}

proof fn nothing_changed_from(source: Seq<u8>, p: int)
    requires
        0 <= p <= source.len(),
    ensures
        changed_from(source, Seq::<TextChangeView>::empty(), p) == source.skip(p),
    decreases source.len() - p,
{
    let none = Seq::<TextChangeView>::empty();
    reveal_with_fuel(changed_from, 2);
    if p < source.len() {
        nothing_changed_from(source, p + 1);
        assert(changed_from(source, none, p) =~= source.skip(p));
    } else {
        assert(changed_from(source, none, p) =~= source.skip(p));
    }
}

/// Without changes, the text stays as it is.
pub proof fn no_changes_keep_the_text(source: Seq<u8>)
    ensures
        applicable(source, Seq::<TextChangeView>::empty()),
        changed(source, Seq::<TextChangeView>::empty()) == source,
{
    nothing_changed_from(source, 0);
    assert(source.skip(0) =~= source);
}

proof fn one_change_from(source: Seq<u8>, change: TextChangeView, p: int)
    requires
        0 <= change.start <= change.end <= source.len(),
        0 <= p <= source.len(),
    ensures
        changed_from(source, seq![change], p) == if p <= change.start {
            source.subrange(p, change.start) + encode_utf8(change.new_text) + source.skip(
                change.end,
            )
        } else if p <= change.end {
            source.skip(change.end)
        } else {
            source.skip(p)
        },
    decreases source.len() - p,
{
    let changes = seq![change];
    let new_bytes = encode_utf8(change.new_text);
    reveal_with_fuel(changed_from, 2);
    reveal_with_fuel(put_at, 2);
    assert(changes.drop_last() =~= Seq::<TextChangeView>::empty());
    assert(changes.last() == change);
    assert(put_at(changes, p, true) =~= if p == change.start && p == change.end {
        new_bytes
    } else {
        Seq::<u8>::empty()
    });
    assert(put_at(changes, p, false) =~= if p == change.start && p != change.end {
        new_bytes
    } else {
        Seq::<u8>::empty()
    });
    assert(is_replaced(changes, p) == (change.start <= p < change.end)) by {
        assert(changes[0] == change);
    }
    if p < source.len() {
        one_change_from(source, change, p + 1);
    }
    if p < change.start {
        assert(source.subrange(p, change.start) =~= seq![source[p]] + source.subrange(
            p + 1,
            change.start,
        ));
        assert(changed_from(source, changes, p) =~= source.subrange(p, change.start) + new_bytes
            + source.skip(change.end));
    } else if p == change.start {
        assert(source.subrange(p, change.start) =~= Seq::<u8>::empty());
        if p < change.end {
            assert(changed_from(source, changes, p) =~= new_bytes + source.skip(change.end));
        } else {
            assert(changed_from(source, changes, p) =~= new_bytes + source.skip(p));
        }
        assert(source.subrange(p, change.start) + new_bytes =~= new_bytes);
    } else if p < change.end {
        assert(changed_from(source, changes, p) =~= source.skip(change.end));
    } else {
        assert(changed_from(source, changes, p) =~= source.skip(p));
    }
}

/// One change puts its text in the place of its range, and leaves what is before the range and
/// what is behind it.
pub proof fn one_change_replaces_its_range(source: Seq<u8>, change: TextChangeView)
    requires
        0 <= change.start <= change.end <= source.len(),
    ensures
        changed(source, seq![change]) == source.take(change.start) + encode_utf8(change.new_text)
            + source.skip(change.end),
{
    one_change_from(source, change, 0);
    assert(source.subrange(0, change.start) =~= source.take(change.start));
}

/// Changes can be made exactly where each of them begins before it ends, within the text and between its
/// characters, and no two of them overlap: one of two ends where the other begins or before it.
pub proof fn changes_have_to_be_apart(source: &str, changes: &Vec<TextChange>, r: bool, i: int, j: int)
    requires
        call_ensures(can_apply, (source, changes), r),
        r,
        0 <= i < changes@.len(),
        0 <= j < changes@.len(),
        i != j,
    ensures
        changes@[i].start <= changes@[i].end <= encode_utf8(source@).len(),
        is_char_boundary(encode_utf8(source@), changes@[i].start as int),
        is_char_boundary(encode_utf8(source@), changes@[i].end as int),
        changes@[i].end <= changes@[j].start || changes@[j].end <= changes@[i].start,
{
    let views = change_views(changes@);
    assert(views[i] == changes@[i]@);
    assert(views[j] == changes@[j]@);
    assert(fits(encode_utf8(source@), views[i]));
    if i < j {
        assert(apart(views[i], views[j]));
    } else {
        assert(apart(views[j], views[i]));
    }
}

/// Changes that fit the text can be made where of any two of them the one ends before the other begins, or
/// where it begins.
pub proof fn separate_changes_can_be_made(source: &str, changes: &Vec<TextChange>, r: bool)
    requires
        call_ensures(can_apply, (source, changes), r),
        forall|i: int|
            0 <= i < changes@.len() ==> (#[trigger] changes@[i]).start < changes@[i].end
                && changes@[i].end <= encode_utf8(source@).len() && is_char_boundary(
                encode_utf8(source@),
                changes@[i].start as int,
            ) && is_char_boundary(encode_utf8(source@), changes@[i].end as int),
        forall|i: int, j: int|
            0 <= i < j < changes@.len() ==> (#[trigger] changes@[i]).end <= (
            #[trigger] changes@[j]).start || changes@[j].end <= changes@[i].start,
    ensures
        r,
{
    let views = change_views(changes@);
    assert forall|i: int| 0 <= i < views.len() implies fits(
        encode_utf8(source@),
        #[trigger] views[i],
    ) by {
        assert(views[i] == changes@[i]@);
    }
    assert forall|i: int, j: int| 0 <= i < j < views.len() implies apart(
        #[trigger] views[i],
        #[trigger] views[j],
    ) by {
        assert(views[i] == changes@[i]@);
        assert(views[j] == changes@[j]@);
        assert(changes@[i].start < changes@[i].end);
        assert(changes@[j].start < changes@[j].end);
    }
}

} // verus!
