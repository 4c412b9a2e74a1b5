//! Marking the occurrences of a search key in a text.

use vstd::prelude::*;

verus! {

/// What stands before a marked occurrence: `<b>`.
pub open spec fn mark_open() -> Seq<char> {
    seq!['<', 'b', '>']
}

/// What stands after a marked occurrence: `</b>`.
pub open spec fn mark_close() -> Seq<char> {
    seq!['<', '/', 'b', '>']
}

/// `text` with every occurrence of `key` put between `<b>` and `</b>`. The
/// occurrences are taken from the left and do not overlap; they are compared
/// character by character, so case counts. An empty key marks nothing.
pub open spec fn highlighted(key: Seq<char>, text: Seq<char>) -> Seq<char>
    decreases text.len(),
{
    if key.len() == 0 || text.len() < key.len() {
        text
    } else if key.is_prefix_of(text) {
        mark_open() + key + mark_close() + highlighted(key, text.skip(key.len() as int))
    } else {
        seq![text[0]] + highlighted(key, text.skip(1))
    }
}

/// `String::push` appends one character.
pub assume_specification[ String::push ](s: &mut String, ch: char)
    ensures
        final(s)@ == old(s)@.push(ch),
;

/// The characters of a string.
fn chars_of(s: &str) -> (v: Vec<char>)
    ensures
        v@ == s@,
{
    let mut v: Vec<char> = Vec::new();
    for c in it: s.chars()
        invariant
            it.seq() == s@,
            v@ == s@.take(it.index() as int),
    {
        v.push(c);
    }
    v
}

/// Whether `key` stands in `text` at position `at`.
fn occurs_at(text: &Vec<char>, key: &Vec<char>, at: usize) -> (res: bool)
    requires
        at <= text.len(),
    ensures
        res == key@.is_prefix_of(text@.skip(at as int)),
{
    if key.len() > text.len() - at {
        return false;
    }
    let mut k: usize = 0;
    while k < key.len()
        invariant
            at + key.len() <= text.len(),
            k <= key.len(),
            forall|j: int| 0 <= j < k ==> key[j] == text[at + j],
        decreases key.len() - k,
    {
        if key[k] != text[at + k] {
            assert(key@[k as int] != text@.skip(at as int)[k as int]);
            return false;
        }
        k += 1;
    }
    assert(key@ =~= text@.skip(at as int).subrange(0, key.len() as int));
    true
}

/// Appends the characters of `part` to `out`.
fn push_all(out: &mut String, part: &Vec<char>)
    ensures
        final(out)@ == old(out)@ + part@,
{
    let mut k: usize = 0;
    while k < part.len()
        invariant
            k <= part.len(),
            out@ == old(out)@ + part@.take(k as int),
        decreases part.len() - k,
    {
        out.push(part[k]);
        k += 1;
        assert(out@ =~= old(out)@ + part@.take(k as int));
    }
    assert(part@.take(part.len() as int) =~= part@);
}

/// `content` with every occurrence of `key` put between `<b>` and `</b>`.
pub fn highlight(key: &str, content: &str) -> (res: String)
    ensures
        res@ == highlighted(key@, content@),
{
    let key_chars = chars_of(key);
    let text = chars_of(content);
    let open = vec!['<', 'b', '>'];
    let close = vec!['<', '/', 'b', '>'];
    let mut out = String::new();
    let mut at: usize = 0;
    assert(text@.skip(0) =~= text@);
    while at < text.len()
        invariant
            at <= text.len(),
            key_chars@ == key@,
            text@ == content@,
            open@ == mark_open(),
            close@ == mark_close(),
            highlighted(key@, content@) == out@ + highlighted(key@, text@.skip(at as int)),
        decreases text.len() - at,
    {
        let ghost rest = text@.skip(at as int);
        let ghost done = out@;
        if key_chars.len() > 0 && occurs_at(&text, &key_chars, at) {
            push_all(&mut out, &open);
            push_all(&mut out, &key_chars);
            push_all(&mut out, &close);
            at += key_chars.len();
            assert(rest.skip(key@.len() as int) =~= text@.skip(at as int));
            assert(out@ + highlighted(key@, text@.skip(at as int)) =~= done + highlighted(
                key@,
                rest,
            ));
        } else {
            out.push(text[at]);
            at += 1;
            assert(rest.skip(1) =~= text@.skip(at as int));
            assert(highlighted(key@, rest) =~= seq![rest[0]] + highlighted(key@, rest.skip(1)));
            assert(out@ + highlighted(key@, text@.skip(at as int)) =~= done + highlighted(
                key@,
                rest,
            ));
        }
    }
    assert(highlighted(key@, text@.skip(at as int)) =~= Seq::<char>::empty());
    assert(out@ + Seq::<char>::empty() =~= out@);
    out
}

} // verus!
