use vstd::prelude::*;

verus! {

/// A numeric text buffer is empty when it holds nothing or a lone minus sign.
pub open spec fn num_empty(s: Seq<char>) -> bool {
    s.len() == 0 || (s.len() == 1 && s[0] == '-')
}

/// The buffer with its sign flipped: a leading minus is removed, else one is put in front.
pub open spec fn toggled(s: Seq<char>) -> Seq<char> {
    if s.len() > 0 && s[0] == '-' {
        s.subrange(1, s.len() as int)
    } else {
        seq!['-'] + s
    }
}

/// The buffer after a decimal point is typed: it gains one only when it has a
/// number in it and no point yet.
pub open spec fn with_point(s: Seq<char>) -> Seq<char> {
    if !s.contains('.') && !num_empty(s) {
        s.push('.')
    } else {
        s
    }
}

/// The buffer after a backspace: the last character goes, if there is one.
pub open spec fn backspaced(s: Seq<char>) -> Seq<char> {
    if s.len() > 0 {
        s.drop_last()
    } else {
        s
    }
}

/// Relies on String::push: the character is appended at the end.
#[verifier::external_body]
fn push_char(s: &mut String, c: char)
    ensures
        final(s)@ == old(s)@.push(c),
{
    s.push(c)
}

/// Relies on String::pop: the last character is removed and returned, if any.
#[verifier::external_body]
fn pop_char(s: &mut String) -> (r: Option<char>)
    ensures
        old(s)@.len() == 0 ==> r is None && final(s)@ == old(s)@,
        old(s)@.len() > 0 ==> r == Some(old(s)@.last()) && final(s)@ == old(s)@.drop_last(),
{
    s.pop()
}

/// Relies on String::insert: the character is inserted before the given
/// position, which is here always the start.
#[verifier::external_body]
fn insert_char(s: &mut String, idx: usize, c: char)
    requires
        idx == 0,
    ensures
        final(s)@ == seq![c] + old(s)@,
{
    s.insert(idx, c)
}

/// Relies on String::remove: the character at the given position, here always
/// the first one, is taken out and returned.
#[verifier::external_body]
fn remove_char(s: &mut String, idx: usize) -> (r: char)
    requires
        idx == 0,
        old(s)@.len() > 0,
    ensures
        r == old(s)@[0],
        final(s)@ == old(s)@.subrange(1, old(s)@.len() as int),
{
    s.remove(idx)
}

/// Tells whether a numeric text buffer counts as empty.
pub fn is_this_num_empty(this_string: &String) -> (r: bool)
    ensures
        r == num_empty(this_string@),
{
    let this_len = this_string.as_str().unicode_len();
    this_len == 0 || (this_len == 1 && this_string.as_str().get_char(0) == '-')
}

/// Tells whether the text holds the given character.
pub fn contains_char(s: &String, c: char) -> (r: bool)
    ensures
        r == s@.contains(c),
{
    let n = s.as_str().unicode_len();
    let mut i: usize = 0;
    while i < n
        invariant
            n == s@.len(),
            i <= n,
            forall|j: int| 0 <= j < i ==> s@[j] != c,
        decreases n - i,
    {
        if s.as_str().get_char(i) == c {
            return true;
        }
        i = i + 1;
    }
    false
}

/// Appends a digit (or any character) to the buffer.
pub fn append_char(s: &mut String, c: char)
    ensures
        final(s)@ == old(s)@.push(c),
{
    push_char(s, c);
}

/// Appends a decimal point unless the buffer already has one or holds no number.
pub fn add_point(s: &mut String)
    ensures
        final(s)@ == with_point(old(s)@),
{
    if !contains_char(s, '.') && !is_this_num_empty(s) {
        push_char(s, '.');
    }
}

/// Flips the sign of the buffer.
pub fn toggle_sign(s: &mut String)
    ensures
        final(s)@ == toggled(old(s)@),
{
    let n = s.as_str().unicode_len();
    if n > 0 && s.as_str().get_char(0) == '-' {
        remove_char(s, 0);
    } else {
        insert_char(s, 0, '-');
    }
}

/// Removes the last character of the buffer, if there is one.
pub fn backspace(s: &mut String)
    ensures
        final(s)@ == backspaced(old(s)@),
{
    pop_char(s);
}

/// Flipping the sign twice gives back the buffer it started from, for any
/// buffer that does not begin with two minus signs (entry never builds one).
pub proof fn lemma_toggle_involution(s: Seq<char>)
    requires
        !(s.len() >= 2 && s[0] == '-' && s[1] == '-'),
    ensures
        toggled(toggled(s)) == s,
{
    if s.len() > 0 && s[0] == '-' {
        let t = s.subrange(1, s.len() as int);
        assert(seq!['-'] + t =~= s);
    } else {
        let t = seq!['-'] + s;
        assert(t[0] == '-');
        assert(t.subrange(1, t.len() as int) =~= s);
    }
}

/// A second decimal point typed on the same buffer changes nothing.
pub proof fn lemma_point_idempotent(s: Seq<char>)
    ensures
        with_point(with_point(s)) == with_point(s),
{
    if !s.contains('.') && !num_empty(s) {
        let t = s.push('.');
        assert(t[t.len() - 1] == '.');
        assert(t.contains('.'));
    }
}

} // verus!
