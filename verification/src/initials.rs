//! The initials of a name, as the commits pane shows them beside a commit.

use vstd::prelude::*;

verus! {

/// `String::push` appends one character to the end of a string.
pub assume_specification[ String::push ](text: &mut String, c: char)
    ensures
        final(text)@ == old(text)@.push(c),
;

/// Whether a word starts at position `i` of `name`: a character that is not
/// a space, at the start of the name or behind a space.
pub open spec fn starts_word(name: Seq<char>, i: int) -> bool {
    &&& 0 <= i < name.len()
    &&& name[i] != ' '
    &&& (i == 0 || name[i - 1] == ' ')
}

/// The upper-case form of a letter of the basic Latin alphabet; any other
/// character stays as it is.
pub open spec fn spec_upper(c: char) -> char {
    if 'a' <= c <= 'z' {
        ((c as u8) - 32) as char
    } else {
        c
    }
}

/// The initials of the words that start before position `end` of `name`.
pub open spec fn initials_before(name: Seq<char>, end: nat) -> Seq<char>
    decreases end,
{
    if end == 0 {
        Seq::empty()
    } else if starts_word(name, end - 1) {
        initials_before(name, (end - 1) as nat).push(spec_upper(name[end - 1]))
    } else {
        initials_before(name, (end - 1) as nat)
    }
}

/// The initials of `name`: the first character of each of its words, in
/// upper case, in the order of the words. Words are what single spaces
/// separate; a run of spaces separates as one does.
pub open spec fn initials_of(name: Seq<char>) -> Seq<char> {
    initials_before(name, name.len())
}

/// The upper-case form of a letter of the basic Latin alphabet; any other
/// character stays as it is.
#[verifier::when_used_as_spec(spec_upper)]
pub fn upper(c: char) -> (up: char)
    ensures
        up == spec_upper(c),
{
    if 'a' <= c && c <= 'z' {
        ((c as u8) - 32) as char
    } else {
        c
    }
}

/// The initials of `name`: the first character of each of its words, in
/// upper case, in the order of the words.
///
/// A name without words, the empty name among them, has no initials. Only
/// letters of the basic Latin alphabet are put in upper case.
pub fn get_initials(name: &str) -> (initials: String)
    ensures
        initials@ == initials_of(name@),
{
    let len = name.unicode_len();
    let mut initials = String::new();
    let mut after_space = true;
    let mut i: usize = 0;
    while i < len
        invariant
            i <= len,
            len == name@.len(),
            after_space == (i == 0 || name@[i - 1] == ' '),
            initials@ == initials_before(name@, i as nat),
        decreases len - i,
    {
        let c = name.get_char(i);
        if c != ' ' && after_space {
            initials.push(upper(c));
        }
        after_space = c == ' ';
        i = i + 1;
    }
    initials
}

} // verus!
