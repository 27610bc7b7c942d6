//! Derivation of composed-type names.

use vstd::prelude::*;

verus! {

/// The upper-case form of an ASCII lower-case letter; every other character is
/// left as it is.
pub open spec fn ascii_upper(c: char) -> char {
    if 'a' <= c && c <= 'z' {
        ((c as u8) - 32) as char
    } else {
        c
    }
}

/// Whether the character at `i` opens a word: it stands at the front, or
/// right after a separator.
pub open spec fn opens_word(s: Seq<char>, i: int) -> bool {
    i == 0 || s[i - 1] == '_'
}

/// `s` with the first character of every word in upper case.
pub open spec fn capitalized(s: Seq<char>) -> Seq<char> {
    Seq::new(
        s.len(),
        |i: int|
            if opens_word(s, i) {
                ascii_upper(s[i])
            } else {
                s[i]
            },
    )
}

/// The test that picks the characters of words, and not the separators.
pub open spec fn in_word() -> spec_fn(char) -> bool {
    |c: char| c != '_'
}

/// The Pascal-case form of `s`: the words that `_` separates, each with its
/// first character in upper case, joined without the separators.
pub open spec fn pascal_case(s: Seq<char>) -> Seq<char> {
    capitalized(s).filter(in_word())
}

/// The text that ends every composed-type name.
pub open spec fn name_suffix() -> Seq<char> {
    "Error"@
}

/// The name of the composed type of the member `member` of the scope whose
/// identity is `scope`.
pub open spec fn composed_name(scope: Seq<char>, member: Seq<char>) -> Seq<char> {
    pascal_case(scope) + pascal_case(member) + name_suffix()
}

/// Executable form of [`ascii_upper`].
pub fn to_ascii_upper(c: char) -> (upper: char)
    ensures
        upper == ascii_upper(c),
{
    if 'a' <= c && c <= 'z' {
        ((c as u8) - 32) as char
    } else {
        c
    }
}

/// Converts a snake-case name to Pascal case.
pub fn snake_to_pascal(snake_case: &str) -> (pascal: String)
    ensures
        pascal@ == pascal_case(snake_case@),
{
    broadcast use vstd::string::group_string_axioms;

    let ghost marked = capitalized(snake_case@);
    let mut pascal = String::new();
    let mut at_start = true;
    proof {
        reveal(Seq::filter);
        assert(marked.take(0) =~= Seq::<char>::empty());
    }
    for c in it: snake_case.chars()
        invariant
            it.seq() == snake_case@,
            marked == capitalized(snake_case@),
            at_start == opens_word(snake_case@, it.index() as int),
            pascal@ == marked.take(it.index() as int).filter(in_word()),
    {
        proof {
            reveal(Seq::filter);
            let i = it.index() as int;
            assert(marked.take(i + 1).drop_last() =~= marked.take(i));
            assert(marked.take(i + 1).last() == marked[i]);
        }
        if c == '_' {
            at_start = true;
        } else {
            if at_start {
                pascal.push(to_ascii_upper(c));
            } else {
                pascal.push(c);
            }
            at_start = false;
        }
    }
    proof {
        assert(marked.take(marked.len() as int) =~= marked);
    }
    pascal
}

/// Names the composed type of the function `function_name` declared in the
/// scope whose identity is `prefix`.
pub fn name_composed_error(function_name: &str, prefix: &str) -> (name: String)
    ensures
        name@ == composed_name(prefix@, function_name@),
{
    let mut name = snake_to_pascal(prefix);
    let function_part = snake_to_pascal(function_name);
    name.append(function_part.as_str());
    name.append("Error");
    name
}

} // verus!
