//! Identifier validation and the collision-free naming scheme.
//!
//! Every artifact generated for a published field is named deterministically
//! from the owning type's name and the field's name: the statically scoped
//! channel as `{TYPE_SNAKE_UPPER}_{FIELD_UPPER}_WATCH`, the subscriber type
//! as `{TypeName}{FieldPascal}`, the owner-side sender as `{field}_sender`,
//! and the mutate-and-publish accessor as `set_{field}`.

use vstd::prelude::*;

verus! {

/// An ASCII lower-case letter.
pub open spec fn is_lower(c: char) -> bool {
    'a' <= c && c <= 'z'
}

/// An ASCII upper-case letter.
pub open spec fn is_upper(c: char) -> bool {
    'A' <= c && c <= 'Z'
}

/// An ASCII decimal digit.
pub open spec fn is_digit(c: char) -> bool {
    '0' <= c && c <= '9'
}

/// A character that may start an identifier.
pub open spec fn is_ident_start(c: char) -> bool {
    is_lower(c) || is_upper(c) || c == '_'
}

/// A character that may continue an identifier.
pub open spec fn is_ident_continue(c: char) -> bool {
    is_ident_start(c) || is_digit(c)
}

/// A valid identifier: non-empty, starting with a letter or underscore,
/// continuing with letters, digits or underscores.
pub open spec fn is_identifier(s: Seq<char>) -> bool {
    &&& s.len() > 0
    &&& is_ident_start(s[0])
    &&& forall|i: int| 0 < i < s.len() ==> is_ident_continue(#[trigger] s[i])
}

/// `c` folded to upper case, for ASCII letters.
pub open spec fn upper_char(c: char) -> char {
    if is_lower(c) {
        (((c as u8) - 32) as char)
    } else {
        c
    }
}

/// `c` folded to lower case, for ASCII letters.
pub open spec fn lower_char(c: char) -> char {
    if is_upper(c) {
        (((c as u8) + 32) as char)
    } else {
        c
    }
}

/// `s` with every ASCII letter folded to upper case.
pub open spec fn spec_to_upper(s: Seq<char>) -> Seq<char> {
    s.map_values(|c: char| upper_char(c))
}

/// The contribution of one character to the snake-case form: an interior
/// upper-case letter opens a new `_`-separated word.
pub open spec fn snake_piece(c: char, at_start: bool) -> Seq<char> {
    if is_upper(c) {
        if at_start {
            seq![lower_char(c)]
        } else {
            seq!['_', lower_char(c)]
        }
    } else {
        seq![c]
    }
}

/// A Pascal-case name rewritten in snake case: each upper-case letter is
/// lowered, and starts a new `_`-separated word unless it stands first.
pub open spec fn spec_pascal_to_snake(s: Seq<char>) -> Seq<char>
    decreases s.len(),
{
    if s.len() == 0 {
        Seq::empty()
    } else {
        spec_pascal_to_snake(s.drop_last()) + snake_piece(s.last(), s.len() == 1)
    }
}

/// The contribution of the last character of `s` to the Pascal-case form:
/// underscores vanish, and a character that opens a `_`-separated word is
/// raised to upper case.
pub open spec fn pascal_piece(s: Seq<char>) -> Seq<char>
    recommends
        s.len() > 0,
{
    if s.last() == '_' {
        Seq::empty()
    } else if s.len() == 1 || s[s.len() - 2] == '_' {
        seq![upper_char(s.last())]
    } else {
        seq![s.last()]
    }
}

/// A snake-case name rewritten in Pascal case: underscores are dropped and
/// the first character of each `_`-separated word is raised to upper case.
pub open spec fn spec_snake_to_pascal(s: Seq<char>) -> Seq<char>
    decreases s.len(),
{
    if s.len() == 0 {
        Seq::empty()
    } else {
        spec_snake_to_pascal(s.drop_last()) + pascal_piece(s)
    }
}

/// The identifier of the statically scoped channel for one published field
/// of one owning type.
pub open spec fn spec_channel_name(struct_name: Seq<char>, field_name: Seq<char>) -> Seq<char> {
    spec_to_upper(spec_pascal_to_snake(struct_name)) + "_"@ + spec_to_upper(field_name) + "_WATCH"@
}

/// The name of the generated subscriber type for one published field.
pub open spec fn spec_subscriber_name(struct_name: Seq<char>, field_name: Seq<char>) -> Seq<char> {
    struct_name + spec_snake_to_pascal(field_name)
}

/// The name of the owner-side sender field for one published field.
pub open spec fn spec_sender_name(field_name: Seq<char>) -> Seq<char> {
    field_name + "_sender"@
}

/// The name of the mutate-and-publish accessor for one published field.
pub open spec fn spec_publish_setter_name(field_name: Seq<char>) -> Seq<char> {
    "set_"@ + field_name
}

/// Relies on `String::push`: appends the given character to the string.
#[verifier::external_body]
fn push_char(s: &mut String, c: char)
    ensures
        final(s)@ == old(s)@.push(c),
{
    s.push(c);
}

/// Decides [`is_ident_start`].
fn ident_start_char(c: char) -> (r: bool)
    ensures
        r == is_ident_start(c),
{
    ('a' <= c && c <= 'z') || ('A' <= c && c <= 'Z') || c == '_'
}

/// Decides [`is_ident_continue`].
fn ident_continue_char(c: char) -> (r: bool)
    ensures
        r == is_ident_continue(c),
{
    ident_start_char(c) || ('0' <= c && c <= '9')
}

/// Decides [`is_identifier`] for a string slice.
pub fn check_identifier(s: &str) -> (r: bool)
    ensures
        r == is_identifier(s@),
{
    let n = s.unicode_len();
    if n == 0 {
        return false;
    }
    if !ident_start_char(s.get_char(0)) {
        return false;
    }
    let mut i: usize = 1;
    while i < n
        invariant
            n == s@.len(),
            1 <= i <= n,
            is_ident_start(s@[0]),
            forall|j: int| 0 < j < i ==> is_ident_continue(#[trigger] s@[j]),
        decreases n - i,
    {
        if !ident_continue_char(s.get_char(i)) {
            return false;
        }
        i += 1;
    }
    true
}

/// Folds one character to upper case.
fn to_upper_char(c: char) -> (r: char)
    ensures
        r == upper_char(c),
{
    if 'a' <= c && c <= 'z' {
        ((c as u8) - 32) as char
    } else {
        c
    }
}

/// Folds one character to lower case.
fn to_lower_char(c: char) -> (r: char)
    ensures
        r == lower_char(c),
{
    if 'A' <= c && c <= 'Z' {
        ((c as u8) + 32) as char
    } else {
        c
    }
}

/// Folds every ASCII letter of `s` to upper case.
pub fn to_ascii_upper(s: &str) -> (r: String)
    ensures
        r@ == spec_to_upper(s@),
{
    let n = s.unicode_len();
    let mut out = String::new();
    let mut i: usize = 0;
    while i < n
        invariant
            n == s@.len(),
            i <= n,
            out@ == spec_to_upper(s@.take(i as int)),
        decreases n - i,
    {
        let c = s.get_char(i);
        push_char(&mut out, to_upper_char(c));
        proof {
            assert(s@.take(i + 1).drop_last() =~= s@.take(i as int));
            assert(out@ =~= spec_to_upper(s@.take(i + 1)));
        }
        i += 1;
    }
    proof {
        assert(s@.take(n as int) =~= s@);
    }
    out
}

/// Rewrites a Pascal-case name in snake case, as [`spec_pascal_to_snake`]
/// describes.
pub fn pascal_to_snake_case(s: &str) -> (r: String)
    ensures
        r@ == spec_pascal_to_snake(s@),
{
    let n = s.unicode_len();
    let mut out = String::new();
    let mut i: usize = 0;
    while i < n
        invariant
            n == s@.len(),
            i <= n,
            out@ == spec_pascal_to_snake(s@.take(i as int)),
        decreases n - i,
    {
        let c = s.get_char(i);
        if 'A' <= c && c <= 'Z' {
            if i > 0 {
                push_char(&mut out, '_');
            }
            push_char(&mut out, to_lower_char(c));
        } else {
            push_char(&mut out, c);
        }
        proof {
            assert(s@.take(i + 1).drop_last() =~= s@.take(i as int));
            assert(s@.take(i + 1).last() == s@[i as int]);
            assert(out@ =~= spec_pascal_to_snake(s@.take(i + 1)));
        }
        i += 1;
    }
    proof {
        assert(s@.take(n as int) =~= s@);
    }
    out
}

/// Rewrites a snake-case name in Pascal case, as [`spec_snake_to_pascal`]
/// describes.
pub fn snake_to_pascal_case(s: &str) -> (r: String)
    ensures
        r@ == spec_snake_to_pascal(s@),
{
    let n = s.unicode_len();
    let mut out = String::new();
    let mut i: usize = 0;
    while i < n
        invariant
            n == s@.len(),
            i <= n,
            out@ == spec_snake_to_pascal(s@.take(i as int)),
        decreases n - i,
    {
        let c = s.get_char(i);
        if c == '_' {
            // An underscore only separates words; it is dropped.
        } else if i == 0 {
            push_char(&mut out, to_upper_char(c));
        } else {
            let prev = s.get_char(i - 1);
            if prev == '_' {
                push_char(&mut out, to_upper_char(c));
            } else {
                push_char(&mut out, c);
            }
        }
        proof {
            assert(s@.take(i + 1).drop_last() =~= s@.take(i as int));
            assert(s@.take(i + 1).last() == s@[i as int]);
            assert(out@ =~= spec_snake_to_pascal(s@.take(i + 1)));
        }
        i += 1;
    }
    proof {
        assert(s@.take(n as int) =~= s@);
    }
    out
}

/// Builds the channel identifier for one published field of one owning
/// type, following [`spec_channel_name`].
pub fn channel_name(struct_name: &str, field_name: &str) -> (r: String)
    ensures
        r@ == spec_channel_name(struct_name@, field_name@),
{
    let snake = pascal_to_snake_case(struct_name);
    let mut out = to_ascii_upper(snake.as_str());
    out.append("_");
    let field_upper = to_ascii_upper(field_name);
    out.append(field_upper.as_str());
    out.append("_WATCH");
    proof {
        assert(out@ =~= spec_channel_name(struct_name@, field_name@));
    }
    out
}

/// Builds the subscriber type name for one published field, following
/// [`spec_subscriber_name`].
pub fn subscriber_name(struct_name: &str, field_name: &str) -> (r: String)
    ensures
        r@ == spec_subscriber_name(struct_name@, field_name@),
{
    let mut out = String::from_str(struct_name);
    let pascal = snake_to_pascal_case(field_name);
    out.append(pascal.as_str());
    out
}

/// Builds the owner-side sender field name for one published field,
/// following [`spec_sender_name`].
pub fn sender_name(field_name: &str) -> (r: String)
    ensures
        r@ == spec_sender_name(field_name@),
{
    let mut out = String::from_str(field_name);
    out.append("_sender");
    out
}

/// Builds the mutate-and-publish accessor name for one published field,
/// following [`spec_publish_setter_name`].
pub fn publish_setter_name(field_name: &str) -> (r: String)
    ensures
        r@ == spec_publish_setter_name(field_name@),
{
    let mut out = String::from_str("set_");
    out.append(field_name);
    out
}

} // verus!
