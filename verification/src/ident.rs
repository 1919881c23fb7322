//! Names of sources and queries: which are accepted, and how they are quoted
//! before they are placed into generated SQL.

use crate::error::ServeError;
use vstd::prelude::*;
use vstd::string::*;

verus! {

/// A character that may appear in the name of a source or a query.
pub open spec fn is_name_char(c: char) -> bool {
    ||| 'a' <= c <= 'z'
    ||| 'A' <= c <= 'Z'
    ||| '0' <= c <= '9'
    ||| c == '-'
    ||| c == '_'
}

/// A name is valid when every character of it is a name character.
pub open spec fn is_valid_name(name: Seq<char>) -> bool {
    forall|i: int| 0 <= i < name.len() ==> is_name_char(#[trigger] name[i])
}

/// The quoted form of a name: the name between two double quotes.
pub open spec fn quoted(name: Seq<char>) -> Seq<char> {
    seq!['"'] + name + seq!['"']
}

/// Decides whether `c` is a name character.
pub fn name_char(c: char) -> (ok: bool)
    ensures
        ok == is_name_char(c),
{
    (c >= 'a' && c <= 'z') || (c >= 'A' && c <= 'Z') || (c >= '0' && c <= '9') || c == '-' || c
        == '_'
}

/// Accepts a name exactly when it is valid, and names it in the failure
/// otherwise.
pub fn validate_table_name(name: &str) -> (result: Result<(), ServeError>)
    ensures
        result is Ok <==> is_valid_name(name@),
        result matches Err(e) ==> e matches ServeError::InvalidIdentifier { name: n } && n@
            == name@,
{
    if is_name(name) {
        Ok(())
    } else {
        Err(ServeError::InvalidIdentifier { name: String::from_str(name) })
    }
}

/// Decides whether a name is valid.
pub fn is_name(name: &str) -> (ok: bool)
    ensures
        ok == is_valid_name(name@),
{
    let mut ok = true;
    for c in it: name.chars()
        invariant
            it.seq() == name@,
            ok == is_valid_name(name@.take(it.index())),
    {
        proof {
            let k = it.index();
            assert(name@.take(k + 1) == name@.take(k).push(c));
            if is_valid_name(name@.take(k)) && is_name_char(c) {
                assert(is_valid_name(name@.take(k + 1)));
            }
            if is_valid_name(name@.take(k + 1)) {
                assert(name@.take(k + 1)[k] == c);
                assert forall|i: int| 0 <= i < k implies is_name_char(
                    #[trigger] name@.take(k)[i],
                ) by {
                    assert(name@.take(k + 1)[i] == name@.take(k)[i]);
                }
            }
        }
        ok = ok && name_char(c);
    }
    assert(name@.take(name@.len() as int) == name@);
    ok
}

/// Wraps a name in identifier quotes.
pub fn escape_table_name(name: &str) -> (sql: String)
    ensures
        sql@ == quoted(name@),
{
    let mut sql = String::from_str("\"");
    sql.append(name);
    sql.append("\"");
    proof {
        reveal_strlit("\"");
    }
    sql
}

/// A name made of letters, digits, `-` and `_` alone is valid.
pub proof fn law_names_of_name_characters_are_valid(name: Seq<char>)
    requires
        forall|i: int| 0 <= i < name.len() ==> is_name_char(#[trigger] name[i]),
    ensures
        is_valid_name(name),
{
}

/// A name that holds any other character is not valid.
pub proof fn law_other_character_makes_invalid(name: Seq<char>, at: int)
    requires
        0 <= at < name.len(),
        !is_name_char(name[at]),
    ensures
        !is_valid_name(name),
{
}

/// Quoting keeps the name between its two quote characters: a valid name
/// holds no quote, so the quoted form holds exactly two.
pub proof fn law_quoted_valid_name_has_no_inner_quote(name: Seq<char>, at: int)
    requires
        is_valid_name(name),
        0 <= at < quoted(name).len(),
    ensures
        quoted(name).len() == name.len() + 2,
        quoted(name)[at] == '"' <==> at == 0 || at == name.len() + 1,
{
    if 0 < at <= name.len() {
        assert(quoted(name)[at] == name[at - 1]);
        assert(is_name_char(name[at - 1]));
    }
}

} // verus!
