//! Field validators for request bodies, and the wrapper marking a body
//! as validated.

use vstd::prelude::*;
use vstd::string::StrSliceExecFns;
use vstd::string::StringExecFns;

verus! {

/// A request body that passed deserialization and field validation.
#[derive(Debug)]
pub struct ValidatedJson<T>(pub T);

/// Whether a character counts as a Unicode letter or digit.
pub uninterp spec fn alphanumeric_of(c: char) -> bool;

/// Whether a character counts as a Unicode letter.
pub uninterp spec fn alphabetic_of(c: char) -> bool;

/// Whether a character counts as Unicode whitespace.
pub uninterp spec fn whitespace_of(c: char) -> bool;

/// Relies on char::is_alphanumeric: Unicode letter-or-digit
/// classification, a function of the character alone.
#[verifier::external_body]
fn char_is_alphanumeric(c: char) -> (r: bool)
    ensures
        r == alphanumeric_of(c),
{
    c.is_alphanumeric()
}

/// Relies on char::is_alphabetic: Unicode letter classification, a
/// function of the character alone.
#[verifier::external_body]
fn char_is_alphabetic(c: char) -> (r: bool)
    ensures
        r == alphabetic_of(c),
{
    c.is_alphabetic()
}

/// Relies on char::is_whitespace: Unicode whitespace classification, a
/// function of the character alone.
#[verifier::external_body]
fn char_is_whitespace(c: char) -> (r: bool)
    ensures
        r == whitespace_of(c),
{
    c.is_whitespace()
}

/// Whether a request body may be read as JSON: the content type must be
/// present and start with `application/json`.
pub fn content_type_is_json(header: Option<&String>) -> (r: bool)
    ensures
        r == (header matches Some(h) && h@.len() >= 16 && h@.subrange(0, 16)
            == "application/json"@),
{
    proof {
        reveal_strlit("application/json");
    }
    match header {
        Some(h) => crate::text::str_starts_with(h.as_str(), "application/json"),
        None => false,
    }
}

/// The text without its leading whitespace.
pub open spec fn trim_front(s: Seq<char>) -> Seq<char>
    decreases s.len(),
{
    if s.len() == 0 {
        s
    } else if whitespace_of(s[0]) {
        trim_front(s.skip(1))
    } else {
        s
    }
}

/// The text without its trailing whitespace.
pub open spec fn trim_back(s: Seq<char>) -> Seq<char>
    decreases s.len(),
{
    if s.len() == 0 {
        s
    } else if whitespace_of(s.last()) {
        trim_back(s.drop_last())
    } else {
        s
    }
}

/// The text without leading and trailing whitespace.
pub open spec fn spec_trimmed(s: Seq<char>) -> Seq<char> {
    trim_back(trim_front(s))
}

proof fn lemma_trim_front_at(s: Seq<char>, i: int)
    requires
        0 <= i <= s.len(),
        forall|j: int| 0 <= j < i ==> whitespace_of(s[j]),
        i < s.len() ==> !whitespace_of(s[i]),
    ensures
        trim_front(s) == s.skip(i),
    decreases i,
{
    if i == 0 {
        assert(s.skip(0) =~= s);
    } else {
        lemma_trim_front_at(s.skip(1), i - 1);
        assert(s.skip(1).skip(i - 1) =~= s.skip(i));
    }
}

proof fn lemma_trim_back_at(s: Seq<char>, e: int)
    requires
        0 <= e <= s.len(),
        forall|j: int| e <= j < s.len() ==> whitespace_of(s[j]),
        e > 0 ==> !whitespace_of(s[e - 1]),
    ensures
        trim_back(s) == s.take(e),
    decreases s.len() - e,
{
    if e == s.len() {
        assert(s.take(e) =~= s);
    } else {
        assert(whitespace_of(s.last()));
        lemma_trim_back_at(s.drop_last(), e);
        assert(s.drop_last().take(e) =~= s.take(e));
    }
}

/// The text without leading and trailing whitespace.
pub fn char_trimmed(s: &str) -> (r: String)
    ensures
        r@ == spec_trimmed(s@),
{
    let len = s.unicode_len();
    let mut start: usize = 0;
    while start < len && char_is_whitespace(s.get_char(start))
        invariant
            start <= len,
            len == s@.len(),
            forall|j: int| 0 <= j < start ==> whitespace_of(s@[j]),
        decreases len - start,
    {
        start = start + 1;
    }
    proof {
        lemma_trim_front_at(s@, start as int);
    }
    if start == len {
        proof {
            assert(s@.skip(len as int) =~= Seq::<char>::empty());
            assert(trim_back(Seq::<char>::empty()) =~= Seq::<char>::empty());
        }
        return String::new();
    }
    let mut end: usize = len;
    while end > start && char_is_whitespace(s.get_char(end - 1))
        invariant
            start <= end <= len,
            len == s@.len(),
            forall|j: int| end <= j < len ==> whitespace_of(s@[j]),
            !whitespace_of(s@[start as int]),
        decreases end,
    {
        end = end - 1;
    }
    proof {
        assert(end > start);
        let front = s@.skip(start as int);
        assert forall|j: int|
            end - start <= j < front.len() implies whitespace_of(#[trigger] front[j]) by {
            assert(front[j] == s@[j + start]);
        }
        assert(front[end - start - 1] == s@[end as int - 1]);
        lemma_trim_back_at(front, end - start as int);
        assert(front.take(end - start as int) =~= s@.subrange(start as int, end as int));
    }
    crate::text::substr_to_string(s, start, end)
}

/// A character a username may hold: a letter or digit, an underscore, a
/// hyphen, or a period.
pub open spec fn username_char_ok(c: char) -> bool {
    alphanumeric_of(c) || c == '_' || c == '-' || c == '.'
}

/// A character a person's name may hold: a letter, whitespace, an
/// apostrophe, a hyphen, or a period.
pub open spec fn person_name_char_ok(c: char) -> bool {
    alphabetic_of(c) || whitespace_of(c) || c == '\'' || c == '-' || c == '.'
}

/// Whether a username is acceptable: 3 to 30 characters, not starting
/// with a period, all characters letters, digits, underscores, hyphens
/// or periods.
pub open spec fn spec_username_ok(s: Seq<char>) -> bool {
    &&& 3 <= s.len() <= 30
    &&& s[0] != '.'
    &&& forall|i: int| 0 <= i < s.len() ==> username_char_ok(#[trigger] s[i])
}

/// Validates a username: 3 to 30 characters, no leading period, only
/// letters, digits, underscores, hyphens and periods. On failure the
/// message names the first rule broken, in this order: too short, too
/// long, leading period, bad character.
#[verifier::loop_isolation(false)]
pub fn validate_username(username: &str) -> (r: Result<(), String>)
    ensures
        r is Ok <==> spec_username_ok(username@),
        r matches Err(m) ==> m@ == (if username@.len() < 3 {
            "Username must be at least 3 characters"@
        } else if username@.len() > 30 {
            "Username must be at most 30 characters"@
        } else if username@[0] == '.' {
            "Username cannot start with a period"@
        } else {
            "Username can only contain letters, numbers, underscores, hyphens and periods"@
        }),
{
    let len = username.unicode_len();
    if len < 3 {
        return Err(String::from_str("Username must be at least 3 characters"));
    }
    if len > 30 {
        return Err(String::from_str("Username must be at most 30 characters"));
    }
    if username.get_char(0) == '.' {
        return Err(String::from_str("Username cannot start with a period"));
    }
    let mut i: usize = 0;
    while i < len
        invariant
            i <= len,
            len == username@.len(),
            forall|j: int| 0 <= j < i ==> username_char_ok(#[trigger] username@[j]),
        decreases len - i,
    {
        let c = username.get_char(i);
        if !(char_is_alphanumeric(c) || c == '_' || c == '-' || c == '.') {
            return Err(
                String::from_str(
                    "Username can only contain letters, numbers, underscores, hyphens and periods",
                ),
            );
        }
        i = i + 1;
    }
    Ok(())
}

/// Whether a person's name is acceptable: non-blank, at most 50
/// characters once trimmed, all characters letters, whitespace,
/// apostrophes, hyphens or periods.
pub open spec fn spec_person_name_ok(s: Seq<char>) -> bool {
    &&& spec_trimmed(s).len() > 0
    &&& spec_trimmed(s).len() <= 50
    &&& forall|i: int| 0 <= i < s.len() ==> person_name_char_ok(#[trigger] s[i])
}

/// Validates a person's name: not blank, at most 50 characters once
/// trimmed, only letters, whitespace, apostrophes, hyphens and periods.
/// On failure the message names the first rule broken, in this order:
/// blank, too long, bad character.
#[verifier::loop_isolation(false)]
pub fn validate_person_name(name: &str) -> (r: Result<(), String>)
    ensures
        r is Ok <==> spec_person_name_ok(name@),
        r matches Err(m) ==> m@ == (if spec_trimmed(name@).len() == 0 {
            "Name cannot be empty"@
        } else if spec_trimmed(name@).len() > 50 {
            "Name must be at most 50 characters"@
        } else {
            "Name can only contain letters, spaces, hyphens, apostrophes and periods"@
        }),
{
    let trimmed = char_trimmed(name);
    let tlen = trimmed.as_str().unicode_len();
    if tlen == 0 {
        return Err(String::from_str("Name cannot be empty"));
    }
    if tlen > 50 {
        return Err(String::from_str("Name must be at most 50 characters"));
    }
    let len = name.unicode_len();
    let mut i: usize = 0;
    while i < len
        invariant
            i <= len,
            len == name@.len(),
            forall|j: int| 0 <= j < i ==> person_name_char_ok(#[trigger] name@[j]),
        decreases len - i,
    {
        let c = name.get_char(i);
        if !(char_is_alphabetic(c) || char_is_whitespace(c) || c == '\'' || c == '-' || c == '.') {
            return Err(
                String::from_str(
                    "Name can only contain letters, spaces, hyphens, apostrophes and periods",
                ),
            );
        }
        i = i + 1;
    }
    Ok(())
}

/// Whether a game name is acceptable: 3 to 100 characters once trimmed,
/// holding at least one letter or digit.
pub open spec fn spec_game_name_ok(s: Seq<char>) -> bool {
    &&& 3 <= spec_trimmed(s).len() <= 100
    &&& exists|i: int| 0 <= i < spec_trimmed(s).len() && alphanumeric_of(#[trigger] spec_trimmed(s)[i])
}

/// Validates a game name: 3 to 100 characters once trimmed, and at
/// least one letter or digit among them. On failure the message names
/// the first rule broken, in this order: too short, too long, no letter
/// or number.
#[verifier::loop_isolation(false)]
pub fn validate_game_name(name: &str) -> (r: Result<(), String>)
    ensures
        r is Ok <==> spec_game_name_ok(name@),
        r matches Err(m) ==> m@ == (if spec_trimmed(name@).len() < 3 {
            "Game name must be at least 3 characters"@
        } else if spec_trimmed(name@).len() > 100 {
            "Game name must be at most 100 characters"@
        } else {
            "Game name must contain at least one letter or number"@
        }),
{
    let trimmed = char_trimmed(name);
    let tlen = trimmed.as_str().unicode_len();
    if tlen < 3 {
        return Err(String::from_str("Game name must be at least 3 characters"));
    }
    if tlen > 100 {
        return Err(String::from_str("Game name must be at most 100 characters"));
    }
    let mut i: usize = 0;
    while i < tlen
        invariant
            i <= tlen,
            tlen == spec_trimmed(name@).len(),
            trimmed@ == spec_trimmed(name@),
            forall|j: int| 0 <= j < i ==> !alphanumeric_of(#[trigger] trimmed@[j]),
        decreases tlen - i,
    {
        if char_is_alphanumeric(trimmed.as_str().get_char(i)) {
            return Ok(());
        }
        i = i + 1;
    }
    Err(String::from_str("Game name must contain at least one letter or number"))
}

} // verus!
