//! The authentication header set derived from a configuration, and the
//! syntactic validity of header names and values.

use vstd::prelude::*;

use crate::config::ConfigModel;
use crate::text::ascii_lower;

verus! {

/// Whether `c` may stand in an HTTP header name: a letter, a digit, or
/// one of the token punctuation characters; an ASCII upper-case letter
/// is accepted and later folded to lower case.
pub open spec fn is_header_name_char(c: char) -> bool {
    ||| 'a' as u32 <= c as u32 && c as u32 <= 'z' as u32
    ||| 'A' as u32 <= c as u32 && c as u32 <= 'Z' as u32
    ||| '0' as u32 <= c as u32 && c as u32 <= '9' as u32
    ||| c == '!'
    ||| c == '"'
    ||| c == '#'
    ||| c == '$'
    ||| c == '%'
    ||| c == '&'
    ||| c == '\''
    ||| c == '*'
    ||| c == '+'
    ||| c == '-'
    ||| c == '.'
    ||| c == '^'
    ||| c == '_'
    ||| c == '`'
    ||| c == '|'
    ||| c == '~'
}

/// Whether `s` is a syntactically valid HTTP header name: non-empty, at
/// most 65535 characters, all of them header name characters.
pub open spec fn valid_header_name(s: Seq<char>) -> bool {
    &&& 0 < s.len() <= 65535
    &&& forall|i: int| 0 <= i < s.len() ==> is_header_name_char(#[trigger] s[i])
}

/// Whether `c` may stand in an HTTP header value: horizontal tab, or any
/// character other than the other controls and delete.
pub open spec fn is_header_value_char(c: char) -> bool {
    c == '\t' || (32 <= c as u32 && c as u32 != 127)
}

/// Whether `s` is a syntactically valid HTTP header value.
pub open spec fn valid_header_value(s: Seq<char>) -> bool {
    forall|i: int| 0 <= i < s.len() ==> is_header_value_char(#[trigger] s[i])
}

/// The bearer credential of a configuration: the JWT when one is set,
/// the API key otherwise.
pub open spec fn bearer_of(c: ConfigModel) -> Seq<char> {
    match c.jwt {
        Some(jwt) => jwt,
        None => c.api_key,
    }
}

/// The value of the `Authorization` header of a configuration.
pub open spec fn auth_value_of(c: ConfigModel) -> Seq<char> {
    "Bearer "@ + bearer_of(c)
}

/// The header set of a configuration, in insertion order: the `apikey`
/// and `Authorization` headers first, then the custom headers.
pub open spec fn header_plan(c: ConfigModel) -> Seq<(Seq<char>, Seq<char>)> {
    seq![("apikey"@, c.api_key), ("Authorization"@, auth_value_of(c))] + c.headers
}

/// Whether every header of the plan of `c` is syntactically valid: the
/// API key and the authorization value as header values, and each custom
/// header's name and value. The two built-in names are constants and
/// always valid.
pub open spec fn plan_valid(c: ConfigModel) -> bool {
    &&& valid_header_value(c.api_key)
    &&& valid_header_value(auth_value_of(c))
    &&& forall|i: int|
        0 <= i < c.headers.len() ==> valid_header_name(#[trigger] c.headers[i].0)
            && valid_header_value(c.headers[i].1)
}

/// The first syntactically invalid piece among a sequence of custom
/// headers, in validation order: each header's name before its value.
/// Empty when every piece is valid.
pub open spec fn first_custom_fault(hs: Seq<(Seq<char>, Seq<char>)>) -> Seq<char>
    decreases hs.len(),
{
    if hs.len() == 0 {
        Seq::empty()
    } else if !valid_header_name(hs[0].0) {
        hs[0].0
    } else if !valid_header_value(hs[0].1) {
        hs[0].1
    } else {
        first_custom_fault(hs.drop_first())
    }
}

/// The piece of the plan of `c` that assembly rejects first: the API
/// key, then the authorization value, then the custom headers in order.
/// Meaningful only when `plan_valid(c)` fails.
pub open spec fn assembly_fault(c: ConfigModel) -> Seq<char> {
    if !valid_header_value(c.api_key) {
        c.api_key
    } else if !valid_header_value(auth_value_of(c)) {
        auth_value_of(c)
    } else {
        first_custom_fault(c.headers)
    }
}

/// A run of valid custom headers contributes no fault: the first fault
/// of the whole sequence is the first fault past the valid prefix.
pub proof fn lemma_first_custom_fault_skip(hs: Seq<(Seq<char>, Seq<char>)>, i: int)
    requires
        0 <= i <= hs.len(),
        forall|j: int| 0 <= j < i ==> valid_header_name(#[trigger] hs[j].0) && valid_header_value(
            hs[j].1,
        ),
    ensures
        first_custom_fault(hs) == first_custom_fault(hs.skip(i)),
    decreases i,
{
    if i > 0 {
        assert(hs.drop_first() =~= hs.skip(1));
        lemma_first_custom_fault_skip(hs.skip(1), i - 1);
        assert(hs.skip(1).skip(i - 1) =~= hs.skip(i));
    } else {
        assert(hs.skip(0) =~= hs);
    }
}

/// The value of the header named `name` under the plan `plan`: the value
/// of the last entry whose name matches up to ASCII letter case, `None`
/// when no entry matches.
pub open spec fn plan_lookup(plan: Seq<(Seq<char>, Seq<char>)>, name: Seq<char>) -> Option<
    Seq<char>,
>
    decreases plan.len(),
{
    if plan.len() == 0 {
        None
    } else if ascii_lower(plan.last().0) == ascii_lower(name) {
        Some(plan.last().1)
    } else {
        plan_lookup(plan.drop_last(), name)
    }
}

/// The header map a plan assembles to when its entries are inserted in
/// order: keyed by the name folded to ASCII lower case, a later entry
/// replacing an earlier one at the same name.
pub open spec fn header_map_of(plan: Seq<(Seq<char>, Seq<char>)>) -> Map<Seq<char>, Seq<char>>
    decreases plan.len(),
{
    if plan.len() == 0 {
        Map::empty()
    } else {
        header_map_of(plan.drop_last()).insert(ascii_lower(plan.last().0), plan.last().1)
    }
}

/// Law: the two views of a header plan agree. The assembled map holds a
/// name exactly when the lookup finds it, and with the same value.
pub proof fn lemma_header_map_of_lookup(plan: Seq<(Seq<char>, Seq<char>)>, name: Seq<char>)
    ensures
        header_map_of(plan).contains_key(ascii_lower(name)) <==> plan_lookup(plan, name) is Some,
        match plan_lookup(plan, name) {
            Some(v) => header_map_of(plan)[ascii_lower(name)] == v,
            None => true,
        },
    decreases plan.len(),
{
    if plan.len() > 0 {
        lemma_header_map_of_lookup(plan.drop_last(), name);
    }
}

/// The two built-in header names are syntactically valid.
pub proof fn lemma_builtin_names_valid()
    ensures
        valid_header_name("apikey"@),
        valid_header_name("Authorization"@),
{
    reveal_strlit("apikey");
    reveal_strlit("Authorization");
    assert forall|i: int| 0 <= i < "apikey"@.len() implies is_header_name_char(
        #[trigger] "apikey"@[i],
    ) by {
        if i == 0 {
            assert("apikey"@[0] == 'a');
        } else if i == 1 {
            assert("apikey"@[1] == 'p');
        } else if i == 2 {
            assert("apikey"@[2] == 'i');
        } else if i == 3 {
            assert("apikey"@[3] == 'k');
        } else if i == 4 {
            assert("apikey"@[4] == 'e');
        } else {
            assert("apikey"@[5] == 'y');
        }
    }
    assert forall|i: int| 0 <= i < "Authorization"@.len() implies is_header_name_char(
        #[trigger] "Authorization"@[i],
    ) by {
        let s = "Authorization"@;
        if i == 0 {
            assert(s[0] == 'A');
        } else if i == 1 {
            assert(s[1] == 'u');
        } else if i == 2 {
            assert(s[2] == 't');
        } else if i == 3 {
            assert(s[3] == 'h');
        } else if i == 4 {
            assert(s[4] == 'o');
        } else if i == 5 {
            assert(s[5] == 'r');
        } else if i == 6 {
            assert(s[6] == 'i');
        } else if i == 7 {
            assert(s[7] == 'z');
        } else if i == 8 {
            assert(s[8] == 'a');
        } else if i == 9 {
            assert(s[9] == 't');
        } else if i == 10 {
            assert(s[10] == 'i');
        } else if i == 11 {
            assert(s[11] == 'o');
        } else {
            assert(s[12] == 'n');
        }
    }
}

/// A run of entries whose names all miss `name` contributes nothing to
/// the lookup: it equals the lookup over the prefix before the run.
pub proof fn lemma_plan_lookup_prefix(plan: Seq<(Seq<char>, Seq<char>)>, k: int, name: Seq<char>)
    requires
        0 <= k <= plan.len(),
        forall|i: int|
            k <= i < plan.len() ==> ascii_lower((#[trigger] plan[i]).0) != ascii_lower(name),
    ensures
        plan_lookup(plan, name) == plan_lookup(plan.take(k), name),
    decreases plan.len(),
{
    if k < plan.len() {
        lemma_plan_lookup_prefix(plan.drop_last(), k, name);
        assert(plan.drop_last().take(k) =~= plan.take(k));
    } else {
        assert(plan.take(k) =~= plan);
    }
}

/// The lookup of the `Authorization` header under a plan whose custom
/// headers do not use that name.
proof fn lemma_lookup_authorization(m: ConfigModel)
    requires
        forall|i: int|
            0 <= i < m.headers.len() ==> ascii_lower((#[trigger] m.headers[i]).0) != ascii_lower(
                "Authorization"@,
            ),
    ensures
        plan_lookup(header_plan(m), "Authorization"@) == Some(auth_value_of(m)),
{
    let plan = header_plan(m);
    assert forall|i: int| 2 <= i < plan.len() implies ascii_lower((#[trigger] plan[i]).0)
        != ascii_lower("Authorization"@) by {
        assert(plan[i] == m.headers[i - 2]);
    }
    lemma_plan_lookup_prefix(plan, 2, "Authorization"@);
    let two = plan.take(2);
    assert(two.last() == plan[1]);
    assert(plan_lookup(two, "Authorization"@) == Some(auth_value_of(m)));
}

/// Law: the assembled header set authenticates with the API key. The
/// `apikey` header is the API key itself, and `Authorization` carries
/// `"Bearer "` followed by the JWT when one is set and by the API key
/// otherwise — provided no custom header overrides either name.
pub proof fn lemma_authentication_headers(m: ConfigModel)
    requires
        forall|i: int|
            0 <= i < m.headers.len() ==> ascii_lower((#[trigger] m.headers[i]).0) != ascii_lower(
                "Authorization"@,
            ),
        forall|i: int|
            0 <= i < m.headers.len() ==> ascii_lower((#[trigger] m.headers[i]).0) != ascii_lower(
                "apikey"@,
            ),
    ensures
        plan_lookup(header_plan(m), "Authorization"@) == Some(auth_value_of(m)),
        plan_lookup(header_plan(m), "apikey"@) == Some(m.api_key),
        match m.jwt {
            Some(jwt) => auth_value_of(m) == "Bearer "@ + jwt,
            None => auth_value_of(m) == "Bearer "@ + m.api_key,
        },
{
    lemma_lookup_authorization(m);
    let plan = header_plan(m);
    assert forall|i: int| 2 <= i < plan.len() implies ascii_lower((#[trigger] plan[i]).0)
        != ascii_lower("apikey"@) by {
        assert(plan[i] == m.headers[i - 2]);
    }
    lemma_plan_lookup_prefix(plan, 2, "apikey"@);
    let two = plan.take(2);
    assert(two.last() == plan[1]);
    reveal_strlit("apikey");
    reveal_strlit("Authorization");
    assert(ascii_lower("Authorization"@).len() == 13);
    assert(ascii_lower("apikey"@).len() == 6);
    assert(two.drop_last() =~= plan.take(1));
    assert(plan.take(1).last() == plan[0]);
    assert(plan_lookup(plan.take(1), "apikey"@) == Some(m.api_key));
}

/// Law: re-authentication. Deriving a configuration with a new bearer
/// token yields a header set whose `Authorization` value carries the
/// new token — provided no custom header overrides that name — and the
/// rest of the header set stands exactly as before, so a client
/// assembled from the original configuration is untouched.
pub proof fn lemma_reauthentication(m: ConfigModel, token: Seq<char>)
    requires
        forall|i: int|
            0 <= i < m.headers.len() ==> ascii_lower((#[trigger] m.headers[i]).0) != ascii_lower(
                "Authorization"@,
            ),
    ensures
        plan_lookup(header_plan(m.with_jwt(token)), "Authorization"@) == Some(
            "Bearer "@ + token,
        ),
        header_plan(m.with_jwt(token)) == header_plan(m).update(
            1,
            ("Authorization"@, "Bearer "@ + token),
        ),
{
    let m2 = m.with_jwt(token);
    lemma_lookup_authorization(m2);
    assert(header_plan(m2) =~= header_plan(m).update(1, ("Authorization"@, "Bearer "@ + token)));
}

} // verus!
