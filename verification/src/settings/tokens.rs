//! Token validation for the comma-delimited libtorrent string settings.
//! A bad token cannot crash libtorrent, but it silently disables the
//! feature (or, for `outgoing_interfaces`, rejects incoming
//! connections), so the grouped setters reject malformed tokens instead
//! of forwarding them.

use vstd::prelude::*;

use super::error::{SettingsError, SettingsErrorView};
use crate::addr_text::{ipv6_literal, is_ipv6_literal};
use crate::text::{chars_contain, is_white, chars_have_white, debug_str, has_white, push_debug_str, push_str, string_of, to_chars};

verus! {

/// Whether `s` is wrapped in square brackets (`[...]`).
pub open spec fn bracketed(s: Seq<char>) -> bool {
    s.len() >= 2 && s[0] == '[' && s[s.len() - 1] == ']'
}

/// What is wrong with `s` as a hostname/interface token of a setting whose
/// entries carry a `:port` suffix: it must be non-empty, free of commas
/// and whitespace (the delimiters), and hold a colon only inside a
/// bracketed IPv6 literal (with an optional `%scope`). `None` when valid.
pub open spec fn host_token_problem(field: Seq<char>, s: Seq<char>) -> Option<Seq<char>> {
    if s.len() == 0 {
        Some(field + " must not be empty"@)
    } else if s.contains(',') || has_white(s) {
        Some(field + " "@ + debug_str(s) + " must not contain commas or whitespace"@)
    } else if bracketed(s) {
        if ipv6_literal(s.subrange(1, s.len() - 1)) {
            None
        } else {
            Some(field + " "@ + debug_str(s) + " brackets must contain an IPv6 address"@)
        }
    } else if s.contains(':') {
        Some(field + " "@ + debug_str(s) + " contains `:` but is not a bracketed IPv6 literal"@)
    } else {
        None
    }
}

/// What is wrong with `s` as a standalone host token (no `:port` suffix):
/// a device name, hostname, IPv4 address, or *bare* IPv6 address with an
/// optional `%scope`. `None` when valid.
pub open spec fn bare_host_problem(field: Seq<char>, s: Seq<char>) -> Option<Seq<char>> {
    if s.len() == 0 {
        Some(field + " must not be empty"@)
    } else if s.contains(',') || has_white(s) {
        Some(field + " "@ + debug_str(s) + " must not contain commas or whitespace"@)
    } else if s.contains(':') && !ipv6_literal(s) {
        Some(
            field + " "@ + debug_str(s)
                + " contains `:` but is not a bare (unbracketed) IPv6 address"@,
        )
    } else {
        None
    }
}

fn problem_message(field: &str, s: &str, tail: &str) -> (r: String)
    ensures
        r@ == field@ + " "@ + debug_str(s@) + tail@,
{
    let mut m = string_of(field);
    push_str(&mut m, " ");
    push_debug_str(&mut m, s);
    push_str(&mut m, tail);
    m
}

/// Validates a hostname/interface token for a setting whose entries carry
/// a `:port` suffix (see [`host_token_problem`]).
pub fn host_token(setting: &'static str, field: &str, s: &str) -> (r: Result<(), SettingsError>)
    ensures
        r is Ok <==> host_token_problem(field@, s@) is None,
        r matches Err(e) ==> Some(e@.message) == host_token_problem(field@, s@) && e@.setting
            == setting@,
{
    let v = to_chars(s);
    if v.len() == 0 {
        let mut m = string_of(field);
        push_str(&mut m, " must not be empty");
        return Err(SettingsError::new(setting, m));
    }
    if chars_contain(v.as_slice(), ',') || chars_have_white(v.as_slice()) {
        let m = problem_message(field, s, " must not contain commas or whitespace");
        return Err(SettingsError::new(setting, m));
    }
    let n = v.len();
    if n >= 2 && v[0] == '[' && v[n - 1] == ']' {
        if is_ipv6_literal(v.as_slice(), 1, n - 1) {
            return Ok(());
        }
        let m = problem_message(field, s, " brackets must contain an IPv6 address");
        return Err(SettingsError::new(setting, m));
    }
    if chars_contain(v.as_slice(), ':') {
        let m = problem_message(field, s, " contains `:` but is not a bracketed IPv6 literal");
        return Err(SettingsError::new(setting, m));
    }
    Ok(())
}

/// Validates a standalone host token (see [`bare_host_problem`]).
pub fn bare_host_token(setting: &'static str, field: &str, s: &str) -> (r: Result<
    (),
    SettingsError,
>)
    ensures
        r is Ok <==> bare_host_problem(field@, s@) is None,
        r matches Err(e) ==> Some(e@.message) == bare_host_problem(field@, s@) && e@.setting
            == setting@,
{
    let v = to_chars(s);
    if v.len() == 0 {
        let mut m = string_of(field);
        push_str(&mut m, " must not be empty");
        return Err(SettingsError::new(setting, m));
    }
    if chars_contain(v.as_slice(), ',') || chars_have_white(v.as_slice()) {
        let m = problem_message(field, s, " must not contain commas or whitespace");
        return Err(SettingsError::new(setting, m));
    }
    if chars_contain(v.as_slice(), ':') && !is_ipv6_literal(v.as_slice(), 0, v.len()) {
        proof {
            assert(v@.subrange(0, v@.len() as int) =~= v@);
        }
        let m = problem_message(
            field,
            s,
            " contains `:` but is not a bare (unbracketed) IPv6 address",
        );
        return Err(SettingsError::new(setting, m));
    }
    proof {
        assert(v@.subrange(0, v@.len() as int) =~= v@);
    }
    Ok(())
}

/// A host token of a setting whose entries carry a `:port` suffix is
/// accepted exactly when it is non-empty, holds no comma and no
/// whitespace, and holds a `:` only as a bracketed IPv6 literal (with an
/// optional `%scope`); a standalone host token likewise, except that its
/// IPv6 literal goes in bare.
pub proof fn lemma_host_token_rules(field: Seq<char>, s: Seq<char>)
    ensures
        (host_token_problem(field, s) is None) == (s.len() > 0 && (forall|i: int|
            0 <= i < s.len() ==> s[i] != ',' && !is_white(#[trigger] s[i])) && if s.len() >= 2
            && s[0] == '[' && s[s.len() - 1] == ']' {
            ipv6_literal(s.subrange(1, s.len() - 1))
        } else {
            forall|i: int| 0 <= i < s.len() ==> #[trigger] s[i] != ':'
        }),
        (bare_host_problem(field, s) is None) == (s.len() > 0 && (forall|i: int|
            0 <= i < s.len() ==> s[i] != ',' && !is_white(#[trigger] s[i])) && ((exists|i: int|
            0 <= i < s.len() && #[trigger] s[i] == ':') ==> ipv6_literal(s))),
{
}

} // verus!
