//! Substitution of `$VARIABLE_NAME` patterns in endpoint and header
//! templates. A variable name starts with a letter or underscore and
//! continues with letters, digits and underscores; the longest such run
//! after a `$` is replaced by the variable's bound value, or by nothing
//! when it is unbound; a `$` not followed by a name stays as it is.
//!
//! The binary layer gathers the bindings (the provider-related settings
//! and the process environment) into a plain list of pairs.

use vstd::prelude::*;
use crate::config::{spec_entries, spec_env_lookup, env_lookup};
use crate::strutil::chars_to_string;

verus! {

/// Whether `c` can start a variable name.
pub open spec fn spec_is_ident_start(c: char) -> bool {
    ('A' <= c && c <= 'Z') || ('a' <= c && c <= 'z') || c == '_'
}

/// Whether `c` can continue a variable name.
pub open spec fn spec_is_ident_char(c: char) -> bool {
    spec_is_ident_start(c) || ('0' <= c && c <= '9')
}

/// Whether `c` can start a variable name.
fn is_ident_start(c: char) -> (r: bool)
    ensures
        r == spec_is_ident_start(c),
{
    ('A' <= c && c <= 'Z') || ('a' <= c && c <= 'z') || c == '_'
}

/// Whether `c` can continue a variable name.
fn is_ident_char(c: char) -> (r: bool)
    ensures
        r == spec_is_ident_char(c),
{
    is_ident_start(c) || ('0' <= c && c <= '9')
}

/// Length of the longest prefix of name-continuation characters.
pub open spec fn spec_ident_run(s: Seq<char>) -> nat
    decreases s.len(),
{
    if s.len() > 0 && spec_is_ident_char(s.first()) {
        1 + spec_ident_run(s.drop_first())
    } else {
        0
    }
}

/// The run never reaches past the end of the text.
proof fn lemma_ident_run_le(s: Seq<char>)
    ensures
        spec_ident_run(s) <= s.len(),
    decreases s.len(),
{
    if s.len() > 0 && spec_is_ident_char(s.first()) {
        lemma_ident_run_le(s.drop_first());
    }
}

/// When the first `t` characters continue a name and the one after them
/// (if any) does not, the run is exactly `t`.
proof fn lemma_ident_run_is(s: Seq<char>, t: int)
    requires
        0 <= t <= s.len(),
        forall|k: int| 0 <= k < t ==> spec_is_ident_char(#[trigger] s[k]),
        t == s.len() || !spec_is_ident_char(s[t]),
    ensures
        spec_ident_run(s) == t,
    decreases t,
{
    if t == 0 {
    } else {
        assert(spec_is_ident_char(s.first()));
        lemma_ident_run_is(s.drop_first(), t - 1);
    }
}

/// The value a name substitutes to: its binding, or nothing.
pub open spec fn spec_binding(m: Seq<(Seq<char>, Seq<char>)>, name: Seq<char>) -> Seq<char> {
    match spec_env_lookup(m, name) {
        Some(v) => v,
        None => Seq::empty(),
    }
}

/// The interpolated text: every `$name` pattern replaced by the name's
/// binding (its longest possible name taken), everything else kept.
pub open spec fn spec_interpolate(s: Seq<char>, m: Seq<(Seq<char>, Seq<char>)>) -> Seq<char>
    decreases s.len(),
    when s.len() >= 0
    via spec_interpolate_decreases
{
    if s.len() == 0 {
        Seq::empty()
    } else if s.first() == '$' && s.len() >= 2 && spec_is_ident_start(s[1]) {
        let name_len = 1 + spec_ident_run(s.skip(2));
        spec_binding(m, s.subrange(1, 1 + name_len as int)) + spec_interpolate(
            s.skip(1 + name_len as int),
            m,
        )
    } else {
        seq![s.first()] + spec_interpolate(s.drop_first(), m)
    }
}

#[via_fn]
proof fn spec_interpolate_decreases(s: Seq<char>, m: Seq<(Seq<char>, Seq<char>)>) {
    if s.len() >= 2 {
        lemma_ident_run_le(s.skip(2));
    }
}

/// Substitute every `$VARIABLE_NAME` pattern in `template` using the
/// bindings in `vars`.
pub fn interpolate(template: &str, vars: &Vec<(String, String)>) -> (r: String)
    ensures
        r@ == spec_interpolate(template@, spec_entries(vars@)),
{
    let ghost m = spec_entries(vars@);
    let n = template.unicode_len();
    let mut out = String::new();
    let mut i: usize = 0;
    proof {
        assert(template@.skip(0) =~= template@);
    }
    while i < n
        invariant
            0 <= i <= n == template@.len(),
            m == spec_entries(vars@),
            out@ + spec_interpolate(template@.skip(i as int), m) == spec_interpolate(
                template@,
                m,
            ),
        decreases n - i,
    {
        let ghost suffix = template@.skip(i as int);
        proof {
            assert(suffix.first() == template@[i as int]);
            assert(suffix.drop_first() =~= template@.skip(i as int + 1));
        }
        let c = template.get_char(i);
        if c == '$' && i + 1 < n && is_ident_start(template.get_char(i + 1)) {
            proof {
                assert(suffix[1] == template@[i as int + 1]);
            }
            let mut j: usize = i + 2;
            while j < n && is_ident_char(template.get_char(j))
                invariant
                    i + 2 <= j <= n == template@.len(),
                    forall|k: int|
                        i + 2 <= k < j ==> spec_is_ident_char(#[trigger] template@[k]),
                decreases n - j,
            {
                j = j + 1;
            }
            proof {
                assert(suffix.skip(2) =~= template@.skip(i as int + 2));
                lemma_ident_run_is(template@.skip(i as int + 2), j as int - (i as int + 2));
                assert(spec_ident_run(suffix.skip(2)) == j - (i + 2));
            }
            let name = template.substring_char(i + 1, j);
            proof {
                assert(template@.subrange(i as int + 1, j as int) =~= suffix.subrange(
                    1,
                    1 + (1 + spec_ident_run(suffix.skip(2))) as int,
                ));
            }
            match env_lookup(vars, name) {
                Some(v) => {
                    out.append(v.as_str());
                },
                None => {
                },
            }
            proof {
                assert(suffix.skip(1 + (1 + spec_ident_run(suffix.skip(2))) as int)
                    =~= template@.skip(j as int));
            }
            i = j;
        } else {
            let mut one: Vec<char> = Vec::new();
            one.push(c);
            let one_s = chars_to_string(&one);
            out.append(one_s.as_str());
            proof {
                assert(one_s@ =~= seq![suffix.first()]);
            }
            i = i + 1;
        }
    }
    proof {
        assert(template@.skip(n as int) =~= Seq::<char>::empty());
    }
    out
}

} // verus!
