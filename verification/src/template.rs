//! The template substitution engine.
//!
//! A template is a string with placeholders of the form `$name`, where a
//! name is a nonempty run of ASCII letters, digits and underscores. Each
//! placeholder is replaced, in a single pass, by the value bound to its name
//! in the variable set; a `$` without a name, or a name without a binding,
//! is an error.

use vstd::prelude::*;
use crate::errors::TemplateError;
use crate::vars::{VarSet, spec_lookup};

verus! {

/// Holds when `c` may occur in a placeholder name.
pub open spec fn is_name_char(c: char) -> bool {
    ('a' as u32 <= c as u32 && c as u32 <= 'z' as u32) || ('A' as u32 <= c as u32 && c as u32
        <= 'Z' as u32) || ('0' as u32 <= c as u32 && c as u32 <= '9' as u32) || c == '_'
}

/// Decides whether `c` may occur in a placeholder name.
pub fn exec_is_name_char(c: char) -> (r: bool)
    ensures
        r == is_name_char(c),
{
    let u = c as u32;
    ('a' as u32 <= u && u <= 'z' as u32) || ('A' as u32 <= u && u <= 'Z' as u32) || ('0' as u32 <= u
        && u <= '9' as u32) || c == '_'
}

/// The length of the placeholder name that starts at position `j` of `t`.
pub open spec fn name_run_len(t: Seq<char>, j: int) -> nat
    decreases t.len() - j,
{
    if j < 0 || j >= t.len() || !is_name_char(t[j]) {
        0
    } else {
        1 + name_run_len(t, j + 1)
    }
}

/// The name run never reaches past the end of the template.
pub proof fn lemma_name_run_len_bound(t: Seq<char>, j: int)
    requires
        0 <= j <= t.len(),
    ensures
        name_run_len(t, j) <= t.len() - j,
    decreases t.len() - j,
{
    if j < t.len() && is_name_char(t[j]) {
        lemma_name_run_len_bound(t, j + 1);
    }
}

/// The name run is exactly the maximal run of name characters.
pub proof fn lemma_name_run_len_exact(t: Seq<char>, a: int, b: int)
    requires
        0 <= a <= b <= t.len(),
        forall|k: int| a <= k < b ==> is_name_char(t[k]),
        b == t.len() || !is_name_char(t[b]),
    ensures
        name_run_len(t, a) == b - a,
    decreases b - a,
{
    if a < b {
        lemma_name_run_len_exact(t, a + 1, b);
    }
}

/// How a substitution can fail, stated over mathematical strings.
pub enum SubstFault {
    /// A `$` with no name character after it.
    MissingName,
    /// The named placeholder is unbound; the field is its name.
    Unbound(Seq<char>),
}

/// Prefixes a successful substitution result with `prefix`; an error is
/// passed through.
pub open spec fn prepend_ok(prefix: Seq<char>, r: Result<Seq<char>, SubstFault>) -> Result<
    Seq<char>,
    SubstFault,
> {
    match r {
        Ok(s) => Ok(prefix + s),
        Err(e) => Err(e),
    }
}

pub proof fn lemma_prepend_ok_empty(r: Result<Seq<char>, SubstFault>)
    ensures
        prepend_ok(Seq::<char>::empty(), r) == r,
{
    match r {
        Ok(s) => {
            assert(Seq::<char>::empty() + s =~= s);
        },
        Err(_) => {
        },
    }
}

pub proof fn lemma_prepend_ok_assoc(a: Seq<char>, b: Seq<char>, r: Result<Seq<char>, SubstFault>)
    ensures
        prepend_ok(a, prepend_ok(b, r)) == prepend_ok(a + b, r),
{
    match r {
        Ok(s) => {
            assert(a + (b + s) =~= (a + b) + s);
        },
        Err(_) => {
        },
    }
}

/// The substitution of the tail of `t` that starts at position `i`, under
/// the bindings `vars`.
pub open spec fn spec_subst_from(
    t: Seq<char>,
    vars: Seq<(Seq<char>, Seq<char>)>,
    i: int,
) -> Result<Seq<char>, SubstFault>
    decreases t.len() - i,
    via spec_subst_from_dec
{
    if i < 0 || i >= t.len() {
        Ok(Seq::empty())
    } else if t[i] == '$' {
        let n = name_run_len(t, i + 1);
        if n == 0 {
            Err(SubstFault::MissingName)
        } else {
            let name = t.subrange(i + 1, i + 1 + n);
            match spec_lookup(vars, name) {
                Some(v) => prepend_ok(v, spec_subst_from(t, vars, i + 1 + n)),
                None => Err(SubstFault::Unbound(name)),
            }
        }
    } else {
        prepend_ok(seq![t[i]], spec_subst_from(t, vars, i + 1))
    }
}

#[via_fn]
proof fn spec_subst_from_dec(t: Seq<char>, vars: Seq<(Seq<char>, Seq<char>)>, i: int) {
    if 0 <= i < t.len() && t[i] == '$' {
        lemma_name_run_len_bound(t, i + 1);
    }
}

/// What `substitute` returns: the template with every placeholder replaced
/// by its bound value, or the first fault, scanning left to right.
pub open spec fn spec_substitute(t: Seq<char>, vars: Seq<(Seq<char>, Seq<char>)>) -> Result<
    Seq<char>,
    SubstFault,
> {
    spec_subst_from(t, vars, 0)
}

/// Replaces each `$name` placeholder of `template` with the value bound in
/// `vars`, in a single left-to-right pass; substituted values are never
/// scanned again.
pub fn substitute(template: &str, vars: &VarSet) -> (r: Result<String, TemplateError>)
    ensures
        (match spec_substitute(template@, vars@) {
            Ok(s) => r matches Ok(out) && out@ == s,
            Err(SubstFault::MissingName) => r matches Err(TemplateError::MissingVariableName),
            Err(SubstFault::Unbound(name)) => r matches Err(TemplateError::UnboundVariable(u))
                && u@ == name,
        }),
{
    let ghost t = template@;
    let ghost vs = vars@;
    let tlen = template.unicode_len();
    let mut out = String::new();
    let mut lit_start: usize = 0;
    let mut i: usize = 0;
    proof {
        lemma_prepend_ok_empty(spec_subst_from(t, vs, 0));
        assert(out@ + t.subrange(0, 0) =~= Seq::<char>::empty());
    }
    while i < tlen
        invariant
            t == template@,
            vs == vars@,
            tlen == t.len(),
            lit_start <= i <= tlen,
            forall|k: int| lit_start <= k < i ==> t[k] != '$',
            spec_substitute(t, vs) == prepend_ok(
                out@ + t.subrange(lit_start as int, i as int),
                spec_subst_from(t, vs, i as int),
            ),
        decreases tlen - i,
    {
        let c = template.get_char(i);
        if c == '$' {
            let lit = template.substring_char(lit_start, i);
            let ghost out_before = out@;
            out.append(lit);
            let mut j: usize = i + 1;
            while j < tlen && exec_is_name_char(template.get_char(j))
                invariant
                    t == template@,
                    tlen == t.len(),
                    i + 1 <= j <= tlen,
                    forall|k: int| i + 1 <= k < j ==> is_name_char(t[k]),
                decreases tlen - j,
            {
                j = j + 1;
            }
            proof {
                lemma_name_run_len_exact(t, i + 1, j as int);
            }
            if j == i + 1 {
                proof {
                    assert(spec_subst_from(t, vs, i as int) == Err::<Seq<char>, SubstFault>(
                        SubstFault::MissingName,
                    ));
                }
                return Err(TemplateError::MissingVariableName);
            }
            let name = template.substring_char(i + 1, j);
            proof {
                assert(name@ == t.subrange(i + 1, i + 1 + name_run_len(t, i + 1) as int));
            }
            match vars.lookup(name) {
                Some(v) => {
                    let ghost out_flushed = out@;
                    out.append(v.as_str());
                    proof {
                        let spec_j = spec_subst_from(t, vs, j as int);
                        assert(spec_subst_from(t, vs, i as int) == prepend_ok(v@, spec_j));
                        lemma_prepend_ok_assoc(
                            out_before + t.subrange(lit_start as int, i as int),
                            v@,
                            spec_j,
                        );
                        assert((out_before + t.subrange(lit_start as int, i as int)) + v@ =~= out@
                            + t.subrange(j as int, j as int));
                    }
                    i = j;
                    lit_start = j;
                },
                None => {
                    proof {
                        assert(spec_subst_from(t, vs, i as int) == Err::<Seq<char>, SubstFault>(
                            SubstFault::Unbound(name@),
                        ));
                    }
                    return Err(TemplateError::UnboundVariable(name.to_owned()));
                },
            }
        } else {
            proof {
                assert(spec_subst_from(t, vs, i as int) == prepend_ok(
                    seq![t[i as int]],
                    spec_subst_from(t, vs, i + 1),
                ));
                lemma_prepend_ok_assoc(
                    out@ + t.subrange(lit_start as int, i as int),
                    seq![t[i as int]],
                    spec_subst_from(t, vs, i + 1),
                );
                assert((out@ + t.subrange(lit_start as int, i as int)) + seq![t[i as int]] =~= out@
                    + t.subrange(lit_start as int, i + 1));
            }
            i = i + 1;
        }
    }
    let tail = template.substring_char(lit_start, tlen);
    let ghost out_before = out@;
    out.append(tail);
    proof {
        assert(spec_subst_from(t, vs, tlen as int) == Ok::<Seq<char>, SubstFault>(Seq::empty()));
        assert((out_before + t.subrange(lit_start as int, tlen as int)) + Seq::<char>::empty()
            =~= out@);
    }
    Ok(out)
}

/// Holds when `s` contains no `$` character.
pub open spec fn has_no_dollar(s: Seq<char>) -> bool {
    forall|k: int| 0 <= k < s.len() ==> s[k] != '$'
}

proof fn lemma_lookup_value_is_entry(vars: Seq<(Seq<char>, Seq<char>)>, name: Seq<char>)
    requires
        spec_lookup(vars, name) is Some,
    ensures
        exists|k: int|
            0 <= k < vars.len() && (#[trigger] vars[k]).1 == spec_lookup(vars, name)->Some_0,
    decreases vars.len(),
{
    if vars.len() > 0 && vars.last().0 != name {
        lemma_lookup_value_is_entry(vars.drop_last(), name);
        let k = choose|k: int|
            0 <= k < vars.drop_last().len() && (#[trigger] vars.drop_last()[k]).1 == spec_lookup(
                vars.drop_last(),
                name,
            )->Some_0;
        assert(vars[k].1 == spec_lookup(vars, name)->Some_0);
    }
}

proof fn lemma_subst_from_no_dollar(t: Seq<char>, vars: Seq<(Seq<char>, Seq<char>)>, i: int)
    requires
        spec_subst_from(t, vars, i) is Ok,
        forall|k: int| 0 <= k < vars.len() ==> has_no_dollar((#[trigger] vars[k]).1),
    ensures
        has_no_dollar(spec_subst_from(t, vars, i)->Ok_0),
    decreases t.len() - i,
{
    if i < 0 || i >= t.len() {
    } else if t[i] == '$' {
        let n = name_run_len(t, i + 1);
        let name = t.subrange(i + 1, i + 1 + n);
        let v = spec_lookup(vars, name)->Some_0;
        lemma_name_run_len_bound(t, i + 1);
        lemma_lookup_value_is_entry(vars, name);
        lemma_subst_from_no_dollar(t, vars, i + 1 + n);
        let rest = spec_subst_from(t, vars, i + 1 + n)->Ok_0;
        assert forall|k: int| 0 <= k < (v + rest).len() implies (v + rest)[k] != '$' by {
            if k < v.len() {
                assert((v + rest)[k] == v[k]);
            } else {
                assert((v + rest)[k] == rest[k - v.len()]);
            }
        }
    } else {
        lemma_subst_from_no_dollar(t, vars, i + 1);
        let rest = spec_subst_from(t, vars, i + 1)->Ok_0;
        let one = seq![t[i]];
        assert forall|k: int| 0 <= k < (one + rest).len() implies (one + rest)[k] != '$' by {
            if k >= 1 {
                assert((one + rest)[k] == rest[k - 1]);
            }
        }
    }
}

/// Law: when substitution succeeds, its output contains no `$` character,
/// provided no bound variable value itself contains one.
pub proof fn lemma_substitute_no_placeholder(t: Seq<char>, vars: Seq<(Seq<char>, Seq<char>)>)
    requires
        spec_substitute(t, vars) is Ok,
        forall|k: int| 0 <= k < vars.len() ==> has_no_dollar((#[trigger] vars[k]).1),
    ensures
        has_no_dollar(spec_substitute(t, vars)->Ok_0),
{
    lemma_subst_from_no_dollar(t, vars, 0);
}

/// Law: substitution is a pure function of the template and the variable
/// set: equal inputs give equal outcomes.
pub proof fn lemma_substitute_pure(
    t1: Seq<char>,
    v1: Seq<(Seq<char>, Seq<char>)>,
    t2: Seq<char>,
    v2: Seq<(Seq<char>, Seq<char>)>,
)
    requires
        t1 == t2,
        v1 == v2,
    ensures
        spec_substitute(t1, v1) == spec_substitute(t2, v2),
{
}

/// Holds when every `$` of `t` at a position at or after `i` is followed by
/// at least one name character.
pub open spec fn spec_template_wf_from(t: Seq<char>, i: int) -> bool
    decreases t.len() - i,
    via spec_template_wf_from_dec
{
    if i < 0 || i >= t.len() {
        true
    } else if t[i] == '$' {
        let n = name_run_len(t, i + 1);
        n > 0 && spec_template_wf_from(t, i + 1 + n)
    } else {
        spec_template_wf_from(t, i + 1)
    }
}

#[via_fn]
proof fn spec_template_wf_from_dec(t: Seq<char>, i: int) {
    if 0 <= i < t.len() && t[i] == '$' {
        lemma_name_run_len_bound(t, i + 1);
    }
}

/// Holds when every `$` of `t` is followed by at least one name character.
pub open spec fn spec_template_wf(t: Seq<char>) -> bool {
    spec_template_wf_from(t, 0)
}

/// The names of the placeholders of `t` at positions at or after `i`.
pub open spec fn spec_placeholders_from(t: Seq<char>, i: int) -> Set<Seq<char>>
    decreases t.len() - i,
    via spec_placeholders_from_dec
{
    if i < 0 || i >= t.len() {
        Set::empty()
    } else if t[i] == '$' {
        let n = name_run_len(t, i + 1);
        if n == 0 {
            spec_placeholders_from(t, i + 1)
        } else {
            spec_placeholders_from(t, i + 1 + n).insert(t.subrange(i + 1, i + 1 + n))
        }
    } else {
        spec_placeholders_from(t, i + 1)
    }
}

#[via_fn]
proof fn spec_placeholders_from_dec(t: Seq<char>, i: int) {
    if 0 <= i < t.len() && t[i] == '$' {
        lemma_name_run_len_bound(t, i + 1);
    }
}

/// The names of the placeholders referenced by template `t`.
pub open spec fn spec_placeholders(t: Seq<char>) -> Set<Seq<char>> {
    spec_placeholders_from(t, 0)
}

/// Decides whether every `$` of `template` is followed by at least one
/// name character, so that substitution can only fail on an unbound
/// placeholder.
pub fn template_is_wellformed(template: &str) -> (r: bool)
    ensures
        r == spec_template_wf(template@),
{
    let ghost t = template@;
    let tlen = template.unicode_len();
    let mut i: usize = 0;
    while i < tlen
        invariant
            t == template@,
            tlen == t.len(),
            i <= tlen,
            spec_template_wf(t) == spec_template_wf_from(t, i as int),
        decreases tlen - i,
    {
        if template.get_char(i) == '$' {
            let mut j: usize = i + 1;
            while j < tlen && exec_is_name_char(template.get_char(j))
                invariant
                    t == template@,
                    tlen == t.len(),
                    i + 1 <= j <= tlen,
                    forall|k: int| i + 1 <= k < j ==> is_name_char(t[k]),
                decreases tlen - j,
            {
                j = j + 1;
            }
            proof {
                lemma_name_run_len_exact(t, i + 1, j as int);
            }
            if j == i + 1 {
                return false;
            }
            i = j;
        } else {
            i = i + 1;
        }
    }
    true
}

proof fn lemma_subst_from_bound_iff(t: Seq<char>, vars: Seq<(Seq<char>, Seq<char>)>, i: int)
    requires
        spec_template_wf_from(t, i),
    ensures
        spec_subst_from(t, vars, i) is Ok <==> (forall|name: Seq<char>|
            spec_placeholders_from(t, i).contains(name) ==> spec_lookup(vars, name) is Some),
        spec_subst_from(t, vars, i) is Err ==> (spec_subst_from(t, vars, i) matches Err(
            SubstFault::Unbound(u),
        ) && spec_placeholders_from(t, i).contains(u) && spec_lookup(vars, u) is None),
    decreases t.len() - i,
{
    if i < 0 || i >= t.len() {
    } else if t[i] == '$' {
        let n = name_run_len(t, i + 1);
        let name = t.subrange(i + 1, i + 1 + n);
        lemma_name_run_len_bound(t, i + 1);
        lemma_subst_from_bound_iff(t, vars, i + 1 + n);
        let rest = spec_subst_from(t, vars, i + 1 + n);
        let ph_rest = spec_placeholders_from(t, i + 1 + n);
        assert(spec_placeholders_from(t, i) == ph_rest.insert(name));
        match spec_lookup(vars, name) {
            Some(v) => {
                assert(spec_subst_from(t, vars, i) == prepend_ok(v, rest));
                if rest is Ok {
                    assert forall|m: Seq<char>|
                        spec_placeholders_from(t, i).contains(m) implies spec_lookup(vars, m)
                        is Some by {
                        if m != name {
                            assert(ph_rest.contains(m));
                        }
                    }
                } else {
                    let u = rest->Err_0->Unbound_0;
                    assert(spec_placeholders_from(t, i).contains(u));
                    assert(!(forall|m: Seq<char>|
                        spec_placeholders_from(t, i).contains(m) ==> spec_lookup(vars, m)
                            is Some));
                }
            },
            None => {
                assert(spec_subst_from(t, vars, i) == Err::<Seq<char>, SubstFault>(
                    SubstFault::Unbound(name),
                ));
                assert(spec_placeholders_from(t, i).contains(name));
                assert(!(forall|m: Seq<char>|
                    spec_placeholders_from(t, i).contains(m) ==> spec_lookup(vars, m) is Some));
            },
        }
    } else {
        lemma_subst_from_bound_iff(t, vars, i + 1);
        assert(spec_placeholders_from(t, i) == spec_placeholders_from(t, i + 1));
        assert(spec_subst_from(t, vars, i) is Ok <==> spec_subst_from(t, vars, i + 1) is Ok);
    }
}

/// Law: when every placeholder referenced by a well-formed template has a
/// binding, substitution succeeds.
pub proof fn lemma_substitute_all_bound(t: Seq<char>, vars: Seq<(Seq<char>, Seq<char>)>)
    requires
        spec_template_wf(t),
        forall|name: Seq<char>|
            spec_placeholders(t).contains(name) ==> spec_lookup(vars, name) is Some,
    ensures
        spec_substitute(t, vars) is Ok,
{
    assert forall|m: Seq<char>|
        spec_placeholders_from(t, 0).contains(m) implies spec_lookup(vars, m) is Some by {
        assert(spec_placeholders(t).contains(m));
    }
    lemma_subst_from_bound_iff(t, vars, 0);
}

/// Law: when at least one placeholder referenced by a well-formed template
/// has no binding, substitution fails with an unbound-variable fault that
/// names such a placeholder, and produces no output.
pub proof fn lemma_substitute_unbound(t: Seq<char>, vars: Seq<(Seq<char>, Seq<char>)>)
    requires
        spec_template_wf(t),
        exists|name: Seq<char>|
            spec_placeholders(t).contains(name) && spec_lookup(vars, name) is None,
    ensures
        spec_substitute(t, vars) matches Err(SubstFault::Unbound(u)) && spec_placeholders(
            t,
        ).contains(u) && spec_lookup(vars, u) is None,
{
    lemma_subst_from_bound_iff(t, vars, 0);
    let name = choose|name: Seq<char>|
        spec_placeholders(t).contains(name) && spec_lookup(vars, name) is None;
    assert(!(spec_substitute(t, vars) is Ok));
}

} // verus!
