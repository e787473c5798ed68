//! The substitution engine. A nested-parametric field's template text is
//! canonicalized (whitespace-stripped); every generic-argument occurrence of
//! the type parameter, the text `<param>`, is replaced by `<concrete>` with
//! the concrete type's text canonicalized the same way; and the result must
//! re-parse as a path-shaped type expression, or the pass aborts.
//!
//! The substitution is textual, not structural: should the parameter's
//! bracketed text occur inside an unrelated part of the template, that
//! occurrence is replaced too. The contracts state exactly this behaviour.

use vstd::prelude::*;
use vstd::string::StringExecFns;
use crate::error::GenError;
use crate::syntax::parses_as_path;
use crate::syntax::path_ok;
use crate::text::replace_all;
use crate::text::replace_all_spec;
use crate::text::strip_blanks;
use crate::text::strip_spec;

verus! {

/// A parameter or argument in generic-argument position: `<name>`.
pub open spec fn angled_spec(name: Seq<char>) -> Seq<char> {
    seq!['<'] + name + seq!['>']
}

/// The substituted text for one template: canonicalize, then replace every
/// `<param>` by `<concrete>`, the concrete text canonicalized too.
pub open spec fn substituted_spec(template: Seq<char>, param: Seq<char>, concrete: Seq<char>) -> Seq<
    char,
> {
    replace_all_spec(strip_spec(template), angled_spec(param), angled_spec(strip_spec(concrete)))
}

/// Wraps a name in angle brackets.
fn angled(name: &str) -> (r: String)
    ensures
        r@ == angled_spec(name@),
{
    proof {
        reveal_strlit("<");
        reveal_strlit(">");
    }
    let mut r = String::from_str("<");
    r.append(name);
    r.append(">");
    proof {
        assert("<"@ =~= seq!['<']);
        assert(">"@ =~= seq!['>']);
    }
    r
}

/// Performs the textual substitution for one template.
pub fn substitute(template: &str, param: &str, concrete: &str) -> (r: String)
    ensures
        r@ == substituted_spec(template@, param@, concrete@),
{
    let stripped_t = strip_blanks(template);
    let stripped_c = strip_blanks(concrete);
    let pat = angled(param);
    let rep = angled(stripped_c.as_str());
    replace_all(stripped_t.as_str(), pat.as_str(), rep.as_str())
}

/// Performs the substitution and re-parses the result; a text that no longer
/// reads as a path-shaped type expression aborts the pass.
pub fn substitute_checked(template: &str, param: &str, concrete: &str) -> (r: Result<
    String,
    GenError,
>)
    ensures
        path_ok(substituted_spec(template@, param@, concrete@)) ==> (r matches Ok(s) && s@
            == substituted_spec(template@, param@, concrete@)),
        !path_ok(substituted_spec(template@, param@, concrete@)) ==> (r matches Err(e) && (e matches
            GenError::BadSubstitution { text } && text@ == substituted_spec(
            template@,
            param@,
            concrete@,
        ))),
{
    let s = substitute(template, param, concrete);
    if parses_as_path(s.as_str()) {
        Ok(s)
    } else {
        Err(GenError::BadSubstitution { text: s })
    }
}

} // verus!
