//! Key transformation: substitution commands and their normalization.
//!
//! The substitution engine itself is a black box: a command text and a key
//! deterministically give a replacement, named here by uninterpreted spec
//! functions.  What this module verifies is everything around the engine:
//! the normalization of escaped numeric back-references into the engine's
//! native positional syntax, and the discipline that only a command that
//! parses is ever executed.

use vstd::prelude::*;
use crate::errors::ExpressionError;

verus! {

/// Declares the substitution engine's parse-error type so that the library's
/// own error type can carry it through.
#[verifier::external_type_specification]
#[verifier::external_body]
pub struct ExErrorKind(sedregex::ErrorKind);

/// Names whether a substitution command parses; `sedregex::ReplaceCommand::new`
/// succeeds or fails on the command text alone.
pub uninterp spec fn wf_command(expr: Seq<char>) -> bool;

/// Names the replacement that a parsed substitution command produces on a key;
/// `sedregex::ReplaceCommand::execute` computes it from the command text and
/// the input text alone.
pub uninterp spec fn substituted(expr: Seq<char>, key: Seq<char>) -> Seq<char>;

/// Relies on `sedregex::ReplaceCommand::new`: it parses the command text and
/// nothing else, so success is a function of that text.
#[verifier::external_body]
fn check_replace_command(expr: &str) -> (r: Result<(), sedregex::ErrorKind>)
    ensures
        r is Ok <==> wf_command(expr@),
{
    match sedregex::ReplaceCommand::new(expr) {
        Ok(_) => Ok(()),
        Err(e) => Err(e),
    }
}

/// Relies on `sedregex::ReplaceCommand::new` and `execute`: on a command that
/// parses, the replacement is a function of the command text and the key.
#[verifier::external_body]
fn run_replace_command(expr: &str, key: &str) -> (r: String)
    requires
        wf_command(expr@),
    ensures
        r@ == substituted(expr@, key@),
{
    let command = sedregex::ReplaceCommand::new(expr).unwrap();
    command.execute(key).into_owned()
}

/// Whether a character is a decimal digit, the only characters that form a
/// numeric back-reference.
pub open spec fn is_backref_digit(c: char) -> bool {
    ('0' as u32) <= (c as u32) && (c as u32) <= ('9' as u32)
}

/// The normalization of escaped numeric back-references: every non-overlapping
/// occurrence of a backslash followed by a single digit becomes the engine's
/// native positional reference, a dollar sign followed by that digit.  This is
/// a plain textual rewrite, not an escape-aware parse: a literal escaped
/// backslash directly before a digit is rewritten too.
pub open spec fn rewrite_anonymous_spec(s: Seq<char>) -> Seq<char>
    decreases s.len(),
{
    if s.len() < 2 {
        s
    } else if s[0] == '\\' && is_backref_digit(s[1]) {
        seq!['$', s[1]] + rewrite_anonymous_spec(s.subrange(2, s.len() as int))
    } else {
        seq![s[0]] + rewrite_anonymous_spec(s.subrange(1, s.len() as int))
    }
}

/// The command text actually handed to the engine: rewritten when anonymous
/// capture groups are enabled, untouched otherwise.
pub open spec fn normalized_expr(e: Seq<char>, anonymous_groups: bool) -> Seq<char> {
    if anonymous_groups {
        rewrite_anonymous_spec(e)
    } else {
        e
    }
}

/// Rewrites every non-overlapping backslash-digit pair into a dollar-digit
/// pair, scanning left to right.
pub fn rewrite_anonymous_groups(s: &str) -> (r: String)
    ensures
        r@ == rewrite_anonymous_spec(s@),
{
    let n = s.unicode_len();
    let mut out = String::new();
    let mut i: usize = 0;
    proof {
        assert(s@.subrange(0, n as int) =~= s@);
    }
    while i < n
        invariant
            n == s@.len(),
            i <= n,
            rewrite_anonymous_spec(s@) == out@ + rewrite_anonymous_spec(
                s@.subrange(i as int, n as int),
            ),
        decreases n - i,
    {
        let ghost tail = s@.subrange(i as int, n as int);
        let c = s.get_char(i);
        let mut replaced = false;
        if c == '\\' && i + 1 < n {
            let d = s.get_char(i + 1);
            if (d as u32) >= ('0' as u32) && (d as u32) <= ('9' as u32) {
                out.append("$");
                let digit = s.substring_char(i + 1, i + 2);
                out.append(digit);
                proof {
                    reveal_strlit("$");
                    assert(tail.len() >= 2);
                    assert(tail[0] == '\\' && is_backref_digit(tail[1]));
                    assert(tail.subrange(2, tail.len() as int) =~= s@.subrange(
                        i + 2,
                        n as int,
                    ));
                    assert("$"@ + digit@ =~= seq!['$', tail[1]]);
                }
                i = i + 2;
                replaced = true;
            }
        }
        if !replaced {
            let piece = s.substring_char(i, i + 1);
            out.append(piece);
            proof {
                assert(piece@ =~= seq![tail[0]]);
                if tail.len() >= 2 {
                    assert(!(tail[0] == '\\' && is_backref_digit(tail[1])));
                    assert(tail.subrange(1, tail.len() as int) =~= s@.subrange(
                        i + 1,
                        n as int,
                    ));
                } else {
                    assert(tail =~= seq![tail[0]]);
                    assert(s@.subrange(i + 1, n as int) =~= Seq::<char>::empty());
                    assert(seq![tail[0]] + rewrite_anonymous_spec(
                        s@.subrange(i + 1, n as int),
                    ) =~= tail);
                }
            }
            i = i + 1;
        }
    }
    proof {
        assert(s@.subrange(n as int, n as int) =~= Seq::<char>::empty());
        assert(out@ + Seq::<char>::empty() =~= out@);
    }
    out
}

/// A compiled rename rule: a substitution command that is known to parse,
/// already normalized, shared read-only by every per-key task.
pub struct RenameExpr {
    expr: String,
}

impl View for RenameExpr {
    type V = Seq<char>;

    closed spec fn view(&self) -> Seq<char> {
        self.expr@
    }
}

impl RenameExpr {
    #[verifier::type_invariant]
    spec fn wf(self) -> bool {
        wf_command(self.expr@)
    }

    /// Builds the rename rule: normalizes escaped numeric back-references when
    /// anonymous capture groups are enabled, then hands the command to the
    /// engine's parser; a command the engine refuses is an expression error
    /// that carries the original, un-normalized text.
    pub fn new(expr: String, anonymous_groups: bool) -> (r: Result<RenameExpr, ExpressionError>)
        ensures
            r is Ok <==> wf_command(normalized_expr(expr@, anonymous_groups)),
            r matches Ok(re) ==> re@ == normalized_expr(expr@, anonymous_groups),
            r matches Err(ExpressionError::SedRegexParseError { expression: ex, error: _ })
                ==> ex@ == expr@,
    {
        let normalized = if anonymous_groups {
            rewrite_anonymous_groups(expr.as_str())
        } else {
            expr.clone()
        };
        match check_replace_command(normalized.as_str()) {
            Ok(()) => Ok(RenameExpr { expr: normalized }),
            Err(kind) => Err(
                ExpressionError::SedRegexParseError { expression: expr, error: kind },
            ),
        }
    }

    /// Applies the rule to a key, returning the transformed key; a key whose
    /// transform equals the input is no candidate for renaming.
    pub fn transform(&self, key: &str) -> (r: String)
        ensures
            r@ == substituted(self@, key@),
    {
        proof {
            use_type_invariant(&*self);
        }
        run_replace_command(self.expr.as_str(), key)
    }

    /// The normalized command text.
    pub fn text(&self) -> (r: &str)
        ensures
            r@ == self@,
    {
        self.expr.as_str()
    }
}

/// Validates a substitution command without keeping the parse: the original
/// text comes back when the engine accepts it.
pub fn replace_command_from_str(s: &str) -> (r: Result<String, sedregex::ErrorKind>)
    ensures
        r is Ok <==> wf_command(s@),
        r matches Ok(t) ==> t@ == s@,
{
    match check_replace_command(s) {
        Ok(()) => Ok(s.to_owned()),
        Err(e) => Err(e),
    }
}

/// With anonymous capture groups enabled, a command whose back-references are
/// written as a backslash followed by a digit behaves exactly like the
/// equivalent command written in the engine's native dollar-digit syntax:
/// both normalize to the same command text, so they substitute alike on every
/// key.
pub proof fn lemma_anonymous_backrefs_equivalent(raw: Seq<char>, key: Seq<char>)
    ensures
        normalized_expr(raw, true) == normalized_expr(rewrite_anonymous_spec(raw), false),
        substituted(normalized_expr(raw, true), key) == substituted(
            normalized_expr(rewrite_anonymous_spec(raw), false),
            key,
        ),
{
}

} // verus!
