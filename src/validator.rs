use crate::codegen::RUNNABLE_RAW_ATTR;
use crate::diagnostics::{diag, diagnostic_views, Anchor, Diagnostic, DiagnosticKind};
use crate::text::{contains_tag, has_tag, string_views};
use vstd::prelude::*;

verus! {

/// How a parameter is passed.
#[derive(Clone, Copy, Debug, PartialEq, Eq, Structural)]
pub enum Mutability {
    Immutable,
    Mutable,
    /// Passed by reference (`ref`).
    Reference,
}

/// The resolved type of a parameter, as far as the calling convention cares.
#[derive(Clone, Copy, Debug, PartialEq, Eq, Structural)]
pub enum ParamType {
    /// `Span<felt252>`.
    FeltSpan,
    /// `Array<felt252>`.
    FeltArray,
    /// Any other type.
    Other,
}

/// A resolved parameter.
#[derive(Clone, Copy, Debug, PartialEq, Eq, Structural)]
pub struct ParamSignature {
    pub ty: ParamType,
    pub mutability: Mutability,
}

/// A resolved function signature.
#[derive(Clone, Debug)]
pub struct Signature {
    /// Whether the return type is `()`.
    pub returns_unit: bool,
    pub params: Vec<ParamSignature>,
}

/// A free function of a module.
#[derive(Clone, Debug)]
pub struct FreeFunction {
    /// The names of the attributes attached to the function.
    pub attributes: Vec<String>,
    /// The resolved signature; `None` where resolution failed.
    pub signature: Option<Signature>,
}

/// Whether `f` is marked as a raw entry point.
pub open spec fn is_raw_entry_point(f: FreeFunction) -> bool {
    has_tag(string_views(f.attributes@), RUNNABLE_RAW_ATTR@)
}

/// The return-type check of the function at `index`.
pub open spec fn return_diagnostics(index: usize, sig: Signature) -> Seq<(DiagnosticKind, Anchor, Seq<char>)> {
    if sig.returns_unit {
        Seq::empty()
    } else {
        seq![diag(DiagnosticKind::InvalidReturnType, Anchor::ReturnType(index))]
    }
}

/// A diagnostic where `fails` holds, none where it does not.
pub open spec fn check(fails: bool, kind: DiagnosticKind, anchor: Anchor) -> Seq<(DiagnosticKind, Anchor, Seq<char>)> {
    if fails {
        seq![diag(kind, anchor)]
    } else {
        Seq::empty()
    }
}

/// The parameter checks of the function at `index`.
pub open spec fn param_diagnostics(index: usize, sig: Signature) -> Seq<(DiagnosticKind, Anchor, Seq<char>)> {
    let p = sig.params@;
    if p.len() != 2 {
        seq![diag(DiagnosticKind::InvalidParamCount, Anchor::ParamList(index))]
    } else {
        check(p[0].ty != ParamType::FeltSpan, DiagnosticKind::InvalidParamType, Anchor::Param(index, 0))
            + check(
            p[0].mutability == Mutability::Reference,
            DiagnosticKind::InvalidParamMutability,
            Anchor::Param(index, 0),
        ) + check(p[1].ty != ParamType::FeltArray, DiagnosticKind::InvalidParamType, Anchor::Param(index, 1))
            + check(
            p[1].mutability != Mutability::Reference,
            DiagnosticKind::InvalidParamMutability,
            Anchor::Param(index, 1),
        )
    }
}

/// The diagnostics of the function at `index` of its module.
pub open spec fn function_diagnostics(index: usize, f: FreeFunction) -> Seq<(DiagnosticKind, Anchor, Seq<char>)> {
    if !is_raw_entry_point(f) {
        Seq::empty()
    } else {
        match f.signature {
            None => Seq::empty(),
            Some(sig) => return_diagnostics(index, sig) + param_diagnostics(index, sig),
        }
    }
}

/// The diagnostics of the functions of a module, function by function.
pub open spec fn module_diagnostics(fs: Seq<FreeFunction>) -> Seq<(DiagnosticKind, Anchor, Seq<char>)>
    decreases fs.len(),
{
    if fs.len() == 0 {
        Seq::empty()
    } else {
        module_diagnostics(fs.drop_last()) + function_diagnostics((fs.len() - 1) as usize, fs.last())
    }
}

fn push_check(out: &mut Vec<Diagnostic>, fails: bool, kind: DiagnosticKind, anchor: Anchor)
    ensures
        diagnostic_views(final(out)@) == diagnostic_views(old(out)@) + check(fails, kind, anchor),
{
    let ghost before = diagnostic_views(out@);
    if fails {
        out.push(Diagnostic::new(kind, anchor));
    }
    assert(diagnostic_views(out@) =~= before + check(fails, kind, anchor));
}

/// Reports every way in which the raw entry point at `index` breaks the
/// calling convention.
pub fn check_function(index: usize, f: &FreeFunction, out: &mut Vec<Diagnostic>)
    ensures
        diagnostic_views(final(out)@) == diagnostic_views(old(out)@) + function_diagnostics(index, *f),
{
    let ghost before = diagnostic_views(out@);
    let raw = String::from_str(RUNNABLE_RAW_ATTR);
    if !contains_tag(&f.attributes, &raw) {
        assert(function_diagnostics(index, *f) =~= Seq::empty());
        assert(diagnostic_views(out@) =~= before + function_diagnostics(index, *f));
        return;
    }
    let sig = match &f.signature {
        Some(sig) => sig,
        None => {
            assert(diagnostic_views(out@) =~= before + function_diagnostics(index, *f));
            return;
        },
    };
    push_check(out, !sig.returns_unit, DiagnosticKind::InvalidReturnType, Anchor::ReturnType(index));
    if sig.params.len() != 2 {
        push_check(out, true, DiagnosticKind::InvalidParamCount, Anchor::ParamList(index));
        assert(diagnostic_views(out@) =~= before + function_diagnostics(index, *f));
        return;
    }
    let input = sig.params[0];
    let output = sig.params[1];
    push_check(out, input.ty != ParamType::FeltSpan, DiagnosticKind::InvalidParamType, Anchor::Param(index, 0));
    push_check(
        out,
        input.mutability == Mutability::Reference,
        DiagnosticKind::InvalidParamMutability,
        Anchor::Param(index, 0),
    );
    push_check(out, output.ty != ParamType::FeltArray, DiagnosticKind::InvalidParamType, Anchor::Param(index, 1));
    push_check(
        out,
        output.mutability != Mutability::Reference,
        DiagnosticKind::InvalidParamMutability,
        Anchor::Param(index, 1),
    );
    assert(diagnostic_views(out@) =~= before + function_diagnostics(index, *f));
}

/// Reports raw entry points that break the two-parameter calling convention.
#[derive(Clone, Copy, Debug, Default)]
pub struct RawRunnableAnalyzer;

impl RawRunnableAnalyzer {
    /// Checks every raw entry point among the free functions of a module.
    pub fn diagnostics(&self, functions: &Vec<FreeFunction>) -> (r: Vec<Diagnostic>)
        ensures
            diagnostic_views(r@) == module_diagnostics(functions@),
    {
        check_module(functions)
    }
}

fn check_module(functions: &Vec<FreeFunction>) -> (r: Vec<Diagnostic>)
    ensures
        diagnostic_views(r@) == module_diagnostics(functions@),
{
    let mut out: Vec<Diagnostic> = Vec::new();
    let mut i: usize = 0;
    assert(diagnostic_views(out@) =~= module_diagnostics(functions@.take(0)));
    while i < functions.len()
        invariant
            i <= functions@.len(),
            diagnostic_views(out@) == module_diagnostics(functions@.take(i as int)),
        decreases functions@.len() - i,
    {
        check_function(i, &functions[i], &mut out);
        assert(functions@.take(i + 1).drop_last() =~= functions@.take(i as int));
        i = i + 1;
    }
    assert(functions@.take(functions@.len() as int) =~= functions@);
    out
}

/// A raw entry point whose return type is not `()` gets exactly one
/// return-type diagnostic, whatever its parameters.
pub proof fn lemma_return_type_reported_once(index: usize, f: FreeFunction)
    requires
        is_raw_entry_point(f),
        f.signature is Some,
        !f.signature->0.returns_unit,
    ensures
        ({
            let s = function_diagnostics(index, f);
            &&& s.len() >= 1
            &&& s[0] == diag(DiagnosticKind::InvalidReturnType, Anchor::ReturnType(index))
            &&& forall|j: int| 1 <= j < s.len() ==> s[j].0 != DiagnosticKind::InvalidReturnType
        }),
{
    let sig = f.signature->0;
    let s = function_diagnostics(index, f);
    let p = param_diagnostics(index, sig);
    assert forall|j: int| 1 <= j < s.len() implies s[j].0 != DiagnosticKind::InvalidReturnType by {
        assert(s[j] == p[j - 1]);
        if sig.params@.len() == 2 {
            let c0 = check(sig.params@[0].ty != ParamType::FeltSpan, DiagnosticKind::InvalidParamType, Anchor::Param(index, 0));
            let c1 = check(sig.params@[0].mutability == Mutability::Reference, DiagnosticKind::InvalidParamMutability, Anchor::Param(index, 0));
            let c2 = check(sig.params@[1].ty != ParamType::FeltArray, DiagnosticKind::InvalidParamType, Anchor::Param(index, 1));
            let c3 = check(sig.params@[1].mutability != Mutability::Reference, DiagnosticKind::InvalidParamMutability, Anchor::Param(index, 1));
            assert(p == c0 + c1 + c2 + c3);
        }
    }
}

/// A raw entry point that does not take exactly two parameters gets exactly
/// one parameter-count diagnostic, after its return-type diagnostic if any,
/// and no type or mutability diagnostic.
pub proof fn lemma_param_count_reported_alone(index: usize, f: FreeFunction)
    requires
        is_raw_entry_point(f),
        f.signature is Some,
        f.signature->0.params@.len() != 2,
    ensures
        function_diagnostics(index, f) == return_diagnostics(index, f.signature->0) + seq![
            diag(DiagnosticKind::InvalidParamCount, Anchor::ParamList(index)),
        ],
        forall|j: int|
            0 <= j < function_diagnostics(index, f).len() ==> {
                let k = #[trigger] function_diagnostics(index, f)[j].0;
                k != DiagnosticKind::InvalidParamType && k != DiagnosticKind::InvalidParamMutability
            },
{
    let s = function_diagnostics(index, f);
    let r = return_diagnostics(index, f.signature->0);
    assert forall|j: int| 0 <= j < s.len() implies {
        let k = #[trigger] s[j].0;
        k != DiagnosticKind::InvalidParamType && k != DiagnosticKind::InvalidParamMutability
    } by {
        if j < r.len() {
            assert(s[j] == r[j]);
        }
    }
}

/// A raw entry point with two parameters whose first parameter has the wrong
/// type and is passed by reference gets exactly two diagnostics at that
/// parameter: one for its type, then one for how it is passed.
pub proof fn lemma_first_param_reported_twice(index: usize, f: FreeFunction)
    requires
        is_raw_entry_point(f),
        f.signature is Some,
        f.signature->0.params@.len() == 2,
        f.signature->0.params@[0].ty != ParamType::FeltSpan,
        f.signature->0.params@[0].mutability == Mutability::Reference,
    ensures
        ({
            let s = function_diagnostics(index, f);
            let r = if f.signature->0.returns_unit { 0int } else { 1int };
            &&& s[r] == diag(DiagnosticKind::InvalidParamType, Anchor::Param(index, 0))
            &&& s[r + 1] == diag(DiagnosticKind::InvalidParamMutability, Anchor::Param(index, 0))
            &&& forall|j: int| 0 <= j < s.len() && s[j].1 == Anchor::Param(index, 0) ==> j == r || j == r + 1
        }),
{
    let sig = f.signature->0;
    let s = function_diagnostics(index, f);
    let ret = return_diagnostics(index, sig);
    let c2 = check(sig.params@[1].ty != ParamType::FeltArray, DiagnosticKind::InvalidParamType, Anchor::Param(index, 1));
    let c3 = check(sig.params@[1].mutability != Mutability::Reference, DiagnosticKind::InvalidParamMutability, Anchor::Param(index, 1));
    let both = seq![
        diag(DiagnosticKind::InvalidParamType, Anchor::Param(index, 0)),
        diag(DiagnosticKind::InvalidParamMutability, Anchor::Param(index, 0)),
    ];
    assert(s =~= ret + both + c2 + c3);
    let rl = ret.len() as int;
    assert forall|j: int| 0 <= j < s.len() && s[j].1 == Anchor::Param(index, 0) implies j == rl || j == rl + 1 by {
        if j < rl {
            assert(s[j] == ret[j]);
        } else if j >= rl + 2 {
            let rest = c2 + c3;
            assert(s[j] == rest[j - rl - 2]);
        }
    }
}

} // verus!
